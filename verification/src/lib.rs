pub mod ascii;
pub mod camera;
pub mod config;
pub mod error;
pub mod frame;
pub mod runtime;
pub mod terminal;
pub mod text;
