pub mod input;
pub mod renderer;
