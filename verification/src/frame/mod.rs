pub mod frame;
pub mod luminance;
pub mod resize;
