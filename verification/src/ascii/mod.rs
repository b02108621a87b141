pub mod color;
pub mod mapper;
pub mod ramp;
