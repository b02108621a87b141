pub mod device;
pub mod ffmpeg;
