//! Screen-frame capture engine: the frame model, pixel normalization, and the
//! control and producer decisions of the recording backends.
pub mod error;
pub mod image_utils;
pub mod linux;
pub mod macos;
pub mod pixel;
pub mod rgba_image;
pub mod utils;
pub mod video_recorder;
pub mod windows;
