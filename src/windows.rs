pub mod utils;
pub mod impl_video_recorder;
