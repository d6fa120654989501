pub mod impl_video_recorder;
