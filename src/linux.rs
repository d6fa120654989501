pub mod xorg_video_recorder;
pub mod wayland_video_recorder;
pub mod utils;
pub mod wayland_capture;
