use vstd::prelude::*;

use crate::error::XCapError;
use crate::rgba_image::RgbaImage;
use crate::video_recorder::{rgba_len, Frame};

verus! {

/// Pause after a frame was handed on, bounding the polling rate.
pub const FRAME_INTERVAL_MS: u64 = 1;

/// Pause after a failed capture before trying again.
pub const RETRY_INTERVAL_MS: u64 = 10;

/// What the polling producer does with one still capture.
#[derive(Debug)]
pub struct RawPollAction {
    /// The frame to send, if the capture gave one.
    pub frame: Option<Frame>,
    /// Milliseconds to sleep before the next capture.
    pub pause_ms: u64,
}

/// Turns a still image into a frame, unchanged; `None` when its buffer is not
/// exactly four bytes per pixel.
pub fn image_to_frame(image: RgbaImage) -> (r: Option<Frame>)
    ensures
        r.is_some() <==> image.spec_raw().len() == rgba_len(
            image.spec_width() as int,
            image.spec_height() as int,
        ),
        r matches Some(f) ==> f.wf() && f.width == image.spec_width() && f.height
            == image.spec_height() && f.raw@ == image.spec_raw(),
{
    let width = image.width();
    let height = image.height();
    let raw = image.into_raw();
    let w: u128 = width as u128;
    let h: u128 = height as u128;
    assert((w as int) * (h as int) <= 0xffff_ffff_ffff_ffff) by (nonlinear_arith)
        requires
            w <= 0xffff_ffff,
            h <= 0xffff_ffff,
    ;
    if w * h * 4 != raw.len() as u128 {
        return None;
    }
    Some(Frame::new(width, height, raw))
}

/// One step of the polling producer: a captured image is forwarded and followed
/// by the short frame interval; a failure (never fatal at this layer) or an
/// unusable image is dropped and retried after the longer pause.
pub fn raw_poll_step(capture: Result<RgbaImage, XCapError>) -> (r: RawPollAction)
    ensures
        match capture {
            Ok(image) => if image.spec_raw().len() == rgba_len(
                image.spec_width() as int,
                image.spec_height() as int,
            ) {
                r.pause_ms == FRAME_INTERVAL_MS && (r.frame matches Some(f) && f.wf() && f.width
                    == image.spec_width() && f.height == image.spec_height() && f.raw@
                    == image.spec_raw())
            } else {
                r.pause_ms == RETRY_INTERVAL_MS && r.frame is None
            },
            Err(_) => r.pause_ms == RETRY_INTERVAL_MS && r.frame is None,
        },
{
    match capture {
        Ok(image) => match image_to_frame(image) {
            Some(frame) => RawPollAction { frame: Some(frame), pause_ms: FRAME_INTERVAL_MS },
            None => RawPollAction { frame: None, pause_ms: RETRY_INTERVAL_MS },
        },
        Err(_) => RawPollAction { frame: None, pause_ms: RETRY_INTERVAL_MS },
    }
}

} // verus!
