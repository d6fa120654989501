use vstd::prelude::*;

use crate::video_recorder::{bgrx_frame, decode_bgrx_rows, rows_readable, Frame};

verus! {

/// The four-character code of 32-bit BGRA pixel buffers, the one format the
/// capture output is configured for.
pub const PIXEL_FORMAT_32BGRA: u32 = 0x4247_5241;

/// Whether a pixel buffer of this description can become a frame.
pub open spec fn sample_decodable(format_type: u32, width: usize, height: usize, bytes_per_row: usize, len: int) -> bool {
    &&& format_type == PIXEL_FORMAT_32BGRA
    &&& width <= u32::MAX
    &&& height <= u32::MAX
    &&& rows_readable(width as u32, height as u32, bytes_per_row, len)
}

/// The body of the capture callback for one locked pixel buffer. While the
/// recorder is stopped the buffer is not copied at all; otherwise a buffer of
/// the negotiated format becomes a frame, and any other buffer is skipped.
pub fn capture_sample(
    armed: bool,
    format_type: u32,
    width: usize,
    height: usize,
    bytes_per_row: usize,
    data: &[u8],
) -> (r: Option<Frame>)
    ensures
        r.is_some() <==> armed && sample_decodable(format_type, width, height, bytes_per_row, data@.len() as int),
        r matches Some(f) ==> bgrx_frame(width as u32, height as u32, bytes_per_row, data@, f),
{
    if !armed || format_type != PIXEL_FORMAT_32BGRA {
        return None;
    }
    if width > u32::MAX as usize || height > u32::MAX as usize {
        return None;
    }
    decode_bgrx_rows(width as u32, height as u32, bytes_per_row, data)
}

} // verus!
