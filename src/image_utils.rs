use vstd::prelude::*;

use crate::error::XCapError;
use crate::pixel::{keeps_alpha, strip_padding, strip_row_padding, swap_red_blue, swaps_red_blue};
use crate::rgba_image::{fits, RgbaImage};

verus! {

/// Wraps `buf` as a `width` by `height` RGBA8 image, or fails when it is too small.
pub fn vec_to_rgba_image(width: u32, height: u32, buf: Vec<u8>) -> (r: Result<RgbaImage, XCapError>)
    ensures
        r.is_ok() <==> fits(width, height, buf@.len() as int),
        r matches Ok(img) ==> img.spec_width() == width && img.spec_height() == height
            && img.spec_raw() == buf@,
        r matches Err(e) ==> e matches XCapError::Error(m) && m@ == "buffer not big enough"@,
{
    match RgbaImage::from_vec(width, height, buf) {
        Some(img) => Ok(img),
        None => Err(XCapError::new("buffer not big enough")),
    }
}

/// Reorders BGRA pixels to RGBA, keeping each pixel's alpha, and wraps the result.
pub fn bgra_to_rgba_image(width: u32, height: u32, buf: Vec<u8>) -> (r: Result<RgbaImage, XCapError>)
    ensures
        r.is_ok() <==> fits(width, height, buf@.len() as int),
        r matches Ok(img) ==> {
            &&& img.spec_width() == width
            &&& img.spec_height() == height
            &&& swaps_red_blue(buf@, img.spec_raw())
            &&& keeps_alpha(buf@, img.spec_raw())
        },
        r matches Err(e) ==> e matches XCapError::Error(m) && m@ == "buffer not big enough"@,
{
    let rgba = swap_red_blue(buf, false);
    vec_to_rgba_image(width, height, rgba)
}

/// Drops the bytes past `width` pixels at the end of every `bytes_per_row`-byte row.
pub fn remove_extra_data(width: usize, bytes_per_row: usize, buf: Vec<u8>) -> (r: Vec<u8>)
    requires
        0 < bytes_per_row,
        4 * width <= bytes_per_row,
    ensures
        r@ == strip_padding(buf@, (4 * width) as nat, bytes_per_row as nat),
{
    strip_row_padding(4 * width, bytes_per_row, buf.as_slice())
}

} // verus!
