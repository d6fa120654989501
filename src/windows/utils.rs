use vstd::prelude::*;

use crate::error::XCapError;
use crate::pixel::{chan, pixel_count, swap_red_blue, swaps_red_blue};
use crate::rgba_image::{fits, RgbaImage};

verus! {

/// The major Windows release of an OS build number.
pub open spec fn os_major_version_of(build_number: u32) -> u8 {
    if build_number >= 22000 {
        11
    } else if build_number >= 10240 {
        10
    } else if build_number >= 9200 {
        8
    } else {
        7
    }
}

/// Alpha of a converted pixel: releases before Windows 8 report opaque pixels
/// with alpha 0, which become 255; any other alpha is kept.
pub open spec fn fixed_alpha(alpha: u8, os_major_version: u8) -> u8 {
    if alpha == 0 && os_major_version < 8 {
        255
    } else {
        alpha
    }
}

/// Maps a build number (as read from the registry) to the Windows major version.
pub fn get_os_major_version(build_number: u32) -> (r: u8)
    ensures
        r == os_major_version_of(build_number),
{
    if build_number >= 22000 {
        11
    } else if build_number >= 10240 {
        10
    } else if build_number >= 9200 {
        8
    } else {
        7
    }
}

/// Reorders BGRA pixels to RGBA, fixing the alpha of pre-Windows 8 captures.
pub fn bgra_to_rgba(buffer: Vec<u8>, os_major_version: u8) -> (r: Vec<u8>)
    ensures
        swaps_red_blue(buffer@, r@),
        forall|p: int|
            0 <= p < pixel_count(buffer@) ==> #[trigger] chan(r@, p, 3) == fixed_alpha(
                chan(buffer@, p, 3),
                os_major_version,
            ),
{
    let mut v = swap_red_blue(buffer, false);
    let ghost swapped = v@;
    let is_old_version = os_major_version < 8;
    let len: usize = v.len();
    let n: usize = len / 4;
    let mut p: usize = 0;
    while p < n
        invariant
            n == swapped.len() / 4,
            len == swapped.len(),
            is_old_version == (os_major_version < 8),
            p <= n,
            v@.len() == swapped.len(),
            forall|i: int|
                0 <= i < v@.len() && (i % 4 != 3 || i >= 4 * p) ==> #[trigger] v@[i] == swapped[i],
            forall|q: int|
                0 <= q < p ==> #[trigger] chan(v@, q, 3) == fixed_alpha(
                    chan(swapped, q, 3),
                    os_major_version,
                ),
        decreases n - p,
    {
        assert(4 * p + 4 <= swapped.len()) by (nonlinear_arith)
            requires
                p < n,
                n == swapped.len() / 4,
        ;
        let i: usize = 4 * p + 3;
        let ghost prev = v@;
        assert(prev[i as int] == swapped[i as int]);
        let alpha: u8 = v[i];
        if alpha == 0 && is_old_version {
            v.set(i, 255);
            assert(v@[i as int] == fixed_alpha(swapped[i as int], os_major_version));
        } else {
            assert(v@[i as int] == fixed_alpha(swapped[i as int], os_major_version));
        }
        assert(v@[i as int] == fixed_alpha(swapped[i as int], os_major_version));
        proof {
            assert(i % 4 == 3);
            assert forall|k: int|
                0 <= k < v@.len() && (k % 4 != 3 || k >= 4 * (p + 1)) implies #[trigger] v@[k]
                == swapped[k] by {
                assert(k != i);
                assert(prev[k] == swapped[k]);
            }
            assert(chan(v@, p as int, 3) == fixed_alpha(chan(swapped, p as int, 3), os_major_version));
            assert forall|q: int| 0 <= q < p implies #[trigger] chan(v@, q, 3) == chan(prev, q, 3) by {
                assert(4 * q + 3 != i);
            }
        }
        p = p + 1;
    }
    proof {
        assert forall|q: int| 0 <= q < pixel_count(swapped) implies #[trigger] chan(v@, q, 0)
            == chan(swapped, q, 0) && chan(v@, q, 1) == chan(swapped, q, 1) && chan(v@, q, 2)
            == chan(swapped, q, 2) by {
            assert((4 * q) % 4 == 0);
            assert((4 * q + 1) % 4 == 1);
            assert((4 * q + 2) % 4 == 2);
        }
        assert forall|i: int| 4 * pixel_count(swapped) <= i < swapped.len() implies #[trigger] v@[i]
            == swapped[i] by {
            assert(i >= 4 * p);
        }
    }
    v
}

/// Converts a BGRA capture to an RGBA image, or fails when the buffer is too small.
pub fn bgra_to_rgba_image(width: u32, height: u32, buffer: Vec<u8>, os_major_version: u8) -> (r: Result<RgbaImage, XCapError>)
    ensures
        r.is_ok() <==> fits(width, height, buffer@.len() as int),
        r matches Ok(img) ==> {
            &&& img.spec_width() == width
            &&& img.spec_height() == height
            &&& swaps_red_blue(buffer@, img.spec_raw())
            &&& forall|p: int|
                0 <= p < pixel_count(buffer@) ==> #[trigger] chan(img.spec_raw(), p, 3)
                    == fixed_alpha(chan(buffer@, p, 3), os_major_version)
        },
        r matches Err(e) ==> e matches XCapError::Error(m) && m@ == "RgbaImage::from_raw failed"@,
{
    let rgba = bgra_to_rgba(buffer, os_major_version);
    match RgbaImage::from_vec(width, height, rgba) {
        Some(img) => Ok(img),
        None => Err(XCapError::new("RgbaImage::from_raw failed")),
    }
}

} // verus!
