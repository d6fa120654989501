use vstd::prelude::*;

verus! {

/// An RGBA8 image: `width * height` pixels of four bytes, row-major, held in a
/// buffer at least that long.
#[derive(Debug, Clone, PartialEq, Eq)]
pub struct RgbaImage {
    width: u32,
    height: u32,
    raw: Vec<u8>,
}

/// Whether a buffer of `len` bytes holds a `width` by `height` RGBA8 image.
pub open spec fn fits(width: u32, height: u32, len: int) -> bool {
    4 * ((width as int) * (height as int)) <= len
}

impl RgbaImage {
    pub closed spec fn spec_width(&self) -> u32 {
        self.width
    }

    pub closed spec fn spec_height(&self) -> u32 {
        self.height
    }

    pub closed spec fn spec_raw(&self) -> Seq<u8> {
        self.raw@
    }

    /// The buffer is large enough for the dimensions.
    pub open spec fn wf(&self) -> bool {
        fits(self.spec_width(), self.spec_height(), self.spec_raw().len() as int)
    }

    /// Wraps `buf` as a `width` by `height` image; `None` when the buffer is too
    /// small for those dimensions.
    pub fn from_vec(width: u32, height: u32, buf: Vec<u8>) -> (r: Option<RgbaImage>)
        ensures
            r.is_some() <==> fits(width, height, buf@.len() as int),
            r matches Some(img) ==> {
                &&& img.spec_width() == width
                &&& img.spec_height() == height
                &&& img.spec_raw() == buf@
                &&& img.wf()
            },
    {
        let w: u128 = width as u128;
        let h: u128 = height as u128;
        assert((w as int) * (h as int) <= 0xffff_ffff_ffff_ffff) by (nonlinear_arith)
            requires
                w <= 0xffff_ffff,
                h <= 0xffff_ffff,
        ;
        let area: u128 = w * h;
        let need: u128 = 4 * area;
        if need <= buf.len() as u128 {
            Some(RgbaImage { width, height, raw: buf })
        } else {
            None
        }
    }

    pub fn width(&self) -> (r: u32)
        ensures
            r == self.spec_width(),
    {
        self.width
    }

    pub fn height(&self) -> (r: u32)
        ensures
            r == self.spec_height(),
    {
        self.height
    }

    pub fn as_raw(&self) -> (r: &Vec<u8>)
        ensures
            r@ == self.spec_raw(),
    {
        &self.raw
    }

    pub fn into_raw(self) -> (r: Vec<u8>)
        ensures
            r@ == self.spec_raw(),
    {
        self.raw
    }
}

} // verus!
