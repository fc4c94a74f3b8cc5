use vstd::prelude::*;

verus! {

/// Whether a buffer of `len` bytes holds exactly `w` x `h` pixels of
/// `channels` bytes each.
pub open spec fn sized_for(len: nat, w: u32, h: u32, channels: nat) -> bool {
    len == channels * w * h
}

/// Tells whether `len` bytes are exactly `w` x `h` pixels of `channels` bytes.
pub fn buffer_fits(len: usize, w: u32, h: u32, channels: u64) -> (r: bool)
    requires
        1 <= channels,
    ensures
        r == sized_for(len as nat, w, h, channels as nat),
{
    proof {
        assert(w as int * h as int <= 0xffff_ffffu64 * 0xffff_ffffu64) by (nonlinear_arith)
            requires w <= 0xffff_ffffu64, h <= 0xffff_ffffu64, w >= 0, h >= 0;
        assert(channels as int * w as int * h as int == (w as int * h as int) * channels as int) by (nonlinear_arith);
    }
    let px: u64 = w as u64 * h as u64;
    if px > u64::MAX / channels {
        proof {
            assert(px as int * channels as int > len as int) by (nonlinear_arith)
                requires px > 0xffff_ffff_ffff_ffffu64 / channels, channels >= 1, len <= 0xffff_ffff_ffff_ffffu64;
        }
        false
    } else {
        proof {
            assert(px * channels <= u64::MAX) by (nonlinear_arith)
                requires px <= 0xffff_ffff_ffff_ffffu64 / channels, channels >= 1;
        }
        len as u64 == px * channels
    }
}

/// An 8-bit RGBA image: `width` x `height` pixels of four interleaved bytes,
/// row by row, without padding.
#[derive(Debug, Clone, PartialEq, Eq)]
pub struct RgbaImage {
    pub width: u32,
    pub height: u32,
    pub data: Vec<u8>,
}

impl RgbaImage {
    /// The buffer holds exactly four bytes per pixel.
    pub open spec fn wf(&self) -> bool {
        sized_for(self.data@.len(), self.width, self.height, 4)
    }

    /// Wraps `data` as a `width` x `height` image, if its length fits.
    pub fn from_raw(width: u32, height: u32, data: Vec<u8>) -> (r: Option<RgbaImage>)
        ensures
            r is Some <==> sized_for(data@.len(), width, height, 4),
            r matches Some(img) ==> img.width == width && img.height == height && img.data@ == data@,
    {
        if buffer_fits(data.len(), width, height, 4) {
            Some(RgbaImage { width, height, data })
        } else {
            None
        }
    }

    /// Width and height, in pixels.
    pub fn dimensions(&self) -> (r: (u32, u32))
        ensures
            r == (self.width, self.height),
    {
        (self.width, self.height)
    }

    /// The pixel bytes.
    pub fn as_raw(&self) -> (r: &Vec<u8>)
        ensures
            r@ == self.data@,
    {
        &self.data
    }
}

/// A single-channel mask at eight bits: one level per pixel, row by row,
/// where 0 is background and 255 is foreground.
#[derive(Debug, Clone, PartialEq, Eq)]
pub struct AlphaMask {
    pub width: u32,
    pub height: u32,
    pub data: Vec<u8>,
}

impl AlphaMask {
    /// The buffer holds exactly one byte per pixel.
    pub open spec fn wf(&self) -> bool {
        sized_for(self.data@.len(), self.width, self.height, 1)
    }

    /// Wraps `data` as a `width` x `height` mask, if its length fits.
    pub fn from_raw(width: u32, height: u32, data: Vec<u8>) -> (r: Option<AlphaMask>)
        ensures
            r is Some <==> sized_for(data@.len(), width, height, 1),
            r matches Some(m) ==> m.width == width && m.height == height && m.data@ == data@,
    {
        if buffer_fits(data.len(), width, height, 1) {
            Some(AlphaMask { width, height, data })
        } else {
            None
        }
    }

    /// Width and height, in pixels.
    pub fn dimensions(&self) -> (r: (u32, u32))
        ensures
            r == (self.width, self.height),
    {
        (self.width, self.height)
    }

    /// The mask levels.
    pub fn as_raw(&self) -> (r: &Vec<u8>)
        ensures
            r@ == self.data@,
    {
        &self.data
    }
}

} // verus!
