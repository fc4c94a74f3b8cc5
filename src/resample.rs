use vstd::prelude::*;
use crate::buffer::{buffer_fits, sized_for, RgbaImage};
use crate::error::PipelineError;
use fast_image_resize::images::Image;
use fast_image_resize::{PixelType, Resizer};

verus! {

/// The pixel formats that the resampler handles.
#[derive(Debug, Clone, Copy, PartialEq, Eq)]
pub enum PixelLayout {
    /// Four interleaved bytes per pixel: red, green, blue, alpha.
    Rgba8,
    /// One byte per pixel.
    Gray8,
}

impl PixelLayout {
    /// Bytes per pixel.
    pub open spec fn channels(self) -> nat {
        match self {
            PixelLayout::Rgba8 => 4,
            PixelLayout::Gray8 => 1,
        }
    }

    /// Bytes per pixel.
    pub fn bytes_per_pixel(self) -> (r: u64)
        ensures
            r as nat == self.channels(),
    {
        match self {
            PixelLayout::Rgba8 => 4,
            PixelLayout::Gray8 => 1,
        }
    }
}

/// The bytes of a `dst_w` x `dst_h` image that a Lanczos3 convolution makes
/// of the `src_w` x `src_h` image `src`, with `channels` bytes per pixel.
pub uninterp spec fn resampled(src: Seq<u8>, channels: nat, src_w: u32, src_h: u32, dst_w: u32, dst_h: u32) -> Seq<u8>;

/// What resampling `src` from `src_w` x `src_h` to `dst_w` x `dst_h` gives:
/// the same bytes when the sizes agree, otherwise the convolution's result.
pub open spec fn resample_spec(src: Seq<u8>, channels: nat, src_w: u32, src_h: u32, dst_w: u32, dst_h: u32) -> Seq<u8> {
    if src_w == dst_w && src_h == dst_h {
        src
    } else {
        resampled(src, channels, src_w, src_h, dst_w, dst_h)
    }
}

/// Whether a `w` x `h` buffer of `channels` bytes per pixel can be
/// allocated: a `Vec` holds at most `isize::MAX` bytes.
pub open spec fn allocatable(w: u32, h: u32, channels: nat) -> bool {
    channels * w * h <= isize::MAX
}

/// Whether resampling from `src_w` x `src_h` to `dst_w` x `dst_h` can give
/// a result: every side is positive, and equal sizes are copied while other
/// sizes need a new buffer.
pub open spec fn resizable(src_w: u32, src_h: u32, dst_w: u32, dst_h: u32, channels: nat) -> bool {
    &&& src_w > 0 && src_h > 0 && dst_w > 0 && dst_h > 0
    &&& (src_w == dst_w && src_h == dst_h) || allocatable(dst_w, dst_h, channels)
}

/// Relies on fast_image_resize's `Image::from_vec_u8`, `Image::new` and
/// `Resizer::resize` with default options (Lanczos3 convolution, on the best
/// CPU extensions at hand, which the crate holds to the same output).
/// `from_vec_u8` accepts a buffer of width * height * pixel size bytes (U8
/// and U8x4 need no alignment), `resize` succeeds when the two pixel types
/// agree, and the destination holds width * height * pixel size bytes.
#[verifier::external_body]
fn fir_resize(src: &Vec<u8>, layout: PixelLayout, src_w: u32, src_h: u32, dst_w: u32, dst_h: u32) -> (r: Option<Vec<u8>>)
    requires
        sized_for(src@.len(), src_w, src_h, layout.channels()),
        allocatable(dst_w, dst_h, layout.channels()),
    ensures
        r is Some,
        r.unwrap()@ == resampled(src@, layout.channels(), src_w, src_h, dst_w, dst_h),
        sized_for(r.unwrap()@.len(), dst_w, dst_h, layout.channels()),
{
    let pixel_type = match layout {
        PixelLayout::Rgba8 => PixelType::U8x4,
        PixelLayout::Gray8 => PixelType::U8,
    };
    let src_image = Image::from_vec_u8(src_w, src_h, src.clone(), pixel_type).ok()?;
    let mut dst_image = Image::new(dst_w, dst_h, pixel_type);
    Resizer::new().resize(&src_image, &mut dst_image, None).ok()?;
    Some(dst_image.buffer().to_vec())
}

/// Tells whether a `w` x `h` buffer of `channels` bytes per pixel can be allocated.
fn can_allocate(w: u32, h: u32, channels: u64) -> (r: bool)
    requires
        1 <= channels <= 4,
    ensures
        r == allocatable(w, h, channels as nat),
{
    proof {
        assert(channels as int * w as int <= 4 * 0xffff_ffffu64) by (nonlinear_arith)
            requires w <= 0xffff_ffffu64, w >= 0, 1 <= channels <= 4;
        assert(channels as int * w as int * h as int <= 4 * 0xffff_ffffu64 * 0xffff_ffffu64) by (nonlinear_arith)
            requires w <= 0xffff_ffffu64, h <= 0xffff_ffffu64, w >= 0, h >= 0, 1 <= channels <= 4;
    }
    let n: u128 = channels as u128 * w as u128 * h as u128;
    n <= isize::MAX as u128
}

/// Resamples a `src_w` x `src_h` buffer of `layout` pixels to `dst_w` x
/// `dst_h`. Equal sizes give an exact copy. Fails with `ResizeFailed` when
/// a side is zero, when the buffer's length disagrees with its size, or when
/// a destination of another size cannot be allocated.
pub fn resample_buffer(src: &Vec<u8>, layout: PixelLayout, src_w: u32, src_h: u32, dst_w: u32, dst_h: u32) -> (r: Result<Vec<u8>, PipelineError>)
    ensures
        !sized_for(src@.len(), src_w, src_h, layout.channels())
            || !resizable(src_w, src_h, dst_w, dst_h, layout.channels())
            ==> r == Err::<Vec<u8>, PipelineError>(PipelineError::ResizeFailed),
        sized_for(src@.len(), src_w, src_h, layout.channels()) && resizable(src_w, src_h, dst_w, dst_h, layout.channels())
            ==> (r matches Ok(v) && v@ == resample_spec(src@, layout.channels(), src_w, src_h, dst_w, dst_h)),
        r matches Ok(v) ==> sized_for(v@.len(), dst_w, dst_h, layout.channels()),
{
    let ch = layout.bytes_per_pixel();
    if !buffer_fits(src.len(), src_w, src_h, ch) || src_w == 0 || src_h == 0 || dst_w == 0 || dst_h == 0 {
        return Err(PipelineError::ResizeFailed);
    }
    if src_w == dst_w && src_h == dst_h {
        return Ok(src.clone());
    }
    if !can_allocate(dst_w, dst_h, ch) {
        return Err(PipelineError::ResizeFailed);
    }
    match fir_resize(src, layout, src_w, src_h, dst_w, dst_h) {
        Some(v) => Ok(v),
        None => Err(PipelineError::ResizeFailed),
    }
}

/// Resamples an RGBA image to `new_width` x `new_height`; equal sizes give
/// an exact copy. Fails with `ResizeFailed` when a side is zero, when the
/// image's buffer disagrees with its size, or when a result of another size
/// cannot be allocated.
pub fn fast_resize(img: &RgbaImage, new_width: u32, new_height: u32) -> (r: Result<RgbaImage, PipelineError>)
    ensures
        !img.wf() || !resizable(img.width, img.height, new_width, new_height, 4)
            ==> r == Err::<RgbaImage, PipelineError>(PipelineError::ResizeFailed),
        img.wf() && resizable(img.width, img.height, new_width, new_height, 4) ==> (r matches Ok(out)
            && out.width == new_width && out.height == new_height
            && out.data@ == resample_spec(img.data@, 4, img.width, img.height, new_width, new_height)),
        img.wf() && img.width > 0 && img.height > 0 && new_width == img.width && new_height == img.height
            ==> (r matches Ok(out) && out.data@ == img.data@),
        r matches Ok(out) ==> out.wf(),
{
    match resample_buffer(&img.data, PixelLayout::Rgba8, img.width, img.height, new_width, new_height) {
        Ok(data) => Ok(RgbaImage { width: new_width, height: new_height, data }),
        Err(e) => Err(e),
    }
}

} // verus!
