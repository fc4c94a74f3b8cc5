use vstd::prelude::*;
use crate::buffer::{AlphaMask, RgbaImage};
use crate::error::PipelineError;
use rayon::iter::{IndexedParallelIterator, ParallelIterator};
use rayon::slice::ParallelSliceMut;

verus! {

/// The RGBA bytes made of the pixels `rgba` and the mask levels `alpha`:
/// each pixel keeps its red, green and blue bytes, and its alpha byte is the
/// pixel's mask level.
pub open spec fn composited(rgba: Seq<u8>, alpha: Seq<u8>) -> Seq<u8> {
    Seq::new(4 * alpha.len(), |k: int| if k % 4 == 3 { alpha[k / 4] } else { rgba[k] })
}

/// Whether `img` and `mask` describe the same pixel grid, each with a
/// buffer that fits its size.
pub open spec fn compatible(img: RgbaImage, mask: AlphaMask) -> bool {
    &&& img.wf()
    &&& mask.wf()
    &&& img.width == mask.width
    &&& img.height == mask.height
}

/// Writes output pixel `i` into `chunk`: the colours of pixel `i` of `rgba`
/// and the level `alpha[i]`.
pub fn write_pixel(rgba: &Vec<u8>, alpha: &Vec<u8>, i: usize, chunk: &mut [u8])
    requires
        old(chunk)@.len() == 4,
        i < alpha@.len(),
        rgba@.len() == 4 * alpha@.len(),
    ensures
        final(chunk)@ == composited(rgba@, alpha@).subrange(4 * i, 4 * i + 4),
{
    assert(rgba.len() == rgba@.len());
    chunk[0] = rgba[4 * i];
    chunk[1] = rgba[4 * i + 1];
    chunk[2] = rgba[4 * i + 2];
    chunk[3] = alpha[i];
    assert(chunk@ =~= composited(rgba@, alpha@).subrange(4 * i, 4 * i + 4));
}

/// Relies on rayon's `par_chunks_exact_mut(4)`, `enumerate` and `for_each`:
/// `out`, of a length divisible by four, is split into its consecutive
/// four-byte chunks, and the closure runs once on each, with its index.
#[verifier::external_body]
fn par_write_pixels(out: &mut Vec<u8>, rgba: &Vec<u8>, alpha: &Vec<u8>)
    requires
        old(out)@.len() == 4 * alpha@.len(),
        rgba@.len() == 4 * alpha@.len(),
    ensures
        final(out)@ == composited(rgba@, alpha@),
{
    out.par_chunks_exact_mut(4).enumerate().for_each(|(i, chunk)| write_pixel(rgba, alpha, i, chunk));
}

/// Applies `mask` as the alpha channel of `img`, one pixel per parallel task.
/// Fails with `DimensionMismatch` unless both have the same size and
/// buffers that fit it.
pub fn apply_mask(img: &RgbaImage, mask: &AlphaMask) -> (r: Result<RgbaImage, PipelineError>)
    ensures
        !compatible(*img, *mask) ==> r == Err::<RgbaImage, PipelineError>(PipelineError::DimensionMismatch),
        compatible(*img, *mask) ==> (r matches Ok(out) && out.width == img.width
            && out.height == img.height && out.data@ == composited(img.data@, mask.data@)),
        r matches Ok(out) ==> out.wf(),
{
    if !mask_fits(img, mask) {
        return Err(PipelineError::DimensionMismatch);
    }
    let mut out: Vec<u8> = vec![0u8; img.data.len()];
    par_write_pixels(&mut out, &img.data, &mask.data);
    Ok(RgbaImage { width: img.width, height: img.height, data: out })
}

/// Applies `mask` as the alpha channel of `img`, pixel after pixel on the
/// calling thread. Same contract as `apply_mask`.
pub fn apply_mask_serial(img: &RgbaImage, mask: &AlphaMask) -> (r: Result<RgbaImage, PipelineError>)
    ensures
        !compatible(*img, *mask) ==> r == Err::<RgbaImage, PipelineError>(PipelineError::DimensionMismatch),
        compatible(*img, *mask) ==> (r matches Ok(out) && out.width == img.width
            && out.height == img.height && out.data@ == composited(img.data@, mask.data@)),
        r matches Ok(out) ==> out.wf(),
{
    if !mask_fits(img, mask) {
        return Err(PipelineError::DimensionMismatch);
    }
    let rgba = &img.data;
    let alpha = &mask.data;
    let n = alpha.len();
    assert(rgba.len() == rgba@.len());
    let mut out: Vec<u8> = Vec::new();
    let mut i: usize = 0;
    while i < n
        invariant
            n == alpha@.len(),
            rgba@.len() == 4 * n,
            rgba@.len() <= usize::MAX,
            i <= n,
            out@ == composited(rgba@, alpha@).subrange(0, 4 * i),
        decreases n - i,
    {
        out.push(rgba[4 * i]);
        out.push(rgba[4 * i + 1]);
        out.push(rgba[4 * i + 2]);
        out.push(alpha[i]);
        i = i + 1;
        assert(out@ =~= composited(rgba@, alpha@).subrange(0, 4 * i));
    }
    assert(out@ =~= composited(rgba@, alpha@));
    Ok(RgbaImage { width: img.width, height: img.height, data: out })
}

/// Tells whether `img` and `mask` can be composited.
fn mask_fits(img: &RgbaImage, mask: &AlphaMask) -> (r: bool)
    ensures
        r == compatible(*img, *mask),
        r ==> img.data@.len() == 4 * mask.data@.len(),
{
    if img.width != mask.width || img.height != mask.height {
        return false;
    }
    let ok = crate::buffer::buffer_fits(img.data.len(), img.width, img.height, 4)
        && crate::buffer::buffer_fits(mask.data.len(), mask.width, mask.height, 1);
    proof {
        assert(4 * img.width * img.height == 4 * (1 * img.width * img.height)) by (nonlinear_arith);
    }
    ok
}

/// Each output pixel depends on its own input pixel alone: compositing a
/// contiguous range of pixels by itself gives exactly the bytes that range
/// has in the whole output. So any split of the pixels into ranges, worked
/// in any order, puts together the same image.
pub proof fn lemma_composite_ranges(rgba: Seq<u8>, alpha: Seq<u8>, a: int, b: int)
    requires
        rgba.len() == 4 * alpha.len(),
        0 <= a <= b <= alpha.len(),
    ensures
        composited(rgba, alpha).subrange(4 * a, 4 * b)
            == composited(rgba.subrange(4 * a, 4 * b), alpha.subrange(a, b)),
{
    let whole = composited(rgba, alpha).subrange(4 * a, 4 * b);
    let part = composited(rgba.subrange(4 * a, 4 * b), alpha.subrange(a, b));
    assert forall|k: int| 0 <= k < 4 * (b - a) implies #[trigger] whole[k] == part[k] by {
        assert((4 * a + k) % 4 == k % 4);
        assert((4 * a + k) / 4 == a + k / 4);
    }
    assert(whole =~= part);
}

/// A mask that is fully opaque everywhere leaves every colour byte as it was
/// and gives every pixel an alpha of 255.
pub proof fn lemma_opaque_mask(rgba: Seq<u8>, alpha: Seq<u8>)
    requires
        rgba.len() == 4 * alpha.len(),
        forall|i: int| 0 <= i < alpha.len() ==> alpha[i] == 255,
    ensures
        composited(rgba, alpha).len() == rgba.len(),
        forall|k: int| 0 <= k < rgba.len() && k % 4 != 3 ==> composited(rgba, alpha)[k] == rgba[k],
        forall|k: int| 0 <= k < rgba.len() && k % 4 == 3 ==> composited(rgba, alpha)[k] == 255,
{
}

} // verus!
