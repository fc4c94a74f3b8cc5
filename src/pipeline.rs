use vstd::prelude::*;
use crate::buffer::{AlphaMask, RgbaImage};
use crate::composite::{apply_mask, compatible, composited, lemma_opaque_mask};
use crate::error::PipelineError;
use crate::mask::resize_mask;
use crate::resample::{resample_spec, resizable};

verus! {

/// The alpha levels that reach the compositor: the model's mask brought to
/// the size of `img`.
pub open spec fn upsampled_levels(img: RgbaImage, mask: AlphaMask) -> Seq<u8> {
    resample_spec(mask.data@, 1, mask.width, mask.height, img.width, img.height)
}

/// Finishes one image after inference: brings the model's `mask` to the
/// size of the original `img` and applies it as the alpha channel. Fails
/// with `ResizeFailed` when a side of either is zero, when the mask's buffer
/// disagrees with its size, or when a mask of another size cannot be brought
/// to full size for want of memory; and with `DimensionMismatch` when the
/// image's buffer disagrees with its size.
pub fn remove_background(img: &RgbaImage, mask: &AlphaMask) -> (r: Result<RgbaImage, PipelineError>)
    ensures
        !mask.wf() || !resizable(mask.width, mask.height, img.width, img.height, 1)
            ==> r == Err::<RgbaImage, PipelineError>(PipelineError::ResizeFailed),
        mask.wf() && resizable(mask.width, mask.height, img.width, img.height, 1) && !img.wf()
            ==> r == Err::<RgbaImage, PipelineError>(PipelineError::DimensionMismatch),
        mask.wf() && img.wf() && mask.width > 0 && mask.height > 0 && img.width > 0 && img.height > 0
            ==> (r matches Ok(out) && out.width == img.width && out.height == img.height
            && out.data@ == composited(img.data@, upsampled_levels(*img, *mask))),
{
    proof {
        assert(img.data.len() == img.data@.len());
        assert(4 * img.width * img.height == 4 * (img.width * img.height)) by (nonlinear_arith);
        assert(1 * img.width * img.height == img.width * img.height) by (nonlinear_arith);
        broadcast use vstd::layout::layout_of_primitives;
        vstd::layout::unsigned_int_max_values();
        vstd::layout::signed_int_min_max_values();
        assert(usize::MAX as int == 2 * (isize::MAX as int) + 1);
        assert(img.wf() ==> 1 * img.width * img.height <= isize::MAX);
    }
    let full = match resize_mask(mask, img.width, img.height) {
        Ok(m) => m,
        Err(e) => return Err(e),
    };
    apply_mask(img, &full)
}

/// When the model answers at the image's own size with a fully opaque mask,
/// the finished image has the original's colours and an alpha of 255 on
/// every pixel.
pub proof fn lemma_opaque_full_size_mask(img: RgbaImage, mask: AlphaMask)
    requires
        compatible(img, mask),
        forall|i: int| 0 <= i < mask.data@.len() ==> mask.data@[i] == 255,
    ensures
        ({
            let out = composited(img.data@, upsampled_levels(img, mask));
            &&& out.len() == img.data@.len()
            &&& forall|k: int| 0 <= k < out.len() && k % 4 != 3 ==> out[k] == img.data@[k]
            &&& forall|k: int| 0 <= k < out.len() && k % 4 == 3 ==> out[k] == 255
        }),
{
    assert(4 * img.width * img.height == 4 * (1 * img.width * img.height)) by (nonlinear_arith);
    lemma_opaque_mask(img.data@, mask.data@);
}

} // verus!
