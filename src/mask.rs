use vstd::prelude::*;
use crate::buffer::AlphaMask;
use crate::error::PipelineError;
use crate::resample::{resample_buffer, resizable, resample_spec, PixelLayout};

verus! {

/// Brings a mask at inference resolution to `orig_width` x `orig_height`.
/// Equal sizes give an exact copy; otherwise the levels are resampled as a
/// single-channel image. Fails with `ResizeFailed` when a side is zero,
/// when the mask's buffer disagrees with its size, or when a result of
/// another size cannot be allocated.
pub fn resize_mask(mask: &AlphaMask, orig_width: u32, orig_height: u32) -> (r: Result<AlphaMask, PipelineError>)
    ensures
        !mask.wf() || !resizable(mask.width, mask.height, orig_width, orig_height, 1)
            ==> r == Err::<AlphaMask, PipelineError>(PipelineError::ResizeFailed),
        mask.wf() && resizable(mask.width, mask.height, orig_width, orig_height, 1) ==> (r matches Ok(out)
            && out.width == orig_width && out.height == orig_height
            && out.data@ == resample_spec(mask.data@, 1, mask.width, mask.height, orig_width, orig_height)),
        mask.wf() && mask.width > 0 && mask.height > 0 && orig_width == mask.width && orig_height == mask.height
            ==> (r matches Ok(out) && out.data@ == mask.data@),
        r matches Ok(out) ==> out.wf(),
{
    match resample_buffer(&mask.data, PixelLayout::Gray8, mask.width, mask.height, orig_width, orig_height) {
        Ok(data) => Ok(AlphaMask { width: orig_width, height: orig_height, data }),
        Err(e) => Err(e),
    }
}

} // verus!
