use vstd::prelude::*;
use crate::buffer::{sized_for, RgbaImage};
use crate::error::PipelineError;
use crate::plan::{planned_dims, resize_dimensions, REF_SIZE};
use crate::resample::{fast_resize, resample_spec, resizable};

verus! {

/// Channel `c` (0 red, 1 green, 2 blue) of each of the first `n` pixels of
/// an RGBA buffer, in pixel order.
pub open spec fn channel_plane(rgba: Seq<u8>, n: nat, c: int) -> Seq<u8> {
    Seq::new(n, |i: int| rgba[4 * i + c])
}

/// The channel-planar layout of `n` RGBA pixels: every red byte, then every
/// green byte, then every blue byte; alpha is left out.
pub open spec fn planar_of(rgba: Seq<u8>, n: nat) -> Seq<u8> {
    channel_plane(rgba, n, 0) + channel_plane(rgba, n, 1) + channel_plane(rgba, n, 2)
}

/// The model's input of shape (1, 3, height, width), as channel-planar
/// bytes: `data[c * height * width + y * width + x]` is channel `c` of pixel
/// (x, y). Each byte `b` stands for the value `(b / 255 - 0.5) / 0.5`.
#[derive(Debug, Clone, PartialEq, Eq)]
pub struct InputTensor {
    pub width: u32,
    pub height: u32,
    pub data: Vec<u8>,
}

impl InputTensor {
    /// The shape (batch, channel, height, width).
    pub fn shape(&self) -> (r: (usize, usize, usize, usize))
        ensures
            r == (1usize, 3usize, self.height as usize, self.width as usize),
    {
        (1, 3, self.height as usize, self.width as usize)
    }
}

/// Appends channel `c` of every pixel of `rgba` to `out`.
fn push_plane(out: &mut Vec<u8>, rgba: &Vec<u8>, n: usize, c: usize)
    requires
        c < 3,
        rgba@.len() == 4 * n,
    ensures
        final(out)@ == old(out)@ + channel_plane(rgba@, n as nat, c as int),
{
    assert(rgba.len() == rgba@.len());
    let mut i: usize = 0;
    while i < n
        invariant
            c < 3,
            4 * n <= usize::MAX,
            i <= n,
            rgba@.len() == 4 * n,
            out@ == old(out)@ + channel_plane(rgba@, i as nat, c as int),
        decreases n - i,
    {
        out.push(rgba[4 * i + c]);
        i = i + 1;
        assert(out@ =~= old(out)@ + channel_plane(rgba@, i as nat, c as int));
    }
}

/// Packs an RGBA image into the model's channel-planar input, alpha left out.
pub fn pack_tensor(img: &RgbaImage) -> (r: InputTensor)
    requires
        img.wf(),
    ensures
        r.width == img.width,
        r.height == img.height,
        r.data@ == planar_of(img.data@, (img.width * img.height) as nat),
{
    proof {
        assert(4 * img.width * img.height == 4 * (img.width * img.height)) by (nonlinear_arith);
    }
    let n: usize = img.data.len() / 4;
    let mut data: Vec<u8> = Vec::new();
    push_plane(&mut data, &img.data, n, 0);
    push_plane(&mut data, &img.data, n, 1);
    push_plane(&mut data, &img.data, n, 2);
    InputTensor { width: img.width, height: img.height, data }
}

/// The pixels that reach the packer: the image resampled to its planned size.
pub open spec fn planned_pixels(img: RgbaImage) -> Seq<u8> {
    let d = planned_dims(img.width as int, img.height as int, REF_SIZE as int);
    resample_spec(img.data@, 4, img.width, img.height, d.0 as u32, d.1 as u32)
}

/// Plans the inference size of `img` under the reference size, resamples it
/// to that size and packs it channel-planar. Fails with
/// `InvalidDimensions` on a zero side, and with `ResizeFailed` when the
/// image's buffer disagrees with its size or the resampled image cannot be
/// allocated.
pub fn preprocess_image(img: &RgbaImage) -> (r: Result<InputTensor, PipelineError>)
    ensures
        img.width == 0 || img.height == 0
            ==> r == Err::<InputTensor, PipelineError>(PipelineError::InvalidDimensions),
        ({
            let d = planned_dims(img.width as int, img.height as int, REF_SIZE as int);
            img.width > 0 && img.height > 0 && (!img.wf() || !resizable(img.width, img.height, d.0 as u32, d.1 as u32, 4))
                ==> r == Err::<InputTensor, PipelineError>(PipelineError::ResizeFailed)
        }),
        ({
            let d = planned_dims(img.width as int, img.height as int, REF_SIZE as int);
            img.width > 0 && img.height > 0 && img.wf() && resizable(img.width, img.height, d.0 as u32, d.1 as u32, 4)
                ==> (r matches Ok(t) && t.width == d.0 && t.height == d.1
                    && t.data@ == planar_of(planned_pixels(*img), (d.0 * d.1) as nat))
        }),
{
    let (re_width, re_height) = match resize_dimensions(img.width, img.height, REF_SIZE) {
        Ok(d) => d,
        Err(e) => return Err(e),
    };
    let resized = match fast_resize(img, re_width, re_height) {
        Ok(out) => out,
        Err(e) => return Err(e),
    };
    Ok(pack_tensor(&resized))
}

} // verus!
