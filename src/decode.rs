use vstd::prelude::*;
use crate::buffer::RgbaImage;
use crate::error::PipelineError;

verus! {

/// What libwebp makes of the bytes `data`: nothing when they are not a still
/// WebP image, otherwise whether the pixels carry alpha, the width, the
/// height and the pixels, row by row.
pub uninterp spec fn webp_decoded(data: Seq<u8>) -> Option<(bool, u32, u32, Seq<u8>)>;

/// Relies on webp's `Decoder::new(..).decode()`: `None` for bytes that
/// libwebp cannot decode and for animations; otherwise an image whose
/// buffer holds width * height pixels of four bytes (RGBA) when it has alpha
/// and of three bytes (RGB) when not.
#[verifier::external_body]
fn webp_decode(data: &Vec<u8>) -> (r: Option<(bool, u32, u32, Vec<u8>)>)
    ensures
        r is None <==> webp_decoded(data@) is None,
        r matches Some(t) ==> webp_decoded(data@) == Some((t.0, t.1, t.2, t.3@)),
        r matches Some(t) ==> t.3@.len() == (if t.0 { 4nat } else { 3nat }) * t.1 * t.2,
{
    let img = webp::Decoder::new(data.as_slice()).decode()?;
    Some((img.is_alpha(), img.width(), img.height(), img.to_vec()))
}

/// RGB pixels widened to RGBA, each with an alpha of 255.
pub open spec fn rgb_to_rgba(rgb: Seq<u8>) -> Seq<u8> {
    Seq::new(4 * (rgb.len() / 3), |k: int| if k % 4 == 3 { 255u8 } else { rgb[3 * (k / 4) + k % 4] })
}

/// The RGBA pixels of a decoded image.
pub open spec fn decoded_rgba(has_alpha: bool, pixels: Seq<u8>) -> Seq<u8> {
    if has_alpha {
        pixels
    } else {
        rgb_to_rgba(pixels)
    }
}

/// Widens `n` RGB pixels to RGBA, each with an alpha of 255.
pub fn expand_rgb(rgb: &Vec<u8>) -> (r: Vec<u8>)
    requires
        rgb@.len() % 3 == 0,
    ensures
        r@ == rgb_to_rgba(rgb@),
{
    let len = rgb.len();
    let n = len / 3;
    let mut out: Vec<u8> = Vec::new();
    let mut i: usize = 0;
    while i < n
        invariant
            len == rgb@.len(),
            n == rgb@.len() / 3,
            rgb@.len() % 3 == 0,
            i <= n,
            out@ == rgb_to_rgba(rgb@).subrange(0, 4 * i),
        decreases n - i,
    {
        out.push(rgb[3 * i]);
        out.push(rgb[3 * i + 1]);
        out.push(rgb[3 * i + 2]);
        out.push(255u8);
        i = i + 1;
        assert(out@ =~= rgb_to_rgba(rgb@).subrange(0, 4 * i));
    }
    assert(out@ =~= rgb_to_rgba(rgb@));
    out
}

/// Decodes a still WebP image into RGBA; an image without alpha is made
/// fully opaque. Fails with `IoError` on bytes that are not one.
pub fn decode_webp(data: &Vec<u8>) -> (r: Result<RgbaImage, PipelineError>)
    ensures
        webp_decoded(data@) is None ==> (r matches Err(PipelineError::IoError(m))
            && m@ == "Failed to decode WebP image"@),
        webp_decoded(data@) matches Some(d) ==> (r matches Ok(img) && img.width == d.1
            && img.height == d.2 && img.data@ == decoded_rgba(d.0, d.3)),
        r matches Ok(img) ==> img.wf(),
{
    match webp_decode(data) {
        None => Err(PipelineError::IoError("Failed to decode WebP image".to_owned())),
        Some((has_alpha, width, height, pixels)) => {
            if has_alpha {
                Ok(RgbaImage { width, height, data: pixels })
            } else {
                proof {
                    assert(3 * width * height == 3 * (width * height)) by (nonlinear_arith);
                    assert(4 * width * height == 4 * (width * height)) by (nonlinear_arith);
                }
                let data = expand_rgb(&pixels);
                Ok(RgbaImage { width, height, data })
            }
        }
    }
}

} // verus!
