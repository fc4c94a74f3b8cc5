use vstd::prelude::*;
use crate::error::PipelineError;

verus! {

/// The longest side, in pixels, that an image is scaled to before inference.
pub const REF_SIZE: u32 = 512;

/// `x` rounded down to a multiple of 32.
pub open spec fn floor32(x: int) -> int {
    (x / 32) * 32
}

/// `x` rounded down to a multiple of 32, but never below 32.
pub open spec fn snap32(x: int) -> int {
    if x < 32 {
        32
    } else {
        floor32(x)
    }
}

/// The size before snapping: unchanged when it fits within `r`, otherwise
/// the longer side becomes `r` and the shorter one is scaled in proportion,
/// truncated.
pub open spec fn scaled_dims(w: int, h: int, r: int) -> (int, int) {
    if w <= r && h <= r {
        (w, h)
    } else if w >= h {
        (r, h * r / w)
    } else {
        (w * r / h, r)
    }
}

/// The inference size planned for a `w` x `h` image and reference size `r`.
pub open spec fn planned_dims(w: int, h: int, r: int) -> (int, int) {
    let (a, b) = scaled_dims(w, h, r);
    (snap32(a), snap32(b))
}

/// Whether a plan can be made: both sides positive and room for one block
/// of 32 under the reference size.
pub open spec fn plannable(w: int, h: int, r: int) -> bool {
    w > 0 && h > 0 && r >= 32
}

/// `a * b / c`, truncated, for `a <= c`: at most `b`.
fn scale_down(a: u32, b: u32, c: u32) -> (r: u32)
    requires
        0 < c,
        a <= c,
    ensures
        r as int == a as int * b as int / c as int,
        r <= b,
{
    proof {
        assert(a as int * b as int <= 0xffff_ffffu64 * 0xffff_ffffu64) by (nonlinear_arith)
            requires a <= 0xffff_ffffu64, b <= 0xffff_ffffu64, a >= 0, b >= 0;
        assert(a as int * b as int / c as int <= b as int) by (nonlinear_arith)
            requires a <= c, 0 < c, b >= 0;
    }
    (a as u64 * b as u64 / c as u64) as u32
}

fn snap_to_block(x: u32) -> (r: u32)
    ensures
        r == snap32(x as int),
{
    if x < 32 {
        32
    } else {
        (x / 32) * 32
    }
}

/// Plans the inference size of a `width` x `height` image: both sides
/// become positive multiples of 32 and the longer side is at most
/// `ref_size`.
pub fn resize_dimensions(width: u32, height: u32, ref_size: u32) -> (r: Result<(u32, u32), PipelineError>)
    ensures
        plannable(width as int, height as int, ref_size as int) ==> (r matches Ok(d)
            && (d.0 as int, d.1 as int) == planned_dims(width as int, height as int, ref_size as int)),
        !plannable(width as int, height as int, ref_size as int) ==> r == Err::<(u32, u32), PipelineError>(PipelineError::InvalidDimensions),
{
    if width == 0 || height == 0 || ref_size < 32 {
        return Err(PipelineError::InvalidDimensions);
    }
    let (w, h): (u32, u32) = if width <= ref_size && height <= ref_size {
        (width, height)
    } else if width >= height {
        (ref_size, scale_down(height, ref_size, width))
    } else {
        (scale_down(width, ref_size, height), ref_size)
    };
    Ok((snap_to_block(w), snap_to_block(h)))
}

proof fn lemma_snap32(x: int, r: int)
    requires
        0 <= x <= r,
        32 <= r,
    ensures
        snap32(x) % 32 == 0,
        32 <= snap32(x) <= r,
        x >= 32 ==> snap32(x) == floor32(x),
{
    if x >= 32 {
        assert((x / 32) * 32 % 32 == 0 && 32 <= (x / 32) * 32 <= x) by (nonlinear_arith)
            requires x >= 32;
    }
}

/// The plan for sides and a reference size of at least 32 consists of
/// positive multiples of 32. An image larger than the reference size on
/// either side is planned within it on both sides; any other image keeps its
/// sides, each rounded down to a multiple of 32.
pub proof fn lemma_plan_bounds(w: int, h: int, r: int)
    requires
        w >= 32,
        h >= 32,
        r >= 32,
    ensures
        planned_dims(w, h, r).0 % 32 == 0,
        planned_dims(w, h, r).1 % 32 == 0,
        planned_dims(w, h, r).0 > 0,
        planned_dims(w, h, r).1 > 0,
        (w > r || h > r) ==> planned_dims(w, h, r).0 <= r && planned_dims(w, h, r).1 <= r,
        (w <= r && h <= r) ==> planned_dims(w, h, r) == (floor32(w), floor32(h)),
{
    if w <= r && h <= r {
        lemma_snap32(w, r);
        lemma_snap32(h, r);
    } else if w >= h {
        assert(0 <= h * r / w <= r) by (nonlinear_arith)
            requires 0 < h <= w, r >= 0;
        lemma_snap32(r, r);
        lemma_snap32(h * r / w, r);
    } else {
        assert(0 <= w * r / h <= r) by (nonlinear_arith)
            requires 0 < w < h, r >= 0;
        lemma_snap32(r, r);
        lemma_snap32(w * r / h, r);
    }
}

} // verus!
