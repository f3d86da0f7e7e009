//! Bringing two pictures to a common size.

use vstd::prelude::*;

use crate::picture::{Picture, resamplable, resize_exact, rgba_len, triangle_resized};

verus! {

/// Number of pixels of an image of size `dims`.
pub open spec fn pixel_count(dims: (u32, u32)) -> int {
    dims.0 as int * dims.1 as int
}

/// The size both images are brought to: that of the one with fewer pixels,
/// and that of the first where both have as many.
pub open spec fn target_dims(dim_1: (u32, u32), dim_2: (u32, u32)) -> (u32, u32) {
    if pixel_count(dim_1) <= pixel_count(dim_2) {
        dim_1
    } else {
        dim_2
    }
}

/// The pixels of `p` once brought to `dims`: unchanged where it already has
/// that size, resampled otherwise.
pub open spec fn fitted_rgba(p: Picture, dims: (u32, u32)) -> Seq<u8> {
    if p.dims() == dims {
        p.rgba@
    } else {
        triangle_resized(p.rgba@, p.width, p.height, dims.0, dims.1)
    }
}

/// A picture can be brought to `dims`: it has that size already, or it can
/// be resampled to it.
pub open spec fn fits_to(p: Picture, dims: (u32, u32)) -> bool {
    p.dims() == dims || resamplable(p, dims.0, dims.1)
}

/// Tells whether `p` can be brought to `dims`.
pub fn can_fit(p: &Picture, dims: (u32, u32)) -> (r: bool)
    ensures
        r == fits_to(*p, dims),
{
    if p.width == dims.0 && p.height == dims.1 {
        return true;
    }
    proof {
        lemma_pixel_count_bound((p.width, dims.1));
    }
    let intermediate: u128 = p.width as u128 * dims.1 as u128 * 4;
    intermediate <= usize::MAX as u128
}

/// Picks the size with fewer pixels; on a tie, the first.
pub fn get_smaller_dimensions(dim_1: (u32, u32), dim_2: (u32, u32)) -> (r: (u32, u32))
    ensures
        r == target_dims(dim_1, dim_2),
{
    proof {
        lemma_pixel_count_bound(dim_1);
        lemma_pixel_count_bound(dim_2);
    }
    let pix_1: u64 = dim_1.0 as u64 * dim_1.1 as u64;
    let pix_2: u64 = dim_2.0 as u64 * dim_2.1 as u64;
    if pix_1 <= pix_2 {
        dim_1
    } else {
        dim_2
    }
}

proof fn lemma_pixel_count_bound(dims: (u32, u32))
    ensures
        0 <= pixel_count(dims) <= u64::MAX,
{
    let (w, h) = dims;
    assert(0 <= w as int * h as int <= 0xffff_ffff_ffff_ffff) by (nonlinear_arith)
        requires
            w <= 0xffff_ffff,
            h <= 0xffff_ffff,
    ;
}

/// Brings two pictures to the same size: the one with fewer pixels (the
/// first on a tie) passes through unchanged, and the other is resampled to
/// its width and height unless it has them already.
pub fn standardise_size(image_1: Picture, image_2: Picture) -> (r: (Picture, Picture))
    requires
        image_1.wf(),
        image_2.wf(),
        fits_to(image_1, target_dims(image_1.dims(), image_2.dims())),
        fits_to(image_2, target_dims(image_1.dims(), image_2.dims())),
    ensures
        ({
            let t = target_dims(image_1.dims(), image_2.dims());
            &&& r.0.dims() == t
            &&& r.1.dims() == t
            &&& r.0.wf()
            &&& r.1.wf()
            &&& r.0.rgba@ == fitted_rgba(image_1, t)
            &&& r.1.rgba@ == fitted_rgba(image_2, t)
        }),
        image_1.dims() == target_dims(image_1.dims(), image_2.dims()) ==> r.0 == image_1,
        image_2.dims() == target_dims(image_1.dims(), image_2.dims()) ==> r.1 == image_2,
{
    let (width, height) = get_smaller_dimensions(image_1.dimensions(), image_2.dimensions());
    // The target is the size of one of the inputs, whose buffer fits in memory.
    let _len_1: usize = image_1.rgba.len();
    let _len_2: usize = image_2.rgba.len();
    assert(rgba_len(width, height) <= usize::MAX);
    let first = if image_1.width == width && image_1.height == height {
        image_1
    } else {
        resize_exact(&image_1, width, height)
    };
    let second = if image_2.width == width && image_2.height == height {
        image_2
    } else {
        resize_exact(&image_2, width, height)
    };
    (first, second)
}

} // verus!
