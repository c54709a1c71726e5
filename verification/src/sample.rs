//! Per-pixel sampling policy: given an integer pre-image coordinate (already
//! rounded or floored by the caller), decide which input pixels an output
//! pixel reads, and when the caller's default colour is used instead.

use vstd::prelude::*;

use crate::grid::Img;

verus! {

/// Whether `(x, y)` names a pixel of a `w` x `h` grid.
pub open spec fn in_bounds(w: int, h: int, x: int, y: int) -> bool {
    0 <= x < w && 0 <= y < h
}

/// Nearest-neighbour sampling at a rounded pre-image coordinate: the pixel
/// there when it lies on the grid, the caller's default otherwise.
pub open spec fn nearest_spec<P: Copy>(img: Img<P>, rx: int, ry: int, default: P) -> P
    recommends
        img.wf(),
{
    if in_bounds(img.w(), img.h(), rx, ry) {
        img.pixel(rx, ry)
    } else {
        default
    }
}

/// Samples the pixel nearest to a pre-image coordinate whose rounded integer
/// parts are `(rx, ry)`, falling back to `default` off the grid.
pub fn nearest_sample<P: Copy>(img: &Img<P>, rx: i64, ry: i64, default: P) -> (r: P)
    requires
        img.wf(),
    ensures
        r == nearest_spec(*img, rx as int, ry as int, default),
{
    let w = img.width();
    let h = img.height();
    if rx >= 0 && ry >= 0 && (rx as u64) < (w as u64) && (ry as u64) < (h as u64) {
        img.get(rx as usize, ry as usize)
    } else {
        default
    }
}

/// Whether the four pixels around a pre-image coordinate with floor
/// `(left, top)` all lie on a `w` x `h` grid. The test looks at the outer
/// corner `(left + 1, top + 1)`: a coordinate whose floor is on the grid but
/// whose outer corner is not has no support.
pub open spec fn bilinear_support(w: int, h: int, left: int, top: int) -> bool {
    0 <= left && left + 1 < w && 0 <= top && top + 1 < h
}

/// The four input pixels surrounding a pre-image coordinate.
pub struct Corners<P> {
    pub top_left: P,
    pub top_right: P,
    pub bottom_left: P,
    pub bottom_right: P,
}

/// Fetches the four pixels around a pre-image coordinate whose floors are
/// `(left, top)`, or nothing when the coordinate lacks bilinear support.
pub fn bilinear_corners<P: Copy>(img: &Img<P>, left: i64, top: i64) -> (r: Option<Corners<P>>)
    requires
        img.wf(),
    ensures
        match r {
            Some(c) => {
                &&& bilinear_support(img.w(), img.h(), left as int, top as int)
                &&& c.top_left == img.pixel(left as int, top as int)
                &&& c.top_right == img.pixel(left as int + 1, top as int)
                &&& c.bottom_left == img.pixel(left as int, top as int + 1)
                &&& c.bottom_right == img.pixel(left as int + 1, top as int + 1)
            },
            None => !bilinear_support(img.w(), img.h(), left as int, top as int),
        },
{
    let w = img.width();
    let h = img.height();
    if left >= 0 && top >= 0 && (left as u64) + 1 < (w as u64) && (top as u64) + 1 < (h as u64) {
        let lx = left as usize;
        let ty = top as usize;
        Some(
            Corners {
                top_left: img.get(lx, ty),
                top_right: img.get(lx + 1, ty),
                bottom_left: img.get(lx, ty + 1),
                bottom_right: img.get(lx + 1, ty + 1),
            },
        )
    } else {
        None
    }
}

/// What a bilinear scan writes at one output pixel: the blended colour where
/// the pre-image has support, the caller's default everywhere else.
pub open spec fn bilinear_pick<P>(w: int, h: int, left: int, top: int, blended: P, default: P) -> P {
    if bilinear_support(w, h, left, top) {
        blended
    } else {
        default
    }
}

/// Law: a pre-image coordinate whose floor lies on the grid but whose outer
/// corner `(floor + 1)` leaves it on either axis is out of bounds for
/// bilinear sampling, so a bilinear scan writes the caller's default there,
/// never an extrapolated or clamped colour.
pub proof fn lemma_bilinear_border_default<P>(
    w: int,
    h: int,
    left: int,
    top: int,
    blended: P,
    default: P,
)
    requires
        0 <= left < w,
        0 <= top < h,
        left + 1 >= w || top + 1 >= h,
    ensures
        bilinear_pick(w, h, left, top, blended, default) == default,
{
}

/// Law: at a pre-image coordinate that lies on the grid, nearest-neighbour
/// sampling returns exactly that pixel; in particular a scan whose pre-image
/// grid is the identity reproduces the input image pixel for pixel.
pub proof fn lemma_nearest_on_grid<P: Copy>(img: Img<P>, x: int, y: int, default: P)
    requires
        img.wf(),
        0 <= x < img.w(),
        0 <= y < img.h(),
    ensures
        nearest_spec(img, x, y, default) == img.pixel(x, y),
{
}

} // verus!
