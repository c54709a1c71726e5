//! The inverse-mapped scan: for every output position, in row-major order,
//! sample the input at that position's pre-image and write exactly one output
//! pixel. The caller supplies the pre-image grid (one integer coordinate pair
//! per output position, already rounded or floored); the scan owns the bounds
//! policy, the allocation of the output, and the single write per pixel.

use vstd::prelude::*;

use crate::grid::{lemma_row_major_bound, Img};
use crate::sample::{bilinear_corners, bilinear_pick, nearest_sample, nearest_spec};

verus! {

/// Resamples with nearest-neighbour sampling: output position `(x, y)` gets
/// the input pixel at `coords[y*w + x]` when that coordinate lies on the
/// grid, and `default` otherwise. The output has the input's dimensions.
pub fn resample_nearest<P: Copy>(img: &Img<P>, coords: &Vec<(i64, i64)>, default: P) -> (out: Img<
    P,
>)
    requires
        img.wf(),
        coords@.len() == img.w() * img.h(),
    ensures
        out.wf(),
        out.w() == img.w(),
        out.h() == img.h(),
        forall|i: int|
            0 <= i < coords@.len() ==> #[trigger] out.data()[i] == nearest_spec(
                *img,
                coords@[i].0 as int,
                coords@[i].1 as int,
                default,
            ),
        forall|x: int, y: int|
            0 <= x < img.w() && 0 <= y < img.h() ==> #[trigger] out.pixel(x, y) == nearest_spec(
                *img,
                coords@[y * img.w() + x].0 as int,
                coords@[y * img.w() + x].1 as int,
                default,
            ),
{
    let w = img.width();
    let h = img.height();
    let n = coords.len();
    let mut pixels: Vec<P> = Vec::new();
    let mut i: usize = 0;
    while i < n
        invariant
            img.wf(),
            n == coords@.len(),
            i <= n,
            pixels@.len() == i,
            forall|j: int|
                0 <= j < i ==> #[trigger] pixels@[j] == nearest_spec(
                    *img,
                    coords@[j].0 as int,
                    coords@[j].1 as int,
                    default,
                ),
        decreases n - i,
    {
        let c = coords[i];
        let p = nearest_sample(img, c.0, c.1, default);
        pixels.push(p);
        i = i + 1;
    }
    let out = Img::from_vec(w, h, pixels);
    proof {
        assert forall|x: int, y: int| 0 <= x < img.w() && 0 <= y < img.h() implies #[trigger] out
            .pixel(x, y) == nearest_spec(
            *img,
            coords@[y * img.w() + x].0 as int,
            coords@[y * img.w() + x].1 as int,
            default,
        ) by {
            lemma_row_major_bound(x, y, img.w(), img.h());
        }
    }
    out
}

/// Resamples with bilinear sampling, the blending already done by the caller:
/// output position `(x, y)` gets `blended[y*w + x]` when the pre-image floor
/// `floors[y*w + x]` has bilinear support on the input grid, and `default`
/// otherwise. The output has the input's dimensions.
pub fn resample_bilinear_prepared<P: Copy>(
    img: &Img<P>,
    floors: &Vec<(i64, i64)>,
    blended: &Vec<P>,
    default: P,
) -> (out: Img<P>)
    requires
        img.wf(),
        floors@.len() == img.w() * img.h(),
        blended@.len() == floors@.len(),
    ensures
        out.wf(),
        out.w() == img.w(),
        out.h() == img.h(),
        forall|i: int|
            0 <= i < floors@.len() ==> #[trigger] out.data()[i] == bilinear_pick(
                img.w(),
                img.h(),
                floors@[i].0 as int,
                floors@[i].1 as int,
                blended@[i],
                default,
            ),
        forall|x: int, y: int|
            0 <= x < img.w() && 0 <= y < img.h() ==> #[trigger] out.pixel(x, y) == bilinear_pick(
                img.w(),
                img.h(),
                floors@[y * img.w() + x].0 as int,
                floors@[y * img.w() + x].1 as int,
                blended@[y * img.w() + x],
                default,
            ),
{
    let w = img.width();
    let h = img.height();
    let n = floors.len();
    let mut pixels: Vec<P> = Vec::new();
    let mut i: usize = 0;
    while i < n
        invariant
            img.wf(),
            n == floors@.len(),
            blended@.len() == floors@.len(),
            i <= n,
            pixels@.len() == i,
            forall|j: int|
                0 <= j < i ==> #[trigger] pixels@[j] == bilinear_pick(
                    img.w(),
                    img.h(),
                    floors@[j].0 as int,
                    floors@[j].1 as int,
                    blended@[j],
                    default,
                ),
        decreases n - i,
    {
        let f = floors[i];
        let p = match bilinear_corners(img, f.0, f.1) {
            Some(_) => blended[i],
            None => default,
        };
        pixels.push(p);
        i = i + 1;
    }
    let out = Img::from_vec(w, h, pixels);
    proof {
        assert forall|x: int, y: int| 0 <= x < img.w() && 0 <= y < img.h() implies #[trigger] out
            .pixel(x, y) == bilinear_pick(
            img.w(),
            img.h(),
            floors@[y * img.w() + x].0 as int,
            floors@[y * img.w() + x].1 as int,
            blended@[y * img.w() + x],
            default,
        ) by {
            lemma_row_major_bound(x, y, img.w(), img.h());
        }
    }
    out
}

/// Law: a nearest-neighbour scan over the identity pre-image grid reproduces
/// the input image exactly, pixel for pixel. The hypotheses are precisely
/// what `resample_nearest` ensures when every entry of the pre-image grid is
/// the output position itself; the identity transform and a rotation by zero
/// radians both produce such a grid.
pub proof fn lemma_identity_scan_reproduces<P: Copy>(
    img: Img<P>,
    out: Img<P>,
    cs: Seq<(i64, i64)>,
    default: P,
)
    requires
        img.wf(),
        out.wf(),
        out.w() == img.w(),
        out.h() == img.h(),
        img.w() <= i64::MAX,
        img.h() <= i64::MAX,
        cs.len() == img.w() * img.h(),
        forall|x: int, y: int|
            0 <= x < img.w() && 0 <= y < img.h() ==> #[trigger] cs[y * img.w() + x] == (
            x as i64,
            y as i64,
            ),
        forall|x: int, y: int|
            0 <= x < img.w() && 0 <= y < img.h() ==> #[trigger] out.pixel(x, y) == nearest_spec(
                img,
                cs[y * img.w() + x].0 as int,
                cs[y * img.w() + x].1 as int,
                default,
            ),
    ensures
        forall|x: int, y: int|
            0 <= x < img.w() && 0 <= y < img.h() ==> #[trigger] out.pixel(x, y) == img.pixel(x, y),
{
    assert forall|x: int, y: int| 0 <= x < img.w() && 0 <= y < img.h() implies #[trigger] out.pixel(
        x,
        y,
    ) == img.pixel(x, y) by {
        assert(cs[y * img.w() + x] == (x as i64, y as i64));
        assert(cs[y * img.w() + x].0 as int == x);
        assert(cs[y * img.w() + x].1 as int == y);
        crate::sample::lemma_nearest_on_grid(img, x, y, default);
    }
}

} // verus!
