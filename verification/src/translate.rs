//! Pure integer translation. Unlike the generic affine scan, translation
//! never falls back to a default colour: an output pixel whose pre-image
//! leaves the input grid takes the nearest boundary pixel instead. The two
//! policies are deliberately different contracts for different transform
//! classes.

use vstd::prelude::*;

use crate::grid::{lemma_row_major_bound, Img};

verus! {

/// `v` clamped into `[0, hi]`.
pub open spec fn clamp_to(v: int, hi: int) -> int {
    if v < 0 {
        0
    } else if v > hi {
        hi
    } else {
        v
    }
}

/// What translation by `(tx, ty)` writes at output position `(x, y)`: the
/// input pixel at the pre-image `(x - tx, y - ty)`, clamped onto the grid.
pub open spec fn translate_pixel<P: Copy>(img: Img<P>, tx: int, ty: int, x: int, y: int) -> P
    recommends
        img.wf(),
        1 <= img.w(),
        1 <= img.h(),
{
    img.pixel(clamp_to(x - tx, img.w() - 1), clamp_to(y - ty, img.h() - 1))
}

/// Row-major indices of rows before `y` lie before row `y`'s first index.
proof fn lemma_row_prefix(yy: int, xx: int, y: int, w: int)
    by (nonlinear_arith)
    requires
        0 <= xx < w,
        0 <= yy < y,
    ensures
        0 <= yy * w + xx < y * w,
{
}

/// `v - d` clamped into `[0, hi]`, computed without overflow.
fn clamp_shift(v: usize, d: i32, hi: usize) -> (r: usize)
    requires
        v <= hi,
    ensures
        r == clamp_to(v - d, hi as int),
        r <= hi,
{
    if d >= 0 {
        let du = d as usize;
        if v >= du {
            v - du
        } else {
            0
        }
    } else {
        let a = (-(d as i64)) as u64;
        if a >= ((hi - v) as u64) {
            hi
        } else {
            v + (a as usize)
        }
    }
}

/// Translates the input by `t`, whose components follow the axes: output
/// position `(x, y)` shows the input pixel `(x - t.0, y - t.1)`, clamped to
/// the nearest boundary pixel where that pre-image leaves the grid. The
/// output has the input's dimensions. A grid with zero width but nonzero
/// height has rows with no boundary pixel to replicate, so it is excluded.
pub fn translate<P: Copy>(img: &Img<P>, t: (i32, i32)) -> (out: Img<P>)
    requires
        img.wf(),
        img.w() == 0 ==> img.h() == 0,
    ensures
        out.wf(),
        out.w() == img.w(),
        out.h() == img.h(),
        forall|x: int, y: int|
            0 <= x < img.w() && 0 <= y < img.h() ==> #[trigger] out.pixel(x, y) == translate_pixel(
                *img,
                t.0 as int,
                t.1 as int,
                x,
                y,
            ),
{
    let w = img.width();
    let h = img.height();
    let mut pixels: Vec<P> = Vec::new();
    let mut y: usize = 0;
    while y < h
        invariant
            img.wf(),
            w == img.w(),
            h == img.h(),
            img.w() == 0 ==> img.h() == 0,
            y <= h,
            pixels@.len() == y * w,
            forall|yy: int, xx: int|
                0 <= yy < y && 0 <= xx < w ==> #[trigger] pixels@[yy * w + xx] == translate_pixel(
                    *img,
                    t.0 as int,
                    t.1 as int,
                    xx,
                    yy,
                ),
        decreases h - y,
    {
        let y_in = clamp_shift(y, t.1, h - 1);
        let mut x: usize = 0;
        while x < w
            invariant
                img.wf(),
                w == img.w(),
                h == img.h(),
                0 < w,
                0 < h,
                y < h,
                x <= w,
                y_in <= h - 1,
                y_in == clamp_to(y - t.1, h - 1),
                pixels@.len() == y * w + x,
                forall|yy: int, xx: int|
                    0 <= yy < y && 0 <= xx < w ==> #[trigger] pixels@[yy * w + xx]
                        == translate_pixel(*img, t.0 as int, t.1 as int, xx, yy),
                forall|xx: int|
                    0 <= xx < x ==> #[trigger] pixels@[y * w + xx] == translate_pixel(
                        *img,
                        t.0 as int,
                        t.1 as int,
                        xx,
                        y as int,
                    ),
            decreases w - x,
        {
            let x_in = clamp_shift(x, t.0, w - 1);
            let p = img.get(x_in, y_in);
            let ghost pre = pixels@;
            pixels.push(p);
            x = x + 1;
            proof {
                assert forall|yy: int, xx: int| 0 <= yy < y && 0 <= xx < w implies #[trigger] pixels@[yy
                    * w + xx] == translate_pixel(*img, t.0 as int, t.1 as int, xx, yy) by {
                    lemma_row_prefix(yy, xx, y as int, w as int);
                    assert(pixels@[yy * w + xx] == pre[yy * w + xx]);
                }
                assert forall|xx: int| 0 <= xx < x implies #[trigger] pixels@[y * w + xx]
                    == translate_pixel(*img, t.0 as int, t.1 as int, xx, y as int) by {
                    if xx < x - 1 {
                        assert(pixels@[y * w + xx] == pre[y * w + xx]);
                    } else {
                        assert(y * w + xx == pre.len());
                        assert(pixels@[y * w + xx] == p);
                    }
                }
            }
        }
        y = y + 1;
        proof {
            assert(y * w == (y - 1) * w + w) by (nonlinear_arith);
        }
    }
    proof {
        assert(h as int * w == w as int * h) by (nonlinear_arith);
    }
    let out = Img::from_vec(w, h, pixels);
    proof {
        assert forall|x: int, yv: int| 0 <= x < img.w() && 0 <= yv < img.h() implies #[trigger] out
            .pixel(x, yv) == translate_pixel(*img, t.0 as int, t.1 as int, x, yv) by {
            lemma_row_major_bound(x, yv, img.w(), img.h());
            assert(pixels@[yv * w + x] == translate_pixel(*img, t.0 as int, t.1 as int, x, yv));
        }
    }
    out
}

/// Law: translating by offsets whose magnitudes reach or exceed the image
/// dimensions floods the output with a single corner pixel: every output
/// position shows the input corner nearest its pre-image, and never a
/// default colour, since translation clamps instead of filling.
pub proof fn lemma_translate_saturated<P: Copy>(img: Img<P>, tx: int, ty: int, x: int, y: int)
    requires
        img.wf(),
        1 <= img.w(),
        1 <= img.h(),
        tx >= img.w() || -tx >= img.w(),
        ty >= img.h() || -ty >= img.h(),
        0 <= x < img.w(),
        0 <= y < img.h(),
    ensures
        translate_pixel(img, tx, ty, x, y) == img.pixel(
            if tx > 0 {
                0
            } else {
                img.w() - 1
            },
            if ty > 0 {
                0
            } else {
                img.h() - 1
            },
        ),
{
}

} // verus!
