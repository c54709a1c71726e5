//! A 2D image-resampling core: inverse-mapped affine resampling split into a
//! verified integer part (pixel grids, sampling bounds policy, scan loops,
//! integer translation) and floating-point drivers kept outside the library.

pub mod grid;
pub mod resample;
pub mod sample;
pub mod translate;

pub use grid::Img;
pub use resample::{resample_bilinear_prepared, resample_nearest};
pub use sample::{bilinear_corners, nearest_sample, Corners};
pub use translate::translate;

use vstd::prelude::*;

verus! {

/// How to reconstruct a colour for an output pixel whose pre-image
/// lies between input pixel centres.
#[derive(Debug, PartialEq, Eq, Copy, Clone)]
pub enum Interpolation {
    /// Choose the pixel nearest to the pre-image of the output pixel.
    Nearest,
    /// Blend the four pixels surrounding the pre-image of the output pixel.
    Bilinear,
}

} // verus!
