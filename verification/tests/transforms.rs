//! End-to-end tests of the resampling core, driving the scans with the same
//! floating-point pre-image computations the unverified front end uses.

use resample2d::{
    bilinear_corners, nearest_sample, resample_bilinear_prepared, resample_nearest, translate, Img,
    Interpolation,
};

fn img_from(width: usize, height: usize, px: &[u8]) -> Img<u8> {
    assert_eq!(px.len(), width * height);
    Img::from_vec(width, height, px.to_vec())
}

/// The pre-image grid of a clockwise rotation about `center` by `theta`
/// radians, computed by incremental scanline stepping and rounded to the
/// nearest integer coordinates, exactly as the rotation front end does.
fn rotate_coords(width: usize, height: usize, center: (f32, f32), theta: f32) -> Vec<(i64, i64)> {
    let cos_theta = theta.cos();
    let sin_theta = theta.sin();
    let center_x = center.0;
    let center_y = center.1;
    let mut coords = Vec::with_capacity(width * height);
    for y in 0..height {
        let dy = y as f32 - center_y;
        let mut px = center_x + sin_theta * dy - cos_theta * center_x;
        let mut py = center_y + cos_theta * dy + sin_theta * center_x;
        for _x in 0..width {
            coords.push((px.round() as i64, py.round() as i64));
            px += cos_theta;
            py -= sin_theta;
        }
    }
    coords
}

/// Inverts a row-major 3x3 matrix by cofactor expansion, refusing exactly
/// the matrices whose determinant is exactly zero.
fn try_inverse(t: [f32; 9]) -> Option<[f32; 9]> {
    let (t00, t01, t02, t10, t11, t12, t20, t21, t22) =
        (t[0], t[1], t[2], t[3], t[4], t[5], t[6], t[7], t[8]);
    let m00 = t11 * t22 - t12 * t21;
    let m01 = t10 * t22 - t12 * t20;
    let m02 = t10 * t21 - t11 * t20;
    let det = t00 * m00 - t01 * m01 + t02 * m02;
    if det == 0.0 {
        return None;
    }
    let m10 = t01 * t22 - t02 * t21;
    let m11 = t00 * t22 - t02 * t20;
    let m12 = t00 * t21 - t01 * t20;
    let m20 = t01 * t12 - t02 * t11;
    let m21 = t00 * t12 - t02 * t10;
    let m22 = t00 * t11 - t01 * t10;
    Some([
        m00 / det,
        -m10 / det,
        m20 / det,
        -m01 / det,
        m11 / det,
        -m21 / det,
        m02 / det,
        -m12 / det,
        m22 / det,
    ])
}

/// The pre-image grid of an affine transform given by its inverse matrix,
/// rounded for nearest-neighbour sampling.
fn affine_nearest_coords(width: usize, height: usize, inv: [f32; 9]) -> Vec<(i64, i64)> {
    let mut coords = Vec::with_capacity(width * height);
    for y in 0..height {
        for x in 0..width {
            let px = inv[0] * x as f32 + inv[1] * y as f32 + inv[2];
            let py = inv[3] * x as f32 + inv[4] * y as f32 + inv[5];
            coords.push((px.round() as i64, py.round() as i64));
        }
    }
    coords
}

#[test]
fn test_translate_positive_x_positive_y() {
    let image = img_from(3, 3, &[0, 1, 2, 10, 11, 12, 20, 21, 22]);
    let expected = vec![0u8, 0, 1, 0, 0, 1, 10, 10, 11];
    let translated = translate(&image, (1, 1));
    assert_eq!(translated.to_vec(), expected);
}

#[test]
fn test_translate_positive_x_negative_y() {
    let image = img_from(3, 3, &[0, 1, 2, 10, 11, 12, 20, 21, 22]);
    let expected = vec![10u8, 10, 11, 20, 20, 21, 20, 20, 21];
    let translated = translate(&image, (1, -1));
    assert_eq!(translated.to_vec(), expected);
}

#[test]
fn test_translate_large_x_large_y() {
    let image = img_from(3, 3, &[0, 1, 2, 10, 11, 12, 20, 21, 22]);
    let expected = vec![0u8, 0, 0, 0, 0, 0, 0, 0, 0];
    // Translating by more than the image width and height
    let translated = translate(&image, (5, 5));
    assert_eq!(translated.to_vec(), expected);
}

#[test]
fn test_rotate_nearest_zero_radians() {
    let image = img_from(3, 2, &[0, 1, 2, 10, 11, 12]);
    let coords = rotate_coords(3, 2, (1f32, 0f32), 0f32);
    let rotated = resample_nearest(&image, &coords, 99);
    assert_eq!(rotated.to_vec(), image.to_vec());
}

#[test]
fn text_rotate_nearest_quarter_turn_clockwise() {
    let image = img_from(3, 2, &[0, 1, 2, 10, 11, 12]);
    let expected = vec![11u8, 1, 99, 12, 2, 99];
    let coords = rotate_coords(3, 2, (1f32, 0f32), std::f32::consts::PI / 2f32);
    let rotated = resample_nearest(&image, &coords, 99);
    assert_eq!(rotated.to_vec(), expected);
}

#[test]
fn text_rotate_nearest_half_turn_anticlockwise() {
    let image = img_from(3, 2, &[0, 1, 2, 10, 11, 12]);
    let expected = vec![12u8, 11, 10, 2, 1, 0];
    let coords = rotate_coords(3, 2, (1f32, 0.5f32), -std::f32::consts::PI);
    let rotated = resample_nearest(&image, &coords, 99);
    assert_eq!(rotated.to_vec(), expected);
}

#[test]
fn test_affine() {
    let image = img_from(3, 3, &[0, 1, 2, 10, 11, 12, 20, 21, 22]);
    let expected = vec![0u8, 0, 0, 0, 0, 1, 0, 10, 11];
    let aff = [1.0, 0.0, 1.0, 0.0, 1.0, 1.0, 0.0, 0.0, 1.0];
    if let Some(inv) = try_inverse(aff) {
        let coords = affine_nearest_coords(3, 3, inv);
        let translated = resample_nearest(&image, &coords, 0);
        assert_eq!(translated.to_vec(), expected);
    } else {
        assert!(false, "Affine transformation returned None");
    }
}

#[test]
fn test_identity_coords_reproduce_input() {
    let image = img_from(3, 3, &[5, 1, 2, 10, 11, 12, 20, 21, 250]);
    let mut coords: Vec<(i64, i64)> = Vec::new();
    for y in 0..3i64 {
        for x in 0..3i64 {
            coords.push((x, y));
        }
    }
    let out = resample_nearest(&image, &coords, 77);
    assert_eq!(out.to_vec(), image.to_vec());
}

#[test]
fn test_singular_matrix_has_no_inverse() {
    // Zero determinant: second row is twice the first.
    let aff = [1.0, 2.0, 3.0, 2.0, 4.0, 6.0, 0.0, 0.0, 1.0];
    assert!(try_inverse(aff).is_none());
}

#[test]
fn test_nearest_sample_bounds_policy() {
    let image = img_from(3, 2, &[0, 1, 2, 10, 11, 12]);
    assert_eq!(nearest_sample(&image, 0, 0, 99), 0);
    assert_eq!(nearest_sample(&image, 2, 1, 99), 12);
    assert_eq!(nearest_sample(&image, -1, 0, 99), 99);
    assert_eq!(nearest_sample(&image, 0, -1, 99), 99);
    assert_eq!(nearest_sample(&image, 3, 0, 99), 99);
    assert_eq!(nearest_sample(&image, 0, 2, 99), 99);
}

#[test]
fn test_bilinear_corners_interior() {
    let image = img_from(3, 3, &[0, 1, 2, 10, 11, 12, 20, 21, 22]);
    let c = bilinear_corners(&image, 1, 1).unwrap();
    assert_eq!(c.top_left, 11);
    assert_eq!(c.top_right, 12);
    assert_eq!(c.bottom_left, 21);
    assert_eq!(c.bottom_right, 22);
}

#[test]
fn test_bilinear_corners_border_is_none() {
    let image = img_from(3, 3, &[0, 1, 2, 10, 11, 12, 20, 21, 22]);
    // The floor is on the grid, but floor + 1 is not: no support.
    assert!(bilinear_corners(&image, 2, 0).is_none());
    assert!(bilinear_corners(&image, 0, 2).is_none());
    // A floor off the grid has no support either.
    assert!(bilinear_corners(&image, -1, 0).is_none());
    assert!(bilinear_corners(&image, 0, 3).is_none());
}

#[test]
fn test_bilinear_prepared_uses_default_off_support() {
    let image = img_from(2, 2, &[0, 1, 10, 11]);
    // Only position (0, 0) has bilinear support on a 2x2 grid.
    let floors = vec![(0i64, 0i64), (1, 0), (0, 1), (1, 1)];
    let blended = vec![50u8, 51, 52, 53];
    let out = resample_bilinear_prepared(&image, &floors, &blended, 99);
    assert_eq!(out.to_vec(), vec![50, 99, 99, 99]);
}

#[test]
fn test_translate_zero_offset_is_identity() {
    let image = img_from(3, 2, &[0, 1, 2, 10, 11, 12]);
    let translated = translate(&image, (0, 0));
    assert_eq!(translated.to_vec(), image.to_vec());
}

#[test]
fn test_translate_large_negative_offsets() {
    let image = img_from(3, 3, &[0, 1, 2, 10, 11, 12, 20, 21, 22]);
    let translated = translate(&image, (-3, -7));
    assert_eq!(translated.to_vec(), vec![22u8; 9]);
}

#[test]
fn test_translate_single_pixel() {
    let image = img_from(1, 1, &[42]);
    let translated = translate(&image, (30, -30));
    assert_eq!(translated.to_vec(), vec![42]);
}

#[test]
fn test_grid_new_and_get() {
    let image: Img<u8> = Img::new(2, 3, 7);
    assert_eq!(image.width(), 2);
    assert_eq!(image.height(), 3);
    assert_eq!(image.to_vec(), vec![7u8; 6]);
    assert_eq!(image.get(1, 2), 7);
}

#[test]
fn test_interpolation_modes_are_distinct() {
    assert_ne!(Interpolation::Nearest, Interpolation::Bilinear);
    assert_eq!(Interpolation::Nearest, Interpolation::Nearest);
}
