use imgopt::raster::{apply_border_radius, crop, grayscale, rgba_to_rgb, Raster};

fn solid(w: u32, h: u32, px: [u8; 4]) -> Raster {
    let mut data = Vec::new();
    for _ in 0..(w * h) {
        data.extend_from_slice(&px);
    }
    Raster { width: w, height: h, data }
}

fn chan(img: &Raster, x: u32, y: u32, c: u32) -> u8 {
    img.data[(4 * (y * img.width + x) + c) as usize]
}

#[test]
fn grayscale_maps_pure_red_to_bt601_luma() {
    // round(0.299 * 255) = 76.
    let mut img = solid(1, 1, [255, 0, 0, 255]);
    grayscale(&mut img);
    assert_eq!(img.data, vec![76, 76, 76, 255]);
}

#[test]
fn grayscale_maps_pure_green_and_blue() {
    // round(0.587 * 255) = 150, round(0.114 * 255) = 29.
    let mut img = solid(1, 1, [0, 255, 0, 128]);
    grayscale(&mut img);
    assert_eq!(img.data, vec![150, 150, 150, 128]);
    let mut img = solid(1, 1, [0, 0, 255, 7]);
    grayscale(&mut img);
    assert_eq!(img.data, vec![29, 29, 29, 7]);
}

#[test]
fn grayscale_keeps_white_and_black() {
    let mut img = solid(2, 2, [255, 255, 255, 9]);
    grayscale(&mut img);
    assert_eq!(chan(&img, 1, 1, 0), 255);
    assert_eq!(chan(&img, 1, 1, 3), 9);
    let mut img = solid(2, 2, [0, 0, 0, 9]);
    grayscale(&mut img);
    assert_eq!(chan(&img, 0, 1, 2), 0);
}

#[test]
fn border_radius_center_keeps_alpha() {
    let mut img = solid(10, 10, [1, 2, 3, 200]);
    apply_border_radius(&mut img, 3);
    // The pixel at (4, 4) lies in the center region.
    assert_eq!(chan(&img, 4, 4, 3), 200);
    // Color channels are never touched by the mask.
    assert_eq!(chan(&img, 0, 0, 0), 1);
    assert_eq!(chan(&img, 0, 0, 1), 2);
    assert_eq!(chan(&img, 0, 0, 2), 3);
}

#[test]
fn border_radius_masks_corner_extremes() {
    // With radius 4, the corner pixel's offsets are dx = dy = -3, and
    // 9 + 9 = 18 > 16 puts it outside the arc in all four corners.
    let mut img = solid(10, 10, [1, 2, 3, 200]);
    apply_border_radius(&mut img, 4);
    assert_eq!(chan(&img, 0, 0, 3), 0);
    assert_eq!(chan(&img, 9, 0, 3), 0);
    assert_eq!(chan(&img, 0, 9, 3), 0);
    assert_eq!(chan(&img, 9, 9, 3), 0);
    // The arc's own pixels stay: at (3, 0), dx = 0, dy = -3, 9 <= 16.
    assert_eq!(chan(&img, 3, 0, 3), 200);
}

#[test]
fn border_radius_three_boundary_pixels() {
    // With radius 3, the corner pixel (0,0) has dx = dy = -2 and
    // 4 + 4 = 8 <= 9: it lies inside the arc and keeps its alpha.
    let mut img = solid(10, 10, [1, 2, 3, 200]);
    apply_border_radius(&mut img, 3);
    assert_eq!(chan(&img, 0, 0, 3), 200);
    assert_eq!(chan(&img, 4, 4, 3), 200);
}

#[test]
fn border_radius_is_clamped_to_half_the_smaller_side() {
    // A 4x4 image clamps any large radius to 2; with radius 2 the corner
    // pixel has dx = dy = -1 and 2 > 4 is false: nothing is masked.
    let mut img = solid(4, 4, [0, 0, 0, 50]);
    apply_border_radius(&mut img, 1000);
    assert_eq!(chan(&img, 0, 0, 3), 50);
}

#[test]
fn border_radius_zero_changes_nothing() {
    let mut img = solid(3, 3, [5, 6, 7, 8]);
    let before = img.data.clone();
    apply_border_radius(&mut img, 0);
    assert_eq!(img.data, before);
}

#[test]
fn crop_takes_the_window() {
    // 4x2 image whose red channel encodes the pixel's x coordinate.
    let mut data = Vec::new();
    for y in 0..2u8 {
        for x in 0..4u8 {
            data.extend_from_slice(&[x, y, 0, 255]);
        }
    }
    let img = Raster { width: 4, height: 2, data };
    let out = crop(&img, 1, 0, 2, 2);
    assert_eq!(out.width, 2);
    assert_eq!(out.height, 2);
    assert_eq!(chan(&out, 0, 0, 0), 1);
    assert_eq!(chan(&out, 1, 0, 0), 2);
    assert_eq!(chan(&out, 0, 1, 1), 1);
}

#[test]
fn rgba_to_rgb_drops_alpha_only() {
    let img = solid(2, 1, [10, 20, 30, 99]);
    let rgb = rgba_to_rgb(&img);
    assert_eq!(rgb, vec![10, 20, 30, 10, 20, 30]);
}
