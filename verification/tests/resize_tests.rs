use imgopt::errors::ErrorKind;
use imgopt::raster::Raster;
use imgopt::resize::{apply_resize, ResizeMode, ResizeSpec};

fn blank(w: u32, h: u32) -> Raster {
    Raster { width: w, height: h, data: vec![128; (4 * w * h) as usize] }
}

#[test]
fn width_only_preserves_aspect() {
    // 100x50, w=50 -> h = round(50 * 50 / 100) = 25.
    let img = blank(100, 50);
    let rs = ResizeSpec { width: Some(50), height: None, mode: ResizeMode::Fit };
    let out = apply_resize(&img, &rs).unwrap();
    assert_eq!((out.width, out.height), (50, 25));
}

#[test]
fn height_only_preserves_aspect() {
    let img = blank(100, 50);
    let rs = ResizeSpec { width: None, height: Some(25), mode: ResizeMode::Fit };
    let out = apply_resize(&img, &rs).unwrap();
    assert_eq!((out.width, out.height), (50, 25));
}

#[test]
fn force_is_exact() {
    let img = blank(100, 50);
    let rs = ResizeSpec { width: Some(40), height: Some(40), mode: ResizeMode::Force };
    let out = apply_resize(&img, &rs).unwrap();
    assert_eq!((out.width, out.height), (40, 40));
}

#[test]
fn fill_covers_and_crops_to_target() {
    let img = blank(100, 50);
    let rs = ResizeSpec { width: Some(40), height: Some(40), mode: ResizeMode::Fill };
    let out = apply_resize(&img, &rs).unwrap();
    assert_eq!((out.width, out.height), (40, 40));
}

#[test]
fn fit_stays_within_target() {
    let img = blank(100, 50);
    let rs = ResizeSpec { width: Some(40), height: Some(40), mode: ResizeMode::Fit };
    let out = apply_resize(&img, &rs).unwrap();
    assert_eq!((out.width, out.height), (40, 20));
}

#[test]
fn zero_target_is_invalid_dimensions() {
    let img = blank(100, 50);
    let rs = ResizeSpec { width: Some(0), height: Some(40), mode: ResizeMode::Force };
    match apply_resize(&img, &rs) {
        Err(e) => assert_eq!(e, ErrorKind::InvalidDimensions),
        Ok(_) => panic!("a zero target must be rejected"),
    }
}

#[test]
fn derived_dimension_is_floored_to_one() {
    // 100x1, w=3: round(3 * 1 / 100) = 0, floored to 1.
    let img = blank(100, 1);
    let rs = ResizeSpec { width: Some(3), height: None, mode: ResizeMode::Force };
    let out = apply_resize(&img, &rs).unwrap();
    assert_eq!((out.width, out.height), (3, 1));
}
