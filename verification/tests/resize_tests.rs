use image_optimizer::formats::OperationMode;
use image_optimizer::pixels::RawImage;
use image_optimizer::resize::{maybe_resize, target_dims, ResizeMode, ResizeSettings};

fn pct(p: Option<u32>) -> ResizeSettings {
    ResizeSettings {
        mode: ResizeMode::Percentage,
        percentage: p,
        max_width: None,
        max_height: None,
        keep_aspect_ratio: true,
    }
}

fn bounds(mw: u32, mh: u32, keep: bool) -> ResizeSettings {
    ResizeSettings {
        mode: ResizeMode::Dimensions,
        percentage: None,
        max_width: Some(mw),
        max_height: Some(mh),
        keep_aspect_ratio: keep,
    }
}

#[test]
fn percentage_half_of_200x100() {
    assert_eq!(target_dims(200, 100, OperationMode::Resize, pct(Some(50))), (100, 50));
}

#[test]
fn percentage_full_keeps_dimensions() {
    assert_eq!(target_dims(200, 100, OperationMode::Resize, pct(Some(100))), (200, 100));
    assert_eq!(target_dims(33, 77, OperationMode::Resize, pct(None)), (33, 77));
}

#[test]
fn percentage_clamped_to_bounds() {
    assert_eq!(target_dims(200, 100, OperationMode::Resize, pct(Some(200))), (200, 100));
    assert_eq!(target_dims(200, 100, OperationMode::Resize, pct(Some(0))), (2, 1));
}

#[test]
fn percentage_skipped_when_dimension_would_vanish() {
    assert_eq!(target_dims(10, 1, OperationMode::Resize, pct(Some(50))), (10, 1));
    assert_eq!(target_dims(1, 200, OperationMode::Resize, pct(Some(50))), (1, 200));
}

#[test]
fn within_bounds_is_untouched() {
    assert_eq!(target_dims(800, 600, OperationMode::Resize, bounds(1920, 1080, true)), (800, 600));
    assert_eq!(target_dims(1920, 1080, OperationMode::Resize, bounds(1920, 1080, true)), (1920, 1080));
}

#[test]
fn contain_fit_keeps_aspect() {
    assert_eq!(target_dims(4000, 2000, OperationMode::Resize, bounds(1920, 1080, true)), (1920, 960));
    assert_eq!(target_dims(2000, 4000, OperationMode::Resize, bounds(1920, 1080, true)), (540, 1080));
}

#[test]
fn exact_fit_forces_bounds() {
    assert_eq!(target_dims(4000, 2000, OperationMode::Resize, bounds(100, 100, false)), (100, 100));
}

#[test]
fn exact_fit_forces_zero_bounds_through() {
    assert_eq!(target_dims(1, 1, OperationMode::Resize, bounds(0, 0, false)), (0, 0));
    assert_eq!(target_dims(4, 4, OperationMode::Resize, bounds(0, 2, false)), (0, 2));
}

#[test]
fn contain_fit_rounds_to_nearest() {
    assert_eq!(target_dims(5, 3, OperationMode::Resize, bounds(3, 3, true)), (3, 2));
    assert_eq!(target_dims(3, 5, OperationMode::Resize, bounds(3, 3, true)), (2, 3));
}

#[test]
fn contain_fit_clamps_zero_bounds_to_one() {
    assert_eq!(target_dims(3, 10, OperationMode::Resize, bounds(0, 5, true)), (1, 1));
    assert_eq!(target_dims(1, 1, OperationMode::Resize, bounds(0, 0, true)), (1, 1));
}

#[test]
fn missing_bounds_mean_no_resize() {
    let rs = ResizeSettings {
        mode: ResizeMode::Dimensions,
        percentage: None,
        max_width: Some(10),
        max_height: None,
        keep_aspect_ratio: true,
    };
    assert_eq!(target_dims(4000, 2000, OperationMode::Resize, rs), (4000, 2000));
}

#[test]
fn non_resize_modes_keep_dimensions() {
    assert_eq!(target_dims(4000, 2000, OperationMode::Optimize, bounds(100, 100, true)), (4000, 2000));
    assert_eq!(target_dims(4000, 2000, OperationMode::Convert, pct(Some(10))), (4000, 2000));
}

#[test]
fn resize_modes_apply() {
    assert_eq!(target_dims(4000, 2000, OperationMode::OptimizeResize, bounds(100, 100, true)), (100, 50));
    assert_eq!(target_dims(4000, 2000, OperationMode::All, bounds(100, 100, true)), (100, 50));
}

#[test]
fn resample_changes_buffer() {
    let img = RawImage { width: 2, height: 2, pixels: vec![255u8; 16] };
    let out = maybe_resize(img, OperationMode::Resize, pct(Some(50)));
    assert_eq!(out.width, 1);
    assert_eq!(out.height, 1);
    assert_eq!(out.pixels.len(), 4);
}

#[test]
fn resample_noop_keeps_buffer() {
    let px: Vec<u8> = (0u8..16).collect();
    let img = RawImage { width: 2, height: 2, pixels: px.clone() };
    let out = maybe_resize(img, OperationMode::Optimize, pct(Some(50)));
    assert_eq!(out.width, 2);
    assert_eq!(out.height, 2);
    assert_eq!(out.pixels, px);
}
