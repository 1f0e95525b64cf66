use image_optimizer::encoders::{eff_quality, save_png_plain};
use image_optimizer::errors::ConvertError;
use image_optimizer::formats::{OperationMode, OutputFormat};
use image_optimizer::pipeline::{
    convert_image, effective_output_dir, output_file_name, resolve_output_format, ConvertOutput,
};
use image_optimizer::pixels::{decode_image, RawImage};
use image_optimizer::resize::{ResizeMode, ResizeSettings};

fn no_resize() -> ResizeSettings {
    ResizeSettings {
        mode: ResizeMode::Dimensions,
        percentage: None,
        max_width: None,
        max_height: None,
        keep_aspect_ratio: true,
    }
}

fn gradient_png(w: u32, h: u32) -> (RawImage, Vec<u8>) {
    let mut px = Vec::new();
    for y in 0..h {
        for x in 0..w {
            px.push((x * 255 / w) as u8);
            px.push((y * 255 / h) as u8);
            px.push(0);
            px.push(255);
        }
    }
    let img = RawImage { width: w, height: h, pixels: px };
    let bytes = save_png_plain(&img).unwrap();
    (img, bytes)
}

#[test]
fn output_name_appends_mode_suffix() {
    assert_eq!(
        output_file_name("cat.png", OperationMode::Optimize, false, OutputFormat::Png),
        "cat_optimized.png"
    );
    assert_eq!(
        output_file_name("cat.png", OperationMode::Resize, false, OutputFormat::Png),
        "cat_resized.png"
    );
    assert_eq!(
        output_file_name("cat.png", OperationMode::Convert, false, OutputFormat::Webp),
        "cat_converted.webp"
    );
    assert_eq!(
        output_file_name("cat.png", OperationMode::OptimizeResize, false, OutputFormat::Png),
        "cat_optimized_resized.png"
    );
    assert_eq!(
        output_file_name("cat.png", OperationMode::All, false, OutputFormat::Qoi),
        "cat_processed.qoi"
    );
}

#[test]
fn output_name_under_overwrite_keeps_stem() {
    assert_eq!(
        output_file_name("cat.png", OperationMode::Optimize, true, OutputFormat::Jpeg),
        "cat.jpg"
    );
    assert_ne!(
        output_file_name("cat.png", OperationMode::Optimize, false, OutputFormat::Png),
        "cat.png"
    );
}

#[test]
fn effective_dir_falls_back_to_parent_under_overwrite() {
    assert_eq!(effective_output_dir(true, "", "photos/cat.png"), "photos");
    assert_eq!(effective_output_dir(true, "", "cat.png"), "");
    assert_eq!(effective_output_dir(true, "out", "photos/cat.png"), "out");
    assert_eq!(effective_output_dir(false, "", "photos/cat.png"), "");
}

#[test]
fn resolution_prefers_explicit_format() {
    assert_eq!(
        resolve_output_format(Some(OutputFormat::Qoi), "a.png"),
        Some(OutputFormat::Qoi)
    );
    assert_eq!(resolve_output_format(None, "a.png"), Some(OutputFormat::Png));
    assert_eq!(resolve_output_format(None, "a.xyz"), None);
}

#[test]
fn unsupported_extension_fails_before_decode() {
    let garbage = vec![0u8, 1, 2, 3];
    let r = convert_image(
        &garbage,
        "file.xyz",
        "out",
        None,
        false,
        OperationMode::Convert,
        None,
        no_resize(),
    );
    assert!(matches!(r, Err(ConvertError::UnsupportedFormat(_))));
}

#[test]
fn unreadable_bytes_fail_with_decode_error() {
    let garbage = vec![0u8, 1, 2, 3];
    let r = convert_image(
        &garbage,
        "file.png",
        "out",
        None,
        false,
        OperationMode::Convert,
        None,
        no_resize(),
    );
    assert!(matches!(r, Err(ConvertError::Decode(_))));
}

#[test]
fn convert_to_webp_names_and_encodes() {
    let (img, bytes) = gradient_png(16, 8);
    let out: ConvertOutput = convert_image(
        &bytes,
        "photos/cat.png",
        "out",
        Some(OutputFormat::Webp),
        false,
        OperationMode::Convert,
        None,
        no_resize(),
    )
    .unwrap();
    assert_eq!(out.output_path, "out/cat_converted.webp");
    assert_eq!((out.width, out.height), (16, 8));
    let back = decode_image(&out.data).unwrap();
    assert_eq!(back.pixels, img.pixels);
}

#[test]
fn optimize_keeps_input_format_when_none_given() {
    let (_, bytes) = gradient_png(16, 8);
    let out = convert_image(
        &bytes,
        "cat.png",
        "",
        None,
        false,
        OperationMode::Optimize,
        Some(80),
        no_resize(),
    )
    .unwrap();
    assert_eq!(out.output_path, "cat_optimized.png");
    let back = image::load_from_memory(&out.data).unwrap();
    assert_eq!((back.width(), back.height()), (16, 8));
}

#[test]
fn resize_mode_halves_dimensions() {
    let (_, bytes) = gradient_png(200, 100);
    let rs = ResizeSettings {
        mode: ResizeMode::Percentage,
        percentage: Some(50),
        max_width: None,
        max_height: None,
        keep_aspect_ratio: true,
    };
    let out = convert_image(
        &bytes,
        "cat.png",
        "out",
        None,
        false,
        OperationMode::Resize,
        None,
        rs,
    )
    .unwrap();
    assert_eq!((out.width, out.height), (100, 50));
    assert_eq!(out.output_path, "out/cat_resized.png");
    let back = decode_image(&out.data).unwrap();
    assert_eq!((back.width, back.height), (100, 50));
}

#[test]
fn bounded_resize_keeps_aspect_ratio() {
    let (_, bytes) = gradient_png(200, 100);
    let rs = ResizeSettings {
        mode: ResizeMode::Dimensions,
        percentage: None,
        max_width: Some(100),
        max_height: Some(100),
        keep_aspect_ratio: true,
    };
    let out = convert_image(
        &bytes,
        "cat.png",
        "out",
        None,
        false,
        OperationMode::Resize,
        None,
        rs,
    )
    .unwrap();
    assert_eq!((out.width, out.height), (100, 50));
}

#[test]
fn resize_within_bounds_is_a_noop() {
    let (img, bytes) = gradient_png(50, 40);
    let rs = ResizeSettings {
        mode: ResizeMode::Dimensions,
        percentage: None,
        max_width: Some(100),
        max_height: Some(100),
        keep_aspect_ratio: true,
    };
    let out = convert_image(
        &bytes,
        "cat.png",
        "out",
        None,
        false,
        OperationMode::Resize,
        None,
        rs,
    )
    .unwrap();
    assert_eq!((out.width, out.height), (img.width, img.height));
}

#[test]
fn convert_with_overwrite_reuses_input_stem() {
    let (_, bytes) = gradient_png(8, 8);
    let out = convert_image(
        &bytes,
        "photos/cat.png",
        "out",
        None,
        true,
        OperationMode::Optimize,
        None,
        no_resize(),
    )
    .unwrap();
    assert_eq!(out.output_path, "out/cat.png");
}

#[test]
fn convert_dispatches_every_format() {
    let (_, bytes) = gradient_png(8, 8);
    for (fmt, expected) in [
        (OutputFormat::Qoi, "out/cat_converted.qoi"),
        (OutputFormat::Tiff, "out/cat_converted.tiff"),
        (OutputFormat::Bmp, "out/cat_converted.bmp"),
        (OutputFormat::Jpeg, "out/cat_converted.jpg"),
        (OutputFormat::Png, "out/cat_converted.png"),
    ] {
        let out = convert_image(
            &bytes,
            "cat.png",
            "out",
            Some(fmt),
            false,
            OperationMode::Convert,
            None,
            no_resize(),
        )
        .unwrap();
        assert_eq!(out.output_path, expected);
        let back = image::load_from_memory(&out.data).unwrap();
        assert_eq!((back.width(), back.height()), (8, 8));
    }
}

#[test]
fn forced_zero_resize_fails_at_the_encoder() {
    let (_, bytes) = gradient_png(2, 2);
    let rs = ResizeSettings {
        mode: ResizeMode::Dimensions,
        percentage: None,
        max_width: Some(0),
        max_height: Some(0),
        keep_aspect_ratio: false,
    };
    let r = convert_image(
        &bytes,
        "cat.png",
        "out",
        None,
        false,
        OperationMode::Resize,
        None,
        rs,
    );
    assert!(matches!(r, Err(ConvertError::Encode(_))));
}

#[test]
fn quality_defaults_and_clamping() {
    assert_eq!(eff_quality(None, 75), 75);
    assert_eq!(eff_quality(Some(50), 75), 50);
    assert_eq!(eff_quality(Some(255), 75), 100);
    assert_eq!(eff_quality(Some(100), 90), 100);
}
