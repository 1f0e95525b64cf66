use image_optimizer::encoders::{
    save_bmp, save_jpeg, save_png_compressed, save_png_plain, save_qoi, save_tiff,
    save_webp_lossless, save_webp_lossy,
};
use image_optimizer::pixels::{decode_image, get_image_dimensions, RawImage};

fn solid(w: u32, h: u32, rgba: [u8; 4]) -> RawImage {
    let mut px = Vec::new();
    for _ in 0..(w * h) {
        px.extend_from_slice(&rgba);
    }
    RawImage { width: w, height: h, pixels: px }
}

fn gradient(w: u32, h: u32) -> RawImage {
    let mut px = Vec::new();
    for y in 0..h {
        for x in 0..w {
            px.push((x * 255 / w) as u8);
            px.push((y * 255 / h) as u8);
            px.push(((x + y) * 127 / (w + h)) as u8);
            px.push(255);
        }
    }
    RawImage { width: w, height: h, pixels: px }
}

#[test]
fn webp_lossless_round_trip_is_exact() {
    let img = solid(8, 8, [10, 200, 30, 255]);
    let bytes = save_webp_lossless(&img).unwrap();
    assert_eq!(&bytes[0..4], b"RIFF");
    let back = decode_image(&bytes).unwrap();
    assert_eq!(back.width, 8);
    assert_eq!(back.height, 8);
    assert_eq!(back.pixels, img.pixels);
}

#[test]
fn webp_lossy_decodes_with_same_dimensions() {
    let img = gradient(16, 16);
    let bytes = save_webp_lossy(&img, 60).unwrap();
    assert_eq!(&bytes[0..4], b"RIFF");
    let back = decode_image(&bytes).unwrap();
    assert_eq!(back.width, 16);
    assert_eq!(back.height, 16);
}

#[test]
fn jpeg_is_lossy_but_decodable() {
    let img = gradient(16, 16);
    let bytes = save_jpeg(&img, 85).unwrap();
    assert_eq!(&bytes[0..2], &[0xFF, 0xD8]);
    let back = decode_image(&bytes).unwrap();
    assert_eq!(back.width, 16);
    assert_eq!(back.height, 16);
}

#[test]
fn qoi_round_trip_is_exact() {
    let img = gradient(8, 4);
    let bytes = save_qoi(&img).unwrap();
    assert_eq!(&bytes[0..4], b"qoif");
    let back = decode_image(&bytes).unwrap();
    assert_eq!(back.width, 8);
    assert_eq!(back.height, 4);
    assert_eq!(back.pixels, img.pixels);
}

#[test]
fn png_plain_round_trip_is_exact() {
    let img = gradient(8, 4);
    let bytes = save_png_plain(&img).unwrap();
    assert_eq!(&bytes[0..4], &[0x89, b'P', b'N', b'G']);
    let back = decode_image(&bytes).unwrap();
    assert_eq!(back.pixels, img.pixels);
}

#[test]
fn tiff_and_bmp_round_trip() {
    let img = gradient(8, 4);
    let tiff = save_tiff(&img).unwrap();
    let back = decode_image(&tiff).unwrap();
    assert_eq!((back.width, back.height), (8, 4));
    let bmp = save_bmp(&img).unwrap();
    let back2 = decode_image(&bmp).unwrap();
    assert_eq!((back2.width, back2.height), (8, 4));
}

#[test]
fn png_quantized_quality_orders_file_size() {
    let img = gradient(64, 64);
    let small = save_png_compressed(&img, 10).unwrap();
    let large = save_png_compressed(&img, 100).unwrap();
    assert!(small.len() < large.len());
    let back_small = image::load_from_memory(&small).unwrap();
    assert_eq!((back_small.width(), back_small.height()), (64, 64));
    let back_large = image::load_from_memory(&large).unwrap();
    assert_eq!((back_large.width(), back_large.height()), (64, 64));
}

#[test]
fn png_quantized_with_transparency_decodes() {
    let mut img = gradient(16, 16);
    for chunk in img.pixels.chunks_mut(4) {
        chunk[3] = 128;
    }
    let bytes = save_png_compressed(&img, 80).unwrap();
    let back = image::load_from_memory(&bytes).unwrap();
    assert_eq!((back.width(), back.height()), (16, 16));
}

#[test]
fn probe_dimensions_reports_decoded_size() {
    let img = gradient(20, 10);
    let bytes = save_png_plain(&img).unwrap();
    let dims = get_image_dimensions(&bytes).unwrap();
    assert_eq!(dims.width, 20);
    assert_eq!(dims.height, 10);
    assert!(get_image_dimensions(&vec![1u8, 2, 3]).is_err());
}

#[test]
fn empty_image_is_rejected_where_the_codec_rejects_it() {
    let empty = RawImage { width: 0, height: 0, pixels: Vec::new() };
    assert!(save_qoi(&empty).is_err());
    let zero_width = RawImage { width: 0, height: 4, pixels: Vec::new() };
    assert!(save_jpeg(&zero_width, 85).is_err());
}

#[test]
fn oversized_webp_dimensions_are_rejected() {
    let wide = RawImage { width: 20000, height: 1, pixels: vec![0u8; 80000] };
    let r = save_webp_lossy(&wide, 75);
    assert!(r.is_err());
    assert!(r.unwrap_err().contains("16383"));
    assert!(save_webp_lossless(&wide).is_err());
}

#[test]
fn raw_image_constructor_checks_size() {
    assert!(RawImage::new(2, 2, vec![0u8; 16]).is_some());
    assert!(RawImage::new(2, 2, vec![0u8; 15]).is_none());
    assert!(RawImage::new(0, 5, Vec::new()).is_some());
}
