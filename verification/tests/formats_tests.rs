use image_optimizer::formats::{get_supported_formats, is_supported_image_path, OutputFormat};

#[test]
fn extension_canonical_mapping() {
    assert_eq!(OutputFormat::Png.extension(), "png");
    assert_eq!(OutputFormat::Webp.extension(), "webp");
    assert_eq!(OutputFormat::Jpeg.extension(), "jpg");
    assert_eq!(OutputFormat::Tiff.extension(), "tiff");
    assert_eq!(OutputFormat::Qoi.extension(), "qoi");
    assert_eq!(OutputFormat::Bmp.extension(), "bmp");
}

#[test]
fn from_path_recognizes_known_extensions() {
    assert_eq!(OutputFormat::from_path("a.png"), Some(OutputFormat::Png));
    assert_eq!(OutputFormat::from_path("a.webp"), Some(OutputFormat::Webp));
    assert_eq!(OutputFormat::from_path("a.jpg"), Some(OutputFormat::Jpeg));
    assert_eq!(OutputFormat::from_path("a.jpeg"), Some(OutputFormat::Jpeg));
    assert_eq!(OutputFormat::from_path("a.tiff"), Some(OutputFormat::Tiff));
    assert_eq!(OutputFormat::from_path("a.tif"), Some(OutputFormat::Tiff));
    assert_eq!(OutputFormat::from_path("a.qoi"), Some(OutputFormat::Qoi));
    assert_eq!(OutputFormat::from_path("a.bmp"), Some(OutputFormat::Bmp));
}

#[test]
fn from_path_is_case_insensitive() {
    assert_eq!(OutputFormat::from_path("photo.PNG"), Some(OutputFormat::Png));
    assert_eq!(OutputFormat::from_path("photo.JpEg"), Some(OutputFormat::Jpeg));
    assert_eq!(OutputFormat::from_path("photo.WEBP"), Some(OutputFormat::Webp));
}

#[test]
fn from_path_rejects_unknown_or_missing_extension() {
    assert_eq!(OutputFormat::from_path("a.gif"), None);
    assert_eq!(OutputFormat::from_path("a.xyz"), None);
    assert_eq!(OutputFormat::from_path("noext"), None);
    assert_eq!(OutputFormat::from_path(".hidden"), None);
    assert_eq!(OutputFormat::from_path("dir.png/file"), None);
}

#[test]
fn from_path_uses_file_name_not_directory() {
    assert_eq!(OutputFormat::from_path("some/dir/x.qoi"), Some(OutputFormat::Qoi));
    assert_eq!(OutputFormat::from_path("c:\\pics\\x.bmp"), Some(OutputFormat::Bmp));
}

#[test]
fn supported_formats_listing() {
    let v = get_supported_formats();
    assert_eq!(v, vec!["png", "webp", "jpg", "tiff", "qoi", "bmp"]);
}

#[test]
fn scan_filter_matches_allow_list() {
    assert!(is_supported_image_path("x.png"));
    assert!(is_supported_image_path("x.JPG"));
    assert!(is_supported_image_path("x.tif"));
    assert!(!is_supported_image_path("x.txt"));
    assert!(!is_supported_image_path("x"));
}
