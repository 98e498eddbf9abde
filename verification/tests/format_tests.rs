use compressr::format::{is_supported_extension, OutputFormat};

#[test]
fn extensions_per_format() {
    assert_eq!(OutputFormat::Jpeg.extension(), "jpg");
    assert_eq!(OutputFormat::Png.extension(), "png");
    assert_eq!(OutputFormat::Gif.extension(), "gif");
    assert_eq!(OutputFormat::WebP.extension(), "webp");
}

#[test]
fn labels_per_format() {
    assert_eq!(OutputFormat::Jpeg.label(), "JPEG");
    assert_eq!(OutputFormat::Png.label(), "PNG");
    assert_eq!(OutputFormat::Gif.label(), "GIF");
    assert_eq!(OutputFormat::WebP.label(), "WebP");
}

#[test]
fn all_formats_in_offer_order() {
    assert_eq!(
        OutputFormat::all(),
        vec![OutputFormat::Jpeg, OutputFormat::Png, OutputFormat::Gif, OutputFormat::WebP]
    );
}

#[test]
fn supported_extension_set() {
    for ext in [
        "avif", "bmp", "dds", "farbfeld", "gif", "hdr", "ico", "jpeg", "jpg", "exr", "png",
        "pnm", "qoi", "tga", "tiff", "webp", "svg",
    ] {
        assert!(is_supported_extension(ext), "{ext} should be supported");
    }
    assert!(is_supported_extension("PNG"));
    assert!(is_supported_extension("WeBp"));
    assert!(!is_supported_extension("txt"));
    assert!(!is_supported_extension("jpe"));
    assert!(!is_supported_extension(""));
}
