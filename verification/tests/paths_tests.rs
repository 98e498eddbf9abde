use compressr::format::OutputFormat;
use compressr::paths::{
    batch_stem_of, derive_batch_output_path, derive_default_output_path, file_name_of,
    file_stem_of, filter_supported, parent_dir_of, path_has_supported_extension,
};

#[test]
fn directory_output_naming_flattens_to_stem() {
    let p = derive_batch_output_path("a/b/photo.png", "out", OutputFormat::Jpeg);
    assert_eq!(p, "out/photo_compressed.jpg");
}

#[test]
fn directory_output_naming_per_format() {
    assert_eq!(derive_batch_output_path("x/cat.tiff", "o", OutputFormat::Png), "o/cat_compressed.png");
    assert_eq!(derive_batch_output_path("x/cat.tiff", "o", OutputFormat::Gif), "o/cat_compressed.gif");
    assert_eq!(derive_batch_output_path("x/cat.tiff", "o", OutputFormat::WebP), "o/cat_compressed.webp");
}

#[test]
fn batch_stem_falls_back_when_empty() {
    assert_eq!(batch_stem_of("a/b/"), "output");
    assert_eq!(derive_batch_output_path("a/b/", "out", OutputFormat::Jpeg), "out/output_compressed.jpg");
}

#[test]
fn default_output_path_sits_next_to_input() {
    assert_eq!(derive_default_output_path("dir/img.png"), "dir/img_compressed.jpg");
    assert_eq!(derive_default_output_path("/abs/dir/img.jpeg"), "/abs/dir/img_compressed.jpg");
}

#[test]
fn default_output_path_without_directory() {
    assert_eq!(derive_default_output_path("img.png"), "img_compressed.jpg");
}

#[test]
fn file_name_and_stem_rules() {
    assert_eq!(file_name_of("a/b/photo.png"), "photo.png");
    assert_eq!(file_name_of("photo.png"), "photo.png");
    assert_eq!(file_stem_of("a/b/photo.png"), "photo");
    assert_eq!(file_stem_of("a/b/archive.tar.gz"), "archive.tar");
    assert_eq!(file_stem_of("a/.hidden"), ".hidden");
    assert_eq!(file_stem_of("noext"), "noext");
    assert_eq!(parent_dir_of("a/b/photo.png"), "a/b");
    assert_eq!(parent_dir_of("photo.png"), "");
}

#[test]
fn supported_extension_matching_is_case_insensitive() {
    assert!(path_has_supported_extension("x/y/photo.PNG"));
    assert!(path_has_supported_extension("photo.JpG"));
    assert!(path_has_supported_extension("drawing.svg"));
    assert!(!path_has_supported_extension("notes.txt"));
    assert!(!path_has_supported_extension("noext"));
    assert!(!path_has_supported_extension(".hidden"));
}

#[test]
fn filter_supported_keeps_order_and_drops_the_rest() {
    let files = vec![
        String::from("a/one.png"),
        String::from("b/two.txt"),
        String::from("c/three.JPG"),
        String::from("d/four"),
        String::from("e/five.webp"),
    ];
    let kept = filter_supported(&files);
    assert_eq!(kept, vec![
        String::from("a/one.png"),
        String::from("c/three.JPG"),
        String::from("e/five.webp"),
    ]);
}

#[test]
fn filter_supported_empty_in_empty_out() {
    let files: Vec<String> = Vec::new();
    assert!(filter_supported(&files).is_empty());
}
