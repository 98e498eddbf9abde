//! The decoded-image type and the trusted codec adapters.
//!
//! A [`Raster`] couples the pixel data, handled entirely by the outside
//! codec crates, with its dimensions as plain values.  Every function in
//! this module that constructs a `Raster` stores the dimensions of the very
//! image it holds, so the decision logic elsewhere can reason over the two
//! numbers alone.

use vstd::prelude::*;

verus! {

#[verifier::external_type_specification]
#[verifier::external_body]
pub struct ExDynamicImage(image::DynamicImage);

/// What `image::load_from_memory` yields for a byte sequence: `None` when
/// the bytes do not decode, otherwise the decoded image's dimensions.
/// Decoding auto-detects the format and is a pure function of the bytes:
/// the decoder runs with its fixed default limits everywhere.
pub uninterp spec fn decoded_dims(data: Seq<u8>) -> Option<(u32, u32)>;

/// What `usvg::Tree::from_data` determines for a document's bytes under
/// this module's fixed options: `None` when the document does not parse,
/// otherwise its intrinsic integer pixel size
/// (`Tree::size().to_int_size()`).  Both are functions of the bytes
/// alone: the resources directory only guides resolving linked
/// resources, and a missing resource or font degrades the rendering, not
/// the parse or the size.
pub uninterp spec fn svg_intrinsic_size(data: Seq<u8>) -> Option<(u32, u32)>;

/// Dimensions whose decoded RGBA buffer takes at most half of the
/// decoder's default allocation budget of 512 MiB.  The round-trip
/// clauses below claim a successful decode only here, which leaves the
/// decoder's internal working buffers far more room than they need.
pub open spec fn spec_within_decode_budget(w: u32, h: u32) -> bool {
    4 * (w as int) * (h as int) <= 268435456
}

/// A decoded raster image: opaque pixel data plus its dimensions.
pub struct Raster {
    img: image::DynamicImage,
    width: u32,
    height: u32,
}

impl Raster {
    /// The image's width in pixels.
    pub closed spec fn spec_width(&self) -> u32 {
        self.width
    }

    /// The image's height in pixels.
    pub closed spec fn spec_height(&self) -> u32 {
        self.height
    }

    /// The image's width in pixels.
    pub fn width(&self) -> (w: u32)
        ensures
            w == self.spec_width(),
    {
        self.width
    }

    /// The image's height in pixels.
    pub fn height(&self) -> (h: u32)
        ensures
            h == self.spec_height(),
    {
        self.height
    }
}

/// Relies on `image::load_from_memory`: the format is auto-detected from the
/// bytes and decoding is deterministic in them; on success the returned
/// dimensions are the decoded image's.
#[verifier::external_body]
pub(crate) fn decode_raster(data: &Vec<u8>) -> (r: Result<Raster, String>)
    ensures
        r is Ok <==> decoded_dims(data@) is Some,
        r matches Ok(img) ==> decoded_dims(data@) == Some((img.spec_width(), img.spec_height())),
{
    match image::load_from_memory(data.as_slice()) {
        Ok(img) => {
            let (width, height) = image::GenericImageView::dimensions(&img);
            Ok(Raster { img, width, height })
        },
        Err(e) => Err(e.to_string()),
    }
}

#[verifier::external_type_specification]
#[verifier::external_body]
pub struct ExSvgTree(resvg::usvg::Tree);

/// Relies on `usvg::Tree::from_data` (parse, with resources resolved
/// relative to `resources_dir` and text against the host's fonts) and
/// `usvg::Size::to_int_size` (which rounds to a size of at least 1 on
/// each axis): returns the parsed document together with its intrinsic
/// integer pixel size.
#[verifier::external_body]
pub(crate) fn parse_svg(data: &Vec<u8>, resources_dir: Option<&str>) -> (r: Result<
    (resvg::usvg::Tree, u32, u32),
    String,
>)
    ensures
        r is Ok <==> svg_intrinsic_size(data@) is Some,
        r matches Ok(t) ==> svg_intrinsic_size(data@) == Some((t.1, t.2)) && t.1 >= 1 && t.2
            >= 1,
{
    let mut opt = resvg::usvg::Options::default();
    if let Some(dir) = resources_dir {
        opt.resources_dir = Some(std::path::PathBuf::from(dir));
    }
    opt.fontdb_mut().load_system_fonts();
    let tree = match resvg::usvg::Tree::from_data(data.as_slice(), &opt) {
        Ok(tree) => tree,
        Err(e) => return Err(e.to_string()),
    };
    let size = tree.size().to_int_size();
    let (width, height) = (size.width(), size.height());
    Ok((tree, width, height))
}

/// Relies on `tiny_skia::Pixmap::new` (which rejects a zero or oversized
/// area), `resvg::render` and `image::RgbaImage::from_raw`: on success
/// the raster holds the rendering at exactly the requested size.
#[verifier::external_body]
pub(crate) fn render_tree(tree: &resvg::usvg::Tree, width: u32, height: u32) -> (r: Result<
    Raster,
    String,
>)
    requires
        width >= 1,
        height >= 1,
    ensures
        r matches Ok(img) ==> img.spec_width() == width && img.spec_height() == height,
{
    let mut pixmap = match tiny_skia::Pixmap::new(width, height) {
        Some(p) => p,
        None => return Err(String::from("could not allocate a pixel buffer")),
    };
    resvg::render(tree, tiny_skia::Transform::default(), &mut pixmap.as_mut());
    match image::RgbaImage::from_raw(width, height, pixmap.take()) {
        Some(buf) => Ok(Raster { img: image::DynamicImage::ImageRgba8(buf), width, height }),
        None => Err(String::from("could not convert the rendered pixels")),
    }
}

/// Relies on `image::DynamicImage::resize_exact`: the result has exactly the
/// requested dimensions (the aspect ratio is not preserved), resampled with
/// the Lanczos filter.
#[verifier::external_body]
pub(crate) fn resize_raster(r: &Raster, width: u32, height: u32) -> (out: Raster)
    requires
        width >= 1,
        height >= 1,
    ensures
        out.spec_width() == width,
        out.spec_height() == height,
{
    Raster {
        img: r.img.resize_exact(width, height, image::imageops::FilterType::Lanczos3),
        width,
        height,
    }
}

/// Relies on `image::codecs::jpeg::JpegEncoder::{new_with_quality,
/// encode_image}`: pixels are first normalized to 8-bit RGB, the quality is
/// clamped to 1..=100 by the encoder, and encoding into a byte buffer
/// succeeds exactly when both dimensions fit a JPEG frame header
/// (1..=65535); the only other write target is the in-memory buffer, which
/// cannot fail.  The encoder writes the image's dimensions into the frame
/// header, so whenever `image::load_from_memory` decodes the bytes it
/// reports exactly these dimensions, and within the decode budget the
/// decode succeeds.
#[verifier::external_body]
pub(crate) fn encode_jpeg(r: &Raster, quality: u8) -> (out: Result<Vec<u8>, String>)
    ensures
        out is Ok <==> (1 <= r.spec_width() <= 65535 && 1 <= r.spec_height() <= 65535),
        out matches Ok(b) ==> ((decoded_dims(b@) matches Some(d) ==> d == (
            r.spec_width(),
            r.spec_height(),
        )) && (spec_within_decode_budget(r.spec_width(), r.spec_height())
            ==> decoded_dims(b@) is Some)),
{
    let mut buf: Vec<u8> = Vec::new();
    let rgb = image::DynamicImage::ImageRgb8(r.img.to_rgb8());
    let mut enc = image::codecs::jpeg::JpegEncoder::new_with_quality(&mut buf, quality);
    match enc.encode_image(&rgb) {
        Ok(()) => Ok(buf),
        Err(e) => Err(e.to_string()),
    }
}

/// Relies on `image::DynamicImage::write_to` with the PNG format: pixels
/// are first normalized to 8-bit RGBA, for which the PNG encoder fails only
/// on a zero dimension; writes go to an in-memory buffer, which cannot
/// fail.  The dimensions stand in the image header, so whenever
/// `image::load_from_memory` decodes the bytes it reports exactly them,
/// and within the decode budget the decode succeeds.
#[verifier::external_body]
pub(crate) fn encode_png(r: &Raster) -> (out: Result<Vec<u8>, String>)
    ensures
        out is Ok <==> (r.spec_width() >= 1 && r.spec_height() >= 1),
        out matches Ok(b) ==> ((decoded_dims(b@) matches Some(d) ==> d == (
            r.spec_width(),
            r.spec_height(),
        )) && (spec_within_decode_budget(r.spec_width(), r.spec_height())
            ==> decoded_dims(b@) is Some)),
{
    let rgba = image::DynamicImage::ImageRgba8(r.img.to_rgba8());
    let mut cur = std::io::Cursor::new(Vec::new());
    match rgba.write_to(&mut cur, image::ImageFormat::Png) {
        Ok(()) => Ok(cur.into_inner()),
        Err(e) => Err(e.to_string()),
    }
}

/// Relies on `image::DynamicImage::write_to` with the GIF format: pixels
/// are first normalized to 8-bit RGBA; the GIF encoder rejects dimensions
/// that do not fit 16 bits, and otherwise succeeds: the frame built from
/// RGBA pixels always carries a palette of at most 256 colors, and writes
/// go to an in-memory buffer, which cannot fail.  The dimensions stand in
/// the image descriptor, so whenever `image::load_from_memory` decodes
/// the bytes it reports exactly them; within the decode budget the decode
/// succeeds (the single full-screen frame is read straight into the
/// output buffer).
#[verifier::external_body]
pub(crate) fn encode_gif(r: &Raster) -> (out: Result<Vec<u8>, String>)
    ensures
        1 <= r.spec_width() <= 65535 && 1 <= r.spec_height() <= 65535 ==> out is Ok,
        r.spec_width() > 65535 || r.spec_height() > 65535 ==> out is Err,
        out matches Ok(b) ==> ((decoded_dims(b@) matches Some(d) ==> d == (
            r.spec_width(),
            r.spec_height(),
        )) && (spec_within_decode_budget(r.spec_width(), r.spec_height())
            ==> decoded_dims(b@) is Some)),
{
    let rgba = image::DynamicImage::ImageRgba8(r.img.to_rgba8());
    let mut cur = std::io::Cursor::new(Vec::new());
    match rgba.write_to(&mut cur, image::ImageFormat::Gif) {
        Ok(()) => Ok(cur.into_inner()),
        Err(e) => Err(e.to_string()),
    }
}

/// Relies on `image::codecs::webp::WebPEncoder::new_lossless`: pixels are
/// first normalized to 8-bit RGBA and encoded losslessly; encoding into a
/// byte buffer succeeds exactly when both dimensions are in 1..=16384, the
/// range the lossless WebP bitstream admits.  The dimensions stand in the
/// bitstream header, so whenever `image::load_from_memory` decodes the
/// bytes it reports exactly them, and within the decode budget the decode
/// succeeds.
#[verifier::external_body]
pub(crate) fn encode_webp(r: &Raster) -> (out: Result<Vec<u8>, String>)
    ensures
        out is Ok <==> (1 <= r.spec_width() <= 16384 && 1 <= r.spec_height() <= 16384),
        out matches Ok(b) ==> ((decoded_dims(b@) matches Some(d) ==> d == (
            r.spec_width(),
            r.spec_height(),
        )) && (spec_within_decode_budget(r.spec_width(), r.spec_height())
            ==> decoded_dims(b@) is Some)),
{
    let rgba = r.img.to_rgba8();
    let mut buf: Vec<u8> = Vec::new();
    let enc = image::codecs::webp::WebPEncoder::new_lossless(&mut buf);
    match enc.encode(rgba.as_raw(), r.width, r.height, image::ExtendedColorType::Rgba8) {
        Ok(()) => Ok(buf),
        Err(e) => Err(e.to_string()),
    }
}

} // verus!
