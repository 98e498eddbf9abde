//! The decoder/encoder adapter: decode (or render SVG), resize, encode.
//!
//! The adapter works on an input held in memory and returns the encoded
//! bytes; reading inputs and writing outputs is the caller's business.  Its
//! outcome is pinned down as a function of the bytes and the parameters:
//! which inputs decode, which targets are degenerate, which fit the chosen
//! format, and that successful output decodes back to the target
//! dimensions.  Only an SVG's pixels depend on the host (its fonts), never
//! the dimensions.

use vstd::prelude::*;
use vstd::string::{StrSliceExecFns, StringExecFns};
use crate::errors::{CompressError, ErrorKind};
use crate::format::OutputFormat;
use crate::paths::parent_dir_of;
use crate::raster::{
    decode_raster, decoded_dims, encode_gif, encode_jpeg, encode_png, encode_webp, parse_svg,
    render_tree, resize_raster, spec_within_decode_budget, svg_intrinsic_size, Raster,
};
use crate::resize::{
    compute_target_dims, lemma_scale_100_identity, spec_dims_valid, spec_target_dims,
};

verus! {

/// The stateless adapter service.
#[derive(Clone)]
pub struct ImageService;

/// Whether `p` names an SVG document: it ends in the vector-format
/// extension.
pub open spec fn spec_is_svg_name(p: Seq<char>) -> bool {
    p.len() >= 4 && p.subrange(p.len() - 4, p.len() as int) == ".svg"@
}

/// Tests whether a path names an SVG document.
pub fn is_svg_name(p: &str) -> (r: bool)
    ensures
        r == spec_is_svg_name(p@),
{
    proof {
        reveal_strlit(".svg");
    }
    let n = p.unicode_len();
    if n < 4 {
        return false;
    }
    let r = p.get_char(n - 4) == '.' && p.get_char(n - 3) == 's' && p.get_char(n - 2) == 'v'
        && p.get_char(n - 1) == 'g';
    proof {
        if r {
            assert(p@.subrange(p@.len() - 4, p@.len() as int) =~= ".svg"@);
        } else {
            assert(p@.subrange(p@.len() - 4, p@.len() as int) != ".svg"@) by {
                if p@.subrange(p@.len() - 4, p@.len() as int) == ".svg"@ {
                    assert(p@.subrange(p@.len() - 4, p@.len() as int)[0] == '.');
                    assert(p@.subrange(p@.len() - 4, p@.len() as int)[1] == 's');
                    assert(p@.subrange(p@.len() - 4, p@.len() as int)[2] == 'v');
                    assert(p@.subrange(p@.len() - 4, p@.len() as int)[3] == 'g');
                }
            }
        }
    }
    r
}

/// Whether target dimensions (both already positive) fit the chosen
/// format's limits: 65535 on each axis for JPEG and GIF, 16384 for
/// lossless WebP, any size the resampler produced for PNG.
pub open spec fn spec_format_fits(format: OutputFormat, tw: int, th: int) -> bool {
    match format {
        OutputFormat::Jpeg => tw <= 65535 && th <= 65535,
        OutputFormat::Png => true,
        OutputFormat::Gif => tw <= 65535 && th <= 65535,
        OutputFormat::WebP => tw <= 16384 && th <= 16384,
    }
}

/// A successful adapter result whose bytes answer for the target
/// dimensions `(tw, th)`: whenever the bytes decode they decode to
/// exactly the target, and within the decode budget they do decode.
pub open spec fn spec_output_answers_for(r: Result<Vec<u8>, CompressError>, tw: int, th: int) -> bool {
    r matches Ok(b) && (decoded_dims(b@) matches Some(d) ==> d == ((tw as u32), (th as u32)))
        && (spec_within_decode_budget((tw as u32), (th as u32)) ==> decoded_dims(b@) is Some)
}

/// What the adapter returns for one in-memory input, as a predicate over
/// the input name, the input bytes and the parameters.
///
/// An empty input name is rejected as an unusable request, with the
/// original wording.  For a raster input the outcome is then a function
/// of the bytes: a decode failure exactly when the bytes do not decode; a
/// resize failure exactly when the resolved target dimensions are
/// degenerate; otherwise success exactly when the target dimensions fit
/// the chosen format, with bytes that answer for the target.  For an SVG
/// input the intrinsic size is a function of the bytes, but the render
/// may still fail (an unallocatable pixel buffer), so a decode failure
/// stays possible beside the same rules.
pub open spec fn spec_adapter_outcome(
    name: Seq<char>,
    data: Seq<u8>,
    scale: u32,
    width: Option<u32>,
    height: Option<u32>,
    format: OutputFormat,
    r: Result<Vec<u8>, CompressError>,
) -> bool {
    if name.len() == 0 {
        r matches Err(e) && e.kind == ErrorKind::InvalidRequest && e.message@
            == "Input and output paths cannot be empty"@
    } else if spec_is_svg_name(name) {
        match svg_intrinsic_size(data) {
            None => r matches Err(e) && e.kind == ErrorKind::DecodeError,
            Some(dims) => {
                let (tw, th) = spec_target_dims(dims.0, dims.1, scale, width, height);
                match r {
                    Ok(_) => spec_dims_valid(tw, th) && spec_format_fits(format, tw, th)
                        && spec_output_answers_for(r, tw, th),
                    Err(e) => e.kind == ErrorKind::DecodeError || (e.kind
                        == ErrorKind::ResizeError && !spec_dims_valid(tw, th)) || (e.kind
                        == ErrorKind::EncodeError && spec_dims_valid(tw, th)
                        && !spec_format_fits(format, tw, th)),
                }
            },
        }
    } else {
        match decoded_dims(data) {
            None => r matches Err(e) && e.kind == ErrorKind::DecodeError,
            Some(dims) => {
                let (tw, th) = spec_target_dims(dims.0, dims.1, scale, width, height);
                if !spec_dims_valid(tw, th) {
                    r matches Err(e) && e.kind == ErrorKind::ResizeError
                } else if spec_format_fits(format, tw, th) {
                    spec_output_answers_for(r, tw, th)
                } else {
                    r matches Err(e) && e.kind == ErrorKind::EncodeError
                }
            },
        }
    }
}

/// Scaling law: for a raster input that decodes to `(w, h)`, a percentage
/// scale with no explicit dimensions resolves to `floor(d * scale / 100)`
/// on both axes, and whenever that target is non-degenerate, fits the
/// chosen format and lies within the decode budget, the adapter succeeds
/// with bytes that decode to exactly that target.
pub proof fn lemma_scaled_output_dims(
    name: Seq<char>,
    data: Seq<u8>,
    scale: u32,
    format: OutputFormat,
    r: Result<Vec<u8>, CompressError>,
    w: u32,
    h: u32,
)
    requires
        name.len() > 0,
        !spec_is_svg_name(name),
        decoded_dims(data) == Some((w, h)),
        spec_adapter_outcome(name, data, scale, None, None, format, r),
        spec_dims_valid((w * scale) / 100, (h * scale) / 100),
        spec_format_fits(format, (w * scale) / 100, (h * scale) / 100),
        spec_within_decode_budget((((w * scale) / 100) as u32), (((h * scale) / 100) as u32)),
    ensures
        r is Ok,
        (r matches Ok(b) ==> decoded_dims(b@) == Some(
            ((((w * scale) / 100) as u32), (((h * scale) / 100) as u32)),
        )),
{
}

/// Identity law: at a 100% scale with no explicit dimensions the resize
/// step changes nothing — for a raster input that decodes to `(w, h)`,
/// fits the chosen format and lies within the decode budget, the adapter
/// succeeds with bytes that decode to exactly `(w, h)`.
pub proof fn lemma_identity_scale_output_dims(
    name: Seq<char>,
    data: Seq<u8>,
    format: OutputFormat,
    r: Result<Vec<u8>, CompressError>,
    w: u32,
    h: u32,
)
    requires
        name.len() > 0,
        !spec_is_svg_name(name),
        decoded_dims(data) == Some((w, h)),
        w >= 1,
        h >= 1,
        spec_adapter_outcome(name, data, 100, None, None, format, r),
        spec_format_fits(format, w as int, h as int),
        spec_within_decode_budget(w, h),
    ensures
        r is Ok,
        (r matches Ok(b) ==> decoded_dims(b@) == Some((w, h))),
{
    lemma_scale_100_identity(w, h);
    lemma_scaled_output_dims(name, data, 100, format, r, w, h);
}

impl Default for ImageService {
    /// The adapter service carries no state; the default is the service.
    fn default() -> (s: Self)
        ensures
            s == (ImageService {}),
    {
        ImageService
    }
}

impl ImageService {
    /// Initialize a new ImageService.
    pub fn new() -> (s: Self)
        ensures
            s == (ImageService {}),
    {
        ImageService
    }

    /// Loads an SVG document from its bytes and renders it to a raster
    /// image at the document's intrinsic pixel size, with resource
    /// references resolved relative to `resources_dir`.
    pub fn load_svg(data: &Vec<u8>, resources_dir: Option<&str>) -> (r: Result<Raster, String>)
        ensures
            svg_intrinsic_size(data@) is None ==> r is Err,
            r matches Ok(img) ==> svg_intrinsic_size(data@) == Some(
                (img.spec_width(), img.spec_height()),
            ) && img.spec_width() >= 1 && img.spec_height() >= 1,
    {
        let (tree, width, height) = match parse_svg(data, resources_dir) {
            Ok(t) => t,
            Err(e) => {
                return Err(e);
            },
        };
        render_tree(&tree, width, height)
    }

    /// Compresses one input held in memory: decodes it (rendering SVG
    /// documents to raster), resolves the resize request, resamples when
    /// the target differs from the current size, and encodes in the
    /// requested format.  Returns the encoded bytes.
    ///
    /// The quality is handed to the JPEG encoder; PNG, GIF and WebP are
    /// written losslessly and ignore it.
    pub fn compress_image(
        &self,
        input_path: &str,
        data: &Vec<u8>,
        scale: u32,
        width: Option<u32>,
        height: Option<u32>,
        quality: u8,
        format: OutputFormat,
    ) -> (r: Result<Vec<u8>, CompressError>)
        ensures
            spec_adapter_outcome(input_path@, data@, scale, width, height, format, r),
    {
        if input_path.is_empty() {
            return Err(
                CompressError::new(
                    ErrorKind::InvalidRequest,
                    String::from_str("Input and output paths cannot be empty"),
                ),
            );
        }
        let decoded: Result<Raster, String> = if is_svg_name(input_path) {
            let dir = parent_dir_of(input_path);
            if dir.as_str().unicode_len() == 0 {
                Self::load_svg(data, None)
            } else {
                Self::load_svg(data, Some(dir.as_str()))
            }
        } else {
            decode_raster(data)
        };
        let img = match decoded {
            Ok(img) => img,
            Err(m) => {
                return Err(
                    CompressError::new(
                        ErrorKind::DecodeError,
                        String::from_str("Failed to load image: ").concat(m.as_str()),
                    ),
                );
            },
        };
        let w = img.width();
        let h = img.height();
        let (tw, th) = match compute_target_dims(w, h, scale, width, height) {
            Some(t) => t,
            None => {
                return Err(
                    CompressError::new(
                        ErrorKind::ResizeError,
                        String::from_str("degenerate target dimensions"),
                    ),
                );
            },
        };
        let resized = if tw == w && th == h {
            img
        } else {
            resize_raster(&img, tw, th)
        };
        let encoded: Result<Vec<u8>, String> = match format {
            OutputFormat::Jpeg => encode_jpeg(&resized, quality),
            OutputFormat::Png => encode_png(&resized),
            OutputFormat::Gif => encode_gif(&resized),
            OutputFormat::WebP => encode_webp(&resized),
        };
        match encoded {
            Ok(bytes) => Ok(bytes),
            Err(m) => Err(
                CompressError::new(
                    ErrorKind::EncodeError,
                    String::from_str("Failed to encode image: ").concat(m.as_str()),
                ),
            ),
        }
    }
}

} // verus!
