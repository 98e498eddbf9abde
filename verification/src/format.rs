//! Output formats and the supported input-extension set.
//!
//! The output format is a closed variant: one encode strategy per variant.
//! Input discovery matches file extensions case-insensitively against the
//! raster formats the decoder understands, plus SVG as a vector input.

use vstd::prelude::*;
use crate::text::{eq_ignore_ascii_case, spec_eq_ignore_ascii_case};

verus! {

/// The formats the encoder can write.
#[derive(Clone, Copy, Debug, PartialEq, Eq, Structural)]
pub enum OutputFormat {
    Jpeg,
    Png,
    Gif,
    WebP,
}

impl OutputFormat {
    /// The file extension written for this format.
    pub open spec fn spec_extension(self) -> Seq<char> {
        match self {
            OutputFormat::Jpeg => "jpg"@,
            OutputFormat::Png => "png"@,
            OutputFormat::Gif => "gif"@,
            OutputFormat::WebP => "webp"@,
        }
    }

    /// The display label of this format.
    pub open spec fn spec_label(self) -> Seq<char> {
        match self {
            OutputFormat::Jpeg => "JPEG"@,
            OutputFormat::Png => "PNG"@,
            OutputFormat::Gif => "GIF"@,
            OutputFormat::WebP => "WebP"@,
        }
    }

    /// The file extension written for this format.
    pub fn extension(&self) -> (e: &'static str)
        ensures
            e@ == self.spec_extension(),
    {
        match self {
            OutputFormat::Jpeg => "jpg",
            OutputFormat::Png => "png",
            OutputFormat::Gif => "gif",
            OutputFormat::WebP => "webp",
        }
    }

    /// The display label of this format.
    pub fn label(&self) -> (n: &'static str)
        ensures
            n@ == self.spec_label(),
    {
        match self {
            OutputFormat::Jpeg => "JPEG",
            OutputFormat::Png => "PNG",
            OutputFormat::Gif => "GIF",
            OutputFormat::WebP => "WebP",
        }
    }

    /// Every format, in the order they are offered.
    pub fn all() -> (r: Vec<OutputFormat>)
        ensures
            r@ == seq![
                OutputFormat::Jpeg,
                OutputFormat::Png,
                OutputFormat::Gif,
                OutputFormat::WebP,
            ],
    {
        let v = vec![OutputFormat::Jpeg, OutputFormat::Png, OutputFormat::Gif, OutputFormat::WebP];
        v
    }
}

/// Whether `e` names, up to ASCII case, an extension of the supported
/// input set: the raster formats the decoder understands, plus SVG.
pub open spec fn spec_is_supported_extension(e: Seq<char>) -> bool {
    ||| spec_eq_ignore_ascii_case(e, "avif"@)
    ||| spec_eq_ignore_ascii_case(e, "bmp"@)
    ||| spec_eq_ignore_ascii_case(e, "dds"@)
    ||| spec_eq_ignore_ascii_case(e, "farbfeld"@)
    ||| spec_eq_ignore_ascii_case(e, "gif"@)
    ||| spec_eq_ignore_ascii_case(e, "hdr"@)
    ||| spec_eq_ignore_ascii_case(e, "ico"@)
    ||| spec_eq_ignore_ascii_case(e, "jpeg"@)
    ||| spec_eq_ignore_ascii_case(e, "jpg"@)
    ||| spec_eq_ignore_ascii_case(e, "exr"@)
    ||| spec_eq_ignore_ascii_case(e, "png"@)
    ||| spec_eq_ignore_ascii_case(e, "pnm"@)
    ||| spec_eq_ignore_ascii_case(e, "qoi"@)
    ||| spec_eq_ignore_ascii_case(e, "tga"@)
    ||| spec_eq_ignore_ascii_case(e, "tiff"@)
    ||| spec_eq_ignore_ascii_case(e, "webp"@)
    ||| spec_eq_ignore_ascii_case(e, "svg"@)
}

/// Tests an extension against the supported input set, ignoring ASCII case.
pub fn is_supported_extension(e: &str) -> (r: bool)
    ensures
        r == spec_is_supported_extension(e@),
{
    eq_ignore_ascii_case(e, "avif") || eq_ignore_ascii_case(e, "bmp")
        || eq_ignore_ascii_case(e, "dds") || eq_ignore_ascii_case(e, "farbfeld")
        || eq_ignore_ascii_case(e, "gif") || eq_ignore_ascii_case(e, "hdr")
        || eq_ignore_ascii_case(e, "ico") || eq_ignore_ascii_case(e, "jpeg")
        || eq_ignore_ascii_case(e, "jpg") || eq_ignore_ascii_case(e, "exr")
        || eq_ignore_ascii_case(e, "png") || eq_ignore_ascii_case(e, "pnm")
        || eq_ignore_ascii_case(e, "qoi") || eq_ignore_ascii_case(e, "tga")
        || eq_ignore_ascii_case(e, "tiff") || eq_ignore_ascii_case(e, "webp")
        || eq_ignore_ascii_case(e, "svg")
}

} // verus!
