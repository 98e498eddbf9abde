//! The compression-form state carried by the UI shell around the pipeline.

use vstd::prelude::*;
use crate::format::OutputFormat;

verus! {

/// What the compression form holds between interactions.
pub struct State {
    pub input_path: String,
    pub output_path: String,
    pub scale: u32,
    pub height: Option<u32>,
    pub width: Option<u32>,
    pub quality: u8,
    pub format: OutputFormat,
    pub is_compressing: bool,
    pub compression_succeeded: bool,
    pub status: String,
}

/// The initial form state: empty paths, full scale and quality, JPEG
/// output, nothing in flight.
pub open spec fn spec_state_initial(s: State) -> bool {
    &&& s.input_path@ == Seq::<char>::empty()
    &&& s.output_path@ == Seq::<char>::empty()
    &&& s.scale == 100
    &&& s.height is None
    &&& s.width is None
    &&& s.quality == 100
    &&& s.format == OutputFormat::Jpeg
    &&& s.is_compressing == false
    &&& s.compression_succeeded == false
    &&& s.status@ == Seq::<char>::empty()
}

impl Default for State {
    /// The initial form state.
    fn default() -> (s: Self)
        ensures
            spec_state_initial(s),
    {
        State {
            input_path: String::new(),
            output_path: String::new(),
            scale: 100,
            height: None,
            width: None,
            quality: 100,
            format: OutputFormat::Jpeg,
            is_compressing: false,
            compression_succeeded: false,
            status: String::new(),
        }
    }
}

} // verus!
