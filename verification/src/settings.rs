//! Application settings carried by the UI shell around the pipeline.

use vstd::prelude::*;
use vstd::string::StringExecFns;

verus! {

/// The persisted application settings.
pub struct Settings {
    pub auto_update: bool,
    pub update_server: String,
    pub theme: String,
    pub delete_files_after_compression: bool,
}

impl Default for Settings {
    /// The out-of-the-box settings: auto-update against the project's
    /// version feed, the default theme, originals kept.
    fn default() -> (s: Self)
        ensures
            s.auto_update == true,
            s.update_server@ == "https://codedead.com/Software/compressr/version.json"@,
            s.theme@ == "Oxocarbon"@,
            s.delete_files_after_compression == false,
    {
        Settings {
            auto_update: true,
            update_server: String::from_str("https://codedead.com/Software/compressr/version.json"),
            theme: String::from_str("Oxocarbon"),
            delete_files_after_compression: false,
        }
    }
}

impl Settings {
    /// Initialize a new Settings value from its four fields.
    pub fn new(
        auto_update: bool,
        update_server: String,
        theme: String,
        delete_files_after_compression: bool,
    ) -> (s: Self)
        ensures
            s.auto_update == auto_update,
            s.update_server == update_server,
            s.theme == theme,
            s.delete_files_after_compression == delete_files_after_compression,
    {
        Settings { auto_update, update_server, theme, delete_files_after_compression }
    }
}

} // verus!
