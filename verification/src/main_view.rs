//! The main-view model: the form state together with the adapter service.
//! The widget tree and event handling around it are the shell's business.

use vstd::prelude::*;
use crate::image_service::ImageService;
use crate::state::{spec_state_initial, State};

verus! {

/// The model behind the main window.
pub struct MainView {
    pub state: State,
    pub image_service: ImageService,
}

impl Default for MainView {
    /// A fresh view over the initial form state.
    fn default() -> (v: Self)
        ensures
            spec_state_initial(v.state),
    {
        MainView { state: State::default(), image_service: ImageService::new() }
    }
}

} // verus!
