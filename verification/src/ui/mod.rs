//! The decisions behind the application's screens.
pub mod presets;
pub mod settings;
pub mod input;
pub mod media;

use vstd::prelude::*;

verus! {

/// The screens of the main window.
#[derive(Debug, Clone, Copy, PartialEq, Eq, Structural)]
pub enum Screen {
    Input,
    Soundboard,
    Media,
    Settings,
}

} // verus!
