//! A text-to-speech virtual microphone for VRChat, as a verified library: the settings
//! and their migration, validation, the speech-engine registry and request bodies, the
//! virtual device's `pactl` protocol, OSC chat-box packets, and the decisions behind
//! the screens.
use vstd::prelude::*;

pub mod text;
pub mod assoc;
pub mod validation;
pub mod json;
pub mod numeric;
pub mod tts;
pub mod config;
pub mod audio;
pub mod osc;
pub mod ui;

verus! {
} // verus!
