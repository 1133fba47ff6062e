//! A VOICEVOX-compatible engine at a configurable address (selfvox, Style-Bert-VITS2
//! and the like), reached through `/speakers`, `/audio_query`, `/synthesis` and
//! `/version`.
use crate::tts::api::{endpoint, endpoint_url, normalize_base_url, trim_trailing_slashes};
use crate::tts::registry::EngineInfo;
use crate::tts::types::{AudioFormat, CapabilitiesView, EngineCapabilities};
use vstd::prelude::*;

verus! {

/// A VOICEVOX-compatible engine, by its base address.
#[derive(Debug, Clone)]
pub struct GenericEngine {
    base_url: String,
}

impl GenericEngine {
    /// The engine at `base_url`, kept without trailing slashes.
    pub fn new(base_url: &str) -> (r: Self)
        ensures
            r.base()@ == trim_trailing_slashes(base_url@),
    {
        GenericEngine { base_url: normalize_base_url(base_url) }
    }

    /// The base address.
    pub closed spec fn base(&self) -> String {
        self.base_url
    }

    /// The base address.
    pub fn base_url(&self) -> (r: &str)
        ensures
            r@ == self.base()@,
    {
        self.base_url.as_str()
    }

    /// The address of the endpoint `path`.
    pub fn url(&self, path: &str) -> (r: String)
        ensures
            r@ == endpoint(self.base()@, path@),
    {
        endpoint_url(self.base_url.as_str(), path)
    }
}

impl EngineInfo for GenericEngine {
    open spec fn spec_engine_id(&self) -> Seq<char> {
        "generic"@
    }

    open spec fn spec_display_name(&self) -> Seq<char> {
        "Generic"@
    }

    open spec fn spec_capabilities(&self) -> CapabilitiesView {
        generic_capabilities_view()
    }

    /// `generic`.
    fn engine_id(&self) -> &'static str {
        "generic"
    }

    /// `Generic`.
    fn display_name(&self) -> &'static str {
        "Generic"
    }

    /// See `generic_capabilities`.
    fn capabilities(&self) -> EngineCapabilities {
        generic_capabilities()
    }
}

/// The content of `generic_capabilities`.
pub open spec fn generic_capabilities_view() -> CapabilitiesView {
    CapabilitiesView {
        supports_speaker_list: true,
        requires_api_key: false,
        supported_output_formats: seq![AudioFormat::Wav],
        supports_user_dict: false,
        launchable: false,
    }
}

/// What a VOICEVOX-compatible engine offers.
pub fn generic_capabilities() -> (r: EngineCapabilities)
    ensures
        r@ == generic_capabilities_view(),
{
    let mut formats: Vec<AudioFormat> = Vec::new();
    formats.push(AudioFormat::Wav);
    EngineCapabilities {
        supports_speaker_list: true,
        requires_api_key: false,
        supported_output_formats: formats,
        supports_user_dict: false,
        launchable: false,
    }
}

} // verus!
