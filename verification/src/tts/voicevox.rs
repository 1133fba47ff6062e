//! The VOICEVOX engine, reached through `/speakers`, `/audio_query`, `/synthesis` and
//! `/version`.
use crate::tts::api::{endpoint, endpoint_url, normalize_base_url, trim_trailing_slashes};
use crate::tts::registry::EngineInfo;
use crate::tts::types::{AudioFormat, CapabilitiesView, EngineCapabilities};
use vstd::prelude::*;

verus! {

/// The VOICEVOX engine, by its base address.
#[derive(Debug, Clone)]
pub struct VoicevoxEngine {
    base_url: String,
}

impl VoicevoxEngine {
    /// The engine at `base_url`, kept without trailing slashes.
    pub fn new(base_url: &str) -> (r: Self)
        ensures
            r.base()@ == trim_trailing_slashes(base_url@),
    {
        VoicevoxEngine { base_url: normalize_base_url(base_url) }
    }

    /// The base address.
    pub closed spec fn base(&self) -> String {
        self.base_url
    }

    /// The base address.
    pub fn base_url(&self) -> (r: &str)
        ensures
            r@ == self.base()@,
    {
        self.base_url.as_str()
    }

    /// The address of the endpoint `path`.
    pub fn url(&self, path: &str) -> (r: String)
        ensures
            r@ == endpoint(self.base()@, path@),
    {
        endpoint_url(self.base_url.as_str(), path)
    }
}

impl EngineInfo for VoicevoxEngine {
    open spec fn spec_engine_id(&self) -> Seq<char> {
        "voicevox"@
    }

    open spec fn spec_display_name(&self) -> Seq<char> {
        "VOICEVOX"@
    }

    open spec fn spec_capabilities(&self) -> CapabilitiesView {
        voicevox_capabilities_view()
    }

    /// `voicevox`.
    fn engine_id(&self) -> &'static str {
        "voicevox"
    }

    /// `VOICEVOX`.
    fn display_name(&self) -> &'static str {
        "VOICEVOX"
    }

    /// See `voicevox_capabilities`.
    fn capabilities(&self) -> EngineCapabilities {
        voicevox_capabilities()
    }
}

/// The content of `voicevox_capabilities`.
pub open spec fn voicevox_capabilities_view() -> CapabilitiesView {
    CapabilitiesView {
        supports_speaker_list: true,
        requires_api_key: false,
        supported_output_formats: seq![AudioFormat::Wav],
        supports_user_dict: true,
        launchable: true,
    }
}

/// What VOICEVOX offers.
pub fn voicevox_capabilities() -> (r: EngineCapabilities)
    ensures
        r@ == voicevox_capabilities_view(),
{
    let mut formats: Vec<AudioFormat> = Vec::new();
    formats.push(AudioFormat::Wav);
    EngineCapabilities {
        supports_speaker_list: true,
        requires_api_key: false,
        supported_output_formats: formats,
        supports_user_dict: true,
        launchable: true,
    }
}

} // verus!
