//! Values exchanged with speech-synthesis engines.
use crate::config::AppConfig;
use crate::json::JsonNumber;
use vstd::prelude::*;

verus! {

/// One voice style of a speaker.
#[derive(Debug, Clone)]
pub struct Style {
    pub name: String,
    pub id: u32,
}

/// A speaker offered by an engine, with its styles.
#[derive(Debug, Clone)]
pub struct Speaker {
    pub name: String,
    pub speaker_uuid: String,
    pub styles: Vec<Style>,
}

/// The encodings an engine may produce.
#[derive(Debug, Clone, Copy, PartialEq, Eq, Hash, Structural)]
pub enum AudioFormat {
    Wav,
    Mp3,
    Ogg,
    Opus,
    Pcm,
}

/// What an engine can do.
#[derive(Debug, Clone, PartialEq, Eq)]
pub struct EngineCapabilities {
    pub supports_speaker_list: bool,
    pub requires_api_key: bool,
    pub supported_output_formats: Vec<AudioFormat>,
    pub supports_user_dict: bool,
    pub launchable: bool,
}

/// The content of `EngineCapabilities`.
pub struct CapabilitiesView {
    pub supports_speaker_list: bool,
    pub requires_api_key: bool,
    pub supported_output_formats: Seq<AudioFormat>,
    pub supports_user_dict: bool,
    pub launchable: bool,
}

impl View for EngineCapabilities {
    type V = CapabilitiesView;

    open spec fn view(&self) -> CapabilitiesView {
        CapabilitiesView {
            supports_speaker_list: self.supports_speaker_list,
            requires_api_key: self.requires_api_key,
            supported_output_formats: self.supported_output_formats@,
            supports_user_dict: self.supports_user_dict,
            launchable: self.launchable,
        }
    }
}

impl EngineCapabilities {
    /// Whether `format` is among the supported output formats.
    pub fn supports_format(&self, format: AudioFormat) -> (b: bool)
        ensures
            b == self.supported_output_formats@.contains(format),
    {
        let mut i: usize = 0;
        while i < self.supported_output_formats.len()
            invariant
                i <= self.supported_output_formats@.len(),
                forall|j: int| 0 <= j < i ==> self.supported_output_formats@[j] != format,
            decreases self.supported_output_formats@.len() - i,
        {
            if self.supported_output_formats[i] == format {
                return true;
            }
            i = i + 1;
        }
        false
    }

    /// A copy with the same content.
    pub fn duplicate(&self) -> (r: EngineCapabilities)
        ensures
            r@ == self@,
    {
        let mut formats: Vec<AudioFormat> = Vec::new();
        let mut i: usize = 0;
        while i < self.supported_output_formats.len()
            invariant
                i <= self.supported_output_formats@.len(),
                formats@ == self.supported_output_formats@.take(i as int),
            decreases self.supported_output_formats@.len() - i,
        {
            formats.push(self.supported_output_formats[i]);
            proof {
                assert(self.supported_output_formats@.take(i as int).push(
                    self.supported_output_formats@[i as int],
                ) =~= self.supported_output_formats@.take(i + 1));
            }
            i = i + 1;
        }
        proof {
            assert(self.supported_output_formats@.take(i as int) =~= self.supported_output_formats@);
        }
        EngineCapabilities {
            supports_speaker_list: self.supports_speaker_list,
            requires_api_key: self.requires_api_key,
            supported_output_formats: formats,
            supports_user_dict: self.supports_user_dict,
            launchable: self.launchable,
        }
    }
}

/// Synthesized audio and its encoding.
#[derive(Debug, Clone, PartialEq, Eq)]
pub struct SynthResult {
    pub audio: Vec<u8>,
    pub format: AudioFormat,
}

/// Why synthesized audio could not be handed on.
#[derive(Debug, Clone, Copy, PartialEq, Eq, Structural)]
pub enum SynthError {
    /// The audio is not WAV; the field is its format.
    NotWav(AudioFormat),
}

impl SynthError {
    /// The message the application shows for this error.
    pub fn message(&self) -> (m: String)
        ensures
            match self {
                SynthError::NotWav(f) => m@ == "Audio format "@ + format_name(*f) + " is not WAV"@,
            },
    {
        match self {
            SynthError::NotWav(f) => {
                let head = crate::text::concat_str("Audio format ", format_name_str(*f));
                head.concat(" is not WAV")
            },
        }
    }
}

/// The variant name of an audio format (its `Debug` text).
pub open spec fn format_name(f: AudioFormat) -> Seq<char> {
    match f {
        AudioFormat::Wav => "Wav"@,
        AudioFormat::Mp3 => "Mp3"@,
        AudioFormat::Ogg => "Ogg"@,
        AudioFormat::Opus => "Opus"@,
        AudioFormat::Pcm => "Pcm"@,
    }
}

fn format_name_str(f: AudioFormat) -> (s: &'static str)
    ensures
        s@ == format_name(f),
{
    match f {
        AudioFormat::Wav => "Wav",
        AudioFormat::Mp3 => "Mp3",
        AudioFormat::Ogg => "Ogg",
        AudioFormat::Opus => "Opus",
        AudioFormat::Pcm => "Pcm",
    }
}

impl SynthResult {
    pub fn new(audio: Vec<u8>, format: AudioFormat) -> (r: Self)
        ensures
            r.audio == audio,
            r.format == format,
    {
        SynthResult { audio, format }
    }

    /// The audio bytes, when they are WAV.
    pub fn into_wav_bytes(self) -> (r: Result<Vec<u8>, SynthError>)
        ensures
            self.format == AudioFormat::Wav ==> r == Ok::<Vec<u8>, SynthError>(self.audio),
            self.format != AudioFormat::Wav ==> r == Err::<Vec<u8>, SynthError>(
                SynthError::NotWav(self.format),
            ),
    {
        if self.format == AudioFormat::Wav {
            Ok(self.audio)
        } else {
            Err(SynthError::NotWav(self.format))
        }
    }
}

/// Parameters of one synthesis request. The four scales are numbers as written in the
/// configuration (floating-point in use).
#[derive(Debug, Clone)]
pub struct SynthParams {
    pub speaker_id: u32,
    pub speed_scale: JsonNumber,
    pub pitch_scale: JsonNumber,
    pub intonation_scale: JsonNumber,
    pub volume_scale: JsonNumber,
    /// Overrides the engine's default reference audio path (Voiceger only).
    pub aux_ref_audio: Option<String>,
    /// Voiceger only: force reference-free synthesis (`ref_free=true`).
    pub voiceger_ref_free: bool,
}

impl SynthParams {
    /// VOICEVOX parameters when no preset is chosen: the configured speaker and scales,
    /// no reference-audio override, and the configured reference-free setting.
    pub fn from_config(config: &AppConfig) -> (r: Self)
        ensures
            r.speaker_id == config.speaker_id,
            r.speed_scale == config.synth_params.speed_scale,
            r.pitch_scale == config.synth_params.pitch_scale,
            r.intonation_scale == config.synth_params.intonation_scale,
            r.volume_scale == config.synth_params.volume_scale,
            r.aux_ref_audio is None,
            r.voiceger_ref_free == config.voiceger_ref_free,
    {
        SynthParams {
            speaker_id: config.speaker_id,
            speed_scale: config.synth_params.speed_scale,
            pitch_scale: config.synth_params.pitch_scale,
            intonation_scale: config.synth_params.intonation_scale,
            volume_scale: config.synth_params.volume_scale,
            aux_ref_audio: None,
            voiceger_ref_free: config.voiceger_ref_free,
        }
    }

    /// Generic-engine parameters when no preset is chosen: the generic speaker and
    /// scales, no reference-audio override, reference-free off.
    pub fn from_config_generic(config: &AppConfig) -> (r: Self)
        ensures
            r.speaker_id == config.generic_speaker_id,
            r.speed_scale == config.generic_synth_params.speed_scale,
            r.pitch_scale == config.generic_synth_params.pitch_scale,
            r.intonation_scale == config.generic_synth_params.intonation_scale,
            r.volume_scale == config.generic_synth_params.volume_scale,
            r.aux_ref_audio is None,
            !r.voiceger_ref_free,
    {
        SynthParams {
            speaker_id: config.generic_speaker_id,
            speed_scale: config.generic_synth_params.speed_scale,
            pitch_scale: config.generic_synth_params.pitch_scale,
            intonation_scale: config.generic_synth_params.intonation_scale,
            volume_scale: config.generic_synth_params.volume_scale,
            aux_ref_audio: None,
            voiceger_ref_free: false,
        }
    }
}

/// A word of an engine's user dictionary.
#[derive(Debug, Clone)]
pub struct UserDictWord {
    pub surface: String,
    pub pronunciation: String,
    pub accent_type: u32,
}

} // verus!
