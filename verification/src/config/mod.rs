//! The application's settings: their model, defaults, migration between the per-engine
//! ("generalized") settings and the older flat fields, and their sanitizing on load.
use crate::json::{JsonData, JsonNumber, JsonValue};
use crate::json::{data_entries, empty_object, insert_entry, lookup, object_get, object_insert};
use crate::text::{
    ascii_lower, concat_str, eq_ignore_ascii_case, eq_ignore_ascii_case_str, is_blank, is_blank_str,
    is_white_space, lemma_trim_idempotent, split_once, split_once_str, starts_with_ignore_ascii_case,
    starts_with_ignore_ascii_case_str, trim, trim_start, trim_str,
};
use vstd::prelude::*;

pub mod codec;
pub mod migrate;
pub mod launch;
pub mod stable;

verus! {

broadcast use vstd::std_specs::vec::group_vec_axioms;

/// The engine kinds the application knows.
#[derive(Debug, Clone, Copy, PartialEq, Eq, Structural)]
pub enum TtsEngineType {
    Voicevox,
    Voiceger,
    Generic,
}

impl Default for TtsEngineType {
    fn default() -> (r: Self)
        ensures
            r == TtsEngineType::Voicevox,
    {
        TtsEngineType::Voicevox
    }
}

pub const ENGINE_ID_VOICEVOX: &'static str = "voicevox";

pub const ENGINE_ID_VOICEGER: &'static str = "voiceger";

pub const ENGINE_ID_GENERIC: &'static str = "generic";

/// The engine id of each engine kind.
pub open spec fn engine_id_of(t: TtsEngineType) -> Seq<char> {
    match t {
        TtsEngineType::Voicevox => "voicevox"@,
        TtsEngineType::Voiceger => "voiceger"@,
        TtsEngineType::Generic => "generic"@,
    }
}

/// The engine kind an engine id names: ids are compared without surrounding white space
/// and without regard to ASCII case, and `generic:<name>` names a generic engine.
pub open spec fn parse_engine_id(s: Seq<char>) -> Option<TtsEngineType> {
    let t = trim(s);
    if eq_ignore_ascii_case(t, "voicevox"@) {
        Some(TtsEngineType::Voicevox)
    } else if eq_ignore_ascii_case(t, "voiceger"@) {
        Some(TtsEngineType::Voiceger)
    } else if eq_ignore_ascii_case(t, "generic"@) || starts_with_ignore_ascii_case(t, "generic:"@) {
        Some(TtsEngineType::Generic)
    } else {
        None
    }
}

impl TtsEngineType {
    pub fn as_engine_id(&self) -> (r: &'static str)
        ensures
            r@ == engine_id_of(*self),
    {
        match self {
            TtsEngineType::Voicevox => ENGINE_ID_VOICEVOX,
            TtsEngineType::Voiceger => ENGINE_ID_VOICEGER,
            TtsEngineType::Generic => ENGINE_ID_GENERIC,
        }
    }

    pub fn from_engine_id(engine_id: &str) -> (r: Option<Self>)
        ensures
            r == parse_engine_id(engine_id@),
    {
        let engine_id = trim_str(engine_id);
        if eq_ignore_ascii_case_str(engine_id, ENGINE_ID_VOICEVOX) {
            Some(TtsEngineType::Voicevox)
        } else if eq_ignore_ascii_case_str(engine_id, ENGINE_ID_VOICEGER) {
            Some(TtsEngineType::Voiceger)
        } else if eq_ignore_ascii_case_str(engine_id, ENGINE_ID_GENERIC)
            || starts_with_ignore_ascii_case_str(engine_id, "generic:") {
            Some(TtsEngineType::Generic)
        } else {
            None
        }
    }
}

proof fn lemma_trim_plain(s: Seq<char>)
    requires
        forall|i: int| 0 <= i < s.len() ==> !is_white_space(#[trigger] s[i]),
    ensures
        trim(s) == s,
{
    if s.len() > 0 {
        assert(!is_white_space(s[0]));
        assert(!is_white_space(s.last()));
    }
    assert(trim_start(s) == s);
}

pub(crate) proof fn lemma_eq_ignore_ascii_case_refl(s: Seq<char>)
    ensures
        eq_ignore_ascii_case(s, s),
{
}

/// An engine id read back names the engine kind it was made from.
pub proof fn lemma_engine_id_round_trip(t: TtsEngineType)
    ensures
        parse_engine_id(engine_id_of(t)) == Some(t),
{
    reveal_strlit("voicevox");
    reveal_strlit("voiceger");
    reveal_strlit("generic");
    let s = engine_id_of(t);
    lemma_trim_plain(s);
    lemma_eq_ignore_ascii_case_refl(s);
    let vv = "voicevox"@;
    let vg = "voiceger"@;
    if t == TtsEngineType::Voiceger {
        assert(ascii_lower(vg[5]) != ascii_lower(vv[5]));
        assert(!eq_ignore_ascii_case(s, vv));
    }
}

/// One VOICEVOX-compatible engine.
#[derive(Debug, Clone)]
pub struct GenericEngineConfig {
    pub name: String,
    pub url: String,
}

/// The content of a `GenericEngineConfig`.
pub struct GenericEngineView {
    pub name: Seq<char>,
    pub url: Seq<char>,
}

impl View for GenericEngineConfig {
    type V = GenericEngineView;

    open spec fn view(&self) -> GenericEngineView {
        GenericEngineView { name: self.name@, url: self.url@ }
    }
}

/// Voice parameters. The four scales are numbers as written in the settings
/// (floating-point in use); `engine_params` holds engine-specific settings.
#[derive(Debug)]
pub struct SynthParamsConfig {
    pub speed_scale: JsonNumber,
    pub pitch_scale: JsonNumber,
    pub intonation_scale: JsonNumber,
    pub volume_scale: JsonNumber,
    pub engine_params: JsonValue,
}

/// The content of a `SynthParamsConfig`.
pub struct SynthParamsView {
    pub speed_scale: JsonNumber,
    pub pitch_scale: JsonNumber,
    pub intonation_scale: JsonNumber,
    pub volume_scale: JsonNumber,
    pub engine_params: JsonData,
}

impl View for SynthParamsConfig {
    type V = SynthParamsView;

    open spec fn view(&self) -> SynthParamsView {
        SynthParamsView {
            speed_scale: self.speed_scale,
            pitch_scale: self.pitch_scale,
            intonation_scale: self.intonation_scale,
            volume_scale: self.volume_scale,
            engine_params: self.engine_params.data(),
        }
    }
}

/// `1.0` as a floating-point number.
pub open spec fn one_point_zero() -> JsonNumber {
    JsonNumber::Float(0x3FF0_0000_0000_0000)
}

/// `0.0` as a floating-point number.
pub open spec fn zero_point_zero() -> JsonNumber {
    JsonNumber::Float(0)
}

/// The default voice parameters: speed, intonation and volume 1.0, pitch 0.0, no engine
/// parameters.
pub open spec fn default_synth_params() -> SynthParamsView {
    SynthParamsView {
        speed_scale: one_point_zero(),
        pitch_scale: zero_point_zero(),
        intonation_scale: one_point_zero(),
        volume_scale: one_point_zero(),
        engine_params: empty_object(),
    }
}

/// `engine_params` made an object: kept when it is one, else replaced by an empty object.
pub open spec fn params_made_object(p: SynthParamsView) -> SynthParamsView {
    if p.engine_params is Object {
        p
    } else {
        SynthParamsView { engine_params: empty_object(), ..p }
    }
}

/// The entries of an object, or none for any other value.
pub open spec fn object_entries(d: JsonData) -> Seq<(Seq<char>, JsonData)> {
    match d {
        JsonData::Object(e) => e,
        _ => Seq::empty(),
    }
}

impl Default for SynthParamsConfig {
    fn default() -> (r: Self)
        ensures
            r@ == default_synth_params(),
    {
        SynthParamsConfig {
            speed_scale: JsonNumber::Float(0x3FF0_0000_0000_0000),
            pitch_scale: JsonNumber::Float(0),
            intonation_scale: JsonNumber::Float(0x3FF0_0000_0000_0000),
            volume_scale: JsonNumber::Float(0x3FF0_0000_0000_0000),
            engine_params: JsonValue::new_object(),
        }
    }
}

impl SynthParamsConfig {
    /// Makes `engine_params` an object, replacing any other value by an empty object.
    pub fn ensure_engine_params_object(&mut self)
        ensures
            final(self)@ == params_made_object(old(self)@),
    {
        if !self.engine_params.is_object() {
            self.engine_params = JsonValue::new_object();
        }
    }

    /// A copy with the same content.
    pub fn duplicate(&self) -> (r: Self)
        ensures
            r@ == self@,
    {
        SynthParamsConfig {
            speed_scale: self.speed_scale,
            pitch_scale: self.pitch_scale,
            intonation_scale: self.intonation_scale,
            volume_scale: self.volume_scale,
            engine_params: self.engine_params.deep_clone(),
        }
    }
}

/// A named voice: speaker, voice parameters and the engine it belongs to.
#[derive(Debug)]
pub struct SpeakerPreset {
    pub name: String,
    pub speaker_id: u32,
    pub synth_params: SynthParamsConfig,
    pub engine: TtsEngineType,
    pub engine_id: String,
    /// Voiceger emotion name (e.g. "甘え"). Empty = normal (use the global reference audio).
    pub voiceger_emotion: String,
    /// Voiceger only: optional per-preset reference wav path; takes precedence over
    /// emotion and global reference audio.
    pub voiceger_ref_audio_override: String,
    /// Generic engines: the engine this preset belongs to; empty = shown for all of them.
    pub generic_engine_name: String,
}

/// The content of a `SpeakerPreset`.
pub struct PresetView {
    pub name: Seq<char>,
    pub speaker_id: u32,
    pub synth_params: SynthParamsView,
    pub engine: TtsEngineType,
    pub engine_id: Seq<char>,
    pub voiceger_emotion: Seq<char>,
    pub voiceger_ref_audio_override: Seq<char>,
    pub generic_engine_name: Seq<char>,
}

impl View for SpeakerPreset {
    type V = PresetView;

    open spec fn view(&self) -> PresetView {
        PresetView {
            name: self.name@,
            speaker_id: self.speaker_id,
            synth_params: self.synth_params@,
            engine: self.engine,
            engine_id: self.engine_id@,
            voiceger_emotion: self.voiceger_emotion@,
            voiceger_ref_audio_override: self.voiceger_ref_audio_override@,
            generic_engine_name: self.generic_engine_name@,
        }
    }
}

/// The engine id implied by the older per-preset fields: the engine kind's id, or
/// `generic:<name>` for a generic engine with a (trimmed, non-empty) engine name.
pub open spec fn inferred_engine_id(engine: TtsEngineType, generic_engine_name: Seq<char>) -> Seq<char> {
    match engine {
        TtsEngineType::Generic => if is_blank(generic_engine_name) {
            "generic"@
        } else {
            "generic:"@ + trim(generic_engine_name)
        },
        _ => engine_id_of(engine),
    }
}

/// A preset with `engine_id` and the older `engine` / `generic_engine_name` fields made
/// to agree: a blank id is derived from the older fields; a recognized id sets the
/// engine kind, is normalized to the kind's id (a bare `generic` included), and for a
/// generic engine supplies a missing engine name from `generic:<name>`; an unrecognized
/// id leaves the preset unchanged.
pub open spec fn synced_engine_fields(p: PresetView) -> PresetView {
    let cur = trim(p.engine_id);
    if cur.len() == 0 {
        PresetView { engine_id: inferred_engine_id(p.engine, p.generic_engine_name), ..p }
    } else {
        match parse_engine_id(cur) {
            None => p,
            Some(e) => if e == TtsEngineType::Generic {
                let name = if is_blank(p.generic_engine_name) {
                    match split_once(cur, ':') {
                        Some((prefix, rest)) => if eq_ignore_ascii_case(prefix, "generic"@)
                            && !is_blank(rest) {
                            trim(rest)
                        } else {
                            p.generic_engine_name
                        },
                        None => p.generic_engine_name,
                    }
                } else {
                    p.generic_engine_name
                };
                let id = if eq_ignore_ascii_case(cur, "generic"@) {
                    "generic"@
                } else {
                    p.engine_id
                };
                PresetView { engine: e, generic_engine_name: name, engine_id: id, ..p }
            } else {
                PresetView { engine: e, engine_id: engine_id_of(e), ..p }
            },
        }
    }
}

/// The engine-parameter key of the Voiceger emotion.
pub open spec fn key_emotion() -> Seq<char> {
    "voiceger_emotion"@
}

/// The engine-parameter key of the Voiceger reference-audio override.
pub open spec fn key_ref_audio_override() -> Seq<char> {
    "voiceger_ref_audio_override"@
}

/// One Voiceger field kept in step with its engine parameter: a blank field is filled
/// from a string parameter; a non-blank field is written to the parameter.
pub open spec fn synced_param(
    field: Seq<char>,
    params: Seq<(Seq<char>, JsonData)>,
    key: Seq<char>,
) -> (Seq<char>, Seq<(Seq<char>, JsonData)>) {
    if is_blank(field) {
        match lookup(params, key) {
            Some(JsonData::Str(s)) => (s, params),
            _ => (field, params),
        }
    } else {
        (field, insert_entry(params, key, JsonData::Str(field)))
    }
}

/// A preset with the Voiceger emotion and reference-audio override kept in step with
/// the same-named engine parameters (see `synced_param`); `engine_params` is made an
/// object first.
pub open spec fn synced_preset_params(p: PresetView) -> PresetView {
    let sp = params_made_object(p.synth_params);
    let e0 = object_entries(sp.engine_params);
    let (emotion, e1) = synced_param(p.voiceger_emotion, e0, key_emotion());
    let (ref_audio, e2) = synced_param(p.voiceger_ref_audio_override, e1, key_ref_audio_override());
    PresetView {
        voiceger_emotion: emotion,
        voiceger_ref_audio_override: ref_audio,
        synth_params: SynthParamsView { engine_params: JsonData::Object(e2), ..sp },
        ..p
    }
}

impl SpeakerPreset {
    /// The engine id implied by the older `engine` and `generic_engine_name` fields.
    pub fn inferred_engine_id_from_legacy(&self) -> (r: String)
        ensures
            r@ == inferred_engine_id(self.engine, self.generic_engine_name@),
    {
        match self.engine {
            TtsEngineType::Voicevox => ENGINE_ID_VOICEVOX.to_owned(),
            TtsEngineType::Voiceger => ENGINE_ID_VOICEGER.to_owned(),
            TtsEngineType::Generic => {
                let name = trim_str(self.generic_engine_name.as_str());
                if name.is_empty() {
                    ENGINE_ID_GENERIC.to_owned()
                } else {
                    concat_str("generic:", name)
                }
            },
        }
    }

    /// Makes `engine_id` and the older engine fields agree (see `synced_engine_fields`).
    pub fn sync_engine_compat_fields(&mut self)
        ensures
            final(self)@ == synced_engine_fields(old(self)@),
    {
        let current = trim_str(self.engine_id.as_str()).to_owned();
        if current.as_str().is_empty() {
            self.engine_id = self.inferred_engine_id_from_legacy();
            return;
        }
        if let Some(engine) = TtsEngineType::from_engine_id(current.as_str()) {
            proof {
                lemma_trim_idempotent(old(self).engine_id@);
            }
            self.engine = engine;
            if engine == TtsEngineType::Generic {
                if is_blank_str(self.generic_engine_name.as_str()) {
                    if let Some((prefix, name)) = split_once_str(current.as_str(), ':') {
                        if eq_ignore_ascii_case_str(prefix, ENGINE_ID_GENERIC) && !is_blank_str(
                            name,
                        ) {
                            self.generic_engine_name = trim_str(name).to_owned();
                        }
                    }
                }
                if eq_ignore_ascii_case_str(current.as_str(), ENGINE_ID_GENERIC) {
                    self.engine_id = ENGINE_ID_GENERIC.to_owned();
                }
            } else {
                self.engine_id = engine.as_engine_id().to_owned();
            }
        }
    }
}


/// One Voiceger field kept in step with its engine parameter (see `synced_param`).
fn sync_param_field(field: &mut String, params: &mut Vec<(String, JsonValue)>, key: &str)
    ensures
        (final(field)@, data_entries(final(params)@)) == synced_param(
            old(field)@,
            data_entries(old(params)@),
            key@,
        ),
{
    if is_blank_str(field.as_str()) {
        let found = match object_get(params, key) {
            Some(v) => match v.as_str() {
                Some(s) => Some(s.clone()),
                None => None,
            },
            None => None,
        };
        if let Some(s) = found {
            *field = s;
        }
    } else {
        object_insert(params, key.to_owned(), JsonValue::String(field.clone()));
    }
}

impl SpeakerPreset {
    /// Keeps the Voiceger emotion and reference-audio override in step with the
    /// same-named engine parameters (see `synced_preset_params`).
    pub fn sync_legacy_preset_engine_params(&mut self)
        ensures
            final(self)@ == synced_preset_params(old(self)@),
    {
        self.synth_params.ensure_engine_params_object();
        match &mut self.synth_params.engine_params {
            JsonValue::Object(params) => {
                sync_param_field(&mut self.voiceger_emotion, params, "voiceger_emotion");
                sync_param_field(
                    &mut self.voiceger_ref_audio_override,
                    params,
                    "voiceger_ref_audio_override",
                );
            },
            _ => {},
        }
    }

    /// A copy with the same content.
    pub fn duplicate(&self) -> (r: Self)
        ensures
            r@ == self@,
    {
        SpeakerPreset {
            name: self.name.clone(),
            speaker_id: self.speaker_id,
            synth_params: self.synth_params.duplicate(),
            engine: self.engine,
            engine_id: self.engine_id.clone(),
            voiceger_emotion: self.voiceger_emotion.clone(),
            voiceger_ref_audio_override: self.voiceger_ref_audio_override.clone(),
            generic_engine_name: self.generic_engine_name.clone(),
        }
    }
}

/// The application settings. Numbers that are floating-point in use are kept as written
/// (`JsonNumber`); `theme` holds the theme table as written.
#[derive(Debug)]
pub struct AppConfig {
    pub voicevox_url: String,
    pub voicevox_path: String,
    pub auto_launch_voicevox: bool,
    pub auto_launch_voiceger: bool,
    pub auto_start_app: bool,
    pub synth_params: SynthParamsConfig,
    pub speaker_id: u32,
    pub virtual_device_name: String,
    pub monitor_audio: bool,
    pub templates: Vec<String>,
    pub osc_enabled: bool,
    pub osc_address: String,
    pub osc_port: u16,
    pub soundboard_path: String,
    pub mic_source_name: Option<String>,
    pub echo_enabled: bool,
    pub echo_delay_ms: u32,
    pub echo_decay: JsonNumber,
    pub target_lufs: JsonNumber,
    pub loudness_tolerance: JsonNumber,
    pub soundboard_gains: Vec<(String, JsonNumber)>,
    pub noise_suppression: bool,
    pub silent_words: Vec<String>,
    pub theme: JsonValue,
    pub presets: Vec<SpeakerPreset>,
    pub templates_default_expanded: bool,
    pub window_width: JsonNumber,
    pub window_height: JsonNumber,
    pub active_engine: TtsEngineType,
    pub active_engine_id: String,
    pub engine_configs: Vec<(String, JsonValue)>,
    pub voiceger_url: String,
    pub voiceger_path: String,
    pub voiceger_ref_audio: String,
    pub voiceger_prompt_text: String,
    pub voiceger_prompt_lang: String,
    pub voiceger_ref_free: bool,
    /// Per-language text replacements applied before Voiceger synthesis:
    /// language code → (surface → reading).
    pub voiceger_dict: Vec<(String, Vec<(String, String)>)>,
    /// The VOICEVOX-compatible engines.
    pub generic_engines: Vec<GenericEngineConfig>,
    /// The active generic engine's position in `generic_engines`.
    pub active_generic_engine_idx: usize,
    /// Generic engines' default speaker (when no preset is chosen).
    pub generic_speaker_id: u32,
    /// Generic engines' voice parameters (when no preset is chosen).
    pub generic_synth_params: SynthParamsConfig,
    /// Older single generic engine URL, read for migration only.
    pub generic_url_legacy: String,
    /// Older single generic engine name, read for migration only.
    pub generic_engine_name_legacy: String,
}

/// A language's replacement table, by content.
pub type DictView = Seq<(Seq<char>, Seq<(Seq<char>, Seq<char>)>)>;

/// The content of an `AppConfig`.
pub struct AppConfigView {
    pub voicevox_url: Seq<char>,
    pub voicevox_path: Seq<char>,
    pub auto_launch_voicevox: bool,
    pub auto_launch_voiceger: bool,
    pub auto_start_app: bool,
    pub synth_params: SynthParamsView,
    pub speaker_id: u32,
    pub virtual_device_name: Seq<char>,
    pub monitor_audio: bool,
    pub templates: Seq<Seq<char>>,
    pub osc_enabled: bool,
    pub osc_address: Seq<char>,
    pub osc_port: u16,
    pub soundboard_path: Seq<char>,
    pub mic_source_name: Option<Seq<char>>,
    pub echo_enabled: bool,
    pub echo_delay_ms: u32,
    pub echo_decay: JsonNumber,
    pub target_lufs: JsonNumber,
    pub loudness_tolerance: JsonNumber,
    pub soundboard_gains: Seq<(Seq<char>, JsonNumber)>,
    pub noise_suppression: bool,
    pub silent_words: Seq<Seq<char>>,
    pub theme: JsonData,
    pub presets: Seq<PresetView>,
    pub templates_default_expanded: bool,
    pub window_width: JsonNumber,
    pub window_height: JsonNumber,
    pub active_engine: TtsEngineType,
    pub active_engine_id: Seq<char>,
    pub engine_configs: Seq<(Seq<char>, JsonData)>,
    pub voiceger_url: Seq<char>,
    pub voiceger_path: Seq<char>,
    pub voiceger_ref_audio: Seq<char>,
    pub voiceger_prompt_text: Seq<char>,
    pub voiceger_prompt_lang: Seq<char>,
    pub voiceger_ref_free: bool,
    pub voiceger_dict: DictView,
    pub generic_engines: Seq<GenericEngineView>,
    pub active_generic_engine_idx: usize,
    pub generic_speaker_id: u32,
    pub generic_synth_params: SynthParamsView,
    pub generic_url_legacy: Seq<char>,
    pub generic_engine_name_legacy: Seq<char>,
}

/// The content of a list of strings.
pub open spec fn strings_view(v: Seq<String>) -> Seq<Seq<char>> {
    v.map_values(|s: String| s@)
}

/// The content of a list of presets.
pub open spec fn presets_view(v: Seq<SpeakerPreset>) -> Seq<PresetView> {
    v.map_values(|p: SpeakerPreset| p@)
}

/// The content of a list of generic engines.
pub open spec fn engines_view(v: Seq<GenericEngineConfig>) -> Seq<GenericEngineView> {
    v.map_values(|g: GenericEngineConfig| g@)
}

/// The content of a string-to-string table.
pub open spec fn pairs_view(v: Seq<(String, String)>) -> Seq<(Seq<char>, Seq<char>)> {
    v.map_values(|p: (String, String)| (p.0@, p.1@))
}

/// The content of the Voiceger replacement tables.
pub open spec fn dict_view(v: Seq<(String, Vec<(String, String)>)>) -> DictView {
    v.map_values(|e: (String, Vec<(String, String)>)| (e.0@, pairs_view(e.1@)))
}

/// The content of the sound-board gains.
pub open spec fn gains_view(v: Seq<(String, JsonNumber)>) -> Seq<(Seq<char>, JsonNumber)> {
    v.map_values(|e: (String, JsonNumber)| (e.0@, e.1))
}

impl View for AppConfig {
    type V = AppConfigView;

    open spec fn view(&self) -> AppConfigView {
        AppConfigView {
            voicevox_url: self.voicevox_url@,
            voicevox_path: self.voicevox_path@,
            auto_launch_voicevox: self.auto_launch_voicevox,
            auto_launch_voiceger: self.auto_launch_voiceger,
            auto_start_app: self.auto_start_app,
            synth_params: self.synth_params@,
            speaker_id: self.speaker_id,
            virtual_device_name: self.virtual_device_name@,
            monitor_audio: self.monitor_audio,
            templates: strings_view(self.templates@),
            osc_enabled: self.osc_enabled,
            osc_address: self.osc_address@,
            osc_port: self.osc_port,
            soundboard_path: self.soundboard_path@,
            mic_source_name: crate::validation::opt_view(self.mic_source_name),
            echo_enabled: self.echo_enabled,
            echo_delay_ms: self.echo_delay_ms,
            echo_decay: self.echo_decay,
            target_lufs: self.target_lufs,
            loudness_tolerance: self.loudness_tolerance,
            soundboard_gains: gains_view(self.soundboard_gains@),
            noise_suppression: self.noise_suppression,
            silent_words: strings_view(self.silent_words@),
            theme: self.theme.data(),
            presets: presets_view(self.presets@),
            templates_default_expanded: self.templates_default_expanded,
            window_width: self.window_width,
            window_height: self.window_height,
            active_engine: self.active_engine,
            active_engine_id: self.active_engine_id@,
            engine_configs: data_entries(self.engine_configs@),
            voiceger_url: self.voiceger_url@,
            voiceger_path: self.voiceger_path@,
            voiceger_ref_audio: self.voiceger_ref_audio@,
            voiceger_prompt_text: self.voiceger_prompt_text@,
            voiceger_prompt_lang: self.voiceger_prompt_lang@,
            voiceger_ref_free: self.voiceger_ref_free,
            voiceger_dict: dict_view(self.voiceger_dict@),
            generic_engines: engines_view(self.generic_engines@),
            active_generic_engine_idx: self.active_generic_engine_idx,
            generic_speaker_id: self.generic_speaker_id,
            generic_synth_params: self.generic_synth_params@,
            generic_url_legacy: self.generic_url_legacy@,
            generic_engine_name_legacy: self.generic_engine_name_legacy@,
        }
    }
}

/// The default generic engine name.
pub open spec fn default_generic_engine_name() -> Seq<char> {
    "その他"@
}

/// The default generic engine URL.
pub open spec fn default_generic_url() -> Seq<char> {
    "http://localhost:10101"@
}

/// The default list of generic engines: one engine with the default name and URL.
pub open spec fn default_generic_engines() -> Seq<GenericEngineView> {
    seq![GenericEngineView { name: default_generic_engine_name(), url: default_generic_url() }]
}

/// A preset with default voice parameters for an engine kind.
pub open spec fn default_preset(name: Seq<char>, speaker_id: u32, engine: TtsEngineType) -> PresetView {
    PresetView {
        name,
        speaker_id,
        synth_params: default_synth_params(),
        engine,
        engine_id: engine_id_of(engine),
        voiceger_emotion: Seq::empty(),
        voiceger_ref_audio_override: Seq::empty(),
        generic_engine_name: Seq::empty(),
    }
}

/// The presets a new configuration starts with: three VOICEVOX voices and one Voiceger
/// voice per language.
pub open spec fn default_presets_view() -> Seq<PresetView> {
    seq![
        default_preset("デフォルト：ずんだもん"@, 3, TtsEngineType::Voicevox),
        default_preset("デフォルト：めたん"@, 2, TtsEngineType::Voicevox),
        default_preset("デフォルト：つむぎ"@, 8, TtsEngineType::Voicevox),
        default_preset("Voiceger：日本語"@, 0, TtsEngineType::Voiceger),
        default_preset("Voiceger：English"@, 1, TtsEngineType::Voiceger),
        default_preset("Voiceger：中文"@, 2, TtsEngineType::Voiceger),
        default_preset("Voiceger：한국어"@, 3, TtsEngineType::Voiceger),
        default_preset("Voiceger：粤語"@, 4, TtsEngineType::Voiceger),
    ]
}

fn new_default_preset(name: &str, speaker_id: u32, engine: TtsEngineType) -> (p: SpeakerPreset)
    ensures
        p@ == default_preset(name@, speaker_id, engine),
{
    SpeakerPreset {
        name: name.to_owned(),
        speaker_id,
        synth_params: SynthParamsConfig::default(),
        engine,
        engine_id: engine.as_engine_id().to_owned(),
        voiceger_emotion: String::new(),
        voiceger_ref_audio_override: String::new(),
        generic_engine_name: String::new(),
    }
}

/// The default generic engines.
pub fn default_generic_engines_vec() -> (r: Vec<GenericEngineConfig>)
    ensures
        engines_view(r@) == default_generic_engines(),
{
    let mut r: Vec<GenericEngineConfig> = Vec::new();
    r.push(GenericEngineConfig { name: "その他".to_owned(), url: "http://localhost:10101".to_owned() });
    proof {
        assert(engines_view(r@) =~= default_generic_engines());
    }
    r
}

impl AppConfig {
    /// The presets a new configuration starts with.
    pub fn default_presets() -> (r: Vec<SpeakerPreset>)
        ensures
            presets_view(r@) == default_presets_view(),
    {
        let mut r: Vec<SpeakerPreset> = Vec::new();
        r.push(new_default_preset("デフォルト：ずんだもん", 3, TtsEngineType::Voicevox));
        r.push(new_default_preset("デフォルト：めたん", 2, TtsEngineType::Voicevox));
        r.push(new_default_preset("デフォルト：つむぎ", 8, TtsEngineType::Voicevox));
        r.push(new_default_preset("Voiceger：日本語", 0, TtsEngineType::Voiceger));
        r.push(new_default_preset("Voiceger：English", 1, TtsEngineType::Voiceger));
        r.push(new_default_preset("Voiceger：中文", 2, TtsEngineType::Voiceger));
        r.push(new_default_preset("Voiceger：한국어", 3, TtsEngineType::Voiceger));
        r.push(new_default_preset("Voiceger：粤語", 4, TtsEngineType::Voiceger));
        proof {
            assert(presets_view(r@) =~= default_presets_view());
        }
        r
    }
}

/// The sound folder when the per-user configuration folder is `config_dir`: its
/// `sounds` subfolder, or `sounds` when there is no configuration folder.
pub open spec fn default_soundboard_path(config_dir: Option<Seq<char>>) -> Seq<char> {
    match config_dir {
        Some(d) => crate::text::join_path(d, "sounds"@),
        None => "sounds"@,
    }
}

/// The default settings, with the given sound folder.
pub open spec fn default_config(soundboard_path: Seq<char>) -> AppConfigView {
    AppConfigView {
        voicevox_url: "http://127.0.0.1:50021"@,
        voicevox_path: Seq::empty(),
        auto_launch_voicevox: true,
        auto_launch_voiceger: false,
        auto_start_app: false,
        synth_params: default_synth_params(),
        speaker_id: 3,
        virtual_device_name: "ZundamonVRC"@,
        monitor_audio: true,
        templates: seq!["こんにちは！"@, "ありがとう！"@, "おつかれさまなのだ！"@, "了解なのだ！"@],
        osc_enabled: false,
        osc_address: "127.0.0.1"@,
        osc_port: 9000,
        soundboard_path,
        mic_source_name: None,
        echo_enabled: false,
        echo_delay_ms: 200,
        echo_decay: JsonNumber::Float(0x3FD9_9999_9999_999A),
        target_lufs: JsonNumber::Float(0xC02C_0000_0000_0000),
        loudness_tolerance: JsonNumber::Float(0x4008_0000_0000_0000),
        soundboard_gains: Seq::empty(),
        noise_suppression: false,
        silent_words: Seq::empty(),
        theme: empty_object(),
        presets: default_presets_view(),
        templates_default_expanded: false,
        window_width: JsonNumber::Float(0x4081_8000_0000_0000),
        window_height: JsonNumber::Float(0x4085_E000_0000_0000),
        active_engine: TtsEngineType::Voicevox,
        active_engine_id: "voicevox"@,
        engine_configs: Seq::empty(),
        voiceger_url: "http://localhost:9880"@,
        voiceger_path: Seq::empty(),
        voiceger_ref_audio: Seq::empty(),
        voiceger_prompt_text: Seq::empty(),
        voiceger_prompt_lang: "ja"@,
        voiceger_ref_free: false,
        voiceger_dict: Seq::empty(),
        generic_engines: default_generic_engines(),
        active_generic_engine_idx: 0,
        generic_speaker_id: 0,
        generic_synth_params: default_synth_params(),
        generic_url_legacy: Seq::empty(),
        generic_engine_name_legacy: Seq::empty(),
    }
}

/// Calls `directories::ProjectDirs::from("", "", "zundux_tts")` and reads the per-user
/// configuration folder (`config_dir()`) as text. It depends on the user's environment;
/// nothing is stated of it.
#[verifier::external_body]
fn project_config_dir() -> Option<String> {
    directories::ProjectDirs::from("", "", "zundux_tts").map(
        |d| d.config_dir().to_string_lossy().to_string(),
    )
}

/// The sound folder for a per-user configuration folder (see `default_soundboard_path`).
pub fn soundboard_path_for(config_dir: Option<&str>) -> (r: String)
    ensures
        r@ == default_soundboard_path(
            match config_dir {
                Some(d) => Some(d@),
                None => None,
            },
        ),
{
    match config_dir {
        Some(d) => crate::text::join_path_str(d, "sounds"),
        None => "sounds".to_owned(),
    }
}

impl AppConfig {
    /// The default settings with the given sound folder.
    pub fn default_with_soundboard_path(soundboard_path: String) -> (r: Self)
        ensures
            r@ == default_config(soundboard_path@),
    {
        let mut templates: Vec<String> = Vec::new();
        templates.push("こんにちは！".to_owned());
        templates.push("ありがとう！".to_owned());
        templates.push("おつかれさまなのだ！".to_owned());
        templates.push("了解なのだ！".to_owned());
        let r = AppConfig {
            voicevox_url: "http://127.0.0.1:50021".to_owned(),
            voicevox_path: String::new(),
            auto_launch_voicevox: true,
            auto_launch_voiceger: false,
            auto_start_app: false,
            synth_params: SynthParamsConfig::default(),
            speaker_id: 3,
            virtual_device_name: "ZundamonVRC".to_owned(),
            monitor_audio: true,
            templates,
            osc_enabled: false,
            osc_address: "127.0.0.1".to_owned(),
            osc_port: 9000,
            soundboard_path,
            mic_source_name: None,
            echo_enabled: false,
            echo_delay_ms: 200,
            echo_decay: JsonNumber::Float(0x3FD9_9999_9999_999A),
            target_lufs: JsonNumber::Float(0xC02C_0000_0000_0000),
            loudness_tolerance: JsonNumber::Float(0x4008_0000_0000_0000),
            soundboard_gains: Vec::new(),
            noise_suppression: false,
            silent_words: Vec::new(),
            theme: JsonValue::new_object(),
            presets: AppConfig::default_presets(),
            templates_default_expanded: false,
            window_width: JsonNumber::Float(0x4081_8000_0000_0000),
            window_height: JsonNumber::Float(0x4085_E000_0000_0000),
            active_engine: TtsEngineType::Voicevox,
            active_engine_id: ENGINE_ID_VOICEVOX.to_owned(),
            engine_configs: Vec::new(),
            voiceger_url: "http://localhost:9880".to_owned(),
            voiceger_path: String::new(),
            voiceger_ref_audio: String::new(),
            voiceger_prompt_text: String::new(),
            voiceger_prompt_lang: "ja".to_owned(),
            voiceger_ref_free: false,
            voiceger_dict: Vec::new(),
            generic_engines: default_generic_engines_vec(),
            active_generic_engine_idx: 0,
            generic_speaker_id: 0,
            generic_synth_params: SynthParamsConfig::default(),
            generic_url_legacy: String::new(),
            generic_engine_name_legacy: String::new(),
        };
        proof {
            assert(r@.templates =~= default_config(soundboard_path@).templates);
            assert(r@.soundboard_gains =~= Seq::<(Seq<char>, JsonNumber)>::empty());
            assert(r@.silent_words =~= Seq::<Seq<char>>::empty());
            assert(r@.engine_configs =~= Seq::<(Seq<char>, JsonData)>::empty());
            assert(r@.voiceger_dict =~= Seq::<(Seq<char>, Seq<(Seq<char>, Seq<char>)>)>::empty());
        }
        r
    }
}

impl Default for AppConfig {
    /// The default settings; the sound folder is the `sounds` folder of the per-user
    /// configuration folder that the `directories` crate reports.
    fn default() -> (r: Self)
        ensures
            r@ == default_config(r.soundboard_path@),
            exists|d: Option<Seq<char>>| r.soundboard_path@ == default_soundboard_path(d),
    {
        let dir = project_config_dir();
        let path = match &dir {
            Some(d) => soundboard_path_for(Some(d.as_str())),
            None => soundboard_path_for(None),
        };
        let ghost d = match &dir {
            Some(x) => Some(x@),
            None => None::<Seq<char>>,
        };
        assert(path@ == default_soundboard_path(d));
        AppConfig::default_with_soundboard_path(path)
    }
}

/// After `synced_engine_fields`, a recognized engine id names the preset's engine kind.
pub proof fn lemma_synced_engine_fields_consistent(p: PresetView)
    ensures
        ({
            let r = synced_engine_fields(p);
            parse_engine_id(r.engine_id) matches Some(e) ==> r.engine == e
        }),
{
    let cur = trim(p.engine_id);
    let r = synced_engine_fields(p);
    lemma_trim_idempotent(p.engine_id);
    if cur.len() == 0 {
        if p.engine == TtsEngineType::Generic && !is_blank(p.generic_engine_name) {
            crate::text::lemma_trim_idempotent(p.generic_engine_name);
            lemma_generic_prefixed_id(trim(p.generic_engine_name));
        } else {
            lemma_engine_id_round_trip(p.engine);
        }
    } else {
        match parse_engine_id(cur) {
            None => {},
            Some(e) => {
                if e != TtsEngineType::Generic {
                    lemma_engine_id_round_trip(e);
                } else if eq_ignore_ascii_case(cur, "generic"@) {
                    lemma_engine_id_round_trip(e);
                }
            },
        }
    }
}

/// `generic:<name>`, for a trimmed non-empty name, names a generic engine.
pub(crate) proof fn lemma_generic_prefixed_id(t: Seq<char>)
    requires
        t.len() > 0,
        trim(t) == t,
    ensures
        parse_engine_id("generic:"@ + t) == Some(TtsEngineType::Generic),
{
    reveal_strlit("generic:");
    reveal_strlit("voicevox");
    reveal_strlit("voiceger");
    reveal_strlit("generic");
    let s = "generic:"@ + t;
    crate::text::lemma_trim_ends(t);
    assert(s[0] == 'g');
    assert(s.last() == t.last());
    crate::text::lemma_trim_unpadded(s);
    assert(s.take(8) =~= "generic:"@);
    lemma_eq_ignore_ascii_case_refl("generic:"@);
}


/// Syncing a preset whose engine id is `generic:<name>` and which names no generic
/// engine makes it belong to that engine: its generic engine name becomes the trimmed
/// `<name>`, its engine kind becomes generic, and its engine id is kept. A preset that
/// already names a generic engine keeps that name.
pub proof fn lemma_generic_preset_names_its_engine(p: PresetView, n: Seq<char>)
    requires
        trim(p.engine_id) == "generic:"@ + n,
        !is_blank(n),
    ensures
        synced_engine_fields(p).engine == TtsEngineType::Generic,
        synced_engine_fields(p).engine_id == p.engine_id,
        is_blank(p.generic_engine_name) ==> synced_engine_fields(p).generic_engine_name == trim(n),
        !is_blank(p.generic_engine_name) ==> synced_engine_fields(p).generic_engine_name
            == p.generic_engine_name,
{
    reveal_strlit("generic:");
    reveal_strlit("generic");
    reveal_strlit("voicevox");
    reveal_strlit("voiceger");
    let cur = trim(p.engine_id);
    assert(n.len() > 0);
    assert(cur.len() > 8);
    crate::text::lemma_trim_idempotent(p.engine_id);
    assert(trim(cur) == cur);
    assert(cur.take(8) =~= "generic:"@);
    lemma_eq_ignore_ascii_case_refl("generic:"@);
    assert(starts_with_ignore_ascii_case(cur, "generic:"@));
    assert(parse_engine_id(cur) == Some(TtsEngineType::Generic));
    assert forall|j: int| 0 <= j < 7 implies #[trigger] cur[j] != ':' by {
        assert(cur[j] == "generic:"@[j]);
    }
    assert(cur[7] == ':');
    crate::text::lemma_char_index_at(cur, ':', 7);
    assert(cur.take(7) =~= "generic"@);
    assert(cur.skip(8) =~= n);
    lemma_eq_ignore_ascii_case_refl("generic"@);
    assert(split_once(cur, ':') == Some(("generic"@, n)));
    assert(!eq_ignore_ascii_case(cur, "generic"@));
}

/// The name shown for the generic engines when none is active.
pub open spec fn fallback_generic_name() -> Seq<char> {
    "その他"@
}

impl AppConfig {
    /// The active generic engine: the entry of `generic_engines` at
    /// `active_generic_engine_idx`, if there is one.
    pub fn active_generic_config(&self) -> (r: Option<&GenericEngineConfig>)
        ensures
            self.active_generic_engine_idx < self.generic_engines@.len() ==> r == Some(
                &self.generic_engines@[self.active_generic_engine_idx as int],
            ),
            self.active_generic_engine_idx >= self.generic_engines@.len() ==> r is None,
    {
        if self.active_generic_engine_idx < self.generic_engines.len() {
            Some(&self.generic_engines[self.active_generic_engine_idx])
        } else {
            None
        }
    }

    /// The active generic engine's name, or `その他` when none is active.
    pub fn active_generic_name(&self) -> (r: &str)
        ensures
            r@ == (if self.active_generic_engine_idx < self.generic_engines@.len() {
                self.generic_engines@[self.active_generic_engine_idx as int].name@
            } else {
                fallback_generic_name()
            }),
    {
        match self.active_generic_config() {
            Some(e) => e.name.as_str(),
            None => "その他",
        }
    }
}

} // verus!
