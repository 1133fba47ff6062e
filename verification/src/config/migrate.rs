//! Keeping the per-engine ("generalized") settings in `engine_configs` and the older
//! flat fields in step, and sanitizing settings read from disk.
use super::codec::{
    decode_dict, decode_generic_engines, decode_synth_params, dict_from_json, dict_to_json,
    encode_dict, encode_generic_engines, encode_synth_params, generic_engines_from_json,
    generic_engines_to_json, lemma_dict_round_trip, lemma_generic_engines_round_trip,
    lemma_synth_params_round_trip, scales_are_doubles, synth_params_from_json,
    synth_params_to_json,
};
use super::{
    default_generic_engine_name, default_generic_url, default_presets_view, engine_id_of,
    engines_view, lemma_engine_id_round_trip, lemma_synced_engine_fields_consistent,
    params_made_object, parse_engine_id, presets_view, strings_view, synced_engine_fields,
    synced_preset_params, AppConfig, AppConfigView, GenericEngineConfig, GenericEngineView,
    PresetView, TtsEngineType,
};
use crate::json::{
    data_as_u64, data_entries, field, insert_entry, lemma_data_entries,
    lemma_lookup_insert, lookup, object_get, object_insert, JsonData, JsonNumber, JsonValue,
};
use crate::text::{
    byte_len, byte_len_str, lemma_byte_len_at_least_chars, str_len, lemma_trim_idempotent, take_chars, trim,
    trim_str,
};
use crate::validation::{
    default_device_name, default_device_name_str, default_voicevox_url, default_voicevox_url_str,
    is_local_host, is_valid_device_name, is_valid_voicevox_url, url_scheme_and_host,
    valid_device_name,
};
use vstd::prelude::*;

verus! {

broadcast use vstd::std_specs::vec::group_vec_axioms;

/// Settings with `active_engine_id` and `active_engine` made to agree: a blank id is
/// derived from the engine kind; a recognized id sets the engine kind and, for a
/// non-generic kind, is normalized to the kind's id; an unrecognized id changes nothing.
pub open spec fn synced_active_engine(c: AppConfigView) -> AppConfigView {
    let id = trim(c.active_engine_id);
    if id.len() == 0 {
        AppConfigView { active_engine_id: engine_id_of(c.active_engine), ..c }
    } else {
        match parse_engine_id(id) {
            None => c,
            Some(e) => if e != TtsEngineType::Generic {
                AppConfigView { active_engine: e, active_engine_id: engine_id_of(e), ..c }
            } else {
                AppConfigView { active_engine: e, ..c }
            },
        }
    }
}

/// The entries of the settings object stored under engine id `id`, when there is one.
pub open spec fn engine_section(configs: Seq<(Seq<char>, JsonData)>, id: Seq<char>) -> Option<
    Seq<(Seq<char>, JsonData)>,
> {
    match lookup(configs, id) {
        Some(JsonData::Object(e)) => Some(e),
        _ => None,
    }
}

/// A string setting: the stored string, or `old` when absent or not a string.
pub open spec fn str_or(e: Seq<(Seq<char>, JsonData)>, key: Seq<char>, old: Seq<char>) -> Seq<char> {
    match lookup(e, key) {
        Some(JsonData::Str(s)) => s,
        _ => old,
    }
}

/// A boolean setting: the stored boolean, or `old` when absent or not a boolean.
pub open spec fn bool_or(e: Seq<(Seq<char>, JsonData)>, key: Seq<char>, old: bool) -> bool {
    match lookup(e, key) {
        Some(JsonData::Bool(b)) => b,
        _ => old,
    }
}

/// Settings with the flat VOICEVOX fields taken from `engine_configs["voicevox"]`.
pub open spec fn applied_voicevox(c: AppConfigView) -> AppConfigView {
    match engine_section(c.engine_configs, "voicevox"@) {
        Some(v) => AppConfigView {
            voicevox_url: str_or(v, "url"@, c.voicevox_url),
            voicevox_path: str_or(v, "path"@, c.voicevox_path),
            auto_launch_voicevox: bool_or(v, "auto_launch"@, c.auto_launch_voicevox),
            ..c
        },
        None => c,
    }
}

/// Settings with the flat Voiceger fields taken from `engine_configs["voiceger"]`.
pub open spec fn applied_voiceger(c: AppConfigView) -> AppConfigView {
    match engine_section(c.engine_configs, "voiceger"@) {
        Some(v) => AppConfigView {
            voiceger_url: str_or(v, "url"@, c.voiceger_url),
            voiceger_path: str_or(v, "path"@, c.voiceger_path),
            auto_launch_voiceger: bool_or(v, "auto_launch"@, c.auto_launch_voiceger),
            voiceger_ref_audio: str_or(v, "ref_audio"@, c.voiceger_ref_audio),
            voiceger_prompt_text: str_or(v, "prompt_text"@, c.voiceger_prompt_text),
            voiceger_prompt_lang: str_or(v, "prompt_lang"@, c.voiceger_prompt_lang),
            voiceger_ref_free: bool_or(v, "ref_free"@, c.voiceger_ref_free),
            voiceger_dict: match lookup(v, "dict"@) {
                Some(d) => match decode_dict(d) {
                    Some(x) => x,
                    None => c.voiceger_dict,
                },
                None => c.voiceger_dict,
            },
            ..c
        },
        None => c,
    }
}

/// Settings with the flat generic-engine fields taken from `engine_configs["generic"]`.
pub open spec fn applied_generic(c: AppConfigView) -> AppConfigView {
    match engine_section(c.engine_configs, "generic"@) {
        Some(v) => AppConfigView {
            generic_engines: match lookup(v, "engines"@) {
                Some(d) => match decode_generic_engines(d) {
                    Some(x) => x,
                    None => c.generic_engines,
                },
                None => c.generic_engines,
            },
            active_generic_engine_idx: match lookup(v, "active_engine_idx"@) {
                Some(d) => match data_as_u64(d) {
                    Some(u) => u as usize,
                    None => c.active_generic_engine_idx,
                },
                None => c.active_generic_engine_idx,
            },
            generic_speaker_id: match lookup(v, "speaker_id"@) {
                Some(d) => match data_as_u64(d) {
                    Some(u) => u as u32,
                    None => c.generic_speaker_id,
                },
                None => c.generic_speaker_id,
            },
            generic_synth_params: match lookup(v, "synth_params"@) {
                Some(d) => match decode_synth_params(d) {
                    Some(x) => x,
                    None => c.generic_synth_params,
                },
                None => c.generic_synth_params,
            },
            ..c
        },
        None => c,
    }
}

/// Taking the flat fields from the per-engine settings takes each string or boolean
/// stored there into its field: VOICEVOX's `url`, `path` and `auto_launch`, and
/// Voiceger's `url`, `path`, `auto_launch`, `ref_audio`, `prompt_text`, `prompt_lang`
/// and `ref_free`; the generic engines' `speaker_id` and `active_engine_idx` when they
/// are whole numbers in range. A field whose engine entry is missing keeps its value.
pub proof fn lemma_applied_takes_stored_values(c: AppConfigView)
    ensures
        ({
            let r = applied_engine_configs(c);
            &&& engine_section(c.engine_configs, "voicevox"@) matches Some(e) ==> {
                &&& lookup(e, "url"@) matches Some(JsonData::Str(s)) ==> r.voicevox_url == s
                &&& lookup(e, "path"@) matches Some(JsonData::Str(s)) ==> r.voicevox_path == s
                &&& lookup(e, "auto_launch"@) matches Some(JsonData::Bool(b))
                    ==> r.auto_launch_voicevox == b
            }
            &&& engine_section(c.engine_configs, "voiceger"@) matches Some(e) ==> {
                &&& lookup(e, "url"@) matches Some(JsonData::Str(s)) ==> r.voiceger_url == s
                &&& lookup(e, "path"@) matches Some(JsonData::Str(s)) ==> r.voiceger_path == s
                &&& lookup(e, "auto_launch"@) matches Some(JsonData::Bool(b))
                    ==> r.auto_launch_voiceger == b
                &&& lookup(e, "ref_audio"@) matches Some(JsonData::Str(s))
                    ==> r.voiceger_ref_audio == s
                &&& lookup(e, "prompt_text"@) matches Some(JsonData::Str(s))
                    ==> r.voiceger_prompt_text == s
                &&& lookup(e, "prompt_lang"@) matches Some(JsonData::Str(s))
                    ==> r.voiceger_prompt_lang == s
                &&& lookup(e, "ref_free"@) matches Some(JsonData::Bool(b)) ==> r.voiceger_ref_free == b
            }
            &&& engine_section(c.engine_configs, "generic"@) matches Some(e) ==> {
                &&& lookup(e, "speaker_id"@) matches Some(JsonData::Number(JsonNumber::PosInt(u)))
                    ==> (u <= u32::MAX ==> r.generic_speaker_id == u)
                &&& lookup(e, "active_engine_idx"@) matches Some(
                    JsonData::Number(JsonNumber::PosInt(u)),
                ) ==> (u <= usize::MAX ==> r.active_generic_engine_idx == u)
            }
            &&& engine_section(c.engine_configs, "voicevox"@) is None ==> r.voicevox_url
                == c.voicevox_url && r.voicevox_path == c.voicevox_path && r.auto_launch_voicevox
                == c.auto_launch_voicevox
            &&& engine_section(c.engine_configs, "voiceger"@) is None ==> r.voiceger_url
                == c.voiceger_url && r.voiceger_path == c.voiceger_path
        }),
{
}

/// Voice scales read from the per-engine settings are doubles, so taking the flat fields
/// from there keeps the generic voice scales doubles.
pub(crate) proof fn lemma_applied_keeps_doubles(c: AppConfigView)
    requires
        scales_are_doubles(c.generic_synth_params),
    ensures
        scales_are_doubles(applied_engine_configs(c).generic_synth_params),
{
    let c2 = applied_voiceger(applied_voicevox(c));
    assert(c2.generic_synth_params == c.generic_synth_params);
    if let Some(v) = engine_section(c2.engine_configs, "generic"@) {
        if let Some(d) = lookup(v, "synth_params"@) {
            lemma_decoded_scales_doubles(d);
        }
    }
}

/// Voice parameters read from JSON have their scales as doubles.
proof fn lemma_decoded_scales_doubles(d: JsonData)
    ensures
        decode_synth_params(d) matches Some(p) ==> scales_are_doubles(p),
{
}

/// Settings with the flat fields taken from the per-engine settings: each value stored
/// in `engine_configs` with the right type replaces its flat field; absent or ill-typed
/// values leave the field as it was.
pub open spec fn applied_engine_configs(c: AppConfigView) -> AppConfigView {
    applied_generic(applied_voiceger(applied_voicevox(c)))
}

/// `e` with each of `updates` inserted in order.
pub open spec fn insert_all(e: Seq<(Seq<char>, JsonData)>, updates: Seq<(Seq<char>, JsonData)>) -> Seq<
    (Seq<char>, JsonData),
>
    decreases updates.len(),
{
    if updates.len() == 0 {
        e
    } else {
        insert_entry(insert_all(e, updates.drop_last()), updates.last().0, updates.last().1)
    }
}

/// `configs` with `updates` written into the settings object of engine `id`: the
/// object's other entries are kept, and a missing or non-object entry starts empty.
pub open spec fn merged_engine_config(
    configs: Seq<(Seq<char>, JsonData)>,
    id: Seq<char>,
    updates: Seq<(Seq<char>, JsonData)>,
) -> Seq<(Seq<char>, JsonData)> {
    let base = match engine_section(configs, id) {
        Some(e) => e,
        None => Seq::empty(),
    };
    insert_entry(configs, id, JsonData::Object(insert_all(base, updates)))
}

/// The VOICEVOX settings written to `engine_configs`.
pub open spec fn voicevox_updates(c: AppConfigView) -> Seq<(Seq<char>, JsonData)> {
    seq![
        ("url"@, JsonData::Str(c.voicevox_url)),
        ("path"@, JsonData::Str(c.voicevox_path)),
        ("auto_launch"@, JsonData::Bool(c.auto_launch_voicevox)),
    ]
}

/// The Voiceger settings written to `engine_configs`.
pub open spec fn voiceger_updates(c: AppConfigView) -> Seq<(Seq<char>, JsonData)> {
    seq![
        ("url"@, JsonData::Str(c.voiceger_url)),
        ("path"@, JsonData::Str(c.voiceger_path)),
        ("auto_launch"@, JsonData::Bool(c.auto_launch_voiceger)),
        ("ref_audio"@, JsonData::Str(c.voiceger_ref_audio)),
        ("prompt_text"@, JsonData::Str(c.voiceger_prompt_text)),
        ("prompt_lang"@, JsonData::Str(c.voiceger_prompt_lang)),
        ("ref_free"@, JsonData::Bool(c.voiceger_ref_free)),
        ("dict"@, encode_dict(c.voiceger_dict)),
    ]
}

/// The generic-engine settings written to `engine_configs`.
pub open spec fn generic_updates(c: AppConfigView) -> Seq<(Seq<char>, JsonData)> {
    seq![
        ("engines"@, encode_generic_engines(c.generic_engines)),
        ("active_engine_idx"@, JsonData::Number(JsonNumber::PosInt(c.active_generic_engine_idx as u64))),
        ("speaker_id"@, JsonData::Number(JsonNumber::PosInt(c.generic_speaker_id as u64))),
        ("synth_params"@, encode_synth_params(c.generic_synth_params)),
    ]
}

/// Settings with the flat fields written into the per-engine settings.
pub open spec fn synced_engine_configs(c: AppConfigView) -> AppConfigView {
    let e1 = merged_engine_config(c.engine_configs, "voicevox"@, voicevox_updates(c));
    let e2 = merged_engine_config(e1, "voiceger"@, voiceger_updates(c));
    let e3 = merged_engine_config(e2, "generic"@, generic_updates(c));
    AppConfigView { engine_configs: e3, ..c }
}

/// The value of a string entry of an object, as an owned string.
fn get_string(e: &Vec<(String, JsonValue)>, key: &str) -> (r: Option<String>)
    ensures
        match r {
            Some(s) => lookup(data_entries(e@), key@) == Some(JsonData::Str(s@)),
            None => !(lookup(data_entries(e@), key@) matches Some(JsonData::Str(_))),
        },
{
    match object_get(e, key) {
        Some(JsonValue::String(s)) => Some(s.clone()),
        _ => None,
    }
}

/// The value of a boolean entry of an object.
fn get_bool(e: &Vec<(String, JsonValue)>, key: &str) -> (r: Option<bool>)
    ensures
        match r {
            Some(b) => lookup(data_entries(e@), key@) == Some(JsonData::Bool(b)),
            None => !(lookup(data_entries(e@), key@) matches Some(JsonData::Bool(_))),
        },
{
    match object_get(e, key) {
        Some(JsonValue::Bool(b)) => Some(*b),
        _ => None,
    }
}

/// The value of a non-negative integer entry of an object.
fn get_u64(e: &Vec<(String, JsonValue)>, key: &str) -> (r: Option<u64>)
    ensures
        r == (match lookup(data_entries(e@), key@) {
            Some(d) => data_as_u64(d),
            None => None,
        }),
{
    match object_get(e, key) {
        Some(v) => v.as_u64(),
        None => None,
    }
}

fn pick_string(new: Option<String>, old: &String) -> (r: String)
    ensures
        r@ == (match new {
            Some(s) => s@,
            None => old@,
        }),
{
    match new {
        Some(s) => s,
        None => old.clone(),
    }
}

fn pick_bool(new: Option<bool>, old: bool) -> (r: bool)
    ensures
        r == (match new {
            Some(b) => b,
            None => old,
        }),
{
    match new {
        Some(b) => b,
        None => old,
    }
}

fn pick_index(new: Option<u64>, old: usize) -> (r: usize)
    ensures
        r == (match new {
            Some(u) => u as usize,
            None => old,
        }),
{
    match new {
        Some(u) => u as usize,
        None => old,
    }
}

fn pick_speaker(new: Option<u64>, old: u32) -> (r: u32)
    ensures
        r == (match new {
            Some(u) => u as u32,
            None => old,
        }),
{
    match new {
        Some(u) => u as u32,
        None => old,
    }
}

impl AppConfig {
    /// Makes `active_engine_id` and `active_engine` agree (see `synced_active_engine`).
    pub fn sync_active_engine_compat_fields(&mut self)
        ensures
            final(self)@ == synced_active_engine(old(self)@),
    {
        let active = trim_str(self.active_engine_id.as_str()).to_owned();
        if active.as_str().is_empty() {
            self.active_engine_id = self.active_engine.as_engine_id().to_owned();
            return;
        }
        proof {
            lemma_trim_idempotent(old(self).active_engine_id@);
        }
        if let Some(engine) = TtsEngineType::from_engine_id(active.as_str()) {
            self.active_engine = engine;
            if engine != TtsEngineType::Generic {
                self.active_engine_id = engine.as_engine_id().to_owned();
            }
        }
    }

    fn apply_voicevox_section(&mut self)
        ensures
            final(self)@ == applied_voicevox(old(self)@),
    {
        let (url, path, auto_launch) = match object_get(&self.engine_configs, "voicevox") {
            Some(JsonValue::Object(v)) => (get_string(v, "url"), get_string(v, "path"), get_bool(v, "auto_launch")),
            _ => {
                return;
            },
        };
        if let Some(u) = url {
            self.voicevox_url = u;
        }
        if let Some(p) = path {
            self.voicevox_path = p;
        }
        if let Some(b) = auto_launch {
            self.auto_launch_voicevox = b;
        }
    }

    fn apply_voiceger_section(&mut self)
        ensures
            final(self)@ == applied_voiceger(old(self)@),
    {
        let (url, path, auto_launch, ref_audio, prompt_text, prompt_lang, ref_free, dict) =
            match object_get(&self.engine_configs, "voiceger") {
            Some(JsonValue::Object(v)) => (
                get_string(v, "url"),
                get_string(v, "path"),
                get_bool(v, "auto_launch"),
                get_string(v, "ref_audio"),
                get_string(v, "prompt_text"),
                get_string(v, "prompt_lang"),
                get_bool(v, "ref_free"),
                match object_get(v, "dict") {
                    Some(d) => dict_from_json(d),
                    None => None,
                },
            ),
            _ => {
                return;
            },
        };
        self.voiceger_url = pick_string(url, &self.voiceger_url);
        self.voiceger_path = pick_string(path, &self.voiceger_path);
        self.auto_launch_voiceger = pick_bool(auto_launch, self.auto_launch_voiceger);
        self.voiceger_ref_audio = pick_string(ref_audio, &self.voiceger_ref_audio);
        self.voiceger_prompt_text = pick_string(prompt_text, &self.voiceger_prompt_text);
        self.voiceger_prompt_lang = pick_string(prompt_lang, &self.voiceger_prompt_lang);
        self.voiceger_ref_free = pick_bool(ref_free, self.voiceger_ref_free);
        if let Some(d) = dict {
            self.voiceger_dict = d;
        }
    }

    fn apply_generic_section(&mut self)
        ensures
            final(self)@ == applied_generic(old(self)@),
    {
        let (engines, idx, speaker_id, synth_params) = match object_get(&self.engine_configs, "generic") {
            Some(JsonValue::Object(v)) => (
                match object_get(v, "engines") {
                    Some(d) => generic_engines_from_json(d),
                    None => None,
                },
                get_u64(v, "active_engine_idx"),
                get_u64(v, "speaker_id"),
                match object_get(v, "synth_params") {
                    Some(d) => synth_params_from_json(d),
                    None => None,
                },
            ),
            _ => {
                return;
            },
        };
        self.active_generic_engine_idx = pick_index(idx, self.active_generic_engine_idx);
        self.generic_speaker_id = pick_speaker(speaker_id, self.generic_speaker_id);
        if let Some(e) = engines {
            self.generic_engines = e;
        }
        if let Some(p) = synth_params {
            self.generic_synth_params = p;
        }
    }

    /// Takes the flat fields from the per-engine settings (see `applied_engine_configs`).
    pub fn apply_engine_configs_to_legacy(&mut self)
        ensures
            final(self)@ == applied_engine_configs(old(self)@),
    {
        self.apply_voicevox_section();
        self.apply_voiceger_section();
        self.apply_generic_section();
    }
}

/// What inserting a list of entries does to a lookup: a key that none of them has keeps
/// its value, and a key that exactly one of them has gets that entry's value.
pub proof fn lemma_lookup_insert_all(
    e: Seq<(Seq<char>, JsonData)>,
    u: Seq<(Seq<char>, JsonData)>,
    k: Seq<char>,
)
    ensures
        (forall|j: int| 0 <= j < u.len() ==> (#[trigger] u[j]).0 != k) ==> lookup(insert_all(e, u), k)
            == lookup(e, k),
        forall|j: int|
            0 <= j < u.len() && (#[trigger] u[j]).0 == k && (forall|j2: int|
                0 <= j2 < u.len() && j2 != j ==> u[j2].0 != k) ==> lookup(insert_all(e, u), k)
                == Some(u[j].1),
    decreases u.len(),
{
    if u.len() > 0 {
        let init = u.drop_last();
        lemma_lookup_insert_all(e, init, k);
        lemma_lookup_insert(insert_all(e, init), u.last().0, u.last().1, k);
        assert forall|j: int|
            0 <= j < u.len() && (#[trigger] u[j]).0 == k && (forall|j2: int|
                0 <= j2 < u.len() && j2 != j ==> u[j2].0 != k) implies lookup(insert_all(e, u), k)
            == Some(u[j].1) by {
            if j < u.len() - 1 {
                assert(init[j] == u[j]);
                assert forall|j2: int| 0 <= j2 < init.len() && j2 != j implies init[j2].0 != k by {
                    assert(init[j2] == u[j2]);
                }
            }
        }
        if forall|j: int| 0 <= j < u.len() ==> (#[trigger] u[j]).0 != k {
            assert forall|j: int| 0 <= j < init.len() implies (#[trigger] init[j]).0 != k by {
                assert(init[j] == u[j]);
            }
            assert(u[u.len() - 1].0 != k);
        }
    }
}

/// A key that exactly one of the inserted entries has gets that entry's value.
pub proof fn lemma_lookup_insert_all_at(
    e: Seq<(Seq<char>, JsonData)>,
    u: Seq<(Seq<char>, JsonData)>,
    j: int,
)
    requires
        0 <= j < u.len(),
        forall|j2: int| 0 <= j2 < u.len() && j2 != j ==> (#[trigger] u[j2]).0 != u[j].0,
    ensures
        lookup(insert_all(e, u), u[j].0) == Some(u[j].1),
{
    lemma_lookup_insert_all(e, u, u[j].0);
}

/// Merging `updates` into the settings of engine `id` leaves every other engine's entry
/// as it was and makes `id`'s entry an object: its old object (or an empty one when it
/// was absent or not an object) with each update written over it, so a key that no
/// update names keeps its old value and a key that exactly one update names gets that
/// update's value.
pub proof fn lemma_merge_engine_config(
    configs: Seq<(Seq<char>, JsonData)>,
    id: Seq<char>,
    updates: Seq<(Seq<char>, JsonData)>,
    k: Seq<char>,
    key: Seq<char>,
)
    ensures
        k != id ==> lookup(merged_engine_config(configs, id, updates), k) == lookup(configs, k),
        ({
            let base = match engine_section(configs, id) {
                Some(e) => e,
                None => Seq::empty(),
            };
            let merged = insert_all(base, updates);
            &&& lookup(merged_engine_config(configs, id, updates), id) == Some(JsonData::Object(merged))
            &&& (forall|j: int| 0 <= j < updates.len() ==> (#[trigger] updates[j]).0 != key)
                ==> lookup(merged, key) == lookup(base, key)
            &&& forall|j: int|
                0 <= j < updates.len() && (#[trigger] updates[j]).0 == key && (forall|j2: int|
                    0 <= j2 < updates.len() && j2 != j ==> updates[j2].0 != key) ==> lookup(merged, key)
                    == Some(updates[j].1)
        }),
{
    let base = match engine_section(configs, id) {
        Some(e) => e,
        None => Seq::empty(),
    };
    crate::json::lemma_lookup_insert(configs, id, JsonData::Object(insert_all(base, updates)), k);
    crate::json::lemma_lookup_insert(configs, id, JsonData::Object(insert_all(base, updates)), id);
    lemma_lookup_insert_all(base, updates, key);
}

impl AppConfig {
    /// Writes `updates` into the settings object of engine `engine_id` (see
    /// `merged_engine_config`).
    pub fn merge_engine_config_object(&mut self, engine_id: &str, updates: Vec<(String, JsonValue)>)
        ensures
            final(self)@ == (AppConfigView {
                engine_configs: merged_engine_config(
                    old(self)@.engine_configs,
                    engine_id@,
                    data_entries(updates@),
                ),
                ..old(self)@
            }),
    {
        let ghost u = data_entries(updates@);
        let mut base: Vec<(String, JsonValue)> = match object_get(&self.engine_configs, engine_id) {
            Some(v) => match v.deep_clone() {
                JsonValue::Object(e) => e,
                _ => Vec::new(),
            },
            None => Vec::new(),
        };
        let ghost base0 = data_entries(base@);
        proof {
            lemma_data_entries(updates@);
            if data_entries(base@).len() == 0 {
                assert(data_entries(base@) =~= Seq::<(Seq<char>, JsonData)>::empty());
            }
            assert(base0 == (match engine_section(old(self)@.engine_configs, engine_id@) {
                Some(e) => e,
                None => Seq::<(Seq<char>, JsonData)>::empty(),
            }));
            assert(u.take(0) =~= Seq::<(Seq<char>, JsonData)>::empty());
        }
        let mut i: usize = 0;
        while i < updates.len()
            invariant
                u == data_entries(updates@),
                u.len() == updates@.len(),
                forall|k: int|
                    0 <= k < updates@.len() ==> #[trigger] u[k] == (updates@[k].0@, updates@[k].1.data()),
                i <= updates@.len(),
                data_entries(base@) == insert_all(base0, u.take(i as int)),
            decreases updates@.len() - i,
        {
            let key = updates[i].0.clone();
            let value = updates[i].1.deep_clone();
            object_insert(&mut base, key, value);
            proof {
                assert(u.take(i + 1).drop_last() =~= u.take(i as int));
            }
            i = i + 1;
        }
        proof {
            assert(u.take(i as int) =~= u);
        }
        object_insert(&mut self.engine_configs, engine_id.to_owned(), JsonValue::Object(base));
    }

    /// Writes the flat fields into the per-engine settings (see `synced_engine_configs`).
    pub fn sync_engine_configs_from_legacy(&mut self)
        ensures
            final(self)@ == synced_engine_configs(old(self)@),
    {
        let ghost c = self@;
        let mut voicevox: Vec<(String, JsonValue)> = Vec::new();
        voicevox.push(("url".to_owned(), JsonValue::String(self.voicevox_url.clone())));
        voicevox.push(("path".to_owned(), JsonValue::String(self.voicevox_path.clone())));
        voicevox.push(("auto_launch".to_owned(), JsonValue::Bool(self.auto_launch_voicevox)));
        proof {
            lemma_data_entries(voicevox@);
            assert(data_entries(voicevox@) =~= voicevox_updates(c));
        }
        self.merge_engine_config_object("voicevox", voicevox);

        let mut voiceger: Vec<(String, JsonValue)> = Vec::new();
        voiceger.push(("url".to_owned(), JsonValue::String(self.voiceger_url.clone())));
        voiceger.push(("path".to_owned(), JsonValue::String(self.voiceger_path.clone())));
        voiceger.push(("auto_launch".to_owned(), JsonValue::Bool(self.auto_launch_voiceger)));
        voiceger.push(("ref_audio".to_owned(), JsonValue::String(self.voiceger_ref_audio.clone())));
        voiceger.push(("prompt_text".to_owned(), JsonValue::String(self.voiceger_prompt_text.clone())));
        voiceger.push(("prompt_lang".to_owned(), JsonValue::String(self.voiceger_prompt_lang.clone())));
        voiceger.push(("ref_free".to_owned(), JsonValue::Bool(self.voiceger_ref_free)));
        voiceger.push(("dict".to_owned(), dict_to_json(&self.voiceger_dict)));
        proof {
            lemma_data_entries(voiceger@);
            assert(data_entries(voiceger@) =~= voiceger_updates(c));
        }
        self.merge_engine_config_object("voiceger", voiceger);

        let mut generic: Vec<(String, JsonValue)> = Vec::new();
        generic.push(("engines".to_owned(), generic_engines_to_json(&self.generic_engines)));
        generic.push(
            (
                "active_engine_idx".to_owned(),
                JsonValue::Number(JsonNumber::PosInt(self.active_generic_engine_idx as u64)),
            ),
        );
        generic.push(
            ("speaker_id".to_owned(), JsonValue::Number(JsonNumber::PosInt(self.generic_speaker_id as u64))),
        );
        generic.push(("synth_params".to_owned(), synth_params_to_json(&self.generic_synth_params)));
        proof {
            lemma_data_entries(generic@);
            assert(data_entries(generic@) =~= generic_updates(c));
        }
        self.merge_engine_config_object("generic", generic);
    }
}

/// The engine ids and setting keys written by `synced_engine_configs` are distinct.
pub(crate) proof fn lemma_keys_distinct()
    ensures
        "voicevox"@ != "voiceger"@,
        "voicevox"@ != "generic"@,
        "voiceger"@ != "generic"@,
        "url"@ != "path"@,
        "url"@ != "auto_launch"@,
        "path"@ != "auto_launch"@,
        "url"@ != "ref_audio"@,
        "url"@ != "prompt_text"@,
        "url"@ != "prompt_lang"@,
        "url"@ != "ref_free"@,
        "url"@ != "dict"@,
        "path"@ != "ref_audio"@,
        "path"@ != "prompt_text"@,
        "path"@ != "prompt_lang"@,
        "path"@ != "ref_free"@,
        "path"@ != "dict"@,
        "auto_launch"@ != "ref_audio"@,
        "auto_launch"@ != "prompt_text"@,
        "auto_launch"@ != "prompt_lang"@,
        "auto_launch"@ != "ref_free"@,
        "auto_launch"@ != "dict"@,
        "ref_audio"@ != "prompt_text"@,
        "ref_audio"@ != "prompt_lang"@,
        "ref_audio"@ != "ref_free"@,
        "ref_audio"@ != "dict"@,
        "prompt_text"@ != "prompt_lang"@,
        "prompt_text"@ != "ref_free"@,
        "prompt_text"@ != "dict"@,
        "prompt_lang"@ != "ref_free"@,
        "prompt_lang"@ != "dict"@,
        "ref_free"@ != "dict"@,
        "engines"@ != "active_engine_idx"@,
        "engines"@ != "speaker_id"@,
        "engines"@ != "synth_params"@,
        "active_engine_idx"@ != "speaker_id"@,
        "active_engine_idx"@ != "synth_params"@,
        "speaker_id"@ != "synth_params"@,
{
    reveal_strlit("voicevox");
    reveal_strlit("voiceger");
    reveal_strlit("generic");
    reveal_strlit("url");
    reveal_strlit("path");
    reveal_strlit("auto_launch");
    reveal_strlit("ref_audio");
    reveal_strlit("prompt_text");
    reveal_strlit("prompt_lang");
    reveal_strlit("ref_free");
    reveal_strlit("dict");
    reveal_strlit("engines");
    reveal_strlit("active_engine_idx");
    reveal_strlit("speaker_id");
    reveal_strlit("synth_params");
    assert("url"@.len() == 3);
    assert("path"@.len() == 4);
    assert("auto_launch"@.len() == 11);
    assert("ref_audio"@.len() == 9);
    assert("prompt_text"@.len() == 11);
    assert("prompt_lang"@.len() == 11);
    assert("ref_free"@.len() == 8);
    assert("dict"@.len() == 4);
    assert("engines"@.len() == 7);
    assert("active_engine_idx"@.len() == 17);
    assert("speaker_id"@.len() == 10);
    assert("synth_params"@.len() == 12);
    assert("voicevox"@.len() == 8);
    assert("voiceger"@.len() == 8);
    assert("generic"@.len() == 7);
    assert("voicevox"@[5] != "voiceger"@[5]);
    assert("path"@[0] != "dict"@[0]);
    assert("auto_launch"@[0] != "prompt_text"@[0]);
    assert("auto_launch"@[0] != "prompt_lang"@[0]);
    assert("prompt_text"@[7] != "prompt_lang"@[7]);
}

/// The three engine entries of `synced_engine_configs`, each holding its updates over
/// the entries the engine had before.
pub(crate) proof fn lemma_synced_sections(c: AppConfigView)
    ensures
        ({
            let s = synced_engine_configs(c).engine_configs;
            &&& engine_section(s, "voicevox"@) == Some(insert_all(section_base(c, "voicevox"@), voicevox_updates(c)))
            &&& engine_section(s, "voiceger"@) == Some(insert_all(section_base(c, "voiceger"@), voiceger_updates(c)))
            &&& engine_section(s, "generic"@) == Some(insert_all(section_base(c, "generic"@), generic_updates(c)))
            &&& forall|k: Seq<char>|
                k != "voicevox"@ && k != "voiceger"@ && k != "generic"@ ==> #[trigger] lookup(s, k)
                    == lookup(c.engine_configs, k)
        }),
{
    lemma_keys_distinct();
    let e0 = c.engine_configs;
    let e1 = merged_engine_config(e0, "voicevox"@, voicevox_updates(c));
    let e2 = merged_engine_config(e1, "voiceger"@, voiceger_updates(c));
    let base1 = match engine_section(e0, "voicevox"@) {
        Some(e) => e,
        None => Seq::<(Seq<char>, JsonData)>::empty(),
    };
    let base2 = match engine_section(e1, "voiceger"@) {
        Some(e) => e,
        None => Seq::<(Seq<char>, JsonData)>::empty(),
    };
    let base3 = match engine_section(e2, "generic"@) {
        Some(e) => e,
        None => Seq::<(Seq<char>, JsonData)>::empty(),
    };
    let o1 = JsonData::Object(insert_all(base1, voicevox_updates(c)));
    let o2 = JsonData::Object(insert_all(base2, voiceger_updates(c)));
    let o3 = JsonData::Object(insert_all(base3, generic_updates(c)));
    assert forall|k: Seq<char>| true implies #[trigger] lookup(e1, k) == (if k == "voicevox"@ {
        Some(o1)
    } else {
        lookup(e0, k)
    }) by {
        lemma_lookup_insert(e0, "voicevox"@, o1, k);
    }
    assert forall|k: Seq<char>| true implies #[trigger] lookup(e2, k) == (if k == "voiceger"@ {
        Some(o2)
    } else {
        lookup(e1, k)
    }) by {
        lemma_lookup_insert(e1, "voiceger"@, o2, k);
    }
    let e3 = merged_engine_config(e2, "generic"@, generic_updates(c));
    assert forall|k: Seq<char>| true implies #[trigger] lookup(e3, k) == (if k == "generic"@ {
        Some(o3)
    } else {
        lookup(e2, k)
    }) by {
        lemma_lookup_insert(e2, "generic"@, o3, k);
    }
    assert(lookup(e1, "voiceger"@) == lookup(e0, "voiceger"@));
    assert(lookup(e2, "generic"@) == lookup(e1, "generic"@));
    assert(lookup(e1, "generic"@) == lookup(e0, "generic"@));
    assert(lookup(e3, "voicevox"@) == lookup(e2, "voicevox"@));
    assert(lookup(e2, "voicevox"@) == lookup(e1, "voicevox"@));
    assert(lookup(e3, "voiceger"@) == lookup(e2, "voiceger"@));
}

/// The base entries each engine section of `synced_engine_configs` is built over.
pub open spec fn section_base(c: AppConfigView, id: Seq<char>) -> Seq<(Seq<char>, JsonData)> {
    match engine_section(c.engine_configs, id) {
        Some(e) => e,
        None => Seq::empty(),
    }
}

proof fn lemma_apply_voicevox_after_sync(c: AppConfigView)
    ensures
        applied_voicevox(synced_engine_configs(c)) == synced_engine_configs(c),
{
    lemma_keys_distinct();
    lemma_synced_sections(c);
    let s = synced_engine_configs(c);
    let uv = voicevox_updates(c);
    let vv = insert_all(section_base(c, "voicevox"@), uv);
    lemma_lookup_insert_all_at(section_base(c, "voicevox"@), uv, 0);
    lemma_lookup_insert_all_at(section_base(c, "voicevox"@), uv, 1);
    lemma_lookup_insert_all_at(section_base(c, "voicevox"@), uv, 2);
    assert(lookup(vv, "url"@) == Some(uv[0].1));
    assert(lookup(vv, "path"@) == Some(uv[1].1));
    assert(lookup(vv, "auto_launch"@) == Some(uv[2].1));
}

proof fn lemma_apply_voiceger_after_sync(c: AppConfigView)
    ensures
        applied_voiceger(synced_engine_configs(c)) == synced_engine_configs(c),
{
    lemma_keys_distinct();
    lemma_synced_sections(c);
    let ug = voiceger_updates(c);
    let b = section_base(c, "voiceger"@);
    let vg = insert_all(b, ug);
    lemma_lookup_insert_all_at(b, ug, 0);
    lemma_lookup_insert_all_at(b, ug, 1);
    lemma_lookup_insert_all_at(b, ug, 2);
    lemma_lookup_insert_all_at(b, ug, 3);
    lemma_lookup_insert_all_at(b, ug, 4);
    lemma_lookup_insert_all_at(b, ug, 5);
    lemma_lookup_insert_all_at(b, ug, 6);
    lemma_lookup_insert_all_at(b, ug, 7);
    assert(lookup(vg, "url"@) == Some(ug[0].1));
    assert(lookup(vg, "path"@) == Some(ug[1].1));
    assert(lookup(vg, "auto_launch"@) == Some(ug[2].1));
    assert(lookup(vg, "ref_audio"@) == Some(ug[3].1));
    assert(lookup(vg, "prompt_text"@) == Some(ug[4].1));
    assert(lookup(vg, "prompt_lang"@) == Some(ug[5].1));
    assert(lookup(vg, "ref_free"@) == Some(ug[6].1));
    assert(lookup(vg, "dict"@) == Some(ug[7].1));
    lemma_dict_round_trip(c.voiceger_dict);
}

proof fn lemma_apply_generic_after_sync(c: AppConfigView)
    requires
        scales_are_doubles(c.generic_synth_params),
    ensures
        applied_generic(synced_engine_configs(c)) == synced_engine_configs(c),
{
    lemma_keys_distinct();
    lemma_synced_sections(c);
    let un = generic_updates(c);
    let b = section_base(c, "generic"@);
    let g = insert_all(b, un);
    lemma_lookup_insert_all_at(b, un, 0);
    lemma_lookup_insert_all_at(b, un, 1);
    lemma_lookup_insert_all_at(b, un, 2);
    lemma_lookup_insert_all_at(b, un, 3);
    assert(lookup(g, "engines"@) == Some(un[0].1));
    assert(lookup(g, "active_engine_idx"@) == Some(un[1].1));
    assert(lookup(g, "speaker_id"@) == Some(un[2].1));
    assert(lookup(g, "synth_params"@) == Some(un[3].1));
    lemma_generic_engines_round_trip(c.generic_engines);
    lemma_synth_params_round_trip(c.generic_synth_params);
}

/// Settings written into the per-engine settings read back unchanged: taking the flat
/// fields from `engine_configs` right after writing them there changes nothing (for
/// voice scales that are doubles, as they always are when read from a file).
pub proof fn lemma_apply_after_sync(c: AppConfigView)
    requires
        scales_are_doubles(c.generic_synth_params),
    ensures
        applied_engine_configs(synced_engine_configs(c)) == synced_engine_configs(c),
{
    lemma_apply_voicevox_after_sync(c);
    lemma_apply_voiceger_after_sync(c);
    lemma_apply_generic_after_sync(c);
}

/// Writing the flat fields into the per-engine settings keeps everything else stored
/// there: the entries of other engines, and the other settings of the three engines.
pub proof fn lemma_sync_keeps_other_settings(c: AppConfigView, k: Seq<char>, key: Seq<char>)
    ensures
        k != "voicevox"@ && k != "voiceger"@ && k != "generic"@ ==> lookup(
            synced_engine_configs(c).engine_configs,
            k,
        ) == lookup(c.engine_configs, k),
        engine_section(c.engine_configs, "voicevox"@) is Some && key != "url"@ && key != "path"@
            && key != "auto_launch"@ ==> field(
            lookup(synced_engine_configs(c).engine_configs, "voicevox"@)->0,
            key,
        ) == field(lookup(c.engine_configs, "voicevox"@)->0, key),
        engine_section(c.engine_configs, "voiceger"@) is Some && key != "url"@ && key != "path"@
            && key != "auto_launch"@ && key != "ref_audio"@ && key != "prompt_text"@ && key
            != "prompt_lang"@ && key != "ref_free"@ && key != "dict"@ ==> field(
            lookup(synced_engine_configs(c).engine_configs, "voiceger"@)->0,
            key,
        ) == field(lookup(c.engine_configs, "voiceger"@)->0, key),
        engine_section(c.engine_configs, "generic"@) is Some && key != "engines"@ && key
            != "active_engine_idx"@ && key != "speaker_id"@ && key != "synth_params"@ ==> field(
            lookup(synced_engine_configs(c).engine_configs, "generic"@)->0,
            key,
        ) == field(lookup(c.engine_configs, "generic"@)->0, key),
{
    lemma_synced_sections(c);
    let uv = voicevox_updates(c);
    let ug = voiceger_updates(c);
    let un = generic_updates(c);
    lemma_lookup_insert_all(section_base(c, "voicevox"@), uv, key);
    lemma_lookup_insert_all(section_base(c, "voiceger"@), ug, key);
    lemma_lookup_insert_all(section_base(c, "generic"@), un, key);
    assert(lookup(synced_engine_configs(c).engine_configs, k) == lookup(c.engine_configs, k) || !(k
        != "voicevox"@ && k != "voiceger"@ && k != "generic"@));
}

/// Whether the URL check accepts a VOICEVOX URL: it parses, its scheme is `http` and
/// its host is the local machine.
pub open spec fn voicevox_url_accepted(s: Seq<char>) -> bool {
    match url_scheme_and_host(s) {
        Some((scheme, host)) => scheme == seq!['h', 't', 't', 'p'] && (host matches Some(h)
            && is_local_host(h)),
        None => false,
    }
}

/// Settings with an invalid device name and a refused VOICEVOX URL replaced by their
/// defaults.
pub open spec fn sanitized_names(c: AppConfigView) -> AppConfigView {
    AppConfigView {
        virtual_device_name: if valid_device_name(c.virtual_device_name) {
            c.virtual_device_name
        } else {
            default_device_name()
        },
        voicevox_url: if voicevox_url_accepted(c.voicevox_url) {
            c.voicevox_url
        } else {
            default_voicevox_url()
        },
        ..c
    }
}

/// A text cut to its first `n` characters when it is longer than `n` bytes.
pub open spec fn bounded_text(t: Seq<char>, n: nat) -> Seq<char> {
    if str_len(t) > n {
        t.take(if n < t.len() { n as int } else { t.len() as int })
    } else {
        t
    }
}

/// At most 100 templates, each cut to 512 characters when longer than 512 bytes.
pub open spec fn sanitized_templates(ts: Seq<Seq<char>>) -> Seq<Seq<char>> {
    ts.take(if ts.len() < 100 { ts.len() as int } else { 100 }).map_values(
        |t: Seq<char>| bounded_text(t, 512),
    )
}

/// Generic engines after migration: an empty list gets one engine made from the older
/// single-engine fields (which are then cleared) or from the defaults.
pub open spec fn migrated_generic(c: AppConfigView) -> AppConfigView {
    if c.generic_engines.len() == 0 {
        let (name, name_legacy) = if c.generic_engine_name_legacy.len() == 0 {
            (default_generic_engine_name(), c.generic_engine_name_legacy)
        } else {
            (c.generic_engine_name_legacy, Seq::<char>::empty())
        };
        let (url, url_legacy) = if c.generic_url_legacy.len() == 0 {
            (default_generic_url(), c.generic_url_legacy)
        } else {
            (c.generic_url_legacy, Seq::<char>::empty())
        };
        AppConfigView {
            generic_engines: seq![GenericEngineView { name, url }],
            generic_engine_name_legacy: name_legacy,
            generic_url_legacy: url_legacy,
            ..c
        }
    } else {
        c
    }
}

/// Generic engines cut to 20, with an active index past the end reset to 0.
pub open spec fn bounded_generic(c: AppConfigView) -> AppConfigView {
    let engines = c.generic_engines.take(
        if c.generic_engines.len() < 20 {
            c.generic_engines.len() as int
        } else {
            20
        },
    );
    AppConfigView {
        generic_engines: engines,
        active_generic_engine_idx: if c.active_generic_engine_idx >= engines.len() {
            0
        } else {
            c.active_generic_engine_idx
        },
        ..c
    }
}

/// One preset sanitized: name cut to 64 characters when longer than 64 bytes, engine
/// parameters made an object, engine fields and Voiceger parameters synced.
pub open spec fn sanitized_preset(p: PresetView) -> PresetView {
    synced_preset_params(
        synced_engine_fields(
            PresetView {
                name: bounded_text(p.name, 64),
                synth_params: params_made_object(p.synth_params),
                ..p
            },
        ),
    )
}

/// Presets after sanitizing: none become the default presets, at most 50 are kept, each
/// is sanitized; the global voice parameters get object engine parameters.
pub open spec fn sanitized_presets(c: AppConfigView) -> AppConfigView {
    let ps = if c.presets.len() == 0 {
        default_presets_view()
    } else {
        c.presets
    };
    let kept = ps.take(if ps.len() < 50 { ps.len() as int } else { 50 });
    AppConfigView {
        presets: kept.map_values(|p: PresetView| sanitized_preset(p)),
        synth_params: params_made_object(c.synth_params),
        generic_synth_params: params_made_object(c.generic_synth_params),
        ..c
    }
}

/// Settings as loaded: engine ids synced, flat fields taken from the per-engine
/// settings, names, URL, templates, generic engines and presets sanitized, engine ids
/// synced again, and the flat fields written back into the per-engine settings.
pub open spec fn sanitized(c: AppConfigView) -> AppConfigView {
    let c1 = applied_engine_configs(synced_active_engine(c));
    let c2 = sanitized_names(c1);
    let c3 = AppConfigView { templates: sanitized_templates(c2.templates), ..c2 };
    let c4 = bounded_generic(migrated_generic(c3));
    let c5 = sanitized_presets(c4);
    synced_engine_configs(synced_active_engine(c5))
}

/// The settings written to disk: engine parameters made objects, engine ids synced,
/// every preset's engine fields and Voiceger parameters synced, and the flat fields
/// written into the per-engine settings.
pub open spec fn prepared_for_save(c: AppConfigView) -> AppConfigView {
    let c1 = AppConfigView {
        synth_params: params_made_object(c.synth_params),
        generic_synth_params: params_made_object(c.generic_synth_params),
        ..c
    };
    let c2 = synced_active_engine(c1);
    let c3 = AppConfigView {
        presets: c2.presets.map_values(|p: PresetView| synced_preset_params(synced_engine_fields(p))),
        ..c2
    };
    synced_engine_configs(c3)
}

impl AppConfig {
    fn sanitize_names(&mut self)
        ensures
            final(self)@ == sanitized_names(old(self)@),
    {
        if !is_valid_device_name(self.virtual_device_name.as_str()) {
            self.virtual_device_name = default_device_name_str().to_owned();
        }
        if is_valid_voicevox_url(self.voicevox_url.as_str()).is_err() {
            self.voicevox_url = default_voicevox_url_str().to_owned();
        }
    }

    fn sanitize_templates(&mut self)
        ensures
            final(self)@ == (AppConfigView {
                templates: sanitized_templates(old(self)@.templates),
                ..old(self)@
            }),
    {
        let ghost c = self@;
        if self.templates.len() > 100 {
            self.templates.truncate(100);
        }
        let ghost t0 = self.templates@;
        let ghost pre = self@;
        proof {
            assert(strings_view(t0) =~= c.templates.take(
                if c.templates.len() < 100 { c.templates.len() as int } else { 100 },
            ));
        }
        let mut i: usize = 0;
        while i < self.templates.len()
            invariant
                self@ == (AppConfigView { templates: strings_view(self.templates@), ..pre }),
                pre.templates == strings_view(t0),
                self.templates@.len() == t0.len(),
                i <= t0.len(),
                forall|k: int| 0 <= k < i ==> (#[trigger] self.templates@[k])@ == bounded_text(t0[k]@, 512),
                forall|k: int| i <= k < t0.len() ==> #[trigger] self.templates@[k] == t0[k],
            decreases t0.len() - i,
        {
            if byte_len_str(self.templates[i].as_str()) > 512 {
                let t = take_chars(self.templates[i].as_str(), 512).to_owned();
                self.templates.set(i, t);
            }
            i = i + 1;
        }
        proof {
            assert(strings_view(self.templates@) =~= sanitized_templates(c.templates));
        }
    }

    fn migrate_generic_engines(&mut self)
        ensures
            final(self)@ == migrated_generic(old(self)@),
    {
        if self.generic_engines.len() == 0 {
            let name = if self.generic_engine_name_legacy.as_str().is_empty() {
                "その他".to_owned()
            } else {
                let n = self.generic_engine_name_legacy.clone();
                self.generic_engine_name_legacy = String::new();
                n
            };
            let url = if self.generic_url_legacy.as_str().is_empty() {
                "http://localhost:10101".to_owned()
            } else {
                let u = self.generic_url_legacy.clone();
                self.generic_url_legacy = String::new();
                u
            };
            self.generic_engines.push(GenericEngineConfig { name, url });
            proof {
                assert(engines_view(self.generic_engines@) =~= seq![self.generic_engines@[0]@]);
            }
        }
    }

    fn bound_generic_engines(&mut self)
        ensures
            final(self)@ == bounded_generic(old(self)@),
    {
        let ghost mid = self@;
        if self.generic_engines.len() > 20 {
            self.generic_engines.truncate(20);
        }
        proof {
            assert(engines_view(self.generic_engines@) =~= mid.generic_engines.take(
                if mid.generic_engines.len() < 20 { mid.generic_engines.len() as int } else { 20 },
            ));
        }
        if self.active_generic_engine_idx >= self.generic_engines.len() {
            self.active_generic_engine_idx = 0;
        }
    }

    #[verifier::spinoff_prover]
    #[verifier::rlimit(30)]
    fn sanitize_presets(&mut self)
        ensures
            final(self)@ == sanitized_presets(old(self)@),
    {
        let ghost c = self@;
        if self.presets.len() == 0 {
            self.presets = AppConfig::default_presets();
        }
        if self.presets.len() > 50 {
            self.presets.truncate(50);
        }
        self.synth_params.ensure_engine_params_object();
        self.generic_synth_params.ensure_engine_params_object();
        let ghost p0 = self.presets@;
        let ghost pre = self@;
        proof {
            let ps = if c.presets.len() == 0 {
                default_presets_view()
            } else {
                c.presets
            };
            assert(presets_view(p0) =~= ps.take(if ps.len() < 50 { ps.len() as int } else { 50 }));
        }
        let mut i: usize = 0;
        while i < self.presets.len()
            invariant
                self@ == (AppConfigView { presets: presets_view(self.presets@), ..pre }),
                pre.presets == presets_view(p0),
                self.presets@.len() == p0.len(),
                i <= p0.len(),
                forall|k: int| 0 <= k < i ==> (#[trigger] self.presets@[k])@ == sanitized_preset(p0[k]@),
                forall|k: int| i <= k < p0.len() ==> #[trigger] self.presets@[k] == p0[k],
            decreases p0.len() - i,
        {
            let mut p = self.presets[i].duplicate();
            if byte_len_str(p.name.as_str()) > 64 {
                p.name = take_chars(p.name.as_str(), 64).to_owned();
            }
            p.synth_params.ensure_engine_params_object();
            p.sync_engine_compat_fields();
            p.sync_legacy_preset_engine_params();
            self.presets.set(i, p);
            i = i + 1;
        }
        proof {
            let ps = presets_view(p0);
            assert(presets_view(self.presets@) =~= ps.map_values(|q: PresetView| sanitized_preset(q)));
        }
    }

    /// Sanitizes settings read from disk (see `sanitized`).
    pub fn validate_and_sanitize(&mut self)
        ensures
            final(self)@ == sanitized(old(self)@),
    {
        self.sync_active_engine_compat_fields();
        self.apply_engine_configs_to_legacy();
        self.sanitize_names();
        self.sanitize_templates();
        self.migrate_generic_engines();
        self.bound_generic_engines();
        self.sanitize_presets();
        self.sync_active_engine_compat_fields();
        self.sync_engine_configs_from_legacy();
    }

    /// Brings the settings into the form written to disk (see `prepared_for_save`).
    pub fn sync_generalized_fields_for_save(&mut self)
        ensures
            final(self)@ == prepared_for_save(old(self)@),
    {
        self.synth_params.ensure_engine_params_object();
        self.generic_synth_params.ensure_engine_params_object();
        self.sync_active_engine_compat_fields();
        let ghost p0 = self.presets@;
        let ghost pre = self@;
        let mut i: usize = 0;
        while i < self.presets.len()
            invariant
                self@ == (AppConfigView { presets: presets_view(self.presets@), ..pre }),
                pre.presets == presets_view(p0),
                self.presets@.len() == p0.len(),
                i <= p0.len(),
                forall|k: int|
                    0 <= k < i ==> (#[trigger] self.presets@[k])@ == synced_preset_params(
                        synced_engine_fields(p0[k]@),
                    ),
                forall|k: int| i <= k < p0.len() ==> #[trigger] self.presets@[k] == p0[k],
            decreases p0.len() - i,
        {
            let mut p = self.presets[i].duplicate();
            p.sync_engine_compat_fields();
            p.sync_legacy_preset_engine_params();
            self.presets.set(i, p);
            i = i + 1;
        }
        proof {
            let ps = presets_view(p0);
            assert(presets_view(self.presets@) =~= ps.map_values(
                |q: PresetView| synced_preset_params(synced_engine_fields(q)),
            ));
        }
        self.sync_engine_configs_from_legacy();
    }
}

/// After `synced_active_engine`, a recognized active engine id names the active engine kind.
pub proof fn lemma_synced_active_engine_consistent(c: AppConfigView)
    ensures
        ({
            let r = synced_active_engine(c);
            parse_engine_id(r.active_engine_id) matches Some(e) ==> r.active_engine == e
        }),
{
    lemma_trim_idempotent(c.active_engine_id);
    lemma_engine_id_round_trip(c.active_engine);
    match parse_engine_id(trim(c.active_engine_id)) {
        Some(e) => lemma_engine_id_round_trip(e),
        None => {},
    }
}

/// What loading guarantees of the settings it hands back. Given byte lengths that fit in
/// memory (as those of any string do) and generic voice scales that are doubles (as
/// they are whenever they were read from a file):
/// the device name is valid; the VOICEVOX URL is accepted or the default; there are at
/// most 100 templates of at most 512 characters; there are 1 to 20 generic engines and
/// the active index points at one of them; there are 1 to 50 presets, each named with at
/// most 64 characters, with object engine parameters and, when its engine id is
/// recognized, the engine kind that id names; the global engine parameters are objects;
/// a recognized active engine id names the active engine kind; and the flat fields read
/// back unchanged from the per-engine settings.
#[verifier::spinoff_prover]
#[verifier::rlimit(40)]
pub proof fn lemma_sanitized_guarantees(c: AppConfigView)
    requires
        forall|i: int| 0 <= i < c.templates.len() ==> byte_len(#[trigger] c.templates[i]) <= usize::MAX,
        forall|i: int| 0 <= i < c.presets.len() ==> byte_len((#[trigger] c.presets[i]).name) <= usize::MAX,
        scales_are_doubles(c.generic_synth_params),
    ensures
        ({
            let r = sanitized(c);
            &&& valid_device_name(r.virtual_device_name)
            &&& voicevox_url_accepted(r.voicevox_url) || r.voicevox_url == default_voicevox_url()
            &&& r.templates.len() <= 100
            &&& forall|i: int| 0 <= i < r.templates.len() ==> (#[trigger] r.templates[i]).len() <= 512
            &&& 1 <= r.generic_engines.len() <= 20
            &&& r.active_generic_engine_idx < r.generic_engines.len()
            &&& 1 <= r.presets.len() <= 50
            &&& forall|i: int|
                0 <= i < r.presets.len() ==> (#[trigger] r.presets[i]).name.len() <= 64
                    && r.presets[i].synth_params.engine_params is Object
                    && (parse_engine_id(r.presets[i].engine_id) matches Some(e) ==> r.presets[i].engine == e)
            &&& r.synth_params.engine_params is Object
            &&& r.generic_synth_params.engine_params is Object
            &&& (parse_engine_id(r.active_engine_id) matches Some(e) ==> r.active_engine == e)
            &&& applied_engine_configs(r) == r
        }),
{
    crate::validation::lemma_default_device_name_valid();
    let c1 = applied_engine_configs(synced_active_engine(c));
    let c2 = sanitized_names(c1);
    let c3 = AppConfigView { templates: sanitized_templates(c2.templates), ..c2 };
    let c4 = bounded_generic(migrated_generic(c3));
    let c5 = sanitized_presets(c4);
    let c6 = synced_active_engine(c5);
    let r = synced_engine_configs(c6);
    assert(c1.templates == c.templates);
    assert(c1.presets == c.presets);
    assert forall|i: int| 0 <= i < r.templates.len() implies (#[trigger] r.templates[i]).len() <= 512 by {
        let t = c.templates[i];
        lemma_byte_len_at_least_chars(t);
    }
    let ps = if c4.presets.len() == 0 {
        default_presets_view()
    } else {
        c4.presets
    };
    assert forall|i: int| 0 <= i < r.presets.len() implies (#[trigger] r.presets[i]).name.len() <= 64
        && r.presets[i].synth_params.engine_params is Object && (parse_engine_id(
        r.presets[i].engine_id,
    ) matches Some(e) ==> r.presets[i].engine == e) by {
        let p = ps[i];
        if c4.presets.len() == 0 {
            reveal_strlit("デフォルト：ずんだもん");
            reveal_strlit("デフォルト：めたん");
            reveal_strlit("デフォルト：つむぎ");
            reveal_strlit("Voiceger：日本語");
            reveal_strlit("Voiceger：English");
            reveal_strlit("Voiceger：中文");
            reveal_strlit("Voiceger：한국어");
            reveal_strlit("Voiceger：粤語");
            assert(p.name.len() <= 64);
        } else {
            lemma_byte_len_at_least_chars(p.name);
        }
        let q = PresetView {
            name: bounded_text(p.name, 64),
            synth_params: params_made_object(p.synth_params),
            ..p
        };
        lemma_synced_engine_fields_consistent(q);
    }
    lemma_synced_active_engine_consistent(c5);
    lemma_applied_keeps_doubles(synced_active_engine(c));
    assert(scales_are_doubles(c6.generic_synth_params));
    lemma_apply_after_sync(c6);
}

} // verus!
