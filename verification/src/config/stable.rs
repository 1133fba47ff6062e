//! Loaded settings are stable: sanitizing them again, or bringing them into the form
//! written to disk, changes nothing, so settings saved and read back come back as they
//! were; and loading keeps the per-engine data it does not own.
use super::migrate::{
    applied_engine_configs, bounded_generic, bounded_text, engine_section, generic_updates,
    insert_all, lemma_applied_keeps_doubles, lemma_applied_takes_stored_values, lemma_apply_after_sync, lemma_keys_distinct, lemma_lookup_insert_all_at,
    lemma_sync_keeps_other_settings, lemma_synced_sections, merged_engine_config,
    migrated_generic, prepared_for_save, sanitized, sanitized_names, sanitized_preset,
    sanitized_presets, sanitized_templates, section_base, synced_active_engine,
    synced_engine_configs, voicevox_updates, voicevox_url_accepted, voiceger_updates,
};
use super::{
    engine_id_of, key_emotion, key_ref_audio_override, lemma_engine_id_round_trip,
    lemma_eq_ignore_ascii_case_refl, lemma_generic_prefixed_id, object_entries,
    params_made_object, parse_engine_id, synced_engine_fields, synced_param,
    synced_preset_params, AppConfigView, PresetView, TtsEngineType,
};
use super::codec::{encode_dict, encode_generic_engines, encode_synth_params, scales_are_doubles};
use crate::json::{field, insert_entry, lemma_lookup_insert, lookup, JsonData, JsonNumber};
use crate::text::{
    eq_ignore_ascii_case, is_blank, lemma_trim_ends, lemma_trim_idempotent, lemma_trim_unpadded,
    split_once, trim,
};
use crate::validation::{default_voicevox_url, lemma_default_device_name_valid, valid_device_name};
use vstd::prelude::*;

verus! {

/// Setting a key to the value it has changes nothing.
proof fn lemma_insert_unchanged(e: Seq<(Seq<char>, JsonData)>, k: Seq<char>, v: JsonData)
    requires
        lookup(e, k) == Some(v),
    ensures
        insert_entry(e, k, v) == e,
    decreases e.len(),
{
    if e[0].0 == k {
        assert(seq![(k, v)] + e.drop_first() =~= e);
    } else {
        lemma_insert_unchanged(e.drop_first(), k, v);
        assert(seq![e[0]] + e.drop_first() =~= e);
    }
}

/// Inserting entries that are all present with their values changes nothing.
proof fn lemma_insert_all_unchanged(e: Seq<(Seq<char>, JsonData)>, u: Seq<(Seq<char>, JsonData)>)
    requires
        forall|j: int| 0 <= j < u.len() ==> lookup(e, (#[trigger] u[j]).0) == Some(u[j].1),
    ensures
        insert_all(e, u) == e,
    decreases u.len(),
{
    if u.len() > 0 {
        let init = u.drop_last();
        assert forall|j: int| 0 <= j < init.len() implies lookup(e, (#[trigger] init[j]).0) == Some(
            init[j].1,
        ) by {
            assert(init[j] == u[j]);
        }
        lemma_insert_all_unchanged(e, init);
        lemma_insert_unchanged(e, u.last().0, u.last().1);
    }
}

/// Writing updates into an engine's section that already holds them changes nothing.
proof fn lemma_merged_unchanged(
    configs: Seq<(Seq<char>, JsonData)>,
    id: Seq<char>,
    u: Seq<(Seq<char>, JsonData)>,
    s: Seq<(Seq<char>, JsonData)>,
)
    requires
        lookup(configs, id) == Some(JsonData::Object(s)),
        forall|j: int| 0 <= j < u.len() ==> lookup(s, (#[trigger] u[j]).0) == Some(u[j].1),
    ensures
        merged_engine_config(configs, id, u) == configs,
{
    lemma_insert_all_unchanged(s, u);
    lemma_insert_unchanged(configs, id, JsonData::Object(s));
}

/// Keys pairwise different.
spec fn distinct_keys(u: Seq<(Seq<char>, JsonData)>) -> bool {
    forall|i: int, j: int| 0 <= i < u.len() && 0 <= j < u.len() && i != j ==> (#[trigger] u[i]).0 != (#[trigger] u[j]).0
}

/// After inserting entries with different keys, each key has its inserted value.
proof fn lemma_insert_all_holds(b: Seq<(Seq<char>, JsonData)>, u: Seq<(Seq<char>, JsonData)>)
    requires
        distinct_keys(u),
    ensures
        forall|j: int| 0 <= j < u.len() ==> lookup(insert_all(b, u), (#[trigger] u[j]).0) == Some(
            u[j].1,
        ),
{
    assert forall|j: int| 0 <= j < u.len() implies lookup(insert_all(b, u), (#[trigger] u[j]).0)
        == Some(u[j].1) by {
        lemma_lookup_insert_all_at(b, u, j);
    }
}

proof fn lemma_updates_distinct(c: AppConfigView)
    ensures
        distinct_keys(voicevox_updates(c)),
        distinct_keys(voiceger_updates(c)),
        distinct_keys(generic_updates(c)),
{
    lemma_keys_distinct();
}

/// Writing the flat fields into the per-engine settings a second time changes nothing.
pub proof fn lemma_synced_engine_configs_stable(c: AppConfigView)
    ensures
        synced_engine_configs(synced_engine_configs(c)) == synced_engine_configs(c),
{
    let s = synced_engine_configs(c);
    let e = s.engine_configs;
    lemma_synced_sections(c);
    lemma_updates_distinct(c);
    assert(voicevox_updates(s) == voicevox_updates(c));
    assert(voiceger_updates(s) == voiceger_updates(c));
    assert(generic_updates(s) == generic_updates(c));
    let s1 = insert_all(section_base(c, "voicevox"@), voicevox_updates(c));
    let s2 = insert_all(section_base(c, "voiceger"@), voiceger_updates(c));
    let s3 = insert_all(section_base(c, "generic"@), generic_updates(c));
    lemma_insert_all_holds(section_base(c, "voicevox"@), voicevox_updates(c));
    lemma_insert_all_holds(section_base(c, "voiceger"@), voiceger_updates(c));
    lemma_insert_all_holds(section_base(c, "generic"@), generic_updates(c));
    assert(lookup(e, "voicevox"@) == Some(JsonData::Object(s1)));
    assert(lookup(e, "voiceger"@) == Some(JsonData::Object(s2)));
    assert(lookup(e, "generic"@) == Some(JsonData::Object(s3)));
    lemma_merged_unchanged(e, "voicevox"@, voicevox_updates(c), s1);
    lemma_merged_unchanged(e, "voiceger"@, voiceger_updates(c), s2);
    lemma_merged_unchanged(e, "generic"@, generic_updates(c), s3);
    assert(synced_engine_configs(s) =~= s);
}


proof fn lemma_engine_id_trimmed(t: TtsEngineType)
    ensures
        trim(engine_id_of(t)) == engine_id_of(t),
        trim(engine_id_of(t)).len() > 0,
        parse_engine_id(engine_id_of(t)) == Some(t),
{
    reveal_strlit("voicevox");
    reveal_strlit("voiceger");
    reveal_strlit("generic");
    lemma_trim_unpadded(engine_id_of(t));
    lemma_engine_id_round_trip(t);
}

/// Making the active engine fields agree a second time changes nothing.
pub proof fn lemma_synced_active_engine_stable(c: AppConfigView)
    ensures
        synced_active_engine(synced_active_engine(c)) == synced_active_engine(c),
{
    lemma_trim_idempotent(c.active_engine_id);
    let id = trim(c.active_engine_id);
    if id.len() == 0 {
        lemma_engine_id_trimmed(c.active_engine);
    } else {
        match parse_engine_id(id) {
            None => {},
            Some(e) => {
                lemma_engine_id_trimmed(e);
                lemma_trim_idempotent(id);
                assert(parse_engine_id(id) == parse_engine_id(c.active_engine_id));
            },
        }
    }
}

/// Making a preset's engine fields agree a second time changes nothing.
pub proof fn lemma_synced_engine_fields_stable(p: PresetView)
    ensures
        synced_engine_fields(synced_engine_fields(p)) == synced_engine_fields(p),
{
    reveal_strlit("generic");
    reveal_strlit("generic:");
    let cur = trim(p.engine_id);
    let r = synced_engine_fields(p);
    lemma_trim_idempotent(p.engine_id);
    if cur.len() == 0 {
        if p.engine == TtsEngineType::Generic && !is_blank(p.generic_engine_name) {
            let n = trim(p.generic_engine_name);
            lemma_trim_idempotent(p.generic_engine_name);
            lemma_generic_prefixed_id(n);
            let id = "generic:"@ + n;
            lemma_trim_ends(p.generic_engine_name);
            assert(id[0] == 'g');
            assert(id.last() == n.last());
            lemma_trim_unpadded(id);
            assert(id.len() > 7);
            assert(!eq_ignore_ascii_case(id, "generic"@));
        } else {
            lemma_engine_id_trimmed(p.engine);
            if p.engine == TtsEngineType::Generic {
                lemma_eq_ignore_ascii_case_refl("generic"@);
                assert(split_once("generic"@, ':') is None) by {
                    assert(forall|i: int| 0 <= i < 7 ==> "generic"@[i] != ':');
                    crate::text::lemma_char_index_bound("generic"@, ':');
                }
            }
        }
    } else {
        match parse_engine_id(cur) {
            None => {},
            Some(e) => {
                lemma_trim_idempotent(cur);
                assert(parse_engine_id(cur) == parse_engine_id(p.engine_id));
                if e != TtsEngineType::Generic {
                    lemma_engine_id_trimmed(e);
                } else if eq_ignore_ascii_case(cur, "generic"@) {
                    lemma_engine_id_trimmed(e);
                    lemma_eq_ignore_ascii_case_refl("generic"@);
                    assert(split_once("generic"@, ':') is None) by {
                        assert(forall|i: int| 0 <= i < 7 ==> "generic"@[i] != ':');
                        crate::text::lemma_char_index_bound("generic"@, ':');
                    }
                    if is_blank(p.generic_engine_name) {
                        match split_once(cur, ':') {
                            Some((prefix, rest)) => {
                                if eq_ignore_ascii_case(prefix, "generic"@) && !is_blank(rest) {
                                    lemma_trim_idempotent(rest);
                                    lemma_trim_ends(rest);
                                }
                            },
                            None => {},
                        }
                    }
                } else {
                    if is_blank(p.generic_engine_name) {
                        match split_once(cur, ':') {
                            Some((prefix, rest)) => {
                                if eq_ignore_ascii_case(prefix, "generic"@) && !is_blank(rest) {
                                    lemma_trim_idempotent(rest);
                                }
                            },
                            None => {},
                        }
                    }
                }
            },
        }
    }
}

proof fn lemma_key_names_differ()
    ensures
        key_emotion() != key_ref_audio_override(),
{
    reveal_strlit("voiceger_emotion");
    reveal_strlit("voiceger_ref_audio_override");
    assert(key_emotion().len() != key_ref_audio_override().len());
}

/// Keeping the Voiceger fields and their engine parameters in step a second time
/// changes nothing.
pub proof fn lemma_synced_preset_params_stable(p: PresetView)
    ensures
        synced_preset_params(synced_preset_params(p)) == synced_preset_params(p),
{
    lemma_key_names_differ();
    let sp = params_made_object(p.synth_params);
    let e0 = object_entries(sp.engine_params);
    let (emotion, e1) = synced_param(p.voiceger_emotion, e0, key_emotion());
    let (ref_audio, e2) = synced_param(p.voiceger_ref_audio_override, e1, key_ref_audio_override());
    let q = synced_preset_params(p);
    assert(q.synth_params.engine_params == JsonData::Object(e2));
    assert(params_made_object(q.synth_params) == q.synth_params);
    assert(object_entries(q.synth_params.engine_params) == e2);
    // The emotion parameter is the same in e1 and e2.
    if is_blank(p.voiceger_ref_audio_override) {
        assert(e2 == e1);
    } else {
        lemma_lookup_insert(e1, key_ref_audio_override(), JsonData::Str(p.voiceger_ref_audio_override), key_emotion());
        lemma_lookup_insert(e1, key_ref_audio_override(), JsonData::Str(p.voiceger_ref_audio_override), key_ref_audio_override());
    }
    assert(lookup(e2, key_emotion()) == lookup(e1, key_emotion()));
    // After the first pass, a non-blank emotion is stored as its parameter.
    if !is_blank(p.voiceger_emotion) {
        lemma_lookup_insert(e0, key_emotion(), JsonData::Str(p.voiceger_emotion), key_emotion());
    }
    if !is_blank(emotion) {
        assert(lookup(e2, key_emotion()) == Some(JsonData::Str(emotion)));
        lemma_insert_unchanged(e2, key_emotion(), JsonData::Str(emotion));
    }
    assert(synced_param(emotion, e2, key_emotion()) == (emotion, e2));
    // And so is a non-blank reference-audio override.
    if !is_blank(ref_audio) {
        assert(lookup(e2, key_ref_audio_override()) == Some(JsonData::Str(ref_audio)));
        lemma_insert_unchanged(e2, key_ref_audio_override(), JsonData::Str(ref_audio));
    }
    assert(synced_param(ref_audio, e2, key_ref_audio_override()) == (ref_audio, e2));
    assert(synced_preset_params(q) =~= q);
}

/// Keeping the Voiceger parameters in step touches none of the engine fields, so it
/// keeps a preset whose engine fields agree in that state.
proof fn lemma_engine_fields_after_params(x: PresetView)
    requires
        synced_engine_fields(x) == x,
    ensures
        synced_engine_fields(synced_preset_params(x)) == synced_preset_params(x),
{
    let y = synced_preset_params(x);
    assert(y.engine_id == x.engine_id);
    assert(y.engine == x.engine);
    assert(y.generic_engine_name == x.generic_engine_name);
    let cur = trim(x.engine_id);
    if cur.len() == 0 {
        assert(synced_engine_fields(y) =~= y);
    } else {
        match parse_engine_id(cur) {
            None => {},
            Some(e) => {
                assert(synced_engine_fields(y) =~= y);
            },
        }
    }
}

/// Cutting a text a second time changes nothing.
proof fn lemma_bounded_text_stable(t: Seq<char>, n: nat)
    ensures
        bounded_text(bounded_text(t, n), n) == bounded_text(t, n),
{
    let b = bounded_text(t, n);
    if b.len() <= n {
        assert(b.take(b.len() as int) =~= b);
    }
}

/// Sanitizing a sanitized preset changes nothing.
pub proof fn lemma_sanitized_preset_stable(q: PresetView)
    ensures
        sanitized_preset(sanitized_preset(q)) == sanitized_preset(q),
{
    let x0 = PresetView {
        name: bounded_text(q.name, 64),
        synth_params: params_made_object(q.synth_params),
        ..q
    };
    let x = synced_engine_fields(x0);
    let p = synced_preset_params(x);
    lemma_synced_engine_fields_stable(x0);
    lemma_engine_fields_after_params(x);
    lemma_synced_preset_params_stable(x);
    lemma_bounded_text_stable(q.name, 64);
    assert(p.name == bounded_text(q.name, 64));
    assert(p.synth_params.engine_params is Object);
    let y0 = PresetView {
        name: bounded_text(p.name, 64),
        synth_params: params_made_object(p.synth_params),
        ..p
    };
    assert(y0 == p);
}

/// A sanitized preset is kept by the syncing done before saving.
pub proof fn lemma_sanitized_preset_saved(q: PresetView)
    ensures
        ({
            let p = sanitized_preset(q);
            synced_preset_params(synced_engine_fields(p)) == p
        }),
{
    let x0 = PresetView {
        name: bounded_text(q.name, 64),
        synth_params: params_made_object(q.synth_params),
        ..q
    };
    let x = synced_engine_fields(x0);
    lemma_synced_engine_fields_stable(x0);
    lemma_engine_fields_after_params(x);
    lemma_synced_preset_params_stable(x);
}

/// Sanitizing sanitized templates changes nothing.
proof fn lemma_sanitized_templates_stable(ts: Seq<Seq<char>>)
    ensures
        sanitized_templates(sanitized_templates(ts)) == sanitized_templates(ts),
{
    let r = sanitized_templates(ts);
    let r2 = sanitized_templates(r);
    assert(r.len() <= 100);
    assert(r.take(r.len() as int) =~= r);
    assert forall|i: int| 0 <= i < r.len() implies #[trigger] r2[i] == r[i] by {
        let k = if ts.len() < 100 { ts.len() as int } else { 100 };
        assert(r[i] == bounded_text(ts.take(k)[i], 512));
        lemma_bounded_text_stable(ts.take(k)[i], 512);
    }
    assert(r2 =~= r);
}

/// Sanitizing sanitized presets changes nothing.
proof fn lemma_sanitized_presets_stable(c: AppConfigView)
    ensures
        sanitized_presets(sanitized_presets(c)) == sanitized_presets(c),
{
    let s = sanitized_presets(c);
    let ps = if c.presets.len() == 0 {
        super::default_presets_view()
    } else {
        c.presets
    };
    let kept = ps.take(if ps.len() < 50 { ps.len() as int } else { 50 });
    assert(super::default_presets_view().len() > 0);
    assert(s.presets.len() > 0 && s.presets.len() <= 50);
    assert(s.presets.take(s.presets.len() as int) =~= s.presets);
    assert forall|i: int| 0 <= i < s.presets.len() implies #[trigger] sanitized_preset(s.presets[i])
        == s.presets[i] by {
        lemma_sanitized_preset_stable(kept[i]);
    }
    assert(s.presets.map_values(|p: PresetView| sanitized_preset(p)) =~= s.presets);
    assert(sanitized_presets(s) =~= s);
}

proof fn lemma_start_stable(c6: AppConfigView)
    requires
        synced_active_engine(c6) == c6,
        scales_are_doubles(c6.generic_synth_params),
    ensures
        applied_engine_configs(synced_active_engine(synced_engine_configs(c6))) == synced_engine_configs(c6),
        synced_active_engine(synced_engine_configs(c6)) == synced_engine_configs(c6),
{
    let s = synced_engine_configs(c6);
    assert(s.active_engine_id == c6.active_engine_id);
    assert(s.active_engine == c6.active_engine);
    assert(synced_active_engine(s) =~= s);
    lemma_apply_after_sync(c6);
}

proof fn lemma_names_stable(s: AppConfigView)
    requires
        valid_device_name(s.virtual_device_name),
        voicevox_url_accepted(s.voicevox_url) || s.voicevox_url == default_voicevox_url(),
    ensures
        sanitized_names(s) == s,
{
    assert(sanitized_names(s) =~= s);
}

proof fn lemma_templates_step(s: AppConfigView)
    requires
        sanitized_templates(s.templates) == s.templates,
    ensures
        (AppConfigView { templates: sanitized_templates(s.templates), ..s }) == s,
{
}

proof fn lemma_generic_step(s: AppConfigView)
    requires
        0 < s.generic_engines.len() <= 20,
        s.active_generic_engine_idx < s.generic_engines.len(),
    ensures
        bounded_generic(migrated_generic(s)) == s,
{
    assert(migrated_generic(s) == s);
    assert(s.generic_engines.take(s.generic_engines.len() as int) =~= s.generic_engines);
    assert(bounded_generic(s) =~= s);
}

proof fn lemma_presets_step(s: AppConfigView, c5: AppConfigView)
    requires
        sanitized_presets(c5) == c5,
        s.presets == c5.presets,
        s.synth_params == c5.synth_params,
        s.generic_synth_params == c5.generic_synth_params,
    ensures
        sanitized_presets(s) == s,
{
    assert(sanitized_presets(s) =~= s);
}

/// The facts about sanitized settings that make a second sanitizing change nothing.
proof fn lemma_sanitized_shape(c: AppConfigView)
    ensures
        ({
            let s = sanitized(c);
            &&& valid_device_name(s.virtual_device_name)
            &&& voicevox_url_accepted(s.voicevox_url) || s.voicevox_url == default_voicevox_url()
            &&& sanitized_templates(s.templates) == s.templates
            &&& 0 < s.generic_engines.len() <= 20
            &&& s.active_generic_engine_idx < s.generic_engines.len()
        }),
{
    let c1 = applied_engine_configs(synced_active_engine(c));
    let c2 = sanitized_names(c1);
    let c3 = AppConfigView { templates: sanitized_templates(c2.templates), ..c2 };
    let c4 = bounded_generic(migrated_generic(c3));
    lemma_default_device_name_valid();
    lemma_sanitized_templates_stable(c2.templates);
    assert(migrated_generic(c3).generic_engines.len() > 0);
}

/// Loaded settings are stable: loading (sanitizing) settings that were loaded changes
/// nothing (for generic voice scales that are doubles, as they are whenever they were
/// read from a file).
pub proof fn lemma_sanitize_idempotent(c: AppConfigView)
    requires
        scales_are_doubles(c.generic_synth_params),
    ensures
        sanitized(sanitized(c)) == sanitized(c),
{
    let c1 = applied_engine_configs(synced_active_engine(c));
    let c2 = sanitized_names(c1);
    let c3 = AppConfigView { templates: sanitized_templates(c2.templates), ..c2 };
    let c4 = bounded_generic(migrated_generic(c3));
    let c5 = sanitized_presets(c4);
    let c6 = synced_active_engine(c5);
    let s = synced_engine_configs(c6);
    assert(s == sanitized(c));
    lemma_sanitized_shape(c);
    lemma_synced_active_engine_stable(c5);
    lemma_applied_keeps_doubles(synced_active_engine(c));
    assert(scales_are_doubles(c6.generic_synth_params));
    lemma_start_stable(c6);
    lemma_names_stable(s);
    lemma_templates_step(s);
    lemma_generic_step(s);
    lemma_sanitized_presets_stable(c4);
    lemma_presets_step(s, c5);
    lemma_synced_engine_configs_stable(c6);
}

proof fn lemma_params_step(s: AppConfigView)
    requires
        s.synth_params.engine_params is Object,
        s.generic_synth_params.engine_params is Object,
    ensures
        (AppConfigView {
            synth_params: params_made_object(s.synth_params),
            generic_synth_params: params_made_object(s.generic_synth_params),
            ..s
        }) == s,
{
}

proof fn lemma_presets_saved_step(s: AppConfigView, c4: AppConfigView)
    requires
        s.presets == sanitized_presets(c4).presets,
    ensures
        (AppConfigView {
            presets: s.presets.map_values(|p: PresetView| synced_preset_params(synced_engine_fields(p))),
            ..s
        }) == s,
{
    let ps = if c4.presets.len() == 0 {
        super::default_presets_view()
    } else {
        c4.presets
    };
    let kept = ps.take(if ps.len() < 50 { ps.len() as int } else { 50 });
    assert forall|i: int| 0 <= i < s.presets.len() implies #[trigger] synced_preset_params(
        synced_engine_fields(s.presets[i]),
    ) == s.presets[i] by {
        lemma_sanitized_preset_saved(kept[i]);
    }
    assert(s.presets.map_values(|p: PresetView| synced_preset_params(synced_engine_fields(p)))
        =~= s.presets);
}

/// Loaded settings are already in the form written to disk: preparing them for saving
/// changes nothing (for generic voice scales that are doubles).
pub proof fn lemma_sanitized_ready_to_save(c: AppConfigView)
    requires
        scales_are_doubles(c.generic_synth_params),
    ensures
        prepared_for_save(sanitized(c)) == sanitized(c),
{
    let c1 = applied_engine_configs(synced_active_engine(c));
    let c2 = sanitized_names(c1);
    let c3 = AppConfigView { templates: sanitized_templates(c2.templates), ..c2 };
    let c4 = bounded_generic(migrated_generic(c3));
    let c5 = sanitized_presets(c4);
    let c6 = synced_active_engine(c5);
    let s = synced_engine_configs(c6);
    assert(s == sanitized(c));
    lemma_synced_active_engine_stable(c5);
    lemma_applied_keeps_doubles(synced_active_engine(c));
    assert(scales_are_doubles(c6.generic_synth_params));
    lemma_start_stable(c6);
    lemma_params_step(s);
    lemma_presets_saved_step(s, c4);
    lemma_synced_engine_configs_stable(c6);
}

/// Settings saved and read back come back unchanged: for settings as loaded, what is
/// written to disk is the settings themselves, and loading it gives them back (for
/// generic voice scales that are doubles, as they are whenever they were read from a
/// file).
pub proof fn lemma_save_then_load(c: AppConfigView)
    requires
        scales_are_doubles(c.generic_synth_params),
    ensures
        prepared_for_save(sanitized(c)) == sanitized(c),
        sanitized(prepared_for_save(sanitized(c))) == sanitized(c),
{
    lemma_sanitized_ready_to_save(c);
    lemma_sanitize_idempotent(c);
}

/// Loading keeps what the per-engine settings hold besides the flat fields: the entries
/// of other engines, and the other settings of the three known engines.
pub proof fn lemma_sanitized_keeps_engine_data(c: AppConfigView, k: Seq<char>, key: Seq<char>)
    ensures
        k != "voicevox"@ && k != "voiceger"@ && k != "generic"@ ==> lookup(
            sanitized(c).engine_configs,
            k,
        ) == lookup(c.engine_configs, k),
        engine_section(c.engine_configs, "voicevox"@) is Some && key != "url"@ && key != "path"@
            && key != "auto_launch"@ ==> field(
            lookup(sanitized(c).engine_configs, "voicevox"@)->0,
            key,
        ) == field(lookup(c.engine_configs, "voicevox"@)->0, key),
        engine_section(c.engine_configs, "voiceger"@) is Some && key != "url"@ && key != "path"@
            && key != "auto_launch"@ && key != "ref_audio"@ && key != "prompt_text"@ && key
            != "prompt_lang"@ && key != "ref_free"@ && key != "dict"@ ==> field(
            lookup(sanitized(c).engine_configs, "voiceger"@)->0,
            key,
        ) == field(lookup(c.engine_configs, "voiceger"@)->0, key),
        engine_section(c.engine_configs, "generic"@) is Some && key != "engines"@ && key
            != "active_engine_idx"@ && key != "speaker_id"@ && key != "synth_params"@ ==> field(
            lookup(sanitized(c).engine_configs, "generic"@)->0,
            key,
        ) == field(lookup(c.engine_configs, "generic"@)->0, key),
{
    let c1 = applied_engine_configs(synced_active_engine(c));
    let c2 = sanitized_names(c1);
    let c3 = AppConfigView { templates: sanitized_templates(c2.templates), ..c2 };
    let c4 = bounded_generic(migrated_generic(c3));
    let c5 = sanitized_presets(c4);
    let c6 = synced_active_engine(c5);
    assert(c6.engine_configs == c.engine_configs);
    lemma_sync_keeps_other_settings(c6, k, key);
}

proof fn lemma_synced_voicevox_values(c: AppConfigView)
    ensures
        ({
            let s = synced_engine_configs(c);
            engine_section(s.engine_configs, "voicevox"@) matches Some(e) && {
                &&& lookup(e, "url"@) == Some(JsonData::Str(s.voicevox_url))
                &&& lookup(e, "path"@) == Some(JsonData::Str(s.voicevox_path))
                &&& lookup(e, "auto_launch"@) == Some(JsonData::Bool(s.auto_launch_voicevox))
            }
        }),
{
    lemma_synced_sections(c);
    lemma_updates_distinct(c);
    let u = voicevox_updates(c);
    lemma_insert_all_holds(section_base(c, "voicevox"@), u);
    let e = insert_all(section_base(c, "voicevox"@), u);
    assert(lookup(e, u[0].0) == Some(u[0].1));
    assert(lookup(e, u[1].0) == Some(u[1].1));
    assert(lookup(e, u[2].0) == Some(u[2].1));
}

proof fn lemma_synced_voiceger_values(c: AppConfigView)
    ensures
        ({
            let s = synced_engine_configs(c);
            engine_section(s.engine_configs, "voiceger"@) matches Some(e) && {
                &&& lookup(e, "url"@) == Some(JsonData::Str(s.voiceger_url))
                &&& lookup(e, "path"@) == Some(JsonData::Str(s.voiceger_path))
                &&& lookup(e, "auto_launch"@) == Some(JsonData::Bool(s.auto_launch_voiceger))
                &&& lookup(e, "ref_audio"@) == Some(JsonData::Str(s.voiceger_ref_audio))
                &&& lookup(e, "prompt_text"@) == Some(JsonData::Str(s.voiceger_prompt_text))
                &&& lookup(e, "prompt_lang"@) == Some(JsonData::Str(s.voiceger_prompt_lang))
                &&& lookup(e, "ref_free"@) == Some(JsonData::Bool(s.voiceger_ref_free))
                &&& lookup(e, "dict"@) == Some(encode_dict(s.voiceger_dict))
            }
        }),
{
    lemma_synced_sections(c);
    lemma_updates_distinct(c);
    let u = voiceger_updates(c);
    lemma_insert_all_holds(section_base(c, "voiceger"@), u);
    let e = insert_all(section_base(c, "voiceger"@), u);
    assert(lookup(e, u[0].0) == Some(u[0].1));
    assert(lookup(e, u[1].0) == Some(u[1].1));
    assert(lookup(e, u[2].0) == Some(u[2].1));
    assert(lookup(e, u[3].0) == Some(u[3].1));
    assert(lookup(e, u[4].0) == Some(u[4].1));
    assert(lookup(e, u[5].0) == Some(u[5].1));
    assert(lookup(e, u[6].0) == Some(u[6].1));
    assert(lookup(e, u[7].0) == Some(u[7].1));
}

proof fn lemma_synced_generic_values(c: AppConfigView)
    ensures
        ({
            let s = synced_engine_configs(c);
            engine_section(s.engine_configs, "generic"@) matches Some(e) && {
                &&& lookup(e, "engines"@) == Some(encode_generic_engines(s.generic_engines))
                &&& lookup(e, "active_engine_idx"@) == Some(
                    JsonData::Number(JsonNumber::PosInt(s.active_generic_engine_idx as u64)),
                )
                &&& lookup(e, "speaker_id"@) == Some(
                    JsonData::Number(JsonNumber::PosInt(s.generic_speaker_id as u64)),
                )
                &&& lookup(e, "synth_params"@) == Some(encode_synth_params(s.generic_synth_params))
            }
        }),
{
    lemma_synced_sections(c);
    lemma_updates_distinct(c);
    let u = generic_updates(c);
    lemma_insert_all_holds(section_base(c, "generic"@), u);
    let e = insert_all(section_base(c, "generic"@), u);
    assert(lookup(e, u[0].0) == Some(u[0].1));
    assert(lookup(e, u[1].0) == Some(u[1].1));
    assert(lookup(e, u[2].0) == Some(u[2].1));
    assert(lookup(e, u[3].0) == Some(u[3].1));
}

proof fn lemma_synced_active_id_not_blank(c: AppConfigView)
    ensures
        trim(synced_active_engine(c).active_engine_id).len() > 0,
{
    lemma_trim_idempotent(c.active_engine_id);
    lemma_engine_id_trimmed(c.active_engine);
    if trim(c.active_engine_id).len() > 0 {
        if let Some(e) = parse_engine_id(trim(c.active_engine_id)) {
            lemma_engine_id_trimmed(e);
        }
    }
}

/// Loading keeps what the per-engine settings store for VOICEVOX and Voiceger: each
/// string or boolean stored under VOICEVOX's `path` and `auto_launch`, and Voiceger's
/// `url`, `path`, `auto_launch`, `ref_audio`, `prompt_text`, `prompt_lang` and
/// `ref_free`, becomes the flat field and stays stored under its key.
pub proof fn lemma_load_keeps_stored_values(c: AppConfigView)
    ensures
        ({
            let r = sanitized(c);
            &&& engine_section(c.engine_configs, "voicevox"@) matches Some(e) ==> {
                &&& lookup(e, "path"@) matches Some(JsonData::Str(v)) ==> r.voicevox_path == v
                    && (engine_section(r.engine_configs, "voicevox"@) matches Some(e2) && lookup(
                    e2,
                    "path"@,
                ) == Some(JsonData::Str(v)))
                &&& lookup(e, "auto_launch"@) matches Some(JsonData::Bool(b)) ==> r.auto_launch_voicevox
                    == b && (engine_section(r.engine_configs, "voicevox"@) matches Some(e2) && lookup(
                    e2,
                    "auto_launch"@,
                ) == Some(JsonData::Bool(b)))
            }
            &&& engine_section(c.engine_configs, "voiceger"@) matches Some(e) ==> {
                &&& lookup(e, "url"@) matches Some(JsonData::Str(v)) ==> r.voiceger_url == v
                &&& lookup(e, "path"@) matches Some(JsonData::Str(v)) ==> r.voiceger_path == v
                    && (engine_section(r.engine_configs, "voiceger"@) matches Some(e2) && lookup(
                    e2,
                    "path"@,
                ) == Some(JsonData::Str(v)))
                &&& lookup(e, "auto_launch"@) matches Some(JsonData::Bool(b)) ==> r.auto_launch_voiceger
                    == b
                &&& lookup(e, "ref_audio"@) matches Some(JsonData::Str(v)) ==> r.voiceger_ref_audio == v
                &&& lookup(e, "prompt_text"@) matches Some(JsonData::Str(v)) ==> r.voiceger_prompt_text
                    == v
                &&& lookup(e, "prompt_lang"@) matches Some(JsonData::Str(v)) ==> r.voiceger_prompt_lang
                    == v
                &&& lookup(e, "ref_free"@) matches Some(JsonData::Bool(b)) ==> r.voiceger_ref_free == b
            }
        }),
{
    let c0 = synced_active_engine(c);
    assert(c0.engine_configs == c.engine_configs);
    lemma_applied_takes_stored_values(c0);
    lemma_sanitized_sections(c);
}

/// What loading leaves in the per-engine settings: the three engine sections are
/// objects holding the flat fields (VOICEVOX and Voiceger connection settings, the
/// Voiceger reference settings and dictionary, the generic engines, active index,
/// speaker and voice parameters), and the active engine id is not blank.
pub proof fn lemma_sanitized_sections(c: AppConfigView)
    ensures
        ({
            let s = sanitized(c);
            &&& engine_section(s.engine_configs, "voicevox"@) matches Some(e) && {
                &&& lookup(e, "url"@) == Some(JsonData::Str(s.voicevox_url))
                &&& lookup(e, "path"@) == Some(JsonData::Str(s.voicevox_path))
                &&& lookup(e, "auto_launch"@) == Some(JsonData::Bool(s.auto_launch_voicevox))
            }
            &&& engine_section(s.engine_configs, "voiceger"@) matches Some(e) && {
                &&& lookup(e, "url"@) == Some(JsonData::Str(s.voiceger_url))
                &&& lookup(e, "path"@) == Some(JsonData::Str(s.voiceger_path))
                &&& lookup(e, "auto_launch"@) == Some(JsonData::Bool(s.auto_launch_voiceger))
                &&& lookup(e, "ref_audio"@) == Some(JsonData::Str(s.voiceger_ref_audio))
                &&& lookup(e, "prompt_text"@) == Some(JsonData::Str(s.voiceger_prompt_text))
                &&& lookup(e, "prompt_lang"@) == Some(JsonData::Str(s.voiceger_prompt_lang))
                &&& lookup(e, "ref_free"@) == Some(JsonData::Bool(s.voiceger_ref_free))
                &&& lookup(e, "dict"@) == Some(encode_dict(s.voiceger_dict))
            }
            &&& engine_section(s.engine_configs, "generic"@) matches Some(e) && {
                &&& lookup(e, "engines"@) == Some(encode_generic_engines(s.generic_engines))
                &&& lookup(e, "active_engine_idx"@) == Some(
                    JsonData::Number(JsonNumber::PosInt(s.active_generic_engine_idx as u64)),
                )
                &&& lookup(e, "speaker_id"@) == Some(
                    JsonData::Number(JsonNumber::PosInt(s.generic_speaker_id as u64)),
                )
                &&& lookup(e, "synth_params"@) == Some(encode_synth_params(s.generic_synth_params))
            }
            &&& trim(s.active_engine_id).len() > 0
        }),
{
    let c1 = applied_engine_configs(synced_active_engine(c));
    let c2 = sanitized_names(c1);
    let c3 = AppConfigView { templates: sanitized_templates(c2.templates), ..c2 };
    let c4 = bounded_generic(migrated_generic(c3));
    let c5 = sanitized_presets(c4);
    let c6 = synced_active_engine(c5);
    assert(synced_engine_configs(c6) == sanitized(c));
    lemma_synced_voicevox_values(c6);
    lemma_synced_voiceger_values(c6);
    lemma_synced_generic_values(c6);
    lemma_synced_active_id_not_blank(c5);
}

} // verus!
