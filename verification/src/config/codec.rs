//! Typed settings read from and written to JSON values, as `serde_json::from_value`
//! and `serde_json::to_value` treat them for the setting types.
use super::{
    default_synth_params, engines_view, pairs_view, dict_view, DictView, GenericEngineConfig,
    GenericEngineView, SynthParamsConfig, SynthParamsView,
};
use crate::json::{
    data_entries, data_seq, lemma_data_entries, lemma_data_seq, lookup, object_get, JsonData,
    JsonNumber, JsonValue,
};
use crate::numeric::{number_as_double, to_double};
use vstd::prelude::*;

verus! {

broadcast use vstd::std_specs::vec::group_vec_axioms;

/// A string-to-string table read from a JSON object whose values are all strings.
pub open spec fn decode_str_map(d: JsonData) -> Option<Seq<(Seq<char>, Seq<char>)>> {
    match d {
        JsonData::Object(e) => if forall|i: int| 0 <= i < e.len() ==> (#[trigger] e[i]).1 is Str {
            Some(Seq::new(e.len(), |i: int| (e[i].0, e[i].1->Str_0)))
        } else {
            None
        },
        _ => None,
    }
}

/// The replacement tables read from a JSON object of string-to-string objects.
pub open spec fn decode_dict(d: JsonData) -> Option<DictView> {
    match d {
        JsonData::Object(e) => if forall|i: int|
            0 <= i < e.len() ==> decode_str_map((#[trigger] e[i]).1) is Some {
            Some(Seq::new(e.len(), |i: int| (e[i].0, decode_str_map(e[i].1)->0)))
        } else {
            None
        },
        _ => None,
    }
}

/// A generic engine read from an object with string fields `name` and `url` (other
/// fields ignored), or from an array of exactly those two strings.
pub open spec fn decode_generic_engine(d: JsonData) -> Option<GenericEngineView> {
    match d {
        JsonData::Object(e) => match (lookup(e, "name"@), lookup(e, "url"@)) {
            (Some(JsonData::Str(name)), Some(JsonData::Str(url))) => Some(
                GenericEngineView { name, url },
            ),
            _ => None,
        },
        JsonData::Array(a) => if a.len() == 2 && a[0] is Str && a[1] is Str {
            Some(GenericEngineView { name: a[0]->Str_0, url: a[1]->Str_0 })
        } else {
            None
        },
        _ => None,
    }
}

/// A list of generic engines read from an array of engines.
pub open spec fn decode_generic_engines(d: JsonData) -> Option<Seq<GenericEngineView>> {
    match d {
        JsonData::Array(a) => if forall|i: int|
            0 <= i < a.len() ==> decode_generic_engine(#[trigger] a[i]) is Some {
            Some(Seq::new(a.len(), |i: int| decode_generic_engine(a[i])->0))
        } else {
            None
        },
        _ => None,
    }
}

/// A floating-point setting: its default when absent, any JSON number when present,
/// read as a double (a whole number becomes the double nearest to it).
pub open spec fn number_setting(v: Option<JsonData>, default: JsonNumber) -> Option<JsonNumber> {
    match v {
        None => Some(default),
        Some(JsonData::Number(n)) => Some(number_as_double(n)),
        Some(_) => None,
    }
}

/// Voice parameters with each scale read as a double (see `number_as_double`).
pub open spec fn params_as_doubles(p: SynthParamsView) -> SynthParamsView {
    SynthParamsView {
        speed_scale: number_as_double(p.speed_scale),
        pitch_scale: number_as_double(p.pitch_scale),
        intonation_scale: number_as_double(p.intonation_scale),
        volume_scale: number_as_double(p.volume_scale),
        engine_params: p.engine_params,
    }
}

/// Whether all four scales are floating-point numbers, as they are when read from a
/// file or from JSON.
pub open spec fn scales_are_doubles(p: SynthParamsView) -> bool {
    &&& p.speed_scale is Float
    &&& p.pitch_scale is Float
    &&& p.intonation_scale is Float
    &&& p.volume_scale is Float
}

/// Voice parameters read from an object (absent fields take their defaults, other
/// fields are ignored) or from an array of at most five values in field order (missing
/// trailing values take their defaults). The scales must be numbers; `engine_params`
/// may be any value.
pub open spec fn decode_synth_params(d: JsonData) -> Option<SynthParamsView> {
    let dflt = default_synth_params();
    let (s, p, i, v, ep) = match d {
        JsonData::Object(e) => (
            number_setting(lookup(e, "speed_scale"@), dflt.speed_scale),
            number_setting(lookup(e, "pitch_scale"@), dflt.pitch_scale),
            number_setting(lookup(e, "intonation_scale"@), dflt.intonation_scale),
            number_setting(lookup(e, "volume_scale"@), dflt.volume_scale),
            Some(
                match lookup(e, "engine_params"@) {
                    Some(x) => x,
                    None => dflt.engine_params,
                },
            ),
        ),
        JsonData::Array(a) => if a.len() <= 5 {
            (
                number_setting(if 0 < a.len() { Some(a[0]) } else { None }, dflt.speed_scale),
                number_setting(if 1 < a.len() { Some(a[1]) } else { None }, dflt.pitch_scale),
                number_setting(if 2 < a.len() { Some(a[2]) } else { None }, dflt.intonation_scale),
                number_setting(if 3 < a.len() { Some(a[3]) } else { None }, dflt.volume_scale),
                Some(if 4 < a.len() { a[4] } else { dflt.engine_params }),
            )
        } else {
            (None, None, None, None, None)
        },
        _ => (None, None, None, None, None),
    };
    if s is Some && p is Some && i is Some && v is Some && ep is Some {
        Some(SynthParamsView {
            speed_scale: s->0,
            pitch_scale: p->0,
            intonation_scale: i->0,
            volume_scale: v->0,
            engine_params: ep->0,
        })
    } else {
        None
    }
}

/// A string-to-string table written as a JSON object of strings.
pub open spec fn encode_str_map(m: Seq<(Seq<char>, Seq<char>)>) -> JsonData {
    JsonData::Object(Seq::new(m.len(), |i: int| (m[i].0, JsonData::Str(m[i].1))))
}

/// The replacement tables written as a JSON object of objects.
pub open spec fn encode_dict(d: DictView) -> JsonData {
    JsonData::Object(Seq::new(d.len(), |i: int| (d[i].0, encode_str_map(d[i].1))))
}

/// A generic engine written as the object `{name, url}`.
pub open spec fn encode_generic_engine(g: GenericEngineView) -> JsonData {
    JsonData::Object(seq![("name"@, JsonData::Str(g.name)), ("url"@, JsonData::Str(g.url))])
}

/// A list of generic engines written as an array.
pub open spec fn encode_generic_engines(v: Seq<GenericEngineView>) -> JsonData {
    JsonData::Array(Seq::new(v.len(), |i: int| encode_generic_engine(v[i])))
}

/// Whether a number is an infinite or NaN floating-point value.
pub open spec fn is_non_finite(n: JsonNumber) -> bool {
    match n {
        JsonNumber::Float(bits) => (bits >> 52u64) & 0x7ffu64 == 0x7ffu64,
        _ => false,
    }
}

/// A number written as JSON: infinite and NaN values become `null`.
pub open spec fn encode_number(n: JsonNumber) -> JsonData {
    if is_non_finite(n) {
        JsonData::Null
    } else {
        JsonData::Number(n)
    }
}

/// Voice parameters written as an object of their five fields.
pub open spec fn encode_synth_params(p: SynthParamsView) -> JsonData {
    JsonData::Object(
        seq![
            ("speed_scale"@, encode_number(p.speed_scale)),
            ("pitch_scale"@, encode_number(p.pitch_scale)),
            ("intonation_scale"@, encode_number(p.intonation_scale)),
            ("volume_scale"@, encode_number(p.volume_scale)),
            ("engine_params"@, p.engine_params),
        ],
    )
}

/// A string-to-string table read from a JSON value (see `decode_str_map`).
pub fn str_map_from_json(v: &JsonValue) -> (r: Option<Vec<(String, String)>>)
    ensures
        match r {
            Some(m) => decode_str_map(v.data()) == Some(pairs_view(m@)),
            None => decode_str_map(v.data()) is None,
        },
{
    match v {
        JsonValue::Object(e) => {
            let ghost d = data_entries(e@);
            proof {
                lemma_data_entries(e@);
            }
            let mut out: Vec<(String, String)> = Vec::new();
            let mut i: usize = 0;
            while i < e.len()
                invariant
                    *v == JsonValue::Object(*e),
                    d == data_entries(e@),
                    d.len() == e@.len(),
                    forall|k: int| 0 <= k < e@.len() ==> #[trigger] d[k] == (e@[k].0@, e@[k].1.data()),
                    i <= e@.len(),
                    out@.len() == i,
                    forall|k: int| 0 <= k < i ==> (#[trigger] d[k]).1 is Str,
                    forall|k: int|
                        0 <= k < i ==> (#[trigger] out@[k]).0@ == d[k].0 && out@[k].1@ == d[k].1->Str_0,
                decreases e@.len() - i,
            {
                match &e[i].1 {
                    JsonValue::String(s) => {
                        out.push((e[i].0.clone(), s.clone()));
                    },
                    _ => {
                        proof {
                            assert(!(d[i as int].1 is Str));
                        }
                        return None;
                    },
                }
                i = i + 1;
            }
            proof {
                assert(pairs_view(out@) =~= Seq::new(d.len(), |k: int| (d[k].0, d[k].1->Str_0)));
            }
            Some(out)
        },
        _ => None,
    }
}

/// The replacement tables read from a JSON value (see `decode_dict`).
pub fn dict_from_json(v: &JsonValue) -> (r: Option<Vec<(String, Vec<(String, String)>)>>)
    ensures
        match r {
            Some(m) => decode_dict(v.data()) == Some(dict_view(m@)),
            None => decode_dict(v.data()) is None,
        },
{
    match v {
        JsonValue::Object(e) => {
            let ghost d = data_entries(e@);
            proof {
                lemma_data_entries(e@);
            }
            let mut out: Vec<(String, Vec<(String, String)>)> = Vec::new();
            let mut i: usize = 0;
            while i < e.len()
                invariant
                    *v == JsonValue::Object(*e),
                    d == data_entries(e@),
                    d.len() == e@.len(),
                    forall|k: int| 0 <= k < e@.len() ==> #[trigger] d[k] == (e@[k].0@, e@[k].1.data()),
                    i <= e@.len(),
                    out@.len() == i,
                    forall|k: int| 0 <= k < i ==> decode_str_map((#[trigger] d[k]).1) is Some,
                    forall|k: int|
                        0 <= k < i ==> (#[trigger] out@[k]).0@ == d[k].0 && pairs_view(out@[k].1@)
                            == decode_str_map(d[k].1)->0,
                decreases e@.len() - i,
            {
                match str_map_from_json(&e[i].1) {
                    Some(m) => {
                        out.push((e[i].0.clone(), m));
                    },
                    None => {
                        proof {
                            assert(decode_str_map(d[i as int].1) is None);
                        }
                        return None;
                    },
                }
                i = i + 1;
            }
            proof {
                assert(dict_view(out@) =~= Seq::new(
                    d.len(),
                    |k: int| (d[k].0, decode_str_map(d[k].1)->0),
                ));
            }
            Some(out)
        },
        _ => None,
    }
}

/// A generic engine read from a JSON value (see `decode_generic_engine`).
pub fn generic_engine_from_json(v: &JsonValue) -> (r: Option<GenericEngineConfig>)
    ensures
        match r {
            Some(g) => decode_generic_engine(v.data()) == Some(g@),
            None => decode_generic_engine(v.data()) is None,
        },
{
    match v {
        JsonValue::Object(e) => {
            let name = match object_get(e, "name") {
                Some(JsonValue::String(s)) => s.clone(),
                _ => {
                    return None;
                },
            };
            let url = match object_get(e, "url") {
                Some(JsonValue::String(s)) => s.clone(),
                _ => {
                    return None;
                },
            };
            Some(GenericEngineConfig { name, url })
        },
        JsonValue::Array(a) => {
            proof {
                lemma_data_seq(a@);
            }
            if a.len() != 2 {
                return None;
            }
            match (&a[0], &a[1]) {
                (JsonValue::String(name), JsonValue::String(url)) => Some(
                    GenericEngineConfig { name: name.clone(), url: url.clone() },
                ),
                _ => None,
            }
        },
        _ => None,
    }
}

/// A list of generic engines read from a JSON value (see `decode_generic_engines`).
pub fn generic_engines_from_json(v: &JsonValue) -> (r: Option<Vec<GenericEngineConfig>>)
    ensures
        match r {
            Some(g) => decode_generic_engines(v.data()) == Some(engines_view(g@)),
            None => decode_generic_engines(v.data()) is None,
        },
{
    match v {
        JsonValue::Array(a) => {
            let ghost d = data_seq(a@);
            proof {
                lemma_data_seq(a@);
            }
            let mut out: Vec<GenericEngineConfig> = Vec::new();
            let mut i: usize = 0;
            while i < a.len()
                invariant
                    *v == JsonValue::Array(*a),
                    d == data_seq(a@),
                    d.len() == a@.len(),
                    forall|k: int| 0 <= k < a@.len() ==> #[trigger] d[k] == a@[k].data(),
                    i <= a@.len(),
                    out@.len() == i,
                    forall|k: int| 0 <= k < i ==> decode_generic_engine(#[trigger] d[k]) is Some,
                    forall|k: int|
                        0 <= k < i ==> (#[trigger] out@[k])@ == decode_generic_engine(d[k])->0,
                decreases a@.len() - i,
            {
                match generic_engine_from_json(&a[i]) {
                    Some(g) => {
                        out.push(g);
                    },
                    None => {
                        proof {
                            assert(decode_generic_engine(d[i as int]) is None);
                        }
                        return None;
                    },
                }
                i = i + 1;
            }
            proof {
                assert(engines_view(out@) =~= Seq::new(
                    d.len(),
                    |k: int| decode_generic_engine(d[k])->0,
                ));
            }
            Some(out)
        },
        _ => None,
    }
}

/// A number setting read from an optional JSON value (see `number_setting`).
fn number_from_json(v: Option<&JsonValue>, default: JsonNumber) -> (r: Option<JsonNumber>)
    ensures
        r == number_setting(
            match v {
                Some(x) => Some(x.data()),
                None => None,
            },
            default,
        ),
{
    match v {
        None => Some(default),
        Some(JsonValue::Number(n)) => Some(to_double(*n)),
        Some(_) => None,
    }
}

/// Voice parameters read from a JSON value (see `decode_synth_params`).
pub fn synth_params_from_json(v: &JsonValue) -> (r: Option<SynthParamsConfig>)
    ensures
        match r {
            Some(p) => decode_synth_params(v.data()) == Some(p@),
            None => decode_synth_params(v.data()) is None,
        },
{
    let dflt = SynthParamsConfig::default();
    match v {
        JsonValue::Object(e) => {
            let s = number_from_json(object_get(e, "speed_scale"), dflt.speed_scale);
            let p = number_from_json(object_get(e, "pitch_scale"), dflt.pitch_scale);
            let i = number_from_json(object_get(e, "intonation_scale"), dflt.intonation_scale);
            let vo = number_from_json(object_get(e, "volume_scale"), dflt.volume_scale);
            let ep = match object_get(e, "engine_params") {
                Some(x) => x.deep_clone(),
                None => dflt.engine_params,
            };
            match (s, p, i, vo) {
                (Some(s), Some(p), Some(i), Some(vo)) => Some(
                    SynthParamsConfig {
                        speed_scale: s,
                        pitch_scale: p,
                        intonation_scale: i,
                        volume_scale: vo,
                        engine_params: ep,
                    },
                ),
                _ => None,
            }
        },
        JsonValue::Array(a) => {
            proof {
                lemma_data_seq(a@);
            }
            if a.len() > 5 {
                return None;
            }
            let s = number_from_json(if 0 < a.len() { Some(&a[0]) } else { None }, dflt.speed_scale);
            let p = number_from_json(if 1 < a.len() { Some(&a[1]) } else { None }, dflt.pitch_scale);
            let i = number_from_json(
                if 2 < a.len() { Some(&a[2]) } else { None },
                dflt.intonation_scale,
            );
            let vo = number_from_json(if 3 < a.len() { Some(&a[3]) } else { None }, dflt.volume_scale);
            let ep = if 4 < a.len() {
                a[4].deep_clone()
            } else {
                dflt.engine_params
            };
            match (s, p, i, vo) {
                (Some(s), Some(p), Some(i), Some(vo)) => Some(
                    SynthParamsConfig {
                        speed_scale: s,
                        pitch_scale: p,
                        intonation_scale: i,
                        volume_scale: vo,
                        engine_params: ep,
                    },
                ),
                _ => None,
            }
        },
        _ => None,
    }
}

/// A string-to-string table written as JSON (see `encode_str_map`).
pub fn str_map_to_json(m: &Vec<(String, String)>) -> (r: JsonValue)
    ensures
        r.data() == encode_str_map(pairs_view(m@)),
{
    let mut out: Vec<(String, JsonValue)> = Vec::new();
    let mut i: usize = 0;
    while i < m.len()
        invariant
            i <= m@.len(),
            out@.len() == i,
            forall|k: int|
                0 <= k < i ==> (#[trigger] out@[k]).0@ == m@[k].0@ && out@[k].1.data()
                    == JsonData::Str(m@[k].1@),
        decreases m@.len() - i,
    {
        out.push((m[i].0.clone(), JsonValue::String(m[i].1.clone())));
        i = i + 1;
    }
    proof {
        lemma_data_entries(out@);
        let pv = pairs_view(m@);
        assert(data_entries(out@) =~= Seq::new(pv.len(), |k: int| (pv[k].0, JsonData::Str(pv[k].1))));
    }
    JsonValue::Object(out)
}

/// The replacement tables written as JSON (see `encode_dict`).
pub fn dict_to_json(d: &Vec<(String, Vec<(String, String)>)>) -> (r: JsonValue)
    ensures
        r.data() == encode_dict(dict_view(d@)),
{
    let mut out: Vec<(String, JsonValue)> = Vec::new();
    let mut i: usize = 0;
    while i < d.len()
        invariant
            i <= d@.len(),
            out@.len() == i,
            forall|k: int|
                0 <= k < i ==> (#[trigger] out@[k]).0@ == d@[k].0@ && out@[k].1.data()
                    == encode_str_map(pairs_view(d@[k].1@)),
        decreases d@.len() - i,
    {
        let inner = str_map_to_json(&d[i].1);
        out.push((d[i].0.clone(), inner));
        i = i + 1;
    }
    proof {
        lemma_data_entries(out@);
        let dv = dict_view(d@);
        assert(data_entries(out@) =~= Seq::new(dv.len(), |k: int| (dv[k].0, encode_str_map(dv[k].1))));
    }
    JsonValue::Object(out)
}

/// A generic engine written as JSON (see `encode_generic_engine`).
pub fn generic_engine_to_json(g: &GenericEngineConfig) -> (r: JsonValue)
    ensures
        r.data() == encode_generic_engine(g@),
{
    let mut out: Vec<(String, JsonValue)> = Vec::new();
    out.push(("name".to_owned(), JsonValue::String(g.name.clone())));
    out.push(("url".to_owned(), JsonValue::String(g.url.clone())));
    proof {
        lemma_data_entries(out@);
        assert(data_entries(out@) =~= seq![("name"@, JsonData::Str(g.name@)), ("url"@, JsonData::Str(g.url@))]);
    }
    JsonValue::Object(out)
}

/// A list of generic engines written as JSON (see `encode_generic_engines`).
pub fn generic_engines_to_json(v: &Vec<GenericEngineConfig>) -> (r: JsonValue)
    ensures
        r.data() == encode_generic_engines(engines_view(v@)),
{
    let mut out: Vec<JsonValue> = Vec::new();
    let mut i: usize = 0;
    while i < v.len()
        invariant
            i <= v@.len(),
            out@.len() == i,
            forall|k: int| 0 <= k < i ==> (#[trigger] out@[k]).data() == encode_generic_engine(v@[k]@),
        decreases v@.len() - i,
    {
        out.push(generic_engine_to_json(&v[i]));
        i = i + 1;
    }
    proof {
        lemma_data_seq(out@);
        let ev = engines_view(v@);
        assert(data_seq(out@) =~= Seq::new(ev.len(), |k: int| encode_generic_engine(ev[k])));
    }
    JsonValue::Array(out)
}

/// A number written as JSON (see `encode_number`).
pub fn number_to_json(n: JsonNumber) -> (r: JsonValue)
    ensures
        r.data() == encode_number(n),
{
    match n {
        JsonNumber::Float(bits) => {
            if (bits >> 52u64) & 0x7ffu64 == 0x7ffu64 {
                JsonValue::Null
            } else {
                JsonValue::Number(n)
            }
        },
        _ => JsonValue::Number(n),
    }
}

/// Voice parameters written as JSON (see `encode_synth_params`).
pub fn synth_params_to_json(p: &SynthParamsConfig) -> (r: JsonValue)
    ensures
        r.data() == encode_synth_params(p@),
{
    let mut out: Vec<(String, JsonValue)> = Vec::new();
    out.push(("speed_scale".to_owned(), number_to_json(p.speed_scale)));
    out.push(("pitch_scale".to_owned(), number_to_json(p.pitch_scale)));
    out.push(("intonation_scale".to_owned(), number_to_json(p.intonation_scale)));
    out.push(("volume_scale".to_owned(), number_to_json(p.volume_scale)));
    out.push(("engine_params".to_owned(), p.engine_params.deep_clone()));
    proof {
        lemma_data_entries(out@);
        assert(data_entries(out@) =~= object_entries_of(encode_synth_params(p@)));
    }
    JsonValue::Object(out)
}

spec fn object_entries_of(d: JsonData) -> Seq<(Seq<char>, JsonData)> {
    match d {
        JsonData::Object(e) => e,
        _ => Seq::empty(),
    }
}

/// Replacement tables written as JSON read back as the same tables.
pub proof fn lemma_dict_round_trip(d: DictView)
    ensures
        decode_dict(encode_dict(d)) == Some(d),
{
    let e = Seq::new(d.len(), |i: int| (d[i].0, encode_str_map(d[i].1)));
    assert forall|i: int| 0 <= i < e.len() implies decode_str_map((#[trigger] e[i]).1) == Some(d[i].1) by {
        let m = d[i].1;
        let f = Seq::new(m.len(), |k: int| (m[k].0, JsonData::Str(m[k].1)));
        assert(Seq::new(f.len(), |k: int| (f[k].0, f[k].1->Str_0)) =~= m);
    }
    assert(Seq::new(e.len(), |i: int| (e[i].0, decode_str_map(e[i].1)->0)) =~= d);
}

/// Generic engines written as JSON read back as the same engines.
pub proof fn lemma_generic_engines_round_trip(v: Seq<GenericEngineView>)
    ensures
        decode_generic_engines(encode_generic_engines(v)) == Some(v),
{
    reveal_strlit("name");
    reveal_strlit("url");
    let a = Seq::new(v.len(), |i: int| encode_generic_engine(v[i]));
    assert forall|i: int| 0 <= i < a.len() implies decode_generic_engine(#[trigger] a[i]) == Some(v[i]) by {
        let e = seq![("name"@, JsonData::Str(v[i].name)), ("url"@, JsonData::Str(v[i].url))];
        assert("name"@.len() != "url"@.len());
        assert(e.drop_first()[0] == e[1]);
        assert(lookup(e, "url"@) == lookup(e.drop_first(), "url"@));
    }
    assert(Seq::new(a.len(), |i: int| decode_generic_engine(a[i])->0) =~= v);
}

/// Voice parameters written as JSON read back as the same parameters with their scales
/// as doubles (so the same parameters when the scales are doubles already), unless a
/// scale is infinite or NaN (written as `null`, which is not read back as a number).
pub proof fn lemma_synth_params_round_trip(p: SynthParamsView)
    ensures
        decode_synth_params(encode_synth_params(p)) == (if is_non_finite(p.speed_scale)
            || is_non_finite(p.pitch_scale) || is_non_finite(p.intonation_scale) || is_non_finite(
            p.volume_scale,
        ) {
            None
        } else {
            Some(params_as_doubles(p))
        }),
        scales_are_doubles(p) ==> params_as_doubles(p) == p,
{
    reveal_strlit("speed_scale");
    reveal_strlit("pitch_scale");
    reveal_strlit("intonation_scale");
    reveal_strlit("volume_scale");
    reveal_strlit("engine_params");
    let e = seq![
        ("speed_scale"@, encode_number(p.speed_scale)),
        ("pitch_scale"@, encode_number(p.pitch_scale)),
        ("intonation_scale"@, encode_number(p.intonation_scale)),
        ("volume_scale"@, encode_number(p.volume_scale)),
        ("engine_params"@, p.engine_params),
    ];
    assert("speed_scale"@[0] != "pitch_scale"@[0]);
    assert("speed_scale"@.len() != "intonation_scale"@.len());
    assert("pitch_scale"@.len() != "intonation_scale"@.len());
    assert("speed_scale"@.len() != "volume_scale"@.len());
    assert("pitch_scale"@.len() != "volume_scale"@.len());
    assert("intonation_scale"@.len() != "volume_scale"@.len());
    assert("speed_scale"@.len() != "engine_params"@.len());
    assert("pitch_scale"@.len() != "engine_params"@.len());
    assert("intonation_scale"@.len() != "engine_params"@.len());
    assert("volume_scale"@[0] != "engine_params"@[0]);
    let e1 = e.drop_first();
    let e2 = e1.drop_first();
    let e3 = e2.drop_first();
    let e4 = e3.drop_first();
    assert(e1[0] == e[1] && e2[0] == e[2] && e3[0] == e[3] && e4[0] == e[4]);
    assert(lookup(e, "speed_scale"@) == Some(encode_number(p.speed_scale)));
    assert(lookup(e, "pitch_scale"@) == lookup(e1, "pitch_scale"@));
    assert(lookup(e, "intonation_scale"@) == lookup(e1, "intonation_scale"@));
    assert(lookup(e1, "intonation_scale"@) == lookup(e2, "intonation_scale"@));
    assert(lookup(e, "volume_scale"@) == lookup(e1, "volume_scale"@));
    assert(lookup(e1, "volume_scale"@) == lookup(e2, "volume_scale"@));
    assert(lookup(e2, "volume_scale"@) == lookup(e3, "volume_scale"@));
    assert(lookup(e, "engine_params"@) == lookup(e1, "engine_params"@));
    assert(lookup(e1, "engine_params"@) == lookup(e2, "engine_params"@));
    assert(lookup(e2, "engine_params"@) == lookup(e3, "engine_params"@));
    assert(lookup(e3, "engine_params"@) == lookup(e4, "engine_params"@));
}

} // verus!
