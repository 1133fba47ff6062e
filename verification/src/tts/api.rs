//! The VOICEVOX-style HTTP API shared by the engines: base addresses, endpoint
//! addresses and the synthesis query body.
use crate::config::codec::{encode_number, number_to_json};
use crate::json::{insert_entry, lemma_lookup_insert, lookup, object_insert, JsonData, JsonValue};
use crate::text::{chars_of, decimal, take_chars, u64_to_decimal};
use crate::tts::types::SynthParams;
use vstd::prelude::*;

verus! {

/// `s` without the `/` characters at its end (`str::trim_end_matches('/')`).
pub open spec fn trim_trailing_slashes(s: Seq<char>) -> Seq<char>
    decreases s.len(),
{
    if s.len() > 0 && s.last() == '/' {
        trim_trailing_slashes(s.drop_last())
    } else {
        s
    }
}

proof fn lemma_trim_trailing_slashes_prefix(s: Seq<char>, n: int)
    requires
        0 <= n <= s.len(),
        forall|j: int| n <= j < s.len() ==> s[j] == '/',
    ensures
        trim_trailing_slashes(s) == trim_trailing_slashes(s.take(n)),
    decreases s.len() - n,
{
    if n < s.len() {
        assert(s.drop_last().take(n) =~= s.take(n));
        lemma_trim_trailing_slashes_prefix(s.drop_last(), n);
    } else {
        assert(s.take(n) =~= s);
    }
}

/// A base address as the engines keep it: without trailing slashes.
pub fn normalize_base_url(base_url: &str) -> (r: String)
    ensures
        r@ == trim_trailing_slashes(base_url@),
{
    let cs = chars_of(base_url);
    let mut n: usize = cs.len();
    while n > 0 && cs[n - 1] == '/'
        invariant
            cs@ == base_url@,
            n <= cs@.len(),
            forall|j: int| n <= j < cs@.len() ==> cs@[j] == '/',
        decreases n,
    {
        n = n - 1;
    }
    proof {
        lemma_trim_trailing_slashes_prefix(base_url@, n as int);
        let t = base_url@.take(n as int);
        if n > 0 {
            assert(t.last() == cs@[n - 1]);
        }
    }
    take_chars(base_url, n).to_owned()
}

/// The address of an endpoint of the API at `base`: `{base}/{path}`.
pub open spec fn endpoint(base: Seq<char>, path: Seq<char>) -> Seq<char> {
    base + "/"@ + path
}

/// `{base}/{path}`.
pub fn endpoint_url(base: &str, path: &str) -> (r: String)
    ensures
        r@ == endpoint(base@, path@),
{
    let head = crate::text::concat_str(base, "/");
    head.concat(path)
}

/// The `speaker` query parameter: the speaker id in decimal.
pub fn speaker_query_value(speaker_id: u32) -> (r: String)
    ensures
        r@ == decimal(speaker_id as nat),
{
    u64_to_decimal(speaker_id as u64)
}

/// The query's entries with the four scales of `params` written over them.
pub open spec fn with_scales(entries: Seq<(Seq<char>, JsonData)>, params: SynthParams) -> Seq<(Seq<char>, JsonData)> {
    insert_entry(
        insert_entry(
            insert_entry(
                insert_entry(entries, "speedScale"@, encode_number(params.speed_scale)),
                "pitchScale"@,
                encode_number(params.pitch_scale),
            ),
            "intonationScale"@,
            encode_number(params.intonation_scale),
        ),
        "volumeScale"@,
        encode_number(params.volume_scale),
    )
}

/// An audio query with the scales of `params` applied: when the query is an object its
/// `speedScale`, `pitchScale`, `intonationScale` and `volumeScale` are set (non-finite
/// numbers as `null`); any other query is left as it is.
pub open spec fn applied_synth_params(query: JsonData, params: SynthParams) -> JsonData {
    match query {
        JsonData::Object(entries) => JsonData::Object(with_scales(entries, params)),
        _ => query,
    }
}

/// Applying voice parameters to an object query sets each of the four scale keys to
/// its own scale (`speedScale` to the speed, `pitchScale` to the pitch, `intonationScale`
/// to the intonation, `volumeScale` to the volume) and keeps every other key of the
/// query as it was; a query that is not an object is left unchanged.
pub proof fn lemma_applied_scales(query: JsonData, params: SynthParams, k: Seq<char>)
    ensures
        query is Object ==> (applied_synth_params(query, params) matches JsonData::Object(e2) && {
            let e = query->Object_0;
            &&& lookup(e2, "speedScale"@) == Some(encode_number(params.speed_scale))
            &&& lookup(e2, "pitchScale"@) == Some(encode_number(params.pitch_scale))
            &&& lookup(e2, "intonationScale"@) == Some(encode_number(params.intonation_scale))
            &&& lookup(e2, "volumeScale"@) == Some(encode_number(params.volume_scale))
            &&& (k != "speedScale"@ && k != "pitchScale"@ && k != "intonationScale"@ && k
                != "volumeScale"@ ==> lookup(e2, k) == lookup(e, k))
        }),
        !(query is Object) ==> applied_synth_params(query, params) == query,
{
    if let JsonData::Object(e) = query {
        reveal_strlit("speedScale");
        reveal_strlit("pitchScale");
        reveal_strlit("intonationScale");
        reveal_strlit("volumeScale");
        assert("speedScale"@[0] != "pitchScale"@[0]);
        assert("speedScale"@[0] != "intonationScale"@[0]);
        assert("speedScale"@[0] != "volumeScale"@[0]);
        assert("pitchScale"@[0] != "intonationScale"@[0]);
        assert("pitchScale"@[0] != "volumeScale"@[0]);
        assert("intonationScale"@[0] != "volumeScale"@[0]);
        let e1 = insert_entry(e, "speedScale"@, encode_number(params.speed_scale));
        let e2 = insert_entry(e1, "pitchScale"@, encode_number(params.pitch_scale));
        let e3 = insert_entry(e2, "intonationScale"@, encode_number(params.intonation_scale));
        let v4 = encode_number(params.volume_scale);
        lemma_lookup_insert(e, "speedScale"@, encode_number(params.speed_scale), "speedScale"@);
        lemma_lookup_insert(e, "speedScale"@, encode_number(params.speed_scale), k);
        lemma_lookup_insert(e1, "pitchScale"@, encode_number(params.pitch_scale), "speedScale"@);
        lemma_lookup_insert(e1, "pitchScale"@, encode_number(params.pitch_scale), "pitchScale"@);
        lemma_lookup_insert(e1, "pitchScale"@, encode_number(params.pitch_scale), k);
        lemma_lookup_insert(e2, "intonationScale"@, encode_number(params.intonation_scale), "speedScale"@);
        lemma_lookup_insert(e2, "intonationScale"@, encode_number(params.intonation_scale), "pitchScale"@);
        lemma_lookup_insert(e2, "intonationScale"@, encode_number(params.intonation_scale), "intonationScale"@);
        lemma_lookup_insert(e2, "intonationScale"@, encode_number(params.intonation_scale), k);
        lemma_lookup_insert(e3, "volumeScale"@, v4, "speedScale"@);
        lemma_lookup_insert(e3, "volumeScale"@, v4, "pitchScale"@);
        lemma_lookup_insert(e3, "volumeScale"@, v4, "intonationScale"@);
        lemma_lookup_insert(e3, "volumeScale"@, v4, "volumeScale"@);
        lemma_lookup_insert(e3, "volumeScale"@, v4, k);
    }
}

/// Writes the scales of `params` into an audio query (see `applied_synth_params`).
pub fn apply_synth_params(query: &mut JsonValue, params: &SynthParams)
    ensures
        final(query).data() == applied_synth_params(old(query).data(), *params),
        old(query).data() is Object ==> (final(query).data() matches JsonData::Object(e2)
            && lookup(e2, "speedScale"@) == Some(encode_number(params.speed_scale))
            && lookup(e2, "pitchScale"@) == Some(encode_number(params.pitch_scale))
            && lookup(e2, "intonationScale"@) == Some(encode_number(params.intonation_scale))
            && lookup(e2, "volumeScale"@) == Some(encode_number(params.volume_scale))),
{
    proof {
        lemma_applied_scales(query.data(), *params, "speedScale"@);
    }
    match query {
        JsonValue::Object(entries) => {
            object_insert(entries, "speedScale".to_owned(), number_to_json(params.speed_scale));
            object_insert(entries, "pitchScale".to_owned(), number_to_json(params.pitch_scale));
            object_insert(
                entries,
                "intonationScale".to_owned(),
                number_to_json(params.intonation_scale),
            );
            object_insert(entries, "volumeScale".to_owned(), number_to_json(params.volume_scale));
        },
        _ => {},
    }
}

} // verus!
