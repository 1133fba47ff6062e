//! The settings screen's decisions outside the preset editor: the generic engine list,
//! the Voiceger dictionary, templates, the OSC port, notices and colours.
use crate::assoc::{
    assoc_get, assoc_remove, assoc_set, find_key, keys_of, lemma_assoc_remove_get,
    lemma_assoc_set_get,
};
use crate::config::{
    default_generic_url, dict_view, engines_view, fallback_generic_name, pairs_view,
    strings_view, AppConfig, AppConfigView, DictView, GenericEngineConfig, GenericEngineView,
    TtsEngineType,
};
use crate::text::{
    concat_str, decimal, digits_value, is_digit, parse_u32_str, str_eq, trim, trim_str,
    u64_to_decimal, unsigned_digits,
};
use vstd::prelude::*;

verus! {

broadcast use vstd::std_specs::vec::group_vec_axioms;

/// The most generic engines the settings screen lets the user add.
pub const MAX_GENERIC_ENGINES: usize = 20;

/// The name a new generic engine gets when `n` engines exist: `エンジン{n+1}`.
pub open spec fn new_engine_name(n: nat) -> Seq<char> {
    "エンジン"@ + decimal(n + 1)
}

/// Adding a generic engine: below the limit, a new engine named after its position at
/// the default address is appended and the settings are to be written; at the limit
/// nothing changes.
pub fn add_generic_engine(config: &mut AppConfig) -> (r: bool)
    ensures
        r == (old(config)@.generic_engines.len() < MAX_GENERIC_ENGINES),
        r ==> final(config)@ == (AppConfigView {
            generic_engines: old(config)@.generic_engines.push(
                GenericEngineView {
                    name: new_engine_name(old(config)@.generic_engines.len()),
                    url: default_generic_url(),
                },
            ),
            ..old(config)@
        }),
        !r ==> final(config)@ == old(config)@,
{
    let n = config.generic_engines.len();
    if n >= MAX_GENERIC_ENGINES {
        return false;
    }
    let number = u64_to_decimal((n + 1) as u64);
    let engine = GenericEngineConfig {
        name: concat_str("エンジン", number.as_str()),
        url: "http://localhost:10101".to_owned(),
    };
    let ghost before = config.generic_engines@;
    config.generic_engines.push(engine);
    proof {
        reveal_strlit("http://localhost:10101");
        assert(engines_view(config.generic_engines@) =~= engines_view(before).push(engine@));
    }
    true
}

/// What the application does after a generic engine is removed.
#[derive(Debug, Clone, Copy, PartialEq, Eq, Structural)]
pub enum EngineRemoval {
    /// A generic engine was in use and none is left: switch to VOICEVOX.
    SwitchToVoicevox,
    /// A generic engine is in use: check the connection to it again.
    Recheck,
    /// A generic engine was not in use.
    Nothing,
}

/// The active generic engine's position after one is removed from a list now `len`
/// long: kept when still in range, otherwise the last position (0 for an empty list).
pub open spec fn clamped_active_index(idx: usize, len: nat) -> usize {
    if idx >= len {
        if len == 0 {
            0
        } else {
            (len - 1) as usize
        }
    } else {
        idx
    }
}

/// Removing generic engine `i`: it leaves the list and the active position is kept in
/// range (see `clamped_active_index`); the result says what to do next, and the settings
/// are then to be written.
pub fn remove_generic_engine(config: &mut AppConfig, i: usize) -> (r: EngineRemoval)
    requires
        i < old(config)@.generic_engines.len(),
    ensures
        final(config)@ == (AppConfigView {
            generic_engines: old(config)@.generic_engines.remove(i as int),
            active_generic_engine_idx: clamped_active_index(
                old(config)@.active_generic_engine_idx,
                (old(config)@.generic_engines.len() - 1) as nat,
            ),
            ..old(config)@
        }),
        r == (if old(config)@.active_engine != TtsEngineType::Generic {
            EngineRemoval::Nothing
        } else if old(config)@.generic_engines.len() == 1 {
            EngineRemoval::SwitchToVoicevox
        } else {
            EngineRemoval::Recheck
        }),
{
    let ghost before = config.generic_engines@;
    config.generic_engines.remove(i);
    proof {
        assert(engines_view(config.generic_engines@) =~= engines_view(before).remove(i as int));
    }
    if config.active_generic_engine_idx >= config.generic_engines.len() {
        config.active_generic_engine_idx = config.generic_engines.len().saturating_sub(1);
    }
    if config.active_engine == TtsEngineType::Generic && config.generic_engines.len() == 0 {
        EngineRemoval::SwitchToVoicevox
    } else if config.active_engine == TtsEngineType::Generic {
        EngineRemoval::Recheck
    } else {
        EngineRemoval::Nothing
    }
}

/// The reading that silences a word.
pub open spec fn silent_marker() -> Seq<char> {
    "{silent}"@
}

/// The dictionary with `surface` read as `reading` in language `lang`; the language's
/// table is created when missing.
pub open spec fn dict_with_entry(d: DictView, lang: Seq<char>, surface: Seq<char>, reading: Seq<char>) -> DictView {
    let table = match assoc_get(d, lang) {
        Some(t) => t,
        None => seq![],
    };
    assoc_set(d, lang, assoc_set(table, surface, reading))
}

/// The settings after the dictionary's add button with the given inputs (both trimmed):
/// nothing when one is blank; for the reading `{silent}`, the surface joins the silent
/// words unless it is one already; otherwise the entry is set in the language's table.
pub open spec fn dict_entry_added(c: AppConfigView, lang: Seq<char>, surface: Seq<char>, reading: Seq<char>) -> AppConfigView {
    let s = trim(surface);
    let r = trim(reading);
    if s.len() == 0 || r.len() == 0 {
        c
    } else if r == silent_marker() {
        AppConfigView {
            silent_words: if c.silent_words.contains(s) {
                c.silent_words
            } else {
                c.silent_words.push(s)
            },
            ..c
        }
    } else {
        AppConfigView { voiceger_dict: dict_with_entry(c.voiceger_dict, lang, s, r), ..c }
    }
}

fn copy_pairs(v: &Vec<(String, String)>) -> (r: Vec<(String, String)>)
    ensures
        pairs_view(r@) == pairs_view(v@),
{
    let mut r: Vec<(String, String)> = Vec::new();
    let mut i: usize = 0;
    while i < v.len()
        invariant
            i <= v@.len(),
            pairs_view(r@) == pairs_view(v@.take(i as int)),
        decreases v@.len() - i,
    {
        let ghost before = r@;
        let a = v[i].0.as_str().to_owned();
        let b = v[i].1.as_str().to_owned();
        r.push((a, b));
        proof {
            assert(v@.take(i + 1) =~= v@.take(i as int).push(v@[i as int]));
            assert(pairs_view(r@) =~= pairs_view(before).push((a@, b@)));
            assert(pairs_view(v@.take(i + 1)) =~= pairs_view(v@.take(i as int)).push(
                (v@[i as int].0@, v@[i as int].1@),
            ));
        }
        i = i + 1;
    }
    proof {
        assert(v@.take(i as int) =~= v@);
    }
    r
}

proof fn lemma_pairs_keys(v: Seq<(String, String)>)
    ensures
        pairs_view(v).map_values(|e: (Seq<char>, Seq<char>)| e.0) == keys_of(v),
{
    assert(pairs_view(v).map_values(|e: (Seq<char>, Seq<char>)| e.0) =~= keys_of(v));
}

proof fn lemma_dict_keys(v: Seq<(String, Vec<(String, String)>)>)
    ensures
        dict_view(v).map_values(|e: (Seq<char>, Seq<(Seq<char>, Seq<char>)>)| e.0) == keys_of(v),
{
    assert(dict_view(v).map_values(|e: (Seq<char>, Seq<(Seq<char>, Seq<char>)>)| e.0) =~= keys_of(
        v,
    ));
}

/// Sets `k` to `val` in a string table (see `assoc_set`).
fn set_pair(v: &mut Vec<(String, String)>, k: &str, val: &str)
    ensures
        pairs_view(final(v)@) == assoc_set(pairs_view(old(v)@), k@, val@),
{
    proof {
        lemma_pairs_keys(v@);
    }
    let ghost before = v@;
    match find_key(v, k) {
        Some(i) => {
            v.set(i, (k.to_owned(), val.to_owned()));
            proof {
                assert(pairs_view(v@) =~= pairs_view(before).update(i as int, (k@, val@)));
            }
        },
        None => {
            v.push((k.to_owned(), val.to_owned()));
            proof {
                assert(pairs_view(v@) =~= pairs_view(before).push((k@, val@)));
            }
        },
    }
}

/// The pairs of a string table whose key is not `k` (see `assoc_remove`).
fn without_pair(v: &Vec<(String, String)>, k: &str) -> (r: Vec<(String, String)>)
    ensures
        pairs_view(r@) == assoc_remove(pairs_view(v@), k@),
{
    let mut r: Vec<(String, String)> = Vec::new();
    let mut i: usize = 0;
    while i < v.len()
        invariant
            i <= v@.len(),
            pairs_view(r@) == assoc_remove(pairs_view(v@.take(i as int)), k@),
        decreases v@.len() - i,
    {
        let ghost before = r@;
        proof {
            assert(pairs_view(v@.take(i + 1)).drop_last() =~= pairs_view(v@.take(i as int)));
            assert(pairs_view(v@.take(i + 1)).last() == (v@[i as int].0@, v@[i as int].1@));
        }
        if !str_eq(v[i].0.as_str(), k) {
            r.push((v[i].0.as_str().to_owned(), v[i].1.as_str().to_owned()));
            proof {
                assert(pairs_view(r@) =~= pairs_view(before).push((v@[i as int].0@, v@[i as int].1@)));
            }
        }
        i = i + 1;
    }
    proof {
        assert(v@.take(i as int) =~= v@);
    }
    r
}

/// Whether `s` is one of `v`.
fn contains_string(v: &Vec<String>, s: &str) -> (r: bool)
    ensures
        r == strings_view(v@).contains(s@),
{
    let mut i: usize = 0;
    while i < v.len()
        invariant
            i <= v@.len(),
            forall|j: int| 0 <= j < i ==> (#[trigger] v@[j])@ != s@,
        decreases v@.len() - i,
    {
        if str_eq(v[i].as_str(), s) {
            proof {
                assert(strings_view(v@)[i as int] == s@);
            }
            return true;
        }
        i = i + 1;
    }
    proof {
        if strings_view(v@).contains(s@) {
            let j = choose|j: int| 0 <= j < strings_view(v@).len() && strings_view(v@)[j] == s@;
            assert(v@[j]@ == s@);
        }
    }
    false
}

/// The dictionary's add button (see `dict_entry_added`); the result tells whether
/// something was added, in which case the settings are to be written and the inputs
/// cleared.
pub fn add_voiceger_dict_entry(config: &mut AppConfig, lang: &str, surface: &str, reading: &str) -> (r: bool)
    ensures
        final(config)@ == dict_entry_added(old(config)@, lang@, surface@, reading@),
        r == (trim(surface@).len() > 0 && trim(reading@).len() > 0),
{
    let s = trim_str(surface);
    let rd = trim_str(reading);
    if s.unicode_len() == 0 || rd.unicode_len() == 0 {
        return false;
    }
    proof {
        reveal_strlit("{silent}");
    }
    if str_eq(rd, "{silent}") {
        if !contains_string(&config.silent_words, s) {
            let ghost before = config.silent_words@;
            config.silent_words.push(s.to_owned());
            proof {
                assert(strings_view(config.silent_words@) =~= strings_view(before).push(s@));
            }
        }
        return true;
    }
    let ghost d0 = dict_view(config.voiceger_dict@);
    proof {
        lemma_dict_keys(config.voiceger_dict@);
    }
    match find_key(&config.voiceger_dict, lang) {
        Some(i) => {
            let mut table = copy_pairs(&config.voiceger_dict[i].1);
            set_pair(&mut table, s, rd);
            let ghost t = pairs_view(table@);
            config.voiceger_dict.set(i, (lang.to_owned(), table));
            proof {
                assert(dict_view(config.voiceger_dict@) =~= d0.update(i as int, (lang@, t)));
            }
        },
        None => {
            let mut table: Vec<(String, String)> = Vec::new();
            set_pair(&mut table, s, rd);
            let ghost t = pairs_view(table@);
            config.voiceger_dict.push((lang.to_owned(), table));
            proof {
                assert(pairs_view(Seq::<(String, String)>::empty()) =~= Seq::<(Seq<char>, Seq<char>)>::empty());
                assert(dict_view(config.voiceger_dict@) =~= d0.push((lang@, t)));
            }
        },
    }
    true
}

/// The settings after deleting `surface` from language `lang`'s table (no change when
/// the language has no table).
pub open spec fn dict_entry_removed(c: AppConfigView, lang: Seq<char>, surface: Seq<char>) -> AppConfigView {
    match assoc_get(c.voiceger_dict, lang) {
        Some(t) => AppConfigView {
            voiceger_dict: assoc_set(c.voiceger_dict, lang, assoc_remove(t, surface)),
            ..c
        },
        None => c,
    }
}

/// The dictionary's delete button (see `dict_entry_removed`).
pub fn remove_voiceger_dict_entry(config: &mut AppConfig, lang: &str, surface: &str)
    ensures
        final(config)@ == dict_entry_removed(old(config)@, lang@, surface@),
{
    let ghost d0 = dict_view(config.voiceger_dict@);
    proof {
        lemma_dict_keys(config.voiceger_dict@);
    }
    match find_key(&config.voiceger_dict, lang) {
        Some(i) => {
            let table = without_pair(&config.voiceger_dict[i].1, surface);
            let ghost t = pairs_view(table@);
            config.voiceger_dict.set(i, (lang.to_owned(), table));
            proof {
                assert(dict_view(config.voiceger_dict@) =~= d0.update(i as int, (lang@, t)));
            }
        },
        None => {},
    }
}

/// After a word is added to a language's table, the table reads it as given, and the
/// other languages' tables are unchanged.
pub proof fn lemma_dict_entry_added_reads_back(
    c: AppConfigView,
    lang: Seq<char>,
    surface: Seq<char>,
    reading: Seq<char>,
    other: Seq<char>,
)
    requires
        trim(surface).len() > 0,
        trim(reading).len() > 0,
        trim(reading) != silent_marker(),
    ensures
        assoc_get(dict_entry_added(c, lang, surface, reading).voiceger_dict, lang) matches Some(t)
            && assoc_get(t, trim(surface)) == Some(trim(reading)),
        other != lang ==> assoc_get(dict_entry_added(c, lang, surface, reading).voiceger_dict, other)
            == assoc_get(c.voiceger_dict, other),
{
    let s = trim(surface);
    let r = trim(reading);
    let table = match assoc_get(c.voiceger_dict, lang) {
        Some(t) => t,
        None => seq![],
    };
    lemma_assoc_set_get(c.voiceger_dict, lang, assoc_set(table, s, r), other);
    lemma_assoc_set_get(table, s, r, s);
}

/// After a word is deleted from a language's table, the table no longer has it.
pub proof fn lemma_dict_entry_removed_forgets(c: AppConfigView, lang: Seq<char>, surface: Seq<char>)
    requires
        assoc_get(c.voiceger_dict, lang) is Some,
    ensures
        assoc_get(dict_entry_removed(c, lang, surface).voiceger_dict, lang) matches Some(t)
            && assoc_get(t, surface) is None,
{
    let t = assoc_get(c.voiceger_dict, lang).unwrap();
    lemma_assoc_set_get(c.voiceger_dict, lang, assoc_remove(t, surface), lang);
    lemma_assoc_remove_get(t, surface, surface);
}

/// The VOICEVOX dictionary's add button: the trimmed surface and pronunciation to
/// register, when neither is blank.
pub fn dict_word_request(surface: &str, pronunciation: &str) -> (r: Option<(String, String)>)
    ensures
        (trim(surface@).len() > 0 && trim(pronunciation@).len() > 0) ==> (r matches Some((s, p))
            && s@ == trim(surface@) && p@ == trim(pronunciation@)),
        !(trim(surface@).len() > 0 && trim(pronunciation@).len() > 0) ==> r is None,
{
    let s = trim_str(surface);
    let p = trim_str(pronunciation);
    if s.unicode_len() == 0 || p.unicode_len() == 0 {
        None
    } else {
        Some((s.to_owned(), p.to_owned()))
    }
}

/// Adding a template: the trimmed text is appended unless it is blank. The result
/// tells whether it was.
pub fn add_template(templates: &mut Vec<String>, text: &str) -> (r: bool)
    ensures
        r == (trim(text@).len() > 0),
        r ==> strings_view(final(templates)@) == strings_view(old(templates)@).push(trim(text@)),
        !r ==> final(templates)@ == old(templates)@,
{
    let t = trim_str(text);
    if t.unicode_len() == 0 {
        return false;
    }
    let ghost before = templates@;
    templates.push(t.to_owned());
    proof {
        assert(strings_view(templates@) =~= strings_view(before).push(t@));
    }
    true
}

/// `str::parse::<u16>`: an optional `+` and one or more ASCII digits whose value fits
/// in a `u16`.
pub open spec fn parse_u16(s: Seq<char>) -> Option<u16> {
    let d = unsigned_digits(s);
    if d.len() > 0 && (forall|i: int| 0 <= i < d.len() ==> is_digit(#[trigger] d[i]))
        && digits_value(d) <= u16::MAX {
        Some(digits_value(d) as u16)
    } else {
        None
    }
}

/// `str::parse::<u16>` (see `parse_u16`).
pub fn parse_u16_str(s: &str) -> (r: Option<u16>)
    ensures
        r == parse_u16(s@),
{
    match parse_u32_str(s) {
        Some(v) => if v <= 0xffff {
            Some(v as u16)
        } else {
            None
        },
        None => None,
    }
}

/// The port field of the OSC settings: the text is taken as the port when it reads as
/// one, and ignored otherwise.
pub fn apply_osc_port_text(config: &mut AppConfig, text: &str)
    ensures
        final(config)@ == (match parse_u16(text@) {
            Some(p) => AppConfigView { osc_port: p, ..old(config)@ },
            None => old(config)@,
        }),
{
    match parse_u16_str(text) {
        Some(p) => {
            config.osc_port = p;
        },
        None => {},
    }
}

/// The name of the engine in use, as the notices show it.
pub open spec fn active_engine_label(c: AppConfigView) -> Seq<char> {
    match c.active_engine {
        TtsEngineType::Voicevox => "VOICEVOX"@,
        TtsEngineType::Voiceger => "Voiceger"@,
        TtsEngineType::Generic => if c.active_generic_engine_idx < c.generic_engines.len() {
            c.generic_engines[c.active_generic_engine_idx as int].name
        } else {
            fallback_generic_name()
        },
    }
}

/// The name of the engine in use (see `active_engine_label`).
pub fn active_engine_name(config: &AppConfig) -> (r: String)
    ensures
        r@ == active_engine_label(config@),
{
    match config.active_engine {
        TtsEngineType::Voicevox => "VOICEVOX".to_owned(),
        TtsEngineType::Voiceger => "Voiceger".to_owned(),
        TtsEngineType::Generic => config.active_generic_name().to_owned(),
    }
}

/// The notice over a section of an engine not in use.
pub fn inactive_notice(config: &AppConfig) -> (r: String)
    ensures
        r@ == "現在 "@ + active_engine_label(config@) + " を使用中のため変更できません"@,
{
    let name = active_engine_name(config);
    concat_str("現在 ", name.as_str()).concat(" を使用中のため変更できません")
}

/// The label of the restart button, for the engines the application launches.
pub fn restart_label(engine: TtsEngineType) -> (r: Option<&'static str>)
    ensures
        engine == TtsEngineType::Generic ==> r is None,
        engine != TtsEngineType::Generic ==> (r matches Some(l) && l@ == "再起動"@),
{
    match engine {
        TtsEngineType::Voicevox => Some("再起動"),
        TtsEngineType::Voiceger => Some("再起動"),
        TtsEngineType::Generic => None,
    }
}

/// The description of the chosen microphone among `(name, description)` sources:
/// that of the first source named as chosen (no choice counts as the empty name), or
/// `未選択`.
pub fn mic_source_label<'a>(sources: &'a Vec<(String, String)>, current: &Option<String>) -> (r: &'a str)
    ensures
        r@ == (match assoc_get(
            pairs_view(sources@),
            match current {
                Some(c) => c@,
                None => seq![],
            },
        ) {
            Some(d) => d,
            None => "未選択"@,
        }),
{
    let name: &str = match current {
        Some(c) => c.as_str(),
        None => "",
    };
    proof {
        lemma_pairs_keys(sources@);
        reveal_strlit("");
        assert(name@ == (match current {
            Some(c) => c@,
            None => Seq::<char>::empty(),
        }));
    }
    match find_key(sources, name) {
        Some(i) => sources[i].1.as_str(),
        None => "未選択",
    }
}

/// Two upper-case hexadecimal digits of a byte.
pub open spec fn hex_byte(b: u8) -> Seq<char> {
    seq![hex_digit(b / 16), hex_digit(b % 16)]
}

/// An upper-case hexadecimal digit.
pub open spec fn hex_digit(d: u8) -> char {
    if d < 10 {
        ('0' as u8 + d) as char
    } else {
        ('A' as u8 + (d - 10)) as char
    }
}

fn hex_digit_char(d: u8) -> (c: char)
    requires
        d < 16,
    ensures
        c == hex_digit(d),
{
    let table: [char; 16] = [
        '0', '1', '2', '3', '4', '5', '6', '7', '8', '9', 'A', 'B', 'C', 'D', 'E', 'F',
    ];
    let c = table[d as usize];
    proof {
        assert(c == hex_digit(d)) by {
            assert(table@[d as int] == c);
        }
    }
    c
}

/// The colour field's text: `#RRGGBB`, the red, green and blue bytes in upper-case
/// hexadecimal.
pub fn rgb_hex(color: [u8; 4]) -> (r: String)
    ensures
        r@ == seq!['#'] + hex_byte(color@[0]) + hex_byte(color@[1]) + hex_byte(color@[2]),
{
    let mut s = String::new();
    crate::text::push_char(&mut s, '#');
    let mut k: usize = 0;
    while k < 3
        invariant
            k <= 3,
            s@ == seq!['#'] + (if k == 0 {
                seq![]
            } else if k == 1 {
                hex_byte(color@[0])
            } else if k == 2 {
                hex_byte(color@[0]) + hex_byte(color@[1])
            } else {
                hex_byte(color@[0]) + hex_byte(color@[1]) + hex_byte(color@[2])
            }),
        decreases 3 - k,
    {
        let b = color[k];
        crate::text::push_char(&mut s, hex_digit_char(b / 16));
        crate::text::push_char(&mut s, hex_digit_char(b % 16));
        proof {
            if k == 0 {
                assert(s@ =~= seq!['#'] + hex_byte(color@[0]));
            } else if k == 1 {
                assert(s@ =~= seq!['#'] + hex_byte(color@[0]) + hex_byte(color@[1]));
            } else {
                assert(s@ =~= seq!['#'] + hex_byte(color@[0]) + hex_byte(color@[1]) + hex_byte(
                    color@[2],
                ));
            }
        }
        k = k + 1;
    }
    s
}

/// A colour with the red, green and blue of `parsed` and its own opacity.
pub fn with_rgb(color: [u8; 4], parsed: [u8; 4]) -> (r: [u8; 4])
    ensures
        r@ == seq![parsed@[0], parsed@[1], parsed@[2], color@[3]],
{
    let r = [parsed[0], parsed[1], parsed[2], color[3]];
    proof {
        assert(r@ =~= seq![parsed@[0], parsed@[1], parsed@[2], color@[3]]);
    }
    r
}

/// Whether a colour is white, whose opacity cannot be changed.
pub fn is_white(color: [u8; 4]) -> (r: bool)
    ensures
        r == (color@[0] == 255 && color@[1] == 255 && color@[2] == 255),
{
    color[0] == 255 && color[1] == 255 && color[2] == 255
}

} // verus!
