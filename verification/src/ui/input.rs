//! The input screen's decisions: what is sent, and how speakers are labelled.
use crate::text::{concat_str, decimal, is_blank, is_blank_str, trim, trim_str, u64_to_decimal};
use crate::tts::types::{Speaker, Style};
use vstd::prelude::*;

verus! {

/// The first style with id `id`, by its name.
pub open spec fn style_named(styles: Seq<Style>, id: u32) -> Option<Seq<char>>
    decreases styles.len(),
{
    if styles.len() == 0 {
        None
    } else if styles[0].id == id {
        Some(styles[0].name@)
    } else {
        style_named(styles.drop_first(), id)
    }
}

/// The speaker and style names of the first style with id `id`, speakers in order and
/// each speaker's styles in order.
pub open spec fn speaker_style(speakers: Seq<Speaker>, id: u32) -> Option<(Seq<char>, Seq<char>)>
    decreases speakers.len(),
{
    if speakers.len() == 0 {
        None
    } else {
        match style_named(speakers[0].styles@, id) {
            Some(st) => Some((speakers[0].name@, st)),
            None => speaker_style(speakers.drop_first(), id),
        }
    }
}

proof fn lemma_style_named_skip(styles: Seq<Style>, id: u32, i: int)
    requires
        0 <= i <= styles.len(),
        forall|j: int| 0 <= j < i ==> (#[trigger] styles[j]).id != id,
    ensures
        style_named(styles, id) == style_named(styles.skip(i), id),
    decreases i,
{
    if i > 0 {
        assert(styles.skip(1) =~= styles.drop_first());
        assert forall|j: int| 0 <= j < i - 1 implies (#[trigger] styles.drop_first()[j]).id != id by {
            assert(styles.drop_first()[j] == styles[j + 1]);
        }
        lemma_style_named_skip(styles.drop_first(), id, i - 1);
        assert(styles.drop_first().skip(i - 1) =~= styles.skip(i));
    } else {
        assert(styles.skip(0) =~= styles);
    }
}

proof fn lemma_speaker_style_skip(speakers: Seq<Speaker>, id: u32, i: int)
    requires
        0 <= i <= speakers.len(),
        forall|j: int| 0 <= j < i ==> style_named((#[trigger] speakers[j]).styles@, id) is None,
    ensures
        speaker_style(speakers, id) == speaker_style(speakers.skip(i), id),
    decreases i,
{
    if i > 0 {
        assert forall|j: int| 0 <= j < i - 1 implies style_named(
            (#[trigger] speakers.drop_first()[j]).styles@,
            id,
        ) is None by {
            assert(speakers.drop_first()[j] == speakers[j + 1]);
        }
        lemma_speaker_style_skip(speakers.drop_first(), id, i - 1);
        assert(speakers.drop_first().skip(i - 1) =~= speakers.skip(i));
    } else {
        assert(speakers.skip(0) =~= speakers);
    }
}

fn find_style_name(styles: &Vec<Style>, id: u32) -> (r: Option<&str>)
    ensures
        match r {
            Some(n) => style_named(styles@, id) == Some(n@),
            None => style_named(styles@, id) is None,
        },
{
    let mut i: usize = 0;
    while i < styles.len()
        invariant
            i <= styles@.len(),
            forall|j: int| 0 <= j < i ==> (#[trigger] styles@[j]).id != id,
        decreases styles@.len() - i,
    {
        if styles[i].id == id {
            proof {
                lemma_style_named_skip(styles@, id, i as int);
                assert(styles@.skip(i as int)[0] == styles@[i as int]);
            }
            return Some(styles[i].name.as_str());
        }
        i = i + 1;
    }
    proof {
        lemma_style_named_skip(styles@, id, i as int);
    }
    None
}

/// The speaker and style names of the first style with id `id` (see `speaker_style`).
pub fn find_speaker_style(speakers: &Vec<Speaker>, id: u32) -> (r: Option<(&str, &str)>)
    ensures
        match r {
            Some((s, st)) => speaker_style(speakers@, id) == Some((s@, st@)),
            None => speaker_style(speakers@, id) is None,
        },
{
    let mut i: usize = 0;
    while i < speakers.len()
        invariant
            i <= speakers@.len(),
            forall|j: int| 0 <= j < i ==> style_named((#[trigger] speakers@[j]).styles@, id) is None,
        decreases speakers@.len() - i,
    {
        match find_style_name(&speakers[i].styles, id) {
            Some(st) => {
                proof {
                    lemma_speaker_style_skip(speakers@, id, i as int);
                    assert(speakers@.skip(i as int)[0] == speakers@[i as int]);
                }
                return Some((speakers[i].name.as_str(), st));
            },
            None => {},
        }
        i = i + 1;
    }
    proof {
        lemma_speaker_style_skip(speakers@, id, i as int);
    }
    None
}

/// The input screen's speaker label: `{speaker} ({style})`, or `ID: {id}` for an id
/// no listed style has.
pub fn speaker_choice_label(speakers: &Vec<Speaker>, id: u32) -> (r: String)
    ensures
        r@ == (match speaker_style(speakers@, id) {
            Some((s, st)) => s + " ("@ + st + ")"@,
            None => "ID: "@ + decimal(id as nat),
        }),
{
    match find_speaker_style(speakers, id) {
        Some((s, st)) => concat_str(s, " (").concat(st).concat(")"),
        None => concat_str("ID: ", u64_to_decimal(id as u64).as_str()),
    }
}

/// The preset editor's speaker label: `{speaker} - {style}`, or `Speaker ID: {id}` for
/// an id no listed style has.
pub fn preset_speaker_label(speakers: &Vec<Speaker>, id: u32) -> (r: String)
    ensures
        r@ == (match speaker_style(speakers@, id) {
            Some((s, st)) => s + " - "@ + st,
            None => "Speaker ID: "@ + decimal(id as nat),
        }),
{
    match find_speaker_style(speakers, id) {
        Some((s, st)) => concat_str(s, " - ").concat(st),
        None => concat_str("Speaker ID: ", u64_to_decimal(id as u64).as_str()),
    }
}

/// Whether the send button is enabled: there is text and no synthesis is running.
pub fn can_send(input: &str, is_synthesizing: bool) -> (r: bool)
    ensures
        r == (!is_blank(input@) && !is_synthesizing),
{
    !is_blank_str(input) && !is_synthesizing
}

/// Sending the input: nothing for blank text; otherwise the trimmed text, and the input
/// is cleared.
pub fn take_message(input: &mut String) -> (r: Option<String>)
    ensures
        is_blank(old(input)@) ==> r is None && final(input)@ == old(input)@,
        !is_blank(old(input)@) ==> (r matches Some(m) && m@ == trim(old(input)@)),
        !is_blank(old(input)@) ==> final(input)@.len() == 0,
{
    if is_blank_str(input.as_str()) {
        return None;
    }
    let message = trim_str(input.as_str()).to_owned();
    *input = String::new();
    Some(message)
}

} // verus!
