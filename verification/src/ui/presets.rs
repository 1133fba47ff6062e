//! The preset editor of the settings screen: which presets a section lists, and what
//! saving, cancelling, editing, deleting and creating a preset do.
use crate::config::{
    engine_id_of, presets_view, AppConfig, PresetView, SpeakerPreset, TtsEngineType,
    ENGINE_ID_GENERIC,
};
use crate::text::{concat_str, is_blank, is_blank_str, str_eq};
use vstd::prelude::*;

verus! {

broadcast use vstd::std_specs::vec::group_vec_axioms;

/// The editor's state: whether a new preset is being written, which preset is being
/// edited, the preset being written or edited, and the preset in use.
pub struct PresetEditor {
    pub preset_adding: bool,
    pub preset_edit_idx: Option<usize>,
    pub preset_edit_buf: Option<SpeakerPreset>,
    pub active_preset_idx: Option<usize>,
}

/// The content of a `PresetEditor`.
pub struct PresetEditorView {
    pub preset_adding: bool,
    pub preset_edit_idx: Option<usize>,
    pub preset_edit_buf: Option<PresetView>,
    pub active_preset_idx: Option<usize>,
}

impl View for PresetEditor {
    type V = PresetEditorView;

    open spec fn view(&self) -> PresetEditorView {
        PresetEditorView {
            preset_adding: self.preset_adding,
            preset_edit_idx: self.preset_edit_idx,
            preset_edit_buf: match self.preset_edit_buf {
                Some(p) => Some(p@),
                None => None,
            },
            active_preset_idx: self.active_preset_idx,
        }
    }
}

impl PresetEditor {
    /// Nothing being edited and no preset in use.
    pub fn new() -> (r: Self)
        ensures
            r@ == (PresetEditorView {
                preset_adding: false,
                preset_edit_idx: None,
                preset_edit_buf: None,
                active_preset_idx: None,
            }),
    {
        PresetEditor {
            preset_adding: false,
            preset_edit_idx: None,
            preset_edit_buf: None,
            active_preset_idx: None,
        }
    }
}

/// Whether a preset is listed in the section of `group`; a generic engine's section
/// (`generic_engine_name` given) lists the generic presets of that engine and those
/// bound to no engine.
pub open spec fn in_preset_group(p: PresetView, group: TtsEngineType, generic_engine_name: Option<Seq<char>>) -> bool {
    &&& p.engine == group
    &&& match generic_engine_name {
        Some(n) => p.generic_engine_name.len() == 0 || p.generic_engine_name == n,
        None => true,
    }
}

/// The positions, in order, of the first `n` presets that the section lists.
pub open spec fn group_indices(
    ps: Seq<PresetView>,
    group: TtsEngineType,
    generic_engine_name: Option<Seq<char>>,
    n: nat,
) -> Seq<usize>
    decreases n,
{
    if n == 0 {
        seq![]
    } else {
        let before = group_indices(ps, group, generic_engine_name, (n - 1) as nat);
        if in_preset_group(ps[n - 1], group, generic_engine_name) {
            before.push((n - 1) as usize)
        } else {
            before
        }
    }
}

/// The views of an optional string.
pub open spec fn opt_str_view(s: Option<&str>) -> Option<Seq<char>> {
    match s {
        Some(t) => Some(t@),
        None => None,
    }
}

fn in_group_exec(p: &SpeakerPreset, group: TtsEngineType, generic_engine_name: Option<&str>) -> (r: bool)
    ensures
        r == in_preset_group(p@, group, opt_str_view(generic_engine_name)),
{
    if p.engine != group {
        return false;
    }
    match generic_engine_name {
        Some(name) => p.generic_engine_name.as_str().unicode_len() == 0 || str_eq(
            p.generic_engine_name.as_str(),
            name,
        ),
        None => true,
    }
}

/// The positions of the presets that the section of `group` lists, in order.
pub fn preset_group_indices(
    presets: &Vec<SpeakerPreset>,
    group: TtsEngineType,
    generic_engine_name: Option<&str>,
) -> (r: Vec<usize>)
    ensures
        r@ == group_indices(
            presets_view(presets@),
            group,
            opt_str_view(generic_engine_name),
            presets@.len(),
        ),
{
    let ghost ps = presets_view(presets@);
    let mut r: Vec<usize> = Vec::new();
    let mut i: usize = 0;
    while i < presets.len()
        invariant
            ps == presets_view(presets@),
            i <= presets@.len(),
            r@ == group_indices(ps, group, opt_str_view(generic_engine_name), i as nat),
        decreases presets@.len() - i,
    {
        proof {
            assert(ps[i as int] == presets@[i as int]@);
        }
        if in_group_exec(&presets[i], group, generic_engine_name) {
            r.push(i);
        }
        i = i + 1;
    }
    r
}

/// Whether the section of `group` shows the editor: a preset of that engine kind is
/// being written or edited.
pub open spec fn editing_group(e: PresetEditorView, group: TtsEngineType) -> bool {
    &&& (e.preset_adding || e.preset_edit_idx is Some)
    &&& e.preset_edit_buf matches Some(b) && b.engine == group
}

/// Whether the section of `group` shows the editor (see `editing_group`).
pub fn is_editing_group(editor: &PresetEditor, group: TtsEngineType) -> (r: bool)
    ensures
        r == editing_group(editor@, group),
{
    (editor.preset_adding || editor.preset_edit_idx.is_some()) && match &editor.preset_edit_buf {
        Some(b) => b.engine == group,
        None => false,
    }
}

/// Whether the section of `group` offers to create a preset: nothing is being written
/// or edited.
pub fn can_start_new_preset(editor: &PresetEditor, group: TtsEngineType) -> (r: bool)
    ensures
        r == (!editing_group(editor@, group) && !editor@.preset_adding
            && editor@.preset_edit_idx is None),
{
    !is_editing_group(editor, group) && !editor.preset_adding && editor.preset_edit_idx.is_none()
}

/// The presets after saving the editor: a buffer with a non-blank name is appended
/// when a new preset is being written, or replaces the edited preset when its position
/// is in range; otherwise the presets stay as they are.
pub open spec fn committed_presets(ps: Seq<PresetView>, e: PresetEditorView) -> Seq<PresetView> {
    match e.preset_edit_buf {
        Some(b) => if is_blank(b.name) {
            ps
        } else if e.preset_adding {
            ps.push(b)
        } else {
            match e.preset_edit_idx {
                Some(i) => if i < ps.len() {
                    ps.update(i as int, b)
                } else {
                    ps
                },
                None => ps,
            }
        },
        None => ps,
    }
}

/// Saving the editor (see `committed_presets`). The editor is closed and its buffer
/// dropped; the result tells whether the settings are to be written, which is when the
/// buffer had a non-blank name.
pub fn commit_preset_edit(presets: &mut Vec<SpeakerPreset>, editor: &mut PresetEditor) -> (r: bool)
    ensures
        presets_view(final(presets)@) == committed_presets(presets_view(old(presets)@), old(editor)@),
        final(editor)@ == (PresetEditorView {
            preset_adding: false,
            preset_edit_idx: None,
            preset_edit_buf: None,
            active_preset_idx: old(editor)@.active_preset_idx,
        }),
        r == (old(editor)@.preset_edit_buf matches Some(b) && !is_blank(b.name)),
{
    let mut save = false;
    let ghost ps = presets_view(presets@);
    match editor.preset_edit_buf.take() {
        Some(preset) => {
            if !is_blank_str(preset.name.as_str()) {
                if editor.preset_adding {
                    let ghost b = preset@;
                    presets.push(preset);
                    proof {
                        assert(presets_view(presets@) =~= ps.push(b));
                    }
                } else {
                    match editor.preset_edit_idx {
                        Some(idx) => {
                            if idx < presets.len() {
                                let ghost b = preset@;
                                presets.set(idx, preset);
                                proof {
                                    assert(presets_view(presets@) =~= ps.update(idx as int, b));
                                }
                            }
                        },
                        None => {},
                    }
                }
                save = true;
            }
        },
        None => {},
    }
    editor.preset_adding = false;
    editor.preset_edit_idx = None;
    save
}

/// Cancelling the editor: it is closed and its buffer dropped.
pub fn cancel_preset_edit(editor: &mut PresetEditor)
    ensures
        final(editor)@ == (PresetEditorView {
            preset_adding: false,
            preset_edit_idx: None,
            preset_edit_buf: None,
            active_preset_idx: old(editor)@.active_preset_idx,
        }),
{
    editor.preset_adding = false;
    editor.preset_edit_idx = None;
    editor.preset_edit_buf = None;
}

/// Opening preset `i` for editing, unless it is open already: the buffer is a copy of
/// it and no new preset is being written.
pub fn start_preset_edit(presets: &Vec<SpeakerPreset>, editor: &mut PresetEditor, i: usize)
    requires
        old(editor)@.preset_edit_idx != Some(i) ==> i < presets@.len(),
    ensures
        old(editor)@.preset_edit_idx == Some(i) ==> final(editor)@ == old(editor)@,
        old(editor)@.preset_edit_idx != Some(i) ==> final(editor)@ == (PresetEditorView {
            preset_adding: false,
            preset_edit_idx: Some(i),
            preset_edit_buf: Some(presets@[i as int]@),
            active_preset_idx: old(editor)@.active_preset_idx,
        }),
{
    if editor.preset_edit_idx != Some(i) {
        editor.preset_edit_idx = Some(i);
        editor.preset_adding = false;
        editor.preset_edit_buf = Some(presets[i].duplicate());
    }
}

/// The preset in use after preset `i` is deleted: none when it was `i`, one less when
/// it came after `i`, the same otherwise.
pub open spec fn active_after_delete(active: Option<usize>, i: usize) -> Option<usize> {
    match active {
        Some(a) => if a == i {
            None
        } else if a > i {
            Some((a - 1) as usize)
        } else {
            Some(a)
        },
        None => None,
    }
}

/// Deleting preset `i`: it leaves the list, the preset in use is renumbered (see
/// `active_after_delete`), and the editor is closed when it held preset `i`. The
/// settings are then to be written.
pub fn delete_preset(presets: &mut Vec<SpeakerPreset>, editor: &mut PresetEditor, i: usize)
    requires
        i < old(presets)@.len(),
    ensures
        presets_view(final(presets)@) == presets_view(old(presets)@).remove(i as int),
        final(editor)@.active_preset_idx == active_after_delete(old(editor)@.active_preset_idx, i),
        final(editor)@.preset_adding == old(editor)@.preset_adding,
        old(editor)@.preset_edit_idx == Some(i) ==> final(editor)@.preset_edit_idx is None
            && final(editor)@.preset_edit_buf is None,
        old(editor)@.preset_edit_idx != Some(i) ==> final(editor)@.preset_edit_idx == old(
            editor,
        )@.preset_edit_idx && final(editor)@.preset_edit_buf == old(editor)@.preset_edit_buf,
{
    let ghost ps = presets_view(presets@);
    presets.remove(i);
    proof {
        assert(presets_view(presets@) =~= ps.remove(i as int));
    }
    match editor.active_preset_idx {
        Some(a) => {
            if a == i {
                editor.active_preset_idx = None;
            } else if a > i {
                editor.active_preset_idx = Some(a - 1);
            }
        },
        None => {},
    }
    if editor.preset_edit_idx == Some(i) {
        editor.preset_edit_idx = None;
        editor.preset_edit_buf = None;
    }
}

/// Deleting a preset other than the one in use leaves the same preset in use.
pub proof fn lemma_delete_keeps_active_preset(ps: Seq<PresetView>, active: usize, i: usize)
    requires
        i < ps.len(),
        active < ps.len(),
        active != i,
    ensures
        active_after_delete(Some(active), i) matches Some(b) && b < ps.remove(i as int).len()
            && ps.remove(i as int)[b as int] == ps[active as int],
{
}

/// The engine id a new preset of `group` gets: `generic:<name>` in the section of a
/// named generic engine, `generic` in a generic section without a name, the engine
/// kind's id otherwise.
pub open spec fn new_preset_engine_id(group: TtsEngineType, generic_engine_name: Option<Seq<char>>) -> Seq<char> {
    match group {
        TtsEngineType::Generic => match generic_engine_name {
            Some(n) => if n.len() > 0 {
                "generic:"@ + n
            } else {
                "generic"@
            },
            None => "generic"@,
        },
        _ => engine_id_of(group),
    }
}

/// The preset a new preset of `group` starts from: no name; the default speaker and
/// voice parameters of its engine kind (speaker 0 for Voiceger); the section's engine
/// id and generic engine name; no Voiceger emotion or reference audio.
pub open spec fn new_preset(c: crate::config::AppConfigView, group: TtsEngineType, generic_engine_name: Option<Seq<char>>) -> PresetView {
    PresetView {
        name: seq![],
        speaker_id: match group {
            TtsEngineType::Voicevox => c.speaker_id,
            TtsEngineType::Voiceger => 0,
            TtsEngineType::Generic => c.generic_speaker_id,
        },
        synth_params: match group {
            TtsEngineType::Generic => c.generic_synth_params,
            _ => c.synth_params,
        },
        engine: group,
        engine_id: new_preset_engine_id(group, generic_engine_name),
        voiceger_emotion: seq![],
        voiceger_ref_audio_override: seq![],
        generic_engine_name: match generic_engine_name {
            Some(n) => n,
            None => seq![],
        },
    }
}

/// A new preset starts from the voice of its own engine kind: a generic engine's
/// preset from the generic voice parameters and speaker, a VOICEVOX preset from the
/// VOICEVOX ones, a Voiceger preset from the VOICEVOX voice parameters and speaker 0;
/// it is of the section's engine kind, has no name, and belongs to the named generic
/// engine when one is given.
pub proof fn lemma_new_preset_voice(
    c: crate::config::AppConfigView,
    group: TtsEngineType,
    generic_engine_name: Option<Seq<char>>,
)
    ensures
        ({
            let r = new_preset(c, group, generic_engine_name);
            &&& group == TtsEngineType::Generic ==> r.synth_params == c.generic_synth_params
                && r.speaker_id == c.generic_speaker_id
            &&& group == TtsEngineType::Voicevox ==> r.synth_params == c.synth_params
                && r.speaker_id == c.speaker_id
            &&& group == TtsEngineType::Voiceger ==> r.synth_params == c.synth_params
                && r.speaker_id == 0
            &&& r.engine == group
            &&& r.name.len() == 0
            &&& generic_engine_name matches Some(n) ==> r.generic_engine_name == n
            &&& (generic_engine_name matches Some(n) ==> crate::text::trim(n) == n) ==> crate::config::parse_engine_id(
                r.engine_id,
            ) == Some(group)
        }),
{
    crate::config::lemma_engine_id_round_trip(group);
    if group == TtsEngineType::Generic {
        if let Some(n) = generic_engine_name {
            if n.len() > 0 && crate::text::trim(n) == n {
                crate::config::lemma_generic_prefixed_id(n);
            }
        }
    }
}

/// The preset a new preset starts from (see `new_preset`).
pub fn new_preset_buffer(config: &AppConfig, group: TtsEngineType, generic_engine_name: Option<&str>) -> (r: SpeakerPreset)
    ensures
        r@ == new_preset(config@, group, opt_str_view(generic_engine_name)),
        group == TtsEngineType::Generic ==> r@.synth_params == config@.generic_synth_params
            && r@.speaker_id == config@.generic_speaker_id,
        group != TtsEngineType::Generic ==> r@.synth_params == config@.synth_params,
        group == TtsEngineType::Voicevox ==> r@.speaker_id == config@.speaker_id,
        r@.engine == group,
{
    let speaker_id = match group {
        TtsEngineType::Voicevox => config.speaker_id,
        TtsEngineType::Voiceger => 0,
        TtsEngineType::Generic => config.generic_speaker_id,
    };
    let engine_id = match group {
        TtsEngineType::Generic => match generic_engine_name {
            Some(name) => if name.unicode_len() > 0 {
                concat_str(ENGINE_ID_GENERIC, ":").concat(name)
            } else {
                ENGINE_ID_GENERIC.to_owned()
            },
            None => ENGINE_ID_GENERIC.to_owned(),
        },
        _ => group.as_engine_id().to_owned(),
    };
    let synth_params = match group {
        TtsEngineType::Generic => config.generic_synth_params.duplicate(),
        _ => config.synth_params.duplicate(),
    };
    let name_of_engine = match generic_engine_name {
        Some(name) => name.to_owned(),
        None => String::new(),
    };
    proof {
        reveal_strlit("generic");
        reveal_strlit("generic:");
        reveal_strlit(":");
        assert("generic"@ + ":"@ =~= "generic:"@);
        assert(ENGINE_ID_GENERIC@ == "generic"@);
        assert(engine_id@ == new_preset_engine_id(group, opt_str_view(generic_engine_name)));
        assert(speaker_id == new_preset(config@, group, opt_str_view(generic_engine_name)).speaker_id);
        assert(synth_params@ == new_preset(config@, group, opt_str_view(generic_engine_name)).synth_params);
    }
    SpeakerPreset {
        name: String::new(),
        speaker_id,
        synth_params,
        engine: group,
        engine_id,
        voiceger_emotion: String::new(),
        voiceger_ref_audio_override: String::new(),
        generic_engine_name: name_of_engine,
    }
}

/// Starting a new preset of `group`: the editor is opened on `new_preset`.
pub fn start_new_preset(
    editor: &mut PresetEditor,
    config: &AppConfig,
    group: TtsEngineType,
    generic_engine_name: Option<&str>,
)
    ensures
        final(editor)@ == (PresetEditorView {
            preset_adding: true,
            preset_edit_idx: None,
            preset_edit_buf: Some(new_preset(config@, group, opt_str_view(generic_engine_name))),
            active_preset_idx: old(editor)@.active_preset_idx,
        }),
{
    editor.preset_adding = true;
    editor.preset_edit_idx = None;
    editor.preset_edit_buf = Some(new_preset_buffer(config, group, generic_engine_name));
}

/// Whether some preset belongs to engine kind `group`.
pub fn has_presets_for(presets: &Vec<SpeakerPreset>, group: TtsEngineType) -> (r: bool)
    ensures
        r == exists|i: int| 0 <= i < presets@.len() && (#[trigger] presets@[i]).engine == group,
{
    let mut i: usize = 0;
    while i < presets.len()
        invariant
            i <= presets@.len(),
            forall|j: int| 0 <= j < i ==> (#[trigger] presets@[j]).engine != group,
        decreases presets@.len() - i,
    {
        if presets[i].engine == group {
            return true;
        }
        i = i + 1;
    }
    false
}

} // verus!
