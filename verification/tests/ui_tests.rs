use zundamon_vrc::config::{AppConfig, GenericEngineConfig, SpeakerPreset, TtsEngineType};
use zundamon_vrc::ui::input::{can_send, preset_speaker_label, speaker_choice_label, take_message};
use zundamon_vrc::ui::media::{can_capture, media_play_request, sink_input_label, soundboard_enabled};
use zundamon_vrc::ui::presets::{
    can_start_new_preset, cancel_preset_edit, commit_preset_edit, delete_preset, has_presets_for,
    is_editing_group, new_preset_buffer, preset_group_indices, start_new_preset,
    start_preset_edit, PresetEditor,
};
use zundamon_vrc::ui::settings::{
    active_engine_name, add_generic_engine, add_template, add_voiceger_dict_entry,
    apply_osc_port_text, dict_word_request, inactive_notice, is_white, mic_source_label,
    parse_u16_str, remove_generic_engine, remove_voiceger_dict_entry, restart_label, rgb_hex,
    with_rgb, EngineRemoval,
};
use zundamon_vrc::ui::Screen;
use zundamon_vrc::tts::types::{Speaker, Style};

fn config() -> AppConfig {
    AppConfig::default_with_soundboard_path("sounds".to_string())
}

fn named(config: &AppConfig, name: &str, engine: TtsEngineType, generic: &str) -> SpeakerPreset {
    let mut p = new_preset_buffer(config, engine, None);
    p.name = name.to_string();
    p.generic_engine_name = generic.to_string();
    p
}

#[test]
fn preset_sections_list_their_presets() {
    let c = config();
    let presets = vec![
        named(&c, "a", TtsEngineType::Voicevox, ""),
        named(&c, "b", TtsEngineType::Generic, ""),
        named(&c, "c", TtsEngineType::Generic, "selfvox"),
        named(&c, "d", TtsEngineType::Generic, "other"),
        named(&c, "e", TtsEngineType::Voicevox, ""),
    ];
    assert_eq!(preset_group_indices(&presets, TtsEngineType::Voicevox, None), vec![0, 4]);
    assert_eq!(preset_group_indices(&presets, TtsEngineType::Generic, Some("selfvox")), vec![1, 2]);
    assert_eq!(preset_group_indices(&presets, TtsEngineType::Generic, None), vec![1, 2, 3]);
    assert!(preset_group_indices(&presets, TtsEngineType::Voiceger, None).is_empty());
    assert!(has_presets_for(&presets, TtsEngineType::Voicevox));
    assert!(!has_presets_for(&presets, TtsEngineType::Voiceger));
}

#[test]
fn deleting_a_preset_keeps_the_active_one() {
    let c = config();
    let mut presets = vec![
        named(&c, "a", TtsEngineType::Voicevox, ""),
        named(&c, "b", TtsEngineType::Voicevox, ""),
        named(&c, "c", TtsEngineType::Voicevox, ""),
    ];
    let mut editor = PresetEditor::new();
    editor.active_preset_idx = Some(2);
    delete_preset(&mut presets, &mut editor, 0);
    assert_eq!(presets.len(), 2);
    assert_eq!(editor.active_preset_idx, Some(1));
    assert_eq!(presets[1].name, "c");
    delete_preset(&mut presets, &mut editor, 1);
    assert_eq!(editor.active_preset_idx, None);
}

#[test]
fn deleting_the_edited_preset_closes_the_editor() {
    let c = config();
    let mut presets = vec![named(&c, "a", TtsEngineType::Voicevox, ""), named(&c, "b", TtsEngineType::Voicevox, "")];
    let mut editor = PresetEditor::new();
    start_preset_edit(&presets, &mut editor, 1);
    assert_eq!(editor.preset_edit_idx, Some(1));
    assert_eq!(editor.preset_edit_buf.as_ref().unwrap().name, "b");
    assert!(is_editing_group(&editor, TtsEngineType::Voicevox));
    assert!(!is_editing_group(&editor, TtsEngineType::Voiceger));
    delete_preset(&mut presets, &mut editor, 1);
    assert_eq!(editor.preset_edit_idx, None);
    assert!(editor.preset_edit_buf.is_none());
}

#[test]
fn saving_edits_and_new_presets() {
    let c = config();
    let mut presets = vec![named(&c, "a", TtsEngineType::Voicevox, "")];
    let mut editor = PresetEditor::new();

    start_preset_edit(&presets, &mut editor, 0);
    editor.preset_edit_buf.as_mut().unwrap().name = "renamed".to_string();
    assert!(commit_preset_edit(&mut presets, &mut editor));
    assert_eq!(presets[0].name, "renamed");
    assert!(editor.preset_edit_buf.is_none());

    assert!(can_start_new_preset(&editor, TtsEngineType::Generic));
    start_new_preset(&mut editor, &c, TtsEngineType::Generic, Some("selfvox"));
    assert!(!can_start_new_preset(&editor, TtsEngineType::Generic));
    assert_eq!(editor.preset_edit_buf.as_ref().unwrap().engine_id, "generic:selfvox");
    assert!(!commit_preset_edit(&mut presets, &mut editor));
    assert_eq!(presets.len(), 1);

    start_new_preset(&mut editor, &c, TtsEngineType::Voiceger, None);
    editor.preset_edit_buf.as_mut().unwrap().name = "vg".to_string();
    assert!(commit_preset_edit(&mut presets, &mut editor));
    assert_eq!(presets.len(), 2);
    assert_eq!(presets[1].engine_id, "voiceger");
    assert_eq!(presets[1].speaker_id, 0);

    start_new_preset(&mut editor, &c, TtsEngineType::Voicevox, None);
    cancel_preset_edit(&mut editor);
    assert!(!editor.preset_adding && editor.preset_edit_buf.is_none());
}

#[test]
fn new_generic_preset_without_engine_name() {
    let mut c = config();
    c.generic_speaker_id = 4;
    let p = new_preset_buffer(&c, TtsEngineType::Generic, Some(""));
    assert_eq!(p.engine_id, "generic");
    assert_eq!(p.speaker_id, 4);
    let v = new_preset_buffer(&c, TtsEngineType::Voicevox, None);
    assert_eq!(v.engine_id, "voicevox");
    assert_eq!(v.speaker_id, 3);
}

#[test]
fn generic_engine_list_management() {
    let mut c = config();
    assert!(add_generic_engine(&mut c));
    assert_eq!(c.generic_engines[1].name, "エンジン2");
    assert_eq!(c.generic_engines[1].url, "http://localhost:10101");
    c.active_engine = TtsEngineType::Generic;
    c.active_generic_engine_idx = 1;
    assert_eq!(remove_generic_engine(&mut c, 1), EngineRemoval::Recheck);
    assert_eq!(c.active_generic_engine_idx, 0);
    assert_eq!(remove_generic_engine(&mut c, 0), EngineRemoval::SwitchToVoicevox);
    assert!(c.generic_engines.is_empty());
    assert_eq!(c.active_generic_engine_idx, 0);
    c.active_engine = TtsEngineType::Voicevox;
    c.generic_engines = (0..20)
        .map(|i| GenericEngineConfig { name: format!("e{i}"), url: String::new() })
        .collect();
    assert!(!add_generic_engine(&mut c));
    assert_eq!(c.generic_engines.len(), 20);
    assert_eq!(remove_generic_engine(&mut c, 3), EngineRemoval::Nothing);
}

#[test]
fn voiceger_dictionary_entries() {
    let mut c = config();
    assert!(add_voiceger_dict_entry(&mut c, "ja", " 草 ", " くさ "));
    assert!(add_voiceger_dict_entry(&mut c, "ja", "草", "わら"));
    assert_eq!(c.voiceger_dict.len(), 1);
    assert_eq!(c.voiceger_dict[0].0, "ja");
    assert_eq!(c.voiceger_dict[0].1, vec![("草".to_string(), "わら".to_string())]);
    assert!(add_voiceger_dict_entry(&mut c, "ja", "えーと", "{silent}"));
    assert!(add_voiceger_dict_entry(&mut c, "en", "えーと", "{silent}"));
    assert_eq!(c.silent_words, vec!["えーと".to_string()]);
    assert!(!add_voiceger_dict_entry(&mut c, "ja", "  ", "x"));
    remove_voiceger_dict_entry(&mut c, "ja", "草");
    assert!(c.voiceger_dict[0].1.is_empty());
    remove_voiceger_dict_entry(&mut c, "ko", "草");
    assert_eq!(c.voiceger_dict.len(), 1);
    assert_eq!(dict_word_request(" 表記 ", "ひょうき"), Some(("表記".to_string(), "ひょうき".to_string())));
    assert_eq!(dict_word_request("表記", " "), None);
}

#[test]
fn templates_ports_and_notices() {
    let mut c = config();
    let mut templates = vec!["a".to_string()];
    assert!(add_template(&mut templates, "  hello  "));
    assert!(!add_template(&mut templates, "   "));
    assert_eq!(templates, vec!["a".to_string(), "hello".to_string()]);

    apply_osc_port_text(&mut c, "9001");
    assert_eq!(c.osc_port, 9001);
    apply_osc_port_text(&mut c, "70000");
    assert_eq!(c.osc_port, 9001);
    apply_osc_port_text(&mut c, "x");
    assert_eq!(c.osc_port, 9001);
    assert_eq!(parse_u16_str("+65535"), Some(65535));
    assert_eq!(parse_u16_str("-1"), None);
    assert_eq!(parse_u16_str(""), None);

    assert_eq!(active_engine_name(&c), "VOICEVOX");
    c.active_engine = TtsEngineType::Generic;
    c.generic_engines[0].name = "selfvox".to_string();
    assert_eq!(inactive_notice(&c), "現在 selfvox を使用中のため変更できません");
    assert_eq!(restart_label(TtsEngineType::Voiceger), Some("再起動"));
    assert_eq!(restart_label(TtsEngineType::Generic), None);
}

#[test]
fn microphone_choice_label() {
    let sources = vec![
        ("alsa_input.a".to_string(), "Built-in".to_string()),
        ("alsa_input.b".to_string(), "USB".to_string()),
    ];
    assert_eq!(mic_source_label(&sources, &Some("alsa_input.b".to_string())), "USB");
    assert_eq!(mic_source_label(&sources, &Some("missing".to_string())), "未選択");
    assert_eq!(mic_source_label(&sources, &None), "未選択");
}

#[test]
fn colour_fields() {
    assert_eq!(rgb_hex([0x12, 0xAB, 0x0F, 0x80]), "#12AB0F");
    assert_eq!(with_rgb([1, 2, 3, 4], [9, 8, 7, 6]), [9, 8, 7, 4]);
    assert!(is_white([255, 255, 255, 0]));
    assert!(!is_white([255, 254, 255, 255]));
}

#[test]
fn speaker_labels_and_sending() {
    let speakers = vec![
        Speaker {
            name: "ずんだもん".to_string(),
            speaker_uuid: "u1".to_string(),
            styles: vec![Style { name: "ノーマル".to_string(), id: 3 }, Style { name: "あまあま".to_string(), id: 1 }],
        },
        Speaker {
            name: "めたん".to_string(),
            speaker_uuid: "u2".to_string(),
            styles: vec![Style { name: "ノーマル".to_string(), id: 2 }],
        },
    ];
    assert_eq!(speaker_choice_label(&speakers, 2), "めたん (ノーマル)");
    assert_eq!(speaker_choice_label(&speakers, 99), "ID: 99");
    assert_eq!(preset_speaker_label(&speakers, 1), "ずんだもん - あまあま");
    assert_eq!(preset_speaker_label(&speakers, 7), "Speaker ID: 7");

    let mut input = "  こんにちは\n".to_string();
    assert!(can_send(&input, false));
    assert!(!can_send(&input, true));
    assert_eq!(take_message(&mut input), Some("こんにちは".to_string()));
    assert!(input.is_empty());
    let mut blank = " \n".to_string();
    assert_eq!(take_message(&mut blank), None);
    assert_eq!(blank, " \n");
}

#[test]
fn media_screen_decisions() {
    assert_eq!(media_play_request(" https://x ", false, true, true), Some("https://x".to_string()));
    assert_eq!(media_play_request("https://x", true, true, true), None);
    assert_eq!(media_play_request("https://x", false, false, true), None);
    assert_eq!(media_play_request("  ", false, true, true), None);
    assert!(can_capture(false, true));
    assert!(!can_capture(true, true));
    assert_eq!(sink_input_label("Firefox", 12), "Firefox (ID: 12)");
    assert!(soundboard_enabled(false, false));
    assert!(!soundboard_enabled(true, false));
    assert_ne!(Screen::Input, Screen::Settings);
}
