use zundamon_vrc::config::launch::{
    autostart_desktop_entry_for, autostart_desktop_path_for, conda_candidates_for,
    default_prompt_text_for, voiceger_api_script_for, voiceger_install_dir_for,
    voiceger_launch_cmd_for,
};
use zundamon_vrc::config::{
    soundboard_path_for, AppConfig, SpeakerPreset, SynthParamsConfig, TtsEngineType,
    ENGINE_ID_VOICEGER, ENGINE_ID_VOICEVOX,
};
use zundamon_vrc::json::{object_get, object_insert, JsonNumber, JsonValue};

fn float(x: f64) -> JsonNumber {
    JsonNumber::Float(x.to_bits())
}

fn string(s: &str) -> JsonValue {
    JsonValue::String(s.to_string())
}

fn object(entries: Vec<(&str, JsonValue)>) -> JsonValue {
    JsonValue::Object(entries.into_iter().map(|(k, v)| (k.to_string(), v)).collect())
}

fn get<'a>(v: &'a JsonValue, key: &str) -> Option<&'a JsonValue> {
    v.as_object().and_then(|o| object_get(o, key))
}

/// The settings read from a file that sets nothing: fields with a default of their own
/// get it, the others take the application defaults.
fn read_from_empty_file() -> AppConfig {
    let mut config = AppConfig::default_with_soundboard_path("sounds".to_string());
    config.active_engine_id = String::new();
    config.presets = Vec::new();
    config.generic_url_legacy = "http://localhost:10101".to_string();
    config.generic_engine_name_legacy = "その他".to_string();
    config
}

#[test]
fn migrates_legacy_engine_fields_to_generalized() {
    let mut config = read_from_empty_file();
    config.active_engine = TtsEngineType::Voiceger;
    config.presets.push(SpeakerPreset {
        name: "legacy-generic".to_string(),
        speaker_id: 7,
        synth_params: SynthParamsConfig {
            speed_scale: float(1.0),
            pitch_scale: float(0.0),
            intonation_scale: float(1.0),
            volume_scale: float(1.0),
            engine_params: JsonValue::new_object(),
        },
        engine: TtsEngineType::Generic,
        engine_id: String::new(),
        voiceger_emotion: "甘え".to_string(),
        voiceger_ref_audio_override: "/home/user/ref.wav".to_string(),
        generic_engine_name: "custom-engine".to_string(),
    });
    config.validate_and_sanitize();

    assert_eq!(config.active_engine_id, ENGINE_ID_VOICEGER);
    let preset = &config.presets[0];
    assert_eq!(preset.engine_id, "generic:custom-engine");
    assert_eq!(preset.engine, TtsEngineType::Generic);
    assert_eq!(
        get(&preset.synth_params.engine_params, "voiceger_emotion")
            .and_then(JsonValue::as_str)
            .map(|s| s.as_str()),
        Some("甘え")
    );
}

#[test]
fn applies_generalized_engine_configs_to_legacy_fields() {
    let mut config = read_from_empty_file();
    config.active_engine_id = "voicevox".to_string();
    object_insert(
        &mut config.engine_configs,
        "voicevox".to_string(),
        object(vec![
            ("url", string("http://127.0.0.1:50031")),
            ("path", string("/opt/voicevox/run")),
            ("auto_launch", JsonValue::Bool(true)),
        ]),
    );
    object_insert(
        &mut config.engine_configs,
        "voiceger".to_string(),
        object(vec![
            ("url", string("http://localhost:19999")),
            ("path", string("/opt/voiceger/run")),
            ("auto_launch", JsonValue::Bool(true)),
            ("ref_audio", string("/home/user/ref.wav")),
            ("prompt_text", string("hello")),
            ("prompt_lang", string("en")),
            ("ref_free", JsonValue::Bool(true)),
        ]),
    );
    object_insert(
        &mut config.engine_configs,
        "generic".to_string(),
        object(vec![
            ("active_engine_idx", JsonValue::Number(JsonNumber::PosInt(0))),
            ("speaker_id", JsonValue::Number(JsonNumber::PosInt(55))),
            (
                "engines",
                JsonValue::Array(vec![object(vec![
                    ("name", string("other")),
                    ("url", string("http://localhost:18000")),
                ])]),
            ),
            (
                "synth_params",
                object(vec![
                    ("speed_scale", JsonValue::Number(float(1.1))),
                    ("pitch_scale", JsonValue::Number(float(0.1))),
                    ("intonation_scale", JsonValue::Number(float(1.2))),
                    ("volume_scale", JsonValue::Number(float(0.9))),
                    ("engine_params", object(vec![("key", string("value"))])),
                ]),
            ),
        ]),
    );
    config.validate_and_sanitize();

    assert_eq!(config.voicevox_url, "http://127.0.0.1:50031");
    assert_eq!(config.voiceger_url, "http://localhost:19999");
    assert_eq!(config.generic_speaker_id, 55);
    assert_eq!(config.generic_engines[0].name, "other");
    assert_eq!(config.generic_synth_params.speed_scale, float(1.1));
    assert_eq!(
        get(&config.generic_synth_params.engine_params, "key")
            .and_then(JsonValue::as_str)
            .map(|s| s.as_str()),
        Some("value")
    );
}

#[test]
fn keeps_unknown_generalized_engine_data() {
    let mut config = AppConfig::default();
    object_insert(
        &mut config.engine_configs,
        "custom".to_string(),
        object(vec![
            ("enabled", JsonValue::Bool(true)),
            ("rate", JsonValue::Number(JsonNumber::PosInt(42))),
        ]),
    );
    object_insert(
        &mut config.engine_configs,
        ENGINE_ID_VOICEVOX.to_string(),
        object(vec![("custom_field", string("keep-me"))]),
    );

    config.validate_and_sanitize();

    assert_eq!(
        object_get(&config.engine_configs, "custom")
            .and_then(|v| get(v, "enabled"))
            .and_then(JsonValue::as_bool),
        Some(true)
    );
    assert_eq!(
        object_get(&config.engine_configs, ENGINE_ID_VOICEVOX)
            .and_then(|v| get(v, "custom_field"))
            .and_then(JsonValue::as_str)
            .map(|s| s.as_str()),
        Some("keep-me")
    );
}

#[test]
fn engine_ids_parse_case_insensitively_and_round_trip() {
    for t in [TtsEngineType::Voicevox, TtsEngineType::Voiceger, TtsEngineType::Generic] {
        assert_eq!(TtsEngineType::from_engine_id(t.as_engine_id()), Some(t));
    }
    assert_eq!(TtsEngineType::from_engine_id("  VoiceVox "), Some(TtsEngineType::Voicevox));
    assert_eq!(TtsEngineType::from_engine_id("GENERIC:my-engine"), Some(TtsEngineType::Generic));
    assert_eq!(TtsEngineType::from_engine_id("generic-x"), None);
    assert_eq!(TtsEngineType::from_engine_id(""), None);
}

#[test]
fn sanitizing_bounds_lists_and_repairs_fields() {
    let mut config = read_from_empty_file();
    config.virtual_device_name = "bad name".to_string();
    config.voicevox_url = "http://example.com:50021".to_string();
    config.templates = (0..120).map(|i| "t".repeat(i % 3 + 1)).collect();
    config.templates[0] = "x".repeat(600);
    config.generic_engines = Vec::new();
    config.generic_url_legacy = "http://localhost:12345".to_string();
    config.generic_engine_name_legacy = "legacy".to_string();
    config.active_generic_engine_idx = 7;
    config.validate_and_sanitize();

    assert_eq!(config.virtual_device_name, "ZundamonVRC");
    assert_eq!(config.voicevox_url, "http://127.0.0.1:50021");
    assert_eq!(config.templates.len(), 100);
    assert_eq!(config.templates[0].chars().count(), 512);
    assert_eq!(config.generic_engines.len(), 1);
    assert_eq!(config.generic_engines[0].name, "legacy");
    assert_eq!(config.generic_engines[0].url, "http://localhost:12345");
    assert_eq!(config.active_generic_engine_idx, 0);
    assert_eq!(config.presets.len(), AppConfig::default_presets().len());
    assert!(config.synth_params.engine_params.is_object());
}

#[test]
fn saving_then_reading_keeps_the_flat_fields() {
    let mut config = AppConfig::default_with_soundboard_path("sounds".to_string());
    config.voicevox_url = "http://localhost:50099".to_string();
    config.voiceger_prompt_lang = "en".to_string();
    config.generic_speaker_id = 9;
    config.sync_generalized_fields_for_save();
    let before_url = config.voicevox_url.clone();
    let before_lang = config.voiceger_prompt_lang.clone();
    config.apply_engine_configs_to_legacy();
    assert_eq!(config.voicevox_url, before_url);
    assert_eq!(config.voiceger_prompt_lang, before_lang);
    assert_eq!(config.generic_speaker_id, 9);
}

#[test]
fn active_generic_engine_name_falls_back() {
    let mut config = AppConfig::default_with_soundboard_path("sounds".to_string());
    assert_eq!(config.active_generic_name(), "その他");
    config.generic_engines[0].name = "selfvox".to_string();
    assert_eq!(config.active_generic_name(), "selfvox");
    assert!(config.active_generic_config().is_some());
    config.active_generic_engine_idx = 5;
    assert!(config.active_generic_config().is_none());
    assert_eq!(config.active_generic_name(), "その他");
}

#[test]
fn defaults_match_the_application_defaults() {
    let config = AppConfig::default_with_soundboard_path("/tmp/sounds".to_string());
    assert_eq!(config.voicevox_url, "http://127.0.0.1:50021");
    assert_eq!(config.speaker_id, 3);
    assert!(config.auto_launch_voicevox);
    assert!(!config.auto_launch_voiceger);
    assert!(!config.auto_start_app);
    assert_eq!(config.osc_port, 9000);
    assert_eq!(config.templates.len(), 4);
    assert_eq!(config.active_engine_id, "voicevox");
    assert_eq!(config.echo_decay, float(0.4));
    assert_eq!(config.target_lufs, float(-14.0));
    assert_eq!(config.window_width, float(560.0));
    assert_eq!(config.soundboard_path, "/tmp/sounds");
    assert_eq!(soundboard_path_for(Some("/home/u/.config/zundux_tts")), "/home/u/.config/zundux_tts/sounds");
    assert_eq!(soundboard_path_for(None), "sounds");
}

#[test]
fn voiceger_paths_and_commands() {
    assert_eq!(voiceger_install_dir_for(Some("/home/u")), "/home/u/voiceger_v2");
    assert_eq!(voiceger_install_dir_for(None), "./voiceger_v2");
    assert_eq!(
        voiceger_api_script_for("/home/u/voiceger_v2"),
        "/home/u/voiceger_v2/GPT-SoVITS/api_v2.py"
    );
    assert_eq!(
        conda_candidates_for("/home/u"),
        vec!["conda", "/home/u/miniconda3/bin/conda", "/home/u/anaconda3/bin/conda"]
    );
    assert_eq!(
        voiceger_launch_cmd_for(Some("conda"), "/x/api_v2.py"),
        "conda run -n voiceger --no-capture-output python /x/api_v2.py"
    );
    assert_eq!(voiceger_launch_cmd_for(None, "/x/api_v2.py"), "python /x/api_v2.py");
    assert_eq!(default_prompt_text_for(Some("  hi  ")), "hi");
    assert_eq!(default_prompt_text_for(Some("   ")), "私はいつもミネラルウォーターを持ち歩いています");
}

#[test]
fn voiceger_base_dir_from_launch_command() {
    let mut config = AppConfig::default_with_soundboard_path("s".to_string());
    config.voiceger_path = "python /home/user/voiceger_v2/GPT-SoVITS/api_v2.py".to_string();
    assert_eq!(config.voiceger_base_dir(None), Some("/home/user/voiceger_v2".to_string()));
    config.voiceger_path = "python /home/user/voiceger_v2/api.py".to_string();
    assert_eq!(config.voiceger_base_dir(None), Some("/home/user/voiceger_v2".to_string()));
    config.voiceger_path = "python /home/user/voiceger_v2/GPT-SoVITS/api_v2.py".to_string();
    assert_eq!(
        config.default_voiceger_ref_audio(None),
        "/home/user/voiceger_v2/reference/01_ref_emoNormal026.wav"
    );
    config.voiceger_path = "  ".to_string();
    assert_eq!(config.voiceger_base_dir(Some("/d".to_string())), Some("/d".to_string()));
    config.voiceger_path = "'unterminated".to_string();
    assert_eq!(config.voiceger_base_dir(None), None);
    config.voiceger_path = "run.sh".to_string();
    assert_eq!(config.effective_voiceger_launch_cmd("default"), "run.sh");
    config.voiceger_path = String::new();
    assert_eq!(config.effective_voiceger_launch_cmd("default"), "default");
}

#[test]
fn resetting_voiceger_defaults() {
    let mut config = AppConfig::default_with_soundboard_path("s".to_string());
    config.voiceger_prompt_lang = "en".to_string();
    config.reset_voiceger_defaults(Some("/v".to_string()), Some("text\n".to_string()));
    assert_eq!(config.voiceger_ref_audio, "/v/reference/01_ref_emoNormal026.wav");
    assert_eq!(config.voiceger_prompt_text, "text");
    assert_eq!(config.voiceger_prompt_lang, "ja");
}

#[test]
fn autostart_entry() {
    assert_eq!(
        autostart_desktop_path_for("/home/u"),
        "/home/u/.config/autostart/zundux_tts.desktop"
    );
    assert_eq!(
        autostart_desktop_entry_for("/usr/bin/app"),
        "[Desktop Entry]\nType=Application\nName=ZunduxTTS\nComment=VOICEVOX TTS virtual microphone\nExec=/usr/bin/app\nTerminal=false\nX-GNOME-Autostart-enabled=true\n"
    );
}

#[test]
fn loaded_settings_survive_save_and_load() {
    let mut config = read_from_empty_file();
    config.active_engine_id = " Generic:selfvox ".to_string();
    config.templates = vec!["x".repeat(700), "  ".to_string()];
    config.presets.push(SpeakerPreset {
        name: "名".repeat(70),
        speaker_id: 1,
        synth_params: SynthParamsConfig {
            speed_scale: float(1.0),
            pitch_scale: float(0.0),
            intonation_scale: float(1.0),
            volume_scale: float(1.0),
            engine_params: JsonValue::Null,
        },
        engine: TtsEngineType::Voiceger,
        engine_id: "VOICEGER".to_string(),
        voiceger_emotion: String::new(),
        voiceger_ref_audio_override: "/r.wav".to_string(),
        generic_engine_name: String::new(),
    });
    object_insert(
        &mut config.engine_configs,
        "voiceger".to_string(),
        object(vec![("extra", JsonValue::Number(JsonNumber::NegInt(-3)))]),
    );
    config.validate_and_sanitize();
    let loaded = format!("{:?}", config);

    config.sync_generalized_fields_for_save();
    assert_eq!(format!("{:?}", config), loaded);
    config.validate_and_sanitize();
    assert_eq!(format!("{:?}", config), loaded);
    assert_eq!(config.presets[0].engine_id, "voiceger");
    assert_eq!(config.presets[0].name.chars().count(), 64);
    assert_eq!(config.active_engine, TtsEngineType::Generic);
}
