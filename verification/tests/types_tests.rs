use zundamon_vrc::config::AppConfig;
use zundamon_vrc::json::JsonNumber;
use zundamon_vrc::tts::types::{AudioFormat, EngineCapabilities, SynthError, SynthParams, SynthResult};

#[test]
fn into_wav_bytes_returns_audio_for_wav() {
    let bytes = vec![1, 2, 3];
    let result = SynthResult::new(bytes.clone(), AudioFormat::Wav);

    let wav = result.into_wav_bytes().unwrap();
    assert_eq!(wav, bytes);
}

#[test]
fn into_wav_bytes_errors_for_non_wav() {
    let result = SynthResult::new(vec![1, 2, 3], AudioFormat::Mp3);

    assert!(result.into_wav_bytes().is_err());
}

#[test]
fn capabilities_supports_format_checks_membership() {
    let capabilities = EngineCapabilities {
        supports_speaker_list: true,
        requires_api_key: false,
        supported_output_formats: vec![AudioFormat::Wav, AudioFormat::Ogg],
        supports_user_dict: false,
        launchable: true,
    };

    assert!(capabilities.supports_format(AudioFormat::Wav));
    assert!(!capabilities.supports_format(AudioFormat::Mp3));
}

#[test]
fn non_wav_error_names_the_format() {
    let err = SynthResult::new(vec![9], AudioFormat::Opus).into_wav_bytes().unwrap_err();
    assert!(matches!(err, SynthError::NotWav(AudioFormat::Opus)));
    assert_eq!(err.message(), "Audio format Opus is not WAV");
}

#[test]
fn capabilities_copy_keeps_content() {
    let capabilities = EngineCapabilities {
        supports_speaker_list: false,
        requires_api_key: true,
        supported_output_formats: vec![AudioFormat::Pcm],
        supports_user_dict: true,
        launchable: false,
    };
    assert_eq!(capabilities.duplicate(), capabilities);
}

#[test]
fn synth_params_from_config_use_each_engine_defaults() {
    let mut config = AppConfig::default_with_soundboard_path("sounds".to_string());
    config.speaker_id = 8;
    config.generic_speaker_id = 12;
    config.voiceger_ref_free = true;
    config.synth_params.speed_scale = JsonNumber::Float(1.5f64.to_bits());
    config.generic_synth_params.pitch_scale = JsonNumber::Float(0.1f64.to_bits());

    let vox = SynthParams::from_config(&config);
    assert_eq!(vox.speaker_id, 8);
    assert_eq!(vox.speed_scale, JsonNumber::Float(1.5f64.to_bits()));
    assert!(vox.voiceger_ref_free);
    assert!(vox.aux_ref_audio.is_none());

    let generic = SynthParams::from_config_generic(&config);
    assert_eq!(generic.speaker_id, 12);
    assert_eq!(generic.pitch_scale, JsonNumber::Float(0.1f64.to_bits()));
    assert_eq!(generic.speed_scale, JsonNumber::Float(1.0f64.to_bits()));
    assert!(!generic.voiceger_ref_free);
}
