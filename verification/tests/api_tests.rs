use zundamon_vrc::json::{object_get, JsonNumber, JsonValue};
use zundamon_vrc::tts::api::{apply_synth_params, endpoint_url, normalize_base_url, speaker_query_value};
use zundamon_vrc::tts::types::SynthParams;

fn params() -> SynthParams {
    SynthParams {
        speaker_id: 3,
        speed_scale: JsonNumber::Float(1.2f64.to_bits()),
        pitch_scale: JsonNumber::Float(0.0f64.to_bits()),
        intonation_scale: JsonNumber::Float(f64::NAN.to_bits()),
        volume_scale: JsonNumber::PosInt(1),
        aux_ref_audio: None,
        voiceger_ref_free: false,
    }
}

#[test]
fn base_urls_lose_trailing_slashes() {
    assert_eq!(normalize_base_url("http://localhost:50021///"), "http://localhost:50021");
    assert_eq!(normalize_base_url("http://localhost:50021"), "http://localhost:50021");
    assert_eq!(normalize_base_url("///"), "");
    assert_eq!(endpoint_url("http://h", "version"), "http://h/version");
    assert_eq!(speaker_query_value(42), "42");
}

#[test]
fn synth_params_are_written_into_the_query() {
    let mut query = JsonValue::Object(vec![
        ("accent_phrases".to_string(), JsonValue::Array(Vec::new())),
        ("speedScale".to_string(), JsonValue::Number(JsonNumber::PosInt(1))),
    ]);
    apply_synth_params(&mut query, &params());
    let entries = query.as_object().unwrap();
    assert_eq!(entries.len(), 5);
    assert!(matches!(
        object_get(entries, "speedScale"),
        Some(JsonValue::Number(JsonNumber::Float(b))) if *b == 1.2f64.to_bits()
    ));
    assert!(matches!(object_get(entries, "intonationScale"), Some(JsonValue::Null)));
    assert!(matches!(
        object_get(entries, "volumeScale"),
        Some(JsonValue::Number(JsonNumber::PosInt(1)))
    ));
}

#[test]
fn non_object_query_is_left_alone() {
    let mut query = JsonValue::Array(Vec::new());
    apply_synth_params(&mut query, &params());
    assert!(matches!(query, JsonValue::Array(ref v) if v.is_empty()));
}
