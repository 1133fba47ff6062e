use zundamon_vrc::config::codec::synth_params_from_json;
use zundamon_vrc::config::AppConfig;
use zundamon_vrc::json::{object_get, object_insert, JsonNumber, JsonValue};
use zundamon_vrc::numeric::{double_bits_of_i64, to_double};

#[test]
fn whole_numbers_become_the_nearest_double() {
    let cases: Vec<i64> = vec![
        0,
        1,
        -1,
        2,
        3,
        7,
        100,
        -250,
        (1i64 << 53) - 1,
        1i64 << 53,
        (1i64 << 53) + 1,
        (1i64 << 53) + 3,
        (1i64 << 54) + 2,
        (1i64 << 54) + 6,
        i64::MAX,
        i64::MIN,
        -((1i64 << 53) + 1),
        1234567890123456789,
    ];
    for x in cases {
        assert_eq!(double_bits_of_i64(x), (x as f64).to_bits(), "{x}");
    }
}

#[test]
fn unsigned_numbers_become_the_nearest_double() {
    let cases: Vec<u64> = vec![0, 1, 42, u64::MAX, u64::MAX - 1024, (1u64 << 63) + 1025, 1u64 << 63];
    for u in cases {
        assert_eq!(to_double(JsonNumber::PosInt(u)), JsonNumber::Float((u as f64).to_bits()), "{u}");
    }
    assert_eq!(to_double(JsonNumber::NegInt(-3)), JsonNumber::Float((-3.0f64).to_bits()));
    assert_eq!(to_double(JsonNumber::Float(0.25f64.to_bits())), JsonNumber::Float(0.25f64.to_bits()));
}

#[test]
fn whole_scales_are_read_as_doubles() {
    let v = JsonValue::Object(vec![
        ("speed_scale".to_string(), JsonValue::Number(JsonNumber::PosInt(1))),
        ("pitch_scale".to_string(), JsonValue::Number(JsonNumber::NegInt(-1))),
    ]);
    let p = synth_params_from_json(&v).unwrap();
    assert_eq!(p.speed_scale, JsonNumber::Float(1.0f64.to_bits()));
    assert_eq!(p.pitch_scale, JsonNumber::Float((-1.0f64).to_bits()));
    assert_eq!(p.intonation_scale, JsonNumber::Float(1.0f64.to_bits()));
    assert_eq!(p.volume_scale, JsonNumber::Float(1.0f64.to_bits()));
}

#[test]
fn whole_generic_scales_are_written_back_as_doubles() {
    let mut config = AppConfig::default_with_soundboard_path("s".to_string());
    config.active_engine_id = "generic".to_string();
    object_insert(
        &mut config.engine_configs,
        "generic".to_string(),
        JsonValue::Object(vec![(
            "synth_params".to_string(),
            JsonValue::Object(vec![("speed_scale".to_string(), JsonValue::Number(JsonNumber::PosInt(2)))]),
        )]),
    );
    config.validate_and_sanitize();
    assert_eq!(config.generic_synth_params.speed_scale, JsonNumber::Float(2.0f64.to_bits()));
    let generic = object_get(&config.engine_configs, "generic").unwrap();
    let params = entries(generic).and_then(|e| object_get(e, "synth_params")).unwrap();
    assert!(matches!(
        entries(params).and_then(|e| object_get(e, "speed_scale")),
        Some(JsonValue::Number(JsonNumber::Float(b))) if *b == 2.0f64.to_bits()
    ));
}

fn entries(v: &JsonValue) -> Option<&Vec<(String, JsonValue)>> {
    match v {
        JsonValue::Object(e) => Some(e),
        _ => None,
    }
}
