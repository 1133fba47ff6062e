use zundamon_vrc::validation;
use zundamon_vrc::validation::{ConfigFileError, VoicevoxUrlError};

#[test]
fn valid_device_names() {
    assert!(validation::is_valid_device_name("ZundamonVRC"));
    assert!(validation::is_valid_device_name("my-device_01"));
    assert!(validation::is_valid_device_name("a"));
}

#[test]
fn invalid_device_names() {
    assert!(!validation::is_valid_device_name(""));
    assert!(!validation::is_valid_device_name("has spaces"));
    assert!(!validation::is_valid_device_name("semi;colon"));
    assert!(!validation::is_valid_device_name("eq=uals"));
    assert!(!validation::is_valid_device_name(&"a".repeat(65)));
}

#[test]
fn valid_voicevox_urls() {
    assert!(validation::is_valid_voicevox_url("http://127.0.0.1:50021").is_ok());
    assert!(validation::is_valid_voicevox_url("http://localhost:50021").is_ok());
    assert!(validation::is_valid_voicevox_url("http://[::1]:50021").is_ok());
}

#[test]
fn invalid_voicevox_urls() {
    assert!(validation::is_valid_voicevox_url("http://evil.com:50021").is_err());
    assert!(validation::is_valid_voicevox_url("https://127.0.0.1:50021").is_err());
    assert!(validation::is_valid_voicevox_url("ftp://127.0.0.1").is_err());
    assert!(validation::is_valid_voicevox_url("not a url").is_err());
}

#[test]
fn sanitize_device_name_fallback() {
    assert_eq!(validation::sanitize_device_name("valid-name"), "valid-name");
    assert_eq!(validation::sanitize_device_name("has spaces"), "ZundamonVRC");
    assert_eq!(validation::sanitize_device_name(""), "ZundamonVRC");
}

#[test]
fn device_name_length_limit_is_64() {
    assert!(validation::is_valid_device_name(&"a".repeat(64)));
    assert!(!validation::is_valid_device_name("ずんだもん"));
}

#[test]
fn sanitized_device_names_are_valid() {
    for name in ["ok_name", "bad name", "", "ü", "x-1"] {
        assert!(validation::is_valid_device_name(validation::sanitize_device_name(name)));
    }
}

#[test]
fn voicevox_url_error_kinds_and_messages() {
    match validation::is_valid_voicevox_url("not a url") {
        Err(e @ VoicevoxUrlError::InvalidUrl(_)) => {
            assert_eq!(e.message(), "Invalid URL: relative URL without a base");
        }
        other => panic!("unexpected result {:?}", other),
    }
    match validation::is_valid_voicevox_url("https://127.0.0.1:50021") {
        Err(e @ VoicevoxUrlError::SchemeNotHttp(_)) => {
            assert_eq!(e.message(), "VOICEVOX URL must use http scheme, got: https");
        }
        other => panic!("unexpected result {:?}", other),
    }
    match validation::is_valid_voicevox_url("http://evil.com:50021") {
        Err(e @ VoicevoxUrlError::HostNotLocal(_)) => {
            assert_eq!(e.message(), "VOICEVOX URL must point to localhost, got: evil.com");
        }
        other => panic!("unexpected result {:?}", other),
    }
    assert_eq!(VoicevoxUrlError::NoHost.message(), "VOICEVOX URL has no host");
}

#[test]
fn voicevox_url_parts_decide_acceptance() {
    assert!(validation::check_voicevox_url_parts("http", Some("localhost")).is_ok());
    assert!(validation::check_voicevox_url_parts("http", Some("127.0.0.1")).is_ok());
    assert!(validation::check_voicevox_url_parts("http", Some("[::1]")).is_ok());
    assert!(matches!(
        validation::check_voicevox_url_parts("http", None),
        Err(VoicevoxUrlError::NoHost)
    ));
    assert!(matches!(
        validation::check_voicevox_url_parts("file", Some("localhost")),
        Err(VoicevoxUrlError::SchemeNotHttp(_))
    ));
}

#[test]
fn config_file_size_limit() {
    assert!(validation::check_config_file_size(0).is_ok());
    assert!(validation::check_config_file_size(1_048_576).is_ok());
    match validation::check_config_file_size(1_048_577) {
        Err(e @ ConfigFileError::TooLarge(1_048_577)) => {
            assert_eq!(e.message(), "Config file too large: 1048577 bytes (max 1048576 bytes)");
        }
        other => panic!("unexpected result {:?}", other),
    }
}
