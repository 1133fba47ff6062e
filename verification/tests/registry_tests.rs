use std::sync::atomic::{AtomicUsize, Ordering};
use std::sync::Arc;
use zundamon_vrc::tts::generic::GenericEngine;
use zundamon_vrc::tts::registry::{
    EngineInfo, EngineMetadata, EngineProvider, EngineRegistry, RegistryError,
};
use zundamon_vrc::tts::types::{AudioFormat, EngineCapabilities};
use zundamon_vrc::tts::voicevox::VoicevoxEngine;

#[derive(Clone)]
struct TestEngine {
    id: &'static str,
    name: &'static str,
}

impl EngineInfo for TestEngine {
    fn engine_id(&self) -> &'static str {
        self.id
    }

    fn display_name(&self) -> &'static str {
        self.name
    }

    fn capabilities(&self) -> EngineCapabilities {
        EngineCapabilities {
            supports_speaker_list: false,
            requires_api_key: false,
            supported_output_formats: vec![AudioFormat::Wav],
            supports_user_dict: false,
            launchable: false,
        }
    }
}

type TestRegistry = EngineRegistry<Box<dyn Fn() -> TestEngine>, TestEngine>;

#[test]
fn register_instance_exposes_metadata_and_engine() {
    let mut registry: TestRegistry = EngineRegistry::new();
    registry
        .register_instance(TestEngine {
            id: "test-instance",
            name: "Test Instance",
        })
        .unwrap();

    assert_eq!(
        registry.display_name("test-instance"),
        Some("Test Instance")
    );
    assert!(registry.create("test-instance").is_some());
    assert!(registry
        .capabilities("test-instance")
        .unwrap()
        .supports_format(AudioFormat::Wav));
}

#[test]
fn register_factory_creates_new_instances() {
    let mut registry: TestRegistry = EngineRegistry::new();
    let create_count = Arc::new(AtomicUsize::new(0));
    let counter = Arc::clone(&create_count);
    registry
        .register_factory(Box::new(move || {
            counter.fetch_add(1, Ordering::SeqCst);
            TestEngine {
                id: "test-factory",
                name: "Test Factory",
            }
        }))
        .unwrap();

    // One construction for metadata probe + one per create() call.
    let _ = registry.create("test-factory").unwrap();
    let _ = registry.create("test-factory").unwrap();
    assert_eq!(create_count.load(Ordering::SeqCst), 3);
}

#[test]
fn duplicate_registration_is_refused_and_changes_nothing() {
    let mut registry: TestRegistry = EngineRegistry::new();
    registry.register_instance(TestEngine { id: "dup", name: "First" }).unwrap();
    let err = registry
        .register_instance(TestEngine { id: "dup", name: "Second" })
        .unwrap_err();
    assert!(matches!(err, RegistryError::AlreadyRegistered("dup")));
    assert_eq!(err.message(), "Engine 'dup' is already registered");
    assert_eq!(registry.display_name("dup"), Some("First"));
    assert_eq!(registry.engine_ids(), vec!["dup"]);
}

#[test]
fn unknown_engine_has_nothing() {
    let registry: TestRegistry = EngineRegistry::new();
    assert!(!registry.contains("voicevox"));
    assert!(registry.create("voicevox").is_none());
    assert!(registry.display_name("voicevox").is_none());
    assert!(registry.capabilities("voicevox").is_none());
    assert!(registry.metadata("voicevox").is_none());
    assert!(registry.engine_ids().is_empty());
}

#[test]
fn engine_ids_are_sorted_whatever_the_registration_order() {
    let mut registry: TestRegistry = EngineRegistry::new();
    for id in ["voiceger", "generic", "voicevox", "a-engine"] {
        registry.register_instance(TestEngine { id, name: "x" }).unwrap();
    }
    assert_eq!(registry.engine_ids(), vec!["a-engine", "generic", "voiceger", "voicevox"]);
    assert!(registry.contains("generic"));
}

#[test]
fn metadata_reports_what_was_registered() {
    let mut registry: TestRegistry = EngineRegistry::new();
    registry.register_instance(TestEngine { id: "m", name: "Meta" }).unwrap();
    let metadata = registry.metadata("m").unwrap();
    assert_eq!(
        metadata,
        EngineMetadata {
            engine_id: "m",
            display_name: "Meta",
            capabilities: TestEngine { id: "m", name: "Meta" }.capabilities(),
        }
    );
}

#[test]
fn register_takes_given_metadata() {
    let mut registry: TestRegistry = EngineRegistry::new();
    let metadata = EngineMetadata {
        engine_id: "given",
        display_name: "Given",
        capabilities: TestEngine { id: "given", name: "Given" }.capabilities(),
    };
    registry
        .register(metadata.clone(), EngineProvider::Instance(TestEngine { id: "given", name: "Given" }))
        .unwrap();
    assert!(registry
        .register(metadata, EngineProvider::Instance(TestEngine { id: "given", name: "Given" }))
        .is_err());
    assert_eq!(registry.engine_ids(), vec!["given"]);
}

#[test]
fn builtin_engines_describe_themselves() {
    let generic = GenericEngine::new("http://localhost:10101///");
    assert_eq!(generic.engine_id(), "generic");
    assert_eq!(generic.display_name(), "Generic");
    assert_eq!(generic.base_url(), "http://localhost:10101");
    assert_eq!(generic.url("speakers"), "http://localhost:10101/speakers");
    assert!(!generic.capabilities().launchable);

    let voicevox = VoicevoxEngine::new("http://127.0.0.1:50021/");
    assert_eq!(voicevox.engine_id(), "voicevox");
    assert_eq!(voicevox.base_url(), "http://127.0.0.1:50021");
    assert_eq!(voicevox.url("audio_query"), "http://127.0.0.1:50021/audio_query");

    let mut registry: EngineRegistry<fn() -> GenericEngine, GenericEngine> = EngineRegistry::new();
    registry.register_instance(generic).unwrap();
    assert_eq!(registry.display_name("generic"), Some("Generic"));
}
