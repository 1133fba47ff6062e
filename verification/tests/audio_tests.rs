use zundamon_vrc::audio::playback::{paplay_args, pcm_payload};
use zundamon_vrc::audio::virtual_device::{list_sinks_command, CommandOutput, DeviceError, VirtualDevice};
use zundamon_vrc::audio::AudioManager;

fn output(success: bool, stdout: &str, stderr: &str) -> CommandOutput {
    CommandOutput { success, stdout: stdout.to_string(), stderr: stderr.to_string() }
}

#[test]
fn device_names_and_monitor_source() {
    let device = VirtualDevice::new("ZundamonVRC");
    assert_eq!(device.sink_name(), "ZundamonVRC");
    assert_eq!(device.monitor_source(), "ZundamonVRC.monitor");
    assert_eq!(device.module_id(), None);
    let manager = AudioManager::new("Mic");
    assert_eq!(manager.device_name(), "Mic");
    assert_eq!(manager.monitor_source(), "Mic.monitor");
}

#[test]
fn sink_listing_is_searched_line_by_line() {
    let device = VirtualDevice::new("ZundamonVRC");
    let listing = "1\talsa_output.pci\tmodule-alsa-card.c\ts16le 2ch 44100Hz\tRUNNING\n\
                   42\tZundamonVRC\tmodule-null-sink.c\ts16le 2ch 44100Hz\tIDLE\n";
    assert!(device.is_listed(listing));
    assert!(!device.is_listed("1\talsa_output.pci\n"));
    assert!(!device.is_listed(""));
    assert!(!device.is_listed("Zundamon\nVRC\n"));
    assert_eq!(list_sinks_command(), vec!["list", "short", "sinks"]);
}

#[test]
fn creating_the_device_when_missing() {
    let mut manager = AudioManager::new("ZundamonVRC");
    assert_eq!(manager.ensure_device("42\tZundamonVRC\tmodule-null-sink.c\n"), None);
    let args = manager.ensure_device("1\tother\n").unwrap();
    assert_eq!(
        args,
        vec![
            "load-module",
            "module-null-sink",
            "sink_name=ZundamonVRC",
            "sink_properties=device.description=\"Zundamon_VRC_Virtual_Mic\"",
        ]
    );
    assert!(manager.device_created(&output(true, " 536870913\n", "")).is_ok());
    assert_eq!(manager.destroy_device(), Some(vec!["unload-module".to_string(), "536870913".to_string()]));
    assert_eq!(manager.destroy_device(), None);
}

#[test]
fn failed_creation_reports_pactl_error() {
    let mut device = VirtualDevice::new("X");
    let err = device.record_created(&output(false, "", "Failure: Module initialization failed")).unwrap_err();
    assert!(matches!(&err, DeviceError::LoadModuleFailed(s) if s == "Failure: Module initialization failed"));
    assert_eq!(err.message(), "pactl load-module failed: Failure: Module initialization failed");
    assert_eq!(device.module_id(), None);
}

#[test]
fn unreadable_module_id_is_forgotten() {
    let mut device = VirtualDevice::new("X");
    device.record_created(&output(true, "not a number", "")).unwrap();
    assert_eq!(device.module_id(), None);
    device.record_created(&output(true, "+17", "")).unwrap();
    assert_eq!(device.module_id(), Some(17));
    device.record_created(&output(true, "4294967296", "")).unwrap();
    assert_eq!(device.module_id(), None);
}

#[test]
fn wav_header_is_stripped_for_raw_playback() {
    let mut wav = b"RIFF".to_vec();
    wav.extend(std::iter::repeat(0u8).take(40));
    wav.extend([1u8, 2, 3]);
    assert_eq!(pcm_payload(&wav), vec![1, 2, 3]);
    let header_only = wav[..44].to_vec();
    assert_eq!(pcm_payload(&header_only), header_only);
    let raw = vec![5u8; 50];
    assert_eq!(pcm_payload(&raw), raw);
    assert_eq!(
        paplay_args("Mic"),
        vec!["--device", "Mic", "--raw", "--format=s16le", "--rate=24000", "--channels=1"]
    );
}
