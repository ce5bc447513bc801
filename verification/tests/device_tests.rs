use btswitch::device::{BtAudioDevice, DeviceStatus};
use btswitch::uuids::{is_audio_device, is_audio_uuid, A2DP_SINK, HFP_HF, LE_AUDIO_CAP};

#[test]
fn mac_from_bluez_path() {
    assert_eq!(
        BtAudioDevice::mac_from_path("/org/bluez/hci0/dev_AA_BB_CC_DD_EE_FF"),
        Some("AA:BB:CC:DD:EE:FF".to_string())
    );
}

#[test]
fn mac_from_path_without_device_segment() {
    assert_eq!(BtAudioDevice::mac_from_path("/org/bluez/hci0"), None);
    assert_eq!(BtAudioDevice::mac_from_path("/org/bluez/hci0/dev_AA/sep1"), None);
    assert_eq!(BtAudioDevice::mac_from_path("/org/bluez/hci0/dev_AA/"), None);
    assert_eq!(BtAudioDevice::mac_from_path(""), None);
    assert_eq!(BtAudioDevice::mac_from_path("/org/bluez/hci0/de"), None);
}

#[test]
fn mac_from_path_edge_cases() {
    assert_eq!(BtAudioDevice::mac_from_path("dev_12_34"), Some("12:34".to_string()));
    assert_eq!(BtAudioDevice::mac_from_path("/dev_"), Some(String::new()));
    assert_eq!(
        BtAudioDevice::mac_from_path("/a/dev_x/dev_1_2"),
        Some("1:2".to_string())
    );
}

#[test]
fn mac_path_round_trip_example() {
    let mac = "11:22:33:44:55:66";
    let path = format!("/org/bluez/hci1/dev_{}", mac.replace(':', "_"));
    assert_eq!(BtAudioDevice::mac_from_path(&path), Some(mac.to_string()));
}

#[test]
fn status_labels() {
    assert_eq!(DeviceStatus::Connected.label(), "Connected");
    assert_eq!(DeviceStatus::Disconnected.label(), "Disconnected");
    assert_eq!(DeviceStatus::Blocked.label(), "Blocked");
    assert_eq!(DeviceStatus::Connecting.label(), "Connecting");
}

#[test]
fn audio_device_detection() {
    assert!(is_audio_device(&[A2DP_SINK.to_string()]));
    assert!(is_audio_device(&["00001800-0000-1000-8000-00805f9b34fb".to_string(), HFP_HF.to_string()]));
    assert!(is_audio_device(&[LE_AUDIO_CAP.to_string()]));
    assert!(!is_audio_device(&[]));
    assert!(!is_audio_device(&["00001800-0000-1000-8000-00805f9b34fb".to_string()]));
}

#[test]
fn audio_device_detection_ignores_case() {
    assert!(is_audio_device(&["0000110B-0000-1000-8000-00805F9B34FB".to_string()]));
    assert!(is_audio_device(&["0000184E-0000-1000-8000-00805F9B34FB".to_string()]));
    assert!(!is_audio_device(&["0000110B-0000-1000-8000-00805F9B34FC".to_string()]));
}

#[test]
fn audio_uuid_text() {
    assert!(is_audio_uuid(A2DP_SINK));
    assert!(is_audio_uuid("0000184e-0000-1000-8000-00805f9b34fb"));
    assert!(!is_audio_uuid("0000110B-0000-1000-8000-00805F9B34FB"));
    assert!(!is_audio_uuid("00001800-0000-1000-8000-00805f9b34fb"));
}
