use btswitch::blocklist::Blocklist;
use btswitch::bluez::{
    device_entry, device_status, first_with_interface, has_interface, is_adapter_powered,
    is_le_device, is_listed_device, list_paired_audio_devices, list_paired_audio_devices_raw,
    release_action, with_interface, DeviceProps, ManagedObject, ReleaseAction,
};
use btswitch::device::DeviceStatus;
use btswitch::uuids::A2DP_SINK;

fn props(path: &str, address: &str, alias: &str) -> DeviceProps {
    DeviceProps {
        path: path.to_string(),
        address: Some(address.to_string()),
        address_type: Some("public".to_string()),
        alias: Some(alias.to_string()),
        paired: Some(true),
        connected: Some(false),
        blocked: Some(false),
        trusted: Some(true),
        uuids: Some(vec![A2DP_SINK.to_string()]),
        icon: Some("audio-headphones".to_string()),
    }
}

#[test]
fn le_detection() {
    let mut p = props("/p", "A", "a");
    assert!(!is_le_device(&p));
    p.address_type = Some("random".to_string());
    assert!(is_le_device(&p));
    p.address_type = None;
    assert!(!is_le_device(&p));
}

#[test]
fn listed_devices_are_paired_audio_devices() {
    let mut p = props("/p", "A", "a");
    assert!(is_listed_device(&p));
    p.paired = None;
    assert!(!is_listed_device(&p));
    p.paired = Some(true);
    p.uuids = Some(vec!["00001800-0000-1000-8000-00805f9b34fb".to_string()]);
    assert!(!is_listed_device(&p));
    p.uuids = None;
    assert!(!is_listed_device(&p));
}

#[test]
fn status_rules() {
    let none = Blocklist::new();
    let mut mine = Blocklist::new();
    mine.insert("A");
    let mut p = props("/p", "A", "a");
    assert_eq!(device_status(&p, &none), DeviceStatus::Disconnected);
    p.connected = Some(true);
    assert_eq!(device_status(&p, &none), DeviceStatus::Connected);
    p.blocked = Some(true);
    assert_eq!(device_status(&p, &none), DeviceStatus::Blocked);
    p.blocked = None;
    p.trusted = Some(false);
    // A classic device is not blocked by being untrusted.
    assert_eq!(device_status(&p, &mine), DeviceStatus::Connected);
    p.address_type = Some("random".to_string());
    assert_eq!(device_status(&p, &mine), DeviceStatus::Blocked);
    assert_eq!(device_status(&p, &none), DeviceStatus::Connected);
    p.trusted = None;
    assert_eq!(device_status(&p, &mine), DeviceStatus::Connected);
}

#[test]
fn entry_defaults() {
    let mut p = props("/org/bluez/hci0/dev_A", "AA", "Speaker");
    p.alias = None;
    p.icon = None;
    p.uuids = None;
    p.connected = None;
    let d = device_entry(&p, &Blocklist::new());
    assert_eq!(d.alias, "AA");
    assert_eq!(d.address, "AA");
    assert_eq!(d.path, "/org/bluez/hci0/dev_A");
    assert_eq!(d.icon, None);
    assert!(d.uuids.is_empty());
    assert_eq!(d.status, DeviceStatus::Disconnected);
    p.address = None;
    let d = device_entry(&p, &Blocklist::new());
    assert_eq!(d.alias, "");
    assert_eq!(d.address, "");
}

#[test]
fn device_list_sorted_by_name_and_filtered() {
    let mut unpaired = props("/u", "U", "Aaa");
    unpaired.paired = Some(false);
    let mut not_audio = props("/n", "N", "Abc");
    not_audio.uuids = Some(vec![]);
    let input = vec![
        props("/z", "Z", "Zeta"),
        unpaired,
        props("/b", "B", "Beta"),
        not_audio,
        props("/a", "A", "Alpha"),
        props("/b2", "B2", "Beta"),
        props("/lower", "L", "alpha"),
    ];
    let out = list_paired_audio_devices(&input, &Blocklist::new());
    let paths: Vec<&str> = out.iter().map(|d| d.path.as_str()).collect();
    assert_eq!(paths, vec!["/a", "/b", "/b2", "/z", "/lower"]);
    assert!(out.iter().all(|d| d.paired));
}

#[test]
fn device_list_order_matches_string_order() {
    let names = ["b", "a", "ab", "", "B", "é", "e", "aa", "a"];
    let input: Vec<DeviceProps> =
        names.iter().enumerate().map(|(i, n)| props(&format!("/{i}"), "X", n)).collect();
    let out = list_paired_audio_devices(&input, &Blocklist::new());
    let mut expected: Vec<(String, String)> =
        input.iter().map(|p| (p.alias.clone().unwrap(), p.path.clone())).collect();
    expected.sort_by(|a, b| a.0.cmp(&b.0));
    let got: Vec<(String, String)> = out.iter().map(|d| (d.alias.clone(), d.path.clone())).collect();
    assert_eq!(got, expected);
}

#[test]
fn device_list_status_uses_block_list() {
    let mut le = props("/le", "LE", "Buds");
    le.address_type = Some("random".to_string());
    le.trusted = Some(false);
    let mut mine = Blocklist::new();
    mine.insert("LE");
    let out = list_paired_audio_devices(&vec![le], &mine);
    assert_eq!(out.len(), 1);
    assert_eq!(out[0].status, DeviceStatus::Blocked);
}

#[test]
fn raw_list_keeps_read_order() {
    let mut unpaired = props("/u", "U", "u");
    unpaired.paired = Some(false);
    let input = vec![props("/z", "Z", "z"), unpaired, props("/a", "A", "a")];
    let raw = list_paired_audio_devices_raw(&input);
    assert_eq!(raw, vec![("/z".to_string(), "Z".to_string()), ("/a".to_string(), "A".to_string())]);
}

#[test]
fn raw_and_sorted_lists_hold_the_same_pairs() {
    let mut unpaired = props("/u", "U", "u");
    unpaired.paired = Some(false);
    let input = vec![
        props("/z", "Z", "Zed"),
        unpaired,
        props("/a", "A", "Amp"),
        props("/m", "M", "Amp"),
    ];
    let mut raw = list_paired_audio_devices_raw(&input);
    let mut sorted: Vec<(String, String)> = list_paired_audio_devices(&input, &Blocklist::new())
        .into_iter()
        .map(|d| (d.path, d.address))
        .collect();
    assert_ne!(raw, sorted);
    raw.sort();
    sorted.sort();
    assert_eq!(raw, sorted);
}

#[test]
fn release_actions() {
    let mut releasing = Blocklist::new();
    releasing.insert("A");
    let mut p = props("/a", "A", "a");
    assert_eq!(release_action(&p, &releasing), ReleaseAction::Nothing);
    p.blocked = Some(true);
    assert_eq!(release_action(&p, &releasing), ReleaseAction::Unblock);
    p.address_type = Some("random".to_string());
    assert_eq!(release_action(&p, &releasing), ReleaseAction::Trust);
    assert_eq!(release_action(&p, &Blocklist::new()), ReleaseAction::Nothing);
}

#[test]
fn managed_objects() {
    let objects = vec![
        ManagedObject { path: "/org/bluez".to_string(), interfaces: vec!["org.bluez.AgentManager1".to_string()] },
        ManagedObject {
            path: "/org/bluez/hci0/dev_A".to_string(),
            interfaces: vec!["org.freedesktop.DBus.Properties".to_string(), "org.bluez.Device1".to_string()],
        },
        ManagedObject { path: "/org/bluez/hci0".to_string(), interfaces: vec!["org.bluez.Adapter1".to_string()] },
        ManagedObject { path: "/org/bluez/hci0/dev_B".to_string(), interfaces: vec!["org.bluez.Device1".to_string()] },
    ];
    assert!(has_interface(&objects[1], "org.bluez.Device1"));
    assert!(!has_interface(&objects[0], "org.bluez.Device1"));
    assert_eq!(first_with_interface(&objects, "org.bluez.Adapter1"), Some(2));
    assert_eq!(first_with_interface(&objects, "org.bluez.Media1"), None);
    assert_eq!(with_interface(&objects, "org.bluez.Device1"), vec![1, 3]);
}

#[test]
fn adapter_power() {
    assert!(is_adapter_powered(Some(Some(true))));
    assert!(!is_adapter_powered(Some(Some(false))));
    assert!(!is_adapter_powered(Some(None)));
    assert!(!is_adapter_powered(None));
}
