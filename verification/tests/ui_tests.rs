use btswitch::backend::Event;
use btswitch::device::{BtAudioDevice, DeviceStatus};
use btswitch::ui::{build_device_row, exclusive_flags, update_device_list, ListView, WindowState};

fn dev(status: DeviceStatus, icon: Option<&str>) -> BtAudioDevice {
    BtAudioDevice {
        path: "/p".to_string(),
        address: "A".to_string(),
        alias: "a".to_string(),
        paired: true,
        status,
        uuids: vec![],
        icon: icon.map(|s| s.to_string()),
    }
}

#[test]
fn rows() {
    let r = build_device_row(&dev(DeviceStatus::Connected, Some("audio-headphones")), false, true);
    assert_eq!(r.icon_name, "audio-headphones-symbolic");
    assert_eq!(r.status_text, "Active");
    assert_eq!(r.css_class, "device-active");
    assert!(!r.sensitive);
    let r = build_device_row(&dev(DeviceStatus::Connected, Some("audio-headset")), false, false);
    assert_eq!(r.icon_name, "audio-headset-symbolic");
    assert_eq!(r.status_text, "Connected");
    assert_eq!(r.css_class, "flat");
    assert!(r.sensitive);
    let r = build_device_row(&dev(DeviceStatus::Blocked, Some("audio-card")), true, false);
    assert_eq!(r.icon_name, "audio-speakers-symbolic");
    assert_eq!(r.status_text, "Blocked");
    assert_eq!(r.css_class, "device-blocked");
    assert!(!r.sensitive);
    let r = build_device_row(&dev(DeviceStatus::Connecting, None), false, false);
    assert_eq!(r.status_text, "Connecting…");
    assert_eq!(r.icon_name, "audio-speakers-symbolic");
    let r = build_device_row(&dev(DeviceStatus::Disconnected, None), false, false);
    assert_eq!(r.status_text, "Disconnected");
}

#[test]
fn only_a_lone_connected_device_is_exclusive() {
    let one = vec![dev(DeviceStatus::Blocked, None), dev(DeviceStatus::Connected, None)];
    assert_eq!(exclusive_flags(&one), vec![false, true]);
    let two = vec![dev(DeviceStatus::Connected, None), dev(DeviceStatus::Connected, None)];
    assert_eq!(exclusive_flags(&two), vec![false, false]);
    assert_eq!(exclusive_flags(&vec![]), Vec::<bool>::new());
}

#[test]
fn device_list_view() {
    match update_device_list(&vec![], false) {
        ListView::Placeholder(t) => assert_eq!(t, "No paired Bluetooth audio devices found"),
        ListView::Rows(_) => panic!("expected placeholder"),
    }
    match update_device_list(&vec![dev(DeviceStatus::Connected, None), dev(DeviceStatus::Disconnected, None)], true) {
        ListView::Rows(rows) => {
            assert_eq!(rows.len(), 2);
            assert_eq!(rows[0].status_text, "Active");
            assert_eq!(rows[1].status_text, "Disconnected");
            assert!(rows.iter().all(|r| !r.sensitive));
        }
        ListView::Placeholder(_) => panic!("expected rows"),
    }
}

#[test]
fn window_follows_events() {
    let mut w = WindowState::new();
    assert!(!w.busy && w.buttons_sensitive && w.status_text.is_empty());
    assert_eq!(w.handle_event(&Event::SwitchStarted), None);
    assert!(w.busy && w.spinner_active && !w.buttons_sensitive);
    assert_eq!(w.status_text, "Switching...");
    assert_eq!(w.handle_event(&Event::Error("nope".to_string())), Some("nope".to_string()));
    assert!(!w.busy && !w.spinner_active && w.buttons_sensitive);
    assert_eq!(w.status_text, "Error: nope");
    w.handle_event(&Event::AdapterPowered(false));
    assert!(w.bt_off_banner_visible);
    w.handle_event(&Event::SwitchStarted);
    w.handle_event(&Event::SwitchComplete);
    assert!(!w.busy && w.buttons_sensitive && w.status_text.is_empty());
    assert!(w.bt_off_banner_visible);
    w.handle_event(&Event::AdapterPowered(true));
    assert!(!w.bt_off_banner_visible);
    w.handle_event(&Event::Quit);
    assert!(!w.busy);
}
