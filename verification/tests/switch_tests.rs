use btswitch::blocklist::Blocklist;
use btswitch::bluez::DeviceProps;
use btswitch::switch::{Rollback, SwitchSession, TargetRestore};

fn props(address: &str, le: bool, connected: Option<bool>, blocked: Option<bool>) -> DeviceProps {
    DeviceProps {
        path: format!("/org/bluez/hci0/dev_{}", address.replace(':', "_")),
        address: Some(address.to_string()),
        address_type: Some(if le { "random" } else { "public" }.to_string()),
        alias: Some("x".to_string()),
        paired: Some(true),
        connected,
        blocked,
        trusted: Some(true),
        uuids: None,
        icon: None,
    }
}

fn sorted(b: &Blocklist) -> Vec<String> {
    let mut v = b.addresses();
    v.sort();
    v
}

#[test]
fn invalid_target_path() {
    let b = Blocklist::new();
    match SwitchSession::begin("/org/bluez/hci0", &b) {
        Err(e) => assert_eq!(e, "Invalid device path: /org/bluez/hci0"),
        Ok(_) => panic!("expected an error"),
    }
}

#[test]
fn restore_actions() {
    let mut b = Blocklist::new();
    let s = SwitchSession::begin("/org/bluez/hci0/dev_AA_BB", &b).unwrap();
    assert_eq!(s.target_mac(), "AA:BB");
    assert!(!s.was_suppressed());
    assert_eq!(s.restore_action(false), TargetRestore::Nothing);
    assert_eq!(s.restore_action(true), TargetRestore::Nothing);
    assert_eq!(s.target_alias(None), "AA:BB");
    assert_eq!(s.target_alias(Some("Speaker".to_string())), "Speaker");
    b.insert("AA:BB");
    let s = SwitchSession::begin("/org/bluez/hci0/dev_AA_BB", &b).unwrap();
    assert!(s.was_suppressed());
    assert_eq!(s.restore_action(false), TargetRestore::Unblock);
    assert_eq!(s.restore_action(true), TargetRestore::Trust);
}

#[test]
fn connecting_message_text() {
    assert_eq!(SwitchSession::connecting_message("Headphones"), "Connecting to Headphones...");
}

#[test]
fn failed_switch_restores_block_list() {
    let mut b = Blocklist::new();
    b.insert("AA:BB");
    b.insert("CC:DD");
    let s = SwitchSession::begin("/org/bluez/hci0/dev_AA_BB", &b).unwrap();
    s.target_restored(&mut b);
    assert!(!b.contains("AA:BB"));
    let rb = s.rollback(true, &mut b);
    assert_eq!(rb, Rollback { untrust: true, disconnect: true, block: false });
    assert_eq!(sorted(&b), vec!["AA:BB".to_string(), "CC:DD".to_string()]);
}

#[test]
fn failed_switch_of_free_target_changes_nothing() {
    let mut b = Blocklist::new();
    b.insert("CC:DD");
    let s = SwitchSession::begin("/org/bluez/hci0/dev_AA_BB", &b).unwrap();
    s.target_restored(&mut b);
    let rb = s.rollback(false, &mut b);
    assert_eq!(rb, Rollback { untrust: false, disconnect: false, block: false });
    assert_eq!(sorted(&b), vec!["CC:DD".to_string()]);
}

#[test]
fn successful_switch_records_suppressed_devices() {
    let mut b = Blocklist::new();
    b.insert("AA:BB");
    b.insert("11:11");
    let mut s = SwitchSession::begin("/org/bluez/hci0/dev_AA_BB", &b).unwrap();
    s.target_restored(&mut b);
    s.record("CC:DD", true);
    s.record("EE:FF", true);
    s.record("22:22", false);
    s.record("AA:BB", true);
    assert_eq!(s.newly_blocked(), &vec!["CC:DD".to_string(), "EE:FF".to_string()]);
    let state = s.finish(&mut b);
    assert_eq!(
        sorted(&b),
        vec!["11:11".to_string(), "CC:DD".to_string(), "EE:FF".to_string()]
    );
    assert_eq!(state.exclusive_target, Some("AA:BB".to_string()));
    assert!(!state.in_progress);
    let mut saved = state.app_blocked_devices.clone();
    saved.sort();
    assert_eq!(saved, sorted(&b));
}
