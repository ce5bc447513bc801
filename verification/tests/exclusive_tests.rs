use btswitch::blocklist::Blocklist;
use btswitch::bluez::DeviceProps;
use btswitch::exclusive::{SwitchAction, SwitchEvent, SwitchMachine, SwitchPhase};
use btswitch::switch::Rollback;

fn props(address: &str, le: bool, connected: bool, blocked: bool) -> DeviceProps {
    DeviceProps {
        path: format!("/org/bluez/hci0/dev_{}", address.replace(':', "_")),
        address: Some(address.to_string()),
        address_type: Some(if le { "random" } else { "public" }.to_string()),
        alias: Some(format!("dev {address}")),
        paired: Some(true),
        connected: Some(connected),
        blocked: Some(blocked),
        trusted: Some(true),
        uuids: None,
        icon: None,
    }
}

fn sorted(b: &Blocklist) -> Vec<String> {
    let mut v = b.addresses();
    v.sort();
    v
}

fn step(m: &mut SwitchMachine, ev: SwitchEvent, b: &mut Blocklist) -> SwitchAction {
    assert!(m.accepts(&ev));
    m.step(ev, b)
}

const TARGET: &str = "/org/bluez/hci0/dev_AA_AA";

#[test]
fn switch_invalid_path() {
    let b = Blocklist::new();
    match SwitchMachine::start("/org/bluez/hci0", &b) {
        Err(e) => assert_eq!(e, "Invalid device path: /org/bluez/hci0"),
        Ok(_) => panic!("expected failure"),
    }
}

#[test]
fn switch_to_suppressed_classic_device_succeeds() {
    let mut b = Blocklist::new();
    b.insert("AA:AA");
    b.insert("CC:CC");
    let (mut m, a) = SwitchMachine::start(TARGET, &b).unwrap();
    match a {
        SwitchAction::Save(st) => {
            assert!(st.in_progress);
            assert_eq!(st.exclusive_target, Some("AA:AA".to_string()));
        }
        _ => panic!("expected save"),
    }
    let a = step(&mut m, SwitchEvent::Saved(Ok(())), &mut b);
    assert!(matches!(a, SwitchAction::ReadTarget));
    let mut target = props("AA:AA", false, false, true);
    target.alias = None;
    let a = step(&mut m, SwitchEvent::TargetRead(Ok(target)), &mut b);
    assert!(matches!(a, SwitchAction::UnblockTarget));
    assert!(b.contains("AA:AA"));
    let a = step(&mut m, SwitchEvent::TargetRestored(Ok(())), &mut b);
    assert!(!b.contains("AA:AA"));
    match a {
        SwitchAction::ConnectAndSetup { progress, alias, is_le } => {
            assert_eq!(progress, Some("Connecting to AA:AA...".to_string()));
            assert_eq!(alias, "AA:AA");
            assert!(!is_le);
        }
        _ => panic!("expected connect"),
    }
    let a = step(&mut m, SwitchEvent::SetupDone(Ok(())), &mut b);
    assert!(matches!(a, SwitchAction::ListDevices { ref message } if message == "Blocking other devices..."));
    let list = vec![
        ("/org/bluez/hci0/dev_AA_AA".to_string(), "AA:AA".to_string()),
        ("/org/bluez/hci0/dev_BB_BB".to_string(), "BB:BB".to_string()),
        ("/org/bluez/hci0/dev_DD_DD".to_string(), "DD:DD".to_string()),
        ("/org/bluez/hci0/dev_EE_EE".to_string(), "EE:EE".to_string()),
    ];
    let a = step(&mut m, SwitchEvent::Listed(Ok(list)), &mut b);
    assert!(matches!(a, SwitchAction::ReadDevice(ref p) if p == "/org/bluez/hci0/dev_BB_BB"));
    // BB:BB is an LE device: untrusted, then disconnected because it is
    // connected once untrusted; it counts as suppressed.
    let a = step(&mut m, SwitchEvent::DeviceRead(Ok(props("BB:BB", true, false, false))), &mut b);
    assert!(matches!(a, SwitchAction::Untrust));
    let a = step(&mut m, SwitchEvent::DeviceDone, &mut b);
    assert!(matches!(a, SwitchAction::CheckConnected));
    let a = step(&mut m, SwitchEvent::FlagRead(true), &mut b);
    assert!(matches!(a, SwitchAction::Disconnect));
    let a = step(&mut m, SwitchEvent::DeviceDone, &mut b);
    assert!(matches!(a, SwitchAction::ReadDevice(ref p) if p == "/org/bluez/hci0/dev_DD_DD"));
    // DD:DD is classic, not connected, and blocked already: left alone.
    let a = step(&mut m, SwitchEvent::DeviceRead(Ok(props("DD:DD", false, false, true))), &mut b);
    assert!(matches!(a, SwitchAction::CheckConnected));
    let a = step(&mut m, SwitchEvent::FlagRead(false), &mut b);
    assert!(matches!(a, SwitchAction::CheckBlocked));
    let a = step(&mut m, SwitchEvent::FlagRead(true), &mut b);
    assert!(matches!(a, SwitchAction::ReadDevice(ref p) if p == "/org/bluez/hci0/dev_EE_EE"));
    // EE:EE is classic and connected: disconnected, then blocked.
    let a = step(&mut m, SwitchEvent::DeviceRead(Ok(props("EE:EE", false, true, false))), &mut b);
    assert!(matches!(a, SwitchAction::CheckConnected));
    let a = step(&mut m, SwitchEvent::FlagRead(true), &mut b);
    assert!(matches!(a, SwitchAction::Disconnect));
    let a = step(&mut m, SwitchEvent::DeviceDone, &mut b);
    assert!(matches!(a, SwitchAction::CheckBlocked));
    let a = step(&mut m, SwitchEvent::FlagRead(false), &mut b);
    assert!(matches!(a, SwitchAction::Block));
    let a = step(&mut m, SwitchEvent::BlockResult(true), &mut b);
    match a {
        SwitchAction::Save(st) => {
            assert!(!st.in_progress);
            let mut v = st.app_blocked_devices.clone();
            v.sort();
            assert_eq!(v, vec!["BB:BB".to_string(), "CC:CC".to_string(), "EE:EE".to_string()]);
        }
        _ => panic!("expected save"),
    }
    assert_eq!(sorted(&b), vec!["BB:BB".to_string(), "CC:CC".to_string(), "EE:EE".to_string()]);
    let a = step(&mut m, SwitchEvent::Saved(Ok(())), &mut b);
    assert!(matches!(a, SwitchAction::Succeed));
    assert_eq!(m.current_phase(), SwitchPhase::Succeeded);
    assert!(!m.accepts(&SwitchEvent::RolledBack));
}

#[test]
fn failed_setup_rolls_back() {
    let mut b = Blocklist::new();
    b.insert("AA:AA");
    let (mut m, _) = SwitchMachine::start(TARGET, &b).unwrap();
    step(&mut m, SwitchEvent::Saved(Ok(())), &mut b);
    let a = step(&mut m, SwitchEvent::TargetRead(Ok(props("AA:AA", true, false, false))), &mut b);
    assert!(matches!(a, SwitchAction::TrustTarget));
    step(&mut m, SwitchEvent::TargetRestored(Ok(())), &mut b);
    assert!(!b.contains("AA:AA"));
    let a = step(&mut m, SwitchEvent::SetupDone(Err("dev AA:AA is not responding.".to_string())), &mut b);
    assert!(matches!(a, SwitchAction::RollBack(Rollback { untrust: true, disconnect: true, block: false })));
    assert!(b.contains("AA:AA"));
    let a = step(&mut m, SwitchEvent::RolledBack, &mut b);
    assert!(matches!(a, SwitchAction::Fail(ref e) if e == "dev AA:AA is not responding."));
    assert_eq!(m.current_phase(), SwitchPhase::Failed);
    assert_eq!(sorted(&b), vec!["AA:AA".to_string()]);
}

#[test]
fn free_target_skips_restore() {
    let mut b = Blocklist::new();
    let (mut m, _) = SwitchMachine::start(TARGET, &b).unwrap();
    step(&mut m, SwitchEvent::Saved(Ok(())), &mut b);
    let a = step(&mut m, SwitchEvent::TargetRead(Ok(props("AA:AA", true, false, false))), &mut b);
    match a {
        SwitchAction::ConnectAndSetup { progress, alias, is_le } => {
            assert_eq!(progress, None);
            assert_eq!(alias, "dev AA:AA");
            assert!(is_le);
        }
        _ => panic!("expected connect"),
    }
    let a = step(&mut m, SwitchEvent::SetupDone(Err("x".to_string())), &mut b);
    assert!(matches!(a, SwitchAction::RollBack(Rollback { untrust: false, disconnect: false, block: false })));
    assert!(b.is_empty());
}

#[test]
fn failures_before_connecting() {
    let mut b = Blocklist::new();
    b.insert("AA:AA");
    let (mut m, _) = SwitchMachine::start(TARGET, &b).unwrap();
    let a = step(&mut m, SwitchEvent::Saved(Err("disk full".to_string())), &mut b);
    assert!(matches!(a, SwitchAction::Fail(ref e) if e == "disk full"));

    let (mut m, _) = SwitchMachine::start(TARGET, &b).unwrap();
    step(&mut m, SwitchEvent::Saved(Ok(())), &mut b);
    let a = step(&mut m, SwitchEvent::TargetRead(Err("no object".to_string())), &mut b);
    assert!(matches!(a, SwitchAction::Fail(ref e) if e == "no object"));

    let (mut m, _) = SwitchMachine::start(TARGET, &b).unwrap();
    step(&mut m, SwitchEvent::Saved(Ok(())), &mut b);
    step(&mut m, SwitchEvent::TargetRead(Ok(props("AA:AA", false, false, true))), &mut b);
    let a = step(&mut m, SwitchEvent::TargetRestored(Err("denied".to_string())), &mut b);
    assert!(matches!(a, SwitchAction::Fail(ref e) if e == "denied"));
    assert!(b.contains("AA:AA"));
}

#[test]
fn failure_after_connecting_keeps_target_free() {
    let mut b = Blocklist::new();
    b.insert("AA:AA");
    let (mut m, _) = SwitchMachine::start(TARGET, &b).unwrap();
    step(&mut m, SwitchEvent::Saved(Ok(())), &mut b);
    step(&mut m, SwitchEvent::TargetRead(Ok(props("AA:AA", false, false, true))), &mut b);
    step(&mut m, SwitchEvent::TargetRestored(Ok(())), &mut b);
    step(&mut m, SwitchEvent::SetupDone(Ok(())), &mut b);
    let a = step(&mut m, SwitchEvent::Listed(Err("bus gone".to_string())), &mut b);
    assert!(matches!(a, SwitchAction::Fail(ref e) if e == "bus gone"));
    assert!(!b.contains("AA:AA"));
}

#[test]
fn only_target_listed() {
    let mut b = Blocklist::new();
    let (mut m, _) = SwitchMachine::start(TARGET, &b).unwrap();
    step(&mut m, SwitchEvent::Saved(Ok(())), &mut b);
    step(&mut m, SwitchEvent::TargetRead(Ok(props("AA:AA", false, true, false))), &mut b);
    step(&mut m, SwitchEvent::SetupDone(Ok(())), &mut b);
    let list = vec![(TARGET.to_string(), "AA:AA".to_string())];
    let a = step(&mut m, SwitchEvent::Listed(Ok(list)), &mut b);
    assert!(matches!(a, SwitchAction::Save(ref st) if st.app_blocked_devices.is_empty() && !st.in_progress));
    let a = step(&mut m, SwitchEvent::Saved(Ok(())), &mut b);
    assert!(matches!(a, SwitchAction::Succeed));
}

#[test]
fn device_address_is_taken_from_the_listing() {
    // A listed device whose properties read back the target's address is
    // still suppressed: only the listed address is compared with the target.
    let mut b = Blocklist::new();
    let (mut m, _) = SwitchMachine::start(TARGET, &b).unwrap();
    step(&mut m, SwitchEvent::Saved(Ok(())), &mut b);
    step(&mut m, SwitchEvent::TargetRead(Ok(props("AA:AA", false, true, false))), &mut b);
    step(&mut m, SwitchEvent::SetupDone(Ok(())), &mut b);
    let list = vec![("/org/bluez/hci0/dev_BB_BB".to_string(), "BB:BB".to_string())];
    step(&mut m, SwitchEvent::Listed(Ok(list)), &mut b);
    let a = step(&mut m, SwitchEvent::DeviceRead(Ok(props("AA:AA", true, false, false))), &mut b);
    assert!(matches!(a, SwitchAction::Untrust));
    step(&mut m, SwitchEvent::DeviceDone, &mut b);
    let a = step(&mut m, SwitchEvent::FlagRead(false), &mut b);
    assert!(matches!(a, SwitchAction::Save(ref st) if st.app_blocked_devices == vec!["BB:BB".to_string()]));
}

#[test]
fn failed_block_is_not_recorded() {
    let mut b = Blocklist::new();
    let (mut m, _) = SwitchMachine::start(TARGET, &b).unwrap();
    step(&mut m, SwitchEvent::Saved(Ok(())), &mut b);
    step(&mut m, SwitchEvent::TargetRead(Ok(props("AA:AA", false, true, false))), &mut b);
    step(&mut m, SwitchEvent::SetupDone(Ok(())), &mut b);
    let list = vec![("/org/bluez/hci0/dev_CC_CC".to_string(), "CC:CC".to_string())];
    step(&mut m, SwitchEvent::Listed(Ok(list)), &mut b);
    step(&mut m, SwitchEvent::DeviceRead(Ok(props("CC:CC", false, false, false))), &mut b);
    step(&mut m, SwitchEvent::FlagRead(false), &mut b);
    let a = step(&mut m, SwitchEvent::FlagRead(false), &mut b);
    assert!(matches!(a, SwitchAction::Block));
    let a = step(&mut m, SwitchEvent::BlockResult(false), &mut b);
    assert!(matches!(a, SwitchAction::Save(ref st) if st.app_blocked_devices.is_empty()));
    assert!(b.is_empty());
}
