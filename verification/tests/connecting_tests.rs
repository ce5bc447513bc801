use btswitch::connecting::{
    ConnectAction, ConnectEvent, ConnectMachine, ConnectPhase, POLL_MILLIS, RETRY_PAUSE_MILLIS,
};

const S: u128 = 1_000_000_000;

fn step(m: &mut ConnectMachine, ev: ConnectEvent) -> ConnectAction {
    assert!(m.accepts(&ev));
    m.step(ev)
}

fn observed(connected: bool, secs: u128) -> ConnectEvent {
    ConnectEvent::Observed { connected, elapsed_nanos: secs * S }
}

#[test]
fn classic_device_connects_first_time() {
    let (mut m, a) = ConnectMachine::start("Speaker", false);
    assert!(matches!(a, ConnectAction::CheckConnected { restart_clock: false }));
    assert_eq!(m.current_phase(), ConnectPhase::ConnectCheck);
    let a = step(&mut m, observed(false, 0));
    assert!(matches!(a, ConnectAction::Connect));
    let a = step(&mut m, ConnectEvent::ConnectResult(None));
    assert!(matches!(a, ConnectAction::CheckServices { restart_clock: true }));
    let a = step(&mut m, ConnectEvent::ServicesObserved { connected: true, resolved: false, elapsed_nanos: S });
    assert!(matches!(a, ConnectAction::Sleep(ms) if ms == POLL_MILLIS));
    let a = step(&mut m, ConnectEvent::Slept);
    assert!(matches!(a, ConnectAction::CheckServices { restart_clock: false }));
    let a = step(&mut m, ConnectEvent::ServicesObserved { connected: true, resolved: true, elapsed_nanos: 2 * S });
    assert!(matches!(a, ConnectAction::SetupAudio));
    let a = step(&mut m, ConnectEvent::AudioReady(Ok(())));
    assert!(matches!(a, ConnectAction::Done));
    assert_eq!(m.current_phase(), ConnectPhase::Done);
}

#[test]
fn connected_classic_device_skips_connect() {
    let (mut m, _) = ConnectMachine::start("Speaker", false);
    let a = step(&mut m, observed(true, 0));
    assert!(matches!(a, ConnectAction::CheckServices { restart_clock: true }));
}

#[test]
fn retries_then_gives_up() {
    let (mut m, _) = ConnectMachine::start("Speaker", false);
    step(&mut m, observed(false, 0));
    let a = step(&mut m, ConnectEvent::ConnectResult(Some("org.bluez.Error.Failed".to_string())));
    assert!(matches!(a, ConnectAction::Sleep(ms) if ms == RETRY_PAUSE_MILLIS));
    let a = step(&mut m, ConnectEvent::Slept);
    assert!(matches!(a, ConnectAction::Connect));
    let a = step(&mut m, ConnectEvent::ConnectResult(Some("org.bluez.Error.Failed".to_string())));
    assert!(matches!(a, ConnectAction::Sleep(_)));
    step(&mut m, ConnectEvent::Slept);
    let a = step(&mut m, ConnectEvent::ConnectResult(Some("br-connection-page-timeout".to_string())));
    assert!(matches!(a, ConnectAction::Fail(ref msg) if msg == "Speaker is not responding."));
    assert_eq!(m.current_phase(), ConnectPhase::Failed);
}

#[test]
fn in_progress_counts_as_connected() {
    let (mut m, _) = ConnectMachine::start("Buds", true);
    step(&mut m, observed(false, 0));
    let a = step(&mut m, observed(false, 4));
    assert!(matches!(a, ConnectAction::CheckConnected { restart_clock: false }));
    let a = step(&mut m, observed(false, 4));
    assert!(matches!(a, ConnectAction::Connect));
    let a = step(&mut m, ConnectEvent::ConnectResult(Some("org.bluez.Error.InProgress".to_string())));
    assert!(matches!(a, ConnectAction::CheckConnected { restart_clock: true }));
    assert_eq!(m.current_phase(), ConnectPhase::LeWait);
}

#[test]
fn le_device_connects_by_itself() {
    let (mut m, a) = ConnectMachine::start("Buds", true);
    assert!(matches!(a, ConnectAction::CheckConnected { restart_clock: false }));
    assert_eq!(m.current_phase(), ConnectPhase::InitialCheck);
    let a = step(&mut m, observed(false, 0));
    assert!(matches!(a, ConnectAction::CheckConnected { restart_clock: true }));
    let a = step(&mut m, observed(false, 1));
    assert!(matches!(a, ConnectAction::Sleep(ms) if ms == POLL_MILLIS));
    let a = step(&mut m, ConnectEvent::Slept);
    assert!(matches!(a, ConnectAction::CheckConnected { restart_clock: false }));
    let a = step(&mut m, observed(true, 2));
    assert!(matches!(a, ConnectAction::CheckConnected { restart_clock: false }));
    let a = step(&mut m, observed(true, 2));
    assert!(matches!(a, ConnectAction::CheckConnected { restart_clock: true }));
    let a = step(&mut m, observed(true, 0));
    assert!(matches!(a, ConnectAction::CheckConnected { restart_clock: false }));
    let a = step(&mut m, observed(true, 0));
    assert!(matches!(a, ConnectAction::SetupAudio));
    let a = step(&mut m, ConnectEvent::AudioReady(Err("Timeout".to_string())));
    assert!(matches!(a, ConnectAction::Fail(ref e) if e == "Timeout"));
}

#[test]
fn le_device_never_connects() {
    let (mut m, _) = ConnectMachine::start("Buds", true);
    step(&mut m, observed(true, 0));
    step(&mut m, observed(true, 0));
    let a = step(&mut m, observed(false, 10));
    assert!(matches!(a, ConnectAction::CheckConnected { restart_clock: false }));
    let a = step(&mut m, observed(false, 10));
    assert!(matches!(a, ConnectAction::Fail(ref e) if e == "Buds is not responding."));
}

#[test]
fn classic_services_reconnect_once() {
    let (mut m, _) = ConnectMachine::start("Speaker", false);
    step(&mut m, observed(true, 0));
    let a = step(&mut m, ConnectEvent::ServicesObserved { connected: true, resolved: false, elapsed_nanos: 11 * S });
    assert!(matches!(a, ConnectAction::Reconnect));
    let a = step(&mut m, ConnectEvent::Reconnected);
    assert!(matches!(a, ConnectAction::CheckServices { restart_clock: true }));
    let a = step(&mut m, ConnectEvent::ServicesObserved { connected: true, resolved: false, elapsed_nanos: 16 * S });
    assert!(
        matches!(a, ConnectAction::Fail(ref e) if e == "Speaker connected but audio services did not start. Try again.")
    );
}

#[test]
fn classic_device_drops() {
    let (mut m, _) = ConnectMachine::start("Speaker", false);
    step(&mut m, observed(true, 0));
    let a = step(&mut m, ConnectEvent::ServicesObserved { connected: false, resolved: false, elapsed_nanos: 11 * S });
    assert!(matches!(a, ConnectAction::Fail(ref e) if e == "Speaker is not responding."));
    assert!(!m.accepts(&ConnectEvent::Slept));
}
