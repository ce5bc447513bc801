use btswitch::connect::{
    connect_step, friendly_connect_error, not_responding_message, poll_found, poll_until,
    services_missing_message, wait_for_services, ConnectStep, PollStep, ServicesStep,
    LE_AUTOCONNECT_WAIT_SECS, SINK_WAIT_SECS,
};

const S: u128 = 1_000_000_000;

#[test]
fn connect_attempts() {
    assert_eq!(connect_step(1, None), ConnectStep::Connected);
    assert_eq!(connect_step(1, Some("org.bluez.Error.InProgress")), ConnectStep::AlreadyInProgress);
    assert_eq!(connect_step(3, Some("Resource busy")), ConnectStep::AlreadyInProgress);
    assert_eq!(connect_step(1, Some("org.bluez.Error.Failed")), ConnectStep::RetryAfterPause);
    assert_eq!(connect_step(2, Some("org.bluez.Error.Failed")), ConnectStep::RetryAfterPause);
    assert_eq!(connect_step(3, Some("org.bluez.Error.Failed")), ConnectStep::GiveUp);
    assert_eq!(connect_step(3, Some("Busy")), ConnectStep::GiveUp);
}

#[test]
fn friendly_errors() {
    assert_eq!(
        friendly_connect_error("Buds", "org.bluez.Error.NotReady: Resource Not Ready"),
        "Buds is not powered on or out of range."
    );
    assert_eq!(friendly_connect_error("Buds", "adapter not available"), "Buds is not powered on or out of range.");
    assert_eq!(friendly_connect_error("Buds", "br-connection-unknown"), "Buds could not be reached.");
    assert_eq!(friendly_connect_error("Buds", "Does Not Exist"), "Buds could not be reached.");
    assert_eq!(friendly_connect_error("Buds", "org.bluez.Error.ConnectFailed"), "Buds is not responding.");
    assert_eq!(friendly_connect_error("Buds", "Page Timeout"), "Buds is not responding.");
    assert_eq!(friendly_connect_error("Buds", "br-connection-page-timeout"), "Buds is not responding.");
    assert_eq!(friendly_connect_error("Buds", "something else"), "Buds could not be connected.");
    assert_eq!(friendly_connect_error("Buds", ""), "Buds could not be connected.");
}

#[test]
fn wait_messages() {
    assert_eq!(not_responding_message("Speaker"), "Speaker is not responding.");
    assert_eq!(
        services_missing_message("Speaker"),
        "Speaker connected but audio services did not start. Try again."
    );
}

#[test]
fn le_waits_look_at_the_clock_first() {
    assert_eq!(poll_until(true, 0, LE_AUTOCONNECT_WAIT_SECS), PollStep::Ready);
    assert_eq!(poll_until(false, 3 * S, LE_AUTOCONNECT_WAIT_SECS), PollStep::Sleep);
    assert_eq!(poll_until(true, 4 * S, LE_AUTOCONNECT_WAIT_SECS), PollStep::TimedOut);
    assert_eq!(poll_until(false, 4 * S - 1, LE_AUTOCONNECT_WAIT_SECS), PollStep::Sleep);
}

#[test]
fn sink_wait_looks_at_the_sink_first() {
    assert_eq!(poll_found(true, 100 * S, SINK_WAIT_SECS), PollStep::Ready);
    assert_eq!(poll_found(false, 10 * S, SINK_WAIT_SECS), PollStep::Sleep);
    assert_eq!(poll_found(false, 10 * S + 1, SINK_WAIT_SECS), PollStep::TimedOut);
}

#[test]
fn services_wait() {
    assert_eq!(wait_for_services(1, true, true, 50 * S), ServicesStep::Ready);
    assert_eq!(wait_for_services(1, true, false, 10 * S), ServicesStep::Sleep);
    assert_eq!(wait_for_services(1, true, false, 10 * S + 1), ServicesStep::Reconnect);
    assert_eq!(wait_for_services(1, false, false, 11 * S), ServicesStep::NotResponding);
    assert_eq!(wait_for_services(2, true, false, 11 * S), ServicesStep::Sleep);
    assert_eq!(wait_for_services(2, true, false, 15 * S + 1), ServicesStep::ServicesMissing);
    assert_eq!(wait_for_services(2, false, true, 16 * S), ServicesStep::NotResponding);
}

#[test]
fn waits_accept_long_limits() {
    let limit = u128::MAX / S;
    assert_eq!(poll_until(false, u128::MAX, limit), PollStep::TimedOut);
    assert_eq!(poll_until(false, 0, limit), PollStep::Sleep);
    assert_eq!(poll_found(false, u128::MAX, limit), PollStep::TimedOut);
    assert_eq!(poll_found(true, u128::MAX, limit), PollStep::Ready);
}
