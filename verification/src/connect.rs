//! Connecting the target and waiting until it is ready for audio.

use vstd::prelude::*;

use crate::text::{chars_of, contains_text, has_substring, owned};

verus! {

/// How many times a connection is attempted.
pub const MAX_CONNECT_ATTEMPTS: u32 = 3;

/// One nanosecond count per second.
pub const NANOS_PER_SEC: u128 = 1_000_000_000;

/// How long an LE device is given to connect by itself before `Connect` is
/// called.
pub const LE_AUTOCONNECT_WAIT_SECS: u128 = 4;

/// How long an LE device is given to report `Connected` after `Connect`.
pub const LE_CONNECTED_WAIT_SECS: u128 = 10;

/// How long the PipeWire sink of a device is waited for.
pub const SINK_WAIT_SECS: u128 = 10;

/// What follows one connection attempt.
#[derive(Debug, Clone, Copy, PartialEq, Eq, Structural)]
pub enum ConnectStep {
    /// `Connect` succeeded.
    Connected,
    /// BlueZ is already connecting the device: wait for it.
    AlreadyInProgress,
    /// Pause two seconds, then try again.
    RetryAfterPause,
    /// No attempt is left: the connection failed.
    GiveUp,
}

/// What follows one look at whether a device is ready.
#[derive(Debug, Clone, Copy, PartialEq, Eq, Structural)]
pub enum PollStep {
    /// The awaited condition holds.
    Ready,
    /// Not yet: sleep and look again.
    Sleep,
    /// The time is up.
    TimedOut,
}

/// What follows one look at a classic device's services.
#[derive(Debug, Clone, Copy, PartialEq, Eq, Structural)]
pub enum ServicesStep {
    /// Connected with its services resolved.
    Ready,
    /// Not yet: sleep and look again.
    Sleep,
    /// Connected but its services did not resolve in time on the first
    /// attempt: disconnect, wait three seconds, connect again, start the
    /// second attempt.
    Reconnect,
    /// It did not stay connected.
    NotResponding,
    /// Connected, but the services never resolved.
    ServicesMissing,
}

/// A connection error that means BlueZ is connecting already.
pub open spec fn is_in_progress_error(msg: Seq<char>) -> bool {
    has_substring(msg, "InProgress"@) || has_substring(msg, "busy"@)
}

/// What follows attempt number `attempt` (from 1) of `Connect`, given the
/// error text it failed with, if it failed.
pub open spec fn spec_connect_step(attempt: u32, error: Option<Seq<char>>) -> ConnectStep {
    match error {
        None => ConnectStep::Connected,
        Some(msg) => if is_in_progress_error(msg) {
            ConnectStep::AlreadyInProgress
        } else if attempt < MAX_CONNECT_ATTEMPTS {
            ConnectStep::RetryAfterPause
        } else {
            ConnectStep::GiveUp
        },
    }
}

/// What follows attempt number `attempt` (from 1) of `Connect`.
pub fn connect_step(attempt: u32, error: Option<&str>) -> (r: ConnectStep)
    ensures
        r == spec_connect_step(attempt, match error { Some(e) => Some(e@), None => None }),
{
    match error {
        None => ConnectStep::Connected,
        Some(e) => {
            let cs = chars_of(e);
            if contains_text(&cs, "InProgress") || contains_text(&cs, "busy") {
                ConnectStep::AlreadyInProgress
            } else if attempt < MAX_CONNECT_ATTEMPTS {
                ConnectStep::RetryAfterPause
            } else {
                ConnectStep::GiveUp
            }
        },
    }
}

/// The message shown when the device could not be connected, chosen by
/// what the last error says.
pub open spec fn spec_friendly_connect_error(alias: Seq<char>, err: Seq<char>) -> Seq<char> {
    if has_substring(err, "NotReady"@) || has_substring(err, "not available"@) {
        alias + " is not powered on or out of range."@
    } else if has_substring(err, "connection-unknown"@) || has_substring(err, "Does Not Exist"@) {
        alias + " could not be reached."@
    } else if has_substring(err, "ConnectFailed"@) || has_substring(err, "Page Timeout"@)
        || has_substring(err, "page-timeout"@) {
        alias + " is not responding."@
    } else {
        alias + " could not be connected."@
    }
}

/// The message shown when the device could not be connected.
pub fn friendly_connect_error(alias: &str, err: &str) -> (r: String)
    ensures
        r@ == spec_friendly_connect_error(alias@, err@),
{
    let cs = chars_of(err);
    let mut r = owned(alias);
    if contains_text(&cs, "NotReady") || contains_text(&cs, "not available") {
        r.append(" is not powered on or out of range.");
    } else if contains_text(&cs, "connection-unknown") || contains_text(&cs, "Does Not Exist") {
        r.append(" could not be reached.");
    } else if contains_text(&cs, "ConnectFailed") || contains_text(&cs, "Page Timeout")
        || contains_text(&cs, "page-timeout") {
        r.append(" is not responding.");
    } else {
        r.append(" could not be connected.");
    }
    r
}

/// "<alias> is not responding."
pub fn not_responding_message(alias: &str) -> (r: String)
    ensures
        r@ == alias@ + " is not responding."@,
{
    let mut r = owned(alias);
    r.append(" is not responding.");
    r
}

/// "<alias> connected but audio services did not start. Try again."
pub fn services_missing_message(alias: &str) -> (r: String)
    ensures
        r@ == alias@ + " connected but audio services did not start. Try again."@,
{
    let mut r = owned(alias);
    r.append(" connected but audio services did not start. Try again.");
    r
}

/// A wait that looks at the clock first: while less than `limit_secs` have
/// passed, it is over once the condition holds, else it sleeps.
pub open spec fn spec_poll_until(ready: bool, elapsed_nanos: u128, limit_secs: u128) -> PollStep {
    if elapsed_nanos >= limit_secs * NANOS_PER_SEC {
        PollStep::TimedOut
    } else if ready {
        PollStep::Ready
    } else {
        PollStep::Sleep
    }
}

/// One step of a wait that looks at the clock first (the LE waits).
pub fn poll_until(ready: bool, elapsed_nanos: u128, limit_secs: u128) -> (r: PollStep)
    requires
        limit_secs <= u128::MAX / NANOS_PER_SEC,
    ensures
        r == spec_poll_until(ready, elapsed_nanos, limit_secs),
{
    assert(limit_secs * NANOS_PER_SEC <= u128::MAX) by (nonlinear_arith)
        requires
            limit_secs <= u128::MAX / NANOS_PER_SEC,
            NANOS_PER_SEC == 1_000_000_000,
    ;
    if elapsed_nanos >= limit_secs * NANOS_PER_SEC {
        PollStep::TimedOut
    } else if ready {
        PollStep::Ready
    } else {
        PollStep::Sleep
    }
}

/// A wait that looks at the condition first: it is over once the condition
/// holds, else it fails once more than `limit_secs` have passed, else it
/// sleeps (the wait for the PipeWire sink).
pub open spec fn spec_poll_found(found: bool, elapsed_nanos: u128, limit_secs: u128) -> PollStep {
    if found {
        PollStep::Ready
    } else if elapsed_nanos > limit_secs * NANOS_PER_SEC {
        PollStep::TimedOut
    } else {
        PollStep::Sleep
    }
}

/// One step of a wait that looks at the condition first.
pub fn poll_found(found: bool, elapsed_nanos: u128, limit_secs: u128) -> (r: PollStep)
    requires
        limit_secs <= u128::MAX / NANOS_PER_SEC,
    ensures
        r == spec_poll_found(found, elapsed_nanos, limit_secs),
{
    assert(limit_secs * NANOS_PER_SEC <= u128::MAX) by (nonlinear_arith)
        requires
            limit_secs <= u128::MAX / NANOS_PER_SEC,
            NANOS_PER_SEC == 1_000_000_000,
    ;
    if found {
        PollStep::Ready
    } else if elapsed_nanos > limit_secs * NANOS_PER_SEC {
        PollStep::TimedOut
    } else {
        PollStep::Sleep
    }
}

/// How long attempt `attempt` of the wait for services lasts: 10 s for the
/// first, 15 s for the second.
pub open spec fn services_timeout_secs(attempt: u32) -> u128 {
    if attempt == 1 { 10 } else { 15 }
}

/// One look at a classic device during attempt `attempt` (1 or 2) of the wait
/// for its services.
pub open spec fn spec_services_step(attempt: u32, connected: bool, resolved: bool, elapsed_nanos: u128) -> ServicesStep {
    if connected && resolved {
        ServicesStep::Ready
    } else if elapsed_nanos > services_timeout_secs(attempt) * NANOS_PER_SEC {
        if !connected {
            ServicesStep::NotResponding
        } else if attempt == 1 {
            ServicesStep::Reconnect
        } else {
            ServicesStep::ServicesMissing
        }
    } else {
        ServicesStep::Sleep
    }
}

/// Wait for Connected=true and ServicesResolved=true (classic BT only): one
/// look at the device. If services don't resolve within 10s, disconnect and
/// reconnect once.
pub fn wait_for_services(attempt: u32, connected: bool, resolved: bool, elapsed_nanos: u128) -> (r: ServicesStep)
    ensures
        r == spec_services_step(attempt, connected, resolved, elapsed_nanos),
{
    let timeout: u128 = if attempt == 1 { 10 } else { 15 };
    if connected && resolved {
        ServicesStep::Ready
    } else if elapsed_nanos > timeout * NANOS_PER_SEC {
        if !connected {
            ServicesStep::NotResponding
        } else if attempt == 1 {
            ServicesStep::Reconnect
        } else {
            ServicesStep::ServicesMissing
        }
    } else {
        ServicesStep::Sleep
    }
}

} // verus!
