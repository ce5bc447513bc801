//! Connecting the target and setting up its audio as a sequence of steps:
//! the caller performs each action and reports what came of it.

use vstd::prelude::*;

use crate::connect::{
    connect_step, friendly_connect_error, not_responding_message, poll_until,
    services_missing_message, spec_connect_step, spec_friendly_connect_error, spec_poll_until,
    spec_services_step, wait_for_services, ConnectStep, PollStep, ServicesStep,
    LE_AUTOCONNECT_WAIT_SECS, LE_CONNECTED_WAIT_SECS, MAX_CONNECT_ATTEMPTS,
};
use crate::text::owned;

verus! {

/// The pause between two looks at the device, in milliseconds.
pub const POLL_MILLIS: u64 = 300;

/// The pause before a new connection attempt, in milliseconds.
pub const RETRY_PAUSE_MILLIS: u64 = 2000;

/// What the caller is asked to do next.
pub enum ConnectAction {
    /// Read the device's `Connected` property (false when unreadable),
    /// restarting the wait's clock first when asked; answer `Observed`.
    CheckConnected { restart_clock: bool },
    /// Sleep this many milliseconds; answer `Slept`.
    Sleep(u64),
    /// Call `Connect`; answer `ConnectResult`.
    Connect,
    /// Read `Connected` and `ServicesResolved` (false when unreadable),
    /// restarting the wait's clock first when asked; answer
    /// `ServicesObserved`.
    CheckServices { restart_clock: bool },
    /// Disconnect, sleep three seconds, call `Connect`, ignoring errors;
    /// answer `Reconnected`.
    Reconnect,
    /// Wait for the device's PipeWire sink, make it the default and move the
    /// streams to it; answer `AudioReady`.
    SetupAudio,
    /// The device is connected and its audio set up.
    Done,
    /// Connecting failed with this message.
    Fail(String),
}

/// What came of the last action. Elapsed times are counted from the last
/// restart of the clock.
pub enum ConnectEvent {
    Observed { connected: bool, elapsed_nanos: u128 },
    Slept,
    ConnectResult(Option<String>),
    ServicesObserved { connected: bool, resolved: bool, elapsed_nanos: u128 },
    Reconnected,
    AudioReady(Result<(), String>),
}

/// Where connecting stands.
#[derive(Debug, Clone, Copy, PartialEq, Eq, Structural)]
pub enum ConnectPhase {
    /// LE only: is the device connected already?
    InitialCheck,
    /// LE only: waiting up to four seconds for the device to connect itself.
    AutoWait,
    AutoWaitSleeping,
    /// Is the device connected, or must `Connect` be called?
    ConnectCheck,
    Connecting,
    RetryPause,
    /// LE: waiting up to ten seconds for `Connected`.
    LeWait,
    LeWaitSleeping,
    LeFinalCheck,
    /// Classic: waiting for the services to resolve.
    Services,
    ServicesSleeping,
    Reconnecting,
    Audio,
    Done,
    Failed,
}

/// The event a phase waits for.
pub open spec fn awaits_event(phase: ConnectPhase, event: ConnectEvent) -> bool {
    match phase {
        ConnectPhase::InitialCheck | ConnectPhase::AutoWait | ConnectPhase::ConnectCheck
        | ConnectPhase::LeWait | ConnectPhase::LeFinalCheck => event is Observed,
        ConnectPhase::AutoWaitSleeping | ConnectPhase::RetryPause | ConnectPhase::LeWaitSleeping
        | ConnectPhase::ServicesSleeping => event is Slept,
        ConnectPhase::Connecting => event is ConnectResult,
        ConnectPhase::Services => event is ServicesObserved,
        ConnectPhase::Reconnecting => event is Reconnected,
        ConnectPhase::Audio => event is AudioReady,
        ConnectPhase::Done | ConnectPhase::Failed => false,
    }
}

/// Connecting one device.
pub struct ConnectMachine {
    is_le: bool,
    alias: String,
    phase: ConnectPhase,
    attempt: u32,
    services_attempt: u32,
    seen_ready: Ghost<bool>,
}

/// The action reads `Connected`, restarting the clock or not.
pub open spec fn checks(action: ConnectAction, restart: bool) -> bool {
    action matches ConnectAction::CheckConnected { restart_clock } && restart_clock == restart
}

/// The action reads the services, restarting the clock or not.
pub open spec fn checks_services(action: ConnectAction, restart: bool) -> bool {
    action matches ConnectAction::CheckServices { restart_clock } && restart_clock == restart
}

/// The action sleeps this long.
pub open spec fn sleeps_for(action: ConnectAction, millis: u64) -> bool {
    action matches ConnectAction::Sleep(ms) && ms == millis
}

/// The action fails with this message.
pub open spec fn fails_with_message(action: ConnectAction, msg: Seq<char>) -> bool {
    action matches ConnectAction::Fail(m) && m@ == msg
}

/// The step once the device is connected: LE devices are watched until they
/// report `Connected`; classic devices until their services resolve.
pub open spec fn after_connect(m2: ConnectMachine, is_le: bool, action: ConnectAction) -> bool {
    if is_le {
        m2.phase() == ConnectPhase::LeWait && checks(action, true)
    } else {
        m2.phase() == ConnectPhase::Services && m2.services_attempt() == 1
            && checks_services(action, true)
    }
}

/// A failure with this message.
pub open spec fn fails(m2: ConnectMachine, msg: Seq<char>, action: ConnectAction) -> bool {
    m2.phase() == ConnectPhase::Failed && fails_with_message(action, msg)
}

/// A pause of the poll interval, in the given phase.
pub open spec fn sleeps(m2: ConnectMachine, phase: ConnectPhase, action: ConnectAction) -> bool {
    m2.phase() == phase && sleeps_for(action, POLL_MILLIS)
}

/// What one step does, by the phase it starts in and the event it is given.
pub open spec fn connect_step_result(m: ConnectMachine, event: ConnectEvent, m2: ConnectMachine, action: ConnectAction) -> bool {
    let alias = m.alias_text();
    match (m.phase(), event) {
        (ConnectPhase::InitialCheck, ConnectEvent::Observed { connected, .. }) => if connected {
            m2.phase() == ConnectPhase::ConnectCheck && checks(action, false)
        } else {
            m2.phase() == ConnectPhase::AutoWait && checks(action, true)
        },
        (ConnectPhase::AutoWait, ConnectEvent::Observed { connected, elapsed_nanos }) => if spec_poll_until(
            connected,
            elapsed_nanos,
            LE_AUTOCONNECT_WAIT_SECS,
        ) == PollStep::Sleep {
            sleeps(m2, ConnectPhase::AutoWaitSleeping, action)
        } else {
            m2.phase() == ConnectPhase::ConnectCheck && checks(action, false)
        },
        (ConnectPhase::ConnectCheck, ConnectEvent::Observed { connected, .. }) => if connected {
            after_connect(m2, m.target_le(), action)
        } else {
            m2.phase() == ConnectPhase::Connecting && m2.attempt() == 1 && action is Connect
        },
        (ConnectPhase::LeWait, ConnectEvent::Observed { connected, elapsed_nanos }) => if spec_poll_until(
            connected,
            elapsed_nanos,
            LE_CONNECTED_WAIT_SECS,
        ) == PollStep::Sleep {
            sleeps(m2, ConnectPhase::LeWaitSleeping, action)
        } else {
            m2.phase() == ConnectPhase::LeFinalCheck && checks(action, false)
        },
        (_, ConnectEvent::Observed { connected, .. }) => if connected {
            m2.phase() == ConnectPhase::Audio && action is SetupAudio
        } else {
            fails(m2, alias + " is not responding."@, action)
        },
        (ConnectPhase::AutoWaitSleeping, ConnectEvent::Slept) => m2.phase() == ConnectPhase::AutoWait
            && checks(action, false),
        (ConnectPhase::RetryPause, ConnectEvent::Slept) => m2.phase() == ConnectPhase::Connecting
            && m2.attempt() == m.attempt() + 1 && action is Connect,
        (ConnectPhase::LeWaitSleeping, ConnectEvent::Slept) => m2.phase() == ConnectPhase::LeWait
            && checks(action, false),
        (_, ConnectEvent::Slept) => m2.phase() == ConnectPhase::Services && m2.services_attempt()
            == m.services_attempt() && checks_services(action, false),
        (_, ConnectEvent::ConnectResult(error)) => match spec_connect_step(
            m.attempt(),
            match error {
                Some(e) => Some(e@),
                None => None,
            },
        ) {
            ConnectStep::Connected | ConnectStep::AlreadyInProgress => after_connect(
                m2,
                m.target_le(),
                action,
            ),
            ConnectStep::RetryAfterPause => m2.phase() == ConnectPhase::RetryPause && m2.attempt()
                == m.attempt() && sleeps_for(action, RETRY_PAUSE_MILLIS),
            ConnectStep::GiveUp => fails(
                m2,
                spec_friendly_connect_error(alias, error.unwrap()@),
                action,
            ),
        },
        (_, ConnectEvent::ServicesObserved { connected, resolved, elapsed_nanos }) => match spec_services_step(
            m.services_attempt(),
            connected,
            resolved,
            elapsed_nanos,
        ) {
            ServicesStep::Ready => m2.phase() == ConnectPhase::Audio && action is SetupAudio,
            ServicesStep::Sleep => sleeps(m2, ConnectPhase::ServicesSleeping, action)
                && m2.services_attempt() == m.services_attempt(),
            ServicesStep::Reconnect => m2.phase() == ConnectPhase::Reconnecting && action is Reconnect,
            ServicesStep::NotResponding => fails(m2, alias + " is not responding."@, action),
            ServicesStep::ServicesMissing => fails(
                m2,
                alias + " connected but audio services did not start. Try again."@,
                action,
            ),
        },
        (_, ConnectEvent::Reconnected) => m2.phase() == ConnectPhase::Services && m2.services_attempt()
            == 2 && checks_services(action, true),
        (_, ConnectEvent::AudioReady(Ok(_))) => m2.phase() == ConnectPhase::Done && action is Done,
        (_, ConnectEvent::AudioReady(Err(e))) => fails(m2, e@, action),
    }
}

impl ConnectMachine {
    /// The machine's bookkeeping is consistent: `Connect` is tried at most
    /// three times, the services are waited for at most twice, and audio is
    /// set up only once the device was seen ready.
    pub closed spec fn wf(&self) -> bool {
        &&& (self.phase is Connecting || self.phase is RetryPause) ==> 1 <= self.attempt
            <= MAX_CONNECT_ATTEMPTS
        &&& self.phase is RetryPause ==> self.attempt < MAX_CONNECT_ATTEMPTS
        &&& (self.phase is Services || self.phase is ServicesSleeping) ==> (self.services_attempt
            == 1 || self.services_attempt == 2)
        &&& self.phase is Reconnecting ==> self.services_attempt == 1
        &&& (self.phase is Audio || self.phase is Done) ==> self.seen_ready@
        &&& (self.phase is InitialCheck || self.phase is AutoWait || self.phase is AutoWaitSleeping)
            ==> self.is_le
        &&& (self.phase is LeWait || self.phase is LeWaitSleeping || self.phase is LeFinalCheck)
            ==> self.is_le
        &&& (self.phase is Services || self.phase is ServicesSleeping || self.phase is Reconnecting)
            ==> !self.is_le
    }

    /// Where connecting stands.
    pub closed spec fn phase(&self) -> ConnectPhase {
        self.phase
    }

    /// The device's name, as failure messages show it.
    pub closed spec fn alias_text(&self) -> Seq<char> {
        self.alias@
    }

    /// Whether the device is an LE device.
    pub closed spec fn target_le(&self) -> bool {
        self.is_le
    }

    /// The number of the current `Connect` attempt (from 1).
    pub closed spec fn attempt(&self) -> u32 {
        self.attempt
    }

    /// The number of the current wait for the services (1 or 2).
    pub closed spec fn services_attempt(&self) -> u32 {
        self.services_attempt
    }

    /// Whether the device was seen ready: connected (LE), or connected with
    /// its services resolved (classic).
    pub closed spec fn seen_ready(&self) -> bool {
        self.seen_ready@
    }

    /// Begins connecting the device: an LE device is first looked at, to
    /// give it time to connect by itself; otherwise the first step looks
    /// whether it is connected.
    pub fn start(alias: &str, is_le: bool) -> (r: (ConnectMachine, ConnectAction))
        ensures
            r.0.wf(),
            r.0.alias_text() == alias@,
            r.0.target_le() == is_le,
            !r.0.seen_ready(),
            r.0.phase() == if is_le { ConnectPhase::InitialCheck } else { ConnectPhase::ConnectCheck },
            checks(r.1, false),
    {
        let m = ConnectMachine {
            is_le,
            alias: owned(alias),
            phase: if is_le { ConnectPhase::InitialCheck } else { ConnectPhase::ConnectCheck },
            attempt: 0,
            services_attempt: 0,
            seen_ready: Ghost(false),
        };
        (m, ConnectAction::CheckConnected { restart_clock: false })
    }

    /// Where connecting stands.
    pub fn current_phase(&self) -> (r: ConnectPhase)
        ensures
            r == self.phase(),
    {
        self.phase
    }

    /// Whether the machine waits for this event.
    pub fn accepts(&self, event: &ConnectEvent) -> (r: bool)
        ensures
            r == awaits_event(self.phase(), *event),
    {
        match (self.phase, event) {
            (ConnectPhase::InitialCheck, ConnectEvent::Observed { .. }) => true,
            (ConnectPhase::AutoWait, ConnectEvent::Observed { .. }) => true,
            (ConnectPhase::ConnectCheck, ConnectEvent::Observed { .. }) => true,
            (ConnectPhase::LeWait, ConnectEvent::Observed { .. }) => true,
            (ConnectPhase::LeFinalCheck, ConnectEvent::Observed { .. }) => true,
            (ConnectPhase::AutoWaitSleeping, ConnectEvent::Slept) => true,
            (ConnectPhase::RetryPause, ConnectEvent::Slept) => true,
            (ConnectPhase::LeWaitSleeping, ConnectEvent::Slept) => true,
            (ConnectPhase::ServicesSleeping, ConnectEvent::Slept) => true,
            (ConnectPhase::Connecting, ConnectEvent::ConnectResult(_)) => true,
            (ConnectPhase::Services, ConnectEvent::ServicesObserved { .. }) => true,
            (ConnectPhase::Reconnecting, ConnectEvent::Reconnected) => true,
            (ConnectPhase::Audio, ConnectEvent::AudioReady(_)) => true,
            _ => false,
        }
    }

    fn connected_next(&mut self) -> (action: ConnectAction)
        requires
            old(self).wf(),
            old(self).phase() == ConnectPhase::ConnectCheck || old(self).phase() == ConnectPhase::Connecting,
        ensures
            final(self).wf(),
            final(self).alias_text() == old(self).alias_text(),
            final(self).target_le() == old(self).target_le(),
            final(self).seen_ready() == old(self).seen_ready(),
            after_connect(*final(self), old(self).target_le(), action),
    {
        if self.is_le {
            self.phase = ConnectPhase::LeWait;
            ConnectAction::CheckConnected { restart_clock: true }
        } else {
            self.phase = ConnectPhase::Services;
            self.services_attempt = 1;
            ConnectAction::CheckServices { restart_clock: true }
        }
    }

    fn fail(&mut self, msg: String) -> (action: ConnectAction)
        requires
            old(self).wf(),
        ensures
            final(self).wf(),
            final(self).alias_text() == old(self).alias_text(),
            final(self).target_le() == old(self).target_le(),
            final(self).seen_ready() == old(self).seen_ready(),
            fails(*final(self), msg@, action),
    {
        self.phase = ConnectPhase::Failed;
        ConnectAction::Fail(msg)
    }

    /// Takes what came of the last action and returns the next one.
    pub fn step(&mut self, event: ConnectEvent) -> (action: ConnectAction)
        requires
            old(self).wf(),
            awaits_event(old(self).phase(), event),
        ensures
            final(self).wf(),
            final(self).alias_text() == old(self).alias_text(),
            final(self).target_le() == old(self).target_le(),
            connect_step_result(*old(self), event, *final(self), action),
    {
        match event {
            ConnectEvent::Observed { connected, elapsed_nanos } => match self.phase {
                ConnectPhase::InitialCheck => if connected {
                    self.phase = ConnectPhase::ConnectCheck;
                    ConnectAction::CheckConnected { restart_clock: false }
                } else {
                    self.phase = ConnectPhase::AutoWait;
                    ConnectAction::CheckConnected { restart_clock: true }
                },
                ConnectPhase::AutoWait => match poll_until(connected, elapsed_nanos, LE_AUTOCONNECT_WAIT_SECS) {
                    PollStep::Sleep => {
                        self.phase = ConnectPhase::AutoWaitSleeping;
                        ConnectAction::Sleep(POLL_MILLIS)
                    },
                    _ => {
                        self.phase = ConnectPhase::ConnectCheck;
                        ConnectAction::CheckConnected { restart_clock: false }
                    },
                },
                ConnectPhase::ConnectCheck => if connected {
                    self.connected_next()
                } else {
                    self.phase = ConnectPhase::Connecting;
                    self.attempt = 1;
                    ConnectAction::Connect
                },
                ConnectPhase::LeWait => match poll_until(connected, elapsed_nanos, LE_CONNECTED_WAIT_SECS) {
                    PollStep::Sleep => {
                        self.phase = ConnectPhase::LeWaitSleeping;
                        ConnectAction::Sleep(POLL_MILLIS)
                    },
                    _ => {
                        self.phase = ConnectPhase::LeFinalCheck;
                        ConnectAction::CheckConnected { restart_clock: false }
                    },
                },
                _ => if connected {
                    self.phase = ConnectPhase::Audio;
                    proof {
                        self.seen_ready = Ghost(true);
                    }
                    ConnectAction::SetupAudio
                } else {
                    let msg = not_responding_message(self.alias.as_str());
                    self.fail(msg)
                },
            },
            ConnectEvent::Slept => match self.phase {
                ConnectPhase::AutoWaitSleeping => {
                    self.phase = ConnectPhase::AutoWait;
                    ConnectAction::CheckConnected { restart_clock: false }
                },
                ConnectPhase::RetryPause => {
                    self.phase = ConnectPhase::Connecting;
                    self.attempt = self.attempt + 1;
                    ConnectAction::Connect
                },
                ConnectPhase::LeWaitSleeping => {
                    self.phase = ConnectPhase::LeWait;
                    ConnectAction::CheckConnected { restart_clock: false }
                },
                _ => {
                    self.phase = ConnectPhase::Services;
                    ConnectAction::CheckServices { restart_clock: false }
                },
            },
            ConnectEvent::ConnectResult(error) => {
                let step = connect_step(self.attempt, match &error {
                    Some(e) => Some(e.as_str()),
                    None => None,
                });
                match step {
                    ConnectStep::Connected | ConnectStep::AlreadyInProgress => self.connected_next(),
                    ConnectStep::RetryAfterPause => {
                        self.phase = ConnectPhase::RetryPause;
                        ConnectAction::Sleep(RETRY_PAUSE_MILLIS)
                    },
                    ConnectStep::GiveUp => {
                        let e = match &error {
                            Some(e) => e.as_str(),
                            None => "",
                        };
                        let msg = friendly_connect_error(self.alias.as_str(), e);
                        self.fail(msg)
                    },
                }
            },
            ConnectEvent::ServicesObserved { connected, resolved, elapsed_nanos } => {
                match wait_for_services(self.services_attempt, connected, resolved, elapsed_nanos) {
                    ServicesStep::Ready => {
                        self.phase = ConnectPhase::Audio;
                        proof {
                            self.seen_ready = Ghost(true);
                        }
                        ConnectAction::SetupAudio
                    },
                    ServicesStep::Sleep => {
                        self.phase = ConnectPhase::ServicesSleeping;
                        ConnectAction::Sleep(POLL_MILLIS)
                    },
                    ServicesStep::Reconnect => {
                        self.phase = ConnectPhase::Reconnecting;
                        ConnectAction::Reconnect
                    },
                    ServicesStep::NotResponding => {
                        let msg = not_responding_message(self.alias.as_str());
                        self.fail(msg)
                    },
                    ServicesStep::ServicesMissing => {
                        let msg = services_missing_message(self.alias.as_str());
                        self.fail(msg)
                    },
                }
            },
            ConnectEvent::Reconnected => {
                self.phase = ConnectPhase::Services;
                self.services_attempt = 2;
                ConnectAction::CheckServices { restart_clock: true }
            },
            ConnectEvent::AudioReady(Ok(())) => {
                self.phase = ConnectPhase::Done;
                ConnectAction::Done
            },
            ConnectEvent::AudioReady(Err(e)) => self.fail(e),
        }
    }
}

/// `Connect` is called at most three times: while connecting, the attempt
/// number stays between 1 and 3, and a pause before another attempt comes
/// only after an attempt below 3.
pub proof fn law_connect_attempts_bounded(m: ConnectMachine)
    requires
        m.wf(),
        m.phase() == ConnectPhase::Connecting || m.phase() == ConnectPhase::RetryPause,
    ensures
        1 <= m.attempt() <= MAX_CONNECT_ATTEMPTS,
        m.phase() == ConnectPhase::RetryPause ==> m.attempt() < MAX_CONNECT_ATTEMPTS,
{
}

/// Audio is set up, and connecting succeeds, only for a device that was
/// seen ready.
pub proof fn law_audio_only_when_ready(m: ConnectMachine)
    requires
        m.wf(),
        m.phase() == ConnectPhase::Audio || m.phase() == ConnectPhase::Done,
    ensures
        m.seen_ready(),
{
}

/// The LE wait for `Connected` lasts ten seconds: while less than ten
/// seconds have passed, a look that finds the device not connected leads to
/// a 300 ms pause and another look, never to the final check; a look that
/// finds it connected, or one after the ten seconds, leads to the final
/// check.
pub proof fn law_le_wait_polls_ten_seconds(
    m: ConnectMachine,
    connected: bool,
    elapsed_nanos: u128,
    m2: ConnectMachine,
    action: ConnectAction,
)
    requires
        m.phase() == ConnectPhase::LeWait,
        connect_step_result(m, ConnectEvent::Observed { connected, elapsed_nanos }, m2, action),
    ensures
        !connected && elapsed_nanos < 10_000_000_000 ==> m2.phase() == ConnectPhase::LeWaitSleeping
            && (action matches ConnectAction::Sleep(ms) && ms == 300),
        (connected && elapsed_nanos < 10_000_000_000) || elapsed_nanos >= 10_000_000_000 ==> m2.phase()
            == ConnectPhase::LeFinalCheck && (action matches ConnectAction::CheckConnected {
            restart_clock,
        } && !restart_clock),
{
}

/// An LE device is given four seconds to connect by itself: while less than
/// four seconds have passed and it is not connected, it is looked at again
/// after 300 ms; then `Connect` is considered.
pub proof fn law_le_autoconnect_waits_four_seconds(
    m: ConnectMachine,
    connected: bool,
    elapsed_nanos: u128,
    m2: ConnectMachine,
    action: ConnectAction,
)
    requires
        m.phase() == ConnectPhase::AutoWait,
        connect_step_result(m, ConnectEvent::Observed { connected, elapsed_nanos }, m2, action),
    ensures
        !connected && elapsed_nanos < 4_000_000_000 ==> m2.phase() == ConnectPhase::AutoWaitSleeping
            && (action matches ConnectAction::Sleep(ms) && ms == 300),
        (connected && elapsed_nanos < 4_000_000_000) || elapsed_nanos >= 4_000_000_000 ==> m2.phase()
            == ConnectPhase::ConnectCheck && (action matches ConnectAction::CheckConnected {
            restart_clock,
        } && !restart_clock),
{
}

/// The last look of the LE wait decides: connected, the audio is set up;
/// not connected, connecting fails with "<alias> is not responding.".
pub proof fn law_le_final_check(
    m: ConnectMachine,
    connected: bool,
    elapsed_nanos: u128,
    m2: ConnectMachine,
    action: ConnectAction,
)
    requires
        m.phase() == ConnectPhase::LeFinalCheck,
        connect_step_result(m, ConnectEvent::Observed { connected, elapsed_nanos }, m2, action),
    ensures
        connected ==> m2.phase() == ConnectPhase::Audio && action is SetupAudio,
        !connected ==> m2.phase() == ConnectPhase::Failed && (action matches ConnectAction::Fail(msg)
            && msg@ == m.alias_text() + " is not responding."@),
{
}

/// A `Connect` that answers that BlueZ is connecting already
/// ("InProgress") counts as connected: an LE device is then watched for
/// `Connected` with a fresh clock, a classic one for its services.
pub proof fn law_in_progress_counts_as_connecting(
    m: ConnectMachine,
    error: String,
    m2: ConnectMachine,
    action: ConnectAction,
)
    requires
        m.phase() == ConnectPhase::Connecting,
        crate::text::has_substring(error@, "InProgress"@),
        connect_step_result(m, ConnectEvent::ConnectResult(Some(error)), m2, action),
    ensures
        m.target_le() ==> m2.phase() == ConnectPhase::LeWait && (action matches ConnectAction::CheckConnected {
            restart_clock,
        } && restart_clock),
        !m.target_le() ==> m2.phase() == ConnectPhase::Services && (action matches ConnectAction::CheckServices {
            restart_clock,
        } && restart_clock),
{
}

/// A failed `Connect` that is not "connecting already" is tried again after
/// two seconds while fewer than three attempts were made; the third failure
/// ends connecting with the message chosen from its error.
pub proof fn law_connect_retries_three_times(
    m: ConnectMachine,
    error: String,
    m2: ConnectMachine,
    action: ConnectAction,
)
    requires
        m.phase() == ConnectPhase::Connecting,
        !crate::text::has_substring(error@, "InProgress"@),
        !crate::text::has_substring(error@, "busy"@),
        connect_step_result(m, ConnectEvent::ConnectResult(Some(error)), m2, action),
    ensures
        m.attempt() < 3 ==> m2.phase() == ConnectPhase::RetryPause && (action matches ConnectAction::Sleep(
            ms,
        ) && ms == 2000),
        m.attempt() >= 3 ==> m2.phase() == ConnectPhase::Failed && (action matches ConnectAction::Fail(msg)
            && msg@ == crate::connect::spec_friendly_connect_error(m.alias_text(), error@)),
{
}

/// The wait for a classic device's services: connected with its services
/// resolved, the audio is set up; otherwise it looks again after 300 ms
/// until 10 s (first attempt) or 15 s (second) have passed; then a device
/// that is not connected fails as not responding, a connected one is
/// reconnected once, and after the second attempt fails as missing its
/// services.
pub proof fn law_services_wait(
    m: ConnectMachine,
    connected: bool,
    resolved: bool,
    elapsed_nanos: u128,
    m2: ConnectMachine,
    action: ConnectAction,
)
    requires
        m.phase() == ConnectPhase::Services,
        m.services_attempt() == 1 || m.services_attempt() == 2,
        connect_step_result(m, ConnectEvent::ServicesObserved { connected, resolved, elapsed_nanos }, m2, action),
    ensures
        connected && resolved ==> m2.phase() == ConnectPhase::Audio && action is SetupAudio,
        !(connected && resolved) && elapsed_nanos <= (if m.services_attempt() == 1 { 10_000_000_000u128 } else { 15_000_000_000u128 })
            ==> m2.phase() == ConnectPhase::ServicesSleeping && (action matches ConnectAction::Sleep(ms) && ms == 300),
        !connected && elapsed_nanos > (if m.services_attempt() == 1 { 10_000_000_000u128 } else { 15_000_000_000u128 })
            ==> m2.phase() == ConnectPhase::Failed && (action matches ConnectAction::Fail(msg) && msg@
            == m.alias_text() + " is not responding."@),
        connected && !resolved && m.services_attempt() == 1 && elapsed_nanos > 10_000_000_000
            ==> m2.phase() == ConnectPhase::Reconnecting && action is Reconnect,
        connected && !resolved && m.services_attempt() == 2 && elapsed_nanos > 15_000_000_000
            ==> m2.phase() == ConnectPhase::Failed && (action matches ConnectAction::Fail(msg) && msg@
            == m.alias_text() + " connected but audio services did not start. Try again."@),
{
}

} // verus!
