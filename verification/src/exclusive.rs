//! The exclusive switch as a sequence of steps: the caller performs each
//! action and reports what came of it, the switch decides what comes next.

use vstd::prelude::*;

use crate::blocklist::Blocklist;
use crate::bluez::{is_le_device, spec_is_le, DeviceProps};
use crate::device::spec_mac_from_path;
use crate::state::{records, AppState};
use crate::switch::{
    after_restore, after_rollback, invalid_path_message, Rollback, SwitchSession, TargetRestore,
};
use crate::text::{owned, same_text};

verus! {

/// What the caller is asked to do next.
pub enum SwitchAction {
    /// Write this state to the state file; answer `Saved`.
    Save(AppState),
    /// Read the target device's properties; answer `TargetRead`.
    ReadTarget,
    /// Set the target's `Trusted` to true; answer `TargetRestored`.
    TrustTarget,
    /// Set the target's `Blocked` to false, then give BlueZ two seconds;
    /// answer `TargetRestored`.
    UnblockTarget,
    /// Show the progress message if any, then connect the target and set up
    /// its audio; answer `SetupDone`.
    ConnectAndSetup { progress: Option<String>, alias: String, is_le: bool },
    /// Undo what was done to the target as the plan says (errors ignored),
    /// then disconnect it if it is connected; answer `RolledBack`.
    RollBack(Rollback),
    /// Show the progress message, then list the paths and addresses of the
    /// paired audio devices; answer `Listed`.
    ListDevices { message: String },
    /// Read the properties of the device at this path; answer `DeviceRead`.
    ReadDevice(String),
    /// Set the `Trusted` property of the device just read to false (an
    /// error is logged, not fatal); answer `DeviceDone`.
    Untrust,
    /// Read the device's `Connected` property (false when unreadable);
    /// answer `FlagRead`.
    CheckConnected,
    /// Disconnect the device (an error is logged, not fatal); answer
    /// `DeviceDone`.
    Disconnect,
    /// Read the device's `Blocked` property (false when unreadable); answer
    /// `FlagRead`.
    CheckBlocked,
    /// Set the device's `Blocked` property to true (an error is logged, not
    /// fatal); answer `BlockResult` with whether it succeeded.
    Block,
    /// The switch succeeded.
    Succeed,
    /// The switch failed with this error.
    Fail(String),
}

/// What came of the last action.
pub enum SwitchEvent {
    Saved(Result<(), String>),
    TargetRead(Result<DeviceProps, String>),
    TargetRestored(Result<(), String>),
    SetupDone(Result<(), String>),
    RolledBack,
    Listed(Result<Vec<(String, String)>, String>),
    DeviceRead(Result<DeviceProps, String>),
    DeviceDone,
    FlagRead(bool),
    BlockResult(bool),
}

/// Where a switch stands.
#[derive(Debug, Clone, Copy, PartialEq, Eq, Structural)]
pub enum SwitchPhase {
    SavingProgress,
    ReadingTarget,
    Restoring,
    Connecting,
    RollingBack,
    Listing,
    ReadingDevice,
    /// An LE device is being untrusted.
    Untrusting,
    ReadingConnected,
    Disconnecting,
    /// A classic device: is it blocked already?
    ReadingBlocked,
    Blocking,
    SavingClean,
    Succeeded,
    Failed,
}

/// The event a phase waits for.
pub open spec fn awaits(phase: SwitchPhase, event: SwitchEvent) -> bool {
    match phase {
        SwitchPhase::SavingProgress => event is Saved,
        SwitchPhase::ReadingTarget => event is TargetRead,
        SwitchPhase::Restoring => event is TargetRestored,
        SwitchPhase::Connecting => event is SetupDone,
        SwitchPhase::RollingBack => event is RolledBack,
        SwitchPhase::Listing => event is Listed,
        SwitchPhase::ReadingDevice => event is DeviceRead,
        SwitchPhase::Untrusting => event is DeviceDone,
        SwitchPhase::ReadingConnected => event is FlagRead,
        SwitchPhase::Disconnecting => event is DeviceDone,
        SwitchPhase::ReadingBlocked => event is FlagRead,
        SwitchPhase::Blocking => event is BlockResult,
        SwitchPhase::SavingClean => event is Saved,
        SwitchPhase::Succeeded => false,
        SwitchPhase::Failed => false,
    }
}

/// The first position at or after `from` whose address is not the target's
/// (the list's length when there is none).
pub open spec fn next_other(addrs: Seq<Seq<char>>, from: int, target: Seq<char>) -> int
    decreases addrs.len() - from,
{
    if from < 0 || from >= addrs.len() {
        addrs.len() as int
    } else if addrs[from] == target {
        next_other(addrs, from + 1, target)
    } else {
        from
    }
}

proof fn lemma_next_other_range(addrs: Seq<Seq<char>>, from: int, target: Seq<char>)
    requires
        0 <= from <= addrs.len(),
    ensures
        from <= next_other(addrs, from, target) <= addrs.len(),
        next_other(addrs, from, target) < addrs.len() ==> addrs[next_other(addrs, from, target)]
            != target,
    decreases addrs.len() - from,
{
    if from < addrs.len() && addrs[from] == target {
        lemma_next_other_range(addrs, from + 1, target);
    }
}

/// The addresses of a device list.
pub open spec fn addresses_of(list: Seq<(String, String)>) -> Seq<Seq<char>> {
    list.map_values(|e: (String, String)| e.1@)
}

/// After moving on from position `from`: the next device whose address is
/// not the target's is read, or, when none is left, the devices suppressed
/// join the block list and the clean state is saved.
pub open spec fn advanced(
    m: SwitchMachine,
    from: int,
    before: Set<Seq<char>>,
    after: Set<Seq<char>>,
    action: SwitchAction,
) -> bool {
    &&& m.position() == next_other(addresses_of(m.pending()), from, m.target())
    &&& m.position() < m.pending().len() ==> {
        &&& m.phase() == SwitchPhase::ReadingDevice
        &&& after == before
        &&& action matches SwitchAction::ReadDevice(path) && path@ == m.pending()[m.position()].0@
    }
    &&& m.position() >= m.pending().len() ==> {
        &&& m.phase() == SwitchPhase::SavingClean
        &&& after == before.union(m.newly().to_set())
        &&& action matches SwitchAction::Save(st) && records(st, m.target(), after, false)
    }
}

/// A failure with this error, the block list unchanged.
pub open spec fn fails_with(
    m: SwitchMachine,
    e: Seq<char>,
    before: Set<Seq<char>>,
    after: Set<Seq<char>>,
    action: SwitchAction,
) -> bool {
    &&& m.phase() == SwitchPhase::Failed
    &&& after == before
    &&& action matches SwitchAction::Fail(msg) && msg@ == e
}

/// The phases in which one listed device is being dealt with.
pub open spec fn is_device_phase(phase: SwitchPhase) -> bool {
    phase is ReadingDevice || phase is Untrusting || phase is ReadingConnected || phase is Disconnecting
        || phase is ReadingBlocked || phase is Blocking
}

/// Still at the same device, the block list unchanged, in `phase`.
pub open spec fn same_device(
    m: SwitchMachine,
    m2: SwitchMachine,
    phase: SwitchPhase,
    before: Set<Seq<char>>,
    after: Set<Seq<char>>,
) -> bool {
    &&& m2.phase() == phase
    &&& m2.pending() == m.pending()
    &&& m2.position() == m.position()
    &&& m2.newly() == m.newly()
    &&& m2.handled() == m.handled()
    &&& m2.device_le() == m.device_le()
    &&& after == before
}

/// The device at the current position is done with: its address joins the
/// devices this switch suppressed when it counts as suppressed, and the
/// switch moves on.
pub open spec fn recorded(
    m: SwitchMachine,
    m2: SwitchMachine,
    counts: bool,
    before: Set<Seq<char>>,
    after: Set<Seq<char>>,
    action: SwitchAction,
) -> bool {
    let addr = m.pending()[m.position()].1@;
    &&& m2.pending() == m.pending()
    &&& m2.handled() == m.handled().insert(m.position())
    &&& m2.newly() == if counts && addr != m.target() {
        m.newly().push(addr)
    } else {
        m.newly()
    }
    &&& advanced(m2, m.position() + 1, before, after, action)
}

/// Once the device is disconnected (or was not connected): an LE device is
/// done with and counts as suppressed; for a classic device, whether it is
/// blocked already is read.
pub open spec fn after_disconnect(
    m: SwitchMachine,
    m2: SwitchMachine,
    before: Set<Seq<char>>,
    after: Set<Seq<char>>,
    action: SwitchAction,
) -> bool {
    if m.device_le() {
        recorded(m, m2, true, before, after, action)
    } else {
        same_device(m, m2, SwitchPhase::ReadingBlocked, before, after) && action is CheckBlocked
    }
}

/// What one step does, by the phase it starts in and the event it is given.
pub open spec fn step_result(
    m: SwitchMachine,
    event: SwitchEvent,
    m2: SwitchMachine,
    action: SwitchAction,
    before: Set<Seq<char>>,
    after: Set<Seq<char>>,
) -> bool {
    let t = m.target();
    match (m.phase(), event) {
        (SwitchPhase::SavingProgress, SwitchEvent::Saved(Ok(_))) => m2.phase()
            == SwitchPhase::ReadingTarget && after == before && action is ReadTarget,
        (_, SwitchEvent::Saved(Ok(_))) => m2.phase() == SwitchPhase::Succeeded
            && after == before && action is Succeed,
        (_, SwitchEvent::Saved(Err(e))) => fails_with(m2, e@, before, after, action),
        (_, SwitchEvent::TargetRead(Err(e))) => fails_with(m2, e@, before, after, action),
        (_, SwitchEvent::TargetRead(Ok(p))) => {
            &&& m2.alias_text() == (match p.alias {
                Some(a) => a@,
                None => t,
            })
            &&& m2.target_le() == spec_is_le(p)
            &&& after == before
            &&& if m.suppressed_before() {
                &&& m2.phase() == SwitchPhase::Restoring
                &&& if spec_is_le(p) { action is TrustTarget } else { action is UnblockTarget }
            } else {
                &&& m2.phase() == SwitchPhase::Connecting
                &&& action matches SwitchAction::ConnectAndSetup { progress, alias, is_le } && progress
                    is None && alias@ == m2.alias_text() && is_le == m2.target_le()
            }
        },
        (_, SwitchEvent::TargetRestored(Err(e))) => fails_with(m2, e@, before, after, action),
        (_, SwitchEvent::TargetRestored(Ok(_))) => {
            &&& m2.phase() == SwitchPhase::Connecting
            &&& after == before.remove(t)
            &&& m2.alias_text() == m.alias_text() && m2.target_le() == m.target_le()
            &&& action matches SwitchAction::ConnectAndSetup { progress, alias, is_le } && (progress
                matches Some(msg) && msg@ == "Connecting to "@ + m.alias_text() + "..."@) && alias@
                == m.alias_text() && is_le == m.target_le()
        },
        (_, SwitchEvent::SetupDone(Ok(_))) => {
            &&& m2.phase() == SwitchPhase::Listing
            &&& after == before
            &&& m2.connected()
            &&& action matches SwitchAction::ListDevices { message } && message@
                == "Blocking other devices..."@
        },
        (_, SwitchEvent::SetupDone(Err(e))) => {
            &&& m2.phase() == SwitchPhase::RollingBack
            &&& after == after_rollback(before, t, m.suppressed_before())
            &&& m2.pending_error() == e@
            &&& action matches SwitchAction::RollBack(plan) && plan == (Rollback {
                untrust: m.suppressed_before() && m.target_le(),
                disconnect: m.suppressed_before() && m.target_le(),
                block: m.suppressed_before() && !m.target_le(),
            })
        },
        (_, SwitchEvent::RolledBack) => fails_with(m2, m.pending_error(), before, after, action),
        (_, SwitchEvent::Listed(Err(e))) => fails_with(m2, e@, before, after, action),
        (_, SwitchEvent::Listed(Ok(list))) => {
            &&& m2.pending() == list@
            &&& m2.handled() == Set::<int>::empty()
            &&& m2.newly() == m.newly()
            &&& advanced(m2, 0, before, after, action)
        },
        (_, SwitchEvent::DeviceRead(Err(e))) => fails_with(m2, e@, before, after, action),
        (_, SwitchEvent::DeviceRead(Ok(p))) => {
            &&& m2.pending() == m.pending()
            &&& m2.position() == m.position()
            &&& m2.newly() == m.newly()
            &&& m2.handled() == m.handled()
            &&& m2.device_le() == spec_is_le(p)
            &&& after == before
            &&& if spec_is_le(p) {
                m2.phase() == SwitchPhase::Untrusting && action is Untrust
            } else {
                m2.phase() == SwitchPhase::ReadingConnected && action is CheckConnected
            }
        },
        (SwitchPhase::Untrusting, SwitchEvent::DeviceDone) => same_device(
            m,
            m2,
            SwitchPhase::ReadingConnected,
            before,
            after,
        ) && action is CheckConnected,
        (SwitchPhase::ReadingConnected, SwitchEvent::FlagRead(connected)) => if connected {
            same_device(m, m2, SwitchPhase::Disconnecting, before, after) && action is Disconnect
        } else {
            after_disconnect(m, m2, before, after, action)
        },
        (_, SwitchEvent::DeviceDone) => after_disconnect(m, m2, before, after, action),
        (_, SwitchEvent::FlagRead(blocked)) => if blocked {
            recorded(m, m2, false, before, after, action)
        } else {
            same_device(m, m2, SwitchPhase::Blocking, before, after) && action is Block
        },
        (_, SwitchEvent::BlockResult(ok)) => recorded(m, m2, ok, before, after, action),
    }
}

/// An exclusive switch in progress.
pub struct SwitchMachine {
    session: SwitchSession,
    phase: SwitchPhase,
    alias: String,
    is_le: bool,
    pending: Vec<(String, String)>,
    next: usize,
    error: String,
    device_le: bool,
    initial: Ghost<Set<Seq<char>>>,
    blocks: Ghost<Set<Seq<char>>>,
    connected_ok: Ghost<bool>,
    handled: Ghost<Set<int>>,
}

impl SwitchMachine {
    /// The switch's bookkeeping is consistent: the block list as left so far
    /// follows from the phase and the list the switch began with.
    pub closed spec fn wf(&self) -> bool {
        &&& self.session.suppressed_before() == self.initial@.contains(self.session.target())
        &&& !self.session.newly().contains(self.session.target())
        &&& self.connected_ok@ ==> !self.blocks@.contains(self.session.target())
        &&& self.next <= self.pending@.len()
        &&& forall|k: int|
            0 <= k < self.next && addresses_of(self.pending@)[k] != self.session.target()
                ==> #[trigger] self.handled@.contains(k)
        &&& (self.phase is SavingClean || self.phase is Succeeded) ==> self.next == self.pending@.len()
        &&& is_device_phase(self.phase) ==> self.next < self.pending@.len()
            && addresses_of(self.pending@)[self.next as int] != self.session.target()
        &&& self.phase is Restoring ==> self.session.suppressed_before()
        &&& match self.phase {
            SwitchPhase::SavingProgress | SwitchPhase::ReadingTarget | SwitchPhase::Restoring
            | SwitchPhase::RollingBack => self.blocks@ == self.initial@ && !self.connected_ok@,
            SwitchPhase::Connecting => self.blocks@ == after_restore(
                self.initial@,
                self.session.target(),
                self.session.suppressed_before(),
            ) && !self.connected_ok@,
            SwitchPhase::Listing | SwitchPhase::ReadingDevice | SwitchPhase::Untrusting
            | SwitchPhase::ReadingConnected | SwitchPhase::Disconnecting | SwitchPhase::ReadingBlocked
            | SwitchPhase::Blocking => self.blocks@
                == after_restore(self.initial@, self.session.target(), self.session.suppressed_before())
                && self.connected_ok@,
            SwitchPhase::SavingClean | SwitchPhase::Succeeded => self.blocks@ == after_restore(
                self.initial@,
                self.session.target(),
                self.session.suppressed_before(),
            ).union(self.session.newly().to_set()) && self.connected_ok@,
            SwitchPhase::Failed => !self.connected_ok@ ==> self.blocks@ == self.initial@,
        }
    }

    /// Where the switch stands.
    pub closed spec fn phase(&self) -> SwitchPhase {
        self.phase
    }

    /// The block list the switch began with.
    pub closed spec fn initial(&self) -> Set<Seq<char>> {
        self.initial@
    }

    /// The block list as the switch has left it so far.
    pub closed spec fn blocks(&self) -> Set<Seq<char>> {
        self.blocks@
    }

    /// The target's MAC address.
    pub closed spec fn target(&self) -> Seq<char> {
        self.session.target()
    }

    /// The devices this switch has suppressed so far.
    pub closed spec fn newly(&self) -> Seq<Seq<char>> {
        self.session.newly()
    }

    /// Whether the target was connected and set up.
    pub closed spec fn connected(&self) -> bool {
        self.connected_ok@
    }

    /// The name the target is shown with.
    pub closed spec fn alias_text(&self) -> Seq<char> {
        self.alias@
    }

    /// Whether the target is an LE device.
    pub closed spec fn target_le(&self) -> bool {
        self.is_le
    }

    /// Whether this switcher had suppressed the target when the switch began.
    pub closed spec fn suppressed_before(&self) -> bool {
        self.session.suppressed_before()
    }

    /// The paired audio devices listed for suppression.
    pub closed spec fn pending(&self) -> Seq<(String, String)> {
        self.pending@
    }

    /// The position in `pending` being handled.
    pub closed spec fn position(&self) -> int {
        self.next as int
    }

    /// The positions in `pending` of the devices dealt with so far: each was
    /// read, then untrusted (LE), disconnected when connected, and blocked
    /// unless it was blocked already (classic).
    pub closed spec fn handled(&self) -> Set<int> {
        self.handled@
    }

    /// Whether the device being dealt with is an LE device.
    pub closed spec fn device_le(&self) -> bool {
        self.device_le
    }

    /// The error a rollback ends with.
    pub closed spec fn pending_error(&self) -> Seq<char> {
        self.error@
    }

    /// Begins a switch to the device at `target_path`: it fails at once when
    /// the path names no MAC address; else the first step saves the state as
    /// in progress.
    pub fn start(target_path: &str, suppressed: &Blocklist) -> (r: Result<(SwitchMachine, SwitchAction), String>)
        ensures
            match r {
                Ok((m, action)) => {
                    &&& m.wf()
                    &&& spec_mac_from_path(target_path@) == Some(m.target())
                    &&& m.initial() == suppressed@
                    &&& m.blocks() == suppressed@
                    &&& m.phase() == SwitchPhase::SavingProgress
                    &&& m.suppressed_before() == suppressed@.contains(m.target())
                    &&& m.newly() == Seq::<Seq<char>>::empty()
                    &&& action matches SwitchAction::Save(st) && records(st, m.target(), suppressed@, true)
                },
                Err(e) => {
                    &&& spec_mac_from_path(target_path@) is None
                    &&& e@ == invalid_path_message(target_path@)
                },
            },
    {
        let session = SwitchSession::begin(target_path, suppressed)?;
        let state = AppState::save_in_progress(session.target_mac(), suppressed);
        let m = SwitchMachine {
            session,
            phase: SwitchPhase::SavingProgress,
            alias: String::new(),
            is_le: false,
            pending: Vec::new(),
            next: 0,
            error: String::new(),
            device_le: false,
            initial: Ghost(suppressed@),
            blocks: Ghost(suppressed@),
            connected_ok: Ghost(false),
            handled: Ghost(Set::empty()),
        };
        Ok((m, SwitchAction::Save(state)))
    }

    /// Moves to the next device to suppress, or to saving the clean state.
    fn advance(&mut self, from: usize, suppressed: &mut Blocklist) -> (action: SwitchAction)
        requires
            old(self).wf(),
            from <= old(self).pending().len(),
            forall|k: int|
                0 <= k < from && addresses_of(old(self).pending())[k] != old(self).target()
                    ==> #[trigger] old(self).handled().contains(k),
            old(suppressed)@ == old(self).blocks(),
            old(self).phase() == SwitchPhase::Listing || is_device_phase(old(self).phase()),
        ensures
            final(self).wf(),
            final(suppressed)@ == final(self).blocks(),
            final(self).target() == old(self).target(),
            final(self).initial() == old(self).initial(),
            final(self).suppressed_before() == old(self).suppressed_before(),
            final(self).newly() == old(self).newly(),
            final(self).pending() == old(self).pending(),
            final(self).handled() == old(self).handled(),
            final(self).alias_text() == old(self).alias_text(),
            final(self).target_le() == old(self).target_le(),
            final(self).connected() == old(self).connected(),
            final(self).position() == next_other(addresses_of(old(self).pending()), from as int, old(self).target()),
            final(self).position() < final(self).pending().len() ==> {
                &&& final(self).phase() == SwitchPhase::ReadingDevice
                &&& final(suppressed)@ == old(suppressed)@
                &&& action matches SwitchAction::ReadDevice(path) && path@ == final(self).pending()[final(self).position()].0@
            },
            final(self).position() == final(self).pending().len() ==> {
                &&& final(self).phase() == SwitchPhase::SavingClean
                &&& final(suppressed)@ == old(suppressed)@.union(old(self).newly().to_set())
                &&& action matches SwitchAction::Save(st) && records(st, old(self).target(), final(suppressed)@, false)
            },
    {
        proof {
            lemma_next_other_range(addresses_of(self.pending@), from as int, self.session.target());
        }
        let mut next = from;
        while next < self.pending.len() && same_text(self.pending[next].1.as_str(), self.session.target_mac())
            invariant
                from <= next <= self.pending@.len(),
                *self == *old(self),
                forall|k: int| from <= k < next ==> addresses_of(self.pending@)[k] == self.session.target(),
                next_other(addresses_of(self.pending@), next as int, self.session.target())
                    == next_other(addresses_of(self.pending@), from as int, self.session.target()),
            decreases self.pending.len() - next,
        {
            assert(addresses_of(self.pending@)[next as int] == self.pending@[next as int].1@);
            next = next + 1;
        }
        self.next = next;
        proof {
            assert forall|k: int|
                0 <= k < self.next && addresses_of(self.pending@)[k] != self.session.target()
                    implies #[trigger] self.handled@.contains(k) by {
                if k >= from {
                    assert(addresses_of(self.pending@)[k] == self.session.target());
                } else {
                    assert(addresses_of(old(self).pending())[k] != old(self).target());
                    assert(old(self).handled().contains(k));
                }
            }
            lemma_next_other_range(addresses_of(self.pending@), self.next as int, self.session.target());
            if self.next < self.pending.len() {
                assert(addresses_of(self.pending@)[self.next as int] == self.pending@[self.next as int].1@);
            }
        }
        if self.next < self.pending.len() {
            self.phase = SwitchPhase::ReadingDevice;
            SwitchAction::ReadDevice(owned(self.pending[self.next].0.as_str()))
        } else {
            let state = self.session.finish(suppressed);
            proof {
                self.blocks = Ghost(suppressed@);
            }
            self.phase = SwitchPhase::SavingClean;
            SwitchAction::Save(state)
        }
    }

    /// Takes what came of the last action and returns the next one.
    pub fn step(&mut self, event: SwitchEvent, suppressed: &mut Blocklist) -> (action: SwitchAction)
        requires
            old(self).wf(),
            old(suppressed)@ == old(self).blocks(),
            awaits(old(self).phase(), event),
        ensures
            final(self).wf(),
            final(suppressed)@ == final(self).blocks(),
            final(self).target() == old(self).target(),
            final(self).initial() == old(self).initial(),
            final(self).suppressed_before() == old(self).suppressed_before(),
            step_result(*old(self), event, *final(self), action, old(suppressed)@, final(suppressed)@),
    {
        match event {
            SwitchEvent::Saved(Ok(())) => {
                if self.phase == SwitchPhase::SavingProgress {
                    self.phase = SwitchPhase::ReadingTarget;
                    SwitchAction::ReadTarget
                } else {
                    self.phase = SwitchPhase::Succeeded;
                    SwitchAction::Succeed
                }
            },
            SwitchEvent::Saved(Err(e)) => self.fail(e),
            SwitchEvent::TargetRead(Err(e)) => self.fail(e),
            SwitchEvent::TargetRead(Ok(p)) => {
                let le = is_le_device(&p);
                self.alias = self.session.target_alias(p.alias);
                self.is_le = le;
                match self.session.restore_action(le) {
                    TargetRestore::Nothing => {
                        self.phase = SwitchPhase::Connecting;
                        SwitchAction::ConnectAndSetup {
                            progress: None,
                            alias: owned(self.alias.as_str()),
                            is_le: le,
                        }
                    },
                    TargetRestore::Trust => {
                        self.phase = SwitchPhase::Restoring;
                        SwitchAction::TrustTarget
                    },
                    TargetRestore::Unblock => {
                        self.phase = SwitchPhase::Restoring;
                        SwitchAction::UnblockTarget
                    },
                }
            },
            SwitchEvent::TargetRestored(Err(e)) => self.fail(e),
            SwitchEvent::TargetRestored(Ok(())) => {
                self.session.target_restored(suppressed);
                proof {
                    self.blocks = Ghost(suppressed@);
                }
                self.phase = SwitchPhase::Connecting;
                SwitchAction::ConnectAndSetup {
                    progress: Some(SwitchSession::connecting_message(self.alias.as_str())),
                    alias: owned(self.alias.as_str()),
                    is_le: self.is_le,
                }
            },
            SwitchEvent::SetupDone(Ok(())) => {
                self.phase = SwitchPhase::Listing;
                proof {
                    self.connected_ok = Ghost(true);
                }
                SwitchAction::ListDevices { message: owned("Blocking other devices...") }
            },
            SwitchEvent::SetupDone(Err(e)) => {
                let plan = self.session.rollback(self.is_le, suppressed);
                proof {
                    self.blocks = Ghost(suppressed@);
                    if self.session.suppressed_before() {
                        assert(self.initial@.remove(self.session.target()).insert(self.session.target())
                            =~= self.initial@);
                    }
                }
                self.error = e;
                self.phase = SwitchPhase::RollingBack;
                SwitchAction::RollBack(plan)
            },
            SwitchEvent::RolledBack => {
                let e = owned(self.error.as_str());
                self.fail(e)
            },
            SwitchEvent::Listed(Err(e)) => self.fail(e),
            SwitchEvent::Listed(Ok(list)) => {
                self.pending = list;
                self.next = 0;
                proof {
                    self.handled = Ghost(Set::empty());
                }
                self.advance(0, suppressed)
            },
            SwitchEvent::DeviceRead(Err(e)) => self.fail(e),
            SwitchEvent::DeviceRead(Ok(p)) => {
                let le = is_le_device(&p);
                self.device_le = le;
                if le {
                    self.phase = SwitchPhase::Untrusting;
                    SwitchAction::Untrust
                } else {
                    self.phase = SwitchPhase::ReadingConnected;
                    SwitchAction::CheckConnected
                }
            },
            SwitchEvent::DeviceDone => {
                if self.phase == SwitchPhase::Untrusting {
                    self.phase = SwitchPhase::ReadingConnected;
                    SwitchAction::CheckConnected
                } else {
                    self.disconnected(suppressed)
                }
            },
            SwitchEvent::FlagRead(flag) => {
                if self.phase == SwitchPhase::ReadingConnected {
                    if flag {
                        self.phase = SwitchPhase::Disconnecting;
                        SwitchAction::Disconnect
                    } else {
                        self.disconnected(suppressed)
                    }
                } else if flag {
                    self.device_done(false, suppressed)
                } else {
                    self.phase = SwitchPhase::Blocking;
                    SwitchAction::Block
                }
            },
            SwitchEvent::BlockResult(ok) => self.device_done(ok, suppressed),
        }
    }

    /// The device is disconnected (or was not connected).
    fn disconnected(&mut self, suppressed: &mut Blocklist) -> (action: SwitchAction)
        requires
            old(self).wf(),
            old(suppressed)@ == old(self).blocks(),
            is_device_phase(old(self).phase()),
            old(self).phase() != SwitchPhase::ReadingDevice,
        ensures
            final(self).wf(),
            final(suppressed)@ == final(self).blocks(),
            final(self).target() == old(self).target(),
            final(self).initial() == old(self).initial(),
            final(self).suppressed_before() == old(self).suppressed_before(),
            after_disconnect(*old(self), *final(self), old(suppressed)@, final(suppressed)@, action),
    {
        if self.device_le {
            self.device_done(true, suppressed)
        } else {
            self.phase = SwitchPhase::ReadingBlocked;
            SwitchAction::CheckBlocked
        }
    }

    /// The device at the current position is done with.
    fn device_done(&mut self, counts: bool, suppressed: &mut Blocklist) -> (action: SwitchAction)
        requires
            old(self).wf(),
            old(suppressed)@ == old(self).blocks(),
            is_device_phase(old(self).phase()),
            old(self).phase() != SwitchPhase::ReadingDevice,
        ensures
            final(self).wf(),
            final(suppressed)@ == final(self).blocks(),
            final(self).target() == old(self).target(),
            final(self).initial() == old(self).initial(),
            final(self).suppressed_before() == old(self).suppressed_before(),
            recorded(*old(self), *final(self), counts, old(suppressed)@, final(suppressed)@, action),
    {
        assert(self.next < self.pending.len());
        let address = owned(self.pending[self.next].1.as_str());
        self.session.record(address.as_str(), counts);
        proof {
            self.handled = Ghost(self.handled@.insert(self.next as int));
        }
        let from = self.next + 1;
        self.advance(from, suppressed)
    }

    fn fail(&mut self, e: String) -> (action: SwitchAction)
        requires
            old(self).wf(),
            old(self).connected() || old(self).blocks() == old(self).initial(),
        ensures
            final(self).wf(),
            final(self).phase() == SwitchPhase::Failed,
            final(self).blocks() == old(self).blocks(),
            final(self).target() == old(self).target(),
            final(self).initial() == old(self).initial(),
            final(self).suppressed_before() == old(self).suppressed_before(),
            final(self).connected() == old(self).connected(),
            action matches SwitchAction::Fail(m) && m@ == e@,
    {
        self.phase = SwitchPhase::Failed;
        SwitchAction::Fail(e)
    }

    /// Where the switch stands.
    pub fn current_phase(&self) -> (r: SwitchPhase)
        ensures
            r == self.phase(),
    {
        self.phase
    }

    /// Whether the switch waits for this event.
    pub fn accepts(&self, event: &SwitchEvent) -> (r: bool)
        ensures
            r == awaits(self.phase(), *event),
    {
        match (self.phase, event) {
            (SwitchPhase::SavingProgress, SwitchEvent::Saved(_)) => true,
            (SwitchPhase::ReadingTarget, SwitchEvent::TargetRead(_)) => true,
            (SwitchPhase::Restoring, SwitchEvent::TargetRestored(_)) => true,
            (SwitchPhase::Connecting, SwitchEvent::SetupDone(_)) => true,
            (SwitchPhase::RollingBack, SwitchEvent::RolledBack) => true,
            (SwitchPhase::Listing, SwitchEvent::Listed(_)) => true,
            (SwitchPhase::ReadingDevice, SwitchEvent::DeviceRead(_)) => true,
            (SwitchPhase::Untrusting, SwitchEvent::DeviceDone) => true,
            (SwitchPhase::ReadingConnected, SwitchEvent::FlagRead(_)) => true,
            (SwitchPhase::Disconnecting, SwitchEvent::DeviceDone) => true,
            (SwitchPhase::ReadingBlocked, SwitchEvent::FlagRead(_)) => true,
            (SwitchPhase::Blocking, SwitchEvent::BlockResult(_)) => true,
            (SwitchPhase::SavingClean, SwitchEvent::Saved(_)) => true,
            _ => false,
        }
    }
}

/// A switch that fails before the target is connected leaves the block list
/// as it found it.
pub proof fn law_failed_switch_restores_block_list(m: SwitchMachine)
    requires
        m.wf(),
        m.phase() == SwitchPhase::Failed,
        !m.connected(),
    ensures
        m.blocks() == m.initial(),
{
}

/// Once the target is connected, the switch never leaves it suppressed,
/// whether it then succeeds or fails.
pub proof fn law_connected_target_stays_free(m: SwitchMachine)
    requires
        m.wf(),
        m.connected(),
    ensures
        !m.blocks().contains(m.target()),
{
}

/// A successful switch has dealt with every paired audio device it listed
/// whose address is not the target's: each was read, then untrusted (LE),
/// disconnected when connected, and blocked unless it was blocked already
/// (classic).
pub proof fn law_switch_handles_every_other_device(m: SwitchMachine)
    requires
        m.wf(),
        m.phase() == SwitchPhase::Succeeded,
    ensures
        forall|k: int|
            0 <= k < m.pending().len() && m.pending()[k].1@ != m.target() ==> #[trigger] m.handled().contains(k),
{
    assert forall|k: int|
        0 <= k < m.pending().len() && m.pending()[k].1@ != m.target() implies #[trigger] m.handled().contains(k) by {
        assert(addresses_of(m.pending())[k] == m.pending()[k].1@);
    }
}

/// A successful switch leaves the block list as it began, less the target,
/// plus the devices the switch suppressed.
pub proof fn law_switch_succeeded(m: SwitchMachine)
    requires
        m.wf(),
        m.phase() == SwitchPhase::Succeeded,
    ensures
        m.blocks() == m.initial().remove(m.target()).union(m.newly().to_set()),
        !m.blocks().contains(m.target()),
{
    if !m.suppressed_before() {
        assert(m.initial().remove(m.target()) =~= m.initial());
    }
}

/// A failed setup rolls the target back by its transport: when this
/// switcher had suppressed the target before the switch, a classic target
/// is blocked again, an LE target untrusted and disconnected again, and its
/// address goes back into the block list; otherwise nothing is done to it
/// and the block list stays. The switch then ends with the setup's error.
pub proof fn law_failed_setup_rolls_back_by_transport(
    m: SwitchMachine,
    error: String,
    m2: SwitchMachine,
    action: SwitchAction,
    before: Set<Seq<char>>,
    after: Set<Seq<char>>,
)
    requires
        m.phase() == SwitchPhase::Connecting,
        step_result(m, SwitchEvent::SetupDone(Err(error)), m2, action, before, after),
    ensures
        action matches SwitchAction::RollBack(plan) && {
            &&& plan.block == (m.suppressed_before() && !m.target_le())
            &&& plan.untrust == (m.suppressed_before() && m.target_le())
            &&& plan.disconnect == (m.suppressed_before() && m.target_le())
        },
        m.suppressed_before() ==> after == before.insert(m.target()),
        !m.suppressed_before() ==> after == before,
        m2.phase() == SwitchPhase::RollingBack,
        m2.pending_error() == error@,
{
}

/// Once rolled back, the switch fails with the setup's error.
pub proof fn law_rollback_ends_in_failure(
    m: SwitchMachine,
    m2: SwitchMachine,
    action: SwitchAction,
    before: Set<Seq<char>>,
    after: Set<Seq<char>>,
)
    requires
        m.phase() == SwitchPhase::RollingBack,
        step_result(m, SwitchEvent::RolledBack, m2, action, before, after),
    ensures
        m2.phase() == SwitchPhase::Failed,
        after == before,
        action matches SwitchAction::Fail(e) && e@ == m.pending_error(),
{
}

/// How each other device is suppressed: an LE device is untrusted and a
/// classic one is not; a connected device is disconnected; a classic device
/// that is not blocked yet is blocked, and only a successful block counts it
/// as suppressed, while an LE device always counts.
pub proof fn law_suppression_by_transport(
    m: SwitchMachine,
    event: SwitchEvent,
    m2: SwitchMachine,
    action: SwitchAction,
    before: Set<Seq<char>>,
    after: Set<Seq<char>>,
)
    requires
        step_result(m, event, m2, action, before, after),
    ensures
        m.phase() == SwitchPhase::ReadingDevice ==> (event matches SwitchEvent::DeviceRead(Ok(p)) ==> {
            &&& (p.address_type matches Some(t) && t@ == "random"@) ==> action is Untrust
            &&& !(p.address_type matches Some(t) && t@ == "random"@) ==> action is CheckConnected
        }),
        m.phase() == SwitchPhase::Untrusting && event is DeviceDone ==> action is CheckConnected,
        m.phase() == SwitchPhase::ReadingConnected ==> (event matches SwitchEvent::FlagRead(c) ==> (c
            ==> action is Disconnect)),
        m.phase() == SwitchPhase::ReadingConnected && !m.device_le() ==> (event matches SwitchEvent::FlagRead(
            c,
        ) ==> (!c ==> action is CheckBlocked)),
        m.phase() == SwitchPhase::Disconnecting && !m.device_le() && event is DeviceDone ==> action
            is CheckBlocked,
        m.phase() == SwitchPhase::ReadingBlocked ==> (event matches SwitchEvent::FlagRead(b) ==> (!b
            ==> action is Block)),
        m.phase() == SwitchPhase::ReadingBlocked ==> (event matches SwitchEvent::FlagRead(b) ==> (b
            ==> m2.newly() == m.newly())),
        m.phase() == SwitchPhase::Blocking ==> (event matches SwitchEvent::BlockResult(ok) ==> (!ok
            ==> m2.newly() == m.newly())),
        m.phase() == SwitchPhase::Blocking && m.pending()[m.position()].1@ != m.target() ==> (
        event matches SwitchEvent::BlockResult(ok) ==> (ok ==> m2.newly() == m.newly().push(
            m.pending()[m.position()].1@,
        ))),
{
    reveal_strlit("random");
    assert("random"@ =~= crate::bluez::random_type());
}

} // verus!
