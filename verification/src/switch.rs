//! An exclusive switch: the target device is freed from suppression,
//! connected, and every other paired audio device is suppressed.

use vstd::prelude::*;

use crate::blocklist::{lemma_to_set_push, texts, Blocklist};
use crate::device::{spec_mac_from_path, BtAudioDevice};
use crate::state::{records, AppState};
use crate::text::{owned, same_text};

verus! {

/// What is done to the target before connecting it.
#[derive(Debug, Clone, Copy, PartialEq, Eq, Structural)]
pub enum TargetRestore {
    /// The target was not suppressed by this switcher: nothing.
    Nothing,
    /// A suppressed LE device: trust it again.
    Trust,
    /// A suppressed classic device: unblock it, then give BlueZ time.
    Unblock,
}

/// What is done to the target when the switch fails after it was freed.
#[derive(Debug, Clone, Copy, PartialEq, Eq, Structural)]
pub struct Rollback {
    /// Untrust it again (LE).
    pub untrust: bool,
    /// Disconnect it (LE).
    pub disconnect: bool,
    /// Block it again (classic).
    pub block: bool,
}

/// The bookkeeping of one exclusive switch: its target, whether this
/// switcher had suppressed the target, and the devices the switch
/// suppressed.
pub struct SwitchSession {
    target_mac: String,
    was_suppressed: bool,
    newly_blocked: Vec<String>,
}

/// The block list once the target is freed: without the target when this
/// switcher had suppressed it.
pub open spec fn after_restore(b: Set<Seq<char>>, target: Seq<char>, was_suppressed: bool) -> Set<Seq<char>> {
    if was_suppressed {
        b.remove(target)
    } else {
        b
    }
}

/// The block list once a failed switch is rolled back: with the target again
/// when this switcher had suppressed it.
pub open spec fn after_rollback(b: Set<Seq<char>>, target: Seq<char>, was_suppressed: bool) -> Set<Seq<char>> {
    if was_suppressed {
        b.insert(target)
    } else {
        b
    }
}

/// "Invalid device path: " followed by the path.
pub open spec fn invalid_path_message(path: Seq<char>) -> Seq<char> {
    "Invalid device path: "@ + path
}

impl SwitchSession {
    #[verifier::type_invariant]
    spec fn target_never_recorded(&self) -> bool {
        !texts(self.newly_blocked@).contains(self.target_mac@)
    }

    /// The target's MAC address.
    pub closed spec fn target(&self) -> Seq<char> {
        self.target_mac@
    }

    /// Whether this switcher had suppressed the target when the switch began.
    pub closed spec fn suppressed_before(&self) -> bool {
        self.was_suppressed
    }

    /// The devices this switch has suppressed so far.
    pub closed spec fn newly(&self) -> Seq<Seq<char>> {
        texts(self.newly_blocked@)
    }

    /// The target's MAC address.
    pub fn target_mac(&self) -> (r: &str)
        ensures
            r@ == self.target(),
    {
        self.target_mac.as_str()
    }

    /// Whether this switcher had suppressed the target when the switch began.
    pub fn was_suppressed(&self) -> (r: bool)
        ensures
            r == self.suppressed_before(),
    {
        self.was_suppressed
    }

    /// The devices this switch has suppressed so far.
    pub fn newly_blocked(&self) -> (r: &Vec<String>)
        ensures
            texts(r@) == self.newly(),
    {
        &self.newly_blocked
    }

    /// Starts a switch to the device at `target_path`: its MAC address comes
    /// from the path; an error names the path when it holds none.
    pub fn begin(target_path: &str, suppressed: &Blocklist) -> (r: Result<
        SwitchSession,
        String,
    >)
        ensures
            match r {
                Ok(s) => {
                    &&& spec_mac_from_path(target_path@) == Some(s.target())
                    &&& s.suppressed_before() == suppressed@.contains(s.target())
                    &&& s.newly() == Seq::<Seq<char>>::empty()
                },
                Err(e) => {
                    &&& spec_mac_from_path(target_path@) is None
                    &&& e@ == invalid_path_message(target_path@)
                },
            },
    {
        match BtAudioDevice::mac_from_path(target_path) {
            Some(mac) => {
                let was_suppressed = suppressed.contains(mac.as_str());
                let s = SwitchSession {
                    target_mac: mac,
                    was_suppressed,
                    newly_blocked: Vec::new(),
                };
                assert(texts(s.newly_blocked@) =~= Seq::<Seq<char>>::empty());
                Ok(s)
            },
            None => {
                let mut e = owned("Invalid device path: ");
                e.append(target_path);
                Err(e)
            },
        }
    }

    /// The name the target is shown with: its alias, or its MAC address when
    /// the alias cannot be read.
    pub fn target_alias(&self, alias: Option<String>) -> (r: String)
        ensures
            r@ == match alias {
                Some(a) => a@,
                None => self.target(),
            },
    {
        match alias {
            Some(a) => a,
            None => owned(self.target_mac.as_str()),
        }
    }

    /// What is done to the target (an LE device when `target_is_le`) before
    /// it is connected.
    pub fn restore_action(&self, target_is_le: bool) -> (r: TargetRestore)
        ensures
            r == if !self.suppressed_before() {
                TargetRestore::Nothing
            } else if target_is_le {
                TargetRestore::Trust
            } else {
                TargetRestore::Unblock
            },
    {
        if !self.was_suppressed {
            TargetRestore::Nothing
        } else if target_is_le {
            TargetRestore::Trust
        } else {
            TargetRestore::Unblock
        }
    }

    /// Records that the target was freed.
    pub fn target_restored(&self, suppressed: &mut Blocklist)
        ensures
            final(suppressed)@ == after_restore(old(suppressed)@, self.target(), self.suppressed_before()),
    {
        if self.was_suppressed {
            suppressed.remove(self.target_mac.as_str());
        }
    }

    /// The progress message shown once the target is freed:
    /// "Connecting to " followed by its name and "...".
    pub fn connecting_message(alias: &str) -> (r: String)
        ensures
            r@ == "Connecting to "@ + alias@ + "..."@,
    {
        let mut r = owned("Connecting to ");
        r.append(alias);
        r.append("...");
        r
    }

    /// Rolls back a failed switch: the target (an LE device when
    /// `target_is_le`) is suppressed again when this switcher had suppressed
    /// it before.
    pub fn rollback(&self, target_is_le: bool, suppressed: &mut Blocklist) -> (r: Rollback)
        ensures
            final(suppressed)@ == after_rollback(old(suppressed)@, self.target(), self.suppressed_before()),
            r == (Rollback {
                untrust: self.suppressed_before() && target_is_le,
                disconnect: self.suppressed_before() && target_is_le,
                block: self.suppressed_before() && !target_is_le,
            }),
    {
        if self.was_suppressed {
            suppressed.insert(self.target_mac.as_str());
        }
        Rollback {
            untrust: self.was_suppressed && target_is_le,
            disconnect: self.was_suppressed && target_is_le,
            block: self.was_suppressed && !target_is_le,
        }
    }

    /// Records the outcome for one device: its address is added to this
    /// switch's suppressed devices when it counts as suppressed and is not the
    /// target.
    pub fn record(&mut self, address: &str, counts: bool)
        ensures
            final(self).target() == old(self).target(),
            final(self).suppressed_before() == old(self).suppressed_before(),
            final(self).newly() == if counts && address@ != old(self).target() {
                old(self).newly().push(address@)
            } else {
                old(self).newly()
            },
    {
        proof {
            use_type_invariant(&*self);
        }
        if counts && !same_text(address, self.target_mac.as_str()) {
            let ghost before = texts(self.newly_blocked@);
            let mut v = Vec::new();
            std::mem::swap(&mut v, &mut self.newly_blocked);
            v.push(owned(address));
            assert(texts(v@) =~= before.push(address@));
            assert(!texts(v@).contains(self.target_mac@)) by {
                if texts(v@).contains(self.target_mac@) {
                    let k = choose|k: int| 0 <= k < texts(v@).len() && texts(v@)[k] == self.target_mac@;
                    if k < before.len() {
                        assert(before[k] == self.target_mac@);
                    }
                }
            }
            self.newly_blocked = v;
        }
    }

    /// Completes the switch: the suppressed devices join the block list, and
    /// the clean state to save is returned.
    pub fn finish(&self, suppressed: &mut Blocklist) -> (r: AppState)
        ensures
            final(suppressed)@ == old(suppressed)@.union(self.newly().to_set()),
            records(r, self.target(), final(suppressed)@, false),
            !self.newly().contains(self.target()),
    {
        proof {
            use_type_invariant(&*self);
        }
        let mut i: usize = 0;
        while i < self.newly_blocked.len()
            invariant
                i <= self.newly_blocked@.len(),
                suppressed@ == old(suppressed)@.union(texts(self.newly_blocked@).take(i as int).to_set()),
            decreases self.newly_blocked.len() - i,
        {
            suppressed.insert(self.newly_blocked[i].as_str());
            proof {
                let t = texts(self.newly_blocked@);
                assert(t.take(i as int + 1) =~= t.take(i as int).push(t[i as int]));
                lemma_to_set_push(t.take(i as int), t[i as int]);
                assert(suppressed@ =~= old(suppressed)@.union(t.take(i as int + 1).to_set()));
            }
            i = i + 1;
        }
        assert(texts(self.newly_blocked@).take(i as int) =~= texts(self.newly_blocked@));
        AppState::save_clean(self.target_mac.as_str(), suppressed)
    }
}

} // verus!
