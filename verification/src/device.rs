//! The devices the switcher shows and the status each one has.

use vstd::prelude::*;

use crate::text::{chars_of, string_of};

verus! {

/// The status a paired audio device is shown with.
#[derive(Debug, Clone, Copy, PartialEq, Eq, Structural)]
pub enum DeviceStatus {
    Connected,
    Disconnected,
    Blocked,
    Connecting,
}

/// A paired Bluetooth audio device as the window lists it.
#[derive(Debug, Clone)]
pub struct BtAudioDevice {
    /// D-Bus object path, e.g. "/org/bluez/hci0/dev_AA_BB_CC_DD_EE_FF"
    pub path: String,
    /// MAC address, e.g. "AA:BB:CC:DD:EE:FF"
    pub address: String,
    /// Friendly name
    pub alias: String,
    /// Whether the device is paired
    pub paired: bool,
    /// Current status
    pub status: DeviceStatus,
    /// BlueZ UUIDs
    pub uuids: Vec<String>,
    /// BlueZ icon hint (e.g. "audio-headphones")
    pub icon: Option<String>,
}

/// Where the last path segment starts: just after the last '/', or 0.
pub open spec fn segment_start(s: Seq<char>) -> int
    decreases s.len(),
{
    if s.len() == 0 {
        0
    } else if s.last() == '/' {
        s.len() as int
    } else {
        segment_start(s.drop_last())
    }
}

/// The text after the last '/' of a path (all of it when there is none).
pub open spec fn last_segment(s: Seq<char>) -> Seq<char> {
    s.skip(segment_start(s))
}

/// The prefix BlueZ gives the object names of devices.
pub open spec fn dev_prefix() -> Seq<char> {
    seq!['d', 'e', 'v', '_']
}

/// Each '_' turned into ':'.
pub open spec fn underscores_to_colons(s: Seq<char>) -> Seq<char> {
    s.map_values(|c: char| if c == '_' { ':' } else { c })
}

/// The MAC address named by a BlueZ device object path: the last segment
/// without its "dev_" prefix, with '_' read as ':'; none when the last
/// segment does not start with "dev_".
pub open spec fn spec_mac_from_path(path: Seq<char>) -> Option<Seq<char>> {
    let seg = last_segment(path);
    if seg.len() >= 4 && seg.take(4) == dev_prefix() {
        Some(underscores_to_colons(seg.skip(4)))
    } else {
        None
    }
}

proof fn lemma_segment_start(s: Seq<char>, i: int)
    requires
        0 <= i <= s.len(),
        i == 0 || s[i - 1] == '/',
        forall|j: int| i <= j < s.len() ==> s[j] != '/',
    ensures
        segment_start(s) == i,
    decreases s.len(),
{
    if s.len() > 0 && i < s.len() {
        lemma_segment_start(s.drop_last(), i);
    }
}

/// Each ':' turned into '_', as BlueZ spells addresses in object names.
pub open spec fn colons_to_underscores(s: Seq<char>) -> Seq<char> {
    s.map_values(|c: char| if c == ':' { '_' } else { c })
}

/// A device object path names its MAC address back: under any directory,
/// "dev_" followed by the address with '_' for ':' gives the address again,
/// provided the address holds no '/' and no '_'.
pub proof fn law_mac_path_round_trip(dir: Seq<char>, mac: Seq<char>)
    requires
        forall|i: int| 0 <= i < mac.len() ==> mac[i] != '/' && mac[i] != '_',
    ensures
        spec_mac_from_path(dir.push('/') + dev_prefix() + colons_to_underscores(mac)) == Some(mac),
{
    let head = dir.push('/');
    let u = colons_to_underscores(mac);
    let s = head + dev_prefix() + u;
    let start = head.len() as int;
    assert forall|j: int| start <= j < s.len() implies s[j] != '/' by {
        if j < start + 4 {
            assert(s[j] == dev_prefix()[j - start]);
        } else {
            assert(s[j] == u[j - start - 4]);
        }
    }
    assert(s[start - 1] == '/');
    lemma_segment_start(s, start);
    let seg = last_segment(s);
    assert(seg =~= dev_prefix() + u);
    assert(seg.take(4) =~= dev_prefix());
    assert(seg.skip(4) =~= u);
    assert(underscores_to_colons(u) =~= mac);
}

impl DeviceStatus {
    /// The word the status is displayed as.
    pub fn label(&self) -> (r: &'static str)
        ensures
            r@ == match *self {
                DeviceStatus::Connected => "Connected"@,
                DeviceStatus::Disconnected => "Disconnected"@,
                DeviceStatus::Blocked => "Blocked"@,
                DeviceStatus::Connecting => "Connecting"@,
            },
    {
        match self {
            DeviceStatus::Connected => "Connected",
            DeviceStatus::Disconnected => "Disconnected",
            DeviceStatus::Blocked => "Blocked",
            DeviceStatus::Connecting => "Connecting",
        }
    }
}

impl BtAudioDevice {
    /// Derive MAC address from D-Bus object path.
    /// Path format: /org/bluez/hci0/dev_AA_BB_CC_DD_EE_FF
    pub fn mac_from_path(path: &str) -> (r: Option<String>)
        ensures
            match r {
                Some(m) => spec_mac_from_path(path@) == Some(m@),
                None => spec_mac_from_path(path@) is None,
            },
    {
        let cs = chars_of(path);
        let n = cs.len();
        let mut start: usize = n;
        while start > 0 && cs[start - 1] != '/'
            invariant
                n == cs@.len(),
                start <= n,
                forall|j: int| start <= j < n ==> cs@[j] != '/',
            decreases start,
        {
            start = start - 1;
        }
        proof {
            lemma_segment_start(path@, start as int);
        }
        if n - start < 4 || cs[start] != 'd' || cs[start + 1] != 'e' || cs[start + 2] != 'v'
            || cs[start + 3] != '_' {
            proof {
                let seg = last_segment(path@);
                if seg.len() >= 4 {
                    assert(seg.take(4)[0] == cs@[start as int]);
                    assert(seg.take(4)[1] == cs@[start + 1]);
                    assert(seg.take(4)[2] == cs@[start + 2]);
                    assert(seg.take(4)[3] == cs@[start + 3]);
                }
            }
            return None;
        }
        let mut out: Vec<char> = Vec::new();
        let mut k: usize = start + 4;
        while k < n
            invariant
                n == cs@.len(),
                start + 4 <= k <= n,
                out@ == underscores_to_colons(cs@.subrange(start + 4, k as int)),
            decreases n - k,
        {
            let c = cs[k];
            if c == '_' {
                out.push(':');
            } else {
                out.push(c);
            }
            assert(underscores_to_colons(cs@.subrange(start + 4, k + 1)) =~= underscores_to_colons(
                cs@.subrange(start + 4, k as int),
            ).push(if c == '_' { ':' } else { c }));
            k = k + 1;
        }
        proof {
            let seg = last_segment(path@);
            assert(seg.take(4) =~= dev_prefix());
            assert(seg.skip(4) =~= cs@.subrange(start + 4, n as int));
        }
        Some(string_of(&out))
    }
}

} // verus!
