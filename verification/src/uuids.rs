//! The Bluetooth service UUIDs that mark a device as an audio device.

use vstd::prelude::*;

use crate::text::same_text;

verus! {

/// A2DP Sink — Advanced Audio Distribution Profile
pub const A2DP_SINK: &'static str = "0000110b-0000-1000-8000-00805f9b34fb";

/// A2DP Source
pub const A2DP_SOURCE: &'static str = "0000110a-0000-1000-8000-00805f9b34fb";

/// HFP Hands-Free
pub const HFP_HF: &'static str = "0000111e-0000-1000-8000-00805f9b34fb";

/// HFP Audio Gateway
pub const HFP_AG: &'static str = "0000111f-0000-1000-8000-00805f9b34fb";

/// HSP Headset
pub const HSP_HS: &'static str = "00001108-0000-1000-8000-00805f9b34fb";

/// HSP Audio Gateway
pub const HSP_AG: &'static str = "00001112-0000-1000-8000-00805f9b34fb";

/// LE Audio — Basic Audio Profile
pub const LE_AUDIO_BAP: &'static str = "00001850-0000-1000-8000-00805f9b34fb";

/// LE Audio — Media Control
pub const LE_AUDIO_MCS: &'static str = "00001848-0000-1000-8000-00805f9b34fb";

/// LE Audio — Common Audio Profile
pub const LE_AUDIO_CAP: &'static str = "0000184e-0000-1000-8000-00805f9b34fb";

/// The audio profile UUIDs, as text.
pub open spec fn audio_uuids() -> Seq<Seq<char>> {
    seq![
        A2DP_SINK@,
        A2DP_SOURCE@,
        HFP_HF@,
        HFP_AG@,
        HSP_HS@,
        HSP_AG@,
        LE_AUDIO_BAP@,
        LE_AUDIO_MCS@,
        LE_AUDIO_CAP@,
    ]
}

/// What `str::to_lowercase` gives for a string (Unicode lower case mapping).
pub uninterp spec fn lowercase(s: Seq<char>) -> Seq<char>;

/// `str::to_lowercase`: the string with every character mapped to lower
/// case by the Unicode tables; this contract only names that result.
#[verifier::external_body]
fn to_lowercase(s: &str) -> (r: String)
    ensures
        r@ == lowercase(s@),
{
    s.to_lowercase()
}

/// Whether a device with these UUIDs offers an audio profile: one of them,
/// lower-cased, is an audio profile UUID.
pub open spec fn spec_is_audio_device(uuids: Seq<Seq<char>>) -> bool {
    exists|i: int| 0 <= i < uuids.len() && audio_uuids().contains(lowercase(#[trigger] uuids[i]))
}

/// Whether this (already lower-cased) UUID text is an audio profile UUID.
pub fn is_audio_uuid(u: &str) -> (r: bool)
    ensures
        r == audio_uuids().contains(u@),
{
    let r = same_text(u, A2DP_SINK) || same_text(u, A2DP_SOURCE) || same_text(u, HFP_HF)
        || same_text(u, HFP_AG) || same_text(u, HSP_HS) || same_text(u, HSP_AG) || same_text(
        u,
        LE_AUDIO_BAP,
    ) || same_text(u, LE_AUDIO_MCS) || same_text(u, LE_AUDIO_CAP);
    proof {
        let a = audio_uuids();
        if a.contains(u@) {
            let k = choose|k: int| 0 <= k < a.len() && a[k] == u@;
            assert(r);
        }
        if r {
            if u@ == A2DP_SINK@ { assert(a[0] == u@); }
            if u@ == A2DP_SOURCE@ { assert(a[1] == u@); }
            if u@ == HFP_HF@ { assert(a[2] == u@); }
            if u@ == HFP_AG@ { assert(a[3] == u@); }
            if u@ == HSP_HS@ { assert(a[4] == u@); }
            if u@ == HSP_AG@ { assert(a[5] == u@); }
            if u@ == LE_AUDIO_BAP@ { assert(a[6] == u@); }
            if u@ == LE_AUDIO_MCS@ { assert(a[7] == u@); }
            if u@ == LE_AUDIO_CAP@ { assert(a[8] == u@); }
        }
    }
    r
}

/// Returns true if any of the device's UUIDs indicate it's an audio device.
pub fn is_audio_device(uuids: &[String]) -> (r: bool)
    ensures
        r == spec_is_audio_device(uuids@.map_values(|u: String| u@)),
{
    let ghost views = uuids@.map_values(|u: String| u@);
    let mut i: usize = 0;
    while i < uuids.len()
        invariant
            i <= uuids@.len(),
            views == uuids@.map_values(|u: String| u@),
            forall|k: int| 0 <= k < i ==> !audio_uuids().contains(lowercase(#[trigger] views[k])),
        decreases uuids.len() - i,
    {
        let low = to_lowercase(uuids[i].as_str());
        if is_audio_uuid(low.as_str()) {
            assert(views[i as int] == uuids@[i as int]@);
            return true;
        }
        i = i + 1;
    }
    false
}

} // verus!
