//! What the switcher makes of the properties BlueZ reports for its devices.

use vstd::prelude::*;

use crate::blocklist::{texts, Blocklist};
use crate::device::{BtAudioDevice, DeviceStatus};
use crate::order::{
    chars_before, lemma_before_asymmetric, lemma_before_irreflexive, lemma_before_then_not_after,
    lemma_before_total, text_before,
};
use crate::text::{chars_of, owned, same_text};
use crate::uuids::{is_audio_device, spec_is_audio_device};

verus! {

/// The properties of one `org.bluez.Device1` object, as read over D-Bus.
/// A property that could not be read is `None`.
pub struct DeviceProps {
    /// The object path.
    pub path: String,
    pub address: Option<String>,
    pub address_type: Option<String>,
    pub alias: Option<String>,
    pub paired: Option<bool>,
    pub connected: Option<bool>,
    pub blocked: Option<bool>,
    pub trusted: Option<bool>,
    pub uuids: Option<Vec<String>>,
    pub icon: Option<String>,
}

/// A flag that was read, or the default taken when it could not be.
pub open spec fn flag_or(o: Option<bool>, default: bool) -> bool {
    match o {
        Some(b) => b,
        None => default,
    }
}

/// A text that was read, or the empty text.
pub open spec fn text_or_empty(o: Option<String>) -> Seq<char> {
    match o {
        Some(s) => s@,
        None => Seq::empty(),
    }
}

/// The text of an optional string.
pub open spec fn opt_text(o: Option<String>) -> Option<Seq<char>> {
    match o {
        Some(s) => Some(s@),
        None => None,
    }
}

/// The address type BlueZ reports for LE devices with a random address.
pub open spec fn random_type() -> Seq<char> {
    seq!['r', 'a', 'n', 'd', 'o', 'm']
}

/// A device is treated as Bluetooth LE when its address type reads "random".
pub open spec fn spec_is_le(p: DeviceProps) -> bool {
    p.address_type matches Some(t) && t@ == random_type()
}

/// The device's address ("" when unreadable).
pub open spec fn prop_address(p: DeviceProps) -> Seq<char> {
    text_or_empty(p.address)
}

/// The device's UUIDs (none when unreadable).
pub open spec fn prop_uuids(p: DeviceProps) -> Seq<Seq<char>> {
    match p.uuids {
        Some(v) => texts(v@),
        None => Seq::empty(),
    }
}

/// The name shown for the device: its alias, or its address when the alias
/// cannot be read.
pub open spec fn prop_alias(p: DeviceProps) -> Seq<char> {
    match p.alias {
        Some(a) => a@,
        None => prop_address(p),
    }
}

/// Whether the device is listed: it is paired (false when unreadable) and
/// offers an audio profile.
pub open spec fn is_listed(p: DeviceProps) -> bool {
    flag_or(p.paired, false) && spec_is_audio_device(prop_uuids(p))
}

/// The status shown: Blocked when BlueZ blocks it, or when it is an LE device
/// that is not trusted and that this switcher suppressed; else Connected or
/// Disconnected. Unreadable flags count as: blocked false, trusted true,
/// connected false.
pub open spec fn spec_status(p: DeviceProps, suppressed: Set<Seq<char>>) -> DeviceStatus {
    if flag_or(p.blocked, false) {
        DeviceStatus::Blocked
    } else if spec_is_le(p) && !flag_or(p.trusted, true) && suppressed.contains(prop_address(p)) {
        DeviceStatus::Blocked
    } else if flag_or(p.connected, false) {
        DeviceStatus::Connected
    } else {
        DeviceStatus::Disconnected
    }
}

/// `d` is the listing of the device with properties `p`.
pub open spec fn shows(d: BtAudioDevice, p: DeviceProps, suppressed: Set<Seq<char>>) -> bool {
    &&& d.path@ == p.path@
    &&& d.address@ == prop_address(p)
    &&& d.alias@ == prop_alias(p)
    &&& d.paired
    &&& d.status == spec_status(p, suppressed)
    &&& texts(d.uuids@) == prop_uuids(p)
    &&& opt_text(d.icon) == opt_text(p.icon)
}

/// The devices that are listed, in the order they were read.
pub open spec fn listed(props: Seq<DeviceProps>) -> Seq<DeviceProps> {
    props.filter(|p: DeviceProps| is_listed(p))
}

/// No device is listed after one whose name sorts after its own.
pub open spec fn sorted_by_alias(out: Seq<BtAudioDevice>) -> bool {
    forall|i: int, j: int| 0 <= i < j < out.len() ==> !text_before(out[j].alias@, out[i].alias@)
}

/// `out` lists the devices `src`, the `k`-th entry showing `src[perm[k]]`,
/// each once, devices with the same name kept in their order in `src`.
pub open spec fn arranges(
    out: Seq<BtAudioDevice>,
    src: Seq<DeviceProps>,
    perm: Seq<int>,
    suppressed: Set<Seq<char>>,
) -> bool {
    &&& out.len() == src.len()
    &&& perm.len() == src.len()
    &&& perm.no_duplicates()
    &&& forall|k: int| 0 <= k < perm.len() ==> 0 <= #[trigger] perm[k] < src.len()
    &&& forall|k: int| 0 <= k < out.len() ==> shows(#[trigger] out[k], src[perm[k]], suppressed)
    &&& forall|i: int, j: int|
        0 <= i < j < out.len() && out[i].alias@ == out[j].alias@ ==> perm[i] < perm[j]
}

/// Determine if a device uses LE (BLE) transport: BlueZ reports the address
/// type "random" for BLE devices with random addresses.
pub fn is_le_device(props: &DeviceProps) -> (r: bool)
    ensures
        r == spec_is_le(*props),
{
    match &props.address_type {
        Some(t) => {
            let r = same_text(t.as_str(), "random");
            proof {
                reveal_strlit("random");
                assert("random"@ =~= random_type());
            }
            r
        },
        None => false,
    }
}

fn copy_text(o: &Option<String>) -> (r: String)
    ensures
        r@ == text_or_empty(*o),
{
    match o {
        Some(s) => owned(s.as_str()),
        None => String::new(),
    }
}

fn copy_opt_text(o: &Option<String>) -> (r: Option<String>)
    ensures
        opt_text(r) == opt_text(*o),
{
    match o {
        Some(s) => Some(owned(s.as_str())),
        None => None,
    }
}

fn copy_texts(v: &Vec<String>) -> (r: Vec<String>)
    ensures
        texts(r@) == texts(v@),
{
    let mut r: Vec<String> = Vec::new();
    let mut i: usize = 0;
    while i < v.len()
        invariant
            i <= v@.len(),
            texts(r@) == texts(v@).take(i as int),
        decreases v.len() - i,
    {
        let ghost prev = r@;
        r.push(owned(v[i].as_str()));
        assert(texts(r@) =~= texts(prev).push(v@[i as int]@));
        assert(texts(v@).take(i as int + 1) =~= texts(v@).take(i as int).push(v@[i as int]@));
        i = i + 1;
    }
    assert(texts(v@).take(i as int) =~= texts(v@));
    r
}

fn flag(o: Option<bool>, default: bool) -> (r: bool)
    ensures
        r == flag_or(o, default),
{
    match o {
        Some(b) => b,
        None => default,
    }
}

/// Whether the device is listed: paired, with an audio profile.
pub fn is_listed_device(props: &DeviceProps) -> (r: bool)
    ensures
        r == is_listed(*props),
{
    if !flag(props.paired, false) {
        return false;
    }
    match &props.uuids {
        Some(v) => is_audio_device(v.as_slice()),
        None => {
            let empty: Vec<String> = Vec::new();
            assert(texts(empty@) =~= Seq::<Seq<char>>::empty());
            is_audio_device(empty.as_slice())
        },
    }
}

/// The status a device is shown with; see `spec_status`.
pub fn device_status(props: &DeviceProps, suppressed: &Blocklist) -> (r: DeviceStatus)
    ensures
        r == spec_status(*props, suppressed@),
{
    if flag(props.blocked, false) {
        DeviceStatus::Blocked
    } else if is_le_device(props) && !flag(props.trusted, true) && suppressed.contains(
        copy_text(&props.address).as_str(),
    ) {
        DeviceStatus::Blocked
    } else if flag(props.connected, false) {
        DeviceStatus::Connected
    } else {
        DeviceStatus::Disconnected
    }
}

/// The listing of one device.
pub fn device_entry(props: &DeviceProps, suppressed: &Blocklist) -> (d: BtAudioDevice)
    ensures
        is_listed(*props) ==> shows(d, *props, suppressed@),
        d.path@ == props.path@,
        d.address@ == prop_address(*props),
        d.alias@ == prop_alias(*props),
        d.status == spec_status(*props, suppressed@),
        texts(d.uuids@) == prop_uuids(*props),
        opt_text(d.icon) == opt_text(props.icon),
        d.paired == flag_or(props.paired, false),
{
    let address = copy_text(&props.address);
    let alias = match &props.alias {
        Some(a) => owned(a.as_str()),
        None => copy_text(&props.address),
    };
    let uuids = match &props.uuids {
        Some(v) => copy_texts(v),
        None => {
            let e: Vec<String> = Vec::new();
            assert(texts(e@) =~= Seq::<Seq<char>>::empty());
            e
        },
    };
    BtAudioDevice {
        path: owned(props.path.as_str()),
        address,
        alias,
        paired: flag(props.paired, false),
        status: device_status(props, suppressed),
        uuids,
        icon: copy_opt_text(&props.icon),
    }
}

/// Where a device named `alias` goes in a list sorted by name: after every
/// entry whose name does not sort after it.
fn insertion_point(out: &Vec<BtAudioDevice>, alias: &Vec<char>) -> (pos: usize)
    requires
        sorted_by_alias(out@),
    ensures
        pos <= out@.len(),
        forall|k: int| 0 <= k < pos ==> !text_before(alias@, #[trigger] out@[k].alias@),
        forall|k: int| pos <= k < out@.len() ==> text_before(alias@, #[trigger] out@[k].alias@),
{
    let mut pos: usize = 0;
    while pos < out.len()
        invariant
            pos <= out@.len(),
            sorted_by_alias(out@),
            forall|k: int| 0 <= k < pos ==> !text_before(alias@, #[trigger] out@[k].alias@),
        decreases out.len() - pos,
    {
        let other = chars_of(out[pos].alias.as_str());
        if chars_before(alias, &other) {
            assert forall|k: int| pos <= k < out@.len() implies text_before(
                alias@,
                #[trigger] out@[k].alias@,
            ) by {
                if k > pos {
                    lemma_before_then_not_after(alias@, out@[pos as int].alias@, out@[k].alias@);
                }
            }
            return pos;
        }
        pos = pos + 1;
    }
    pos
}

/// List all paired Bluetooth audio devices: the devices read from BlueZ that
/// are paired and offer an audio profile, each shown with its status, sorted
/// by name; devices with the same name keep the order they were read in.
pub fn list_paired_audio_devices(props: &Vec<DeviceProps>, suppressed: &Blocklist) -> (out: Vec<
    BtAudioDevice,
>)
    ensures
        sorted_by_alias(out@),
        exists|perm: Seq<int>| #[trigger] arranges(out@, listed(props@), perm, suppressed@),
{
    let mut out: Vec<BtAudioDevice> = Vec::new();
    let ghost mut perm: Seq<int> = Seq::empty();
    let mut i: usize = 0;
    assert(props@.take(0).filter(|p: DeviceProps| is_listed(p)) =~= Seq::<DeviceProps>::empty()) by {
        reveal(Seq::filter);
    }
    while i < props.len()
        invariant
            i <= props@.len(),
            sorted_by_alias(out@),
            arranges(out@, listed(props@.take(i as int)), perm, suppressed@),
        decreases props.len() - i,
    {
        let ghost src = listed(props@.take(i as int));
        proof {
            assert(props@.take(i as int + 1) =~= props@.take(i as int).push(props@[i as int]));
            props@.take(i as int).lemma_filter_push(props@[i as int], |p: DeviceProps| is_listed(p));
        }
        if is_listed_device(&props[i]) {
            let d = device_entry(&props[i], suppressed);
            let name = chars_of(d.alias.as_str());
            let pos = insertion_point(&out, &name);
            let ghost old_out = out@;
            let ghost old_perm = perm;
            let ghost n = src.len() as int;
            out.insert(pos, d);
            proof {
                perm = old_perm.insert(pos as int, n);
                let nsrc = src.push(props@[i as int]);
                assert(listed(props@.take(i as int + 1)) == nsrc);
                assert forall|k: int| 0 <= k < perm.len() implies 0 <= #[trigger] perm[k] < nsrc.len() by {
                    if k < pos {
                        assert(perm[k] == old_perm[k]);
                    } else if k > pos {
                        assert(perm[k] == old_perm[k - 1]);
                    }
                }
                assert forall|k: int| 0 <= k < out@.len() implies shows(
                    #[trigger] out@[k],
                    nsrc[perm[k]],
                    suppressed@,
                ) by {
                    if k < pos {
                        assert(out@[k] == old_out[k]);
                        assert(perm[k] == old_perm[k]);
                        assert(shows(old_out[k], src[old_perm[k]], suppressed@));
                    } else if k > pos {
                        assert(out@[k] == old_out[k - 1]);
                        assert(perm[k] == old_perm[k - 1]);
                        assert(shows(old_out[k - 1], src[old_perm[k - 1]], suppressed@));
                    }
                }
                assert forall|p: int, q: int|
                    0 <= p < perm.len() && 0 <= q < perm.len() && p != q implies perm[p] != perm[q] by {
                    if p != pos as int && q != pos as int {
                        let pp = if p < pos { p } else { p - 1 };
                        let qq = if q < pos { q } else { q - 1 };
                        assert(perm[p] == old_perm[pp]);
                        assert(perm[q] == old_perm[qq]);
                    } else if p == pos as int {
                        let qq = if q < pos { q } else { q - 1 };
                        assert(perm[q] == old_perm[qq]);
                    } else {
                        let pp = if p < pos { p } else { p - 1 };
                        assert(perm[p] == old_perm[pp]);
                    }
                }
                assert forall|a: int, b: int| 0 <= a < b < out@.len() implies !text_before(
                    out@[b].alias@,
                    out@[a].alias@,
                ) by {
                    if b == pos as int {
                        assert(out@[a] == old_out[a]);
                    } else if a == pos as int {
                        assert(out@[b] == old_out[b - 1]);
                        lemma_before_asymmetric(d.alias@, old_out[b - 1].alias@);
                    } else {
                        let aa = if a < pos { a } else { a - 1 };
                        let bb = if b < pos { b } else { b - 1 };
                        assert(out@[a] == old_out[aa]);
                        assert(out@[b] == old_out[bb]);
                    }
                }
                assert forall|a: int, b: int|
                    0 <= a < b < out@.len() && out@[a].alias@ == out@[b].alias@ implies perm[a]
                    < perm[b] by {
                    if b == pos as int {
                        assert(out@[a] == old_out[a]);
                        assert(perm[a] == old_perm[a]);
                    } else if a == pos as int {
                        assert(out@[b] == old_out[b - 1]);
                        lemma_before_irreflexive(d.alias@);
                    } else {
                        let aa = if a < pos { a } else { a - 1 };
                        let bb = if b < pos { b } else { b - 1 };
                        assert(out@[a] == old_out[aa]);
                        assert(out@[b] == old_out[bb]);
                        assert(perm[a] == old_perm[aa]);
                        assert(perm[b] == old_perm[bb]);
                    }
                }
                assert(arranges(out@, nsrc, perm, suppressed@));
            }
        }
        i = i + 1;
    }
    assert(props@.take(props@.len() as int) =~= props@);
    out
}

/// Get raw list of paired audio device paths + MAC addresses: the path and
/// address of each listed device, in the order they were read.
pub fn list_paired_audio_devices_raw(props: &Vec<DeviceProps>) -> (r: Vec<(String, String)>)
    ensures
        r@.len() == listed(props@).len(),
        forall|k: int|
            0 <= k < r@.len() ==> (#[trigger] r@[k]).0@ == listed(props@)[k].path@ && r@[k].1@
                == prop_address(listed(props@)[k]),
{
    let mut r: Vec<(String, String)> = Vec::new();
    let mut i: usize = 0;
    assert(props@.take(0).filter(|p: DeviceProps| is_listed(p)) =~= Seq::<DeviceProps>::empty()) by {
        reveal(Seq::filter);
    }
    while i < props.len()
        invariant
            i <= props@.len(),
            r@.len() == listed(props@.take(i as int)).len(),
            forall|k: int|
                0 <= k < r@.len() ==> (#[trigger] r@[k]).0@ == listed(props@.take(i as int))[k].path@
                    && r@[k].1@ == prop_address(listed(props@.take(i as int))[k]),
        decreases props.len() - i,
    {
        proof {
            assert(props@.take(i as int + 1) =~= props@.take(i as int).push(props@[i as int]));
            props@.take(i as int).lemma_filter_push(props@[i as int], |p: DeviceProps| is_listed(p));
        }
        if is_listed_device(&props[i]) {
            let pair = (owned(props[i].path.as_str()), copy_text(&props[i].address));
            r.push(pair);
        }
        i = i + 1;
    }
    assert(props@.take(props@.len() as int) =~= props@);
    r
}

/// The path and address of each device of a listing.
pub open spec fn device_pairs(out: Seq<BtAudioDevice>) -> Seq<(Seq<char>, Seq<char>)> {
    out.map_values(|d: BtAudioDevice| (d.path@, d.address@))
}

/// The path-and-address pairs of a raw listing, as text.
pub open spec fn raw_pairs(r: Seq<(String, String)>) -> Seq<(Seq<char>, Seq<char>)> {
    r.map_values(|e: (String, String)| (e.0@, e.1@))
}

proof fn lemma_permuted_multiset<A>(a: Seq<A>, b: Seq<A>, perm: Seq<int>)
    requires
        a.len() == b.len(),
        perm.len() == a.len(),
        perm.no_duplicates(),
        forall|k: int| 0 <= k < perm.len() ==> 0 <= #[trigger] perm[k] < b.len(),
        forall|k: int| 0 <= k < a.len() ==> #[trigger] a[k] == b[perm[k]],
    ensures
        a.to_multiset() == b.to_multiset(),
    decreases a.len(),
{
    if a.len() == 0 {
        assert(a =~= b);
    } else {
        let n = a.len() - 1;
        let j = perm[n];
        let a2 = a.drop_last();
        let b2 = b.remove(j);
        let perm2 = perm.drop_last().map_values(|p: int| if p > j { p - 1 } else { p });
        assert forall|k: int| 0 <= k < perm2.len() implies 0 <= #[trigger] perm2[k] < b2.len() by {
            assert(perm[k] != perm[n]);
        }
        assert forall|k: int| 0 <= k < a2.len() implies #[trigger] a2[k] == b2[perm2[k]] by {
            assert(perm[k] != perm[n]);
            assert(a[k] == b[perm[k]]);
        }
        assert forall|p: int, q: int| 0 <= p < perm2.len() && 0 <= q < perm2.len() && p != q implies perm2[p]
            != perm2[q] by {
            assert(perm[p] != perm[q]);
            assert(perm[p] != perm[n]);
            assert(perm[q] != perm[n]);
        }
        lemma_permuted_multiset(a2, b2, perm2);
        assert(a2.push(a[n]) =~= a);
        vstd::seq_lib::to_multiset_build(a2, a[n]);
        vstd::seq_lib::to_multiset_remove(b, j);
        assert(a[n] == b[j]);
        b.to_multiset_ensures();
        assert(b.contains(b[j]));
        assert(b.to_multiset().remove(b[j]).insert(b[j]) =~= b.to_multiset());
    }
}

/// The raw listing and the sorted listing of the same devices agree: they
/// hold the same path-and-address pairs, each as often.
pub proof fn law_raw_and_sorted_listings_agree(
    props: Seq<DeviceProps>,
    suppressed: Set<Seq<char>>,
    raw: Seq<(String, String)>,
    out: Seq<BtAudioDevice>,
)
    requires
        raw.len() == listed(props).len(),
        forall|k: int|
            0 <= k < raw.len() ==> (#[trigger] raw[k]).0@ == listed(props)[k].path@ && raw[k].1@
                == prop_address(listed(props)[k]),
        exists|perm: Seq<int>| #[trigger] arranges(out, listed(props), perm, suppressed),
    ensures
        device_pairs(out).to_multiset() == raw_pairs(raw).to_multiset(),
{
    let src = listed(props);
    let perm = choose|perm: Seq<int>| #[trigger] arranges(out, src, perm, suppressed);
    let a = device_pairs(out);
    let b = raw_pairs(raw);
    assert forall|k: int| 0 <= k < a.len() implies #[trigger] a[k] == b[perm[k]] by {
        assert(shows(out[k], src[perm[k]], suppressed));
        assert(0 <= perm[k] < src.len());
        assert(raw[perm[k]].0@ == src[perm[k]].path@);
    }
    lemma_permuted_multiset(a, b, perm);
}

/// The names of the devices are pairwise distinct.
pub open spec fn distinct_aliases(src: Seq<DeviceProps>) -> bool {
    forall|i: int, j: int|
        0 <= i < src.len() && 0 <= j < src.len() && i != j ==> prop_alias(#[trigger] src[i]) != prop_alias(
            #[trigger] src[j],
        )
}

proof fn lemma_perm_onto(perm: Seq<int>, n: int, x: int)
    requires
        perm.len() == n,
        perm.no_duplicates(),
        forall|k: int| 0 <= k < perm.len() ==> 0 <= #[trigger] perm[k] < n,
        0 <= x < n,
    ensures
        exists|m: int| 0 <= m < n && #[trigger] perm[m] == x,
{
    let range = vstd::set_lib::set_int_range(0, n);
    vstd::set_lib::lemma_int_range(0, n);
    perm.unique_seq_to_set();
    assert forall|y: int| perm.to_set().contains(y) implies range.contains(y) by {
        let k = choose|k: int| 0 <= k < perm.len() && perm[k] == y;
    }
    vstd::set_lib::lemma_subset_equality(perm.to_set(), range);
    assert(range.contains(x));
    assert(perm.to_set().contains(x));
}

/// Each name sorts strictly before every later one.
spec fn strictly_sorted(a: Seq<Seq<char>>) -> bool {
    forall|i: int, j: int| 0 <= i < j < a.len() ==> text_before(#[trigger] a[i], #[trigger] a[j])
}

/// Every name of `a` occurs in `b`.
spec fn all_in(a: Seq<Seq<char>>, b: Seq<Seq<char>>) -> bool {
    forall|i: int| 0 <= i < a.len() ==> b.contains(#[trigger] a[i])
}

proof fn lemma_strictly_sorted_equal(a: Seq<Seq<char>>, b: Seq<Seq<char>>, k: int)
    requires
        a.len() == b.len(),
        0 <= k <= a.len(),
        strictly_sorted(a),
        strictly_sorted(b),
        all_in(a, b),
        all_in(b, a),
    ensures
        forall|j: int| 0 <= j < k ==> #[trigger] a[j] == b[j],
    decreases k,
{
    if k > 0 {
        lemma_strictly_sorted_equal(a, b, k - 1);
        let i = k - 1;
        if a[i] != b[i] {
            lemma_before_total(a[i], b[i]);
            lemma_before_asymmetric(a[i], b[i]);
            if text_before(a[i], b[i]) {
                assert(b.contains(a[i]));
                let m = choose|m: int| 0 <= m < b.len() && b[m] == a[i];
                if m < i {
                    assert(a[m] == b[m]);
                    assert(text_before(a[m], a[i]));
                    lemma_before_irreflexive(a[i]);
                } else if m > i {
                    assert(text_before(b[i], b[m]));
                }
            } else {
                assert(a.contains(b[i]));
                let m = choose|m: int| 0 <= m < a.len() && a[m] == b[i];
                if m < i {
                    assert(a[m] == b[m]);
                    assert(text_before(b[m], b[i]));
                    lemma_before_irreflexive(b[i]);
                } else if m > i {
                    assert(text_before(a[i], a[m]));
                }
            }
        }
    }
}

/// Two listings of the same devices give them in the same order: when two
/// reads list the same devices (the same paths and names, read in the same
/// order) whose names are pairwise distinct, the sorted listings give the
/// paths in the same order, whatever the devices' statuses.
pub proof fn law_listing_order_is_stable(
    props1: Seq<DeviceProps>,
    props2: Seq<DeviceProps>,
    suppressed1: Set<Seq<char>>,
    suppressed2: Set<Seq<char>>,
    out1: Seq<BtAudioDevice>,
    out2: Seq<BtAudioDevice>,
)
    requires
        listed(props1).len() == listed(props2).len(),
        forall|k: int|
            0 <= k < listed(props1).len() ==> (#[trigger] listed(props1)[k]).path@ == listed(props2)[k].path@
                && prop_alias(listed(props1)[k]) == prop_alias(listed(props2)[k]),
        distinct_aliases(listed(props1)),
        sorted_by_alias(out1),
        sorted_by_alias(out2),
        exists|perm: Seq<int>| #[trigger] arranges(out1, listed(props1), perm, suppressed1),
        exists|perm: Seq<int>| #[trigger] arranges(out2, listed(props2), perm, suppressed2),
    ensures
        out1.len() == out2.len(),
        forall|k: int| 0 <= k < out1.len() ==> (#[trigger] out1[k]).path@ == out2[k].path@,
{
    let src1 = listed(props1);
    let src2 = listed(props2);
    let n = src1.len() as int;
    let p1 = choose|perm: Seq<int>| #[trigger] arranges(out1, src1, perm, suppressed1);
    let p2 = choose|perm: Seq<int>| #[trigger] arranges(out2, src2, perm, suppressed2);
    let a = out1.map_values(|d: BtAudioDevice| d.alias@);
    let b = out2.map_values(|d: BtAudioDevice| d.alias@);
    assert forall|k: int| 0 <= k < n implies #[trigger] a[k] == prop_alias(src1[p1[k]]) && b[k]
        == prop_alias(src1[p2[k]]) by {
        assert(shows(out1[k], src1[p1[k]], suppressed1));
        assert(shows(out2[k], src2[p2[k]], suppressed2));
        assert(0 <= p2[k] < n);
        assert(prop_alias(src1[p2[k]]) == prop_alias(src2[p2[k]]));
    }
    assert forall|i: int, j: int| 0 <= i < j < a.len() implies text_before(#[trigger] a[i], #[trigger] a[j]) by {
        assert(a[i] == prop_alias(src1[p1[i]]));
        assert(a[j] == prop_alias(src1[p1[j]]));
        assert(p1[i] != p1[j]);
        assert(0 <= p1[i] < n && 0 <= p1[j] < n);
        assert(src1[p1[i]] == src1[p1[i]]);
        assert(a[i] != a[j]);
        assert(!text_before(out1[j].alias@, out1[i].alias@));
        lemma_before_total(a[i], a[j]);
    }
    assert forall|i: int, j: int| 0 <= i < j < b.len() implies text_before(#[trigger] b[i], #[trigger] b[j]) by {
        assert(b[i] == prop_alias(src1[p2[i]]));
        assert(b[j] == prop_alias(src1[p2[j]]));
        assert(p2[i] != p2[j]);
        assert(0 <= p2[i] < n && 0 <= p2[j] < n);
        assert(b[i] != b[j]);
        assert(!text_before(out2[j].alias@, out2[i].alias@));
        lemma_before_total(b[i], b[j]);
    }
    assert(strictly_sorted(a));
    assert(strictly_sorted(b));
    assert forall|i: int| 0 <= i < a.len() implies b.contains(#[trigger] a[i]) by {
        assert(0 <= p1[i] < n);
        lemma_perm_onto(p2, n, p1[i]);
        let m = choose|m: int| 0 <= m < n && #[trigger] p2[m] == p1[i];
        assert(a[i] == prop_alias(src1[p1[i]]));
        assert(b[m] == prop_alias(src1[p2[m]]));
        assert(b[m] == a[i]);
    }
    assert forall|i: int| 0 <= i < b.len() implies a.contains(#[trigger] b[i]) by {
        assert(0 <= p2[i] < n);
        lemma_perm_onto(p1, n, p2[i]);
        let m = choose|m: int| 0 <= m < n && #[trigger] p1[m] == p2[i];
        assert(b[i] == prop_alias(src1[p2[i]]));
        assert(a[m] == prop_alias(src1[p1[m]]));
        assert(a[m] == b[i]);
    }
    assert(all_in(a, b));
    assert(all_in(b, a));
    lemma_strictly_sorted_equal(a, b, n);
    assert forall|k: int| 0 <= k < out1.len() implies (#[trigger] out1[k]).path@ == out2[k].path@ by {
        assert(a[k] == b[k]);
        assert(a[k] == prop_alias(src1[p1[k]]));
        assert(b[k] == prop_alias(src1[p2[k]]));
        assert(0 <= p1[k] < n && 0 <= p2[k] < n);
        if p1[k] != p2[k] {
            assert(prop_alias(src1[p1[k]]) != prop_alias(src1[p2[k]]));
        }
        assert(shows(out1[k], src1[p1[k]], suppressed1));
        assert(shows(out2[k], src2[p2[k]], suppressed2));
        assert(src1[p1[k]].path@ == src2[p1[k]].path@);
    }
}

/// What releasing does to one device.
#[derive(Debug, Clone, Copy, PartialEq, Eq, Structural)]
pub enum ReleaseAction {
    /// Not suppressed by this switcher, or not blocked: nothing.
    Nothing,
    /// A suppressed LE device: trust it again.
    Trust,
    /// A suppressed classic device that BlueZ blocks: unblock it.
    Unblock,
}

/// What releasing does to a device: only devices this switcher suppressed
/// are touched; LE devices are trusted again, classic ones unblocked when
/// blocked.
pub open spec fn spec_release_action(p: DeviceProps, releasing: Set<Seq<char>>) -> ReleaseAction {
    if !releasing.contains(prop_address(p)) {
        ReleaseAction::Nothing
    } else if spec_is_le(p) {
        ReleaseAction::Trust
    } else if flag_or(p.blocked, false) {
        ReleaseAction::Unblock
    } else {
        ReleaseAction::Nothing
    }
}

/// Releasing is done once: with nothing left suppressed, releasing touches
/// no device.
pub proof fn law_release_twice_touches_nothing(p: DeviceProps)
    ensures
        spec_release_action(p, Set::<Seq<char>>::empty()) == ReleaseAction::Nothing,
{
}

/// What releasing does to one device.
pub fn release_action(device: &DeviceProps, releasing: &Blocklist) -> (r: ReleaseAction)
    ensures
        r == spec_release_action(*device, releasing@),
{
    let address = copy_text(&device.address);
    if !releasing.contains(address.as_str()) {
        ReleaseAction::Nothing
    } else if is_le_device(device) {
        ReleaseAction::Trust
    } else if flag(device.blocked, false) {
        ReleaseAction::Unblock
    } else {
        ReleaseAction::Nothing
    }
}

/// An object that BlueZ's object manager lists, with the names of the
/// interfaces it implements.
pub struct ManagedObject {
    pub path: String,
    pub interfaces: Vec<String>,
}

/// Whether the object implements the interface.
pub open spec fn implements(o: ManagedObject, interface: Seq<char>) -> bool {
    texts(o.interfaces@).contains(interface)
}

/// Whether the object implements the interface.
pub fn has_interface(o: &ManagedObject, interface: &str) -> (r: bool)
    ensures
        r == implements(*o, interface@),
{
    let mut i: usize = 0;
    while i < o.interfaces.len()
        invariant
            i <= o.interfaces@.len(),
            forall|k: int| 0 <= k < i ==> o.interfaces@[k]@ != interface@,
        decreases o.interfaces.len() - i,
    {
        if same_text(o.interfaces[i].as_str(), interface) {
            assert(texts(o.interfaces@)[i as int] == interface@);
            return true;
        }
        i = i + 1;
    }
    false
}

/// The first object implementing the interface, in the order listed.
pub fn first_with_interface(objects: &Vec<ManagedObject>, interface: &str) -> (r: Option<usize>)
    ensures
        match r {
            Some(k) => k < objects@.len() && implements(objects@[k as int], interface@) && forall|j: int|
                0 <= j < k ==> !implements(#[trigger] objects@[j], interface@),
            None => forall|j: int| 0 <= j < objects@.len() ==> !implements(#[trigger] objects@[j], interface@),
        },
{
    let mut i: usize = 0;
    while i < objects.len()
        invariant
            i <= objects@.len(),
            forall|j: int| 0 <= j < i ==> !implements(#[trigger] objects@[j], interface@),
        decreases objects.len() - i,
    {
        if has_interface(&objects[i], interface) {
            return Some(i);
        }
        i = i + 1;
    }
    None
}

/// The positions of the objects implementing the interface, in order.
pub fn with_interface(objects: &Vec<ManagedObject>, interface: &str) -> (r: Vec<usize>)
    ensures
        r@ == Seq::new(objects@.len(), |i: int| i).filter(|i: int| implements(objects@[i], interface@)).map_values(
            |i: int| i as usize,
        ),
{
    let ghost idx = Seq::new(objects@.len(), |i: int| i);
    let mut r: Vec<usize> = Vec::new();
    let mut i: usize = 0;
    assert(idx.take(0).filter(|i: int| implements(objects@[i], interface@)) =~= Seq::<int>::empty()) by {
        reveal(Seq::filter);
    }
    while i < objects.len()
        invariant
            i <= objects@.len(),
            idx == Seq::new(objects@.len(), |i: int| i),
            r@ == idx.take(i as int).filter(|i: int| implements(objects@[i], interface@)).map_values(
                |i: int| i as usize,
            ),
        decreases objects.len() - i,
    {
        proof {
            assert(idx.take(i as int + 1) =~= idx.take(i as int).push(i as int));
            idx.take(i as int).lemma_filter_push(i as int, |i: int| implements(objects@[i], interface@));
        }
        if has_interface(&objects[i], interface) {
            let ghost prev = r@;
            r.push(i);
            assert(r@ =~= idx.take(i as int + 1).filter(|i: int| implements(objects@[i], interface@)).map_values(
                |i: int| i as usize,
            ));
        } else {
            assert(idx.take(i as int + 1).filter(|i: int| implements(objects@[i], interface@)) == idx.take(
                i as int,
            ).filter(|i: int| implements(objects@[i], interface@)));
        }
        i = i + 1;
    }
    assert(idx.take(i as int) =~= idx);
    r
}

/// Check if the BT adapter is powered on, given the `Powered` property of
/// the first adapter (`None` when there is no adapter; `Some(None)` when the
/// property could not be read): off unless read as on.
pub fn is_adapter_powered(first_adapter_powered: Option<Option<bool>>) -> (r: bool)
    ensures
        r == (first_adapter_powered == Some(Some(true))),
{
    match first_adapter_powered {
        Some(Some(p)) => p,
        _ => false,
    }
}

/// How a device's status follows from what BlueZ reports: a device whose
/// `Blocked` reads true is shown Blocked, connected or not; an LE device
/// (address type "random") whose `Trusted` reads false and that this
/// switcher suppressed is shown Blocked; otherwise it is shown Connected
/// exactly when `Connected` reads true, else Disconnected. No device is
/// shown Connecting.
pub proof fn law_status_from_properties(p: DeviceProps, suppressed: Set<Seq<char>>, status: DeviceStatus)
    requires
        status == spec_status(p, suppressed),
    ensures
        p.blocked == Some(true) ==> status == DeviceStatus::Blocked,
        (p.address_type matches Some(t) && t@ == "random"@) && p.trusted == Some(false) && (
        p.address matches Some(a) && suppressed.contains(a@)) ==> status == DeviceStatus::Blocked,
        status == DeviceStatus::Blocked ==> p.blocked == Some(true) || ((p.address_type matches Some(
            t,
        ) && t@ == "random"@) && p.trusted == Some(false) && suppressed.contains(prop_address(p))),
        status == DeviceStatus::Connected <==> p.connected == Some(true) && status != DeviceStatus::Blocked,
        status != DeviceStatus::Connecting,
{
    reveal_strlit("random");
    assert("random"@ =~= random_type());
}

/// What releasing does to a device: a device this switcher did not suppress
/// is left alone; one it suppressed is trusted again when it is an LE
/// device (address type "random"), whatever its `Blocked` flag; a classic
/// one is unblocked when `Blocked` reads true, else left alone.
pub proof fn law_release_restores_by_transport(
    p: DeviceProps,
    releasing: Set<Seq<char>>,
    action: ReleaseAction,
)
    requires
        action == spec_release_action(p, releasing),
    ensures
        !releasing.contains(prop_address(p)) ==> action == ReleaseAction::Nothing,
        releasing.contains(prop_address(p)) && (p.address_type matches Some(t) && t@ == "random"@)
            ==> action == ReleaseAction::Trust,
        releasing.contains(prop_address(p)) && !(p.address_type matches Some(t) && t@ == "random"@)
            ==> action == if p.blocked == Some(true) {
            ReleaseAction::Unblock
        } else {
            ReleaseAction::Nothing
        },
{
    reveal_strlit("random");
    assert("random"@ =~= random_type());
}

} // verus!
