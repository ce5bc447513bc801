//! What the switcher makes of PipeWire's and PulseAudio's tool output.

use vstd::prelude::*;

use crate::blocklist::texts;
use crate::text::{chars_of, owned, same_text, string_of};

verus! {

/// The properties of a PipeWire node that the switcher reads.
pub struct PwNodeProps {
    /// "media.class"
    pub media_class: Option<String>,
    /// "api.bluez5.address"
    pub bluez_address: Option<String>,
    /// "node.name"
    pub node_name: Option<String>,
    /// "node.nick"
    pub node_nick: Option<String>,
}

/// The "info" object of a PipeWire node.
pub struct PwNodeInfo {
    pub props: Option<PwNodeProps>,
}

/// One object of `pw-dump`'s output.
pub struct PwNode {
    pub id: u32,
    pub info: Option<PwNodeInfo>,
}

/// What `str::to_uppercase` gives for a string (Unicode upper case mapping).
pub uninterp spec fn uppercase(s: Seq<char>) -> Seq<char>;

/// `str::to_uppercase`: the string with every character mapped to upper
/// case by the Unicode tables; this contract only names that result.
#[verifier::external_body]
fn to_uppercase(s: &str) -> (r: String)
    ensures
        r@ == uppercase(s@),
{
    s.to_uppercase()
}

/// Each '-' and '_' read as ':'.
pub open spec fn spec_separators_to_colons(s: Seq<char>) -> Seq<char> {
    s.map_values(|c: char| if c == '-' || c == '_' { ':' } else { c })
}

/// A MAC address in the form used for comparison: upper case, with '-' and
/// '_' read as ':'.
pub open spec fn spec_normalize_mac(mac: Seq<char>) -> Seq<char> {
    spec_separators_to_colons(uppercase(mac))
}

/// Turns each '-' and '_' of a MAC address into ':'.
pub fn separators_to_colons(s: &str) -> (r: String)
    ensures
        r@ == spec_separators_to_colons(s@),
{
    let cs = chars_of(s);
    let mut out: Vec<char> = Vec::new();
    let mut i: usize = 0;
    while i < cs.len()
        invariant
            i <= cs@.len(),
            out@ == spec_separators_to_colons(cs@.take(i as int)),
        decreases cs.len() - i,
    {
        let c = cs[i];
        if c == '-' || c == '_' {
            out.push(':');
        } else {
            out.push(c);
        }
        assert(spec_separators_to_colons(cs@.take(i as int + 1)) =~= spec_separators_to_colons(
            cs@.take(i as int),
        ).push(if c == '-' || c == '_' { ':' } else { c }));
        i = i + 1;
    }
    assert(cs@.take(i as int) =~= cs@);
    string_of(&out)
}

/// Normalize MAC address for comparison (uppercase, colon-separated)
pub fn normalize_mac(mac: &str) -> (r: String)
    ensures
        r@ == spec_normalize_mac(mac@),
{
    let up = to_uppercase(mac);
    separators_to_colons(up.as_str())
}

/// "Audio/Sink"
pub open spec fn audio_sink_class() -> Seq<char> {
    "Audio/Sink"@
}

/// The node is an audio sink of the Bluetooth device whose normalized MAC
/// address is `mac`.
pub open spec fn is_sink_for(n: PwNode, mac: Seq<char>) -> bool {
    n.info matches Some(info) && info.props matches Some(props) && (props.media_class matches Some(
        c,
    ) && c@ == audio_sink_class()) && (props.bluez_address matches Some(a) && spec_normalize_mac(a@)
        == mac)
}

/// The name of a node ("" when it has none).
pub open spec fn node_name(n: PwNode) -> Seq<char> {
    match n.info {
        Some(info) => match info.props {
            Some(props) => match props.node_name {
                Some(name) => name@,
                None => Seq::empty(),
            },
            None => Seq::empty(),
        },
        None => Seq::empty(),
    }
}

fn node_matches(n: &PwNode, mac: &str) -> (r: bool)
    ensures
        r == is_sink_for(*n, mac@),
{
    match &n.info {
        None => false,
        Some(info) => match &info.props {
            None => false,
            Some(props) => {
                let is_sink = match &props.media_class {
                    Some(c) => same_text(c.as_str(), "Audio/Sink"),
                    None => false,
                };
                let mac_matches = match &props.bluez_address {
                    Some(a) => {
                        let na = normalize_mac(a.as_str());
                        same_text(na.as_str(), mac)
                    },
                    None => false,
                };
                is_sink && mac_matches
            },
        },
    }
}

fn name_of(n: &PwNode) -> (r: String)
    ensures
        r@ == node_name(*n),
{
    match &n.info {
        Some(info) => match &info.props {
            Some(props) => match &props.node_name {
                Some(name) => owned(name.as_str()),
                None => String::new(),
            },
            None => String::new(),
        },
        None => String::new(),
    }
}

/// Find PipeWire sink node ID for a Bluetooth device by MAC address, among
/// the nodes `pw-dump` listed: the first audio sink whose Bluetooth address
/// matches, with its id and its name.
pub fn find_sink_by_mac(nodes: &Vec<PwNode>, mac: &str) -> (r: Option<(u32, String)>)
    ensures
        match r {
            Some((id, name)) => exists|k: int|
                0 <= k < nodes@.len() && #[trigger] is_sink_for(nodes@[k], spec_normalize_mac(mac@))
                    && id == nodes@[k].id && name@ == node_name(nodes@[k]) && forall|j: int|
                    0 <= j < k ==> !is_sink_for(#[trigger] nodes@[j], spec_normalize_mac(mac@)),
            None => forall|k: int|
                0 <= k < nodes@.len() ==> !is_sink_for(#[trigger] nodes@[k], spec_normalize_mac(mac@)),
        },
{
    let normalized = normalize_mac(mac);
    let mut i: usize = 0;
    while i < nodes.len()
        invariant
            i <= nodes@.len(),
            normalized@ == spec_normalize_mac(mac@),
            forall|j: int| 0 <= j < i ==> !is_sink_for(#[trigger] nodes@[j], spec_normalize_mac(mac@)),
        decreases nodes.len() - i,
    {
        if node_matches(&nodes[i], normalized.as_str()) {
            let name = name_of(&nodes[i]);
            assert(is_sink_for(nodes@[i as int], spec_normalize_mac(mac@)));
            return Some((nodes[i].id, name));
        }
        i = i + 1;
    }
    None
}

/// Whether a character has the Unicode White_Space property, which is what
/// `char::is_whitespace` tests.
pub open spec fn is_white_space(c: char) -> bool {
    ('\u{9}' <= c && c <= '\u{d}') || c == ' ' || c == '\u{85}' || c == '\u{a0}' || c == '\u{1680}'
        || ('\u{2000}' <= c && c <= '\u{200a}') || c == '\u{2028}' || c == '\u{2029}' || c
        == '\u{202f}' || c == '\u{205f}' || c == '\u{3000}'
}

/// Whether a character has the Unicode White_Space property.
pub fn white_space(c: char) -> (r: bool)
    ensures
        r == is_white_space(c),
{
    ('\u{9}' <= c && c <= '\u{d}') || c == ' ' || c == '\u{85}' || c == '\u{a0}' || c == '\u{1680}'
        || ('\u{2000}' <= c && c <= '\u{200a}') || c == '\u{2028}' || c == '\u{2029}' || c
        == '\u{202f}' || c == '\u{205f}' || c == '\u{3000}'
}

/// The pieces of a text between '\n' characters (one piece when there is
/// none), as `str::split('\n')` gives them.
pub open spec fn newline_pieces(s: Seq<char>) -> Seq<Seq<char>>
    decreases s.len(),
{
    if s.len() == 0 {
        seq![Seq::<char>::empty()]
    } else {
        let p = newline_pieces(s.drop_last());
        if s.last() == '\n' {
            p.push(Seq::<char>::empty())
        } else {
            p.update(p.len() - 1, p.last().push(s.last()))
        }
    }
}

proof fn lemma_pieces_nonempty(s: Seq<char>)
    ensures
        newline_pieces(s).len() >= 1,
    decreases s.len(),
{
    if s.len() > 0 {
        lemma_pieces_nonempty(s.drop_last());
    }
}

/// The first position at or after `i` that does not hold white space.
pub open spec fn skip_space(l: Seq<char>, i: int) -> int
    decreases l.len() - i,
{
    if i < 0 || i >= l.len() {
        l.len() as int
    } else if is_white_space(l[i]) {
        skip_space(l, i + 1)
    } else {
        i
    }
}

/// The first position at or after `i` that holds white space (or the end).
pub open spec fn word_end(l: Seq<char>, i: int) -> int
    decreases l.len() - i,
{
    if i < 0 || i >= l.len() {
        l.len() as int
    } else if is_white_space(l[i]) {
        i
    } else {
        word_end(l, i + 1)
    }
}

/// Whether a line holds something besides white space.
pub open spec fn has_word(l: Seq<char>) -> bool {
    skip_space(l, 0) < l.len()
}

/// The first white-space separated word of a line.
pub open spec fn first_word(l: Seq<char>) -> Seq<char> {
    l.subrange(skip_space(l, 0), word_end(l, skip_space(l, 0)))
}

/// The first word of each line of `pactl list short sink-inputs` that holds
/// one: the ids of the sink inputs.
pub open spec fn spec_sink_input_ids(out: Seq<char>) -> Seq<Seq<char>> {
    newline_pieces(out).filter(|l: Seq<char>| has_word(l)).map_values(|l: Seq<char>| first_word(l))
}

proof fn lemma_skip_space_range(l: Seq<char>, i: int)
    requires
        0 <= i <= l.len(),
    ensures
        i <= skip_space(l, i) <= l.len(),
    decreases l.len() - i,
{
    if i < l.len() && is_white_space(l[i]) {
        lemma_skip_space_range(l, i + 1);
    }
}

proof fn lemma_word_end_range(l: Seq<char>, i: int)
    requires
        0 <= i <= l.len(),
    ensures
        i <= word_end(l, i) <= l.len(),
    decreases l.len() - i,
{
    if i < l.len() && !is_white_space(l[i]) {
        lemma_word_end_range(l, i + 1);
    }
}

/// The first word of a line, if it holds one.
fn line_word(l: &Vec<char>) -> (r: Option<Vec<char>>)
    ensures
        match r {
            Some(w) => has_word(l@) && w@ == first_word(l@),
            None => !has_word(l@),
        },
{
    let mut a: usize = 0;
    while a < l.len() && white_space(l[a])
        invariant
            a <= l@.len(),
            skip_space(l@, 0) == skip_space(l@, a as int),
        decreases l.len() - a,
    {
        a = a + 1;
    }
    if a == l.len() {
        return None;
    }
    let mut b: usize = a;
    let mut w: Vec<char> = Vec::new();
    while b < l.len() && !white_space(l[b])
        invariant
            a <= b <= l@.len(),
            skip_space(l@, 0) == a,
            word_end(l@, a as int) == word_end(l@, b as int),
            w@ == l@.subrange(a as int, b as int),
        decreases l.len() - b,
    {
        w.push(l[b]);
        assert(l@.subrange(a as int, b + 1) =~= l@.subrange(a as int, b as int).push(l@[b as int]));
        b = b + 1;
    }
    Some(w)
}

/// The ids of the sink inputs listed by `pactl list short sink-inputs`: the
/// first word of each line that holds one.
pub fn sink_input_ids(output: &str) -> (r: Vec<String>)
    ensures
        texts(r@) == spec_sink_input_ids(output@),
{
    let cs = chars_of(output);
    let mut pieces: Vec<Vec<char>> = Vec::new();
    let mut cur: Vec<char> = Vec::new();
    let mut i: usize = 0;
    proof {
        assert(cs@.take(0) =~= Seq::<char>::empty());
    }
    while i < cs.len()
        invariant
            i <= cs@.len(),
            pieces@.map_values(|p: Vec<char>| p@).push(cur@) == newline_pieces(cs@.take(i as int)),
        decreases cs.len() - i,
    {
        let ghost before = cs@.take(i as int);
        assert(cs@.take(i as int + 1).drop_last() =~= before);
        let c = cs[i];
        if c == '\n' {
            let done = cur;
            pieces.push(done);
            cur = Vec::new();
            proof {
                assert(pieces@.map_values(|p: Vec<char>| p@).push(cur@) =~= newline_pieces(before).push(
                    Seq::<char>::empty(),
                ));
            }
        } else {
            let ghost old_cur = cur@;
            cur.push(c);
            proof {
                let p = newline_pieces(before);
                lemma_pieces_nonempty(before);
                assert(pieces@.map_values(|p: Vec<char>| p@).push(cur@) =~= p.update(
                    p.len() - 1,
                    p.last().push(c),
                ));
            }
        }
        i = i + 1;
    }
    pieces.push(cur);
    assert(cs@.take(cs@.len() as int) =~= cs@);
    let ghost lines = pieces@.map_values(|p: Vec<char>| p@);
    assert(lines == newline_pieces(output@));
    let mut r: Vec<String> = Vec::new();
    let mut k: usize = 0;
    while k < pieces.len()
        invariant
            k <= pieces@.len(),
            lines == pieces@.map_values(|p: Vec<char>| p@),
            texts(r@) == lines.take(k as int).filter(|l: Seq<char>| has_word(l)).map_values(
                |l: Seq<char>| first_word(l),
            ),
        decreases pieces.len() - k,
    {
        proof {
            assert(lines.take(k as int + 1) =~= lines.take(k as int).push(lines[k as int]));
            lines.take(k as int).lemma_filter_push(lines[k as int], |l: Seq<char>| has_word(l));
        }
        match line_word(&pieces[k]) {
            Some(w) => {
                let ghost prev = r@;
                r.push(string_of(&w));
                assert(texts(r@) =~= texts(prev).push(w@));
                assert(lines.take(k as int + 1).filter(|l: Seq<char>| has_word(l)).map_values(
                    |l: Seq<char>| first_word(l),
                ) =~= lines.take(k as int).filter(|l: Seq<char>| has_word(l)).map_values(
                    |l: Seq<char>| first_word(l),
                ).push(first_word(lines[k as int])));
            },
            None => {},
        }
        k = k + 1;
    }
    assert(lines.take(k as int) =~= lines);
    r
}

/// The command-line tools the switcher needs.
pub open spec fn required_tools() -> Seq<Seq<char>> {
    seq!["pw-dump"@, "wpctl"@, "pactl"@]
}

/// The tools whose check failed, in the order they are listed.
pub open spec fn spec_missing_tools(available: Seq<bool>) -> Seq<Seq<char>> {
    Seq::new(3, |i: int| i).filter(|i: int| !available[i]).map_values(|i: int| required_tools()[i])
}

/// The names of the command-line tools the switcher needs, in the order
/// they are checked.
pub fn tool_names() -> (r: Vec<String>)
    ensures
        texts(r@) == required_tools(),
{
    let mut r: Vec<String> = Vec::new();
    r.push(owned("pw-dump"));
    r.push(owned("wpctl"));
    r.push(owned("pactl"));
    assert(texts(r@) =~= required_tools());
    r
}

/// Check if required audio tools are available, given whether each of them
/// (in the order of `tool_names`) was found: the names of those missing.
pub fn check_tools(available: &Vec<bool>) -> (r: Vec<String>)
    requires
        available@.len() == 3,
    ensures
        texts(r@) == spec_missing_tools(available@),
{
    let names = tool_names();
    let mut r: Vec<String> = Vec::new();
    let mut i: usize = 0;
    let ghost idx = Seq::new(3, |i: int| i);
    assert(texts(names@).len() == 3);
    while i < 3
        invariant
            i <= 3,
            available@.len() == 3,
            texts(names@) == required_tools(),
            names@.len() == 3,
            idx == Seq::new(3, |i: int| i),
            texts(r@) == idx.take(i as int).filter(|i: int| !available@[i]).map_values(
                |i: int| required_tools()[i],
            ),
        decreases 3 - i,
    {
        proof {
            assert(idx.take(i as int + 1) =~= idx.take(i as int).push(i as int));
            idx.take(i as int).lemma_filter_push(i as int, |i: int| !available@[i]);
        }
        if !available[i] {
            let ghost prev = r@;
            r.push(owned(names[i].as_str()));
            assert(texts(names@)[i as int] == names@[i as int]@);
            assert(texts(r@) =~= texts(prev).push(required_tools()[i as int]));
            assert(idx.take(i as int + 1).filter(|i: int| !available@[i]).map_values(
                |i: int| required_tools()[i],
            ) =~= idx.take(i as int).filter(|i: int| !available@[i]).map_values(
                |i: int| required_tools()[i],
            ).push(required_tools()[i as int]));
        } else {
            assert(idx.take(i as int + 1).filter(|i: int| !available@[i]) == idx.take(i as int).filter(
                |i: int| !available@[i],
            ));
        }
        i = i + 1;
    }
    assert(idx.take(3) =~= idx);
    r
}

/// The decimal digits.
pub open spec fn digit_chars() -> Seq<char> {
    seq!['0', '1', '2', '3', '4', '5', '6', '7', '8', '9']
}

/// The decimal representation of a number, as `u32`'s `to_string` writes it.
pub open spec fn decimal(n: nat) -> Seq<char>
    decreases n,
{
    if n < 10 {
        seq![digit_chars()[n as int]]
    } else {
        decimal(n / 10).push(digit_chars()[(n % 10) as int])
    }
}

fn push_decimal(n: u32, out: &mut Vec<char>)
    ensures
        final(out)@ == old(out)@ + decimal(n as nat),
    decreases n,
{
    if n >= 10 {
        push_decimal(n / 10, out);
    }
    let d = n % 10;
    let c = if d == 0 { '0' } else if d == 1 { '1' } else if d == 2 { '2' } else if d == 3 { '3' }
        else if d == 4 { '4' } else if d == 5 { '5' } else if d == 6 { '6' } else if d == 7 { '7' }
        else if d == 8 { '8' } else { '9' };
    let ghost mid = out@;
    out.push(c);
    proof {
        assert(c == digit_chars()[d as int]);
        if n >= 10 {
            assert(out@ =~= old(out)@ + decimal(n as nat));
        } else {
            assert(out@ =~= old(out)@ + decimal(n as nat));
        }
    }
}

/// The decimal representation of a node or stream id.
pub fn decimal_text(n: u32) -> (r: String)
    ensures
        r@ == decimal(n as nat),
{
    let mut out: Vec<char> = Vec::new();
    push_decimal(n, &mut out);
    assert(out@ =~= decimal(n as nat));
    string_of(&out)
}

/// The arguments of `wpctl` that make the node the default sink.
pub fn set_default_sink_args(node_id: u32) -> (r: Vec<String>)
    ensures
        texts(r@) == seq!["set-default"@, decimal(node_id as nat)],
{
    let mut r: Vec<String> = Vec::new();
    r.push(owned("set-default"));
    r.push(decimal_text(node_id));
    assert(texts(r@) =~= seq!["set-default"@, decimal(node_id as nat)]);
    r
}

/// The arguments of `pactl` that list the sink inputs.
pub fn list_sink_inputs_args() -> (r: Vec<String>)
    ensures
        texts(r@) == seq!["list"@, "short"@, "sink-inputs"@],
{
    let mut r: Vec<String> = Vec::new();
    r.push(owned("list"));
    r.push(owned("short"));
    r.push(owned("sink-inputs"));
    assert(texts(r@) =~= seq!["list"@, "short"@, "sink-inputs"@]);
    r
}

/// The arguments of `pactl` that move a sink input to a sink.
pub fn move_sink_input_args(input_id: &str, sink_name: &str) -> (r: Vec<String>)
    ensures
        texts(r@) == seq!["move-sink-input"@, input_id@, sink_name@],
{
    let mut r: Vec<String> = Vec::new();
    r.push(owned("move-sink-input"));
    r.push(owned(input_id));
    r.push(owned(sink_name));
    assert(texts(r@) =~= seq!["move-sink-input"@, input_id@, sink_name@]);
    r
}

/// The error when the device's sink does not appear in time.
pub fn sink_timeout_message(mac: &str) -> (r: String)
    ensures
        r@ == "Timeout: PipeWire sink for "@ + mac@ + " did not appear within 10s"@,
{
    let mut r = owned("Timeout: PipeWire sink for ");
    r.append(mac);
    r.append(" did not appear within 10s");
    r
}

/// The sink found for a device is an audio sink of that device: the node
/// returned has media class exactly "Audio/Sink" and a Bluetooth address
/// that normalizes to the device's; its id and name are that node's, and no
/// earlier node is such a sink.
pub proof fn law_found_sink_is_audio_sink(nodes: Seq<PwNode>, mac: Seq<char>, id: u32, name: Seq<char>)
    requires
        exists|k: int|
            0 <= k < nodes.len() && #[trigger] is_sink_for(nodes[k], spec_normalize_mac(mac)) && id
                == nodes[k].id && name == node_name(nodes[k]) && forall|j: int|
                0 <= j < k ==> !is_sink_for(#[trigger] nodes[j], spec_normalize_mac(mac)),
    ensures
        exists|k: int|
            0 <= k < nodes.len() && id == #[trigger] nodes[k].id && (nodes[k].info matches Some(info)
                && info.props matches Some(props) && (props.media_class matches Some(c) && c@
                == "Audio/Sink"@) && (props.bluez_address matches Some(a) && spec_normalize_mac(a@)
                == spec_normalize_mac(mac)) && (name == match props.node_name {
                Some(nm) => nm@,
                None => Seq::empty(),
            })) && forall|j: int|
                0 <= j < k ==> !((#[trigger] nodes[j]).info matches Some(info) && info.props matches Some(props)
                    && (props.media_class matches Some(c) && c@ == "Audio/Sink"@) && (
                props.bluez_address matches Some(a) && spec_normalize_mac(a@) == spec_normalize_mac(
                    mac,
                ))),
{
    let k = choose|k: int|
        0 <= k < nodes.len() && #[trigger] is_sink_for(nodes[k], spec_normalize_mac(mac)) && id
            == nodes[k].id && name == node_name(nodes[k]) && forall|j: int|
            0 <= j < k ==> !is_sink_for(#[trigger] nodes[j], spec_normalize_mac(mac));
    assert(nodes[k].id == id);
}

} // verus!
