//! The messages between the window and the worker that talks to BlueZ, and
//! what the worker answers each command with.

use vstd::prelude::*;

use crate::blocklist::{texts, Blocklist};
use crate::device::BtAudioDevice;
use crate::text::owned;

verus! {

/// Messages the UI sends to the backend
#[derive(Debug, Clone)]
pub enum Command {
    SwitchTo(String),
    ReleaseAll,
    Refresh,
    Shutdown,
    ShowWindow,
}

/// Messages the backend sends to the UI
#[derive(Debug, Clone)]
pub enum Event {
    DeviceListUpdated(Vec<BtAudioDevice>),
    SwitchStarted,
    SwitchComplete,
    Error(String),
    AdapterPowered(bool),
    /// The window is to be shown (the tray icon was clicked).
    ShowWindow,
    Quit,
}

/// The work a command asks the worker for.
#[derive(Debug, Clone)]
pub enum Operation {
    /// Switch exclusively to the device at this object path.
    Switch(String),
    /// Undo every suppression of this switcher.
    Release,
    /// Read the adapter state and the device list again.
    Refresh,
    /// Stop. The devices this switcher suppressed stay suppressed and the
    /// state file stays: the block persists after the switcher quits, until
    /// "Unblock All" is chosen.
    Shutdown,
    /// Show the window: the `ShowWindow` event sent first asks the window to
    /// show itself; no device is touched.
    ShowWindow,
}

/// The events sent before the work starts, and the work.
pub open spec fn spec_start_command(cmd: Command) -> (Seq<Event>, Operation) {
    match cmd {
        Command::SwitchTo(path) => (seq![Event::SwitchStarted], Operation::Switch(path)),
        Command::ReleaseAll => (seq![Event::SwitchStarted], Operation::Release),
        Command::Refresh => (Seq::empty(), Operation::Refresh),
        Command::Shutdown => (Seq::empty(), Operation::Shutdown),
        Command::ShowWindow => (seq![Event::ShowWindow], Operation::ShowWindow),
    }
}

/// What the worker does with a command: the events sent before the work
/// starts, and the work.
pub fn start_command(cmd: Command) -> (r: (Vec<Event>, Operation))
    ensures
        (r.0@, r.1) == spec_start_command(cmd),
{
    let mut events: Vec<Event> = Vec::new();
    let op = match cmd {
        Command::SwitchTo(path) => {
            events.push(Event::SwitchStarted);
            Operation::Switch(path)
        },
        Command::ReleaseAll => {
            events.push(Event::SwitchStarted);
            Operation::Release
        },
        Command::Refresh => Operation::Refresh,
        Command::Shutdown => Operation::Shutdown,
        Command::ShowWindow => {
            events.push(Event::ShowWindow);
            Operation::ShowWindow
        },
    };
    assert(events@ =~= spec_start_command(cmd).0);
    (events, op)
}

/// What becomes of the state file once an operation's work on the devices
/// is over.
#[derive(Debug, Clone, Copy, PartialEq, Eq, Structural)]
pub enum StateFile {
    /// It stays as it is.
    Keep,
    /// It is removed.
    Remove,
}

/// The block list, and what becomes of the state file, once an operation's
/// work on the devices is over: a release forgets every suppressed device
/// and removes the state file; every other operation leaves both as they
/// are (a switch has already updated them step by step).
pub open spec fn settled(op: Operation, blocked: Set<Seq<char>>) -> (Set<Seq<char>>, StateFile) {
    match op {
        Operation::Release => (Set::empty(), StateFile::Remove),
        _ => (blocked, StateFile::Keep),
    }
}

/// Settles the block list once an operation's work on the devices is over;
/// see `settled`.
pub fn settle(op: &Operation, blocked: &mut Blocklist) -> (r: StateFile)
    ensures
        (final(blocked)@, r) == settled(*op, old(blocked)@),
{
    match op {
        Operation::Release => {
            blocked.clear();
            StateFile::Remove
        },
        _ => StateFile::Keep,
    }
}

/// Quitting keeps the block: a shutdown command asks for work that leaves
/// the block list and the state file as they are, so the devices stay
/// blocked after the switcher quits, until "Unblock All" is chosen.
pub proof fn law_shutdown_keeps_block(blocked: Set<Seq<char>>)
    ensures
        settled(spec_start_command(Command::Shutdown).1, blocked) == (blocked, StateFile::Keep),
{
}

/// "Unblock All" forgets every suppressed device and removes the state
/// file.
pub proof fn law_release_all_forgets_block(blocked: Set<Seq<char>>)
    ensures
        settled(spec_start_command(Command::ReleaseAll).1, blocked) == (
            Set::<Seq<char>>::empty(),
            StateFile::Remove,
        ),
{
}

/// The events that report a finished switch, and whether the device list is
/// to be read again and sent (after a failure, to show the current state).
pub fn switch_finished(result: Result<Vec<BtAudioDevice>, String>) -> (r: (Vec<Event>, bool))
    ensures
        match result {
            Ok(devices) => r.0@ == seq![Event::SwitchComplete, Event::DeviceListUpdated(devices)]
                && !r.1,
            Err(e) => r.0@ == seq![Event::Error(e)] && r.1,
        },
{
    let mut events: Vec<Event> = Vec::new();
    match result {
        Ok(devices) => {
            events.push(Event::SwitchComplete);
            events.push(Event::DeviceListUpdated(devices));
            (events, false)
        },
        Err(e) => {
            events.push(Event::Error(e));
            (events, true)
        },
    }
}

/// The events that report a finished release.
pub fn release_finished(result: Result<Vec<BtAudioDevice>, String>) -> (r: Vec<Event>)
    ensures
        match result {
            Ok(devices) => r@ == seq![Event::SwitchComplete, Event::DeviceListUpdated(devices)],
            Err(e) => r@ == seq![Event::Error(e)],
        },
{
    let mut events: Vec<Event> = Vec::new();
    match result {
        Ok(devices) => {
            events.push(Event::SwitchComplete);
            events.push(Event::DeviceListUpdated(devices));
        },
        Err(e) => {
            events.push(Event::Error(e));
        },
    }
    events
}

/// "<prefix><error>" as the text of an error event.
fn error_event(prefix: &str, e: &str) -> (r: Event)
    ensures
        r matches Event::Error(m) && m@ == prefix@ + e@,
{
    let mut m = owned(prefix);
    m.append(e);
    Event::Error(m)
}

/// The event that reports a device list read: the list, or the error with
/// the given prefix.
pub open spec fn reports_list(ev: Event, list: Result<Vec<BtAudioDevice>, String>, prefix: Seq<char>) -> bool {
    match list {
        Ok(devices) => ev == Event::DeviceListUpdated(devices),
        Err(e) => ev matches Event::Error(m) && m@ == prefix + e@,
    }
}

/// The events that report a refresh: the adapter state when it could be
/// read, then the device list, or "Refresh failed: " and the error.
pub fn refresh_finished(powered: Option<bool>, list: Result<Vec<BtAudioDevice>, String>) -> (r: Vec<
    Event,
>)
    ensures
        match powered {
            Some(p) => r@.len() == 2 && r@[0] == Event::AdapterPowered(p),
            None => r@.len() == 1,
        },
        reports_list(r@.last(), list, "Refresh failed: "@),
{
    let mut events: Vec<Event> = Vec::new();
    match powered {
        Some(p) => events.push(Event::AdapterPowered(p)),
        None => {},
    }
    match list {
        Ok(devices) => events.push(Event::DeviceListUpdated(devices)),
        Err(e) => events.push(error_event("Refresh failed: ", e.as_str())),
    }
    events
}

/// The text of a list joined with a separator.
pub open spec fn joined(list: Seq<Seq<char>>, sep: Seq<char>) -> Seq<char>
    decreases list.len(),
{
    if list.len() == 0 {
        Seq::empty()
    } else if list.len() == 1 {
        list[0]
    } else {
        joined(list.drop_last(), sep) + sep + list.last()
    }
}

/// Joins strings with a separator.
pub fn join(list: &Vec<String>, sep: &str) -> (r: String)
    ensures
        r@ == joined(texts(list@), sep@),
{
    let mut r = String::new();
    let mut i: usize = 0;
    while i < list.len()
        invariant
            i <= list@.len(),
            r@ == joined(texts(list@).take(i as int), sep@),
        decreases list.len() - i,
    {
        let ghost t = texts(list@);
        assert(t.take(i as int + 1).drop_last() =~= t.take(i as int));
        if i > 0 {
            r.append(sep);
        } else {
            assert(t.take(1) =~= seq![t[0]]);
        }
        r.append(list[i].as_str());
        i = i + 1;
    }
    assert(texts(list@).take(i as int) =~= texts(list@));
    r
}

/// The error shown when tools are missing: "Missing required tools: ",
/// their names separated by ", ", and ". Install PipeWire and
/// WirePlumber."; none when nothing is missing.
pub fn missing_tools_message(missing: &Vec<String>) -> (r: Option<String>)
    ensures
        match r {
            Some(m) => missing@.len() > 0 && m@ == "Missing required tools: "@ + joined(
                texts(missing@),
                ", "@,
            ) + ". Install PipeWire and WirePlumber."@,
            None => missing@.len() == 0,
        },
{
    if missing.len() == 0 {
        return None;
    }
    let mut m = owned("Missing required tools: ");
    let j = join(missing, ", ");
    m.append(j.as_str());
    m.append(". Install PipeWire and WirePlumber.");
    Some(m)
}

/// The error shown when the worker cannot reach BlueZ.
pub fn bluez_unreachable_message(e: &str) -> (r: String)
    ensures
        r@ == "Cannot connect to BlueZ: "@ + e@ + "\n\nMake sure Bluetooth service is running."@,
{
    let mut m = owned("Cannot connect to BlueZ: ");
    m.append(e);
    m.append("\n\nMake sure Bluetooth service is running.");
    m
}

/// The events the worker sends when it cannot reach BlueZ, before it stops
/// (no `Quit` follows: the window stays open to show the error).
pub fn startup_failed(e: &str) -> (r: Vec<Event>)
    ensures
        r@.len() == 1,
        r@[0] matches Event::Error(m) && m@ == "Cannot connect to BlueZ: "@ + e@
            + "\n\nMake sure Bluetooth service is running."@,
{
    let mut events: Vec<Event> = Vec::new();
    events.push(Event::Error(bluez_unreachable_message(e)));
    events
}

/// The events the worker sends once it has started: an error naming the
/// missing tools if any, the adapter state when it could be read, then the
/// device list or "Failed to list devices: " and the error.
pub fn startup_events(
    missing_tools: &Vec<String>,
    powered: Option<bool>,
    list: Result<Vec<BtAudioDevice>, String>,
) -> (r: Vec<Event>)
    ensures
        r@.len() == (if missing_tools@.len() > 0 { 1int } else { 0 }) + (if powered is Some { 1int } else { 0 }) + 1,
        missing_tools@.len() > 0 ==> (r@[0] matches Event::Error(m) && m@ == "Missing required tools: "@
            + joined(texts(missing_tools@), ", "@) + ". Install PipeWire and WirePlumber."@),
        powered matches Some(p) ==> r@[r@.len() - 2] == Event::AdapterPowered(p),
        reports_list(r@.last(), list, "Failed to list devices: "@),
{
    let mut events: Vec<Event> = Vec::new();
    match missing_tools_message(missing_tools) {
        Some(m) => events.push(Event::Error(m)),
        None => {},
    }
    match powered {
        Some(p) => events.push(Event::AdapterPowered(p)),
        None => {},
    }
    match list {
        Ok(devices) => events.push(Event::DeviceListUpdated(devices)),
        Err(e) => events.push(error_event("Failed to list devices: ", e.as_str())),
    }
    events
}

impl Event {
    /// Whether the event tells the window to quit.
    pub fn is_quit(&self) -> (r: bool)
        ensures
            r == (*self is Quit),
    {
        match self {
            Event::Quit => true,
            _ => false,
        }
    }
}

} // verus!
