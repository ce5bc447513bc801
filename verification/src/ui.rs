//! What the window shows: one row per device, the busy state, the status
//! line and the banner for a powered-off adapter.

use vstd::prelude::*;

use crate::backend::Event;
use crate::device::{BtAudioDevice, DeviceStatus};
use crate::text::{owned, same_text};

verus! {

/// How one device row looks.
#[derive(Debug, Clone, Copy)]
pub struct RowView {
    /// The symbolic icon shown left of the name.
    pub icon_name: &'static str,
    /// The status shown right of the name.
    pub status_text: &'static str,
    /// The style class besides "device-row".
    pub css_class: &'static str,
    /// Whether the row can be clicked.
    pub sensitive: bool,
}

/// The icon for a device's icon hint.
pub open spec fn spec_icon_name(icon: Option<Seq<char>>) -> Seq<char> {
    if icon == Some("audio-headphones"@) {
        "audio-headphones-symbolic"@
    } else if icon == Some("audio-headset"@) {
        "audio-headset-symbolic"@
    } else {
        "audio-speakers-symbolic"@
    }
}

/// The status text of a row.
pub open spec fn spec_status_text(status: DeviceStatus, is_exclusive: bool) -> Seq<char> {
    match status {
        DeviceStatus::Connected => if is_exclusive { "Active"@ } else { "Connected"@ },
        DeviceStatus::Blocked => "Blocked"@,
        DeviceStatus::Disconnected => "Disconnected"@,
        DeviceStatus::Connecting => "Connecting\u{2026}"@,
    }
}

/// The style class of a row.
pub open spec fn spec_css_class(status: DeviceStatus, is_exclusive: bool) -> Seq<char> {
    if is_exclusive {
        "device-active"@
    } else if status == DeviceStatus::Blocked {
        "device-blocked"@
    } else {
        "flat"@
    }
}

/// How the row of a device looks. The exclusive device is shown as
/// "Active" and cannot be clicked; no row can be clicked while a switch runs.
pub fn build_device_row(device: &BtAudioDevice, is_busy: bool, is_exclusive: bool) -> (r: RowView)
    ensures
        r.icon_name@ == spec_icon_name(match device.icon { Some(i) => Some(i@), None => None }),
        r.status_text@ == spec_status_text(device.status, is_exclusive),
        r.css_class@ == spec_css_class(device.status, is_exclusive),
        r.sensitive == (!is_exclusive && !is_busy),
{
    let icon_name = match &device.icon {
        Some(i) => if same_text(i.as_str(), "audio-headphones") {
            "audio-headphones-symbolic"
        } else if same_text(i.as_str(), "audio-headset") {
            "audio-headset-symbolic"
        } else {
            "audio-speakers-symbolic"
        },
        None => "audio-speakers-symbolic",
    };
    let status_text = match device.status {
        DeviceStatus::Connected => if is_exclusive {
            "Active"
        } else {
            "Connected"
        },
        DeviceStatus::Blocked => "Blocked",
        DeviceStatus::Disconnected => "Disconnected",
        DeviceStatus::Connecting => "Connecting\u{2026}",
    };
    let css_class = if is_exclusive {
        "device-active"
    } else {
        match device.status {
            DeviceStatus::Blocked => "device-blocked",
            _ => "flat",
        }
    };
    RowView { icon_name, status_text, css_class, sensitive: !is_exclusive && !is_busy }
}

/// How many of the devices are connected.
pub open spec fn connected_count(devices: Seq<BtAudioDevice>) -> nat
    decreases devices.len(),
{
    if devices.len() == 0 {
        0
    } else {
        connected_count(devices.drop_last()) + if devices.last().status == DeviceStatus::Connected {
            1nat
        } else {
            0
        }
    }
}

/// A device is exclusive when it is connected and is the only connected one.
pub open spec fn is_exclusive(devices: Seq<BtAudioDevice>, i: int) -> bool {
    devices[i].status == DeviceStatus::Connected && connected_count(devices) == 1
}

/// For each device, whether it is the exclusive one.
pub fn exclusive_flags(devices: &Vec<BtAudioDevice>) -> (r: Vec<bool>)
    ensures
        r@.len() == devices@.len(),
        forall|i: int| 0 <= i < r@.len() ==> r@[i] == is_exclusive(devices@, i),
{
    let mut count: usize = 0;
    let mut i: usize = 0;
    while i < devices.len()
        invariant
            i <= devices@.len(),
            count == connected_count(devices@.take(i as int)),
            count <= i,
        decreases devices.len() - i,
    {
        assert(devices@.take(i as int + 1).drop_last() =~= devices@.take(i as int));
        if devices[i].status == DeviceStatus::Connected {
            count = count + 1;
        }
        i = i + 1;
    }
    assert(devices@.take(i as int) =~= devices@);
    let mut r: Vec<bool> = Vec::new();
    let mut k: usize = 0;
    while k < devices.len()
        invariant
            k <= devices@.len(),
            count == connected_count(devices@),
            r@.len() == k,
            forall|i: int| 0 <= i < k ==> r@[i] == is_exclusive(devices@, i),
        decreases devices.len() - k,
    {
        r.push(devices[k].status == DeviceStatus::Connected && count == 1);
        k = k + 1;
    }
    r
}

proof fn lemma_count_positions(devices: Seq<BtAudioDevice>, i: int, j: int)
    requires
        0 <= i < j < devices.len(),
        devices[i].status == DeviceStatus::Connected,
        devices[j].status == DeviceStatus::Connected,
    ensures
        connected_count(devices) >= 2,
    decreases devices.len(),
{
    if j < devices.len() - 1 {
        lemma_count_positions(devices.drop_last(), i, j);
    } else {
        lemma_count_one(devices.drop_last(), i);
    }
}

proof fn lemma_count_one(devices: Seq<BtAudioDevice>, i: int)
    requires
        0 <= i < devices.len(),
        devices[i].status == DeviceStatus::Connected,
    ensures
        connected_count(devices) >= 1,
    decreases devices.len(),
{
    if i < devices.len() - 1 {
        lemma_count_one(devices.drop_last(), i);
    }
}

/// At most one device is shown as the active one.
pub proof fn law_at_most_one_active(devices: Seq<BtAudioDevice>, i: int, j: int)
    requires
        0 <= i < devices.len(),
        0 <= j < devices.len(),
        is_exclusive(devices, i),
        is_exclusive(devices, j),
    ensures
        i == j,
{
    if i < j {
        lemma_count_positions(devices, i, j);
    } else if j < i {
        lemma_count_positions(devices, j, i);
    }
}

/// What the device list area shows.
#[derive(Debug, Clone)]
pub enum ListView {
    /// No device: a single line of text.
    Placeholder(&'static str),
    /// One row per device, in order.
    Rows(Vec<RowView>),
}

/// `rows` are the rows of `devices`, in order.
pub open spec fn rows_show(rows: Seq<RowView>, devices: Seq<BtAudioDevice>, is_busy: bool) -> bool {
    &&& rows.len() == devices.len()
    &&& forall|i: int|
        0 <= i < rows.len() ==> {
            let row = #[trigger] rows[i];
            &&& row.status_text@ == spec_status_text(devices[i].status, is_exclusive(devices, i))
            &&& row.css_class@ == spec_css_class(devices[i].status, is_exclusive(devices, i))
            &&& row.icon_name@ == spec_icon_name(
                match devices[i].icon { Some(s) => Some(s@), None => None },
            )
            &&& row.sensitive == (!is_exclusive(devices, i) && !is_busy)
        }
}

/// What the device list area shows for these devices: a placeholder when
/// there is none, else one row per device.
pub fn update_device_list(devices: &Vec<BtAudioDevice>, is_busy: bool) -> (r: ListView)
    ensures
        match r {
            ListView::Placeholder(t) => devices@.len() == 0 && t@
                == "No paired Bluetooth audio devices found"@,
            ListView::Rows(rows) => devices@.len() > 0 && rows_show(rows@, devices@, is_busy),
        },
{
    if devices.len() == 0 {
        return ListView::Placeholder("No paired Bluetooth audio devices found");
    }
    let flags = exclusive_flags(devices);
    let mut rows: Vec<RowView> = Vec::new();
    let mut i: usize = 0;
    while i < devices.len()
        invariant
            i <= devices@.len(),
            flags@.len() == devices@.len(),
            forall|k: int| 0 <= k < flags@.len() ==> flags@[k] == is_exclusive(devices@, k),
            rows@.len() == i,
            forall|k: int|
                0 <= k < i ==> {
                    let row = #[trigger] rows@[k];
                    &&& row.status_text@ == spec_status_text(devices@[k].status, is_exclusive(devices@, k))
                    &&& row.css_class@ == spec_css_class(devices@[k].status, is_exclusive(devices@, k))
                    &&& row.icon_name@ == spec_icon_name(
                        match devices@[k].icon { Some(s) => Some(s@), None => None },
                    )
                    &&& row.sensitive == (!is_exclusive(devices@, k) && !is_busy)
                },
        decreases devices.len() - i,
    {
        let row = build_device_row(&devices[i], is_busy, flags[i]);
        rows.push(row);
        i = i + 1;
    }
    ListView::Rows(rows)
}

/// The state of the window's controls.
pub struct WindowState {
    /// A switch or release is running.
    pub busy: bool,
    /// The spinner is shown and turning.
    pub spinner_active: bool,
    /// The status line.
    pub status_text: String,
    /// The Refresh and Release All buttons can be clicked.
    pub buttons_sensitive: bool,
    /// The "Bluetooth is turned off" banner is shown.
    pub bt_off_banner_visible: bool,
}

impl WindowState {
    /// The window as it opens: idle, no status, banner hidden.
    pub fn new() -> (r: WindowState)
        ensures
            !r.busy,
            !r.spinner_active,
            r.status_text@ == Seq::<char>::empty(),
            r.buttons_sensitive,
            !r.bt_off_banner_visible,
    {
        WindowState {
            busy: false,
            spinner_active: false,
            status_text: String::new(),
            buttons_sensitive: true,
            bt_off_banner_visible: false,
        }
    }

    /// Handle an event from the backend. Returns the message of the error
    /// dialog to show, if any.
    pub fn handle_event(&mut self, event: &Event) -> (dialog: Option<String>)
        ensures
            match *event {
                Event::SwitchStarted => {
                    &&& final(self).busy && final(self).spinner_active
                    &&& final(self).status_text@ == "Switching..."@
                    &&& !final(self).buttons_sensitive
                    &&& final(self).bt_off_banner_visible == old(self).bt_off_banner_visible
                    &&& dialog is None
                },
                Event::SwitchComplete => {
                    &&& !final(self).busy && !final(self).spinner_active
                    &&& final(self).status_text@ == Seq::<char>::empty()
                    &&& final(self).buttons_sensitive
                    &&& final(self).bt_off_banner_visible == old(self).bt_off_banner_visible
                    &&& dialog is None
                },
                Event::Error(msg) => {
                    &&& !final(self).busy && !final(self).spinner_active
                    &&& final(self).status_text@ == "Error: "@ + msg@
                    &&& final(self).buttons_sensitive
                    &&& final(self).bt_off_banner_visible == old(self).bt_off_banner_visible
                    &&& dialog matches Some(d) && d@ == msg@
                },
                Event::AdapterPowered(powered) => {
                    &&& final(self).bt_off_banner_visible == !powered
                    &&& final(self).busy == old(self).busy
                    &&& final(self).spinner_active == old(self).spinner_active
                    &&& final(self).status_text@ == old(self).status_text@
                    &&& final(self).buttons_sensitive == old(self).buttons_sensitive
                    &&& dialog is None
                },
                _ => {
                    &&& final(self).busy == old(self).busy
                    &&& final(self).spinner_active == old(self).spinner_active
                    &&& final(self).status_text@ == old(self).status_text@
                    &&& final(self).buttons_sensitive == old(self).buttons_sensitive
                    &&& final(self).bt_off_banner_visible == old(self).bt_off_banner_visible
                    &&& dialog is None
                },
            },
    {
        match event {
            Event::SwitchStarted => {
                self.busy = true;
                self.spinner_active = true;
                self.status_text = owned("Switching...");
                self.buttons_sensitive = false;
                None
            },
            Event::SwitchComplete => {
                self.busy = false;
                self.spinner_active = false;
                self.status_text = String::new();
                self.buttons_sensitive = true;
                None
            },
            Event::Error(msg) => {
                self.busy = false;
                self.spinner_active = false;
                let mut t = owned("Error: ");
                t.append(msg.as_str());
                self.status_text = t;
                self.buttons_sensitive = true;
                Some(owned(msg.as_str()))
            },
            Event::AdapterPowered(powered) => {
                self.bt_off_banner_visible = !*powered;
                None
            },
            _ => None,
        }
    }
}

} // verus!
