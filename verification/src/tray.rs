//! The tray icon: its menu, its picture and the autostart entry it manages.

use vstd::prelude::*;

use crate::backend::Command;
use crate::state::{join_path, spec_join_path};
use crate::text::owned;

verus! {

/// The tray item's id.
pub const TRAY_ID: &'static str = "btswitch";

/// The tray item's title.
pub const TRAY_TITLE: &'static str = "Exclusive BT Switcher";

/// How often creating the tray item is tried.
pub const TRAY_ATTEMPTS: u32 = 10;

/// One entry of the tray menu.
#[derive(Debug, Clone)]
pub enum MenuEntry {
    /// A plain item that sends a command to the worker.
    Item { label: &'static str, command: Command },
    /// The "Start at Login" check item.
    AutostartToggle { label: &'static str, checked: bool },
    /// A separator line.
    Separator,
}

/// The tray menu: "Unblock All", a separator, "Start at Login" (checked
/// when autostart is on), a separator, "Quit".
pub fn tray_menu(autostart: bool) -> (r: Vec<MenuEntry>)
    ensures
        r@.len() == 5,
        r@[0] matches MenuEntry::Item { label, command } && label@ == "Unblock All"@ && command
            is ReleaseAll,
        r@[1] is Separator,
        r@[2] matches MenuEntry::AutostartToggle { label, checked } && label@ == "Start at Login"@
            && checked == autostart,
        r@[3] is Separator,
        r@[4] matches MenuEntry::Item { label, command } && label@ == "Quit"@ && command is Shutdown,
{
    let mut r: Vec<MenuEntry> = Vec::new();
    r.push(MenuEntry::Item { label: "Unblock All", command: Command::ReleaseAll });
    r.push(MenuEntry::Separator);
    r.push(MenuEntry::AutostartToggle { label: "Start at Login", checked: autostart });
    r.push(MenuEntry::Separator);
    r.push(MenuEntry::Item { label: "Quit", command: Command::Shutdown });
    r
}

/// The command a click on the tray icon sends: show the window.
pub fn activate_command() -> (r: Command)
    ensures
        r is ShowWindow,
{
    Command::ShowWindow
}

/// Whether creating the tray item is tried again after attempt `attempt`
/// (from 1) failed.
pub fn retry_tray(attempt: u32) -> (r: bool)
    ensures
        r == (attempt < TRAY_ATTEMPTS),
{
    attempt < TRAY_ATTEMPTS
}

/// The autostart desktop entry's text up to the program path.
pub open spec fn autostart_head() -> Seq<char> {
    "[Desktop Entry]\nType=Application\nName=Exclusive BT Switcher\nExec="@
}

/// The autostart desktop entry's text after the program path.
pub open spec fn autostart_tail() -> Seq<char> {
    " --minimized\nStartupNotify=false\nTerminal=false\nX-GNOME-Autostart-enabled=true\n"@
}

/// Build autostart desktop entry with the full path to the current binary
pub fn autostart_entry(exe: &str) -> (r: String)
    ensures
        r@ == autostart_head() + exe@ + autostart_tail(),
{
    let mut r = owned("[Desktop Entry]\nType=Application\nName=Exclusive BT Switcher\nExec=");
    r.append(exe);
    r.append(" --minimized\nStartupNotify=false\nTerminal=false\nX-GNOME-Autostart-enabled=true\n");
    r
}

/// Where the autostart entry lives, under the configuration directory.
pub fn autostart_path(config_home: &str) -> (r: String)
    ensures
        r@ == spec_join_path(spec_join_path(config_home@, "autostart"@), "btswitch.desktop"@),
{
    let dir = join_path(config_home, "autostart");
    join_path(dir.as_str(), "btswitch.desktop")
}

/// The image the `png` crate decodes from these bytes with its default
/// settings: width, height and the bytes of the first frame; none when the
/// header or the frame cannot be read.
pub uninterp spec fn png_frame(data: Seq<u8>) -> Option<(u32, u32, Seq<u8>)>;

/// `png::Decoder::read_info` then `Reader::next_frame` into a buffer of
/// `output_buffer_size` bytes, cut to the frame's `buffer_size`. The contract
/// only names the result (`read_info` refuses images whose buffer size would
/// overflow); it says nothing of the allocation of that buffer, which the
/// machine may refuse for a huge image.
#[verifier::external_body]
fn read_png(data: &[u8]) -> (r: Option<(u32, u32, Vec<u8>)>)
    ensures
        match r {
            Some((w, h, px)) => png_frame(data@) == Some((w, h, px@)),
            None => png_frame(data@) is None,
        },
{
    let mut reader = match png::Decoder::new(data).read_info() {
        Ok(reader) => reader,
        Err(_) => return None,
    };
    let mut buf = vec![0u8; reader.output_buffer_size()];
    match reader.next_frame(&mut buf) {
        Ok(info) => {
            buf.truncate(info.buffer_size());
            Some((info.width, info.height, buf))
        },
        Err(_) => None,
    }
}

/// Pixel `k` of `argb` is pixel `k` of `rgba` with alpha moved first.
pub open spec fn argb_pixel(argb: Seq<u8>, rgba: Seq<u8>, k: int) -> bool {
    &&& argb[4 * k] == rgba[4 * k + 3]
    &&& argb[4 * k + 1] == rgba[4 * k]
    &&& argb[4 * k + 2] == rgba[4 * k + 1]
    &&& argb[4 * k + 3] == rgba[4 * k + 2]
}

/// `argb` holds the pixels of `rgba` in the same order, each as alpha, red,
/// green, blue.
pub open spec fn is_argb_of(argb: Seq<u8>, rgba: Seq<u8>) -> bool {
    &&& argb.len() == rgba.len()
    &&& forall|k: int| 0 <= k < rgba.len() / 4 ==> #[trigger] argb_pixel(argb, rgba, k)
}

/// Convert RGBA to ARGB (big-endian u32)
pub fn rgba_to_argb(rgba: &[u8]) -> (r: Vec<u8>)
    requires
        rgba@.len() % 4 == 0,
    ensures
        is_argb_of(r@, rgba@),
{
    let mut out: Vec<u8> = Vec::new();
    let n = rgba.len();
    let mut k: usize = 0;
    while k < n / 4
        invariant
            n == rgba@.len(),
            n % 4 == 0,
            k <= n / 4,
            out@.len() == 4 * k,
            forall|j: int| 0 <= j < k ==> #[trigger] argb_pixel(out@, rgba@, j),
        decreases n / 4 - k,
    {
        let base = 4 * k;
        let (r, g, b, a) = (rgba[base], rgba[base + 1], rgba[base + 2], rgba[base + 3]);
        let ghost prev = out@;
        out.push(a);
        out.push(r);
        out.push(g);
        out.push(b);
        assert forall|j: int| 0 <= j < k + 1 implies #[trigger] argb_pixel(out@, rgba@, j) by {
            if j < k {
                assert(argb_pixel(prev, rgba@, j));
                assert(out@[4 * j] == prev[4 * j]);
                assert(out@[4 * j + 1] == prev[4 * j + 1]);
                assert(out@[4 * j + 2] == prev[4 * j + 2]);
                assert(out@[4 * j + 3] == prev[4 * j + 3]);
            }
        }
        k = k + 1;
    }
    out
}

/// The image decodes, its pixels are whole four-byte groups, and its width
/// times its height times four, computed on the `i32` values of the two, is
/// a byte count that `i32` holds.
pub open spec fn decodes_cleanly(data: Seq<u8>) -> bool {
    png_frame(data) matches Some((w, h, px)) && px.len() % 4 == 0 && 0 <= (w as i32) * (h as i32) * 4
        <= i32::MAX
}

/// Decode PNG bytes into ARGB pixel data (big-endian, as ksni expects):
/// width, height and the pixels with alpha first.
pub fn decode_png_to_argb(png_data: &[u8]) -> (r: (i32, i32, Vec<u8>))
    requires
        decodes_cleanly(png_data@),
    ensures
        png_frame(png_data@) matches Some((w, h, px)) && r.0 == w as i32 && r.1 == h as i32
            && is_argb_of(r.2@, px),
{
    match read_png(png_data) {
        Some((w, h, px)) => {
            let width: i32 = w as i32;
            let height: i32 = h as i32;
            let argb = rgba_to_argb(px.as_slice());
            (width, height, argb)
        },
        None => (0, 0, Vec::new()),
    }
}

/// Decodes the icon when it decodes cleanly (see `decode_png_to_argb`);
/// none otherwise.
pub fn try_decode_png_to_argb(png_data: &[u8]) -> (r: Option<(i32, i32, Vec<u8>)>)
    ensures
        match r {
            Some((rw, rh, argb)) => decodes_cleanly(png_data@) && (png_frame(png_data@) matches Some(
                (w, h, px),
            ) && rw == w as i32 && rh == h as i32 && is_argb_of(argb@, px)),
            None => !decodes_cleanly(png_data@),
        },
{
    match read_png(png_data) {
        Some((w, h, px)) => {
            let wi = w as i32;
            let hi = h as i32;
            let (a, b) = (wi as i128, hi as i128);
            assert(-0x1_0000_0000_0000_0000 <= a * b * 4 <= 0x1_0000_0000_0000_0000) by (nonlinear_arith)
                requires
                    -0x8000_0000 <= a <= 0x7fff_ffff,
                    -0x8000_0000 <= b <= 0x7fff_ffff,
            ;
            let bytes: i128 = a * b * 4;
            if px.len() % 4 == 0 && 0 <= bytes && bytes <= 0x7fff_ffff {
                Some(decode_png_to_argb(png_data))
            } else {
                None
            }
        },
        None => None,
    }
}

} // verus!
