use btswitch::backend::Command;
use btswitch::tray::{
    activate_command, autostart_entry, autostart_path, decode_png_to_argb, retry_tray, rgba_to_argb,
    tray_menu, try_decode_png_to_argb, MenuEntry, TRAY_ID, TRAY_TITLE,
};

fn png_bytes(width: u32, height: u32, color: png::ColorType, data: &[u8]) -> Vec<u8> {
    let mut out = Vec::new();
    {
        let mut enc = png::Encoder::new(&mut out, width, height);
        enc.set_color(color);
        enc.set_depth(png::BitDepth::Eight);
        let mut writer = enc.write_header().unwrap();
        writer.write_image_data(data).unwrap();
    }
    out
}

#[test]
fn menu_entries() {
    let m = tray_menu(true);
    assert_eq!(m.len(), 5);
    assert!(matches!(&m[0], MenuEntry::Item { label: "Unblock All", command: Command::ReleaseAll }));
    assert!(matches!(&m[1], MenuEntry::Separator));
    assert!(matches!(&m[2], MenuEntry::AutostartToggle { label: "Start at Login", checked: true }));
    assert!(matches!(&m[4], MenuEntry::Item { label: "Quit", command: Command::Shutdown }));
    assert!(matches!(&tray_menu(false)[2], MenuEntry::AutostartToggle { checked: false, .. }));
    assert!(matches!(activate_command(), Command::ShowWindow));
    assert_eq!(TRAY_ID, "btswitch");
    assert_eq!(TRAY_TITLE, "Exclusive BT Switcher");
    assert!(retry_tray(9));
    assert!(!retry_tray(10));
}

#[test]
fn autostart_file() {
    assert_eq!(
        autostart_entry("/usr/bin/btswitch"),
        "[Desktop Entry]\nType=Application\nName=Exclusive BT Switcher\nExec=/usr/bin/btswitch --minimized\nStartupNotify=false\nTerminal=false\nX-GNOME-Autostart-enabled=true\n"
    );
    assert_eq!(autostart_path("/home/u/.config"), "/home/u/.config/autostart/btswitch.desktop");
}

#[test]
fn rgba_conversion() {
    assert_eq!(rgba_to_argb(&[1, 2, 3, 4, 5, 6, 7, 8]), vec![4, 1, 2, 3, 8, 5, 6, 7]);
    assert_eq!(rgba_to_argb(&[]), Vec::<u8>::new());
}

#[test]
fn png_decoding() {
    let data = png_bytes(2, 1, png::ColorType::Rgba, &[10, 20, 30, 255, 1, 2, 3, 128]);
    assert_eq!(decode_png_to_argb(&data), (2, 1, vec![255, 10, 20, 30, 128, 1, 2, 3]));
    assert_eq!(try_decode_png_to_argb(&data), Some((2, 1, vec![255, 10, 20, 30, 128, 1, 2, 3])));
}

#[test]
fn png_that_does_not_decode_cleanly() {
    assert_eq!(try_decode_png_to_argb(b"not a png"), None);
    let rgb = png_bytes(1, 1, png::ColorType::Rgb, &[1, 2, 3]);
    assert_eq!(try_decode_png_to_argb(&rgb), None);
}
