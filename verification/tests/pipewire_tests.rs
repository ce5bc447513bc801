use btswitch::pipewire::{
    decimal_text, list_sink_inputs_args, move_sink_input_args, set_default_sink_args,
    sink_timeout_message, check_tools, find_sink_by_mac, normalize_mac, separators_to_colons, sink_input_ids, tool_names, white_space, PwNode,
    PwNodeInfo, PwNodeProps,
};

fn node(id: u32, class: Option<&str>, address: Option<&str>, name: Option<&str>) -> PwNode {
    PwNode {
        id,
        info: Some(PwNodeInfo {
            props: Some(PwNodeProps {
                media_class: class.map(|s| s.to_string()),
                bluez_address: address.map(|s| s.to_string()),
                node_name: name.map(|s| s.to_string()),
                node_nick: None,
            }),
        }),
    }
}

#[test]
fn mac_normalization() {
    assert_eq!(normalize_mac("aa-bb_cc:dd"), "AA:BB:CC:DD");
    assert_eq!(normalize_mac("AA:BB:CC:DD:EE:FF"), "AA:BB:CC:DD:EE:FF");
    assert_eq!(normalize_mac(""), "");
    assert_eq!(normalize_mac("ß"), "SS");
}

#[test]
fn sink_lookup() {
    let nodes = vec![
        PwNode { id: 1, info: None },
        PwNode { id: 2, info: Some(PwNodeInfo { props: None }) },
        node(3, Some("Audio/Source"), Some("AA:BB"), Some("src")),
        node(4, Some("Audio/Sink"), Some("11:22"), Some("other")),
        node(5, Some("Audio/Sink"), Some("aa_bb"), Some("bluez_output.AA_BB.1")),
        node(6, Some("Audio/Sink"), Some("AA:BB"), Some("second")),
    ];
    assert_eq!(find_sink_by_mac(&nodes, "AA:BB"), Some((5, "bluez_output.AA_BB.1".to_string())));
    assert_eq!(find_sink_by_mac(&nodes, "aa-bb"), Some((5, "bluez_output.AA_BB.1".to_string())));
    assert_eq!(find_sink_by_mac(&nodes, "33:44"), None);
    let unnamed = vec![node(7, Some("Audio/Sink"), Some("AA:BB"), None)];
    assert_eq!(find_sink_by_mac(&unnamed, "AA:BB"), Some((7, String::new())));
}

#[test]
fn sink_input_listing() {
    let out = "42\t55\tmodule-x\tPipeWire\tfloat32le 2ch 48000Hz\n\n  \n 43 57 y\r\n44";
    assert_eq!(sink_input_ids(out), vec!["42".to_string(), "43".to_string(), "44".to_string()]);
    assert_eq!(sink_input_ids(""), Vec::<String>::new());
    assert_eq!(sink_input_ids("\n\n"), Vec::<String>::new());
    assert_eq!(sink_input_ids("7\n"), vec!["7".to_string()]);
    assert_eq!(sink_input_ids("\u{3000}8\u{a0}x"), vec!["8".to_string()]);
}

#[test]
fn sink_input_listing_matches_std_split() {
    let samples = ["1 a\n2 b\n", "x\r\ny\r\n", "  a  b \n\t\n c", "\u{2003}id\u{2028}more\nz"];
    for s in samples {
        let expected: Vec<String> = s
            .split('\n')
            .filter_map(|l| l.split_whitespace().next())
            .map(|w| w.to_string())
            .collect();
        let from_lines: Vec<String> =
            s.lines().filter_map(|l| l.split_whitespace().next()).map(|w| w.to_string()).collect();
        assert_eq!(sink_input_ids(s), expected);
        assert_eq!(sink_input_ids(s), from_lines);
    }
}

#[test]
fn white_space_matches_std() {
    for c in (0u32..=0x10FFFF).filter_map(char::from_u32) {
        assert_eq!(white_space(c), c.is_whitespace(), "{:?}", c);
    }
}

#[test]
fn tool_check() {
    assert_eq!(tool_names(), vec!["pw-dump".to_string(), "wpctl".to_string(), "pactl".to_string()]);
    assert_eq!(check_tools(&vec![true, true, true]), Vec::<String>::new());
    assert_eq!(check_tools(&vec![false, true, false]), vec!["pw-dump".to_string(), "pactl".to_string()]);
    assert_eq!(check_tools(&vec![true, false, true]), vec!["wpctl".to_string()]);
}

#[test]
fn decimal_ids() {
    for n in [0u32, 7, 9, 10, 42, 100, 1234567, u32::MAX] {
        assert_eq!(decimal_text(n), n.to_string());
    }
}

#[test]
fn tool_arguments() {
    assert_eq!(set_default_sink_args(57), vec!["set-default".to_string(), "57".to_string()]);
    assert_eq!(list_sink_inputs_args(), vec!["list", "short", "sink-inputs"]);
    assert_eq!(move_sink_input_args("12", "bluez_output.X"), vec!["move-sink-input", "12", "bluez_output.X"]);
    assert_eq!(
        sink_timeout_message("AA:BB"),
        "Timeout: PipeWire sink for AA:BB did not appear within 10s"
    );
}

#[test]
fn separators_become_colons() {
    assert_eq!(separators_to_colons("aa-bb_CC:dd"), "aa:bb:CC:dd");
    assert_eq!(separators_to_colons(""), "");
    assert_eq!(normalize_mac("aa-bb_cc:dd"), "AA:BB:CC:DD");
}
