use btswitch::blocklist::Blocklist;

fn sorted(mut v: Vec<String>) -> Vec<String> {
    v.sort();
    v
}

#[test]
fn blocklist_insert_contains_remove() {
    let mut b = Blocklist::new();
    assert!(b.is_empty());
    b.insert("AA:BB");
    b.insert("CC:DD");
    b.insert("AA:BB");
    assert_eq!(b.len(), 2);
    assert!(b.contains("AA:BB"));
    assert!(b.contains("CC:DD"));
    assert!(!b.contains("aa:bb"));
    b.remove("AA:BB");
    assert!(!b.contains("AA:BB"));
    assert_eq!(b.len(), 1);
    b.remove("EE:FF");
    assert_eq!(b.len(), 1);
    b.clear();
    assert!(b.is_empty());
    assert_eq!(b.len(), 0);
}

#[test]
fn blocklist_addresses_once_each() {
    let list = vec!["X".to_string(), "Y".to_string(), "X".to_string(), "Z".to_string()];
    let b = Blocklist::from_addresses(&list);
    assert_eq!(b.len(), 3);
    assert_eq!(sorted(b.addresses()), vec!["X".to_string(), "Y".to_string(), "Z".to_string()]);
}

#[test]
fn blocklist_remove_then_insert_restores() {
    let mut b = Blocklist::from_addresses(&vec!["A".to_string(), "B".to_string()]);
    b.remove("A");
    b.insert("A");
    assert_eq!(sorted(b.addresses()), vec!["A".to_string(), "B".to_string()]);
}
