use netproxy::selection::{get_selected_node, select_node, SelectionStore};

#[test]
fn selection_survives_restart() {
    let mut store = SelectionStore::new();
    let written = select_node(&mut store, "nodeX");
    assert_eq!(written, "nodeX");
    let mut fresh = SelectionStore::new();
    assert!(fresh.needs_file());
    assert_eq!(get_selected_node(&mut fresh, Some(written.as_str())), Some("nodeX".to_string()));
    assert!(!fresh.needs_file());
    assert_eq!(get_selected_node(&mut fresh, None), Some("nodeX".to_string()));
}

#[test]
fn file_text_is_trimmed() {
    let mut store = SelectionStore::new();
    assert_eq!(
        get_selected_node(&mut store, Some("  sub_a/node1.json\r\n")),
        Some("sub_a/node1.json".to_string())
    );
}

#[test]
fn blank_or_missing_file_means_none() {
    let mut store = SelectionStore::new();
    assert_eq!(get_selected_node(&mut store, Some(" \n\t ")), None);
    assert!(store.needs_file());
    assert_eq!(get_selected_node(&mut store, Some("")), None);
    assert_eq!(get_selected_node(&mut store, None), None);
}

#[test]
fn memory_wins_over_file() {
    let mut store = SelectionStore::new();
    select_node(&mut store, "a.json");
    assert_eq!(get_selected_node(&mut store, Some("b.json")), Some("a.json".to_string()));
}
