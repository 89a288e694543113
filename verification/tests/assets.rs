use nooboard_gui::assets::{
    find_asset, find_local_asset, list_assets, list_local_assets, local_asset_paths, sorted_unique_names, str_less,
};

fn table() -> Vec<String> {
    [
        "system_core/arc_port_signal.svg",
        "system_core/arc_port_socket.svg",
        "system_core/arc_port_track.svg",
        "system_core/power.svg",
        "system_core/radar_scan_line.svg",
        "icons/deep/nested.svg",
        "readme.txt",
    ]
    .iter()
    .map(|s| s.to_string())
    .collect()
}

#[test]
fn root_listing_names_top_folders_once() {
    assert_eq!(list_assets(&table(), ""), vec!["icons".to_string(), "system_core".to_string()]);
}

#[test]
fn folder_listing_names_direct_children_sorted() {
    assert_eq!(
        list_assets(&table(), "system_core"),
        vec![
            "system_core/arc_port_signal.svg",
            "system_core/arc_port_socket.svg",
            "system_core/arc_port_track.svg",
            "system_core/power.svg",
            "system_core/radar_scan_line.svg",
        ]
    );
    assert!(list_assets(&table(), "icons").is_empty());
    assert_eq!(list_assets(&table(), "icons/deep"), vec!["icons/deep/nested.svg"]);
    assert!(list_assets(&table(), "system").is_empty());
}

#[test]
fn lookup_finds_exact_path() {
    assert_eq!(find_asset(&table(), "system_core/radar_scan_line.svg"), Some(4));
    assert_eq!(find_asset(&table(), "system_core/does-not-exist.svg"), None);
    assert_eq!(find_asset(&table(), ""), None);
}

#[test]
fn names_are_sorted_and_deduplicated() {
    let names = vec!["b".to_string(), "a".to_string(), "b".to_string(), "ab".to_string(), "é".to_string(), "z".to_string()];
    assert_eq!(sorted_unique_names(names), vec!["a", "ab", "b", "z", "é"]);
    assert!(sorted_unique_names(vec![]).is_empty());
}

#[test]
fn string_order_is_lexicographic() {
    assert!(str_less("a", "b"));
    assert!(str_less("a", "ab"));
    assert!(!str_less("ab", "a"));
    assert!(!str_less("same", "same"));
    assert!(str_less("", "x"));
    assert!(str_less("Z", "a"));
}

#[test]
fn bundled_icons_are_listed_and_found() {
    assert_eq!(local_asset_paths().len(), 5);
    assert_eq!(list_local_assets(""), vec!["system_core".to_string()]);
    assert_eq!(
        list_local_assets("system_core"),
        vec![
            "system_core/arc_port_signal.svg".to_string(),
            "system_core/arc_port_socket.svg".to_string(),
            "system_core/arc_port_track.svg".to_string(),
            "system_core/power.svg".to_string(),
            "system_core/radar_scan_line.svg".to_string(),
        ]
    );
    assert!(list_local_assets("icons").is_empty());
    assert_eq!(find_local_asset("system_core/power.svg"), Some(3));
    assert_eq!(find_local_asset("system_core/missing.svg"), None);
    assert_eq!(find_local_asset(""), None);
}
