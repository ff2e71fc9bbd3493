use servercore::state::{discover_state_files, state_list_text};

#[test]
fn state_files_lie_in_the_server_root() {
    let catalog = discover_state_files("/srv/paper");
    assert_eq!(catalog.server_root, "/srv/paper");
    assert_eq!(catalog.whitelist_path, "/srv/paper/whitelist.json");
    assert_eq!(catalog.banned_players_path, "/srv/paper/banned-players.json");
    assert_eq!(catalog.ops_path, "/srv/paper/ops.json");
    assert!(discover_state_files("/srv/paper/").ops_path.ends_with("ops.json"));
    assert_eq!(discover_state_files("/srv/paper/").ops_path, "/srv/paper/ops.json");
}

#[test]
fn blank_or_empty_state_lists_hold_no_entries() {
    assert_eq!(state_list_text("\n  \n"), None);
    assert_eq!(state_list_text("  []  "), None);
    assert_eq!(state_list_text(" [{\"uuid\":\"u\"}] \n").as_deref(), Some("[{\"uuid\":\"u\"}]"));
}
