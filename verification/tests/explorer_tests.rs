use oxidized_explorer::BrowseError;
use oxidized_explorer::EntryKind;
use oxidized_explorer::details::RawDetails;
use oxidized_explorer::details::details_rows;
use oxidized_explorer::details::make_details;
use oxidized_explorer::explorer::Action;
use oxidized_explorer::explorer::Explorer;
use oxidized_explorer::listing::DirectoryEntry;
use oxidized_explorer::listing::RawEntry;
use oxidized_explorer::listing::RawMeta;
use oxidized_explorer::nav::NavigationState;

fn raw(name: &str, dir: &str, is_dir: bool) -> RawEntry {
    RawEntry {
        name: Some(name.to_string()),
        full_path: format!("{}/{}", dir, name),
        meta: Some(RawMeta { is_dir, is_file: !is_dir, is_symlink: false, modified: Some(5) }),
    }
}

fn dir_entry(name: &str, dir: &str) -> DirectoryEntry {
    DirectoryEntry {
        name: name.to_string(),
        full_path: format!("{}/{}", dir, name),
        kind: EntryKind::Directory,
        modified_time: None,
    }
}

#[test]
fn descend_then_back_restores_the_current_directory() {
    let mut nav = NavigationState::new("/start".to_string());
    nav.descend_into(&dir_entry("Sub", "/start"));
    assert_eq!(nav.current_directory, "/start/Sub");
    nav.go_back();
    assert_eq!(nav.current_directory, "/start");
    assert!(nav.history.is_empty());
}

#[test]
fn back_on_empty_history_changes_nothing() {
    let mut nav = NavigationState::new("/start".to_string());
    nav.go_back();
    assert_eq!(nav.current_directory, "/start");
    assert!(nav.history.is_empty());
}

#[test]
fn activating_a_file_asks_to_open_it_and_stays_put() {
    let mut ex = Explorer::new("/start".to_string());
    let file = DirectoryEntry {
        name: "a.txt".to_string(),
        full_path: "/start/a.txt".to_string(),
        kind: EntryKind::File,
        modified_time: None,
    };
    match ex.on_entry_activated(&file) {
        Action::OpenPath(p) => assert_eq!(p, "/start/a.txt"),
        Action::Stay => panic!("a file activation must ask to open the file"),
    }
    assert_eq!(ex.nav.current_directory, "/start");
    assert!(ex.nav.history.is_empty());
}

#[test]
fn a_session_descends_lists_and_returns() {
    let mut ex = Explorer::new("/start".to_string());
    let start_raws = vec![
        raw("a.txt", "/start", false),
        raw("Sub", "/start", true),
        raw("b.txt", "/start", false),
    ];
    let listing = ex.current_listing(true, &start_raws).unwrap();
    let names: Vec<&str> = listing.entries.iter().map(|e| e.name.as_str()).collect();
    assert_eq!(names, ["a.txt", "Sub", "b.txt"]);

    let sub = listing.entries.iter().find(|e| e.name == "Sub").unwrap().duplicate();
    assert_eq!(sub.kind, EntryKind::Directory);
    match ex.on_entry_activated(&sub) {
        Action::Stay => {},
        Action::OpenPath(_) => panic!("a directory activation must not open a file"),
    }
    assert_eq!(ex.nav.current_directory, "/start/Sub");

    let sub_raws = vec![raw("inner.txt", "/start/Sub", false)];
    let sub_listing = ex.current_listing(true, &sub_raws).unwrap();
    let sub_names: Vec<&str> = sub_listing.entries.iter().map(|e| e.name.as_str()).collect();
    assert_eq!(sub_names, ["inner.txt"]);

    ex.on_back_requested();
    assert_eq!(ex.nav.current_directory, "/start");
    let again = ex.current_listing(true, &start_raws).unwrap();
    assert_eq!(again.entries.len(), 3);
}

#[test]
fn listing_a_non_directory_fails_and_leaves_navigation_alone() {
    let mut ex = Explorer::new("/start".to_string());
    ex.nav.descend_into(&dir_entry("Sub", "/start"));
    let raws: Vec<RawEntry> = Vec::new();
    let r = ex.current_listing(false, &raws);
    assert_eq!(r.unwrap_err(), BrowseError::NotADirectory);
    assert_eq!(ex.nav.current_directory, "/start/Sub");
    assert_eq!(ex.nav.history, ["/start"]);
}

#[test]
fn the_filter_query_narrows_the_listing() {
    let mut ex = Explorer::new("/start".to_string());
    ex.on_filter_changed("b".to_string());
    let raws = vec![
        raw("a.txt", "/start", false),
        raw("Sub", "/start", true),
        raw("b.txt", "/start", false),
    ];
    let listing = ex.current_listing(true, &raws).unwrap();
    let names: Vec<&str> = listing.entries.iter().map(|e| e.name.as_str()).collect();
    assert_eq!(names, ["Sub", "b.txt"]);
}

#[test]
fn missing_metadata_makes_details_unavailable() {
    let r = make_details("/start/a.txt".to_string(), None);
    assert_eq!(r.unwrap_err(), BrowseError::DetailsUnavailable);
}

#[test]
fn details_carry_the_metadata_over() {
    let meta = RawDetails {
        size: 42,
        mode: Some(0o644),
        created: None,
        accessed: None,
        modified: Some(1431648000),
        is_dir: false,
        is_file: true,
        is_symlink: false,
    };
    let d = make_details("/start/a.txt".to_string(), Some(meta)).unwrap();
    assert_eq!(d.path, "/start/a.txt");
    assert_eq!(d.size, 42);
    assert_eq!(d.kind, EntryKind::File);

    let rows = details_rows(&d);
    assert_eq!(rows.len(), 6);
    assert_eq!(rows[0], ("Size".to_string(), "42".to_string()));
    assert_eq!(rows[1], ("Permissions".to_string(), "rw-r--r--".to_string()));
    assert_eq!(rows[2], ("Created".to_string(), "Error fetching time".to_string()));
    assert_eq!(rows[3], ("Last Accessed".to_string(), "Error fetching time".to_string()));
    assert_eq!(rows[4].0, "Last Modified");
    assert_ne!(rows[4].1, "Error fetching time");
    assert_eq!(rows[5], ("Type".to_string(), "File".to_string()));
}
