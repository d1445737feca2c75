use oxidized_explorer::EntryKind;
use oxidized_explorer::listing::DirectoryEntry;

fn entry(name: &str, kind: EntryKind) -> DirectoryEntry {
    DirectoryEntry {
        name: name.to_string(),
        full_path: format!("/{}", name),
        kind,
        modified_time: None,
    }
}

#[test]
fn empty_query_matches_any_entry() {
    for name in ["Photos", "", "a.txt", "Sub"] {
        let e = entry(name, EntryKind::File);
        assert!(oxidized_explorer::filter::matches(&e, ""));
    }
}

#[test]
fn substring_is_found_case_sensitively() {
    let e = entry("Photos", EntryKind::Directory);
    assert!(oxidized_explorer::filter::matches(&e, "hot"));
    assert!(!oxidized_explorer::filter::matches(&e, "HOT"));
}

#[test]
fn whole_name_prefix_and_suffix_match() {
    let e = entry("notes.txt", EntryKind::File);
    assert!(oxidized_explorer::filter::matches(&e, "notes.txt"));
    assert!(oxidized_explorer::filter::matches(&e, "notes"));
    assert!(oxidized_explorer::filter::matches(&e, ".txt"));
    assert!(!oxidized_explorer::filter::matches(&e, "notes.txt0"));
    assert!(!oxidized_explorer::filter::matches(&e, "txt."));
}

#[test]
fn query_longer_than_name_never_matches() {
    let e = entry("ab", EntryKind::File);
    assert!(!oxidized_explorer::filter::matches(&e, "abc"));
}

#[test]
fn repeated_prefix_needs_full_occurrence() {
    let e = entry("aaab", EntryKind::File);
    assert!(oxidized_explorer::filter::matches(&e, "aab"));
    assert!(!oxidized_explorer::filter::matches(&e, "abb"));
}

#[test]
fn unicode_names_are_searched_by_character() {
    let e = entry("Straße", EntryKind::File);
    assert!(oxidized_explorer::filter::matches(&e, "aße"));
    assert!(!oxidized_explorer::filter::matches(&e, "asse"));
}
