use explorer_rs::duration::Duration;
use explorer_rs::entry::{ChildRecord, DirectoryEntry, EntryKind, FileFacts, Timestamp};
use explorer_rs::explorer::ExplorerApp;
use explorer_rs::order::{arrange, at_or_before, Keyed};
use explorer_rs::snapshot::build_snapshot;
use std::path::PathBuf;

fn facts(is_file: bool, is_dir: bool) -> FileFacts {
    FileFacts {
        is_file,
        is_dir,
        len: 0,
        readonly: false,
        modified: Timestamp::Unavailable,
        accessed: Timestamp::Unavailable,
        created: Timestamp::Unavailable,
    }
}

fn child(dir: &str, name: &str, facts: Option<FileFacts>) -> ChildRecord {
    ChildRecord { name: Some(name.to_string()), path: PathBuf::from(dir).join(name), facts }
}

fn file_in(dir: &str, name: &str) -> ChildRecord {
    child(dir, name, Some(facts(true, false)))
}

fn folder_in(dir: &str, name: &str) -> ChildRecord {
    child(dir, name, Some(facts(false, true)))
}

fn names(listing: &Vec<DirectoryEntry>) -> Vec<String> {
    let mut out = Vec::new();
    for entry in listing {
        out.push(entry.name.clone());
    }
    out
}

fn texts(words: &[&str]) -> Vec<String> {
    let mut out = Vec::new();
    for word in words {
        out.push(word.to_string());
    }
    out
}

#[test]
fn folder_first_then_names_without_case_ties_in_reading_order() {
    let children = vec![
        file_in("/tmp/x", "A.txt"),
        folder_in("/tmp/x", "B"),
        file_in("/tmp/x", "a.txt"),
    ];
    let listing = build_snapshot(&children);
    assert_eq!(names(&listing), texts(&["B", "A.txt", "a.txt"]));
    assert_eq!(listing[0].kind, EntryKind::Folder);
    assert_eq!(listing[1].kind, EntryKind::File);
    assert_eq!(listing[1].path, PathBuf::from("/tmp/x/A.txt"));
}

#[test]
fn tie_keeps_the_child_read_first_in_front() {
    let children = vec![
        file_in("/tmp/x", "a.txt"),
        folder_in("/tmp/x", "B"),
        file_in("/tmp/x", "A.txt"),
    ];
    let listing = build_snapshot(&children);
    assert_eq!(names(&listing), texts(&["B", "a.txt", "A.txt"]));
}

#[test]
fn tiers_are_each_sorted_without_regard_to_case() {
    let children = vec![
        file_in("/d", "zeta"),
        folder_in("/d", "src"),
        file_in("/d", "Alpha"),
        folder_in("/d", "Docs"),
        file_in("/d", "beta"),
        folder_in("/d", "assets"),
        file_in("/d", "Zed"),
    ];
    let listing = build_snapshot(&children);
    assert_eq!(
        names(&listing),
        texts(&["assets", "Docs", "src", "Alpha", "beta", "Zed", "zeta"])
    );
    let mut seen_other = false;
    for entry in &listing {
        if entry.kind == EntryKind::Folder {
            assert!(!seen_other);
        } else {
            seen_other = true;
        }
    }
}

#[test]
fn same_children_give_the_same_listing_twice() {
    let children = vec![
        file_in("/d", "b.rs"),
        file_in("/d", "B.rs"),
        folder_in("/d", "x"),
        file_in("/d", "a.rs"),
    ];
    let first = build_snapshot(&children);
    let second = build_snapshot(&children);
    assert_eq!(first, second);
    assert_eq!(names(&first), texts(&["x", "a.rs", "b.rs", "B.rs"]));
}

#[test]
fn child_without_metadata_is_passed_over() {
    let children = vec![
        file_in("/d", "kept"),
        child("/d", "lost", None),
        folder_in("/d", "also kept"),
    ];
    let listing = build_snapshot(&children);
    assert_eq!(names(&listing), texts(&["also kept", "kept"]));
}

#[test]
fn empty_directory_gives_empty_listing() {
    let listing = build_snapshot(&Vec::new());
    assert!(listing.is_empty());
}

#[test]
fn name_that_does_not_decode_is_empty_and_sorts_first() {
    let children = vec![
        file_in("/d", "a"),
        ChildRecord { name: None, path: PathBuf::from("/d/odd.bin"), facts: Some(facts(true, false)) },
    ];
    let listing = build_snapshot(&children);
    assert_eq!(names(&listing), texts(&["", "a"]));
    assert_eq!(listing[0].extension, "bin");
    assert_eq!(listing[0].path, PathBuf::from("/d/odd.bin"));
}

#[test]
fn entry_carries_what_was_read() {
    let read = FileFacts {
        is_file: true,
        is_dir: false,
        len: 1234,
        readonly: true,
        modified: Timestamp::Elapsed(5_000_000_007),
        accessed: Timestamp::Ahead,
        created: Timestamp::Unavailable,
    };
    let listing = build_snapshot(&vec![child("/d", "Notes.TXT", Some(read))]);
    assert_eq!(listing.len(), 1);
    let entry = &listing[0];
    assert_eq!(entry.kind, EntryKind::File);
    assert_eq!(entry.name, "Notes.TXT");
    assert_eq!(entry.path, PathBuf::from("/d/Notes.TXT"));
    assert_eq!(entry.extension, "TXT");
    assert_eq!(entry.size_bytes, 1234);
    assert_eq!(entry.permissions_summary, "r");
    assert_eq!(entry.modified_age, Duration::from_parts(5, 7));
    assert!(entry.modified_age.is_some());
    assert_eq!(entry.accessed_age, None);
    assert_eq!(entry.created_age, None);
}

#[test]
fn writable_entry_without_extension() {
    let listing = build_snapshot(&vec![file_in("/d", "Makefile")]);
    assert_eq!(listing[0].extension, "");
    assert_eq!(listing[0].permissions_summary, "rw");
}

#[test]
fn kinds_follow_the_metadata() {
    let children = vec![
        child("/d", "link", Some(facts(false, false))),
        child("/d", "dir", Some(facts(false, true))),
        child("/d", "file", Some(facts(true, false))),
        child("/d", "both", Some(facts(true, true))),
    ];
    let listing = build_snapshot(&children);
    assert_eq!(names(&listing), texts(&["both", "dir", "file", "link"]));
    assert_eq!(listing[0].kind, EntryKind::Folder);
    assert_eq!(listing[1].kind, EntryKind::Folder);
    assert_eq!(listing[2].kind, EntryKind::File);
    assert_eq!(listing[3].kind, EntryKind::Other);
}

#[test]
fn age_is_absent_where_the_seconds_do_not_fit() {
    let limit: u128 = (i64::MAX as u128 + 1) * 1_000_000_000;
    let mut read = facts(true, false);
    read.modified = Timestamp::Elapsed(limit);
    read.accessed = Timestamp::Elapsed(limit - 1);
    read.created = Timestamp::Elapsed(u128::MAX);
    let listing = build_snapshot(&vec![child("/d", "old", Some(read))]);
    assert_eq!(listing[0].modified_age, None);
    assert_eq!(listing[0].accessed_age, Duration::from_parts(i64::MAX, 999_999_999));
    assert!(listing[0].accessed_age.is_some());
    assert_eq!(listing[0].created_age, None);
}

#[test]
fn lower_case_is_that_of_unicode() {
    let children = vec![
        file_in("/d", "\u{c9}cole"),
        file_in("/d", "\u{e9}bauche"),
        file_in("/d", "zebra"),
    ];
    let listing = build_snapshot(&children);
    assert_eq!(names(&listing), texts(&["zebra", "\u{e9}bauche", "\u{c9}cole"]));
}

#[test]
fn renamed_child_is_listed_under_its_new_name_in_place() {
    let before = vec![file_in("/d", "a"), file_in("/d", "m"), file_in("/d", "z")];
    assert_eq!(names(&build_snapshot(&before)), texts(&["a", "m", "z"]));
    let after = vec![file_in("/d", "a"), file_in("/d", "Zz"), file_in("/d", "z")];
    let listing = build_snapshot(&after);
    assert_eq!(names(&listing), texts(&["a", "z", "Zz"]));
    assert!(!names(&listing).contains(&"m".to_string()));
}

#[test]
fn removed_folder_is_no_longer_listed() {
    let before = vec![folder_in("/d", "gone"), folder_in("/d", "kept"), file_in("/d", "f")];
    assert_eq!(names(&build_snapshot(&before)), texts(&["gone", "kept", "f"]));
    let after = vec![folder_in("/d", "kept"), file_in("/d", "f")];
    assert_eq!(names(&build_snapshot(&after)), texts(&["kept", "f"]));
}

fn keyed(kind: EntryKind, key: &str, name: &str) -> Keyed {
    Keyed {
        key: key.to_string(),
        entry: DirectoryEntry {
            kind,
            name: name.to_string(),
            path: PathBuf::from(name),
            extension: String::new(),
            size_bytes: 0,
            permissions_summary: "rw".to_string(),
            modified_age: None,
            accessed_age: None,
            created_age: None,
        },
    }
}

#[test]
fn arrange_goes_by_the_keys_it_is_given() {
    let items = vec![
        keyed(EntryKind::File, "b", "first"),
        keyed(EntryKind::Other, "a", "second"),
        keyed(EntryKind::Folder, "z", "third"),
        keyed(EntryKind::File, "a", "fourth"),
        keyed(EntryKind::Folder, "y", "fifth"),
        keyed(EntryKind::File, "ab", "sixth"),
    ];
    let listing = arrange(items);
    assert_eq!(
        names(&listing),
        texts(&["fifth", "third", "second", "fourth", "sixth", "first"])
    );
}

#[test]
fn keys_compare_by_code_point_and_prefix() {
    let file = |key: &str| keyed(EntryKind::File, key, "n");
    assert!(at_or_before(&file("a"), &file("a")));
    assert!(at_or_before(&file("a"), &file("ab")));
    assert!(!at_or_before(&file("ab"), &file("a")));
    assert!(at_or_before(&file("Z"), &file("a")));
    assert!(!at_or_before(&file("a"), &file("Z")));
    assert!(at_or_before(&file(""), &file("a")));
    assert!(at_or_before(&file("z"), &file("\u{e9}")));
    assert!(at_or_before(&keyed(EntryKind::Folder, "z", "n"), &file("a")));
    assert!(!at_or_before(&file("a"), &keyed(EntryKind::Folder, "z", "n")));
}

#[test]
fn listing_is_replaced_whole_on_each_update() {
    let mut app = ExplorerApp::new(PathBuf::from("/d"));
    app.update_dir_entries(Some(vec![file_in("/d", "one"), file_in("/d", "two")]));
    assert_eq!(names(&app.current_dir_items), texts(&["one", "two"]));
    assert!(!app.listing_failed);
    app.update_dir_entries(Some(vec![folder_in("/d", "three")]));
    assert_eq!(names(&app.current_dir_items), texts(&["three"]));
}

#[test]
fn unreadable_directory_gives_empty_listing_and_says_so() {
    let mut app = ExplorerApp::new(PathBuf::from("/d"));
    app.update_dir_entries(Some(vec![file_in("/d", "one")]));
    app.update_dir_entries(None);
    assert!(app.current_dir_items.is_empty());
    assert!(app.listing_failed);
    app.update_dir_entries(Some(Vec::new()));
    assert!(app.current_dir_items.is_empty());
    assert!(!app.listing_failed);
}

#[test]
fn refresh_drops_the_selection_and_keeps_the_histories() {
    let mut app = ExplorerApp::new(PathBuf::from("/d"));
    let _ = app.change_dir(PathBuf::from("/d/e"));
    app.update_dir_entries(Some(vec![file_in("/d/e", "one")]));
    app.select_entry(0);
    let navigation = app.navigation.clone();
    app.refresh_dir(Some(vec![file_in("/d/e", "one"), file_in("/d/e", "two")]));
    assert_eq!(app.selected_entry, None);
    assert_eq!(app.navigation, navigation);
    assert_eq!(names(&app.current_dir_items), texts(&["one", "two"]));
}
