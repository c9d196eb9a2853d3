use coriolis::file_browser::{FileBrowserState, FileEntry, Selection};

fn entry(name: &str, is_dir: bool) -> FileEntry {
    FileEntry { path: format!("/data/{}", name), name: name.to_string(), is_dir, is_symlink: false }
}

fn names(state: &FileBrowserState) -> Vec<&str> {
    state.entries.iter().map(|e| e.name.as_str()).collect()
}

fn listing() -> Vec<FileEntry> {
    vec![
        entry("zeta.nc", false),
        entry("Alpha.nc", false),
        entry(".cache", true),
        entry("runs", true),
        entry("beta.nc", false),
        entry("Archive", true),
        entry(".hidden.nc", false),
    ]
}

fn parent() -> FileEntry {
    FileEntry { path: "/".to_string(), name: "..".to_string(), is_dir: true, is_symlink: false }
}

#[test]
fn entries_are_shown_in_display_order() {
    let mut b = FileBrowserState::new("/data".to_string());
    assert!(b.current_entry().is_none());
    b.cursor = 3;
    b.scroll = 2;
    b.load_entries(Some(parent()), listing());
    assert_eq!(names(&b), vec!["..", "Archive", "runs", "Alpha.nc", "beta.nc", "zeta.nc"]);
    assert_eq!((b.cursor, b.scroll), (0, 0));
    b.toggle_hidden();
    b.load_entries(None, listing());
    assert_eq!(names(&b), vec![".cache", "Archive", "runs", ".hidden.nc", "Alpha.nc", "beta.nc", "zeta.nc"]);
}

#[test]
fn names_that_differ_in_case_only_keep_their_order() {
    let mut b = FileBrowserState::new("/data".to_string());
    b.load_entries(None, vec![entry("b", false), entry("A", false), entry("a", false), entry("B", false)]);
    assert_eq!(names(&b), vec!["A", "a", "b", "B"]);
}

#[test]
fn the_cursor_stays_on_the_entries() {
    let mut b = FileBrowserState::new("/data".to_string());
    b.load_entries(Some(parent()), listing());
    b.cursor_up();
    assert_eq!(b.cursor, 0);
    for _ in 0..9 {
        b.cursor_down();
    }
    assert_eq!(b.cursor, 5);
    assert_eq!(b.current_entry().unwrap().name, "zeta.nc");
    b.adjust_scroll(2);
    assert_eq!(b.scroll, 4);
    b.cursor_up();
    b.cursor_up();
    b.adjust_scroll(2);
    assert_eq!(b.scroll, 3);
}

#[test]
fn selecting_enters_directories_and_hands_back_files() {
    let mut b = FileBrowserState::new("/data".to_string());
    assert!(matches!(b.select_current(), Selection::Nothing));
    b.load_entries(Some(parent()), listing());
    b.cursor_down();
    b.cursor_down();
    assert!(matches!(b.select_current(), Selection::Entered));
    assert_eq!(b.current_dir, "/data/runs");
    assert!(b.entries.is_empty());
    b.load_entries(Some(parent()), vec![entry("one.nc", false)]);
    b.cursor_down();
    match b.select_current() {
        Selection::File(path) => assert_eq!(path, "/data/one.nc"),
        other => panic!("expected a file, got {:?}", other),
    }
    assert_eq!(b.current_dir, "/data/runs");
    assert!(!b.go_to_parent(None));
    assert!(b.go_to_parent(Some("/data".to_string())));
    assert_eq!(b.current_dir, "/data");
    assert_eq!((b.cursor, b.scroll, b.entries.len()), (0, 0, 0));
}
