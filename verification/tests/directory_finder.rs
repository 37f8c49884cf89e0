use zed_fork_logic::directory_finder::{
    backspace_query, directory_entries, directory_with_separator, go_to_parent_target, parent_dir,
    start_query, strip_prefix, DirectoryFinderDelegate, Entry, ListedItem, OpenFile, PathStyle, Row,
    Selection,
};
use zed_fork_logic::picker::Match;

#[test]
fn parent_dir_of_relative_directories() {
    assert_eq!(parent_dir("apps/web/").as_deref(), Some("apps/"));
    assert_eq!(parent_dir("apps/").as_deref(), Some(""));
    assert_eq!(parent_dir(""), None);
    assert_eq!(parent_dir("apps//").as_deref(), Some(""));
    assert_eq!(parent_dir("a\\b\\").as_deref(), Some("a\\"));
    assert_eq!(parent_dir("/").as_deref(), Some(""));
    assert_eq!(parent_dir("a/b").as_deref(), Some("a/"));
}

#[test]
fn walking_up_reaches_the_root() {
    let mut path = "one/two/three/".to_string();
    let mut steps = 0;
    while let Some(parent) = parent_dir(&path) {
        assert!(parent.len() < path.len());
        path = parent;
        steps += 1;
    }
    assert_eq!(path, "");
    assert_eq!(steps, 3);
}

#[test]
fn go_to_parent_and_backspace() {
    assert_eq!(go_to_parent_target("apps/web/", "").as_deref(), Some("apps/"));
    assert_eq!(go_to_parent_target("apps/web/", "ind").as_deref(), Some("apps/web/"));
    assert_eq!(go_to_parent_target("", ""), None);

    assert_eq!(backspace_query("apps/web/", "apps/web/", ""), "apps/");
    assert_eq!(backspace_query("", "", ""), "");
    assert_eq!(backspace_query("apps/inde", "apps/", "inde"), "apps/ind");
    assert_eq!(backspace_query("é", "", "é"), "");
}

#[test]
fn start_query_is_relative_to_root() {
    assert_eq!(strip_prefix("/home/me/p/src/", "/home/me/p/").as_deref(), Some("src/"));
    assert_eq!(strip_prefix("/elsewhere/", "/home/me/p/"), None);
    assert_eq!(start_query(Some("/home/me/p/src/"), "/home/me/p/"), "src/");
    assert_eq!(start_query(Some("/tmp/"), "/home/me/p/"), "");
    assert_eq!(start_query(None, "/home/me/p/"), "");
    assert_eq!(directory_with_separator("/home/me/p/src", PathStyle::Posix), "/home/me/p/src/");
    assert_eq!(directory_with_separator("/home/me/p/src/", PathStyle::Posix), "/home/me/p/src/");
    assert_eq!(directory_with_separator("C:\\p", PathStyle::Windows), "C:\\p\\");
}

fn item(name: &str, is_dir: bool) -> ListedItem {
    ListedItem { name: name.to_string(), is_dir }
}

fn names(entries: &[Entry]) -> Vec<(String, usize, bool)> {
    entries.iter().map(|e| (e.name.clone(), e.id, e.is_dir)).collect()
}

#[test]
fn entries_get_a_parent_row_below_the_root() {
    let rows = directory_entries(vec![item("src", true), item("a.rs", false)], "apps/");
    assert_eq!(
        names(&rows),
        vec![("..".to_string(), 2, true), ("src".to_string(), 0, true), ("a.rs".to_string(), 1, false)]
    );
    let rows = directory_entries(vec![item("src", true)], "");
    assert_eq!(names(&rows), vec![("src".to_string(), 0, true)]);
}

#[test]
fn entries_list_directories_before_files() {
    let rows = directory_entries(vec![item("a.rs", false), item("src", true)], "apps/");
    assert_eq!(
        names(&rows),
        vec![("..".to_string(), 2, true), ("src".to_string(), 0, true), ("a.rs".to_string(), 1, false)]
    );
    let rows = directory_entries(
        vec![item("b.rs", false), item("lib", true), item("a.rs", false), item("doc", true)],
        "",
    );
    assert_eq!(
        names(&rows),
        vec![
            ("lib".to_string(), 0, true),
            ("doc".to_string(), 1, true),
            ("b.rs".to_string(), 2, false),
            ("a.rs".to_string(), 3, false),
        ]
    );
}

fn finder() -> DirectoryFinderDelegate {
    let mut d = DirectoryFinderDelegate::new("/p/".to_string(), PathStyle::Posix);
    let entries = directory_entries(vec![item("src", true), item("main.rs", false)], "apps/");
    let ticket = d.begin_update();
    d.set_listing(ticket, "apps/".to_string(), entries);
    d
}

/// Installs matches through a fresh update.
fn matched(d: &mut DirectoryFinderDelegate, suffix: &str, matches: Vec<Match>) {
    let ticket = d.begin_update();
    d.set_matches(ticket, suffix.to_string(), matches);
}

fn m(id: usize) -> Match {
    Match { candidate_id: id, positions: vec![0] }
}

#[test]
fn a_stale_update_changes_nothing() {
    let mut d = finder();
    let first = d.begin_update();
    let second = d.begin_update();
    assert_ne!(first, second);
    // The first update was replaced: its listing and matches do not land.
    d.set_listing(first, "other/".to_string(), vec![]);
    assert_eq!(d.parent_path, "apps/");
    assert_eq!(d.entries.len(), 3);
    d.set_matches(first, "zz".to_string(), vec![m(0)]);
    assert_eq!(d.match_count(), 0);
    assert!(d.create_name.is_none());
    // The awaited one does, and then the update is done.
    d.set_matches(second, "zz".to_string(), vec![m(0)]);
    assert_eq!(d.match_count(), 2);
    assert_eq!(d.pending, None);
    d.set_matches(second, "yy".to_string(), vec![]);
    assert_eq!(d.create_name.as_deref(), Some("zz"));
    // Closing the picker drops the update in flight.
    let third = d.begin_update();
    d.dismissed();
    d.set_matches(third, "xx".to_string(), vec![]);
    assert_eq!(d.create_name.as_deref(), Some("zz"));
}

#[test]
fn listing_only_when_the_directory_changes() {
    let d = finder();
    assert_eq!(d.listing_path("apps/"), None);
    assert_eq!(d.listing_path("apps/src/").as_deref(), Some("/p/apps/src/"));
}

#[test]
fn confirming_rows() {
    let mut d = finder();
    matched(&mut d, "ma", vec![m(1), m(0), m(2)]);
    assert_eq!(d.match_count(), 4);
    assert!(d.create_name.is_some());
    // Row 0: the file main.rs.
    assert_eq!(d.confirm_update_query(), None);
    let open = d.confirm(false).unwrap();
    assert_eq!(open.path, "/p/apps/main.rs");
    assert!(!open.split);
    assert_eq!(d.confirm_completion("apps/ma".to_string()).as_deref(), Some("apps/main.rs"));
    // Row 1: the directory src.
    d.set_selected_index(1);
    assert_eq!(d.confirm_update_query().as_deref(), Some("apps/src/"));
    assert!(d.confirm(false).is_none());
    // Row 2: the parent.
    d.set_selected_index(2);
    assert_eq!(d.confirm_update_query().as_deref(), Some(""));
    // Row 3: create `ma`.
    d.set_selected_index(3);
    assert!(matches!(d.selection(3), Some(Selection::CreateNew { ref name }) if name == "ma"));
    let OpenFile { path, split } = d.confirm(true).unwrap();
    assert_eq!(path, "/p/apps/ma");
    assert!(split);
    assert_eq!(d.confirm_completion("apps/ma".to_string()).as_deref(), Some("apps/ma"));
    // Past the end.
    d.set_selected_index(4);
    assert!(d.selection(4).is_none());
    assert!(d.confirm(false).is_none());
    assert_eq!(d.confirm_completion("q".to_string()), None);
}

#[test]
fn create_row_only_for_a_new_name() {
    let mut d = finder();
    matched(&mut d, "main.rs", vec![m(1)]);
    assert!(d.create_name.is_none());
    assert_eq!(d.match_count(), 1);
    matched(&mut d, "", vec![m(0), m(1), m(2)]);
    assert!(d.create_name.is_none());
    matched(&mut d, "new.rs", vec![]);
    assert_eq!(d.create_name.as_deref(), Some("new.rs"));
    assert_eq!(d.selected_index, 0);
}

#[test]
fn rows_are_drawn() {
    let mut d = finder();
    matched(&mut d, "é", vec![Match { candidate_id: 0, positions: vec![1, 2] }]);
    match d.row(0) {
        Some(Row::Existing { name, is_dir, positions }) => {
            assert_eq!(name, "src");
            assert!(is_dir);
            assert_eq!(positions, vec![1, 2]);
        }
        _ => panic!("expected an entry row"),
    }
    match d.row(1) {
        Some(Row::CreateNew { label, highlight_len }) => {
            assert_eq!(label, "é (create)");
            assert_eq!(highlight_len, 2);
        }
        _ => panic!("expected the create row"),
    }
    assert!(d.row(2).is_none());
}

#[test]
fn directory_target_descends_and_climbs() {
    let d = finder();
    assert_eq!(d.directory_target("src").as_deref(), Some("apps/src/"));
    assert_eq!(d.directory_target("..").as_deref(), Some(""));
    let child = d.directory_target("src").unwrap();
    assert_eq!(parent_dir(&child).as_deref(), Some("apps/"));
    let root = DirectoryFinderDelegate::new("/p/".to_string(), PathStyle::Windows);
    assert_eq!(root.directory_target("..").as_deref(), None);
    assert_eq!(root.directory_target("src").as_deref(), Some("src\\"));
}
