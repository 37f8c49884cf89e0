use zed_fork_logic::open_buffer_finder::{collect_entries, OpenBufferFinderDelegate, OpenItem};
use zed_fork_logic::picker::{clamp_selection, Match};
use zed_fork_logic::projectile::{DeleteProjectDelegate, RecentProject};
use zed_fork_logic::references_picker::{reference_display, ReferenceEntry, ReferencesDelegate};

fn item(id: u64, title: &str) -> OpenItem {
    used(id, title, 0)
}

fn used(id: u64, title: &str, last_active: u64) -> OpenItem {
    OpenItem { item: id, title: title.to_string(), last_active }
}

fn m(id: usize) -> Match {
    Match { candidate_id: id, positions: vec![] }
}

#[test]
fn active_buffer_is_listed_last() {
    let items = vec![item(1, "a.rs"), item(2, "b.rs"), item(3, "c.rs")];
    let entries = collect_entries(&items, Some(1));
    let got: Vec<_> = entries.iter().map(|e| (e.item, e.title.as_str(), e.id)).collect();
    assert_eq!(got, vec![(2, "b.rs", 0), (3, "c.rs", 1), (1, "a.rs", 2)]);

    let entries = collect_entries(&items, None);
    let got: Vec<_> = entries.iter().map(|e| (e.item, e.id)).collect();
    assert_eq!(got, vec![(1, 0), (2, 1), (3, 2)]);

    let entries = collect_entries(&items, Some(9));
    assert_eq!(entries.len(), 3);
    assert!(collect_entries(&Vec::new(), Some(1)).is_empty());
}

#[test]
fn other_buffers_come_most_recently_used_first() {
    let items = vec![used(4, "d.rs", 3), used(5, "e.rs", 9), used(6, "f.rs", 7), used(7, "g.rs", 1)];
    let entries = collect_entries(&items, Some(5));
    let got: Vec<_> = entries.iter().map(|e| (e.item, e.id)).collect();
    // The active e.rs goes last; the rest by last use, so the default row
    // is f.rs, the buffer used just before.
    assert_eq!(got, vec![(6, 0), (4, 1), (7, 2), (5, 3)]);
    // Ties keep workspace order.
    let items = vec![used(1, "a", 2), used(2, "b", 5), used(3, "c", 2), used(4, "d", 5)];
    let got: Vec<_> = collect_entries(&items, None).iter().map(|e| e.item).collect();
    assert_eq!(got, vec![2, 4, 1, 3]);
    assert_eq!(collect_entries(&vec![item(7, "g.rs")], Some(7))[0].item, 7);
}

#[test]
fn open_buffer_confirm_activates_the_matched_item() {
    let items = vec![item(1, "a.rs"), item(2, "b.rs")];
    let mut picker = OpenBufferFinderDelegate::new(collect_entries(&items, Some(2)));
    assert_eq!(picker.confirm(), None);
    picker.set_matches(vec![Match { candidate_id: 1, positions: vec![0] }, m(0)]);
    assert_eq!(picker.match_count(), 2);
    assert_eq!(picker.confirm(), Some(2));
    picker.set_selected_index(1);
    assert_eq!(picker.confirm(), Some(1));
    assert_eq!(picker.row(0), Some(("b.rs".to_string(), vec![0])));
    assert_eq!(picker.row(2), None);
    picker.set_matches(vec![m(5)]);
    assert_eq!(picker.confirm(), None);
}

#[test]
fn references_are_shown_with_one_based_lines() {
    assert_eq!(reference_display(Some("src/main.rs"), 9, "    let x = 1;  "), "src/main.rs:10  let x = 1;");
    assert_eq!(reference_display(None, 0, "fn f()"), "untitled:1  fn f()");
    assert_eq!(reference_display(Some("a"), u32::MAX - 1, ""), format!("a:{}  ", u32::MAX));
}

#[test]
fn references_confirm_jumps_to_the_start() {
    let entries = vec![
        ReferenceEntry { display: "a:1  x".to_string(), start_row: 0, start_column: 4 },
        ReferenceEntry { display: "b:7  y".to_string(), start_row: 6, start_column: 2 },
    ];
    let mut picker = ReferencesDelegate::new(entries);
    assert_eq!(picker.confirm(), None);
    picker.set_matches(vec![m(1), m(0)]);
    assert_eq!(picker.confirm(), Some((1, (6, 2))));
    assert_eq!(picker.row(1), Some(("a:1  x".to_string(), vec![])));
    picker.set_matches(vec![m(2)]);
    assert_eq!(picker.confirm(), None);
}

fn project(id: u64, name: &str) -> RecentProject {
    RecentProject { workspace_id: id, name: name.to_string(), full_path: format!("~/{name}") }
}

#[test]
fn deleting_recent_projects() {
    let mut picker = DeleteProjectDelegate::new();
    picker.set_projects(vec![project(1, "zed"), project(2, "verus"), project(3, "notes")]);
    assert_eq!(DeleteProjectDelegate::normalized_query("  ve "), "ve");
    picker.set_matches(vec![m(0), m(1), m(2)]);
    picker.set_selected_index(2);
    assert_eq!(picker.confirm(), Some(3));
    picker.remove_project(3);
    let ids: Vec<_> = picker.projects.iter().map(|p| p.workspace_id).collect();
    assert_eq!(ids, vec![1, 2]);
    // The selection moves onto the last row when the list shrinks.
    picker.set_matches(vec![m(0), m(1)]);
    assert_eq!(picker.selected_index, 1);
    assert_eq!(picker.confirm(), Some(2));
    assert_eq!(picker.row(0), Some(("zed".to_string(), vec![], "~/zed".to_string())));
    picker.set_matches(vec![]);
    assert_eq!(picker.selected_index, 0);
    assert_eq!(picker.confirm(), None);
}

#[test]
fn selection_clamping() {
    assert_eq!(clamp_selection(5, 0), 0);
    assert_eq!(clamp_selection(5, 3), 2);
    assert_eq!(clamp_selection(1, 3), 1);
    assert_eq!(clamp_selection(2, 3), 2);
}
