use zed_fork_logic::command_line::VimCommandLine;
use zed_fork_logic::minibuffer::{
    minibuffer_height, BottomPanel, MiniBuffer, MinibufferHeight, Minibuffers, MINIBUFFER_HEIGHT,
};

#[test]
fn escape_hands_the_saved_focus_over_once() {
    let mut m = MiniBuffer::new(Some(4));
    assert_eq!(m.take_previous_focus(), Some(4));
    assert_eq!(m.take_previous_focus(), None);
    assert!(!m.single_line);
}

#[test]
fn toggle_twice_restores_focus() {
    let mut m = Minibuffers::new();
    assert_eq!(m.toggle(Some(3), 9), Some(9));
    assert!(m.is_open());
    assert_eq!(m.panel, BottomPanel::MiniBuffer(MiniBuffer { previous_focus: Some(3), single_line: false }));
    assert_eq!(m.toggle(Some(9), 9), Some(3));
    assert_eq!(m.panel, BottomPanel::Empty);
    assert!(!m.is_open());
}

#[test]
fn toggle_replaces_shown_content() {
    let mut m = Minibuffers::new();
    m.show(5, 50, Some(1));
    assert_eq!(m.toggle(Some(50), 9), Some(9));
    assert!(matches!(m.panel, BottomPanel::MiniBuffer(_)));
    assert_eq!(m.cancel(), Some(50));
    assert_eq!(m.panel, BottomPanel::Empty);
    assert_eq!(m.cancel(), None);
}

#[test]
fn dismiss_restores_focus_only_if_content_held_it() {
    let mut m = Minibuffers::new();
    assert_eq!(m.show_with_options(5, 50, true, Some(1)), 50);
    assert_eq!(m.shown_content(), Some(5));
    assert_eq!(m.dismiss(6, true), None);
    assert_eq!(m.shown_content(), Some(5));
    assert_eq!(m.dismiss(5, true), Some(1));
    assert_eq!(m.panel, BottomPanel::Empty);

    m.show(7, 70, Some(2));
    assert_eq!(m.dismiss(7, false), None);
    assert_eq!(m.panel, BottomPanel::Empty);
}

#[test]
fn single_line_switch() {
    let mut m = Minibuffers::new();
    m.set_single_line(true);
    assert_eq!(m.panel, BottomPanel::Empty);
    m.show_with_options(5, 50, true, None);
    m.set_single_line(false);
    match m.panel {
        BottomPanel::Host(h) => {
            assert!(!h.single_line);
            assert_eq!(h.content, 5);
        }
        _ => panic!("expected content"),
    }
    assert_eq!(minibuffer_height(true), MinibufferHeight::LineHeight);
    assert_eq!(minibuffer_height(false), MinibufferHeight::Fixed(MINIBUFFER_HEIGHT));
    assert_eq!(MINIBUFFER_HEIGHT, 400);
    let mut mb = MiniBuffer::new(Some(4));
    mb.set_single_line(true);
    assert!(mb.single_line);
    assert_eq!(mb.previous_focus, Some(4));
}

#[test]
fn command_line_toggle_twice_restores_focus() {
    let mut line = VimCommandLine::new();
    assert_eq!(line.toggle(Some(3), 8), Some(8));
    assert!(line.open);
    assert_eq!(line.toggle(Some(8), 8), Some(3));
    assert!(!line.open);
    assert_eq!(line.cancel(), None);
}

#[test]
fn command_line_shows_only_the_latest_lookup() {
    let mut line = VimCommandLine::new();
    line.toggle(Some(3), 8);
    assert!(line.edited("w"));
    let first = line.lookup_started();
    assert!(line.edited("wq"));
    let second = line.lookup_started();
    line.lookup_finished(first, Some(("write".to_string(), 1)));
    assert_eq!(line.preview_label(), None);
    line.lookup_finished(second, Some(("write and quit".to_string(), 2)));
    assert_eq!(line.preview_label().as_deref(), Some("write and quit"));
    assert_eq!(line.action, Some(2));

    // Clearing the input clears the preview without a lookup.
    assert!(!line.edited(""));
    assert_eq!(line.preview_label(), None);
    assert_eq!(line.action, None);
}

#[test]
fn command_line_confirm_runs_the_previewed_command() {
    let mut line = VimCommandLine::new();
    line.toggle(Some(3), 8);
    line.edited("q");
    let t = line.lookup_started();
    line.lookup_finished(t, Some(("quit".to_string(), 5)));
    let outcome = line.confirm();
    assert_eq!(outcome.dispatch, Some(5));
    assert_eq!(outcome.focus, Some(3));
    assert!(!line.open);

    // A lookup still running when the line closes never lands.
    line.toggle(Some(3), 8);
    line.edited("x");
    let t = line.lookup_started();
    assert_eq!(line.cancel(), Some(3));
    line.lookup_finished(t, Some(("xit".to_string(), 6)));
    assert_eq!(line.action, None);
    assert!(!line.edited("x"));
    let outcome = line.confirm();
    assert_eq!(outcome.dispatch, None);
    assert_eq!(outcome.focus, None);
}
