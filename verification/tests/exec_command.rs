use zed_fork_logic::exec_command::output::{OutputLines, MAX_OUTPUT_LINES};

fn lines(output: &OutputLines) -> Vec<String> {
    (0..output.len()).filter_map(|ix| output.line(ix)).collect()
}

#[test]
fn test_output_lines_splits_on_newlines() {
    let mut output = OutputLines::default();
    output.push("first\nsecond\n");
    assert_eq!(lines(&output), vec!["first", "second"]);

    output.push("third");
    assert_eq!(lines(&output), vec!["first", "second", "third"]);
}

#[test]
fn test_output_lines_joins_partial_chunks() {
    let mut output = OutputLines::default();
    output.push("par");
    output.push("tial");
    assert_eq!(lines(&output), vec!["partial"]);

    output.push(" line\nnext");
    assert_eq!(lines(&output), vec!["partial line", "next"]);
}

#[test]
fn test_output_lines_keeps_blank_lines_and_strips_carriage_returns() {
    let mut output = OutputLines::default();
    output.push("one\r\n\r\ntwo\r\n");
    assert_eq!(lines(&output), vec!["one", "", "two"]);
}

#[test]
fn test_output_lines_keeps_embedded_carriage_returns_literal() {
    // A mid-line carriage return (progress bars) is kept literally rather
    // than overwriting the line.
    let mut output = OutputLines::default();
    output.push("50%\r100%\n");
    assert_eq!(lines(&output), vec!["50%\r100%"]);
}

#[test]
fn test_output_lines_is_empty_before_any_output() {
    let output = OutputLines::default();
    assert_eq!(output.len(), 0);
    assert_eq!(output.line(0), None);
}

#[test]
fn test_output_lines_drops_oldest_lines_past_the_cap() {
    let mut output = OutputLines::default();
    for line in 0..MAX_OUTPUT_LINES + 10 {
        output.push(&format!("line {line}\n"));
    }
    let lines = lines(&output);
    assert_eq!(lines.len(), MAX_OUTPUT_LINES);
    assert_eq!(lines.first().map(String::as_str), Some("line 10"));
    assert_eq!(
        lines.last().map(String::as_str),
        Some(format!("line {}", MAX_OUTPUT_LINES + 9).as_str())
    );
}

use zed_fork_logic::exec_command::history::{CommandHistory, CommandHistoryDelegate, MAX_HISTORY_ENTRIES};
use zed_fork_logic::exec_command::run::{CommandRun, RunStatus};
use zed_fork_logic::exec_command::{newest_line, ExecCommand, ExecMode};
use zed_fork_logic::ui::Color;

fn pushed(chunks: &[&str]) -> Vec<String> {
    let mut output = OutputLines::new();
    for chunk in chunks {
        output.push(chunk);
    }
    lines(&output)
}

#[test]
fn output_does_not_depend_on_chunking() {
    let whole = pushed(&["alpha\nbe\r\nta\ngamma"]);
    assert_eq!(whole, vec!["alpha", "be", "ta", "gamma"]);
    assert_eq!(pushed(&["al", "pha\nbe", "\r\nta\n", "gam", "ma"]), whole);
    assert_eq!(pushed(&["alpha\n", "be\r", "\nta\ngamma"]), whole);
    let text = "a\rb\r\r\nc\r\r\rd\ne\r";
    let whole = pushed(&[text]);
    for cut in 0..=text.len() {
        assert_eq!(pushed(&[&text[..cut], &text[cut..]]), whole, "cut at {cut}");
    }
}

#[test]
fn output_carriage_return_at_the_end_of_a_chunk_is_kept_when_the_line_goes_on() {
    assert_eq!(pushed(&["50%\r", "100%\n"]), vec!["50%\r100%"]);
    assert_eq!(pushed(&["50%\r100%\n"]), vec!["50%\r100%"]);
    assert_eq!(pushed(&["50%\r", "\r", "100%"]), vec!["50%\r\r100%"]);
    // Held back while the line may still end, dropped when it does.
    assert_eq!(pushed(&["50%\r"]), vec!["50%"]);
    assert_eq!(pushed(&["50%\r", "\n"]), vec!["50%"]);
}

#[test]
fn output_empty_partial_line_is_not_shown() {
    let mut output = OutputLines::new();
    output.push("a\n");
    assert_eq!(output.len(), 1);
    assert_eq!(output.line(1), None);
    output.push("");
    assert_eq!(output.len(), 1);
    output.push("\r");
    assert_eq!(output.len(), 1);
}

#[test]
fn output_lines_never_end_in_a_carriage_return() {
    let mut output = OutputLines::new();
    for chunk in ["a\r", "\r", "b\r\r\n\r\r", "c\r\nd\r"] {
        output.push(chunk);
        for ix in 0..output.len() {
            let line = output.line(ix).unwrap();
            assert!(!line.ends_with('\r'), "line {ix} is {line:?}");
        }
    }
    assert_eq!(lines(&output), vec!["a\r\rb", "\r\rc", "d"]);
}

#[test]
fn output_keeps_multibyte_text() {
    assert_eq!(pushed(&["héllo wörld ✓\n∑"]), vec!["héllo wörld ✓", "∑"]);
}

#[test]
fn output_cap_counts_only_finished_lines() {
    let mut output = OutputLines::new();
    let mut chunk = String::new();
    for i in 0..MAX_OUTPUT_LINES + 3 {
        chunk.push_str(&format!("{i}\n"));
    }
    chunk.push_str("tail");
    output.push(&chunk);
    assert_eq!(output.len(), MAX_OUTPUT_LINES + 1);
    assert_eq!(output.line(0).as_deref(), Some("3"));
    assert_eq!(output.line(MAX_OUTPUT_LINES).as_deref(), Some("tail"));
}

#[test]
fn run_status_labels() {
    assert_eq!(RunStatus::Running.label(), "running");
    assert_eq!(RunStatus::Exited { code: Some(0) }.label(), "exited 0");
    assert_eq!(RunStatus::Exited { code: Some(127) }.label(), "exited 127");
    assert_eq!(RunStatus::Exited { code: Some(-2) }.label(), "exited -2");
    assert_eq!(RunStatus::Exited { code: Some(i32::MIN) }.label(), "exited -2147483648");
    assert_eq!(RunStatus::Exited { code: None }.label(), "terminated by signal");
    assert_eq!(RunStatus::Stopped.label(), "stopped");
    assert_eq!(RunStatus::Failed("no shell".to_string()).label(), "failed: no shell");
}

#[test]
fn run_status_colors() {
    assert_eq!(RunStatus::Running.color(), Color::Accent);
    assert_eq!(RunStatus::Exited { code: Some(0) }.color(), Color::Success);
    assert_eq!(RunStatus::Exited { code: Some(1) }.color(), Color::Warning);
    assert_eq!(RunStatus::Exited { code: None }.color(), Color::Warning);
    assert_eq!(RunStatus::Stopped.color(), Color::Warning);
    assert_eq!(RunStatus::Failed(String::new()).color(), Color::Error);
}

#[test]
fn command_run_stop_and_finish() {
    let mut run = CommandRun::start("yes".to_string());
    assert!(run.is_running());
    assert_eq!(run.title(), "$ yes");
    assert_eq!(run.hint().as_deref(), Some("esc: stop · d: run in background"));
    run.push_output("y\ny\n");
    assert_eq!(run.output.len(), 2);
    assert!(run.stop());
    assert!(matches!(run.status, RunStatus::Stopped));
    assert_eq!(run.hint(), None);
    // Stopping again does nothing.
    assert!(!run.stop());
    assert!(matches!(run.status, RunStatus::Stopped));

    let mut run = CommandRun::start("false".to_string());
    run.finish(Ok(Some(1)));
    assert_eq!(run.status.label(), "exited 1");
    assert!(!run.stop());
    assert_eq!(run.status.label(), "exited 1");

    let mut run = CommandRun::start("x".to_string());
    run.finish(Err("spawning `x`".to_string()));
    assert_eq!(run.status.label(), "failed: spawning `x`");
}

#[test]
fn command_run_status_never_changes_once_it_is_not_running() {
    let mut run = CommandRun::start("sleep 10".to_string());
    assert!(run.stop());
    run.finish(Ok(Some(0)));
    assert!(matches!(run.status, RunStatus::Stopped));
    run.finish(Err("waiting".to_string()));
    assert!(matches!(run.status, RunStatus::Stopped));

    let mut run = CommandRun::start("true".to_string());
    run.finish(Ok(Some(0)));
    run.finish(Ok(Some(1)));
    assert_eq!(run.status.label(), "exited 0");
    assert!(!run.stop());
    assert_eq!(run.status.label(), "exited 0");
}

#[test]
fn history_drops_oldest_finished_runs_past_the_cap() {
    let mut history = CommandHistory::new();
    for id in 0..MAX_HISTORY_ENTRIES as u64 {
        let running = vec![false; history.runs().len() + 1];
        history.push(id, &running);
    }
    assert_eq!(history.runs().len(), MAX_HISTORY_ENTRIES);
    let running = vec![false; history.runs().len() + 1];
    history.push(1000, &running);
    assert_eq!(history.runs().len(), MAX_HISTORY_ENTRIES);
    assert_eq!(history.runs()[0], 1);
    assert_eq!(*history.runs().last().unwrap(), 1000);
}

#[test]
fn history_never_drops_running_runs() {
    let mut history = CommandHistory::new();
    for id in 0..MAX_HISTORY_ENTRIES as u64 + 5 {
        let running = vec![true; history.runs().len() + 1];
        history.push(id, &running);
    }
    assert_eq!(history.runs().len(), MAX_HISTORY_ENTRIES + 5);

    // With only the third run finished, only it can go.
    let mut running = vec![true; history.runs().len() + 1];
    running[2] = false;
    history.push(500, &running);
    assert_eq!(history.runs().len(), MAX_HISTORY_ENTRIES + 5);
    assert!(!history.runs().contains(&2));
    assert_eq!(history.runs()[2], 3);
}

#[test]
fn history_picker_lists_most_recent_first() {
    let mut history = CommandHistory::new();
    for id in [10u64, 20, 30] {
        let running = vec![false; history.runs().len() + 1];
        history.push(id, &running);
    }
    let mut picker = CommandHistoryDelegate::new(&history);
    assert_eq!(picker.runs, vec![30, 20, 10]);
    assert_eq!(picker.match_count(), 3);
    assert_eq!(picker.selected_run(), Some(30));
    picker.set_selected_index(2);
    assert_eq!(picker.selected_run(), Some(10));
    picker.set_matches(vec![1]);
    assert_eq!(picker.selected_index, 0);
    assert_eq!(picker.selected_run(), Some(20));
    assert_eq!(picker.run_at(1), None);
    picker.set_matches(vec![7]);
    assert_eq!(picker.selected_run(), None);
    picker.clear_query();
    assert_eq!(picker.matches, vec![0, 1, 2]);
}

#[test]
fn exec_command_prompt_trims_and_ignores_empty_commands() {
    let view = ExecCommand::prompt();
    assert_eq!(view.confirm("  ls -la \n").as_deref(), Some("ls -la"));
    assert_eq!(view.confirm(" \t "), None);
    assert_eq!(view.confirm(""), None);
    assert_eq!(view.key_context(), "ExecCommand");
    assert!(view.single_line());
    assert_eq!(view.cancel(), None);
}

#[test]
fn exec_command_modes() {
    let mut view = ExecCommand::history();
    assert_eq!(view.key_context(), "ExecCommandHistory");
    assert_eq!(view.confirm("ls"), None);
    view.show_output(7);
    assert_eq!(view.mode, ExecMode::Output { run: 7 });
    assert_eq!(view.key_context(), "ExecCommandOutput");
    assert!(!view.single_line());
    assert_eq!(view.cancel(), Some(7));
    assert_eq!(view.confirm("ls"), None);
}

#[test]
fn newest_line_scrolls_to_last_row() {
    assert_eq!(newest_line(0), None);
    assert_eq!(newest_line(1), Some(0));
    assert_eq!(newest_line(42), Some(41));
}
