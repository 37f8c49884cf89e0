//! Running shell commands from the minibuffer: the output buffer of a run,
//! the status of a run, the history of runs and the decisions of the view
//! that hosts them.
//!
//! The view has three modes: a one-line prompt for the command, a picker over
//! past runs, and the output of one run. Confirming the prompt starts the
//! trimmed command (an empty one is ignored) and switches to its output;
//! Escape stops a running command and closes the view.

pub mod output;
pub mod run;
pub mod history;

use vstd::prelude::*;
use crate::text::{trim, trim_spec};

verus! {

/// What the command view shows.
#[derive(PartialEq, Eq, Structural, Clone, Copy, Debug)]
pub enum ExecMode {
    /// The prompt for a new command.
    Prompt,
    /// The picker over past runs.
    History,
    /// The output of the run with the given id.
    Output { run: u64 },
}

/// The command view's state.
pub struct ExecCommand {
    pub mode: ExecMode,
}

/// The key context the view declares in each mode.
pub open spec fn mode_key_context(mode: ExecMode) -> Seq<char> {
    match mode {
        ExecMode::Prompt => "ExecCommand"@,
        ExecMode::History => "ExecCommandHistory"@,
        ExecMode::Output { .. } => "ExecCommandOutput"@,
    }
}

/// The command a confirmed prompt runs: its text without surrounding
/// whitespace, or nothing when that is empty.
pub open spec fn prompt_command(text: Seq<char>) -> Option<Seq<char>> {
    if trim_spec(text).len() == 0 {
        None
    } else {
        Some(trim_spec(text))
    }
}

/// The row to scroll to so the newest output line is in view.
pub open spec fn scroll_target(line_count: nat) -> Option<nat> {
    if line_count > 0 {
        Some((line_count - 1) as nat)
    } else {
        None
    }
}

impl ExecCommand {
    /// The view in prompt mode.
    pub fn prompt() -> (r: Self)
        ensures
            r.mode == ExecMode::Prompt,
    {
        ExecCommand { mode: ExecMode::Prompt }
    }

    /// The view in history mode.
    pub fn history() -> (r: Self)
        ensures
            r.mode == ExecMode::History,
    {
        ExecCommand { mode: ExecMode::History }
    }

    /// The key context of the current mode.
    pub fn key_context(&self) -> (r: &'static str)
        ensures
            r@ == mode_key_context(self.mode),
    {
        match self.mode {
            ExecMode::Prompt => "ExecCommand",
            ExecMode::History => "ExecCommandHistory",
            ExecMode::Output { .. } => "ExecCommandOutput",
        }
    }

    /// Confirm in the prompt: the command to start, if the prompt holds one.
    /// Outside prompt mode confirm does nothing.
    pub fn confirm(&self, text: &str) -> (r: Option<String>)
        ensures
            self.mode != ExecMode::Prompt ==> r is None,
            self.mode == ExecMode::Prompt ==> match prompt_command(text@) {
                Some(c) => r is Some && r->0@ == c,
                None => r is None,
            },
    {
        if self.mode != ExecMode::Prompt {
            return None;
        }
        let command = trim(text);
        if command.as_str().is_empty() {
            None
        } else {
            Some(command)
        }
    }

    /// Switches to the output of run `run`.
    pub fn show_output(&mut self, run: u64)
        ensures
            final(self).mode == (ExecMode::Output { run }),
    {
        self.mode = ExecMode::Output { run };
    }

    /// Escape: the run to stop, when the output of one is shown. The view
    /// closes either way.
    pub fn cancel(&self) -> (r: Option<u64>)
        ensures
            r == match self.mode {
                ExecMode::Output { run } => Some(run),
                _ => None,
            },
    {
        match self.mode {
            ExecMode::Output { run } => Some(run),
            _ => None,
        }
    }

    /// Whether the minibuffer shows this view as a single line: only the
    /// prompt does.
    pub fn single_line(&self) -> (r: bool)
        ensures
            r == (self.mode == ExecMode::Prompt),
    {
        self.mode == ExecMode::Prompt
    }
}

/// The row to scroll to so that the newest of `line_count` lines is in view.
pub fn newest_line(line_count: usize) -> (r: Option<usize>)
    ensures
        match scroll_target(line_count as nat) {
            Some(t) => r is Some && r->0 == t,
            None => r is None,
        },
{
    if line_count > 0 {
        Some(line_count - 1)
    } else {
        None
    }
}

} // verus!
