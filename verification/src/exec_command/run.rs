//! One shell command run: its command line, its output and its status.

use vstd::prelude::*;
use crate::exec_command::output::{OutputLines, pushed_complete, pushed_unfinished};
use crate::ui::Color;
use crate::text::{append_str, decimal_int, push_decimal_i32, to_owned_string};

verus! {

/// Where a run stands.
pub enum RunStatus {
    Running,
    /// The command exited; `code` is `None` when a signal ended it.
    Exited { code: Option<i32> },
    /// The command was stopped from the output view.
    Stopped,
    /// The command could not be spawned or waited on.
    Failed(String),
}

/// The label shown for a status.
pub open spec fn status_label(status: RunStatus) -> Seq<char> {
    match status {
        RunStatus::Running => "running"@,
        RunStatus::Exited { code: Some(code) } => "exited "@ + decimal_int(code as int),
        RunStatus::Exited { code: None } => "terminated by signal"@,
        RunStatus::Stopped => "stopped"@,
        RunStatus::Failed(error) => "failed: "@ + error@,
    }
}

/// The colour a status is shown in: a clean exit is a success, another exit
/// or a stop a warning, a failure an error.
pub open spec fn status_color(status: RunStatus) -> Color {
    match status {
        RunStatus::Running => Color::Accent,
        RunStatus::Exited { code: Some(code) } => if code == 0 {
            Color::Success
        } else {
            Color::Warning
        },
        RunStatus::Exited { code: None } => Color::Warning,
        RunStatus::Stopped => Color::Warning,
        RunStatus::Failed(_) => Color::Error,
    }
}

impl RunStatus {
    /// The label shown for this status, such as `exited 1`.
    pub fn label(&self) -> (r: String)
        ensures
            r@ == status_label(*self),
    {
        match self {
            RunStatus::Running => to_owned_string("running"),
            RunStatus::Exited { code: Some(code) } => {
                let mut s = to_owned_string("exited ");
                push_decimal_i32(&mut s, *code);
                s
            },
            RunStatus::Exited { code: None } => to_owned_string("terminated by signal"),
            RunStatus::Stopped => to_owned_string("stopped"),
            RunStatus::Failed(error) => {
                let mut s = to_owned_string("failed: ");
                append_str(&mut s, error.as_str());
                s
            },
        }
    }

    /// The colour this status is shown in.
    pub fn color(&self) -> (r: Color)
        ensures
            r == status_color(*self),
    {
        match self {
            RunStatus::Running => Color::Accent,
            RunStatus::Exited { code: Some(code) } => if *code == 0 {
                Color::Success
            } else {
                Color::Warning
            },
            RunStatus::Exited { code: None } => Color::Warning,
            RunStatus::Stopped => Color::Warning,
            RunStatus::Failed(_) => Color::Error,
        }
    }

    /// Whether the command is still running.
    pub fn is_running(&self) -> (r: bool)
        ensures
            r == (*self is Running),
    {
        match self {
            RunStatus::Running => true,
            _ => false,
        }
    }
}

/// A shell command and what it has produced so far. The process itself is
/// owned by whoever started the run; this holds what is shown of it.
pub struct CommandRun {
    pub command: String,
    pub output: OutputLines,
    pub status: RunStatus,
}

/// The title line of a run's output view: `$ ` and the command.
pub open spec fn run_title(command: Seq<char>) -> Seq<char> {
    "$ "@ + command
}

/// The hint shown while a run is still going.
pub open spec fn running_hint() -> Seq<char> {
    "esc: stop · d: run in background"@
}

impl CommandRun {
    /// A run of `command` that has just started: no output yet.
    pub fn start(command: String) -> (r: Self)
        ensures
            r.command@ == command@,
            r.output.lines() == Seq::<Seq<char>>::empty(),
            r.output.complete_view() == Seq::<Seq<char>>::empty(),
            r.output.unfinished_view() == Seq::<char>::empty(),
            r.status is Running,
    {
        CommandRun { command, output: OutputLines::new(), status: RunStatus::Running }
    }

    /// Whether the command is still running.
    pub fn is_running(&self) -> (r: bool)
        ensures
            r == (self.status is Running),
    {
        self.status.is_running()
    }

    /// Adds a chunk of the command's output.
    pub fn push_output(&mut self, chunk: &str)
        ensures
            final(self).command == old(self).command,
            final(self).status == old(self).status,
            final(self).output.complete_view() == pushed_complete(
                old(self).output.complete_view(),
                old(self).output.unfinished_view(),
                chunk@,
            ),
            final(self).output.unfinished_view() == pushed_unfinished(
                old(self).output.unfinished_view(),
                chunk@,
            ),
    {
        self.output.push(chunk);
    }

    /// Stops a running command. Returns whether there was one to stop, in
    /// which case the process must be killed; a finished run is unchanged.
    pub fn stop(&mut self) -> (killed: bool)
        ensures
            killed == (old(self).status is Running),
            killed ==> final(self).status is Stopped,
            !killed ==> final(self).status == old(self).status,
            final(self).command == old(self).command,
            final(self).output == old(self).output,
    {
        if !self.is_running() {
            return false;
        }
        self.status = RunStatus::Stopped;
        true
    }

    /// Records how the process ended: its exit code (`None` when a signal
    /// ended it), or why it could not be spawned or waited on. Only a running
    /// command can end: once a run has stopped, exited or failed, its status
    /// never changes again.
    pub fn finish(&mut self, result: Result<Option<i32>, String>)
        ensures
            final(self).command == old(self).command,
            final(self).output == old(self).output,
            old(self).status is Running ==> match result {
                Ok(code) => final(self).status == (RunStatus::Exited { code }),
                Err(error) => final(self).status == RunStatus::Failed(error),
            },
            !(old(self).status is Running) ==> final(self).status == old(self).status,
    {
        if !self.is_running() {
            return;
        }
        self.status = match result {
            Ok(code) => RunStatus::Exited { code },
            Err(error) => RunStatus::Failed(error),
        };
    }

    /// The title line of the output view.
    pub fn title(&self) -> (r: String)
        ensures
            r@ == run_title(self.command@),
    {
        let mut s = to_owned_string("$ ");
        append_str(&mut s, self.command.as_str());
        s
    }

    /// The hint shown beside the status, present while the command runs.
    pub fn hint(&self) -> (r: Option<String>)
        ensures
            r is Some == (self.status is Running),
            r is Some ==> r->0@ == running_hint(),
    {
        if self.is_running() {
            Some(to_owned_string("esc: stop · d: run in background"))
        } else {
            None
        }
    }
}

} // verus!
