//! A vim-style command line in the status bar. `:` opens it with an input;
//! as the user types, the command it matches is looked up in the background
//! and previewed beside the input; Enter runs that command and Escape closes
//! the line, giving focus back to what had it.
//!
//! Focus targets and commands are named by ids that the workspace hands out.
//! Each background lookup gets a ticket; closing the line cancels the running
//! lookup, and starting a new one replaces it, so only the latest lookup's
//! result can land.

use vstd::prelude::*;
use crate::text::to_owned_string;

verus! {

/// The command line's state.
pub struct VimCommandLine {
    /// Whether the input is shown.
    pub open: bool,
    /// The name of the matched command, empty when there is none.
    pub preview: String,
    /// The matched command.
    pub action: Option<u64>,
    /// What to focus when the line closes, captured when it opened.
    pub previous_focus: Option<u64>,
    /// The ticket of the lookup whose result is awaited.
    pub pending: Option<u64>,
    /// The ticket the next lookup gets.
    pub next_ticket: u64,
}

/// The command line as plain values.
pub struct LineView {
    pub open: bool,
    pub preview: Seq<char>,
    pub action: Option<u64>,
    pub previous_focus: Option<u64>,
    pub pending: Option<u64>,
    pub next_ticket: u64,
}

impl View for VimCommandLine {
    type V = LineView;

    open spec fn view(&self) -> LineView {
        LineView {
            open: self.open,
            preview: self.preview@,
            action: self.action,
            previous_focus: self.previous_focus,
            pending: self.pending,
            next_ticket: self.next_ticket,
        }
    }
}

/// The line after opening while `focused` has focus.
pub open spec fn opened(l: LineView, focused: Option<u64>) -> LineView {
    LineView { open: true, preview: Seq::<char>::empty(), action: None, previous_focus: focused, ..l }
}

/// The line after closing, and the focus to restore. A closed line stays as
/// it is.
pub open spec fn closed(l: LineView) -> (LineView, Option<u64>) {
    if l.open {
        (
            LineView {
                open: false,
                preview: Seq::<char>::empty(),
                action: None,
                pending: None,
                previous_focus: None,
                ..l
            },
            l.previous_focus,
        )
    } else {
        (l, None)
    }
}

/// The line after `:` and the focus target: closing when open, opening (the
/// input takes focus) when closed.
pub open spec fn toggled(l: LineView, focused: Option<u64>, input_focus: u64) -> (LineView, Option<u64>) {
    if l.open {
        closed(l)
    } else {
        (opened(l, focused), Some(input_focus))
    }
}

/// The line after the lookup with `ticket` found `first`: only the awaited
/// lookup's result is shown.
pub open spec fn looked_up(l: LineView, ticket: u64, first: Option<(Seq<char>, u64)>) -> LineView {
    if l.pending == Some(ticket) {
        match first {
            Some((name, action)) => LineView { pending: None, preview: name, action: Some(action), ..l },
            None => LineView { pending: None, preview: Seq::<char>::empty(), action: None, ..l },
        }
    } else {
        l
    }
}

/// Opening and then closing the line gives focus back to what had it
/// before, and leaves it closed with nothing previewed or pending.
pub proof fn lemma_toggle_twice_restores_focus(l: LineView, focused: Option<u64>, input_focus: u64)
    requires
        !l.open,
    ensures
        toggled(l, focused, input_focus).1 == Some(input_focus),
        toggled(toggled(l, focused, input_focus).0, None, input_focus).1 == focused,
        !toggled(toggled(l, focused, input_focus).0, None, input_focus).0.open,
        toggled(toggled(l, focused, input_focus).0, None, input_focus).0.pending is None,
        toggled(toggled(l, focused, input_focus).0, None, input_focus).0.preview.len() == 0,
{
}

/// Once the line is closed, no lookup result lands: whatever was being
/// looked up is dropped.
pub proof fn lemma_closed_line_ignores_lookups(l: LineView, ticket: u64, first: Option<(Seq<char>, u64)>)
    requires
        l.open,
    ensures
        looked_up(closed(l).0, ticket, first) == closed(l).0,
{
}

/// What pressing Enter leads to: the focus to restore and the command to run.
pub struct ConfirmOutcome {
    pub focus: Option<u64>,
    pub dispatch: Option<u64>,
}

impl VimCommandLine {
    /// A closed command line.
    pub fn new() -> (r: Self)
        ensures
            !r.open,
            r.preview@.len() == 0,
            r.action is None,
            r.previous_focus is None,
            r.pending is None,
            r.next_ticket == 0,
    {
        VimCommandLine {
            open: false,
            preview: String::new(),
            action: None,
            previous_focus: None,
            pending: None,
            next_ticket: 0,
        }
    }

    /// Opens the line while `focused` has focus: the input is empty and
    /// nothing is previewed. The input takes focus.
    pub fn open(&mut self, focused: Option<u64>)
        ensures
            final(self)@ == opened(old(self)@, focused),
            final(self).open,
            final(self).previous_focus == focused,
            final(self).preview@.len() == 0,
            final(self).action is None,
            final(self).pending == old(self).pending,
            final(self).next_ticket == old(self).next_ticket,
    {
        self.previous_focus = focused;
        self.open = true;
        self.preview = String::new();
        self.action = None;
    }

    /// Closes the line, cancelling a running lookup; returns what to focus.
    /// A closed line stays as it is.
    pub fn close(&mut self) -> (r: Option<u64>)
        ensures
            (final(self)@, r) == closed(old(self)@),
            !old(self).open ==> r is None && *final(self) == *old(self),
            old(self).open ==> {
                &&& !final(self).open
                &&& final(self).preview@.len() == 0
                &&& final(self).action is None
                &&& final(self).pending is None
                &&& final(self).previous_focus is None
                &&& final(self).next_ticket == old(self).next_ticket
                &&& r == old(self).previous_focus
            },
    {
        if !self.open {
            return None;
        }
        self.open = false;
        self.preview = String::new();
        self.action = None;
        self.pending = None;
        let r = self.previous_focus;
        self.previous_focus = None;
        r
    }

    /// `:` while open closes, otherwise opens. Returns what to focus: the
    /// restored target when closing, `input_focus` when opening.
    pub fn toggle(&mut self, focused: Option<u64>, input_focus: u64) -> (r: Option<u64>)
        ensures
            (final(self)@, r) == toggled(old(self)@, focused, input_focus),
            old(self).open ==> !final(self).open && r == old(self).previous_focus
                && final(self).pending is None,
            !old(self).open ==> final(self).open && r == Some(input_focus)
                && final(self).previous_focus == focused && final(self).action is None
                && final(self).preview@.len() == 0,
    {
        if self.open {
            self.close()
        } else {
            self.open(focused);
            Some(input_focus)
        }
    }

    /// The input changed to `query`. An empty query clears the preview; a
    /// non-empty one asks for a lookup (the result says whether to start
    /// one). Nothing happens while closed.
    pub fn edited(&mut self, query: &str) -> (lookup: bool)
        ensures
            lookup == (old(self).open && query@.len() > 0),
            old(self).open && query@.len() == 0 ==> final(self).preview@.len() == 0
                && final(self).action is None,
            !(old(self).open && query@.len() == 0) ==> final(self).preview == old(self).preview
                && final(self).action == old(self).action,
            final(self).open == old(self).open,
            final(self).pending == old(self).pending,
            final(self).previous_focus == old(self).previous_focus,
            final(self).next_ticket == old(self).next_ticket,
    {
        if !self.open {
            return false;
        }
        if query.is_empty() {
            self.preview = String::new();
            self.action = None;
            return false;
        }
        true
    }

    /// A lookup was started; it replaces the one awaited before. Returns its
    /// ticket (tickets count up and wrap around).
    pub fn lookup_started(&mut self) -> (ticket: u64)
        ensures
            ticket == old(self).next_ticket,
            final(self).pending == Some(ticket),
            final(self).next_ticket == (if ticket == u64::MAX {
                0
            } else {
                ticket + 1
            }),
            final(self).open == old(self).open,
            final(self).preview == old(self).preview,
            final(self).action == old(self).action,
            final(self).previous_focus == old(self).previous_focus,
    {
        let ticket = self.next_ticket;
        self.pending = Some(ticket);
        self.next_ticket = if ticket == u64::MAX {
            0
        } else {
            ticket + 1
        };
        ticket
    }

    /// The lookup with `ticket` found `first` (the best match's name and
    /// command) or nothing. Only the awaited lookup's result is shown.
    pub fn lookup_finished(&mut self, ticket: u64, first: Option<(String, u64)>)
        ensures
            final(self)@ == looked_up(
                old(self)@,
                ticket,
                match first {
                    Some((name, action)) => Some((name@, action)),
                    None => None,
                },
            ),
            old(self).pending == Some(ticket) ==> final(self).pending is None && match first {
                Some((name, action)) => final(self).preview@ == name@ && final(self).action
                    == Some(action),
                None => final(self).preview@.len() == 0 && final(self).action is None,
            },
            old(self).pending != Some(ticket) ==> *final(self) == *old(self),
            final(self).open == old(self).open,
            final(self).previous_focus == old(self).previous_focus,
            final(self).next_ticket == old(self).next_ticket,
    {
        if self.pending != Some(ticket) {
            return;
        }
        self.pending = None;
        match first {
            Some((name, action)) => {
                self.preview = name;
                self.action = Some(action);
            },
            None => {
                self.preview = String::new();
                self.action = None;
            },
        }
    }

    /// Enter: closes the line (giving focus back first, so the command runs
    /// where the user was) and runs the previewed command, if any.
    pub fn confirm(&mut self) -> (r: ConfirmOutcome)
        ensures
            r.dispatch == old(self).action,
            old(self).open ==> !final(self).open && r.focus == old(self).previous_focus,
            !old(self).open ==> r.focus is None && !final(self).open,
            final(self).action is None,
    {
        let dispatch = self.action;
        self.action = None;
        let focus = self.close();
        ConfirmOutcome { focus, dispatch }
    }

    /// Escape: closes the line; returns what to focus.
    pub fn cancel(&mut self) -> (r: Option<u64>)
        ensures
            old(self).open ==> !final(self).open && r == old(self).previous_focus,
            !old(self).open ==> r is None && *final(self) == *old(self),
    {
        self.close()
    }

    /// The preview shown beside the input, if any.
    pub fn preview_label(&self) -> (r: Option<String>)
        ensures
            (self.open && self.preview@.len() > 0) ==> r is Some && r->0@ == self.preview@,
            !(self.open && self.preview@.len() > 0) ==> r is None,
    {
        if self.open && !self.preview.as_str().is_empty() {
            Some(to_owned_string(self.preview.as_str()))
        } else {
            None
        }
    }
}

} // verus!
