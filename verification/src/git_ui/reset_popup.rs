//! The `git reset` popup. Choosing a mode swaps the popup's body for a
//! one-line input where the target revision is typed (empty means `HEAD`);
//! the target can also be picked from the branch list.

use vstd::prelude::*;
use crate::git_ui::Outcome;
use crate::text::{to_owned_string, trim, trim_spec};
use crate::ui::{action, actions_view, ActionRow};

verus! {

/// How much `git reset` resets.
#[derive(PartialEq, Eq, Structural, Clone, Copy, Debug)]
pub enum ResetMode {
    Soft,
    Mixed,
    Hard,
}

/// What to ask of git.
pub enum ResetRequest {
    /// Reset to `revision` in `mode`.
    To { revision: String, mode: ResetMode },
    /// Open the branch list; the branch picked there is reset to in `mode`.
    PickBranch { mode: ResetMode },
}

/// The reset popup's state: the chosen mode, once one is.
pub struct ResetPopup {
    pub mode: Option<ResetMode>,
}

/// The revision a confirmed input resets to: the trimmed text, or `HEAD`
/// when that is empty.
pub open spec fn reset_revision(text: Seq<char>) -> Seq<char> {
    if trim_spec(text).len() == 0 {
        "HEAD"@
    } else {
        trim_spec(text)
    }
}

/// The name of a mode.
pub open spec fn mode_label_spec(mode: ResetMode) -> Seq<char> {
    match mode {
        ResetMode::Soft => "soft"@,
        ResetMode::Mixed => "mixed"@,
        ResetMode::Hard => "hard"@,
    }
}

/// The key context: the input's while a mode is chosen, the chooser's before.
pub open spec fn reset_key_context(mode: Option<ResetMode>) -> Seq<char> {
    if mode is Some {
        "GitResetPopupInput"@
    } else {
        "GitResetPopup"@
    }
}

impl ResetPopup {
    /// A popup waiting for a mode.
    pub fn new() -> (r: Self)
        ensures
            r.mode is None,
    {
        ResetPopup { mode: None }
    }

    /// `m` / `s` / `h`: chooses the mode; the input for the revision shows.
    pub fn choose_mode(&mut self, mode: ResetMode)
        ensures
            final(self).mode == Some(mode),
    {
        self.mode = Some(mode);
    }

    /// Enter in the input: resets to the typed revision in the chosen mode
    /// and closes. Without a chosen mode it does nothing.
    pub fn confirm(&mut self, text: &str) -> (r: Outcome<ResetRequest>)
        ensures
            final(self).mode is None,
            old(self).mode is None ==> r is Stay,
            old(self).mode matches Some(m) ==> r matches Outcome::Run(ResetRequest::To { revision, mode })
                && revision@ == reset_revision(text@) && mode == m,
    {
        let mode = match self.mode {
            Some(m) => m,
            None => return Outcome::Stay,
        };
        self.mode = None;
        let trimmed = trim(text);
        let revision = if trimmed.as_str().is_empty() {
            to_owned_string("HEAD")
        } else {
            trimmed
        };
        Outcome::Run(ResetRequest::To { revision, mode })
    }

    /// `cmd-b` in the input: closes and opens the branch list, whose pick is
    /// reset to in the chosen mode. Without a chosen mode it does nothing.
    pub fn reset_from_branch(&mut self) -> (r: Outcome<ResetRequest>)
        ensures
            final(self).mode is None,
            old(self).mode is None ==> r is Stay,
            old(self).mode matches Some(m) ==> r matches Outcome::Run(ResetRequest::PickBranch { mode })
                && mode == m,
    {
        let mode = match self.mode {
            Some(m) => m,
            None => return Outcome::Stay,
        };
        self.mode = None;
        Outcome::Run(ResetRequest::PickBranch { mode })
    }

    /// Escape: closes.
    pub fn cancel(&self) -> (r: Outcome<ResetRequest>)
        ensures
            r is Dismiss,
    {
        Outcome::Dismiss
    }

    /// The key context of the current step.
    pub fn key_context(&self) -> (r: &'static str)
        ensures
            r@ == reset_key_context(self.mode),
    {
        if self.mode.is_some() {
            "GitResetPopupInput"
        } else {
            "GitResetPopup"
        }
    }

    /// The label before the input, such as `Reset hard to:`.
    pub fn input_label(mode: ResetMode) -> (r: String)
        ensures
            r@ == "Reset "@ + mode_label_spec(mode) + " to:"@,
    {
        let mut s = to_owned_string("Reset ");
        crate::text::append_str(&mut s, Self::mode_label(mode));
        crate::text::append_str(&mut s, " to:");
        s
    }

    /// The name of a mode.
    pub fn mode_label(mode: ResetMode) -> (r: &'static str)
        ensures
            r@ == mode_label_spec(mode),
    {
        match mode {
            ResetMode::Soft => "soft",
            ResetMode::Mixed => "mixed",
            ResetMode::Hard => "hard",
        }
    }

    /// The rows shown while choosing a mode.
    pub fn mode_actions() -> (r: Vec<ActionRow>)
        ensures
            actions_view(r@) == seq![
                ("m"@, "mixed  (--mixed)"@),
                ("s"@, "soft   (--soft)"@),
                ("h"@, "hard   (--hard, discards changes)"@),
            ],
    {
        let r = vec![
            action("m", "mixed  (--mixed)"),
            action("s", "soft   (--soft)"),
            action("h", "hard   (--hard, discards changes)"),
        ];
        assert(actions_view(r@) =~= seq![
            ("m"@, "mixed  (--mixed)"@),
            ("s"@, "soft   (--soft)"@),
            ("h"@, "hard   (--hard, discards changes)"@),
        ]);
        r
    }

    /// The row shown under the input.
    pub fn input_actions() -> (r: Vec<ActionRow>)
        ensures
            actions_view(r@) == seq![("cmd-b"@, "pick from branch list"@)],
    {
        let r = vec![action("cmd-b", "pick from branch list")];
        assert(actions_view(r@) =~= seq![("cmd-b"@, "pick from branch list"@)]);
        r
    }
}

} // verus!
