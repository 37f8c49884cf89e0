//! The `git stash` popup. Each action works on the whole working tree or on
//! the most recent stash entry, and closes the popup; picking a particular
//! entry is done from the stash list.

use vstd::prelude::*;
use crate::git_ui::Outcome;
use crate::ui::{action, actions_view, ActionRow};

verus! {

/// A key press in the stash popup.
#[derive(PartialEq, Eq, Structural, Clone, Copy, Debug)]
pub enum StashEvent {
    /// `z`: stashes all changes.
    Save,
    /// `p`: pops the latest entry.
    PopLatest,
    /// `a`: applies the latest entry, keeping it.
    ApplyLatest,
    /// `k`: drops the latest entry.
    DropLatest,
    /// `l`: opens the list of entries.
    List,
    /// Escape.
    Cancel,
}

/// What to ask of git.
#[derive(PartialEq, Eq, Structural, Clone, Copy, Debug)]
pub enum StashRequest {
    SaveAll,
    Pop,
    Apply,
    DropLatest,
    /// Open the stash list once the popup has closed.
    OpenList,
}

/// The stash popup; it holds no state of its own.
pub struct StashPopup {}

impl StashPopup {
    /// The popup.
    pub fn new() -> (r: Self) {
        StashPopup {}
    }

    /// Handles a key press: every key closes the popup, all but Escape after
    /// asking for its operation.
    pub fn handle(&self, event: StashEvent) -> (r: Outcome<StashRequest>)
        ensures
            match event {
                StashEvent::Save => r == Outcome::Run(StashRequest::SaveAll),
                StashEvent::PopLatest => r == Outcome::Run(StashRequest::Pop),
                StashEvent::ApplyLatest => r == Outcome::Run(StashRequest::Apply),
                StashEvent::DropLatest => r == Outcome::Run(StashRequest::DropLatest),
                StashEvent::List => r == Outcome::Run(StashRequest::OpenList),
                StashEvent::Cancel => r == Outcome::<StashRequest>::Dismiss,
            },
    {
        match event {
            StashEvent::Save => Outcome::Run(StashRequest::SaveAll),
            StashEvent::PopLatest => Outcome::Run(StashRequest::Pop),
            StashEvent::ApplyLatest => Outcome::Run(StashRequest::Apply),
            StashEvent::DropLatest => Outcome::Run(StashRequest::DropLatest),
            StashEvent::List => Outcome::Run(StashRequest::OpenList),
            StashEvent::Cancel => Outcome::Dismiss,
        }
    }

    /// The row for the whole working tree.
    pub fn tree_actions() -> (r: Vec<ActionRow>)
        ensures
            actions_view(r@) == seq![("z"@, "Save all changes"@)],
    {
        let r = vec![action("z", "Save all changes")];
        assert(actions_view(r@) =~= seq![("z"@, "Save all changes"@)]);
        r
    }

    /// The rows for the latest entry.
    pub fn latest_actions() -> (r: Vec<ActionRow>)
        ensures
            actions_view(r@) == seq![("p"@, "Pop"@), ("a"@, "Apply"@), ("k"@, "Drop"@)],
    {
        let r = vec![action("p", "Pop"), action("a", "Apply"), action("k", "Drop")];
        assert(actions_view(r@) =~= seq![("p"@, "Pop"@), ("a"@, "Apply"@), ("k"@, "Drop"@)]);
        r
    }

    /// The row that opens the list.
    pub fn list_actions() -> (r: Vec<ActionRow>)
        ensures
            actions_view(r@) == seq![("l"@, "List stashes"@)],
    {
        let r = vec![action("l", "List stashes")];
        assert(actions_view(r@) =~= seq![("l"@, "List stashes"@)]);
        r
    }
}

} // verus!
