//! The `git pull` popup: four toggleable arguments, the branch being pulled
//! into and its upstream.

use vstd::prelude::*;
use crate::git_ui::{outcome_view, Outcome};
use crate::ui::{action, argument, actions_view, arguments_view, ActionRow, ArgumentRow};

verus! {

/// The arguments of `git pull`.
#[derive(PartialEq, Eq, Structural, Clone, Copy, Debug)]
pub struct PullArgs {
    pub ff_only: bool,
    pub rebase: bool,
    pub autostash: bool,
    pub force: bool,
}

impl PullArgs {
    /// No argument enabled.
    pub fn none() -> (r: Self)
        ensures
            r == (PullArgs { ff_only: false, rebase: false, autostash: false, force: false }),
    {
        PullArgs { ff_only: false, rebase: false, autostash: false, force: false }
    }
}

/// A key press in the pull popup.
#[derive(PartialEq, Eq, Structural, Clone, Copy, Debug)]
pub enum PullEvent {
    /// `-f`: toggles `--ff-only`.
    ToggleFfOnly,
    /// `-r`: toggles `--rebase`.
    ToggleRebase,
    /// `-a`: toggles `--autostash`.
    ToggleAutostash,
    /// `-F`: toggles `--force`.
    ToggleForce,
    /// `p` / `u`: pulls from the upstream.
    PullFromUpstream,
    /// Escape.
    Cancel,
}

/// The arguments after `event`.
pub open spec fn pull_args_after(args: PullArgs, event: PullEvent) -> PullArgs {
    match event {
        PullEvent::ToggleFfOnly => PullArgs { ff_only: !args.ff_only, ..args },
        PullEvent::ToggleRebase => PullArgs { rebase: !args.rebase, ..args },
        PullEvent::ToggleAutostash => PullArgs { autostash: !args.autostash, ..args },
        PullEvent::ToggleForce => PullArgs { force: !args.force, ..args },
        _ => args,
    }
}

/// What `event` leads to: toggles keep the popup open, pulling runs with the
/// current arguments and closes it, Escape closes it.
pub open spec fn pull_outcome(args: PullArgs, event: PullEvent) -> Option<Option<PullArgs>> {
    match event {
        PullEvent::PullFromUpstream => Some(Some(args)),
        PullEvent::Cancel => Some(None),
        _ => None,
    }
}

/// Toggling an argument twice restores the arguments, and toggles never
/// close the popup.
pub proof fn lemma_pull_toggle_twice(args: PullArgs, event: PullEvent)
    requires
        event != PullEvent::PullFromUpstream,
        event != PullEvent::Cancel,
    ensures
        pull_args_after(pull_args_after(args, event), event) == args,
        pull_outcome(args, event) is None,
{
}

/// Each toggle flips exactly its own argument: `-f` `--ff-only`, `-r`
/// `--rebase`, `-a` `--autostash`, `-F` `--force`; the other three stay as
/// they were, and the popup stays open.
pub proof fn lemma_pull_toggle_flips_only_its_flag(a: PullArgs)
    ensures
        pull_args_after(a, PullEvent::ToggleFfOnly).ff_only == !a.ff_only,
        pull_args_after(a, PullEvent::ToggleFfOnly).rebase == a.rebase,
        pull_args_after(a, PullEvent::ToggleFfOnly).autostash == a.autostash,
        pull_args_after(a, PullEvent::ToggleFfOnly).force == a.force,
        pull_args_after(a, PullEvent::ToggleRebase).ff_only == a.ff_only,
        pull_args_after(a, PullEvent::ToggleRebase).rebase == !a.rebase,
        pull_args_after(a, PullEvent::ToggleRebase).autostash == a.autostash,
        pull_args_after(a, PullEvent::ToggleRebase).force == a.force,
        pull_args_after(a, PullEvent::ToggleAutostash).ff_only == a.ff_only,
        pull_args_after(a, PullEvent::ToggleAutostash).rebase == a.rebase,
        pull_args_after(a, PullEvent::ToggleAutostash).autostash == !a.autostash,
        pull_args_after(a, PullEvent::ToggleAutostash).force == a.force,
        pull_args_after(a, PullEvent::ToggleForce).ff_only == a.ff_only,
        pull_args_after(a, PullEvent::ToggleForce).rebase == a.rebase,
        pull_args_after(a, PullEvent::ToggleForce).autostash == a.autostash,
        pull_args_after(a, PullEvent::ToggleForce).force == !a.force,
        pull_outcome(a, PullEvent::ToggleFfOnly) is None,
        pull_outcome(a, PullEvent::ToggleRebase) is None,
        pull_outcome(a, PullEvent::ToggleAutostash) is None,
        pull_outcome(a, PullEvent::ToggleForce) is None,
{
}

/// Pulling runs with exactly the arguments toggled on so far, and closes;
/// Escape closes without pulling. Neither changes the arguments.
pub proof fn lemma_pull_runs_with_current_args(a: PullArgs)
    ensures
        pull_outcome(a, PullEvent::PullFromUpstream) == Some(Some(a)),
        pull_outcome(a, PullEvent::Cancel) == Some(None::<PullArgs>),
        pull_args_after(a, PullEvent::PullFromUpstream) == a,
        pull_args_after(a, PullEvent::Cancel) == a,
{
}

/// The pull popup's state.
pub struct PullPopup {
    pub args: PullArgs,
    /// The branch being pulled into.
    pub into_branch: String,
    /// Where it pulls from.
    pub upstream: String,
}

impl PullPopup {
    /// A popup for pulling into `into_branch` from `upstream`, no argument
    /// enabled.
    pub fn new(into_branch: String, upstream: String) -> (r: Self)
        ensures
            r.args == (PullArgs { ff_only: false, rebase: false, autostash: false, force: false }),
            r.into_branch == into_branch,
            r.upstream == upstream,
    {
        PullPopup { args: PullArgs::none(), into_branch, upstream }
    }

    /// Handles a key press.
    pub fn handle(&mut self, event: PullEvent) -> (r: Outcome<PullArgs>)
        ensures
            final(self).args == pull_args_after(old(self).args, event),
            final(self).into_branch == old(self).into_branch,
            final(self).upstream == old(self).upstream,
            outcome_view(r) == pull_outcome(old(self).args, event),
    {
        match event {
            PullEvent::ToggleFfOnly => {
                self.args.ff_only = !self.args.ff_only;
                Outcome::Stay
            },
            PullEvent::ToggleRebase => {
                self.args.rebase = !self.args.rebase;
                Outcome::Stay
            },
            PullEvent::ToggleAutostash => {
                self.args.autostash = !self.args.autostash;
                Outcome::Stay
            },
            PullEvent::ToggleForce => {
                self.args.force = !self.args.force;
                Outcome::Stay
            },
            PullEvent::PullFromUpstream => Outcome::Run(self.args),
            PullEvent::Cancel => Outcome::Dismiss,
        }
    }

    /// The argument rows, in display order.
    pub fn arguments(&self) -> (r: Vec<ArgumentRow>)
        ensures
            arguments_view(r@) == seq![
                ("-f"@, "Fast-forward only"@, "(--ff-only)"@, self.args.ff_only),
                ("-r"@, "Rebase local commits"@, "(--rebase)"@, self.args.rebase),
                ("-a"@, "Autostash"@, "(--autostash)"@, self.args.autostash),
                ("-F"@, "Force"@, "(--force)"@, self.args.force),
            ],
    {
        let r = vec![
            argument("-f", "Fast-forward only", "(--ff-only)", self.args.ff_only),
            argument("-r", "Rebase local commits", "(--rebase)", self.args.rebase),
            argument("-a", "Autostash", "(--autostash)", self.args.autostash),
            argument("-F", "Force", "(--force)", self.args.force),
        ];
        assert(arguments_view(r@) =~= seq![
            ("-f"@, "Fast-forward only"@, "(--ff-only)"@, self.args.ff_only),
            ("-r"@, "Rebase local commits"@, "(--rebase)"@, self.args.rebase),
            ("-a"@, "Autostash"@, "(--autostash)"@, self.args.autostash),
            ("-F"@, "Force"@, "(--force)"@, self.args.force),
        ]);
        r
    }

    /// The action rows: both `p` and `u` pull from the upstream.
    pub fn actions(&self) -> (r: Vec<ActionRow>)
        ensures
            actions_view(r@) == seq![("p"@, self.upstream@), ("u"@, self.upstream@)],
    {
        let r = vec![action("p", self.upstream.as_str()), action("u", self.upstream.as_str())];
        assert(actions_view(r@) =~= seq![("p"@, self.upstream@), ("u"@, self.upstream@)]);
        r
    }
}

} // verus!
