//! The `git push` popup: five toggleable arguments, the branch being pushed
//! and where it goes.

use vstd::prelude::*;
use crate::git_ui::{outcome_view, Outcome};
use crate::ui::{action, argument, actions_view, arguments_view, ActionRow, ArgumentRow};

verus! {

/// The arguments of `git push` other than `--force-with-lease`.
#[derive(PartialEq, Eq, Structural, Clone, Copy, Debug)]
pub struct PushArgs {
    pub force: bool,
    pub skip_hooks: bool,
    pub dry_run: bool,
    pub set_upstream: bool,
}

/// A push to run: the arguments, whether to force with lease, and whether to
/// pick the remote from a list instead of pushing to the upstream.
#[derive(PartialEq, Eq, Structural, Clone, Copy, Debug)]
pub struct PushRequest {
    pub args: PushArgs,
    pub force_with_lease: bool,
    pub select_remote: bool,
}

/// A key press in the push popup.
#[derive(PartialEq, Eq, Structural, Clone, Copy, Debug)]
pub enum PushEvent {
    /// `-f`: toggles `--force-with-lease`.
    ToggleForceWithLease,
    /// `-F`: toggles `--force`.
    ToggleForce,
    /// `-h`: toggles `--no-verify`.
    ToggleNoVerify,
    /// `-n`: toggles `--dry-run`.
    ToggleDryRun,
    /// `-u`: toggles `--set-upstream`.
    ToggleSetUpstream,
    /// `p`: pushes to the upstream.
    PushToUpstream,
    /// `e`: pushes to a remote picked from a list.
    PushElsewhere,
    /// Escape.
    Cancel,
}

/// The push popup's state.
pub struct PushPopup {
    pub args: PushArgs,
    pub force_with_lease: bool,
    /// The branch being pushed.
    pub from_branch: String,
    /// Where it goes by default.
    pub upstream: String,
}

/// The arguments and the force-with-lease flag after `event`.
pub open spec fn push_state_after(args: PushArgs, fwl: bool, event: PushEvent) -> (PushArgs, bool) {
    match event {
        PushEvent::ToggleForceWithLease => (args, !fwl),
        PushEvent::ToggleForce => (PushArgs { force: !args.force, ..args }, fwl),
        PushEvent::ToggleNoVerify => (PushArgs { skip_hooks: !args.skip_hooks, ..args }, fwl),
        PushEvent::ToggleDryRun => (PushArgs { dry_run: !args.dry_run, ..args }, fwl),
        PushEvent::ToggleSetUpstream => (PushArgs { set_upstream: !args.set_upstream, ..args }, fwl),
        _ => (args, fwl),
    }
}

/// What `event` leads to: toggles keep the popup open, `p` and `e` push with
/// the current arguments and close it, Escape closes it.
pub open spec fn push_outcome(args: PushArgs, fwl: bool, event: PushEvent) -> Option<Option<PushRequest>> {
    match event {
        PushEvent::PushToUpstream => Some(Some(PushRequest { args, force_with_lease: fwl, select_remote: false })),
        PushEvent::PushElsewhere => Some(Some(PushRequest { args, force_with_lease: fwl, select_remote: true })),
        PushEvent::Cancel => Some(None),
        _ => None,
    }
}

/// Toggling an argument twice restores the arguments, and toggles never
/// close the popup.
pub proof fn lemma_push_toggle_twice(args: PushArgs, fwl: bool, event: PushEvent)
    requires
        event != PushEvent::PushToUpstream,
        event != PushEvent::PushElsewhere,
        event != PushEvent::Cancel,
    ensures
        push_state_after(push_state_after(args, fwl, event).0, push_state_after(args, fwl, event).1, event) == (args, fwl),
        push_outcome(args, fwl, event) is None,
{
}

/// Each toggle flips exactly its own argument: `-f` `--force-with-lease`,
/// `-F` `--force`, `-h` `--no-verify`, `-n` `--dry-run`, `-u`
/// `--set-upstream`; the other four stay as they were, and the popup stays
/// open.
pub proof fn lemma_push_toggle_flips_only_its_flag(a: PushArgs, fwl: bool)
    ensures
        push_state_after(a, fwl, PushEvent::ToggleForceWithLease) == (a, !fwl),
        push_state_after(a, fwl, PushEvent::ToggleForce).0.force == !a.force,
        push_state_after(a, fwl, PushEvent::ToggleForce).0.skip_hooks == a.skip_hooks,
        push_state_after(a, fwl, PushEvent::ToggleForce).0.dry_run == a.dry_run,
        push_state_after(a, fwl, PushEvent::ToggleForce).0.set_upstream == a.set_upstream,
        push_state_after(a, fwl, PushEvent::ToggleForce).1 == fwl,
        push_state_after(a, fwl, PushEvent::ToggleNoVerify).0.force == a.force,
        push_state_after(a, fwl, PushEvent::ToggleNoVerify).0.skip_hooks == !a.skip_hooks,
        push_state_after(a, fwl, PushEvent::ToggleNoVerify).0.dry_run == a.dry_run,
        push_state_after(a, fwl, PushEvent::ToggleNoVerify).0.set_upstream == a.set_upstream,
        push_state_after(a, fwl, PushEvent::ToggleNoVerify).1 == fwl,
        push_state_after(a, fwl, PushEvent::ToggleDryRun).0.force == a.force,
        push_state_after(a, fwl, PushEvent::ToggleDryRun).0.skip_hooks == a.skip_hooks,
        push_state_after(a, fwl, PushEvent::ToggleDryRun).0.dry_run == !a.dry_run,
        push_state_after(a, fwl, PushEvent::ToggleDryRun).0.set_upstream == a.set_upstream,
        push_state_after(a, fwl, PushEvent::ToggleDryRun).1 == fwl,
        push_state_after(a, fwl, PushEvent::ToggleSetUpstream).0.force == a.force,
        push_state_after(a, fwl, PushEvent::ToggleSetUpstream).0.skip_hooks == a.skip_hooks,
        push_state_after(a, fwl, PushEvent::ToggleSetUpstream).0.dry_run == a.dry_run,
        push_state_after(a, fwl, PushEvent::ToggleSetUpstream).0.set_upstream == !a.set_upstream,
        push_state_after(a, fwl, PushEvent::ToggleSetUpstream).1 == fwl,
        push_outcome(a, fwl, PushEvent::ToggleForceWithLease) is None,
        push_outcome(a, fwl, PushEvent::ToggleForce) is None,
        push_outcome(a, fwl, PushEvent::ToggleNoVerify) is None,
        push_outcome(a, fwl, PushEvent::ToggleDryRun) is None,
        push_outcome(a, fwl, PushEvent::ToggleSetUpstream) is None,
{
}

/// `p` pushes to the upstream and `e` to a remote picked from a list, both
/// with exactly the arguments toggled on so far, and close the popup;
/// Escape closes without pushing. None of them changes the arguments.
pub proof fn lemma_push_runs_with_current_args(a: PushArgs, fwl: bool)
    ensures
        push_outcome(a, fwl, PushEvent::PushToUpstream) == Some(
            Some(PushRequest { args: a, force_with_lease: fwl, select_remote: false }),
        ),
        push_outcome(a, fwl, PushEvent::PushElsewhere) == Some(
            Some(PushRequest { args: a, force_with_lease: fwl, select_remote: true }),
        ),
        push_outcome(a, fwl, PushEvent::Cancel) == Some(None::<PushRequest>),
        push_state_after(a, fwl, PushEvent::PushToUpstream) == (a, fwl),
        push_state_after(a, fwl, PushEvent::PushElsewhere) == (a, fwl),
        push_state_after(a, fwl, PushEvent::Cancel) == (a, fwl),
{
}

impl PushPopup {
    /// A popup for pushing `from_branch` to `upstream`, no argument enabled.
    pub fn new(from_branch: String, upstream: String) -> (r: Self)
        ensures
            r.args == (PushArgs { force: false, skip_hooks: false, dry_run: false, set_upstream: false }),
            !r.force_with_lease,
            r.from_branch == from_branch,
            r.upstream == upstream,
    {
        PushPopup {
            args: PushArgs { force: false, skip_hooks: false, dry_run: false, set_upstream: false },
            force_with_lease: false,
            from_branch,
            upstream,
        }
    }

    /// Handles a key press.
    pub fn handle(&mut self, event: PushEvent) -> (r: Outcome<PushRequest>)
        ensures
            (final(self).args, final(self).force_with_lease) == push_state_after(
                old(self).args,
                old(self).force_with_lease,
                event,
            ),
            final(self).from_branch == old(self).from_branch,
            final(self).upstream == old(self).upstream,
            outcome_view(r) == push_outcome(old(self).args, old(self).force_with_lease, event),
    {
        match event {
            PushEvent::ToggleForceWithLease => {
                self.force_with_lease = !self.force_with_lease;
                Outcome::Stay
            },
            PushEvent::ToggleForce => {
                self.args.force = !self.args.force;
                Outcome::Stay
            },
            PushEvent::ToggleNoVerify => {
                self.args.skip_hooks = !self.args.skip_hooks;
                Outcome::Stay
            },
            PushEvent::ToggleDryRun => {
                self.args.dry_run = !self.args.dry_run;
                Outcome::Stay
            },
            PushEvent::ToggleSetUpstream => {
                self.args.set_upstream = !self.args.set_upstream;
                Outcome::Stay
            },
            PushEvent::PushToUpstream => Outcome::Run(
                PushRequest { args: self.args, force_with_lease: self.force_with_lease, select_remote: false },
            ),
            PushEvent::PushElsewhere => Outcome::Run(
                PushRequest { args: self.args, force_with_lease: self.force_with_lease, select_remote: true },
            ),
            PushEvent::Cancel => Outcome::Dismiss,
        }
    }

    /// The argument rows, in display order.
    pub fn arguments(&self) -> (r: Vec<ArgumentRow>)
        ensures
            arguments_view(r@) == seq![
                ("-f"@, "Force with lease"@, "(--force-with-lease)"@, self.force_with_lease),
                ("-F"@, "Force"@, "(--force)"@, self.args.force),
                ("-h"@, "Disable hooks"@, "(--no-verify)"@, self.args.skip_hooks),
                ("-n"@, "Dry run"@, "(--dry-run)"@, self.args.dry_run),
                ("-u"@, "Set upstream"@, "(--set-upstream)"@, self.args.set_upstream),
            ],
    {
        let r = vec![
            argument("-f", "Force with lease", "(--force-with-lease)", self.force_with_lease),
            argument("-F", "Force", "(--force)", self.args.force),
            argument("-h", "Disable hooks", "(--no-verify)", self.args.skip_hooks),
            argument("-n", "Dry run", "(--dry-run)", self.args.dry_run),
            argument("-u", "Set upstream", "(--set-upstream)", self.args.set_upstream),
        ];
        assert(arguments_view(r@) =~= seq![
            ("-f"@, "Force with lease"@, "(--force-with-lease)"@, self.force_with_lease),
            ("-F"@, "Force"@, "(--force)"@, self.args.force),
            ("-h"@, "Disable hooks"@, "(--no-verify)"@, self.args.skip_hooks),
            ("-n"@, "Dry run"@, "(--dry-run)"@, self.args.dry_run),
            ("-u"@, "Set upstream"@, "(--set-upstream)"@, self.args.set_upstream),
        ]);
        r
    }

    /// The action rows: `p` pushes to the upstream, `e` elsewhere.
    pub fn actions(&self) -> (r: Vec<ActionRow>)
        ensures
            actions_view(r@) == seq![("p"@, self.upstream@), ("e"@, "elsewhere"@)],
    {
        let r = vec![action("p", self.upstream.as_str()), action("e", "elsewhere")];
        assert(actions_view(r@) =~= seq![("p"@, self.upstream@), ("e"@, "elsewhere"@)]);
        r
    }
}

} // verus!
