//! The `git rebase` popup: rebases the current branch onto its upstream or
//! onto a branch picked from a list, and drives a rebase in progress
//! (continue, skip, abort).

use vstd::prelude::*;
use crate::git_ui::{outcome_view, upstream_label, upstream_label_spec, Outcome};
use crate::ui::{action, argument, actions_view, arguments_view, ActionRow, ArgumentRow};

verus! {

/// The arguments of `git rebase`.
#[derive(PartialEq, Eq, Structural, Clone, Copy, Debug)]
pub struct RebaseArgs {
    pub autostash: bool,
    pub autosquash: bool,
}

/// What to ask of git.
pub enum RebaseRequest {
    /// Rebase onto the named ref with the given arguments.
    Onto { target: String, args: RebaseArgs },
    /// Open the branch list; the branch picked there is rebased onto with
    /// the given arguments.
    PickBranch { args: RebaseArgs },
    Continue { args: RebaseArgs },
    Skip { args: RebaseArgs },
    Abort { args: RebaseArgs },
}

/// A key press in the rebase popup.
#[derive(PartialEq, Eq, Structural, Clone, Copy, Debug)]
pub enum RebaseEvent {
    /// `-a`: toggles `--autostash`.
    ToggleAutostash,
    /// `-s`: toggles `--autosquash`.
    ToggleAutosquash,
    /// `u`: rebases onto the upstream.
    OntoUpstream,
    /// `e`: rebases onto a branch picked from a list.
    OntoElsewhere,
    /// `r`: continues a rebase in progress.
    Continue,
    /// `s`: skips the current commit of a rebase in progress.
    Skip,
    /// `a`: aborts a rebase in progress.
    Abort,
    /// Escape.
    Cancel,
}

/// The rebase popup's state.
pub struct RebasePopup {
    pub args: RebaseArgs,
    /// The branch being rebased.
    pub branch: String,
    /// Its upstream, if it has one.
    pub upstream: Option<String>,
}

/// The view of a request: `(kind, target, args)` with kinds 0 onto, 1 pick a
/// branch, 2 continue, 3 skip, 4 abort.
pub open spec fn request_view(r: RebaseRequest) -> (int, Seq<char>, RebaseArgs) {
    match r {
        RebaseRequest::Onto { target, args } => (0, target@, args),
        RebaseRequest::PickBranch { args } => (1, Seq::<char>::empty(), args),
        RebaseRequest::Continue { args } => (2, Seq::<char>::empty(), args),
        RebaseRequest::Skip { args } => (3, Seq::<char>::empty(), args),
        RebaseRequest::Abort { args } => (4, Seq::<char>::empty(), args),
    }
}

/// The arguments after `event`.
pub open spec fn rebase_args_after(args: RebaseArgs, event: RebaseEvent) -> RebaseArgs {
    match event {
        RebaseEvent::ToggleAutostash => RebaseArgs { autostash: !args.autostash, ..args },
        RebaseEvent::ToggleAutosquash => RebaseArgs { autosquash: !args.autosquash, ..args },
        _ => args,
    }
}

/// What `event` leads to. Rebasing onto the upstream does nothing (and keeps
/// the popup open) when there is no upstream.
pub open spec fn rebase_outcome(args: RebaseArgs, upstream: Option<Seq<char>>, event: RebaseEvent) -> Option<Option<(int, Seq<char>, RebaseArgs)>> {
    match event {
        RebaseEvent::OntoUpstream => match upstream {
            Some(u) => Some(Some((0, u, args))),
            None => None,
        },
        RebaseEvent::OntoElsewhere => Some(Some((1, Seq::<char>::empty(), args))),
        RebaseEvent::Continue => Some(Some((2, Seq::<char>::empty(), args))),
        RebaseEvent::Skip => Some(Some((3, Seq::<char>::empty(), args))),
        RebaseEvent::Abort => Some(Some((4, Seq::<char>::empty(), args))),
        RebaseEvent::Cancel => Some(None),
        _ => None,
    }
}

/// The view of a rebase outcome.
pub open spec fn rebase_outcome_view(o: Outcome<RebaseRequest>) -> Option<Option<(int, Seq<char>, RebaseArgs)>> {
    match o {
        Outcome::Stay => None,
        Outcome::Run(r) => Some(Some(request_view(r))),
        Outcome::Dismiss => Some(None),
    }
}

/// Toggling an argument twice restores the arguments, and toggles never
/// close the popup.
pub proof fn lemma_rebase_toggle_twice(args: RebaseArgs, upstream: Option<Seq<char>>, event: RebaseEvent)
    requires
        event == RebaseEvent::ToggleAutostash || event == RebaseEvent::ToggleAutosquash,
    ensures
        rebase_args_after(rebase_args_after(args, event), event) == args,
        rebase_outcome(args, upstream, event) is None,
{
}

/// `-a` flips exactly `--autostash` and `-s` exactly `--autosquash`; the
/// other stays as it was, and the popup stays open.
pub proof fn lemma_rebase_toggle_flips_only_its_flag(a: RebaseArgs, upstream: Option<Seq<char>>)
    ensures
        rebase_args_after(a, RebaseEvent::ToggleAutostash).autostash == !a.autostash,
        rebase_args_after(a, RebaseEvent::ToggleAutostash).autosquash == a.autosquash,
        rebase_args_after(a, RebaseEvent::ToggleAutosquash).autostash == a.autostash,
        rebase_args_after(a, RebaseEvent::ToggleAutosquash).autosquash == !a.autosquash,
        rebase_outcome(a, upstream, RebaseEvent::ToggleAutostash) is None,
        rebase_outcome(a, upstream, RebaseEvent::ToggleAutosquash) is None,
{
}

/// Every rebase request carries exactly the arguments toggled on so far:
/// `u` rebases onto the upstream (and does nothing without one), `e` onto a
/// picked branch, and `r`, `s`, `a` continue, skip and abort; each closes
/// the popup, as Escape does. None of them changes the arguments.
pub proof fn lemma_rebase_runs_with_current_args(a: RebaseArgs, upstream: Option<Seq<char>>, event: RebaseEvent)
    requires
        event != RebaseEvent::ToggleAutostash,
        event != RebaseEvent::ToggleAutosquash,
    ensures
        rebase_args_after(a, event) == a,
        rebase_outcome(a, upstream, RebaseEvent::OntoUpstream) == match upstream {
            Some(u) => Some(Some((0int, u, a))),
            None => None,
        },
        rebase_outcome(a, upstream, RebaseEvent::OntoElsewhere) == Some(Some((1int, Seq::<char>::empty(), a))),
        rebase_outcome(a, upstream, RebaseEvent::Continue) == Some(Some((2int, Seq::<char>::empty(), a))),
        rebase_outcome(a, upstream, RebaseEvent::Skip) == Some(Some((3int, Seq::<char>::empty(), a))),
        rebase_outcome(a, upstream, RebaseEvent::Abort) == Some(Some((4int, Seq::<char>::empty(), a))),
        rebase_outcome(a, upstream, RebaseEvent::Cancel) == Some(None::<(int, Seq<char>, RebaseArgs)>),
{
}

impl RebasePopup {
    /// A popup for rebasing `branch`, whose upstream is `upstream`, with no
    /// argument enabled.
    pub fn new(branch: String, upstream: Option<String>) -> (r: Self)
        ensures
            r.args == (RebaseArgs { autostash: false, autosquash: false }),
            r.branch == branch,
            r.upstream == upstream,
    {
        RebasePopup { args: RebaseArgs { autostash: false, autosquash: false }, branch, upstream }
    }

    /// Handles a key press.
    pub fn handle(&mut self, event: RebaseEvent) -> (r: Outcome<RebaseRequest>)
        ensures
            final(self).args == rebase_args_after(old(self).args, event),
            final(self).branch == old(self).branch,
            final(self).upstream == old(self).upstream,
            rebase_outcome_view(r) == rebase_outcome(
                old(self).args,
                match old(self).upstream {
                    Some(u) => Some(u@),
                    None => None,
                },
                event,
            ),
    {
        let args = self.args;
        match event {
            RebaseEvent::ToggleAutostash => {
                self.args.autostash = !self.args.autostash;
                Outcome::Stay
            },
            RebaseEvent::ToggleAutosquash => {
                self.args.autosquash = !self.args.autosquash;
                Outcome::Stay
            },
            RebaseEvent::OntoUpstream => match &self.upstream {
                Some(u) => Outcome::Run(RebaseRequest::Onto { target: u.clone(), args }),
                None => Outcome::Stay,
            },
            RebaseEvent::OntoElsewhere => Outcome::Run(RebaseRequest::PickBranch { args }),
            RebaseEvent::Continue => Outcome::Run(RebaseRequest::Continue { args }),
            RebaseEvent::Skip => Outcome::Run(RebaseRequest::Skip { args }),
            RebaseEvent::Abort => Outcome::Run(RebaseRequest::Abort { args }),
            RebaseEvent::Cancel => Outcome::Dismiss,
        }
    }

    /// The argument rows, in display order.
    pub fn arguments(&self) -> (r: Vec<ArgumentRow>)
        ensures
            arguments_view(r@) == seq![
                ("-a"@, "Autostash"@, "(--autostash)"@, self.args.autostash),
                ("-s"@, "Autosquash"@, "(--autosquash)"@, self.args.autosquash),
            ],
    {
        let r = vec![
            argument("-a", "Autostash", "(--autostash)", self.args.autostash),
            argument("-s", "Autosquash", "(--autosquash)", self.args.autosquash),
        ];
        assert(arguments_view(r@) =~= seq![
            ("-a"@, "Autostash"@, "(--autostash)"@, self.args.autostash),
            ("-s"@, "Autosquash"@, "(--autosquash)"@, self.args.autosquash),
        ]);
        r
    }

    /// The rows for choosing what to rebase onto: `u` for the upstream (or a
    /// note that there is none), `e` for elsewhere.
    pub fn onto_actions(&self) -> (r: Vec<ActionRow>)
        ensures
            actions_view(r@) == seq![
                ("u"@, upstream_label_spec(match self.upstream { Some(u) => Some(u@), None => None })),
                ("e"@, "elsewhere"@),
            ],
    {
        let label = match &self.upstream {
            Some(u) => upstream_label(Some(u.as_str())),
            None => upstream_label(None),
        };
        let r = vec![action("u", label.as_str()), action("e", "elsewhere")];
        assert(actions_view(r@) =~= seq![
            ("u"@, upstream_label_spec(match self.upstream { Some(u) => Some(u@), None => None })),
            ("e"@, "elsewhere"@),
        ]);
        r
    }

    /// The rows for a rebase in progress.
    pub fn in_progress_actions(&self) -> (r: Vec<ActionRow>)
        ensures
            actions_view(r@) == seq![("r"@, "Continue"@), ("s"@, "Skip"@), ("a"@, "Abort"@)],
    {
        let r = vec![action("r", "Continue"), action("s", "Skip"), action("a", "Abort")];
        assert(actions_view(r@) =~= seq![("r"@, "Continue"@), ("s"@, "Skip"@), ("a"@, "Abort"@)]);
        r
    }
}

} // verus!
