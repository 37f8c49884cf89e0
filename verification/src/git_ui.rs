//! Magit-style transient popups for git, shown in the minibuffer, and the
//! status-bar items that report on the repository.
//!
//! Each popup is a small state machine: a key press is an event, and handling
//! it gives the popup's next state and what to do: nothing (the popup stays
//! open), run a git operation and close, or just close.

pub mod pull_popup;
pub mod push_popup;
pub mod rebase_popup;
pub mod reset_popup;
pub mod stash_popup;
pub mod status;

use vstd::prelude::*;
use crate::text::to_owned_string;

verus! {

/// What handling a popup event leads to.
pub enum Outcome<A> {
    /// The popup stays open.
    Stay,
    /// Run the request, then close the popup.
    Run(A),
    /// Close the popup.
    Dismiss,
}

/// The view of an outcome: `None` to stay, `Some(None)` to close, and
/// `Some(Some(a))` to run `a` and close.
pub open spec fn outcome_view<A>(o: Outcome<A>) -> Option<Option<A>> {
    match o {
        Outcome::Stay => None,
        Outcome::Run(a) => Some(Some(a)),
        Outcome::Dismiss => Some(None),
    }
}

/// The label for the current branch: its name, or `HEAD` when detached.
pub open spec fn branch_label_spec(name: Option<Seq<char>>) -> Seq<char> {
    match name {
        Some(n) => n,
        None => "HEAD"@,
    }
}

/// The name shown for an upstream: its ref name without the
/// `refs/remotes/` prefix (`stripped`, when the ref has that prefix), or the
/// full ref name.
pub open spec fn upstream_name_spec(stripped: Option<Seq<char>>, ref_name: Seq<char>) -> Seq<char> {
    match stripped {
        Some(s) => s,
        None => ref_name,
    }
}

/// The label for a branch's upstream, or a note that there is none.
pub open spec fn upstream_label_spec(upstream: Option<Seq<char>>) -> Seq<char> {
    match upstream {
        Some(u) => u,
        None => "no upstream configured"@,
    }
}

/// The label for the current branch.
pub fn branch_label(name: Option<&str>) -> (r: String)
    ensures
        r@ == branch_label_spec(
            match name {
                Some(n) => Some(n@),
                None => None,
            },
        ),
{
    match name {
        Some(n) => to_owned_string(n),
        None => to_owned_string("HEAD"),
    }
}

/// The name shown for an upstream whose ref is `ref_name`; `stripped` is that
/// ref without its `refs/remotes/` prefix, when it has one.
pub fn upstream_name(stripped: Option<&str>, ref_name: &str) -> (r: String)
    ensures
        r@ == upstream_name_spec(
            match stripped {
                Some(s) => Some(s@),
                None => None,
            },
            ref_name@,
        ),
{
    match stripped {
        Some(s) => to_owned_string(s),
        None => to_owned_string(ref_name),
    }
}

/// The label for an upstream, or a note that there is none.
pub fn upstream_label(upstream: Option<&str>) -> (r: String)
    ensures
        r@ == upstream_label_spec(
            match upstream {
                Some(u) => Some(u@),
                None => None,
            },
        ),
{
    match upstream {
        Some(u) => to_owned_string(u),
        None => to_owned_string("no upstream configured"),
    }
}

} // verus!
