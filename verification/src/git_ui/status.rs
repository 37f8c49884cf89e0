//! What the git remote status-bar item shows: the progress or result of a
//! push, pull or fetch.

use vstd::prelude::*;
use crate::text::append_str;
use crate::ui::Color;

verus! {

/// The icons the remote status shows.
#[derive(PartialEq, Eq, Structural, Clone, Copy, Debug)]
pub enum StatusIcon {
    /// A spinning circle, while an operation runs.
    LoadCircle,
    /// A cross, for a failed operation.
    XCircle,
    /// A check mark, for a finished operation.
    Check,
}

/// An operation that is running, or that has finished, described by the
/// labels its kind provides.
pub struct RemoteOperation {
    /// Such as `Pushing`.
    pub in_progress_label: String,
    /// Such as `Push`.
    pub name: String,
    /// Such as `Pushed`.
    pub finished_label: String,
}

/// What the remote status shows: an icon, its colour, and a message in the
/// muted colour.
pub struct RemoteStatusView {
    pub icon: StatusIcon,
    pub icon_color: Color,
    pub message: String,
}

/// What the remote status shows, if anything: a running operation as a
/// spinner and `<label>…`; otherwise the last result, as a red cross and
/// `<name> failed` or a green check and the finished label.
pub open spec fn remote_status_spec(
    in_progress: Option<Seq<char>>,
    result: Option<(bool, Seq<char>, Seq<char>)>,
) -> Option<(StatusIcon, Color, Seq<char>)> {
    match in_progress {
        Some(label) => Some((StatusIcon::LoadCircle, Color::Muted, label + "…"@)),
        None => match result {
            Some((is_error, name, finished)) => if is_error {
                Some((StatusIcon::XCircle, Color::Error, name + " failed"@))
            } else {
                Some((StatusIcon::Check, Color::Success, finished))
            },
            None => None,
        },
    }
}

/// A running operation is always shown, as a muted spinner and its label
/// followed by `…`, whatever the last result was (or if there is none).
pub proof fn lemma_running_operation_is_shown(label: Seq<char>, result: Option<(bool, Seq<char>, Seq<char>)>)
    ensures
        remote_status_spec(Some(label), result) == Some((StatusIcon::LoadCircle, Color::Muted, label + "…"@)),
{
}

/// With nothing running, the last result is shown: a failure as a red cross
/// and `<name> failed`, a success as a green check and its finished label;
/// with no result either, nothing is shown. Only a running operation shows
/// a spinner.
pub proof fn lemma_idle_status_shows_last_result(name: Seq<char>, finished: Seq<char>)
    ensures
        remote_status_spec(None, Some((true, name, finished))) == Some(
            (StatusIcon::XCircle, Color::Error, name + " failed"@),
        ),
        remote_status_spec(None, Some((false, name, finished))) == Some(
            (StatusIcon::Check, Color::Success, finished),
        ),
        remote_status_spec(None, None) is None,
        forall|r: Option<(bool, Seq<char>, Seq<char>)>|
            #[trigger] remote_status_spec(None, r) matches Some(v) ==> v.0 != StatusIcon::LoadCircle,
{
}

/// What the remote status shows, given the running operation (if any) and
/// the last result (if any) with whether it failed.
pub fn remote_status(
    in_progress: Option<&RemoteOperation>,
    result: Option<(bool, &RemoteOperation)>,
) -> (r: Option<RemoteStatusView>)
    ensures
        match remote_status_spec(
            match in_progress {
                Some(op) => Some(op.in_progress_label@),
                None => None,
            },
            match result {
                Some((e, op)) => Some((e, op.name@, op.finished_label@)),
                None => None,
            },
        ) {
            Some((icon, color, message)) => r is Some && r->0.icon == icon && r->0.icon_color
                == color && r->0.message@ == message,
            None => r is None,
        },
{
    match in_progress {
        Some(op) => {
            let mut message = op.in_progress_label.clone();
            append_str(&mut message, "…");
            Some(RemoteStatusView { icon: StatusIcon::LoadCircle, icon_color: Color::Muted, message })
        },
        None => match result {
            Some((is_error, op)) => if is_error {
                let mut message = op.name.clone();
                append_str(&mut message, " failed");
                Some(RemoteStatusView { icon: StatusIcon::XCircle, icon_color: Color::Error, message })
            } else {
                Some(
                    RemoteStatusView {
                        icon: StatusIcon::Check,
                        icon_color: Color::Success,
                        message: op.finished_label.clone(),
                    },
                )
            },
            None => None,
        },
    }
}

} // verus!
