use zed_fork_logic::git_ui::pull_popup::{PullArgs, PullEvent, PullPopup};
use zed_fork_logic::git_ui::push_popup::{PushArgs, PushEvent, PushPopup, PushRequest};
use zed_fork_logic::git_ui::rebase_popup::{RebaseArgs, RebaseEvent, RebasePopup, RebaseRequest};
use zed_fork_logic::git_ui::reset_popup::{ResetMode, ResetPopup, ResetRequest};
use zed_fork_logic::git_ui::stash_popup::{StashEvent, StashPopup, StashRequest};
use zed_fork_logic::git_ui::status::{remote_status, RemoteOperation, StatusIcon};
use zed_fork_logic::git_ui::{branch_label, upstream_label, upstream_name, Outcome};
use zed_fork_logic::ui::{argument_colors, ActionRow, ArgumentRow, Color};

fn args(rows: &[ArgumentRow]) -> Vec<(&str, &str, &str, bool)> {
    rows.iter().map(|r| (r.key, r.description, r.flag, r.active)).collect()
}

fn actions(rows: &[ActionRow]) -> Vec<(String, String)> {
    rows.iter().map(|r| (r.key.clone(), r.description.clone())).collect()
}

fn pair(a: &str, b: &str) -> (String, String) {
    (a.to_string(), b.to_string())
}

#[test]
fn branch_and_upstream_labels() {
    assert_eq!(branch_label(Some("main")), "main");
    assert_eq!(branch_label(None), "HEAD");
    assert_eq!(upstream_name(Some("origin/main"), "refs/remotes/origin/main"), "origin/main");
    assert_eq!(upstream_name(None, "refs/heads/x"), "refs/heads/x");
    assert_eq!(upstream_label(Some("origin/main")), "origin/main");
    assert_eq!(upstream_label(None), "no upstream configured");
}

#[test]
fn pull_toggles_and_pulls() {
    let mut popup = PullPopup::new("main".to_string(), "origin/main".to_string());
    assert_eq!(popup.args, PullArgs::none());
    assert!(matches!(popup.handle(PullEvent::ToggleRebase), Outcome::Stay));
    assert!(matches!(popup.handle(PullEvent::ToggleForce), Outcome::Stay));
    assert!(popup.args.rebase && popup.args.force && !popup.args.ff_only);
    assert_eq!(
        args(&popup.arguments()),
        vec![
            ("-f", "Fast-forward only", "(--ff-only)", false),
            ("-r", "Rebase local commits", "(--rebase)", true),
            ("-a", "Autostash", "(--autostash)", false),
            ("-F", "Force", "(--force)", true),
        ]
    );
    assert!(matches!(popup.handle(PullEvent::ToggleForce), Outcome::Stay));
    assert!(!popup.args.force);
    match popup.handle(PullEvent::PullFromUpstream) {
        Outcome::Run(a) => assert_eq!(a, PullArgs { ff_only: false, rebase: true, autostash: false, force: false }),
        _ => panic!("expected a pull"),
    }
    assert!(matches!(popup.handle(PullEvent::Cancel), Outcome::Dismiss));
    assert_eq!(actions(&popup.actions()), vec![pair("p", "origin/main"), pair("u", "origin/main")]);
}

#[test]
fn push_toggles_and_pushes() {
    let mut popup = PushPopup::new("feature".to_string(), "origin/feature".to_string());
    popup.handle(PushEvent::ToggleForceWithLease);
    popup.handle(PushEvent::ToggleNoVerify);
    popup.handle(PushEvent::ToggleDryRun);
    popup.handle(PushEvent::ToggleDryRun);
    assert_eq!(
        args(&popup.arguments()),
        vec![
            ("-f", "Force with lease", "(--force-with-lease)", true),
            ("-F", "Force", "(--force)", false),
            ("-h", "Disable hooks", "(--no-verify)", true),
            ("-n", "Dry run", "(--dry-run)", false),
            ("-u", "Set upstream", "(--set-upstream)", false),
        ]
    );
    let expected_args = PushArgs { force: false, skip_hooks: true, dry_run: false, set_upstream: false };
    match popup.handle(PushEvent::PushToUpstream) {
        Outcome::Run(r) => assert_eq!(r, PushRequest { args: expected_args, force_with_lease: true, select_remote: false }),
        _ => panic!("expected a push"),
    }
    match popup.handle(PushEvent::PushElsewhere) {
        Outcome::Run(r) => assert_eq!(r, PushRequest { args: expected_args, force_with_lease: true, select_remote: true }),
        _ => panic!("expected a push"),
    }
    assert!(matches!(popup.handle(PushEvent::Cancel), Outcome::Dismiss));
    assert_eq!(actions(&popup.actions()), vec![pair("p", "origin/feature"), pair("e", "elsewhere")]);
}

#[test]
fn rebase_onto_upstream_needs_an_upstream() {
    let mut popup = RebasePopup::new("feature".to_string(), None);
    assert!(matches!(popup.handle(RebaseEvent::OntoUpstream), Outcome::Stay));
    assert_eq!(actions(&popup.onto_actions()), vec![pair("u", "no upstream configured"), pair("e", "elsewhere")]);

    let mut popup = RebasePopup::new("feature".to_string(), Some("origin/main".to_string()));
    popup.handle(RebaseEvent::ToggleAutosquash);
    let with = RebaseArgs { autostash: false, autosquash: true };
    match popup.handle(RebaseEvent::OntoUpstream) {
        Outcome::Run(RebaseRequest::Onto { target, args }) => {
            assert_eq!(target, "origin/main");
            assert_eq!(args, with);
        }
        _ => panic!("expected a rebase"),
    }
    assert!(matches!(popup.handle(RebaseEvent::OntoElsewhere), Outcome::Run(RebaseRequest::PickBranch { args }) if args == with));
    assert!(matches!(popup.handle(RebaseEvent::Continue), Outcome::Run(RebaseRequest::Continue { .. })));
    assert!(matches!(popup.handle(RebaseEvent::Skip), Outcome::Run(RebaseRequest::Skip { .. })));
    assert!(matches!(popup.handle(RebaseEvent::Abort), Outcome::Run(RebaseRequest::Abort { .. })));
    assert!(matches!(popup.handle(RebaseEvent::Cancel), Outcome::Dismiss));
    assert_eq!(
        args(&popup.arguments()),
        vec![("-a", "Autostash", "(--autostash)", false), ("-s", "Autosquash", "(--autosquash)", true)]
    );
    assert_eq!(actions(&popup.onto_actions()), vec![pair("u", "origin/main"), pair("e", "elsewhere")]);
    assert_eq!(
        actions(&popup.in_progress_actions()),
        vec![pair("r", "Continue"), pair("s", "Skip"), pair("a", "Abort")]
    );
}

#[test]
fn reset_takes_a_mode_then_a_revision() {
    let mut popup = ResetPopup::new();
    assert_eq!(popup.key_context(), "GitResetPopup");
    assert!(matches!(popup.confirm("main"), Outcome::Stay));
    assert!(matches!(popup.reset_from_branch(), Outcome::Stay));
    popup.choose_mode(ResetMode::Hard);
    assert_eq!(popup.key_context(), "GitResetPopupInput");
    assert_eq!(ResetPopup::input_label(ResetMode::Hard), "Reset hard to:");
    match popup.confirm("  ") {
        Outcome::Run(ResetRequest::To { revision, mode }) => {
            assert_eq!(revision, "HEAD");
            assert_eq!(mode, ResetMode::Hard);
        }
        _ => panic!("expected a reset"),
    }
    assert!(popup.mode.is_none());
    popup.choose_mode(ResetMode::Soft);
    match popup.confirm(" HEAD~2 ") {
        Outcome::Run(ResetRequest::To { revision, mode }) => {
            assert_eq!(revision, "HEAD~2");
            assert_eq!(mode, ResetMode::Soft);
        }
        _ => panic!("expected a reset"),
    }
    popup.choose_mode(ResetMode::Mixed);
    assert!(matches!(popup.reset_from_branch(), Outcome::Run(ResetRequest::PickBranch { mode: ResetMode::Mixed })));
    assert!(matches!(popup.cancel(), Outcome::Dismiss));
    assert_eq!(
        actions(&ResetPopup::mode_actions()),
        vec![
            pair("m", "mixed  (--mixed)"),
            pair("s", "soft   (--soft)"),
            pair("h", "hard   (--hard, discards changes)")
        ]
    );
    assert_eq!(actions(&ResetPopup::input_actions()), vec![pair("cmd-b", "pick from branch list")]);
}

#[test]
fn stash_keys_close_the_popup() {
    let popup = StashPopup::new();
    assert!(matches!(popup.handle(StashEvent::Save), Outcome::Run(StashRequest::SaveAll)));
    assert!(matches!(popup.handle(StashEvent::PopLatest), Outcome::Run(StashRequest::Pop)));
    assert!(matches!(popup.handle(StashEvent::ApplyLatest), Outcome::Run(StashRequest::Apply)));
    assert!(matches!(popup.handle(StashEvent::DropLatest), Outcome::Run(StashRequest::DropLatest)));
    assert!(matches!(popup.handle(StashEvent::List), Outcome::Run(StashRequest::OpenList)));
    assert!(matches!(popup.handle(StashEvent::Cancel), Outcome::Dismiss));
    assert_eq!(
        actions(&StashPopup::latest_actions()),
        vec![pair("p", "Pop"), pair("a", "Apply"), pair("k", "Drop")]
    );
}

fn op(a: &str, b: &str, c: &str) -> RemoteOperation {
    RemoteOperation { in_progress_label: a.to_string(), name: b.to_string(), finished_label: c.to_string() }
}

#[test]
fn remote_status_prefers_the_running_operation() {
    let push = op("Pushing", "Push", "Pushed");
    let fetch = op("Fetching", "Fetch", "Fetched");
    let s = remote_status(Some(&push), Some((true, &fetch))).unwrap();
    assert_eq!(s.icon, StatusIcon::LoadCircle);
    assert_eq!(s.icon_color, Color::Muted);
    assert_eq!(s.message, "Pushing…");
    let s = remote_status(None, Some((true, &fetch))).unwrap();
    assert_eq!((s.icon, s.icon_color, s.message.as_str()), (StatusIcon::XCircle, Color::Error, "Fetch failed"));
    let s = remote_status(None, Some((false, &fetch))).unwrap();
    assert_eq!((s.icon, s.icon_color, s.message.as_str()), (StatusIcon::Check, Color::Success, "Fetched"));
    assert!(remote_status(None, None).is_none());
}

#[test]
fn argument_row_colors() {
    assert_eq!(argument_colors(true), (Color::Default, Color::Accent));
    assert_eq!(argument_colors(false), (Color::Muted, Color::Disabled));
}
