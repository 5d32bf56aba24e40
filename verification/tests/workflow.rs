use action_pull_request_merge::action::{
    advance, begin, on_fast_forward_done, on_label_removal_done, on_merge_done, on_pull, Action,
    ActionError, Event, Outcome, RunState,
};
use action_pull_request_merge::context::GithubContext;
use action_pull_request_merge::github_client::{GitRef, Label, MergeRequest, PullRequest};
use action_pull_request_merge::inputs::{input_names, ActionInputs, MergeMethod};
use action_pull_request_merge::logger::LogLevel;

fn pr(state: &str, labels: &[&str]) -> PullRequest {
    PullRequest {
        state: state.into(),
        head: GitRef { ref_: "topic".into(), sha: "abc123".into() },
        base: GitRef { ref_: "main".into(), sha: "def456".into() },
        labels: labels.iter().map(|n| Label { name: n.to_string() }).collect(),
    }
}

fn inputs(method: MergeMethod, label: &str) -> ActionInputs {
    ActionInputs {
        github_token: "t".into(),
        number: 9,
        merge_method: method,
        allowed_usernames_regex: "^a".into(),
        filter_label: label.into(),
        merge_title: "T".into(),
        merge_message: " ".into(),
    }
}

fn ctx(actor: &str) -> GithubContext {
    GithubContext {
        owner: "o".into(),
        repo: "r".into(),
        actor: actor.into(),
        api_base_url: "https://api.github.com".into(),
        is_gitea: false,
    }
}

#[test]
fn first_step_fetches_only_for_allowed_actor() {
    let s = begin(&inputs(MergeMethod::Merge, ""), &ctx("alice"));
    assert!(matches!(s.state, RunState::AwaitingPull));
    assert!(matches!(s.action, Action::GetPull { number: 9 }));
    assert_eq!(s.logs.len(), 1);
    assert_eq!(s.logs[0].message, "Username matched.");

    let s = begin(&inputs(MergeMethod::Merge, ""), &ctx("bob"));
    assert!(matches!(s.action, Action::Finish { result: Ok(Outcome::SkippedActor) }));
    assert_eq!(s.logs[0].level, LogLevel::Warning);
}

#[test]
fn unanchored_username_regex_matches_anywhere() {
    let mut i = inputs(MergeMethod::Merge, "");
    i.allowed_usernames_regex = "li".into();
    let s = begin(&i, &ctx("alice"));
    assert!(matches!(s.action, Action::GetPull { .. }));
}

#[test]
fn open_pull_with_label_plans_the_merge_and_remembers_the_label() {
    let s = on_pull(&inputs(MergeMethod::Squash, "^ship"), Ok(pr("open", &["x", "ship-it"])));
    match s.action {
        Action::MergePull { number, request } => {
            assert_eq!(number, 9);
            assert_eq!(request.merge_method, "squash");
            assert_eq!(request.sha, "abc123");
            assert_eq!(request.commit_title.as_deref(), Some("T"));
            assert!(request.commit_message.is_none());
        }
        other => panic!("unexpected {:?}", other),
    }
    match s.state {
        RunState::AwaitingMerge { after_fallback, label } => {
            assert!(!after_fallback);
            assert_eq!(label.as_deref(), Some("ship-it"));
        }
        other => panic!("unexpected {:?}", other),
    }
    let msgs: Vec<&str> = s.logs.iter().map(|l| l.message.as_str()).collect();
    assert_eq!(msgs, vec!["The pull-request is open.", "Label matched."]);
}

#[test]
fn fetch_error_and_closed_pull_end_the_run() {
    let s = on_pull(&inputs(MergeMethod::Merge, ""), Err("boom".into()));
    match s.action {
        Action::Finish { result: Err(ActionError::FetchPull { cause }) } => assert_eq!(cause, "boom"),
        other => panic!("unexpected {:?}", other),
    }
    let s = on_pull(&inputs(MergeMethod::Merge, "x"), Ok(pr("closed", &["x"])));
    assert!(matches!(s.action, Action::Finish { result: Ok(Outcome::SkippedClosed) }));
}

#[test]
fn fast_forward_or_merge_plans_a_fallback_merge() {
    let s = on_pull(&inputs(MergeMethod::FastForwardOrMerge, ""), Ok(pr("open", &[])));
    match &s.action {
        Action::FastForward { number, base_ref, head_sha } => {
            assert_eq!((*number, base_ref.as_str(), head_sha.as_str()), (9, "main", "abc123"));
        }
        other => panic!("unexpected {:?}", other),
    }
    let (fallback, label) = match s.state {
        RunState::AwaitingFastForward { fallback, label } => (fallback, label),
        other => panic!("unexpected {:?}", other),
    };
    assert_eq!(fallback.as_ref().unwrap().merge_method, "merge");
    assert!(label.is_none());
    assert_eq!(s.logs.last().unwrap().message, "Attempting fast-forward: heads/main@abc123");

    let next = on_fast_forward_done(
        &inputs(MergeMethod::FastForwardOrMerge, ""),
        fallback,
        label,
        Err("not ff".into()),
    );
    assert!(matches!(next.state, RunState::AwaitingMerge { after_fallback: true, .. }));
    match next.action {
        Action::MergePull { request, .. } => {
            assert_eq!(request.merge_method, "merge");
            assert_eq!(request.sha, "abc123");
        }
        other => panic!("unexpected {:?}", other),
    }
    assert_eq!(next.logs[0].message, "Fast-forward failed (not ff), falling back to merge.");
}

#[test]
fn successful_write_removes_label_only_when_one_is_planned() {
    let i = inputs(MergeMethod::Merge, "l");
    let s = on_merge_done(&i, false, Some("l".into()), Ok(()));
    assert!(matches!(s.state, RunState::AwaitingLabelRemoval { outcome: Outcome::Merged }));
    match s.action {
        Action::RemoveLabel { number, label } => assert_eq!((number, label.as_str()), (9, "l")),
        other => panic!("unexpected {:?}", other),
    }
    let s = on_merge_done(&i, false, None, Ok(()));
    assert!(matches!(s.action, Action::Finish { result: Ok(Outcome::Merged) }));
    let s = on_fast_forward_done(&i, None, None, Ok(()));
    assert!(matches!(s.action, Action::Finish { result: Ok(Outcome::FastForwarded) }));
    assert!(s.logs.is_empty());
}

#[test]
fn refused_writes_fail_the_run() {
    let i = inputs(MergeMethod::Merge, "");
    let s = on_merge_done(&i, true, None, Err("409".into()));
    match s.action {
        Action::Finish { result: Err(e) } => {
            assert_eq!(e.full_message(), "merge request failed (after fast-forward fallback): 409")
        }
        other => panic!("unexpected {:?}", other),
    }
    let s = on_fast_forward_done(&i, None, Some("l".into()), Err("no".into()));
    match s.action {
        Action::Finish { result: Err(e) } => assert_eq!(e.full_message(), "fast-forward update_ref failed: no"),
        other => panic!("unexpected {:?}", other),
    }
}

#[test]
fn label_removal_failure_keeps_the_outcome() {
    let s = on_label_removal_done(Outcome::FastForwarded, Err("gone".into()));
    assert!(matches!(s.action, Action::Finish { result: Ok(Outcome::FastForwarded) }));
    assert_eq!(s.logs.len(), 1);
    assert_eq!(s.logs[0].level, LogLevel::Warning);
    assert_eq!(s.logs[0].message, "gone");
    let s = on_label_removal_done(Outcome::FastForwarded, Ok(()));
    assert!(matches!(s.action, Action::Finish { result: Ok(Outcome::FastForwarded) }));
    assert!(s.logs.is_empty());
}

#[test]
fn advance_walks_a_whole_run() {
    let i = inputs(MergeMethod::Rebase, "ship");
    let c = ctx("alice");
    let s1 = advance(&i, &c, RunState::Start, Event::Begin);
    assert!(matches!(s1.action, Action::GetPull { .. }));
    let s2 = advance(&i, &c, s1.state, Event::PullFetched(Ok(pr("open", &["ship"]))));
    assert!(matches!(s2.action, Action::MergePull { .. }));
    let s3 = advance(&i, &c, s2.state, Event::MergeDone(Ok(())));
    assert!(matches!(s3.action, Action::RemoveLabel { .. }));
    let s4 = advance(&i, &c, s3.state, Event::LabelRemovalDone(Err("x".into())));
    assert!(matches!(s4.action, Action::Finish { result: Ok(Outcome::Merged) }));
    assert!(matches!(s4.state, RunState::Finished));
}

#[test]
fn lists_every_input_name() {
    assert_eq!(
        input_names(),
        vec![
            "github-token",
            "number",
            "merge-method",
            "allowed-usernames-regex",
            "filter-label",
            "merge-title",
            "merge-message"
        ]
    );
}

#[test]
fn merge_request_clone_keeps_fields() {
    let r = MergeRequest::from_inputs(MergeMethod::Squash, "s", "t", "m");
    let c = r.clone();
    assert_eq!(c.merge_method, "squash");
    assert_eq!(c.commit_message.as_deref(), Some("m"));
}
