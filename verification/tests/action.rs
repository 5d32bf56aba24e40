use action_pull_request_merge::action::{run, ActionError, Outcome};
use action_pull_request_merge::context::GithubContext;
use action_pull_request_merge::github_client::{
    ClientSession,
    GitRef, GithubClient, Label, MergeRequest, PullRequest,
};
use action_pull_request_merge::inputs::{ActionInputs, MergeMethod};
use action_pull_request_merge::logger::CaptureLogger;
use std::sync::Mutex;

#[derive(Default)]
struct FakeClient {
    pr: Mutex<Option<PullRequest>>,
    get_pull_err: Mutex<Option<String>>,
    fast_forward_err: Mutex<Option<String>>,
    merge_err: Mutex<Option<String>>,
    merge_calls: Mutex<Vec<(u64, MergeRequest)>>,
    fast_forward_calls: Mutex<Vec<(String, String)>>,
    remove_label_calls: Mutex<Vec<(u64, String)>>,
    remove_label_err: Mutex<Option<String>>,
}

impl FakeClient {
    fn with_pr(pr: PullRequest) -> Self {
        Self {
            pr: Mutex::new(Some(pr)),
            ..Default::default()
        }
    }
}

impl GithubClient for FakeClient {
    fn get_pull(&self, _o: &str, _r: &str, _n: u64) -> Result<PullRequest, String> {
        if let Some(e) = self.get_pull_err.lock().unwrap().clone() {
            return Err(e);
        }
        Ok(self
            .pr
            .lock()
            .unwrap()
            .clone()
            .expect("test forgot to seed PR"))
    }

    fn fast_forward(
        &self,
        _o: &str,
        _r: &str,
        _n: u64,
        base_ref: &str,
        head_sha: &str,
    ) -> Result<(), String> {
        self.fast_forward_calls
            .lock()
            .unwrap()
            .push((base_ref.to_string(), head_sha.to_string()));
        match self.fast_forward_err.lock().unwrap().clone() {
            Some(e) => Err(e),
            None => Ok(()),
        }
    }

    fn merge_pull(&self, _o: &str, _r: &str, number: u64, request: &MergeRequest) -> Result<(), String> {
        self.merge_calls
            .lock()
            .unwrap()
            .push((number, request.clone()));
        match self.merge_err.lock().unwrap().clone() {
            Some(e) => Err(e),
            None => Ok(()),
        }
    }

    fn remove_label(&self, _o: &str, _r: &str, issue_number: u64, label: &str) -> Result<(), String> {
        self.remove_label_calls
            .lock()
            .unwrap()
            .push((issue_number, label.to_string()));
        if let Some(e) = self.remove_label_err.lock().unwrap().clone() {
            return Err(e);
        }
        Ok(())
    }
}

fn open_pr(labels: &[&str]) -> PullRequest {
    PullRequest {
        state: "open".to_string(),
        head: GitRef {
            ref_: "feature".to_string(),
            sha: "abc123".to_string(),
        },
        base: GitRef {
            ref_: "main".to_string(),
            sha: "main111".to_string(),
        },
        labels: labels
            .iter()
            .map(|n| Label {
                name: (*n).to_string(),
            })
            .collect(),
    }
}

fn ctx() -> GithubContext {
    GithubContext {
        owner: "octo".into(),
        repo: "widget".into(),
        actor: "alice".into(),
        api_base_url: "https://api.github.com".into(),
        is_gitea: false,
    }
}

fn inputs(method: MergeMethod, regex: &str, label: &str) -> ActionInputs {
    ActionInputs {
        github_token: "t".into(),
        number: 7,
        merge_method: method,
        allowed_usernames_regex: regex.into(),
        filter_label: label.into(),
        merge_title: "".into(),
        merge_message: "".into(),
    }
}

#[test]
fn skips_when_actor_does_not_match() {
    let client = FakeClient::with_pr(open_pr(&[]));
    let mut log = CaptureLogger::new();
    let out = run(&mut ClientSession::new(&client), &inputs(MergeMethod::Merge, "^bob$", ""), &ctx(), &mut log).unwrap();
    assert_eq!(out, Outcome::SkippedActor);
    assert!(log.contains("does not match"));
    assert!(client.merge_calls.lock().unwrap().is_empty());
}

#[test]
fn skips_when_pr_is_closed() {
    let mut pr = open_pr(&[]);
    pr.state = "closed".into();
    let client = FakeClient::with_pr(pr);
    let mut log = CaptureLogger::new();
    let out = run(&mut ClientSession::new(&client), &inputs(MergeMethod::Merge, "^.*$", ""), &ctx(), &mut log).unwrap();
    assert_eq!(out, Outcome::SkippedClosed);
    assert!(log.contains("closed"));
    assert!(client.merge_calls.lock().unwrap().is_empty());
}

#[test]
fn skips_when_required_label_is_missing() {
    let client = FakeClient::with_pr(open_pr(&["other"]));
    let mut log = CaptureLogger::new();
    let out = run(&mut ClientSession::new(&client),
        &inputs(MergeMethod::Merge, "^.*$", "merge-it"),
        &ctx(),
        &mut log,
    )
    .unwrap();
    assert_eq!(out, Outcome::SkippedLabelMissing);
    assert!(log.contains("does not exist"));
}

#[test]
fn merges_when_label_present_and_removes_label() {
    let client = FakeClient::with_pr(open_pr(&["merge-it"]));
    let mut log = CaptureLogger::new();
    let out = run(&mut ClientSession::new(&client),
        &inputs(MergeMethod::Squash, "^.*$", "merge-it"),
        &ctx(),
        &mut log,
    )
    .unwrap();
    assert_eq!(out, Outcome::Merged);

    let merges = client.merge_calls.lock().unwrap();
    assert_eq!(merges.len(), 1);
    assert_eq!(merges[0].0, 7);
    assert_eq!(merges[0].1.merge_method, "squash");
    assert_eq!(merges[0].1.sha, "abc123");

    let removed = client.remove_label_calls.lock().unwrap();
    assert_eq!(removed.len(), 1);
    assert_eq!(removed[0], (7, "merge-it".to_string()));
}

#[test]
fn merge_without_label_does_not_attempt_label_removal() {
    let client = FakeClient::with_pr(open_pr(&[]));
    let mut log = CaptureLogger::new();
    let out = run(&mut ClientSession::new(&client), &inputs(MergeMethod::Merge, "^.*$", ""), &ctx(), &mut log).unwrap();
    assert_eq!(out, Outcome::Merged);
    assert!(client.remove_label_calls.lock().unwrap().is_empty());
    assert!(log.contains("Label check is disabled"));
}

#[test]
fn fast_forward_calls_update_ref_not_merge() {
    let client = FakeClient::with_pr(open_pr(&[]));
    let mut log = CaptureLogger::new();
    let out = run(&mut ClientSession::new(&client),
        &inputs(MergeMethod::FastForward, "^.*$", ""),
        &ctx(),
        &mut log,
    )
    .unwrap();
    assert_eq!(out, Outcome::FastForwarded);

    let calls = client.fast_forward_calls.lock().unwrap();
    assert_eq!(calls.len(), 1);
    assert_eq!(calls[0], ("main".to_string(), "abc123".to_string()));
    assert!(client.merge_calls.lock().unwrap().is_empty());
    assert!(log.contains("Updating to: heads/main@abc123"));
}

#[test]
fn fast_forward_or_merge_succeeds_with_ff() {
    let client = FakeClient::with_pr(open_pr(&[]));
    let mut log = CaptureLogger::new();
    let out = run(&mut ClientSession::new(&client),
        &inputs(MergeMethod::FastForwardOrMerge, "^.*$", ""),
        &ctx(),
        &mut log,
    )
    .unwrap();
    assert_eq!(out, Outcome::FastForwarded);

    let calls = client.fast_forward_calls.lock().unwrap();
    assert_eq!(calls.len(), 1);
    assert!(client.merge_calls.lock().unwrap().is_empty());
    assert!(log.contains("Fast-forward succeeded"));
}

#[test]
fn fast_forward_or_merge_falls_back_to_merge() {
    let client = FakeClient::with_pr(open_pr(&[]));
    *client.fast_forward_err.lock().unwrap() = Some("not a fast-forward".into());
    let mut log = CaptureLogger::new();
    let out = run(&mut ClientSession::new(&client),
        &inputs(MergeMethod::FastForwardOrMerge, "^.*$", ""),
        &ctx(),
        &mut log,
    )
    .unwrap();
    assert_eq!(out, Outcome::Merged);

    let merges = client.merge_calls.lock().unwrap();
    assert_eq!(merges.len(), 1);
    assert_eq!(merges[0].1.merge_method, "merge");
    assert!(log.contains("falling back to merge"));
    assert!(log.contains("Fast-forward failed (not a fast-forward)"));
}

#[test]
fn label_removal_failure_is_only_a_warning() {
    let client = FakeClient::with_pr(open_pr(&["merge-it"]));
    *client.remove_label_err.lock().unwrap() = Some("nope".into());
    let mut log = CaptureLogger::new();
    let out = run(&mut ClientSession::new(&client),
        &inputs(MergeMethod::Merge, "^.*$", "merge-it"),
        &ctx(),
        &mut log,
    )
    .unwrap();
    assert_eq!(out, Outcome::Merged);
    assert!(log.contains("nope"));
}

#[test]
fn label_filter_supports_regex() {
    let client = FakeClient::with_pr(open_pr(&["release-1.2.3"]));
    let mut log = CaptureLogger::new();
    let out = run(&mut ClientSession::new(&client),
        &inputs(MergeMethod::Merge, "^.*$", "^release-"),
        &ctx(),
        &mut log,
    )
    .unwrap();
    assert_eq!(out, Outcome::Merged);
}

#[test]
fn invalid_username_regex_is_a_hard_error() {
    let client = FakeClient::with_pr(open_pr(&[]));
    let mut log = CaptureLogger::new();
    let err = run(&mut ClientSession::new(&client), &inputs(MergeMethod::Merge, "(", ""), &ctx(), &mut log)
        .unwrap_err()
        .message();
    assert!(err.contains("allowed-usernames-regex"));
}

#[test]
fn merge_failure_propagates() {
    let client = FakeClient::with_pr(open_pr(&[]));
    *client.merge_err.lock().unwrap() = Some("API exploded".into());
    let mut log = CaptureLogger::new();
    let err = run(&mut ClientSession::new(&client), &inputs(MergeMethod::Merge, "^.*$", ""), &ctx(), &mut log).unwrap_err();
    assert!(err.message().contains("merge request failed"));
    assert_eq!(err.full_message(), "merge request failed: API exploded");
}

#[test]
fn removes_the_first_matching_label_not_the_pattern() {
    let client = FakeClient::with_pr(open_pr(&["other", "release-1", "release-2"]));
    let mut log = CaptureLogger::new();
    let out = run(&mut ClientSession::new(&client),
        &inputs(MergeMethod::Rebase, "^.*$", "^release-"),
        &ctx(),
        &mut log,
    )
    .unwrap();
    assert_eq!(out, Outcome::Merged);
    let removed = client.remove_label_calls.lock().unwrap();
    assert_eq!(removed.as_slice(), &[(7, "release-1".to_string())]);
    assert_eq!(client.merge_calls.lock().unwrap()[0].1.merge_method, "rebase");
}

#[test]
fn fetch_failure_fails_the_run() {
    let client = FakeClient::with_pr(open_pr(&[]));
    *client.get_pull_err.lock().unwrap() = Some("HTTP 404".into());
    let mut log = CaptureLogger::new();
    let err = run(&mut ClientSession::new(&client), &inputs(MergeMethod::Merge, "^.*$", ""), &ctx(), &mut log).unwrap_err();
    assert_eq!(err.full_message(), "failed to fetch pull request: HTTP 404");
}

#[test]
fn refused_fast_forward_without_fallback_fails_the_run() {
    let client = FakeClient::with_pr(open_pr(&["ship"]));
    *client.fast_forward_err.lock().unwrap() = Some("not an ancestor".into());
    let mut log = CaptureLogger::new();
    let err = run(&mut ClientSession::new(&client),
        &inputs(MergeMethod::FastForward, "alice", "ship"),
        &ctx(),
        &mut log,
    )
    .unwrap_err();
    assert!(matches!(err, ActionError::FastForward { .. }));
    assert!(client.merge_calls.lock().unwrap().is_empty());
    assert!(client.remove_label_calls.lock().unwrap().is_empty());
}

#[test]
fn failed_fallback_merge_is_reported_as_such() {
    let client = FakeClient::with_pr(open_pr(&[]));
    *client.fast_forward_err.lock().unwrap() = Some("no".into());
    *client.merge_err.lock().unwrap() = Some("conflict".into());
    let mut log = CaptureLogger::new();
    let err = run(&mut ClientSession::new(&client),
        &inputs(MergeMethod::FastForwardOrMerge, "^.*$", ""),
        &ctx(),
        &mut log,
    )
    .unwrap_err();
    assert_eq!(
        err.message(),
        "merge request failed (after fast-forward fallback)"
    );
}

#[test]
fn invalid_filter_label_regex_is_a_hard_error() {
    let client = FakeClient::with_pr(open_pr(&["x"]));
    let mut log = CaptureLogger::new();
    let err = run(&mut ClientSession::new(&client), &inputs(MergeMethod::Merge, "^.*$", "[oops"), &ctx(), &mut log)
        .unwrap_err();
    assert_eq!(err.message(), "invalid filter-label regex: [oops");
    assert!(client.merge_calls.lock().unwrap().is_empty());
}

#[test]
fn merge_request_carries_title_and_message() {
    let client = FakeClient::with_pr(open_pr(&[]));
    let mut inp = inputs(MergeMethod::Merge, "^.*$", "");
    inp.merge_title = "title".into();
    inp.merge_message = "body".into();
    let mut log = CaptureLogger::new();
    assert_eq!(run(&mut ClientSession::new(&client), &inp, &ctx(), &mut log).unwrap(), Outcome::Merged);
    let merges = client.merge_calls.lock().unwrap();
    assert_eq!(merges[0].1.commit_title.as_deref(), Some("title"));
    assert_eq!(merges[0].1.commit_message.as_deref(), Some("body"));
}
