use action_pull_request_merge::action::{run, Outcome};
use action_pull_request_merge::context::GithubContext;
use action_pull_request_merge::github_client::{
    ClientSession,
    GitRef, GithubClient, Label, MergeRequest, PullRequest,
};
use action_pull_request_merge::inputs::{ActionInputs, MapSource, MergeMethod};
use action_pull_request_merge::logger::CaptureLogger;
use std::sync::Mutex;

#[derive(Default)]
struct FakeClient {
    pr: Mutex<Option<PullRequest>>,
    merge_calls: Mutex<Vec<MergeRequest>>,
    update_ref_calls: Mutex<Vec<(String, String)>>,
    remove_label_calls: Mutex<Vec<String>>,
}

impl GithubClient for FakeClient {
    fn get_pull(&self, _o: &str, _r: &str, _n: u64) -> Result<PullRequest, String> {
        Ok(self.pr.lock().unwrap().clone().unwrap())
    }
    fn fast_forward(&self, _o: &str, _r: &str, _n: u64, base_ref: &str, sha: &str) -> Result<(), String> {
        self.update_ref_calls
            .lock()
            .unwrap()
            .push((format!("heads/{}", base_ref), sha.to_string()));
        Ok(())
    }
    fn merge_pull(&self, _o: &str, _r: &str, _n: u64, request: &MergeRequest) -> Result<(), String> {
        self.merge_calls.lock().unwrap().push(request.clone());
        Ok(())
    }
    fn remove_label(&self, _o: &str, _r: &str, _n: u64, label: &str) -> Result<(), String> {
        self.remove_label_calls.lock().unwrap().push(label.to_string());
        Ok(())
    }
}

fn pr(labels: &[&str]) -> PullRequest {
    PullRequest {
        state: "open".into(),
        head: GitRef {
            ref_: "topic".into(),
            sha: "deadbeef".into(),
        },
        base: GitRef {
            ref_: "main".into(),
            sha: "cafef00d".into(),
        },
        labels: labels
            .iter()
            .map(|n| Label {
                name: (*n).to_string(),
            })
            .collect(),
    }
}

fn ctx(actor: &str) -> GithubContext {
    GithubContext {
        owner: "octo".into(),
        repo: "widget".into(),
        actor: actor.into(),
        api_base_url: "https://api.github.com".into(),
        is_gitea: false,
    }
}

#[test]
fn end_to_end_inputs_parsing_drives_a_merge() {
    let src = MapSource::new(&[
        ("github-token", "ghp_test"),
        ("number", "42"),
        ("merge-method", "merge"),
        ("allowed-usernames-regex", "^alice$"),
        ("filter-label", "merge-it"),
        ("merge-title", "title"),
        ("merge-message", "body"),
    ]);
    let inputs = ActionInputs::from_source(&src).unwrap();
    assert_eq!(inputs.number, 42);

    let client = FakeClient {
        pr: Mutex::new(Some(pr(&["merge-it"]))),
        ..Default::default()
    };
    let mut log = CaptureLogger::new();
    let out = run(&mut ClientSession::new(&client), &inputs, &ctx("alice"), &mut log).unwrap();
    assert_eq!(out, Outcome::Merged);

    let merges = client.merge_calls.lock().unwrap();
    assert_eq!(merges.len(), 1);
    assert_eq!(merges[0].merge_method, "merge");
    assert_eq!(merges[0].sha, "deadbeef");
    assert_eq!(merges[0].commit_title.as_deref(), Some("title"));
    assert_eq!(merges[0].commit_message.as_deref(), Some("body"));

    let removed = client.remove_label_calls.lock().unwrap();
    assert_eq!(removed.as_slice(), &["merge-it".to_string()]);
}

#[test]
fn end_to_end_fast_forward_path() {
    let src = MapSource::new(&[
        ("github-token", "ghp_test"),
        ("number", "3"),
        ("merge-method", "fast-forward"),
    ]);
    let inputs = ActionInputs::from_source(&src).unwrap();
    assert_eq!(inputs.merge_method, MergeMethod::FastForward);

    let client = FakeClient {
        pr: Mutex::new(Some(pr(&[]))),
        ..Default::default()
    };
    let mut log = CaptureLogger::new();
    let out = run(&mut ClientSession::new(&client), &inputs, &ctx("anyone"), &mut log).unwrap();
    assert_eq!(out, Outcome::FastForwarded);

    let calls = client.update_ref_calls.lock().unwrap();
    assert_eq!(calls.len(), 1);
    assert_eq!(calls[0].0, "heads/main");
    assert_eq!(calls[0].1, "deadbeef");
    assert!(client.merge_calls.lock().unwrap().is_empty());
}

#[test]
fn end_to_end_disallowed_actor_is_skipped() {
    let src = MapSource::new(&[
        ("github-token", "t"),
        ("number", "1"),
        ("allowed-usernames-regex", "^bob$"),
    ]);
    let inputs = ActionInputs::from_source(&src).unwrap();
    let client = FakeClient {
        pr: Mutex::new(Some(pr(&[]))),
        ..Default::default()
    };
    let mut log = CaptureLogger::new();
    let out = run(&mut ClientSession::new(&client), &inputs, &ctx("alice"), &mut log).unwrap();
    assert_eq!(out, Outcome::SkippedActor);
    assert!(client.merge_calls.lock().unwrap().is_empty());
    assert!(client.update_ref_calls.lock().unwrap().is_empty());
}
