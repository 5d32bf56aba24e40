use action_pull_request_merge::gitea_client::{
    ensure_success, ensure_success_at, label_delete_path, GiteaLabel, GiteaMergeBody,
};
use action_pull_request_merge::github_client::MergeRequest;
use action_pull_request_merge::MergeMethod;

#[test]
fn merge_body_uses_camel_case_and_head_commit_id() {
    let req = MergeRequest::from_inputs(MergeMethod::Squash, "deadbeef", "T", "M");
    let body = GiteaMergeBody::from_github(&req);
    assert_eq!(body.do_, "squash");
    assert_eq!(body.merge_title_field.as_deref(), Some("T"));
    assert_eq!(body.merge_message_field.as_deref(), Some("M"));
    assert_eq!(body.head_commit_id.as_deref(), Some("deadbeef"));
}

#[test]
fn merge_body_omits_empty_title_and_message() {
    let req = MergeRequest::from_inputs(MergeMethod::Merge, "abc", "", "");
    let body = GiteaMergeBody::from_github(&req);
    assert_eq!(body.do_, "merge");
    assert_eq!(body.head_commit_id.as_deref(), Some("abc"));
    assert!(body.merge_title_field.is_none());
    assert!(body.merge_message_field.is_none());
}

#[test]
fn merge_body_passes_rebase_through_unchanged() {
    let req = MergeRequest::from_inputs(MergeMethod::Rebase, "abc", "", "");
    let body = GiteaMergeBody::from_github(&req);
    assert_eq!(body.do_, "rebase");
}

#[test]
fn merge_body_handles_asymmetric_title_and_message() {
    let req = MergeRequest::from_inputs(MergeMethod::Merge, "sha", "Just a title", "");
    let body = GiteaMergeBody::from_github(&req);
    assert_eq!(body.merge_title_field.as_deref(), Some("Just a title"));
    assert!(body.merge_message_field.is_none());

    let req = MergeRequest::from_inputs(MergeMethod::Merge, "sha", "", "Body only");
    let body = GiteaMergeBody::from_github(&req);
    assert!(body.merge_title_field.is_none());
    assert_eq!(body.merge_message_field.as_deref(), Some("Body only"));
}

#[test]
fn merge_body_fast_forward_inputs_collapse_to_plain_merge() {
    for m in [MergeMethod::FastForward, MergeMethod::FastForwardOrMerge] {
        let req = MergeRequest::from_inputs(m, "sha", "", "");
        let body = GiteaMergeBody::from_github(&req);
        assert_eq!(body.do_, "merge", "method {:?} should fall back", m);
    }
}

#[test]
fn merge_body_passes_plain_merge_through() {
    let req = MergeRequest::from_inputs(MergeMethod::Merge, "sha", "", "");
    let body = GiteaMergeBody::from_github(&req);
    assert_eq!(body.do_, "merge");
}

#[test]
fn merge_body_serializes_only_known_keys() {
    let req = MergeRequest::from_inputs(MergeMethod::Squash, "sha", "T", "M");
    let body = GiteaMergeBody::from_github(&req);
    let GiteaMergeBody {
        do_,
        merge_title_field,
        merge_message_field,
        head_commit_id,
    } = body;
    assert_eq!(do_, "squash");
    assert!(merge_title_field.is_some());
    assert!(merge_message_field.is_some());
    assert!(head_commit_id.is_some());
}

#[test]
fn fast_forward_only_body_names_the_strategy_and_commit() {
    let body = GiteaMergeBody::fast_forward_only("abc123");
    assert_eq!(body.do_, "fast-forward-only");
    assert_eq!(body.head_commit_id.as_deref(), Some("abc123"));
    assert!(body.merge_title_field.is_none());
    assert!(body.merge_message_field.is_none());
}

#[test]
fn ensure_success_accepts_2xx_and_rejects_others() {
    for ok in [200, 201, 202, 204, 299] {
        assert!(
            ensure_success(ok, "x").is_ok(),
            "{} should be treated as success",
            ok
        );
    }
    for fail in [199, 300, 301, 400, 401, 404, 422, 500, 502] {
        let err = ensure_success(fail, "merge").unwrap_err();
        assert!(err.contains(&fail.to_string()));
        assert!(err.contains("merge"));
    }
}

#[test]
fn ensure_success_at_names_path_and_reason() {
    let err = ensure_success_at(
        422,
        "merge pull request",
        "/repos/octo/widget/pulls/7/merge",
        Some("Pull request is not mergeable".to_string()),
    )
    .unwrap_err();
    assert_eq!(
        err,
        "Gitea merge pull request returned HTTP 422 for /repos/octo/widget/pulls/7/merge: Pull request is not mergeable"
    );
    let err = ensure_success_at(405, "x", "/p", None).unwrap_err();
    assert_eq!(err, "Gitea x returned HTTP 405 for /p");
    assert!(ensure_success_at(204, "x", "/p", Some("ignored".into())).is_ok());
}

#[test]
fn gitea_label_ignores_extra_fields() {
    let label = GiteaLabel {
        id: 42,
        name: "merge-it".to_string(),
    };
    assert_eq!(label.id, 42);
    assert_eq!(label.name, "merge-it");
}

#[test]
fn label_delete_path_resolves_the_name_to_its_id() {
    let labels = vec![
        GiteaLabel { id: 11, name: "merge-it".into() },
        GiteaLabel { id: 22, name: "release".into() },
        GiteaLabel { id: 33, name: "release".into() },
    ];
    assert_eq!(
        label_delete_path("octo", "widget", 7, "release", &labels).unwrap(),
        "/repos/octo/widget/issues/7/labels/22"
    );
    assert_eq!(
        label_delete_path("octo", "widget", 7, "missing", &labels).unwrap_err(),
        "label 'missing' not found on issue #7"
    );
    let negative = vec![GiteaLabel { id: -5, name: "odd".into() }];
    assert_eq!(
        label_delete_path("o", "r", 1, "odd", &negative).unwrap(),
        "/repos/o/r/issues/1/labels/-5"
    );
}
