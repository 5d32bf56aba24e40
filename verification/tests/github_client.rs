use action_pull_request_merge::github_client::{
    branch_ref_path, encode_path_segment, is_default_api_url, issue_labels_path, label_path,
    merge_path, pull_path, MergeRequest,
};
use action_pull_request_merge::MergeMethod;

#[test]
fn merge_request_serialises_required_fields_only() {
    let req = MergeRequest::from_inputs(MergeMethod::Squash, "deadbeef", "", "");
    assert_eq!(req.merge_method, "squash");
    assert_eq!(req.sha, "deadbeef");
    assert!(req.commit_title.is_none());
    assert!(req.commit_message.is_none());
}

#[test]
fn merge_request_includes_title_and_message_when_provided() {
    let req = MergeRequest::from_inputs(MergeMethod::Merge, "abc", "T", "M");
    assert_eq!(req.commit_title.as_deref(), Some("T"));
    assert_eq!(req.commit_message.as_deref(), Some("M"));
}

#[test]
fn merge_request_treats_whitespace_only_as_empty() {
    let req = MergeRequest::from_inputs(MergeMethod::Merge, "abc", "   ", "\n\t");
    assert!(req.commit_title.is_none());
    assert!(req.commit_message.is_none());
}

#[test]
fn merge_request_rebase_serialises_correctly() {
    let req = MergeRequest::from_inputs(MergeMethod::Rebase, "sha", "", "");
    assert_eq!(req.merge_method, "rebase");
}

#[test]
fn merge_request_keeps_title_with_surrounding_space_verbatim() {
    let req = MergeRequest::from_inputs(MergeMethod::Merge, "abc", "  T  ", "\u{2003}");
    assert_eq!(req.commit_title.as_deref(), Some("  T  "));
    assert!(req.commit_message.is_none());
}

#[test]
fn merge_request_fast_forward_methods_fall_back_to_merge() {
    for m in [MergeMethod::FastForward, MergeMethod::FastForwardOrMerge] {
        assert_eq!(MergeRequest::from_inputs(m, "s", "", "").merge_method, "merge");
    }
}

#[test]
fn path_segment_keeps_unreserved_characters() {
    assert_eq!(encode_path_segment("merge-it"), "merge-it");
    assert_eq!(encode_path_segment("release_v1.2.3"), "release_v1.2.3");
    assert_eq!(encode_path_segment("a~b"), "a~b");
    assert_eq!(encode_path_segment(""), "");
}

#[test]
fn path_segment_encodes_url_meta_characters() {
    assert_eq!(encode_path_segment("a b"), "a%20b");
    assert_eq!(encode_path_segment("a/b"), "a%2Fb");
    assert_eq!(encode_path_segment("a?b"), "a%3Fb");
    assert_eq!(encode_path_segment("a#b"), "a%23b");
    assert_eq!(encode_path_segment("a&b"), "a%26b");
    assert_eq!(encode_path_segment("a+b"), "a%2Bb");
    assert_eq!(encode_path_segment("50%"), "50%25");
    assert_eq!(encode_path_segment("a=b"), "a%3Db");
    assert_eq!(encode_path_segment("a:b"), "a%3Ab");
}

#[test]
fn path_segment_encodes_non_ascii_byte_by_byte() {
    assert_eq!(encode_path_segment("café"), "caf%C3%A9");
    assert_eq!(encode_path_segment("🚀"), "%F0%9F%9A%80");
}

#[test]
fn request_paths_match_the_rest_api() {
    assert_eq!(pull_path("octo", "widget", 7), "/repos/octo/widget/pulls/7");
    assert_eq!(merge_path("octo", "widget", 7), "/repos/octo/widget/pulls/7/merge");
    assert_eq!(
        branch_ref_path("octo", "widget", "main"),
        "/repos/octo/widget/git/refs/heads/main"
    );
    assert_eq!(
        issue_labels_path("octo", "widget", 1234567890),
        "/repos/octo/widget/issues/1234567890/labels"
    );
    assert_eq!(
        label_path("octo", "widget", 7, "needs review/urgent?"),
        "/repos/octo/widget/issues/7/labels/needs%20review%2Furgent%3F"
    );
    assert_eq!(pull_path("o", "r", 0), "/repos/o/r/pulls/0");
    assert_eq!(
        pull_path("o", "r", u64::MAX),
        "/repos/o/r/pulls/18446744073709551615"
    );
}

#[test]
fn only_the_public_api_root_is_the_default() {
    assert!(is_default_api_url("https://api.github.com"));
    assert!(!is_default_api_url("https://api.github.com/"));
    assert!(!is_default_api_url("https://ghe.example.com/api/v3"));
}

#[test]
fn distinct_labels_encode_to_distinct_segments() {
    assert_eq!(encode_path_segment("a b"), "a%20b");
    assert_eq!(encode_path_segment("a%20b"), "a%2520b");
    assert_ne!(encode_path_segment("a/b"), encode_path_segment("a%2Fb"));
}

#[test]
fn fast_forward_ref_update_is_not_forced() {
    let update = action_pull_request_merge::github_client::RefUpdate::fast_forward_to("abc123");
    assert_eq!(update.sha, "abc123");
    assert!(!update.force);
}
