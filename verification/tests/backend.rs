use action_pull_request_merge::context::GithubContext;
use action_pull_request_merge::{pick_backend, Backend};

fn ctx_with(is_gitea: bool) -> GithubContext {
    GithubContext {
        owner: "o".into(),
        repo: "r".into(),
        actor: "a".into(),
        api_base_url: "https://x".into(),
        is_gitea,
    }
}

#[test]
fn picks_gitea_when_flag_is_set() {
    assert_eq!(pick_backend(&ctx_with(true)), Backend::Gitea);
}

#[test]
fn picks_github_when_flag_is_unset() {
    assert_eq!(pick_backend(&ctx_with(false)), Backend::Github);
}
