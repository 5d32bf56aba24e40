use action_pull_request_merge::context::{ContextError, GithubContext};

fn ctx(
    repository: Option<&str>,
    actor: Option<&str>,
    api_url: Option<&str>,
    gitea: Option<&str>,
) -> Result<GithubContext, ContextError> {
    GithubContext::from_vars(
        repository.map(String::from),
        actor.map(String::from),
        api_url.map(String::from),
        gitea.map(String::from),
    )
}

#[test]
fn parses_owner_repo_actor_and_default_api_url() {
    let ctx = ctx(Some("octo/widget"), Some("alice"), None, None).unwrap();
    assert_eq!(ctx.owner, "octo");
    assert_eq!(ctx.repo, "widget");
    assert_eq!(ctx.actor, "alice");
    assert_eq!(ctx.api_base_url, "https://api.github.com");
    assert!(!ctx.is_gitea);
}

#[test]
fn detects_gitea_via_env_var() {
    let ctx = ctx(
        Some("octo/widget"),
        Some("alice"),
        Some("https://gitea.example.com/api/v1"),
        Some("true"),
    )
    .unwrap();
    assert!(ctx.is_gitea);
}

#[test]
fn detects_gitea_via_api_v1_path_even_without_env_var() {
    let ctx = ctx(
        Some("octo/widget"),
        Some("alice"),
        Some("https://gitea.example.com/api/v1"),
        None,
    )
    .unwrap();
    assert!(ctx.is_gitea);
}

#[test]
fn detects_gitea_with_trailing_slash_on_api_url() {
    let ctx = ctx(
        Some("octo/widget"),
        Some("alice"),
        Some("https://gitea.example.com/api/v1/"),
        None,
    )
    .unwrap();
    assert!(ctx.is_gitea);
}

#[test]
fn explicit_gitea_actions_false_disables_gitea_detection() {
    let ctx = ctx(
        Some("octo/widget"),
        Some("alice"),
        Some("https://api.github.com"),
        Some("false"),
    )
    .unwrap();
    assert!(!ctx.is_gitea);
}

#[test]
fn gitea_actions_env_var_is_case_insensitive() {
    let ctx = ctx(Some("octo/widget"), Some("alice"), None, Some("TRUE")).unwrap();
    assert!(ctx.is_gitea);
}

#[test]
fn rejects_malformed_repository() {
    let err = ctx(Some("not-a-slash-pair"), Some("alice"), None, None)
        .unwrap_err()
        .message();
    assert!(err.contains("owner/repo"));
}

#[test]
fn honours_custom_api_url_for_ghes() {
    let ctx = ctx(
        Some("octo/widget"),
        Some("alice"),
        Some("https://ghe.example.com/api/v3"),
        None,
    )
    .unwrap();
    assert_eq!(ctx.api_base_url, "https://ghe.example.com/api/v3");
    assert!(!ctx.is_gitea);
}

#[test]
fn missing_variables_are_reported() {
    assert_eq!(
        ctx(None, Some("a"), None, None).unwrap_err().message(),
        "GITHUB_REPOSITORY env var is required"
    );
    assert_eq!(
        ctx(Some("o/r"), None, None, None).unwrap_err().message(),
        "GITHUB_ACTOR env var is required"
    );
    assert_eq!(
        ctx(Some("nope"), None, None, None).unwrap_err().message(),
        "GITHUB_REPOSITORY must look like 'owner/repo', got 'nope'"
    );
}

#[test]
fn repository_splits_at_the_first_slash() {
    let c = ctx(Some("octo/widget/extra"), Some("a"), None, None).unwrap();
    assert_eq!(c.owner, "octo");
    assert_eq!(c.repo, "widget/extra");
    let c = ctx(Some("/x"), Some("a"), None, None).unwrap();
    assert_eq!(c.owner, "");
    assert_eq!(c.repo, "x");
}

#[test]
fn gitea_detection_edge_cases() {
    let c = ctx(Some("o/r"), Some("a"), Some("https://g.example/api/v1///"), Some("no")).unwrap();
    assert!(c.is_gitea);
    let c = ctx(Some("o/r"), Some("a"), Some("https://g.example/api/v10"), Some("tRuE")).unwrap();
    assert!(c.is_gitea);
    let c = ctx(Some("o/r"), Some("a"), Some("https://g.example/api/v10"), Some("true ")).unwrap();
    assert!(!c.is_gitea);
}
