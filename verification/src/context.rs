//! The workflow run's context: repository, actor, API endpoint and forge.
//!
//! The runner exposes it as `GITHUB_*` environment variables (and
//! `GITEA_ACTIONS` on Gitea). Reading them is left to the caller;
//! [`GithubContext::from_vars`] interprets the raw values.

use vstd::prelude::*;

use crate::text::{
    chars_of, concat3, ends_with_chars, ends_with_spec, eq_ignore_ascii_case,
    eq_ignore_ascii_case_spec, string_from_range, to_owned_string,
};

verus! {

/// The API endpoint used when `GITHUB_API_URL` is not set.
pub open spec fn default_api_url() -> Seq<char> {
    "https://api.github.com"@
}

/// `s` without its trailing slashes.
pub open spec fn trim_end_slashes(s: Seq<char>) -> Seq<char>
    decreases s.len(),
{
    if s.len() > 0 && s[s.len() - 1] == '/' {
        trim_end_slashes(s.subrange(0, s.len() - 1))
    } else {
        s
    }
}

/// A Gitea API root ends in `/api/v1`, trailing slashes aside (GitHub uses
/// no path, GitHub Enterprise Server uses `/api/v3`).
pub open spec fn is_gitea_api_url(url: Seq<char>) -> bool {
    ends_with_spec(trim_end_slashes(url), "/api/v1"@)
}

/// `GITEA_ACTIONS` is set to `true`, in any ASCII case.
pub open spec fn gitea_actions_flag(v: Option<Seq<char>>) -> bool {
    match v {
        Some(s) => eq_ignore_ascii_case_spec(s, "true"@),
        None => false,
    }
}

/// The index of the first `c` in `s`, if there is one.
pub open spec fn is_first_index_of(s: Seq<char>, c: char, i: int) -> bool {
    &&& 0 <= i < s.len()
    &&& s[i] == c
    &&& forall|j: int| 0 <= j < i ==> s[j] != c
}

proof fn lemma_trim_end_slashes_skip(s: Seq<char>, k: int)
    requires
        0 <= k <= s.len(),
        forall|j: int| k <= j < s.len() ==> #[trigger] s[j] == '/',
    ensures
        trim_end_slashes(s) == trim_end_slashes(s.subrange(0, k)),
    decreases s.len() - k,
{
    if k == s.len() {
        assert(s.subrange(0, k) =~= s);
    } else {
        let t = s.subrange(0, s.len() - 1);
        assert forall|j: int| k <= j < t.len() implies #[trigger] t[j] == '/' by {
            assert(t[j] == s[j]);
        }
        lemma_trim_end_slashes_skip(t, k);
        assert(t.subrange(0, k) =~= s.subrange(0, k));
    }
}

/// Whether `url` is a Gitea API root.
pub fn is_gitea_api_url_exec(url: &str) -> (r: bool)
    ensures
        r == is_gitea_api_url(url@),
{
    let chars = chars_of(url);
    let mut hi: usize = chars.len();
    while hi > 0 && chars[hi - 1] == '/'
        invariant
            hi <= chars@.len(),
            forall|j: int| hi <= j < chars@.len() ==> #[trigger] chars@[j] == '/',
        decreases hi,
    {
        hi = hi - 1;
    }
    proof {
        lemma_trim_end_slashes_skip(chars@, hi as int);
        let t = chars@.subrange(0, hi as int);
        if hi > 0 {
            assert(t[t.len() - 1] == chars@[hi - 1]);
        }
        assert(trim_end_slashes(t) == t);
    }
    let suffix = chars_of("/api/v1");
    ends_with_chars(&chars, hi, &suffix)
}

/// Whether the run happens on Gitea: `GITEA_ACTIONS` says so, or the API
/// root looks like Gitea's.
pub open spec fn is_gitea_spec(gitea_actions: Option<Seq<char>>, api_url: Seq<char>) -> bool {
    gitea_actions_flag(gitea_actions) || is_gitea_api_url(api_url)
}

/// Why the context could not be read.
#[derive(Debug, Clone)]
pub enum ContextError {
    /// `GITHUB_REPOSITORY` is not set.
    MissingRepository,
    /// `GITHUB_REPOSITORY` has no `/`.
    MalformedRepository { value: String },
    /// `GITHUB_ACTOR` is not set.
    MissingActor,
}

impl ContextError {
    /// The human-readable message for this error.
    pub fn message(&self) -> (s: String)
        ensures
            s@ == match self {
                ContextError::MissingRepository => "GITHUB_REPOSITORY env var is required"@,
                ContextError::MalformedRepository { value } =>
                    "GITHUB_REPOSITORY must look like 'owner/repo', got '"@ + value@ + "'"@,
                ContextError::MissingActor => "GITHUB_ACTOR env var is required"@,
            },
    {
        match self {
            ContextError::MissingRepository => to_owned_string(
                "GITHUB_REPOSITORY env var is required",
            ),
            ContextError::MalformedRepository { value } => concat3(
                "GITHUB_REPOSITORY must look like 'owner/repo', got '",
                value.as_str(),
                "'",
            ),
            ContextError::MissingActor => to_owned_string("GITHUB_ACTOR env var is required"),
        }
    }
}

/// The parts of the run's context that the action uses.
#[derive(Debug, Clone)]
pub struct GithubContext {
    pub owner: String,
    pub repo: String,
    pub actor: String,
    pub api_base_url: String,
    /// True when running on Gitea Actions, whose REST API differs from
    /// GitHub's on the merge endpoint and on label removal.
    pub is_gitea: bool,
}

impl GithubContext {
    /// Interprets the raw values of `GITHUB_REPOSITORY`, `GITHUB_ACTOR`,
    /// `GITHUB_API_URL` and `GITEA_ACTIONS` (`None` where a variable is
    /// unset). The repository is split at its first `/` into owner and
    /// name.
    pub fn from_vars(
        repository: Option<String>,
        actor: Option<String>,
        api_url: Option<String>,
        gitea_actions: Option<String>,
    ) -> (r: Result<GithubContext, ContextError>)
        ensures
            repository is None ==> r matches Err(ContextError::MissingRepository),
            repository is Some && !repository->0@.contains('/') ==> (r matches Err(
                ContextError::MalformedRepository { value },
            ) && value@ == repository->0@),
            repository is Some && repository->0@.contains('/') && actor is None ==> (r matches Err(
                ContextError::MissingActor,
            )),
            r is Ok <==> (repository is Some && repository->0@.contains('/') && actor is Some),
            r matches Ok(ctx) ==> {
                let rep = repository->0@;
                let url = match api_url {
                    Some(u) => u@,
                    None => default_api_url(),
                };
                &&& exists|i: int|
                    is_first_index_of(rep, '/', i) && ctx.owner@ == rep.subrange(0, i)
                        && ctx.repo@ == rep.subrange(i + 1, rep.len() as int)
                &&& ctx.actor@ == actor->0@
                &&& ctx.api_base_url@ == url
                &&& ctx.is_gitea == is_gitea_spec(gitea_actions.deep_view(), url)
            },
    {
        let repository = match repository {
            Some(r) => r,
            None => return Err(ContextError::MissingRepository),
        };
        let chars = chars_of(repository.as_str());
        let mut i: usize = 0;
        while i < chars.len() && chars[i] != '/'
            invariant
                i <= chars@.len(),
                forall|j: int| 0 <= j < i ==> chars@[j] != '/',
            decreases chars@.len() - i,
        {
            i = i + 1;
        }
        if i == chars.len() {
            assert(!repository@.contains('/')) by {
                if repository@.contains('/') {
                    let k = choose|k: int| 0 <= k < repository@.len() && repository@[k] == '/';
                    assert(chars@[k] == '/');
                }
            }
            return Err(ContextError::MalformedRepository { value: repository });
        }
        assert(repository@.contains('/')) by {
            assert(repository@[i as int] == '/');
        }
        let owner = string_from_range(&chars, 0, i);
        let repo = string_from_range(&chars, i + 1, chars.len());
        assert(is_first_index_of(repository@, '/', i as int));
        let actor = match actor {
            Some(a) => a,
            None => return Err(ContextError::MissingActor),
        };
        let api_base_url = match api_url {
            Some(u) => u,
            None => to_owned_string("https://api.github.com"),
        };
        let flag = match &gitea_actions {
            Some(v) => eq_ignore_ascii_case(v.as_str(), "true"),
            None => false,
        };
        let is_gitea = flag || is_gitea_api_url_exec(api_base_url.as_str());
        Ok(GithubContext { owner, repo, actor, api_base_url, is_gitea })
    }
}

/// A trailing slash on the API root does not change whether it is taken
/// for Gitea.
pub proof fn law_gitea_detection_ignores_trailing_slash(url: Seq<char>)
    ensures
        is_gitea_api_url(url.push('/')) == is_gitea_api_url(url),
{
    let s = url.push('/');
    assert(s.subrange(0, s.len() - 1) =~= url);
}

} // verus!
