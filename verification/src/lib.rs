//! Decision core of a GitHub / Gitea Action that merges a pull request.
//!
//! Everything that decides something lives here and is verified: parsing the
//! action inputs and the runner context, the merge workflow as a state
//! machine, the request paths and bodies sent to the forge, and the
//! workflow-command formatting of log lines. Network and process I/O stay
//! outside the library.

pub mod text;
pub mod pattern;
pub mod inputs;
pub mod context;
pub mod console;
pub mod logger;
pub mod github_client;
pub mod gitea_client;
pub mod action;

pub use action::{run, Outcome};
pub use context::GithubContext;
pub use github_client::GithubClient;
pub use inputs::{ActionInputs, MergeMethod};
pub use logger::{Logger, StdoutLogger};

use vstd::prelude::*;

verus! {

/// Which forge the action is talking to. Decided once from the runner
/// context and used to pick the matching client implementation.
#[derive(Debug, Clone, Copy, PartialEq, Eq, Structural)]
pub enum Backend {
    Github,
    Gitea,
}

/// Gitea when the context says so, GitHub otherwise.
pub fn pick_backend(ctx: &GithubContext) -> (b: Backend)
    ensures
        b == (if ctx.is_gitea { Backend::Gitea } else { Backend::Github }),
{
    if ctx.is_gitea {
        Backend::Gitea
    } else {
        Backend::Github
    }
}

} // verus!
