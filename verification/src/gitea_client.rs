//! What differs when the forge is Gitea.
//!
//! Gitea's REST API is GitHub-shaped but differs in three places:
//!
//! - Merging is a `POST` (not `PUT`) on `/pulls/{n}/merge` whose body names
//!   the strategy `Do`, the title and message `MergeTitleField` and
//!   `MergeMessageField`, and the commit `head_commit_id`.
//! - A fast-forward goes through that same endpoint with
//!   `Do: "fast-forward-only"`, since Gitea's `git/refs` API is read-only.
//! - Label removal takes the numeric label id, so the issue's labels are
//!   listed first to map the name to its id.
//!
//! Gitea answers a merge with an empty body, so success is judged by the
//! HTTP status alone.

use vstd::prelude::*;

use crate::github_client::{issue_labels_path_spec, MergeRequest, MergeRequestView};
use crate::text::{decimal, push_decimal, push_signed_decimal, signed_decimal, str_eq, to_owned_string};

verus! {

/// Body of Gitea's `POST /repos/{owner}/{repo}/pulls/{index}/merge`.
#[derive(Debug, Clone)]
pub struct GiteaMergeBody {
    /// The merge strategy (`Do`).
    pub do_: &'static str,
    /// `MergeTitleField`, left out when `None`.
    pub merge_title_field: Option<String>,
    /// `MergeMessageField`, left out when `None`.
    pub merge_message_field: Option<String>,
    /// `head_commit_id`, left out when `None`.
    pub head_commit_id: Option<String>,
}

/// [`GiteaMergeBody`] with its strings as character sequences.
pub struct GiteaMergeBodyView {
    pub do_: Seq<char>,
    pub merge_title_field: Option<Seq<char>>,
    pub merge_message_field: Option<Seq<char>>,
    pub head_commit_id: Option<Seq<char>>,
}

impl View for GiteaMergeBody {
    type V = GiteaMergeBodyView;

    open spec fn view(&self) -> GiteaMergeBodyView {
        GiteaMergeBodyView {
            do_: self.do_@,
            merge_title_field: self.merge_title_field.deep_view(),
            merge_message_field: self.merge_message_field.deep_view(),
            head_commit_id: self.head_commit_id.deep_view(),
        }
    }
}

/// The Gitea body that carries a GitHub-style merge request: GitHub's
/// `merge`/`squash`/`rebase` are Gitea's `Do` values as they are.
pub open spec fn gitea_body_from_github(req: MergeRequestView) -> GiteaMergeBodyView {
    GiteaMergeBodyView {
        do_: req.merge_method,
        merge_title_field: req.commit_title,
        merge_message_field: req.commit_message,
        head_commit_id: Some(req.sha),
    }
}

impl GiteaMergeBody {
    /// The Gitea form of `req`.
    pub fn from_github(req: &MergeRequest) -> (b: Self)
        ensures
            b@ == gitea_body_from_github(req@),
    {
        GiteaMergeBody {
            do_: req.merge_method,
            merge_title_field: req.commit_title.clone(),
            merge_message_field: req.commit_message.clone(),
            head_commit_id: Some(req.sha.clone()),
        }
    }

    /// The body that fast-forwards the base branch to `head_sha` and
    /// refuses anything else.
    pub fn fast_forward_only(head_sha: &str) -> (b: Self)
        ensures
            b@ == (GiteaMergeBodyView {
                do_: "fast-forward-only"@,
                merge_title_field: None,
                merge_message_field: None,
                head_commit_id: Some(head_sha@),
            }),
    {
        GiteaMergeBody {
            do_: "fast-forward-only",
            merge_title_field: None,
            merge_message_field: None,
            head_commit_id: Some(to_owned_string(head_sha)),
        }
    }
}

/// A label as Gitea lists it on an issue.
#[derive(Debug, Clone)]
pub struct GiteaLabel {
    pub id: i64,
    pub name: String,
}

/// `/repos/{owner}/{repo}/issues/{number}/labels/{id}`.
pub open spec fn label_id_path_spec(owner: Seq<char>, repo: Seq<char>, number: u64, id: i64) -> Seq<
    char,
> {
    issue_labels_path_spec(owner, repo, number) + "/"@ + signed_decimal(id as int)
}

/// The message when the label to remove is not on the issue.
pub open spec fn label_not_found_spec(label: Seq<char>, number: u64) -> Seq<char> {
    "label '"@ + label + "' not found on issue #"@ + decimal(number as nat)
}

/// Index of the first label named `name`.
pub open spec fn is_first_label_named(labels: Seq<GiteaLabel>, name: Seq<char>, i: int) -> bool {
    &&& 0 <= i < labels.len()
    &&& labels[i].name@ == name
    &&& forall|j: int| 0 <= j < i ==> labels[j].name@ != name
}

/// The path that deletes label `label` from issue `number`, given the
/// labels Gitea lists on the issue: the id of the first label with that
/// name, or an error naming the label and issue when none has it.
pub fn label_delete_path(
    owner: &str,
    repo: &str,
    number: u64,
    label: &str,
    labels: &Vec<GiteaLabel>,
) -> (r: Result<String, String>)
    ensures
        r is Err <==> forall|j: int| 0 <= j < labels@.len() ==> labels@[j].name@ != label@,
        r matches Err(m) ==> m@ == label_not_found_spec(label@, number),
        r matches Ok(p) ==> exists|i: int|
            is_first_label_named(labels@, label@, i) && p@ == label_id_path_spec(
                owner@,
                repo@,
                number,
                labels@[i].id,
            ),
{
    let mut i: usize = 0;
    while i < labels.len()
        invariant
            i <= labels@.len(),
            forall|j: int| 0 <= j < i ==> labels@[j].name@ != label@,
        decreases labels@.len() - i,
    {
        if str_eq(labels[i].name.as_str(), label) {
            let mut p = crate::github_client::issue_labels_path(owner, repo, number);
            p.append("/");
            push_signed_decimal(&mut p, labels[i].id);
            assert(is_first_label_named(labels@, label@, i as int));
            assert(p@ =~= label_id_path_spec(owner@, repo@, number, labels@[i as int].id));
            return Ok(p);
        }
        i = i + 1;
    }
    let mut m = to_owned_string("label '");
    m.append(label);
    m.append("' not found on issue #");
    push_decimal(&mut m, number);
    Err(m)
}

/// HTTP success: a 2xx status.
pub open spec fn is_success_status(status: u16) -> bool {
    200 <= status < 300
}

/// The message for a failed Gitea call.
pub open spec fn failure_message_spec(what: Seq<char>, status: u16) -> Seq<char> {
    "Gitea "@ + what + " returned HTTP "@ + decimal(status as nat)
}

/// `Ok` for a 2xx status; otherwise an error naming the operation and the
/// status.
pub fn ensure_success(status: u16, what: &str) -> (r: Result<(), String>)
    ensures
        r is Ok <==> is_success_status(status),
        r matches Err(m) ==> m@ == failure_message_spec(what@, status),
{
    if 200 <= status && status < 300 {
        Ok(())
    } else {
        let mut m = to_owned_string("Gitea ");
        m.append(what);
        m.append(" returned HTTP ");
        push_decimal(&mut m, status as u64);
        Err(m)
    }
}

/// The detailed message for a failed Gitea call: the operation, the
/// status, the request path, and the reason Gitea gave, when it gave one.
pub open spec fn detailed_failure_spec(
    what: Seq<char>,
    status: u16,
    path: Seq<char>,
    reason: Option<Seq<char>>,
) -> Seq<char> {
    let base = failure_message_spec(what, status) + " for "@ + path;
    match reason {
        Some(m) => base + ": "@ + m,
        None => base,
    }
}

/// Like [`ensure_success`], with the request path and Gitea's own reason
/// (the `message` of its error body) in the error so that a refusal can be
/// diagnosed.
pub fn ensure_success_at(status: u16, what: &str, path: &str, reason: Option<String>) -> (r:
    Result<(), String>)
    ensures
        r is Ok <==> is_success_status(status),
        r matches Err(m) ==> m@ == detailed_failure_spec(what@, status, path@, reason.deep_view()),
{
    match ensure_success(status, what) {
        Ok(()) => Ok(()),
        Err(mut m) => {
            m.append(" for ");
            m.append(path);
            match reason {
                Some(reason) => {
                    m.append(": ");
                    m.append(reason.as_str());
                },
                None => {},
            }
            Err(m)
        },
    }
}

} // verus!
