//! The REST API surface the action needs, and what it sends to GitHub.
//!
//! [`GithubClient`] is the interface the merge workflow drives; the HTTP
//! implementations live with the program. What goes on the wire is computed
//! here: the request paths, the merge request body, and the percent-encoding
//! of label names in paths.

use vstd::prelude::*;

use crate::inputs::MergeMethod;
use crate::text::{all_white_space, char_from_ascii_code, is_blank, push_char, push_decimal, str_eq, to_owned_string, decimal};

verus! {

/// Minimal projection of a pull request: what the action inspects.
#[derive(Debug, Clone)]
pub struct PullRequest {
    pub state: String,
    pub head: GitRef,
    pub base: GitRef,
    pub labels: Vec<Label>,
}

/// A branch and the commit it points at.
#[derive(Debug, Clone)]
pub struct GitRef {
    pub ref_: String,
    pub sha: String,
}

/// A label on a pull request.
#[derive(Debug, Clone)]
pub struct Label {
    pub name: String,
}

impl PullRequest {
    /// The names of the pull request's labels, in order.
    pub open spec fn label_names(&self) -> Seq<Seq<char>> {
        self.labels@.map_values(|l: Label| l.name@)
    }
}

/// Body of the GitHub merge endpoint.
#[derive(Debug, Clone, Default)]
pub struct MergeRequest {
    pub merge_method: &'static str,
    pub sha: String,
    /// Left out of the body when `None`.
    pub commit_title: Option<String>,
    /// Left out of the body when `None`.
    pub commit_message: Option<String>,
}

/// [`MergeRequest`] with its strings as character sequences.
pub struct MergeRequestView {
    pub merge_method: Seq<char>,
    pub sha: Seq<char>,
    pub commit_title: Option<Seq<char>>,
    pub commit_message: Option<Seq<char>>,
}

impl View for MergeRequest {
    type V = MergeRequestView;

    open spec fn view(&self) -> MergeRequestView {
        MergeRequestView {
            merge_method: self.merge_method@,
            sha: self.sha@,
            commit_title: self.commit_title.deep_view(),
            commit_message: self.commit_message.deep_view(),
        }
    }
}

/// The `merge_method` value sent for each method. The fast-forward methods
/// never reach the merge endpoint as themselves; if they do, they fall back
/// to a plain merge.
pub open spec fn merge_method_name(m: MergeMethod) -> Seq<char> {
    match m {
        MergeMethod::Merge => "merge"@,
        MergeMethod::Squash => "squash"@,
        MergeMethod::Rebase => "rebase"@,
        MergeMethod::FastForward => "merge"@,
        MergeMethod::FastForwardOrMerge => "merge"@,
    }
}

/// A commit title or message is sent only when it holds more than white
/// space.
pub open spec fn non_blank(s: Seq<char>) -> Option<Seq<char>> {
    if all_white_space(s) {
        None
    } else {
        Some(s)
    }
}

/// The merge request built from the action's inputs.
pub open spec fn merge_request_spec(
    method: MergeMethod,
    head_sha: Seq<char>,
    title: Seq<char>,
    message: Seq<char>,
) -> MergeRequestView {
    MergeRequestView {
        merge_method: merge_method_name(method),
        sha: head_sha,
        commit_title: non_blank(title),
        commit_message: non_blank(message),
    }
}

fn non_blank_string(s: &str) -> (r: Option<String>)
    ensures
        r.deep_view() == non_blank(s@),
{
    if is_blank(s) {
        None
    } else {
        Some(to_owned_string(s))
    }
}

impl MergeRequest {
    /// The merge request for `method` at commit `head_sha`, with the given
    /// commit title and message when they are not blank.
    pub fn from_inputs(method: MergeMethod, head_sha: &str, title: &str, message: &str) -> (r:
        Self)
        ensures
            r@ == merge_request_spec(method, head_sha@, title@, message@),
    {
        let merge_method: &'static str = match method {
            MergeMethod::Merge => "merge",
            MergeMethod::Squash => "squash",
            MergeMethod::Rebase => "rebase",
            MergeMethod::FastForward => "merge",
            MergeMethod::FastForwardOrMerge => "merge",
        };
        MergeRequest {
            merge_method,
            sha: to_owned_string(head_sha),
            commit_title: non_blank_string(title),
            commit_message: non_blank_string(message),
        }
    }
}

/// Body of the ref update that fast-forwards a branch.
#[derive(Debug, Clone)]
pub struct RefUpdate {
    pub sha: String,
    pub force: bool,
}

impl RefUpdate {
    /// Moves the branch to `head_sha` without force, so that the forge
    /// refuses anything that is not a fast-forward.
    pub fn fast_forward_to(head_sha: &str) -> (r: Self)
        ensures
            r.sha@ == head_sha@,
            !r.force,
    {
        RefUpdate { sha: to_owned_string(head_sha), force: false }
    }
}

/// A request to the forge as a client receives it: the repository's owner
/// and name, the pull request, and what to do with it.
pub enum ClientRequest {
    /// Fetch the pull request.
    GetPull { owner: Seq<char>, repo: Seq<char>, number: u64 },
    /// Move the base branch `base_ref` to `head_sha`.
    FastForward {
        owner: Seq<char>,
        repo: Seq<char>,
        number: u64,
        base_ref: Seq<char>,
        head_sha: Seq<char>,
    },
    /// Merge the pull request as `request` says.
    MergePull { owner: Seq<char>, repo: Seq<char>, number: u64, request: MergeRequestView },
    /// Remove `label` from the pull request.
    RemoveLabel { owner: Seq<char>, repo: Seq<char>, number: u64, label: Seq<char> },
}

/// A client's reply to a [`ClientRequest`].
pub enum ClientReply {
    /// The pull request, or why it could not be fetched.
    Pull(Result<PullRequest, String>),
    /// Whether the write went through, and why not.
    Done(Result<(), String>),
}

/// The forge operations the merge workflow needs. Errors carry a
/// human-readable description.
///
/// Each operation's reply is tied to the request it answers through
/// [`GithubClient::replied`], so that a caller can say which request each
/// reply it acted on came from.
pub trait GithubClient {
    /// Whether `reply` is a reply this client gives to `request`. An
    /// implementation that says nothing more allows every reply.
    open spec fn replied(&self, request: ClientRequest, reply: ClientReply) -> bool {
        true
    }

    /// Fetches pull request `number`.
    fn get_pull(&self, owner: &str, repo: &str, number: u64) -> (r: Result<PullRequest, String>)
        ensures
            self.replied(
                ClientRequest::GetPull { owner: owner@, repo: repo@, number },
                ClientReply::Pull(r),
            ),
    ;

    /// Advances the base branch `base_ref` to `head_sha` without a merge
    /// commit; fails when that is not a fast-forward.
    fn fast_forward(
        &self,
        owner: &str,
        repo: &str,
        pr_number: u64,
        base_ref: &str,
        head_sha: &str,
    ) -> (r: Result<(), String>)
        ensures
            self.replied(
                ClientRequest::FastForward {
                    owner: owner@,
                    repo: repo@,
                    number: pr_number,
                    base_ref: base_ref@,
                    head_sha: head_sha@,
                },
                ClientReply::Done(r),
            ),
    ;

    /// Merges pull request `number` as `request` says.
    fn merge_pull(&self, owner: &str, repo: &str, number: u64, request: &MergeRequest) -> (r:
        Result<(), String>)
        ensures
            self.replied(
                ClientRequest::MergePull { owner: owner@, repo: repo@, number, request: request@ },
                ClientReply::Done(r),
            ),
    ;

    /// Removes `label` from issue (or pull request) `issue_number`.
    fn remove_label(&self, owner: &str, repo: &str, issue_number: u64, label: &str) -> (r: Result<
        (),
        String,
    >)
        ensures
            self.replied(
                ClientRequest::RemoveLabel {
                    owner: owner@,
                    repo: repo@,
                    number: issue_number,
                    label: label@,
                },
                ClientReply::Done(r),
            ),
    ;
}

/// A client borrowed for one run, with the record of every request handed
/// to it through the session, in order. The client can be reached only
/// through the session's methods, and each of them records its request
/// before returning the client's reply.
pub struct ClientSession<'a, C: GithubClient + ?Sized> {
    client: &'a C,
    sent: Ghost<Seq<ClientRequest>>,
}

impl<'a, C: GithubClient + ?Sized> ClientSession<'a, C> {
    /// The client the session talks to.
    pub closed spec fn client(&self) -> &'a C {
        self.client
    }

    /// The requests handed to the client through this session, in order.
    pub closed spec fn sent(&self) -> Seq<ClientRequest> {
        self.sent@
    }

    /// A session on `client` that has sent nothing yet.
    pub fn new(client: &'a C) -> (s: Self)
        ensures
            s.client() == client,
            s.sent() == Seq::<ClientRequest>::empty(),
    {
        ClientSession { client, sent: Ghost(Seq::empty()) }
    }

    /// Fetches pull request `number`, and records the request.
    pub fn get_pull(&mut self, owner: &str, repo: &str, number: u64) -> (r: Result<
        PullRequest,
        String,
    >)
        ensures
            final(self).client() == old(self).client(),
            final(self).sent() == old(self).sent().push(
                ClientRequest::GetPull { owner: owner@, repo: repo@, number },
            ),
            old(self).client().replied(
                ClientRequest::GetPull { owner: owner@, repo: repo@, number },
                ClientReply::Pull(r),
            ),
    {
        let r = self.client.get_pull(owner, repo, number);
        self.sent = Ghost(
            self.sent@.push(ClientRequest::GetPull { owner: owner@, repo: repo@, number }),
        );
        r
    }

    /// Asks for the fast-forward of `base_ref` to `head_sha`, and records
    /// the request.
    pub fn fast_forward(
        &mut self,
        owner: &str,
        repo: &str,
        pr_number: u64,
        base_ref: &str,
        head_sha: &str,
    ) -> (r: Result<(), String>)
        ensures
            final(self).client() == old(self).client(),
            final(self).sent() == old(self).sent().push(
                ClientRequest::FastForward {
                    owner: owner@,
                    repo: repo@,
                    number: pr_number,
                    base_ref: base_ref@,
                    head_sha: head_sha@,
                },
            ),
            old(self).client().replied(
                ClientRequest::FastForward {
                    owner: owner@,
                    repo: repo@,
                    number: pr_number,
                    base_ref: base_ref@,
                    head_sha: head_sha@,
                },
                ClientReply::Done(r),
            ),
    {
        let r = self.client.fast_forward(owner, repo, pr_number, base_ref, head_sha);
        self.sent = Ghost(
            self.sent@.push(
                ClientRequest::FastForward {
                    owner: owner@,
                    repo: repo@,
                    number: pr_number,
                    base_ref: base_ref@,
                    head_sha: head_sha@,
                },
            ),
        );
        r
    }

    /// Asks for the merge of pull request `number`, and records the request.
    pub fn merge_pull(&mut self, owner: &str, repo: &str, number: u64, request: &MergeRequest) -> (r:
        Result<(), String>)
        ensures
            final(self).client() == old(self).client(),
            final(self).sent() == old(self).sent().push(
                ClientRequest::MergePull { owner: owner@, repo: repo@, number, request: request@ },
            ),
            old(self).client().replied(
                ClientRequest::MergePull { owner: owner@, repo: repo@, number, request: request@ },
                ClientReply::Done(r),
            ),
    {
        let r = self.client.merge_pull(owner, repo, number, request);
        self.sent = Ghost(
            self.sent@.push(
                ClientRequest::MergePull { owner: owner@, repo: repo@, number, request: request@ },
            ),
        );
        r
    }

    /// Asks for the removal of `label`, and records the request.
    pub fn remove_label(&mut self, owner: &str, repo: &str, issue_number: u64, label: &str) -> (r:
        Result<(), String>)
        ensures
            final(self).client() == old(self).client(),
            final(self).sent() == old(self).sent().push(
                ClientRequest::RemoveLabel {
                    owner: owner@,
                    repo: repo@,
                    number: issue_number,
                    label: label@,
                },
            ),
            old(self).client().replied(
                ClientRequest::RemoveLabel {
                    owner: owner@,
                    repo: repo@,
                    number: issue_number,
                    label: label@,
                },
                ClientReply::Done(r),
            ),
    {
        let r = self.client.remove_label(owner, repo, issue_number, label);
        self.sent = Ghost(
            self.sent@.push(
                ClientRequest::RemoveLabel {
                    owner: owner@,
                    repo: repo@,
                    number: issue_number,
                    label: label@,
                },
            ),
        );
        r
    }
}

// ---------------------------------------------------------------------------
// Request paths
// ---------------------------------------------------------------------------

/// `/repos/{owner}/{repo}`.
pub open spec fn repo_path(owner: Seq<char>, repo: Seq<char>) -> Seq<char> {
    "/repos/"@ + owner + "/"@ + repo
}

/// `/repos/{owner}/{repo}/pulls/{number}`.
pub open spec fn pull_path_spec(owner: Seq<char>, repo: Seq<char>, number: u64) -> Seq<char> {
    repo_path(owner, repo) + "/pulls/"@ + decimal(number as nat)
}

/// `/repos/{owner}/{repo}/pulls/{number}/merge`.
pub open spec fn merge_path_spec(owner: Seq<char>, repo: Seq<char>, number: u64) -> Seq<char> {
    pull_path_spec(owner, repo, number) + "/merge"@
}

/// `/repos/{owner}/{repo}/git/refs/heads/{branch}`.
pub open spec fn branch_ref_path_spec(owner: Seq<char>, repo: Seq<char>, branch: Seq<char>) -> Seq<
    char,
> {
    repo_path(owner, repo) + "/git/refs/heads/"@ + branch
}

/// `/repos/{owner}/{repo}/issues/{number}/labels`.
pub open spec fn issue_labels_path_spec(owner: Seq<char>, repo: Seq<char>, number: u64) -> Seq<
    char,
> {
    repo_path(owner, repo) + "/issues/"@ + decimal(number as nat) + "/labels"@
}

/// `/repos/{owner}/{repo}/issues/{number}/labels/{label}` with the label
/// name percent-encoded as one path segment.
pub open spec fn label_path_spec(owner: Seq<char>, repo: Seq<char>, number: u64, label: &str) -> Seq<
    char,
> {
    issue_labels_path_spec(owner, repo, number) + "/"@ + encode_path_segment_spec(vstd::utf8::encode_utf8(label@))
}

fn push_str(s: &mut String, t: &str)
    ensures
        final(s)@ == old(s)@ + t@,
{
    s.append(t);
}

fn repo_path_string(owner: &str, repo: &str) -> (r: String)
    ensures
        r@ == repo_path(owner@, repo@),
{
    let mut s = to_owned_string("/repos/");
    push_str(&mut s, owner);
    push_str(&mut s, "/");
    push_str(&mut s, repo);
    s
}

/// Path of the pull request endpoint.
pub fn pull_path(owner: &str, repo: &str, number: u64) -> (r: String)
    ensures
        r@ == pull_path_spec(owner@, repo@, number),
{
    let mut s = repo_path_string(owner, repo);
    push_str(&mut s, "/pulls/");
    push_decimal(&mut s, number);
    s
}

/// Path of the pull request merge endpoint.
pub fn merge_path(owner: &str, repo: &str, number: u64) -> (r: String)
    ensures
        r@ == merge_path_spec(owner@, repo@, number),
{
    let mut s = pull_path(owner, repo, number);
    push_str(&mut s, "/merge");
    s
}

/// Path of the git reference of branch `branch`.
pub fn branch_ref_path(owner: &str, repo: &str, branch: &str) -> (r: String)
    ensures
        r@ == branch_ref_path_spec(owner@, repo@, branch@),
{
    let mut s = repo_path_string(owner, repo);
    push_str(&mut s, "/git/refs/heads/");
    push_str(&mut s, branch);
    s
}

/// Path listing the labels of an issue.
pub fn issue_labels_path(owner: &str, repo: &str, number: u64) -> (r: String)
    ensures
        r@ == issue_labels_path_spec(owner@, repo@, number),
{
    let mut s = repo_path_string(owner, repo);
    push_str(&mut s, "/issues/");
    push_decimal(&mut s, number);
    push_str(&mut s, "/labels");
    s
}

/// Path that removes label `label` (by name) from an issue.
pub fn label_path(owner: &str, repo: &str, number: u64, label: &str) -> (r: String)
    ensures
        r@ == label_path_spec(owner@, repo@, number, label),
{
    let mut s = issue_labels_path(owner, repo, number);
    push_str(&mut s, "/");
    let enc = encode_path_segment(label);
    push_str(&mut s, enc.as_str());
    s
}

/// The API root for which the client keeps its built-in GitHub endpoint.
pub open spec fn is_default_api_url_spec(base_url: Seq<char>) -> bool {
    base_url == "https://api.github.com"@
}

/// Whether `base_url` is the public GitHub API, for which no custom base is
/// configured (any other value, such as a GitHub Enterprise Server URL, is).
pub fn is_default_api_url(base_url: &str) -> (r: bool)
    ensures
        r == is_default_api_url_spec(base_url@),
{
    str_eq(base_url, "https://api.github.com")
}

// ---------------------------------------------------------------------------
// Percent-encoding of a path segment
// ---------------------------------------------------------------------------

/// RFC 3986 unreserved bytes: ASCII letters, digits and `-` `_` `.` `~`.
pub open spec fn is_unreserved(b: u8) -> bool {
    ||| 0x30 <= b <= 0x39
    ||| 0x41 <= b <= 0x5a
    ||| 0x61 <= b <= 0x7a
    ||| b == 0x2d
    ||| b == 0x5f
    ||| b == 0x2e
    ||| b == 0x7e
}

/// Upper-case hexadecimal digit for `d < 16`.
pub open spec fn hex_digit(d: u8) -> char {
    if d < 10 {
        (('0' as u32) + d as u32) as char
    } else {
        (('A' as u32) + (d - 10) as u32) as char
    }
}

/// How one byte is written in a path segment: kept when unreserved,
/// otherwise `%` and two upper-case hex digits.
pub open spec fn encode_byte(b: u8) -> Seq<char> {
    if is_unreserved(b) {
        seq![b as char]
    } else {
        seq!['%', hex_digit(b / 16), hex_digit(b % 16)]
    }
}

/// The percent-encoding of `bytes`, byte by byte.
pub open spec fn encode_path_segment_spec(bytes: Seq<u8>) -> Seq<char>
    decreases bytes.len(),
{
    if bytes.len() == 0 {
        Seq::empty()
    } else {
        encode_path_segment_spec(bytes.drop_last()) + encode_byte(bytes.last())
    }
}

fn hex(d: u8) -> (c: char)
    requires
        d < 16,
    ensures
        c == hex_digit(d),
{
    if d < 10 {
        char_from_ascii_code(48 + d as u32)
    } else {
        char_from_ascii_code(65 + (d - 10) as u32)
    }
}

/// Percent-encodes `s` (its UTF-8 bytes) as a single URL path segment,
/// keeping the unreserved bytes and encoding every other byte, so that `/`,
/// `?`, `#`, `&`, `+` and non-ASCII text cannot change the URL's shape.
pub fn encode_path_segment(s: &str) -> (r: String)
    ensures
        r@ == encode_path_segment_spec(vstd::utf8::encode_utf8(s@)),
{
    let bytes = s.as_bytes();
    let mut out = String::new();
    let mut i: usize = 0;
    while i < bytes.len()
        invariant
            bytes@ == vstd::utf8::encode_utf8(s@),
            i <= bytes@.len(),
            out@ == encode_path_segment_spec(bytes@.subrange(0, i as int)),
        decreases bytes@.len() - i,
    {
        let b = bytes[i];
        let unreserved = (0x30 <= b && b <= 0x39) || (0x41 <= b && b <= 0x5a) || (0x61 <= b && b
            <= 0x7a) || b == 0x2d || b == 0x5f || b == 0x2e || b == 0x7e;
        if unreserved {
            push_char(&mut out, char_from_ascii_code(b as u32));
        } else {
            push_char(&mut out, '%');
            push_char(&mut out, hex(b / 16));
            push_char(&mut out, hex(b % 16));
        }
        let ghost next = bytes@.subrange(0, i + 1);
        assert(next.drop_last() =~= bytes@.subrange(0, i as int));
        assert(out@ =~= encode_path_segment_spec(next));
        i = i + 1;
    }
    assert(bytes@.subrange(0, i as int) =~= bytes@);
    out
}

/// A character that may appear in an encoded segment: an unreserved ASCII
/// character, `%`, or an upper-case hex digit.
pub open spec fn is_segment_char(c: char) -> bool {
    ||| ('0' <= c <= '9')
    ||| ('A' <= c <= 'Z')
    ||| ('a' <= c <= 'z')
    ||| c == '-'
    ||| c == '_'
    ||| c == '.'
    ||| c == '~'
    ||| c == '%'
}

/// An encoded label only holds unreserved characters and percent escapes:
/// no `/`, `?`, `#`, `&` or `+` can reach the request path from a label.
pub proof fn law_encoded_segment_is_path_safe(bytes: Seq<u8>)
    ensures
        forall|i: int|
            0 <= i < encode_path_segment_spec(bytes).len() ==> is_segment_char(
                #[trigger] encode_path_segment_spec(bytes)[i],
            ),
    decreases bytes.len(),
{
    if bytes.len() > 0 {
        law_encoded_segment_is_path_safe(bytes.drop_last());
        let a = encode_path_segment_spec(bytes.drop_last());
        let b = encode_byte(bytes.last());
        let x = bytes.last();
        assert(x / 16 < 16 && x % 16 < 16);
        assert forall|i: int| 0 <= i < (a + b).len() implies is_segment_char(#[trigger] (a + b)[i]) by {
            if i < a.len() {
                assert((a + b)[i] == a[i]);
            } else {
                assert((a + b)[i] == b[i - a.len()]);
            }
        }
    }
}


/// The value of an upper-case hexadecimal digit.
pub open spec fn hex_value(c: char) -> int {
    if '0' <= c <= '9' {
        (c as u32) - ('0' as u32)
    } else {
        (c as u32) - ('A' as u32) + 10
    }
}

/// Reads an encoded path segment back into bytes: `%XY` is the byte with
/// hex value `XY`, any other character is its own (ASCII) byte.
pub open spec fn decode_path_segment(s: Seq<char>) -> Seq<u8>
    decreases s.len(),
{
    if s.len() == 0 {
        Seq::empty()
    } else if s[0] == '%' && s.len() >= 3 {
        seq![(hex_value(s[1]) * 16 + hex_value(s[2])) as u8] + decode_path_segment(
            s.subrange(3, s.len() as int),
        )
    } else {
        seq![s[0] as u8] + decode_path_segment(s.subrange(1, s.len() as int))
    }
}

proof fn lemma_encode_first(bytes: Seq<u8>)
    requires
        bytes.len() > 0,
    ensures
        encode_path_segment_spec(bytes) == encode_byte(bytes[0]) + encode_path_segment_spec(
            bytes.subrange(1, bytes.len() as int),
        ),
    decreases bytes.len(),
{
    if bytes.len() == 1 {
        assert(bytes.drop_last().len() == 0);
        assert(bytes.subrange(1, 1).len() == 0);
        assert(encode_path_segment_spec(bytes.subrange(1, 1)) =~= Seq::<char>::empty());
        assert(encode_path_segment_spec(bytes.drop_last()) =~= Seq::<char>::empty());
        assert(bytes.last() == bytes[0]);
        assert(encode_byte(bytes[0]) + Seq::<char>::empty() =~= encode_byte(bytes[0]));
        assert(Seq::<char>::empty() + encode_byte(bytes[0]) =~= encode_byte(bytes[0]));
    } else {
        let init = bytes.drop_last();
        lemma_encode_first(init);
        let tail = bytes.subrange(1, bytes.len() as int);
        assert(tail.drop_last() =~= init.subrange(1, init.len() as int));
        assert(tail.last() == bytes.last());
        assert(encode_path_segment_spec(tail) == encode_path_segment_spec(tail.drop_last())
            + encode_byte(tail.last()));
        assert(encode_path_segment_spec(bytes) =~= encode_byte(bytes[0])
            + encode_path_segment_spec(tail));
    }
}

proof fn lemma_decode_one(b: u8, rest: Seq<char>)
    ensures
        decode_path_segment(encode_byte(b) + rest) == seq![b] + decode_path_segment(rest),
{
    let e = encode_byte(b) + rest;
    if is_unreserved(b) {
        assert((b as char) as u8 == b);
        assert(e[0] == b as char);
        assert(e.subrange(1, e.len() as int) =~= rest);
    } else {
        let hi = b / 16;
        let lo = b % 16;
        assert(hi < 16 && lo < 16);
        assert(hex_value(hex_digit(hi)) == hi);
        assert(hex_value(hex_digit(lo)) == lo);
        assert(e[0] == '%' && e[1] == hex_digit(hi) && e[2] == hex_digit(lo));
        assert(e.subrange(3, e.len() as int) =~= rest);
        assert((hi * 16 + lo) as u8 == b);
    }
}

/// Percent-encoding loses nothing: decoding an encoded segment gives back
/// the input bytes, so distinct labels always name distinct paths.
pub proof fn law_encoding_round_trips(bytes: Seq<u8>)
    ensures
        decode_path_segment(encode_path_segment_spec(bytes)) == bytes,
    decreases bytes.len(),
{
    if bytes.len() == 0 {
        assert(encode_path_segment_spec(bytes) =~= Seq::<char>::empty());
    } else {
        let tail = bytes.subrange(1, bytes.len() as int);
        lemma_encode_first(bytes);
        law_encoding_round_trips(tail);
        lemma_decode_one(bytes[0], encode_path_segment_spec(tail));
        assert(seq![bytes[0]] + tail =~= bytes);
    }
}

/// The branch's ref path names exactly that branch: it is the path for the
/// empty branch name followed by the branch name, character for character,
/// and that common prefix ends with `/git/refs/heads/`. Distinct branches
/// therefore get distinct paths.
pub proof fn law_branch_ref_path_names_the_branch(
    owner: Seq<char>,
    repo: Seq<char>,
    branch: Seq<char>,
    other: Seq<char>,
)
    ensures
        branch_ref_path_spec(owner, repo, branch) == branch_ref_path_spec(owner, repo, Seq::empty())
            + branch,
        ({
            let base = branch_ref_path_spec(owner, repo, Seq::empty());
            &&& base.len() >= 16
            &&& base.subrange(base.len() - 16, base.len() as int) == "/git/refs/heads/"@
        }),
        branch != other ==> branch_ref_path_spec(owner, repo, branch) != branch_ref_path_spec(
            owner,
            repo,
            other,
        ),
{
    reveal_strlit("/git/refs/heads/");
    let base = branch_ref_path_spec(owner, repo, Seq::empty());
    assert(repo_path(owner, repo) + "/git/refs/heads/"@ + Seq::<char>::empty() =~= repo_path(
        owner,
        repo,
    ) + "/git/refs/heads/"@);
    assert(branch_ref_path_spec(owner, repo, branch) =~= base + branch);
    assert(base.subrange(base.len() - 16, base.len() as int) =~= "/git/refs/heads/"@);
    if branch != other {
        let p = base + branch;
        let q = base + other;
        if p == q {
            assert(branch =~= p.subrange(base.len() as int, p.len() as int));
            assert(other =~= q.subrange(base.len() as int, q.len() as int));
        }
    }
}

/// The label path is the issue's labels path, a `/`, and one segment that
/// holds only unreserved characters and percent escapes and that decodes
/// back to the UTF-8 bytes of the label: every label, whatever characters
/// it has, is named exactly and cannot change the path's shape.
pub proof fn law_label_path_names_the_label(owner: Seq<char>, repo: Seq<char>, number: u64, label: &str)
    ensures
        ({
            let p = label_path_spec(owner, repo, number, label);
            let pre = issue_labels_path_spec(owner, repo, number) + "/"@;
            &&& p.len() >= pre.len()
            &&& p.subrange(0, pre.len() as int) == pre
            &&& forall|i: int| pre.len() <= i < p.len() ==> is_segment_char(#[trigger] p[i])
            &&& decode_path_segment(p.subrange(pre.len() as int, p.len() as int))
                == vstd::utf8::encode_utf8(label@)
        }),
{
    let p = label_path_spec(owner, repo, number, label);
    let pre = issue_labels_path_spec(owner, repo, number) + "/"@;
    let seg = encode_path_segment_spec(vstd::utf8::encode_utf8(label@));
    assert(p =~= pre + seg);
    assert(p.subrange(0, pre.len() as int) =~= pre);
    assert(p.subrange(pre.len() as int, p.len() as int) =~= seg);
    law_encoded_segment_is_path_safe(vstd::utf8::encode_utf8(label@));
    law_encoding_round_trips(vstd::utf8::encode_utf8(label@));
    assert forall|i: int| pre.len() <= i < p.len() implies is_segment_char(#[trigger] p[i]) by {
        assert(p[i] == seg[i - pre.len()]);
    }
}

/// The merge request carries the pull request's head commit, names the
/// method (`merge`, `squash` or `rebase`; the fast-forward methods fall back
/// to `merge`), and sends a title or message exactly when it is not blank.
pub proof fn law_merge_request_fields(
    method: MergeMethod,
    head_sha: Seq<char>,
    title: Seq<char>,
    message: Seq<char>,
)
    ensures
        ({
            let r = merge_request_spec(method, head_sha, title, message);
            &&& r.sha == head_sha
            &&& method == MergeMethod::Squash ==> r.merge_method == "squash"@
            &&& method == MergeMethod::Rebase ==> r.merge_method == "rebase"@
            &&& (method != MergeMethod::Squash && method != MergeMethod::Rebase) ==> r.merge_method
                == "merge"@
            &&& (r.commit_title is Some <==> !all_white_space(title))
            &&& (r.commit_title matches Some(t) ==> t == title)
            &&& (r.commit_message is Some <==> !all_white_space(message))
            &&& (r.commit_message matches Some(t) ==> t == message)
        }),
{
}

} // verus!
