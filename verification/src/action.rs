//! The merge workflow.
//!
//! The action checks, in order: that the triggering actor matches
//! `allowed-usernames-regex`; that the pull request is open; that, when
//! `filter-label` is set, one of its labels matches it. Then it merges (or
//! fast-forwards), and finally removes the matching label when a filter was
//! set. Skips are reported as warnings and are not failures; a failure to
//! merge is; a failure to remove the label is only a warning.
//!
//! The workflow is a state machine: [`advance`] takes the current
//! [`RunState`] and the [`Event`] that answers the last request, and returns
//! the next state, the log lines to emit, and the next [`Action`]: a
//! request to the forge, or the end of the run. [`run`] drives it through a
//! [`ClientSession`] on a [`GithubClient`], which records every request.

use vstd::prelude::*;

use crate::context::GithubContext;
use crate::github_client::{
    merge_request_spec, ClientReply, ClientRequest, ClientSession, GithubClient, Label, MergeRequest,
    MergeRequestView, PullRequest,
};
use crate::inputs::{ActionInputs, MergeMethod};
use crate::logger::{emit, lemma_logged_lines_push, logged_lines, LogLevel, LogLine, Logger};
use crate::pattern::{regex_compiles, regex_error_text, regex_is_match, Pattern};
use crate::text::{concat2, str_eq, to_owned_string};

verus! {

/// How a run ended, when it did not fail.
#[derive(Debug, Clone, Copy, PartialEq, Eq, Structural)]
pub enum Outcome {
    /// Skipped: the actor's username did not match the regex.
    SkippedActor,
    /// Skipped: the pull request is closed.
    SkippedClosed,
    /// Skipped: no label of the pull request matches `filter-label`.
    SkippedLabelMissing,
    /// The base branch was fast-forwarded to the head commit.
    FastForwarded,
    /// The pull request was merged through the merge endpoint.
    Merged,
}

/// Why a run failed.
#[derive(Debug, Clone)]
pub enum ActionError {
    /// `allowed-usernames-regex` is not a valid regex.
    InvalidUsernameRegex { pattern: String, detail: String },
    /// `filter-label` is not a valid regex.
    InvalidFilterLabel { pattern: String, detail: String },
    /// The pull request could not be fetched.
    FetchPull { cause: String },
    /// The fast-forward was refused (no fallback configured).
    FastForward { cause: String },
    /// The merge was refused.
    Merge { cause: String, after_fallback: bool },
}

/// [`ActionError`] as the workflow decides it: the kind, the offending
/// pattern or the client's reason. The regex crate's own explanation of
/// an invalid pattern is left out.
pub enum ActionErrorView {
    InvalidUsernameRegex(Seq<char>),
    InvalidFilterLabel(Seq<char>),
    FetchPull(Seq<char>),
    FastForward(Seq<char>),
    Merge(Seq<char>, bool),
}

impl View for ActionError {
    type V = ActionErrorView;

    open spec fn view(&self) -> ActionErrorView {
        match self {
            ActionError::InvalidUsernameRegex { pattern, .. } =>
                ActionErrorView::InvalidUsernameRegex(pattern@),
            ActionError::InvalidFilterLabel { pattern, .. } => ActionErrorView::InvalidFilterLabel(
                pattern@,
            ),
            ActionError::FetchPull { cause } => ActionErrorView::FetchPull(cause@),
            ActionError::FastForward { cause } => ActionErrorView::FastForward(cause@),
            ActionError::Merge { cause, after_fallback } => ActionErrorView::Merge(
                cause@,
                *after_fallback,
            ),
        }
    }
}

/// The one-line summary of each failure.
pub open spec fn error_summary(e: ActionErrorView) -> Seq<char> {
    match e {
        ActionErrorView::InvalidUsernameRegex(p) => "invalid allowed-usernames-regex: "@ + p,
        ActionErrorView::InvalidFilterLabel(p) => "invalid filter-label regex: "@ + p,
        ActionErrorView::FetchPull(_) => "failed to fetch pull request"@,
        ActionErrorView::FastForward(_) => "fast-forward update_ref failed"@,
        ActionErrorView::Merge(_, false) => "merge request failed"@,
        ActionErrorView::Merge(_, true) => "merge request failed (after fast-forward fallback)"@,
    }
}

impl ActionError {
    /// The underlying reason: the regex crate's explanation, or the
    /// client's error.
    pub open spec fn reason(&self) -> Seq<char> {
        match self {
            ActionError::InvalidUsernameRegex { detail, .. } => detail@,
            ActionError::InvalidFilterLabel { detail, .. } => detail@,
            ActionError::FetchPull { cause } => cause@,
            ActionError::FastForward { cause } => cause@,
            ActionError::Merge { cause, .. } => cause@,
        }
    }

    /// The one-line summary of this failure.
    pub fn message(&self) -> (s: String)
        ensures
            s@ == error_summary(self@),
    {
        match self {
            ActionError::InvalidUsernameRegex { pattern, .. } => concat2(
                "invalid allowed-usernames-regex: ",
                pattern.as_str(),
            ),
            ActionError::InvalidFilterLabel { pattern, .. } => concat2(
                "invalid filter-label regex: ",
                pattern.as_str(),
            ),
            ActionError::FetchPull { .. } => to_owned_string("failed to fetch pull request"),
            ActionError::FastForward { .. } => to_owned_string("fast-forward update_ref failed"),
            ActionError::Merge { after_fallback, .. } => {
                if *after_fallback {
                    to_owned_string("merge request failed (after fast-forward fallback)")
                } else {
                    to_owned_string("merge request failed")
                }
            },
        }
    }

    /// The summary followed by the underlying reason.
    pub fn full_message(&self) -> (s: String)
        ensures
            s@ == error_summary(self@) + ": "@ + self.reason(),
    {
        let mut s = self.message();
        s.append(": ");
        match self {
            ActionError::InvalidUsernameRegex { detail, .. } => s.append(detail.as_str()),
            ActionError::InvalidFilterLabel { detail, .. } => s.append(detail.as_str()),
            ActionError::FetchPull { cause } => s.append(cause.as_str()),
            ActionError::FastForward { cause } => s.append(cause.as_str()),
            ActionError::Merge { cause, .. } => s.append(cause.as_str()),
        }
        s
    }
}

/// Where the workflow stands.
#[derive(Debug, Clone)]
pub enum RunState {
    /// Nothing done yet.
    Start,
    /// Waiting for the pull request.
    AwaitingPull,
    /// Waiting for the fast-forward; `fallback` is the merge to try if it
    /// is refused, `label` the label to remove afterwards.
    AwaitingFastForward { fallback: Option<MergeRequest>, label: Option<String> },
    /// Waiting for the merge; `label` is the label to remove afterwards.
    AwaitingMerge { after_fallback: bool, label: Option<String> },
    /// Waiting for the label removal; the run's outcome is already known.
    AwaitingLabelRemoval { outcome: Outcome },
    /// The run is over.
    Finished,
}

/// [`RunState`] with its strings as character sequences.
pub enum RunStateView {
    Start,
    AwaitingPull,
    AwaitingFastForward(Option<MergeRequestView>, Option<Seq<char>>),
    AwaitingMerge(bool, Option<Seq<char>>),
    AwaitingLabelRemoval(Outcome),
    Finished,
}

/// The view of an optional merge request.
pub open spec fn opt_request_view(o: Option<MergeRequest>) -> Option<MergeRequestView> {
    match o {
        Some(r) => Some(r@),
        None => None,
    }
}

impl View for RunState {
    type V = RunStateView;

    open spec fn view(&self) -> RunStateView {
        match self {
            RunState::Start => RunStateView::Start,
            RunState::AwaitingPull => RunStateView::AwaitingPull,
            RunState::AwaitingFastForward { fallback, label } => RunStateView::AwaitingFastForward(
                opt_request_view(*fallback),
                label.deep_view(),
            ),
            RunState::AwaitingMerge { after_fallback, label } => RunStateView::AwaitingMerge(
                *after_fallback,
                label.deep_view(),
            ),
            RunState::AwaitingLabelRemoval { outcome } => RunStateView::AwaitingLabelRemoval(
                *outcome,
            ),
            RunState::Finished => RunStateView::Finished,
        }
    }
}

/// The answer to the last request.
#[derive(Debug)]
pub enum Event {
    /// The run begins; nothing was requested yet.
    Begin,
    /// The pull request, or why it could not be fetched.
    PullFetched(Result<PullRequest, String>),
    /// Whether the fast-forward went through.
    FastForwardDone(Result<(), String>),
    /// Whether the merge went through.
    MergeDone(Result<(), String>),
    /// Whether the label was removed.
    LabelRemovalDone(Result<(), String>),
}

/// What the driver does next.
#[derive(Debug)]
pub enum Action {
    /// Fetch pull request `number`.
    GetPull { number: u64 },
    /// Advance branch `base_ref` to `head_sha` (pull request `number`).
    FastForward { number: u64, base_ref: String, head_sha: String },
    /// Merge pull request `number` with `request`.
    MergePull { number: u64, request: MergeRequest },
    /// Remove `label` from pull request `number`.
    RemoveLabel { number: u64, label: String },
    /// Stop; the run ends with `result`.
    Finish { result: Result<Outcome, ActionError> },
}

/// [`Action`] with its strings as character sequences.
pub enum ActionView {
    GetPull(u64),
    FastForward(u64, Seq<char>, Seq<char>),
    MergePull(u64, MergeRequestView),
    RemoveLabel(u64, Seq<char>),
    Finish(Result<Outcome, ActionErrorView>),
}

impl View for Action {
    type V = ActionView;

    open spec fn view(&self) -> ActionView {
        match self {
            Action::GetPull { number } => ActionView::GetPull(*number),
            Action::FastForward { number, base_ref, head_sha } => ActionView::FastForward(
                *number,
                base_ref@,
                head_sha@,
            ),
            Action::MergePull { number, request } => ActionView::MergePull(*number, request@),
            Action::RemoveLabel { number, label } => ActionView::RemoveLabel(*number, label@),
            Action::Finish { result } => ActionView::Finish(
                match result {
                    Ok(o) => Ok(*o),
                    Err(e) => Err(e@),
                },
            ),
        }
    }
}

/// One transition of the workflow.
#[derive(Debug)]
pub struct Step {
    pub state: RunState,
    pub logs: Vec<LogLine>,
    pub action: Action,
}

/// [`Step`] with its strings as character sequences.
pub struct StepView {
    pub state: RunStateView,
    pub logs: Seq<(LogLevel, Seq<char>)>,
    pub action: ActionView,
}

/// The view of a list of log lines.
pub open spec fn logs_view(logs: Seq<LogLine>) -> Seq<(LogLevel, Seq<char>)> {
    logs.map_values(|l: LogLine| (l.level, l.message@))
}

impl View for Step {
    type V = StepView;

    open spec fn view(&self) -> StepView {
        StepView { state: self.state@, logs: logs_view(self.logs@), action: self.action@ }
    }
}

// ---------------------------------------------------------------------------
// The workflow, stated
// ---------------------------------------------------------------------------

/// An info line.
pub open spec fn info(m: Seq<char>) -> (LogLevel, Seq<char>) {
    (LogLevel::Info, m)
}

/// A warning line.
pub open spec fn warn(m: Seq<char>) -> (LogLevel, Seq<char>) {
    (LogLevel::Warning, m)
}

/// The run ends with `result` after emitting `logs`.
pub open spec fn finish(logs: Seq<(LogLevel, Seq<char>)>, result: Result<Outcome, ActionErrorView>) -> StepView {
    StepView { state: RunStateView::Finished, logs, action: ActionView::Finish(result) }
}

/// The actor may trigger a merge: the username regex compiles and matches.
pub open spec fn actor_allowed(inputs: ActionInputs, ctx: GithubContext) -> bool {
    regex_compiles(inputs.allowed_usernames_regex@) && regex_is_match(
        inputs.allowed_usernames_regex@,
        ctx.actor@,
    )
}

/// Step 1: the username gate.
pub open spec fn begin_spec(inputs: ActionInputs, ctx: GithubContext) -> StepView {
    let pat = inputs.allowed_usernames_regex@;
    if !regex_compiles(pat) {
        finish(seq![], Err(ActionErrorView::InvalidUsernameRegex(pat)))
    } else if !regex_is_match(pat, ctx.actor@) {
        finish(
            seq![warn("Ignored, the username does not match."@)],
            Ok(Outcome::SkippedActor),
        )
    } else {
        StepView {
            state: RunStateView::AwaitingPull,
            logs: seq![info("Username matched."@)],
            action: ActionView::GetPull(inputs.number),
        }
    }
}

/// The first of `names` that `pat` matches.
pub open spec fn first_matching(pat: Seq<char>, names: Seq<Seq<char>>) -> Option<Seq<char>>
    decreases names.len(),
{
    if names.len() == 0 {
        None
    } else if regex_is_match(pat, names[0]) {
        Some(names[0])
    } else {
        first_matching(pat, names.subrange(1, names.len() as int))
    }
}

/// Step 4 is planned: merge, or fast-forward (possibly with a fallback
/// merge), after `logs`; `label` is what to remove afterwards.
pub open spec fn plan_spec(
    inputs: ActionInputs,
    pr: PullRequest,
    logs: Seq<(LogLevel, Seq<char>)>,
    label: Option<Seq<char>>,
) -> StepView {
    let base = pr.base.ref_@;
    let sha = pr.head.sha@;
    let target = "heads/"@ + base + "@"@ + sha;
    match inputs.merge_method {
        MergeMethod::FastForward => StepView {
            state: RunStateView::AwaitingFastForward(None, label),
            logs: logs.push(info("Updating to: "@ + target)),
            action: ActionView::FastForward(inputs.number, base, sha),
        },
        MergeMethod::FastForwardOrMerge => StepView {
            state: RunStateView::AwaitingFastForward(
                Some(
                    merge_request_spec(
                        MergeMethod::Merge,
                        sha,
                        inputs.merge_title@,
                        inputs.merge_message@,
                    ),
                ),
                label,
            ),
            logs: logs.push(info("Attempting fast-forward: "@ + target)),
            action: ActionView::FastForward(inputs.number, base, sha),
        },
        _ => StepView {
            state: RunStateView::AwaitingMerge(false, label),
            logs,
            action: ActionView::MergePull(
                inputs.number,
                merge_request_spec(
                    inputs.merge_method,
                    sha,
                    inputs.merge_title@,
                    inputs.merge_message@,
                ),
            ),
        },
    }
}

/// Steps 2 and 3: the pull request is open, and carries a matching label
/// when a filter is set.
pub open spec fn pull_spec(inputs: ActionInputs, r: Result<PullRequest, String>) -> StepView {
    match r {
        Err(e) => finish(seq![], Err(ActionErrorView::FetchPull(e@))),
        Ok(pr) => if pr.state@ == "closed"@ {
            finish(
                seq![warn("Ignored, the pull-request is closed."@)],
                Ok(Outcome::SkippedClosed),
            )
        } else {
            let open = info("The pull-request is open."@);
            let filter = inputs.filter_label@;
            if filter.len() == 0 {
                plan_spec(inputs, pr, seq![open, info("Label check is disabled."@)], None)
            } else if !regex_compiles(filter) {
                finish(seq![open], Err(ActionErrorView::InvalidFilterLabel(filter)))
            } else {
                match first_matching(filter, pr.label_names()) {
                    None => finish(
                        seq![
                            open,
                            warn("Ignored, the label does not exist on the pull-request."@),
                        ],
                        Ok(Outcome::SkippedLabelMissing),
                    ),
                    Some(l) => plan_spec(inputs, pr, seq![open, info("Label matched."@)], Some(l)),
                }
            }
        },
    }
}

/// After a successful merge or fast-forward: remove the matching label if
/// there is one to remove, else end with `outcome`.
pub open spec fn after_write_spec(
    number: u64,
    outcome: Outcome,
    logs: Seq<(LogLevel, Seq<char>)>,
    label: Option<Seq<char>>,
) -> StepView {
    match label {
        Some(l) => StepView {
            state: RunStateView::AwaitingLabelRemoval(outcome),
            logs,
            action: ActionView::RemoveLabel(number, l),
        },
        None => finish(logs, Ok(outcome)),
    }
}

/// The fast-forward was answered: on success go on to cleanup; on refusal
/// fall back to a merge when one is planned, else fail.
pub open spec fn fast_forward_done_spec(
    inputs: ActionInputs,
    fallback: Option<MergeRequestView>,
    label: Option<Seq<char>>,
    r: Result<(), String>,
) -> StepView {
    match r {
        Ok(_) => after_write_spec(
            inputs.number,
            Outcome::FastForwarded,
            if fallback is Some {
                seq![info("Fast-forward succeeded."@)]
            } else {
                seq![]
            },
            label,
        ),
        Err(e) => match fallback {
            None => finish(seq![], Err(ActionErrorView::FastForward(e@))),
            Some(req) => StepView {
                state: RunStateView::AwaitingMerge(true, label),
                logs: seq![warn("Fast-forward failed ("@ + e@ + "), falling back to merge."@)],
                action: ActionView::MergePull(inputs.number, req),
            },
        },
    }
}

/// The merge was answered: on success go on to cleanup, else fail.
pub open spec fn merge_done_spec(
    inputs: ActionInputs,
    after_fallback: bool,
    label: Option<Seq<char>>,
    r: Result<(), String>,
) -> StepView {
    match r {
        Ok(_) => after_write_spec(inputs.number, Outcome::Merged, seq![], label),
        Err(e) => finish(seq![], Err(ActionErrorView::Merge(e@, after_fallback))),
    }
}

/// Step 5 was answered: the outcome stands either way; a failure is only
/// a warning.
pub open spec fn label_removal_done_spec(outcome: Outcome, r: Result<(), String>) -> StepView {
    match r {
        Ok(_) => finish(seq![], Ok(outcome)),
        Err(e) => finish(seq![warn(e@)], Ok(outcome)),
    }
}

/// `event` answers what `state` waits for.
pub open spec fn fits(state: RunStateView, event: Event) -> bool {
    match state {
        RunStateView::Start => event is Begin,
        RunStateView::AwaitingPull => event is PullFetched,
        RunStateView::AwaitingFastForward(_, _) => event is FastForwardDone,
        RunStateView::AwaitingMerge(_, _) => event is MergeDone,
        RunStateView::AwaitingLabelRemoval(_) => event is LabelRemovalDone,
        RunStateView::Finished => false,
    }
}

/// The whole transition function. Pairs of a state and an event that does
/// not answer it (excluded by [`fits`]) are given an arbitrary result.
pub open spec fn advance_spec(
    inputs: ActionInputs,
    ctx: GithubContext,
    state: RunStateView,
    event: Event,
) -> StepView {
    match state {
        RunStateView::Start => begin_spec(inputs, ctx),
        RunStateView::AwaitingPull => match event {
            Event::PullFetched(r) => pull_spec(inputs, r),
            _ => finish(seq![], Ok(Outcome::SkippedActor)),
        },
        RunStateView::AwaitingFastForward(fallback, label) => match event {
            Event::FastForwardDone(r) => fast_forward_done_spec(inputs, fallback, label, r),
            _ => finish(seq![], Ok(Outcome::SkippedActor)),
        },
        RunStateView::AwaitingMerge(after_fallback, label) => match event {
            Event::MergeDone(r) => merge_done_spec(inputs, after_fallback, label, r),
            _ => finish(seq![], Ok(Outcome::SkippedActor)),
        },
        RunStateView::AwaitingLabelRemoval(outcome) => match event {
            Event::LabelRemovalDone(r) => label_removal_done_spec(outcome, r),
            _ => finish(seq![], Ok(Outcome::SkippedActor)),
        },
        RunStateView::Finished => finish(seq![], Ok(Outcome::SkippedActor)),
    }
}

// ---------------------------------------------------------------------------
// The workflow, computed
// ---------------------------------------------------------------------------

fn log_line(level: LogLevel, message: String) -> (l: LogLine)
    ensures
        l.level == level,
        l.message@ == message@,
{
    LogLine { level, message }
}

fn no_logs() -> (v: Vec<LogLine>)
    ensures
        logs_view(v@) == Seq::<(LogLevel, Seq<char>)>::empty(),
{
    let v: Vec<LogLine> = Vec::new();
    assert(logs_view(v@) =~= Seq::<(LogLevel, Seq<char>)>::empty());
    v
}

fn push_log(v: &mut Vec<LogLine>, level: LogLevel, message: String)
    ensures
        logs_view(final(v)@) == logs_view(old(v)@).push((level, message@)),
{
    let ghost before = v@;
    v.push(log_line(level, message));
    assert(logs_view(v@) =~= logs_view(before).push((level, message@)));
}

fn finish_step(logs: Vec<LogLine>, result: Result<Outcome, ActionError>) -> (s: Step)
    ensures
        s@ == finish(
            logs_view(logs@),
            match result {
                Ok(o) => Ok(o),
                Err(e) => Err(e@),
            },
        ),
{
    Step { state: RunState::Finished, logs, action: Action::Finish { result } }
}

/// Step 1: compiles `allowed-usernames-regex` and checks the actor.
pub fn begin(inputs: &ActionInputs, ctx: &GithubContext) -> (s: Step)
    ensures
        s@ == begin_spec(*inputs, *ctx),
{
    let username_re = match Pattern::compile(inputs.allowed_usernames_regex.as_str()) {
        Ok(p) => p,
        Err(e) => {
            let detail = regex_error_text(&e);
            return finish_step(
                no_logs(),
                Err(
                    ActionError::InvalidUsernameRegex {
                        pattern: inputs.allowed_usernames_regex.clone(),
                        detail,
                    },
                ),
            );
        },
    };
    let mut logs = no_logs();
    if !username_re.is_match(ctx.actor.as_str()) {
        push_log(
            &mut logs,
            LogLevel::Warning,
            to_owned_string("Ignored, the username does not match."),
        );
        return finish_step(logs, Ok(Outcome::SkippedActor));
    }
    push_log(&mut logs, LogLevel::Info, to_owned_string("Username matched."));
    Step { state: RunState::AwaitingPull, logs, action: Action::GetPull { number: inputs.number } }
}

/// The first label whose name `p` matches.
pub fn first_matching_label(p: &Pattern, labels: &Vec<Label>) -> (r: Option<String>)
    ensures
        r.deep_view() == first_matching(p.source(), labels@.map_values(|l: Label| l.name@)),
{
    let ghost names = labels@.map_values(|l: Label| l.name@);
    let mut i: usize = 0;
    assert(names.subrange(0, names.len() as int) =~= names);
    while i < labels.len()
        invariant
            names == labels@.map_values(|l: Label| l.name@),
            i <= labels@.len(),
            first_matching(p.source(), names) == first_matching(
                p.source(),
                names.subrange(i as int, names.len() as int),
            ),
        decreases labels@.len() - i,
    {
        let ghost rest = names.subrange(i as int, names.len() as int);
        assert(rest[0] == labels@[i as int].name@);
        if p.is_match(labels[i].name.as_str()) {
            return Some(labels[i].name.clone());
        }
        assert(rest.subrange(1, rest.len() as int) =~= names.subrange(
            i + 1,
            names.len() as int,
        ));
        i = i + 1;
    }
    None
}

fn target_text(prefix: &str, base: &str, sha: &str) -> (r: String)
    ensures
        r@ == prefix@ + ("heads/"@ + base@ + "@"@ + sha@),
{
    let mut s = to_owned_string(prefix);
    s.append("heads/");
    s.append(base);
    s.append("@");
    s.append(sha);
    assert(s@ =~= prefix@ + ("heads/"@ + base@ + "@"@ + sha@));
    s
}

fn plan(inputs: &ActionInputs, pr: &PullRequest, logs: Vec<LogLine>, label: Option<String>) -> (s:
    Step)
    ensures
        s@ == plan_spec(*inputs, *pr, logs_view(logs@), label.deep_view()),
{
    let mut logs = logs;
    match inputs.merge_method {
        MergeMethod::FastForward => {
            push_log(
                &mut logs,
                LogLevel::Info,
                target_text("Updating to: ", pr.base.ref_.as_str(), pr.head.sha.as_str()),
            );
            Step {
                state: RunState::AwaitingFastForward { fallback: None, label },
                logs,
                action: Action::FastForward {
                    number: inputs.number,
                    base_ref: pr.base.ref_.clone(),
                    head_sha: pr.head.sha.clone(),
                },
            }
        },
        MergeMethod::FastForwardOrMerge => {
            push_log(
                &mut logs,
                LogLevel::Info,
                target_text(
                    "Attempting fast-forward: ",
                    pr.base.ref_.as_str(),
                    pr.head.sha.as_str(),
                ),
            );
            let fallback = MergeRequest::from_inputs(
                MergeMethod::Merge,
                pr.head.sha.as_str(),
                inputs.merge_title.as_str(),
                inputs.merge_message.as_str(),
            );
            Step {
                state: RunState::AwaitingFastForward { fallback: Some(fallback), label },
                logs,
                action: Action::FastForward {
                    number: inputs.number,
                    base_ref: pr.base.ref_.clone(),
                    head_sha: pr.head.sha.clone(),
                },
            }
        },
        method => {
            let request = MergeRequest::from_inputs(
                method,
                pr.head.sha.as_str(),
                inputs.merge_title.as_str(),
                inputs.merge_message.as_str(),
            );
            Step {
                state: RunState::AwaitingMerge { after_fallback: false, label },
                logs,
                action: Action::MergePull { number: inputs.number, request },
            }
        },
    }
}

/// Steps 2 and 3: checks the fetched pull request and plans the merge.
pub fn on_pull(inputs: &ActionInputs, r: Result<PullRequest, String>) -> (s: Step)
    ensures
        s@ == pull_spec(*inputs, r),
{
    let pr = match r {
        Ok(pr) => pr,
        Err(e) => {
            return finish_step(no_logs(), Err(ActionError::FetchPull { cause: e }));
        },
    };
    let mut logs = no_logs();
    if str_eq(pr.state.as_str(), "closed") {
        push_log(
            &mut logs,
            LogLevel::Warning,
            to_owned_string("Ignored, the pull-request is closed."),
        );
        return finish_step(logs, Ok(Outcome::SkippedClosed));
    }
    push_log(&mut logs, LogLevel::Info, to_owned_string("The pull-request is open."));
    if inputs.filter_label.as_str().is_empty() {
        push_log(&mut logs, LogLevel::Info, to_owned_string("Label check is disabled."));
        assert(logs_view(logs@) =~= seq![
            info("The pull-request is open."@),
            info("Label check is disabled."@),
        ]);
        return plan(inputs, &pr, logs, None);
    }
    let label_re = match Pattern::compile(inputs.filter_label.as_str()) {
        Ok(p) => p,
        Err(e) => {
            let detail = regex_error_text(&e);
            return finish_step(
                logs,
                Err(
                    ActionError::InvalidFilterLabel {
                        pattern: inputs.filter_label.clone(),
                        detail,
                    },
                ),
            );
        },
    };
    match first_matching_label(&label_re, &pr.labels) {
        None => {
            push_log(
                &mut logs,
                LogLevel::Warning,
                to_owned_string("Ignored, the label does not exist on the pull-request."),
            );
            assert(logs_view(logs@) =~= seq![
                info("The pull-request is open."@),
                warn("Ignored, the label does not exist on the pull-request."@),
            ]);
            finish_step(logs, Ok(Outcome::SkippedLabelMissing))
        },
        Some(l) => {
            push_log(&mut logs, LogLevel::Info, to_owned_string("Label matched."));
            assert(logs_view(logs@) =~= seq![
                info("The pull-request is open."@),
                info("Label matched."@),
            ]);
            plan(inputs, &pr, logs, Some(l))
        },
    }
}

fn after_write(number: u64, outcome: Outcome, logs: Vec<LogLine>, label: Option<String>) -> (s:
    Step)
    ensures
        s@ == after_write_spec(number, outcome, logs_view(logs@), label.deep_view()),
{
    match label {
        Some(l) => Step {
            state: RunState::AwaitingLabelRemoval { outcome },
            logs,
            action: Action::RemoveLabel { number, label: l },
        },
        None => finish_step(logs, Ok(outcome)),
    }
}

/// The fast-forward was answered.
pub fn on_fast_forward_done(
    inputs: &ActionInputs,
    fallback: Option<MergeRequest>,
    label: Option<String>,
    r: Result<(), String>,
) -> (s: Step)
    ensures
        s@ == fast_forward_done_spec(*inputs, opt_request_view(fallback), label.deep_view(), r),
{
    match r {
        Ok(()) => {
            let mut logs = no_logs();
            if fallback.is_some() {
                push_log(&mut logs, LogLevel::Info, to_owned_string("Fast-forward succeeded."));
            }
            after_write(inputs.number, Outcome::FastForwarded, logs, label)
        },
        Err(e) => match fallback {
            None => finish_step(no_logs(), Err(ActionError::FastForward { cause: e })),
            Some(request) => {
                let mut logs = no_logs();
                let mut m = to_owned_string("Fast-forward failed (");
                m.append(e.as_str());
                m.append("), falling back to merge.");
                push_log(&mut logs, LogLevel::Warning, m);
                Step {
                    state: RunState::AwaitingMerge { after_fallback: true, label },
                    logs,
                    action: Action::MergePull { number: inputs.number, request },
                }
            },
        },
    }
}

/// The merge was answered.
pub fn on_merge_done(
    inputs: &ActionInputs,
    after_fallback: bool,
    label: Option<String>,
    r: Result<(), String>,
) -> (s: Step)
    ensures
        s@ == merge_done_spec(*inputs, after_fallback, label.deep_view(), r),
{
    match r {
        Ok(()) => after_write(inputs.number, Outcome::Merged, no_logs(), label),
        Err(e) => finish_step(no_logs(), Err(ActionError::Merge { cause: e, after_fallback })),
    }
}

/// The label removal was answered.
pub fn on_label_removal_done(outcome: Outcome, r: Result<(), String>) -> (s: Step)
    ensures
        s@ == label_removal_done_spec(outcome, r),
{
    match r {
        Ok(()) => finish_step(no_logs(), Ok(outcome)),
        Err(e) => {
            let mut logs = no_logs();
            push_log(&mut logs, LogLevel::Warning, e);
            finish_step(logs, Ok(outcome))
        },
    }
}

/// One transition: from `state`, on `event`, to the next state, the lines
/// to log and the next action.
pub fn advance(inputs: &ActionInputs, ctx: &GithubContext, state: RunState, event: Event) -> (s:
    Step)
    requires
        fits(state@, event),
    ensures
        s@ == advance_spec(*inputs, *ctx, state@, event),
{
    match state {
        RunState::Start => begin(inputs, ctx),
        RunState::AwaitingPull => match event {
            Event::PullFetched(r) => on_pull(inputs, r),
            _ => unreached(),
        },
        RunState::AwaitingFastForward { fallback, label } => match event {
            Event::FastForwardDone(r) => on_fast_forward_done(inputs, fallback, label, r),
            _ => unreached(),
        },
        RunState::AwaitingMerge { after_fallback, label } => match event {
            Event::MergeDone(r) => on_merge_done(inputs, after_fallback, label, r),
            _ => unreached(),
        },
        RunState::AwaitingLabelRemoval { outcome } => match event {
            Event::LabelRemovalDone(r) => on_label_removal_done(outcome, r),
            _ => unreached(),
        },
        RunState::Finished => unreached(),
    }
}


// ---------------------------------------------------------------------------
// Driving the workflow
// ---------------------------------------------------------------------------

/// How far a state is from the end of the run; every transition lowers it.
pub open spec fn rank(s: RunStateView) -> nat {
    match s {
        RunStateView::Start => 5,
        RunStateView::AwaitingPull => 4,
        RunStateView::AwaitingFastForward(_, _) => 3,
        RunStateView::AwaitingMerge(_, _) => 2,
        RunStateView::AwaitingLabelRemoval(_) => 1,
        RunStateView::Finished => 0,
    }
}

/// A state that a run can be in: cleanup only ever follows a merge or a
/// fast-forward.
pub open spec fn state_well_formed(s: RunStateView) -> bool {
    s matches RunStateView::AwaitingLabelRemoval(o) ==> (o == Outcome::FastForwarded || o
        == Outcome::Merged)
}

/// `state` waits for the answer to `action`, or the run is over exactly
/// when the action is to finish.
pub open spec fn awaits(state: RunStateView, action: ActionView) -> bool {
    match action {
        ActionView::GetPull(_) => state is AwaitingPull,
        ActionView::FastForward(_, _, _) => state is AwaitingFastForward,
        ActionView::MergePull(_, _) => state is AwaitingMerge,
        ActionView::RemoveLabel(_, _) => state is AwaitingLabelRemoval,
        ActionView::Finish(_) => state is Finished,
    }
}

/// Every transition moves the run strictly closer to its end, and the next
/// state waits for exactly the answer to the request it issues: a driver
/// that answers each request terminates after at most five steps.
pub proof fn law_transitions_progress(
    inputs: ActionInputs,
    ctx: GithubContext,
    state: RunStateView,
    event: Event,
)
    requires
        fits(state, event),
    ensures
        ({
            let s = advance_spec(inputs, ctx, state, event);
            &&& awaits(s.state, s.action)
            &&& rank(s.state) < rank(state)
            &&& state_well_formed(s.state)
        }),
{
}

/// Only the first step judges the actor: no later step ends the run with
/// `SkippedActor` or an invalid username regex.
pub proof fn law_only_first_step_judges_actor(
    inputs: ActionInputs,
    ctx: GithubContext,
    state: RunStateView,
    event: Event,
)
    requires
        fits(state, event),
        state_well_formed(state),
        !(state is Start),
    ensures
        ({
            let s = advance_spec(inputs, ctx, state, event);
            &&& !(s.action matches ActionView::Finish(Ok(Outcome::SkippedActor)))
            &&& !(s.action matches ActionView::Finish(Err(ActionErrorView::InvalidUsernameRegex(_))))
        }),
{
}

/// What a run did: the lines it logged and the requests it handed to the
/// client, each in order, and how it ended.
pub struct RunTrace {
    pub logs: Seq<(LogLevel, Seq<char>)>,
    pub requests: Seq<ActionView>,
    pub result: Result<Outcome, ActionErrorView>,
}

/// `t` preceded by the lines `logs` and the requests `requests`.
pub open spec fn after(
    logs: Seq<(LogLevel, Seq<char>)>,
    requests: Seq<ActionView>,
    t: Option<RunTrace>,
) -> Option<RunTrace> {
    match t {
        Some(t) => Some(
            RunTrace { logs: logs + t.logs, requests: requests + t.requests, result: t.result },
        ),
        None => None,
    }
}

/// The run from `state` on `event` that receives `answers`, in order, as the
/// answers to the requests it makes: each step is [`advance_spec`]. `None`
/// when an answer does not fit the request it follows, or when there are
/// fewer or more answers than requests.
pub open spec fn replay(
    inputs: ActionInputs,
    ctx: GithubContext,
    state: RunStateView,
    event: Event,
    answers: Seq<Event>,
) -> Option<RunTrace>
    decreases answers.len(),
{
    if !fits(state, event) {
        None
    } else {
        let s = advance_spec(inputs, ctx, state, event);
        match s.action {
            ActionView::Finish(result) => if answers.len() == 0 {
                Some(RunTrace { logs: s.logs, requests: Seq::empty(), result })
            } else {
                None
            },
            _ => if answers.len() == 0 {
                None
            } else {
                after(
                    s.logs,
                    seq![s.action],
                    replay(inputs, ctx, s.state, answers[0], answers.drop_first()),
                )
            },
        }
    }
}

/// The whole run, from the start, on the client's `answers`.
pub open spec fn run_spec(inputs: ActionInputs, ctx: GithubContext, answers: Seq<Event>) -> Option<
    RunTrace,
> {
    replay(inputs, ctx, RunStateView::Start, Event::Begin, answers)
}

/// The request that `action` hands to the client of repository `ctx`.
pub open spec fn request_of(ctx: GithubContext, action: ActionView) -> ClientRequest {
    let owner = ctx.owner@;
    let repo = ctx.repo@;
    match action {
        ActionView::GetPull(number) => ClientRequest::GetPull { owner, repo, number },
        ActionView::FastForward(number, base_ref, head_sha) => ClientRequest::FastForward {
            owner,
            repo,
            number,
            base_ref,
            head_sha,
        },
        ActionView::MergePull(number, request) => ClientRequest::MergePull {
            owner,
            repo,
            number,
            request,
        },
        ActionView::RemoveLabel(number, label) => ClientRequest::RemoveLabel {
            owner,
            repo,
            number,
            label,
        },
        ActionView::Finish(_) => ClientRequest::GetPull { owner, repo, number: 0 },
    }
}

/// The requests that `actions` hand to the client of repository `ctx`.
pub open spec fn requests_sent(ctx: GithubContext, actions: Seq<ActionView>) -> Seq<ClientRequest> {
    actions.map_values(|a: ActionView| request_of(ctx, a))
}

/// The client's reply that `event` carries.
pub open spec fn reply_of(event: Event) -> ClientReply {
    match event {
        Event::PullFetched(r) => ClientReply::Pull(r),
        Event::FastForwardDone(r) => ClientReply::Done(r),
        Event::MergeDone(r) => ClientReply::Done(r),
        Event::LabelRemovalDone(r) => ClientReply::Done(r),
        Event::Begin => ClientReply::Done(Ok(())),
    }
}

/// A run result with its error as [`ActionErrorView`].
pub open spec fn result_view(r: Result<Outcome, ActionError>) -> Result<Outcome, ActionErrorView> {
    match r {
        Ok(o) => Ok(o),
        Err(e) => Err(e@),
    }
}

/// The run that received `answers` from `client` ended with `result`, and
/// `log` went from `before` to `after` by reporting its lines: the answers
/// are replies of `client` to the requests the run made, one each, in order.
pub open spec fn run_explained<C: GithubClient + ?Sized, L: Logger>(
    client: &C,
    inputs: ActionInputs,
    ctx: GithubContext,
    answers: Seq<Event>,
    before: L,
    after: L,
    result: Result<Outcome, ActionErrorView>,
) -> bool {
    match run_spec(inputs, ctx, answers) {
        Some(t) => {
            &&& t.result == result
            &&& t.requests.len() == answers.len()
            &&& forall|i: int|
                0 <= i < answers.len() ==> client.replied(
                    request_of(ctx, #[trigger] t.requests[i]),
                    reply_of(answers[i]),
                )
            &&& logged_lines(after, before, t.logs)
        },
        None => false,
    }
}

/// The label a run removes after its merge: none without a filter, else the
/// first label of `pr` that the filter matches.
pub open spec fn label_to_remove(inputs: ActionInputs, pr: PullRequest) -> Option<Seq<char>> {
    if inputs.filter_label@.len() == 0 {
        None
    } else {
        first_matching(inputs.filter_label@, pr.label_names())
    }
}

/// `action` is one of the requests the inputs plan for the open pull
/// request `pr`: a fast-forward of its base branch to its head commit for
/// the fast-forward methods; a merge of its head commit under the
/// configured method, title and message for every method but
/// `fast-forward`; the removal of the label the filter matched.
pub open spec fn planned_request(inputs: ActionInputs, pr: PullRequest, action: ActionView) -> bool {
    let m = inputs.merge_method;
    match action {
        ActionView::FastForward(n, base_ref, head_sha) => {
            &&& n == inputs.number
            &&& base_ref == pr.base.ref_@
            &&& head_sha == pr.head.sha@
            &&& (m == MergeMethod::FastForward || m == MergeMethod::FastForwardOrMerge)
        },
        ActionView::MergePull(n, request) => {
            &&& n == inputs.number
            &&& m != MergeMethod::FastForward
            &&& request == merge_request_spec(
                m,
                pr.head.sha@,
                inputs.merge_title@,
                inputs.merge_message@,
            )
        },
        ActionView::RemoveLabel(n, label) => n == inputs.number && label_to_remove(inputs, pr)
            == Some(label),
        _ => false,
    }
}

/// How a run may end, given the inputs: a fast-forward only for the
/// fast-forward methods; a merge for every method but `fast-forward`; a
/// refused fast-forward fails the run only for `fast-forward`; a refused
/// merge after a fallback only for `fast-forward_or_merge`; the filter's
/// outcomes only when a filter is set.
pub open spec fn outcome_consistent(inputs: ActionInputs, result: Result<Outcome, ActionErrorView>) -> bool {
    let m = inputs.merge_method;
    let filter = inputs.filter_label@;
    &&& result == Ok::<Outcome, ActionErrorView>(Outcome::FastForwarded) ==> (m
        == MergeMethod::FastForward || m == MergeMethod::FastForwardOrMerge)
    &&& result == Ok::<Outcome, ActionErrorView>(Outcome::Merged) ==> m != MergeMethod::FastForward
    &&& result matches Err(ActionErrorView::FastForward(_)) ==> m == MergeMethod::FastForward
    &&& result matches Err(ActionErrorView::Merge(_, true)) ==> m == MergeMethod::FastForwardOrMerge
    &&& result matches Err(ActionErrorView::Merge(_, false)) ==> (m != MergeMethod::FastForward
        && m != MergeMethod::FastForwardOrMerge)
    &&& result matches Err(ActionErrorView::InvalidFilterLabel(p)) ==> (p == filter && filter.len()
        > 0 && !regex_compiles(filter))
    &&& result == Ok::<Outcome, ActionErrorView>(Outcome::SkippedLabelMissing) ==> (filter.len() > 0
        && regex_compiles(filter))
}

/// The run on `answers` kept to its plan: it asked nothing of the client
/// for an actor that is not allowed; its first request fetched the pull
/// request; it wrote only to an open pull request that carries a label
/// matching the filter when one is set, and each later request is one the
/// inputs plan for that pull request; a label removal, whatever its answer,
/// never fails the run.
pub open spec fn follows_plan(
    inputs: ActionInputs,
    ctx: GithubContext,
    answers: Seq<Event>,
    t: RunTrace,
) -> bool {
    &&& t.requests.len() == answers.len()
    &&& outcome_consistent(inputs, t.result)
    &&& !actor_allowed(inputs, ctx) ==> t.requests.len() == 0
    &&& t.requests.len() > 0 ==> t.requests[0] == ActionView::GetPull(inputs.number)
    &&& t.requests.len() > 1 ==> (answers[0] matches Event::PullFetched(Ok(pr)) && pr.state@
        != "closed"@ && (inputs.filter_label@.len() > 0 ==> label_to_remove(inputs, pr) is Some)
        && forall|i: int|
        1 <= i < t.requests.len() ==> planned_request(inputs, pr, #[trigger] t.requests[i]))
    &&& forall|i: int|
        0 <= i < t.requests.len() && (#[trigger] t.requests[i] is RemoveLabel) ==> t.result is Ok
}

/// A state after the pull request `pr` was fetched, as the inputs plan it.
pub open spec fn planned_state(inputs: ActionInputs, pr: PullRequest, s: RunStateView) -> bool {
    let m = inputs.merge_method;
    match s {
        RunStateView::AwaitingFastForward(fallback, label) => {
            &&& label == label_to_remove(inputs, pr)
            &&& ((m == MergeMethod::FastForward && fallback is None) || (m
                == MergeMethod::FastForwardOrMerge && fallback == Some(
                merge_request_spec(
                    MergeMethod::Merge,
                    pr.head.sha@,
                    inputs.merge_title@,
                    inputs.merge_message@,
                ),
            )))
        },
        RunStateView::AwaitingMerge(after_fallback, label) => {
            &&& label == label_to_remove(inputs, pr)
            &&& after_fallback ==> m == MergeMethod::FastForwardOrMerge
            &&& !after_fallback ==> (m != MergeMethod::FastForward && m
                != MergeMethod::FastForwardOrMerge)
        },
        RunStateView::AwaitingLabelRemoval(o) => (o == Outcome::FastForwarded && (m
            == MergeMethod::FastForward || m == MergeMethod::FastForwardOrMerge)) || (o
            == Outcome::Merged && m != MergeMethod::FastForward),
        _ => false,
    }
}

/// How a run may end once it is past the checks.
pub open spec fn write_result(inputs: ActionInputs, r: Result<Outcome, ActionErrorView>) -> bool {
    let m = inputs.merge_method;
    match r {
        Ok(Outcome::FastForwarded) => m == MergeMethod::FastForward || m
            == MergeMethod::FastForwardOrMerge,
        Ok(Outcome::Merged) => m != MergeMethod::FastForward,
        Err(ActionErrorView::FastForward(_)) => m == MergeMethod::FastForward,
        Err(ActionErrorView::Merge(_, af)) => (af ==> m == MergeMethod::FastForwardOrMerge) && (!af
            ==> (m != MergeMethod::FastForward && m != MergeMethod::FastForwardOrMerge)),
        _ => false,
    }
}

proof fn lemma_after_nothing(t: Option<RunTrace>)
    ensures
        after(Seq::empty(), Seq::empty(), t) == t,
{
    if let Some(x) = t {
        assert(Seq::<(LogLevel, Seq<char>)>::empty() + x.logs =~= x.logs);
        assert(Seq::<ActionView>::empty() + x.requests =~= x.requests);
    }
}

proof fn lemma_after_after(
    l1: Seq<(LogLevel, Seq<char>)>,
    r1: Seq<ActionView>,
    l2: Seq<(LogLevel, Seq<char>)>,
    r2: Seq<ActionView>,
    t: Option<RunTrace>,
)
    ensures
        after(l1, r1, after(l2, r2, t)) == after(l1 + l2, r1 + r2, t),
{
    if let Some(x) = t {
        assert(l1 + (l2 + x.logs) =~= (l1 + l2) + x.logs);
        assert(r1 + (r2 + x.requests) =~= (r1 + r2) + x.requests);
    }
}

/// One step of [`replay`] that asks the client something.
proof fn lemma_replay_step(
    inputs: ActionInputs,
    ctx: GithubContext,
    state: RunStateView,
    event: Event,
    answer: Event,
    rest: Seq<Event>,
)
    requires
        fits(state, event),
        !(advance_spec(inputs, ctx, state, event).action is Finish),
    ensures
        ({
            let s = advance_spec(inputs, ctx, state, event);
            replay(inputs, ctx, state, event, seq![answer] + rest) == after(
                s.logs,
                seq![s.action],
                replay(inputs, ctx, s.state, answer, rest),
            )
        }),
{
    let g = seq![answer] + rest;
    assert(g[0] == answer);
    assert(g.drop_first() =~= rest);
}

/// Past the checks, every request the run makes is planned for `pr`, it
/// ends as [`write_result`] allows, and a label removal never fails it.
proof fn lemma_replay_after_checks(
    inputs: ActionInputs,
    ctx: GithubContext,
    pr: PullRequest,
    state: RunStateView,
    event: Event,
    answers: Seq<Event>,
)
    requires
        planned_state(inputs, pr, state),
        replay(inputs, ctx, state, event, answers) is Some,
    ensures
        ({
            let t = replay(inputs, ctx, state, event, answers)->0;
            &&& t.requests.len() == answers.len()
            &&& write_result(inputs, t.result)
            &&& forall|i: int|
                0 <= i < t.requests.len() ==> planned_request(inputs, pr, #[trigger] t.requests[i])
            &&& forall|i: int|
                0 <= i < t.requests.len() && (#[trigger] t.requests[i] is RemoveLabel) ==> t.result is Ok
        }),
    decreases answers.len(),
{
    let s = advance_spec(inputs, ctx, state, event);
    if !(s.action is Finish) {
        let rest = answers.drop_first();
        lemma_replay_after_checks(inputs, ctx, pr, s.state, answers[0], rest);
        let t = replay(inputs, ctx, state, event, answers)->0;
        let t2 = replay(inputs, ctx, s.state, answers[0], rest)->0;
        assert(t.requests =~= seq![s.action] + t2.requests);
        assert forall|i: int| 0 <= i < t.requests.len() implies planned_request(
            inputs,
            pr,
            #[trigger] t.requests[i],
        ) && (t.requests[i] is RemoveLabel ==> t.result is Ok) by {
            if i > 0 {
                assert(t.requests[i] == t2.requests[i - 1]);
            }
        }
    }
}

/// Whatever the client answers, a run keeps to its plan ([`follows_plan`]).
pub proof fn law_run_follows_plan(inputs: ActionInputs, ctx: GithubContext, answers: Seq<Event>)
    requires
        run_spec(inputs, ctx, answers) is Some,
    ensures
        follows_plan(inputs, ctx, answers, run_spec(inputs, ctx, answers)->0),
{
    let t = run_spec(inputs, ctx, answers)->0;
    let s0 = begin_spec(inputs, ctx);
    if !(s0.action is Finish) {
        let a1 = answers[0];
        let rest1 = answers.drop_first();
        let t1 = replay(inputs, ctx, s0.state, a1, rest1)->0;
        assert(t.requests =~= seq![s0.action] + t1.requests);
        let r = a1->PullFetched_0;
        let s1 = pull_spec(inputs, r);
        if !(s1.action is Finish) {
            let pr = r->Ok_0;
            let a2 = rest1[0];
            let rest2 = rest1.drop_first();
            let t2 = replay(inputs, ctx, s1.state, a2, rest2)->0;
            assert(t1.requests =~= seq![s1.action] + t2.requests);
            lemma_first_matching(inputs.filter_label@, pr.label_names());
            assert(planned_state(inputs, pr, s1.state));
            assert(planned_request(inputs, pr, s1.action));
            lemma_replay_after_checks(inputs, ctx, pr, s1.state, a2, rest2);
            assert forall|i: int| 1 <= i < t.requests.len() implies planned_request(
                inputs,
                pr,
                #[trigger] t.requests[i],
            ) && (t.requests[i] is RemoveLabel ==> t.result is Ok) by {
                assert(t.requests[i] == t1.requests[i - 1]);
                if i > 1 {
                    assert(t1.requests[i - 1] == t2.requests[i - 2]);
                }
            }
        }
    }
}

/// Runs the workflow against `client`, logging to `log`, and returns how it
/// ended.
///
/// The run is [`run_spec`] on the client's answers: there are answers, each
/// a reply of the session's client to the request the run made at that
/// point (with `ctx`'s owner and repository), such that replaying the
/// workflow on them gives this result; the session records exactly the
/// replay's requests, one call each, in order, and nothing else; and `log`
/// received every line of that replay, in order. The run keeps to its plan
/// ([`follows_plan`]). Whatever the client
/// answers: the run is skipped for the actor exactly when the username
/// regex compiles and does not match the actor, it fails on that regex
/// exactly when it does not compile, any other outcome means the actor was
/// allowed, and the outcome fits the merge method and the filter
/// ([`outcome_consistent`]).
#[verifier::spinoff_prover]
#[verifier::rlimit(40)]
pub fn run<'a, C: GithubClient + ?Sized, L: Logger>(
    client: &mut ClientSession<'a, C>,
    inputs: &ActionInputs,
    ctx: &GithubContext,
    log: &mut L,
) -> (r: Result<Outcome, ActionError>)
    ensures
        (r matches Ok(Outcome::SkippedActor)) <==> (regex_compiles(inputs.allowed_usernames_regex@)
            && !regex_is_match(inputs.allowed_usernames_regex@, ctx.actor@)),
        (r matches Err(ActionError::InvalidUsernameRegex { .. })) <==> !regex_compiles(
            inputs.allowed_usernames_regex@,
        ),
        (r is Ok && !(r matches Ok(Outcome::SkippedActor))) ==> actor_allowed(*inputs, *ctx),
        outcome_consistent(*inputs, result_view(r)),
        final(client).client() == old(client).client(),
        exists|answers: Seq<Event>|
            {
                &&& #[trigger] run_explained(
                    old(client).client(),
                    *inputs,
                    *ctx,
                    answers,
                    *old(log),
                    *final(log),
                    result_view(r),
                )
                &&& follows_plan(*inputs, *ctx, answers, run_spec(*inputs, *ctx, answers)->0)
                &&& final(client).sent() == old(client).sent() + requests_sent(
                    *ctx,
                    run_spec(*inputs, *ctx, answers)->0.requests,
                )
            },
{
    let ghost log0: L = *log;
    let ghost mut answers: Seq<Event> = Seq::empty();
    let ghost mut done_logs: Seq<(LogLevel, Seq<char>)> = Seq::empty();
    let ghost mut done_reqs: Seq<ActionView> = Seq::empty();
    let mut state = RunState::Start;
    let mut event = Event::Begin;
    proof {
        assert forall|f: Seq<Event>|
            #[trigger] run_spec(*inputs, *ctx, answers + f) == after(
                done_logs,
                done_reqs,
                replay(*inputs, *ctx, state@, event, f),
            ) by {
            assert(answers + f =~= f);
            lemma_after_nothing(replay(*inputs, *ctx, state@, event, f));
        }
    }
    loop
        invariant
            fits(state@, event),
            state_well_formed(state@),
            !(state@ is Start) ==> actor_allowed(*inputs, *ctx),
            done_reqs.len() == answers.len(),
            forall|f: Seq<Event>|
                #[trigger] run_spec(*inputs, *ctx, answers + f) == after(
                    done_logs,
                    done_reqs,
                    replay(*inputs, *ctx, state@, event, f),
                ),
            forall|i: int|
                0 <= i < answers.len() ==> old(client).client().replied(
                    request_of(*ctx, #[trigger] done_reqs[i]),
                    reply_of(answers[i]),
                ),
            logged_lines(*log, log0, done_logs),
            log0 == *old(log),
            client.client() == old(client).client(),
            client.sent() == old(client).sent() + requests_sent(*ctx, done_reqs),
        decreases rank(state@),
    {
        let ghost prev = state@;
        let ghost ev = event;
        let step = advance(inputs, ctx, state, event);
        proof {
            law_transitions_progress(*inputs, *ctx, prev, ev);
            if !(prev is Start) {
                law_only_first_step_judges_actor(*inputs, *ctx, prev, ev);
            }
        }
        let ghost step_logs = logs_view(step.logs@);
        let ghost a = step.action@;
        let Step { state: next, logs, action } = step;
        let mut k: usize = 0;
        while k < logs.len()
            invariant
                k <= logs@.len(),
                logged_lines(*log, log0, done_logs + logs_view(logs@).subrange(0, k as int)),
            decreases logs@.len() - k,
        {
            let ghost mid = *log;
            emit(log, &logs[k]);
            proof {
                let lines = done_logs + logs_view(logs@).subrange(0, k as int);
                lemma_logged_lines_push(*log, mid, log0, lines, logs@[k as int].level, logs@[k as int].message@);
                assert(lines.push((logs@[k as int].level, logs@[k as int].message@)) =~= done_logs
                    + logs_view(logs@).subrange(0, k + 1));
            }
            k = k + 1;
        }
        assert(logs_view(logs@).subrange(0, k as int) =~= step_logs);
        match action {
            Action::Finish { result } => {
                proof {
                    assert(answers + Seq::<Event>::empty() =~= answers);
                    assert(done_reqs + Seq::<ActionView>::empty() =~= done_reqs);
                    assert(run_explained(
                        old(client).client(),
                        *inputs,
                        *ctx,
                        answers,
                        log0,
                        *log,
                        result_view(result),
                    ));
                    law_run_follows_plan(*inputs, *ctx, answers);
                }
                return result;
            },
            Action::GetPull { number } => {
                event = Event::PullFetched(
                    client.get_pull(ctx.owner.as_str(), ctx.repo.as_str(), number),
                );
            },
            Action::FastForward { number, base_ref, head_sha } => {
                event = Event::FastForwardDone(
                    client.fast_forward(
                        ctx.owner.as_str(),
                        ctx.repo.as_str(),
                        number,
                        base_ref.as_str(),
                        head_sha.as_str(),
                    ),
                );
            },
            Action::MergePull { number, request } => {
                event = Event::MergeDone(
                    client.merge_pull(ctx.owner.as_str(), ctx.repo.as_str(), number, &request),
                );
            },
            Action::RemoveLabel { number, label } => {
                event = Event::LabelRemovalDone(
                    client.remove_label(
                        ctx.owner.as_str(),
                        ctx.repo.as_str(),
                        number,
                        label.as_str(),
                    ),
                );
            },
        }
        proof {
            assert(old(client).client().replied(request_of(*ctx, a), reply_of(event)));
            assert(requests_sent(*ctx, done_reqs.push(a)) =~= requests_sent(*ctx, done_reqs).push(
                request_of(*ctx, a),
            ));
            assert forall|f: Seq<Event>|
                #[trigger] run_spec(*inputs, *ctx, answers.push(event) + f) == after(
                    done_logs + step_logs,
                    done_reqs.push(a),
                    replay(*inputs, *ctx, next@, event, f),
                ) by {
                let g = seq![event] + f;
                assert(answers + g =~= answers.push(event) + f);
                assert(run_spec(*inputs, *ctx, answers + g) == after(
                    done_logs,
                    done_reqs,
                    replay(*inputs, *ctx, prev, ev, g),
                ));
                lemma_replay_step(*inputs, *ctx, prev, ev, event, f);
                lemma_after_after(
                    done_logs,
                    done_reqs,
                    step_logs,
                    seq![a],
                    replay(*inputs, *ctx, next@, event, f),
                );
                assert(done_reqs + seq![a] =~= done_reqs.push(a));
            }
            answers = answers.push(event);
            done_logs = done_logs + step_logs;
            done_reqs = done_reqs.push(a);
        }
        state = next;
    }
}


// ---------------------------------------------------------------------------
// Laws of the workflow
// ---------------------------------------------------------------------------

/// `first_matching` picks a name that matches, and finds none only when no
/// name matches.
pub proof fn lemma_first_matching(pat: Seq<char>, names: Seq<Seq<char>>)
    ensures
        first_matching(pat, names) is None <==> forall|i: int|
            0 <= i < names.len() ==> !regex_is_match(pat, #[trigger] names[i]),
        first_matching(pat, names) matches Some(l) ==> names.contains(l) && regex_is_match(pat, l),
    decreases names.len(),
{
    if names.len() > 0 {
        let rest = names.subrange(1, names.len() as int);
        lemma_first_matching(pat, rest);
        if !regex_is_match(pat, names[0]) && first_matching(pat, rest) is None {
            assert forall|i: int| 0 <= i < names.len() implies !regex_is_match(
                pat,
                #[trigger] names[i],
            ) by {
                if i > 0 {
                    assert(names[i] == rest[i - 1]);
                }
            }
        }
        if !regex_is_match(pat, names[0]) && first_matching(pat, rest) is Some {
            let l = first_matching(pat, rest)->0;
            let k = choose|k: int| 0 <= k < rest.len() && rest[k] == l;
            assert(names[k + 1] == l);
        }
    }
}

/// The username gate: the pull request is fetched only for an allowed
/// actor, and the first step never merges or fast-forwards.
pub proof fn law_actor_gate(inputs: ActionInputs, ctx: GithubContext)
    ensures
        begin_spec(inputs, ctx).action is GetPull <==> actor_allowed(inputs, ctx),
        !(begin_spec(inputs, ctx).action is MergePull),
        !(begin_spec(inputs, ctx).action is FastForward),
{
}

/// A merge or fast-forward is requested only for an open pull request and,
/// when `filter-label` is set, only when one of its labels matches it.
pub proof fn law_write_requires_open_and_label(inputs: ActionInputs, r: Result<PullRequest, String>)
    ensures
        ({
            let s = pull_spec(inputs, r);
            (s.action is MergePull || s.action is FastForward) ==> {
                &&& r is Ok
                &&& r->Ok_0.state@ != "closed"@
                &&& inputs.filter_label@.len() > 0 ==> (regex_compiles(inputs.filter_label@)
                    && exists|i: int|
                    0 <= i < r->Ok_0.label_names().len() && regex_is_match(
                        inputs.filter_label@,
                        #[trigger] r->Ok_0.label_names()[i],
                    ))
            }
        }),
{
    if let Ok(pr) = r {
        lemma_first_matching(inputs.filter_label@, pr.label_names());
    }
}

/// The label the run will remove: none when no filter is set; otherwise a
/// label of the pull request that the filter matches.
pub open spec fn planned_label(s: RunStateView) -> Option<Option<Seq<char>>> {
    match s {
        RunStateView::AwaitingFastForward(_, l) => Some(l),
        RunStateView::AwaitingMerge(_, l) => Some(l),
        _ => None,
    }
}

/// Cleanup removes a label exactly when a filter is set, and the label it
/// removes is one of the pull request's labels that the filter matches.
pub proof fn law_cleanup_follows_filter(inputs: ActionInputs, pr: PullRequest)
    ensures
        planned_label(pull_spec(inputs, Ok(pr)).state) matches Some(l) ==> {
            &&& (l is None <==> inputs.filter_label@.len() == 0)
            &&& l matches Some(name) ==> pr.label_names().contains(name) && regex_is_match(
                inputs.filter_label@,
                name,
            )
        },
{
    lemma_first_matching(inputs.filter_label@, pr.label_names());
}

/// Once the merge or fast-forward has succeeded, the run asks to remove
/// exactly the planned label, if any, and otherwise ends with its outcome.
pub proof fn law_cleanup_after_success(
    inputs: ActionInputs,
    fallback: Option<MergeRequestView>,
    after_fallback: bool,
    label: Option<Seq<char>>,
)
    ensures
        ({
            let f = fast_forward_done_spec(inputs, fallback, label, Ok(()));
            let m = merge_done_spec(inputs, after_fallback, label, Ok(()));
            &&& label matches Some(l) ==> f.action == ActionView::RemoveLabel(inputs.number, l)
                && f.state == RunStateView::AwaitingLabelRemoval(Outcome::FastForwarded)
            &&& label matches Some(l) ==> m.action == ActionView::RemoveLabel(inputs.number, l)
                && m.state == RunStateView::AwaitingLabelRemoval(Outcome::Merged)
            &&& label is None ==> f.action == ActionView::Finish(Ok(Outcome::FastForwarded))
            &&& label is None ==> m.action == ActionView::Finish(Ok(Outcome::Merged))
        }),
{
}

/// A failed label removal is only a warning: the run ends with the same
/// outcome as when the removal succeeds.
pub proof fn law_label_removal_failure_is_only_a_warning(outcome: Outcome, e: String)
    ensures
        label_removal_done_spec(outcome, Err(e)).action == label_removal_done_spec(
            outcome,
            Ok(()),
        ).action,
        label_removal_done_spec(outcome, Err(e)).action == ActionView::Finish(Ok(outcome)),
        label_removal_done_spec(outcome, Err(e)).logs == seq![warn(e@)],
{
}

/// A refused merge fails the run, and so does a refused fast-forward when
/// no fallback is configured.
pub proof fn law_refused_write_fails_run(
    inputs: ActionInputs,
    after_fallback: bool,
    label: Option<Seq<char>>,
    e: String,
)
    ensures
        merge_done_spec(inputs, after_fallback, label, Err(e)).action == ActionView::Finish(
            Err(ActionErrorView::Merge(e@, after_fallback)),
        ),
        fast_forward_done_spec(inputs, None, label, Err(e)).action == ActionView::Finish(
            Err(ActionErrorView::FastForward(e@)),
        ),
{
}

/// `fast-forward_or_merge`: when the fast-forward is refused, the run falls
/// back to a plain merge of the pull request's head commit, with the
/// configured title and message.
pub proof fn law_fast_forward_falls_back_to_merge(inputs: ActionInputs, pr: PullRequest, e: String)
    requires
        inputs.merge_method == MergeMethod::FastForwardOrMerge,
    ensures
        pull_spec(inputs, Ok(pr)).state matches RunStateView::AwaitingFastForward(fallback, label)
            ==> ({
            let s = fast_forward_done_spec(inputs, fallback, label, Err(e));
            &&& s.action == ActionView::MergePull(
                inputs.number,
                merge_request_spec(
                    MergeMethod::Merge,
                    pr.head.sha@,
                    inputs.merge_title@,
                    inputs.merge_message@,
                ),
            )
            &&& s.state == RunStateView::AwaitingMerge(true, label)
        }),
{
}

/// The merge method decides the request: the fast-forward methods move the
/// base branch to the head commit; the others merge through the merge
/// endpoint under their own name.
pub proof fn law_method_decides_request(inputs: ActionInputs, pr: PullRequest)
    ensures
        pull_spec(inputs, Ok(pr)).action matches ActionView::FastForward(n, base, sha) ==> {
            &&& (inputs.merge_method == MergeMethod::FastForward || inputs.merge_method
                == MergeMethod::FastForwardOrMerge)
            &&& n == inputs.number
            &&& base == pr.base.ref_@
            &&& sha == pr.head.sha@
        },
        pull_spec(inputs, Ok(pr)).action matches ActionView::MergePull(n, req) ==> {
            &&& inputs.merge_method != MergeMethod::FastForward
            &&& inputs.merge_method != MergeMethod::FastForwardOrMerge
            &&& n == inputs.number
            &&& req == merge_request_spec(
                inputs.merge_method,
                pr.head.sha@,
                inputs.merge_title@,
                inputs.merge_message@,
            )
        },
{
}

/// An allowed actor's open pull request that passes the label gate (no
/// filter, or a label the filter matches) is always written to: the step
/// after the fetch asks for the fast-forward of its base branch to its head
/// commit under the fast-forward methods, and otherwise for the merge of its
/// head commit under the configured method, title and message.
pub proof fn law_open_accepted_pull_is_written(inputs: ActionInputs, pr: PullRequest)
    requires
        pr.state@ != "closed"@,
        inputs.filter_label@.len() == 0 || (regex_compiles(inputs.filter_label@) && exists|i: int|
            0 <= i < pr.label_names().len() && regex_is_match(
                inputs.filter_label@,
                #[trigger] pr.label_names()[i],
            )),
    ensures
        ({
            let s = pull_spec(inputs, Ok(pr));
            let m = inputs.merge_method;
            &&& (m == MergeMethod::FastForward || m == MergeMethod::FastForwardOrMerge) ==> s.action
                == ActionView::FastForward(inputs.number, pr.base.ref_@, pr.head.sha@)
            &&& (m != MergeMethod::FastForward && m != MergeMethod::FastForwardOrMerge) ==> s.action
                == ActionView::MergePull(
                inputs.number,
                merge_request_spec(m, pr.head.sha@, inputs.merge_title@, inputs.merge_message@),
            )
        }),
{
    lemma_first_matching(inputs.filter_label@, pr.label_names());
}

/// A run is skipped as closed only when the fetched pull request's state is
/// `closed`, and a closed pull request is always skipped.
pub proof fn law_skipped_closed_only_when_closed(inputs: ActionInputs, r: Result<PullRequest, String>)
    ensures
        (pull_spec(inputs, r).action == ActionView::Finish(Ok(Outcome::SkippedClosed))) <==> (r is Ok
            && r->Ok_0.state@ == "closed"@),
{
}

/// The fetched pull request passes the checks before a write: it is open,
/// and it carries a label the filter matches when a filter is set.
pub open spec fn passes_checks(inputs: ActionInputs, pr: PullRequest) -> bool {
    &&& pr.state@ != "closed"@
    &&& inputs.filter_label@.len() == 0 || (regex_compiles(inputs.filter_label@) && exists|i: int|
        0 <= i < pr.label_names().len() && regex_is_match(
            inputs.filter_label@,
            #[trigger] pr.label_names()[i],
        ))
}

/// Over a whole run: when the actor is allowed and the fetched pull request
/// `pr` passes the checks, the run's second request is the planned write
/// (a fast-forward or a merge); and a run ends skipped as closed only when
/// the fetched pull request's state is `closed`.
pub proof fn law_run_writes_open_accepted_pull(
    inputs: ActionInputs,
    ctx: GithubContext,
    answers: Seq<Event>,
    pr: PullRequest,
)
    requires
        run_spec(inputs, ctx, answers) is Some,
    ensures
        ({
            let t = run_spec(inputs, ctx, answers)->0;
            &&& (actor_allowed(inputs, ctx) && answers.len() > 0 && answers[0] == Event::PullFetched(
                Ok(pr),
            ) && passes_checks(inputs, pr)) ==> (t.requests.len() >= 2 && t.requests[1]
                == pull_spec(inputs, Ok(pr)).action && (t.requests[1] is FastForward
                || t.requests[1] is MergePull))
            &&& t.result == Ok::<Outcome, ActionErrorView>(Outcome::SkippedClosed) ==> (
            answers.len() == 1 && answers[0] is PullFetched && answers[0]->PullFetched_0 is Ok
                && answers[0]->PullFetched_0->Ok_0.state@ == "closed"@)
        }),
{
    let t = run_spec(inputs, ctx, answers)->0;
    let s0 = begin_spec(inputs, ctx);
    if !(s0.action is Finish) {
        let a1 = answers[0];
        let rest1 = answers.drop_first();
        let t1 = replay(inputs, ctx, s0.state, a1, rest1)->0;
        assert(t.requests =~= seq![s0.action] + t1.requests);
        let r = a1->PullFetched_0;
        let s1 = pull_spec(inputs, r);
        law_skipped_closed_only_when_closed(inputs, r);
        if a1 == Event::PullFetched(Ok(pr)) && passes_checks(inputs, pr) {
            law_open_accepted_pull_is_written(inputs, pr);
        }
        if !(s1.action is Finish) {
            let a2 = rest1[0];
            let rest2 = rest1.drop_first();
            let t2 = replay(inputs, ctx, s1.state, a2, rest2)->0;
            assert(t1.requests =~= seq![s1.action] + t2.requests);
            assert(t.requests[1] == s1.action);
            lemma_replay_after_checks_result(inputs, ctx, s1.state, a2, rest2);
        }
    }
}

/// Past the checks, a run never ends skipped.
proof fn lemma_replay_after_checks_result(
    inputs: ActionInputs,
    ctx: GithubContext,
    state: RunStateView,
    event: Event,
    answers: Seq<Event>,
)
    requires
        state_well_formed(state),
        state is AwaitingFastForward || state is AwaitingMerge || state is AwaitingLabelRemoval,
        replay(inputs, ctx, state, event, answers) is Some,
    ensures
        ({
            let r = replay(inputs, ctx, state, event, answers)->0.result;
            r != Ok::<Outcome, ActionErrorView>(Outcome::SkippedClosed)
        }),
    decreases answers.len(),
{
    let s = advance_spec(inputs, ctx, state, event);
    if !(s.action is Finish) {
        law_transitions_progress(inputs, ctx, state, event);
        lemma_replay_after_checks_result(inputs, ctx, s.state, answers[0], answers.drop_first());
    }
}

} // verus!
