//! The rules that every write of an Issue follows: it applies only at the
//! current revision and moves the revision on by one.
use crate::domain::{
    clone_opt_string, opt_string_view, DecisionRequest, DecisionRequestInput, DecisionResolution,
    DecisionResolutionInput, DomainError, ExecutionContext, InitiatorKind, Issue, IssueState,
    resolution_error, resolution_matches, spec_app_error_of, spec_domain_message,
    spec_initiator_name, next_state, patched, IssuePatch, Transition, TransitionKind, transition_kind_name, issue_state_name,
};
use crate::error::{conflict, fails_with_conflict, fails_with_input, AppError};
use crate::store::leases::{agent_session, agent_session_error};
use crate::text::{concat3, i64_to_decimal, int_decimal, str_equals};
use vstd::prelude::*;

verus! {

/// `r` is the revision conflict that reports `current`.
pub open spec fn is_revision_conflict<T>(r: Result<T, AppError>, current: i64) -> bool {
    r matches Err(AppError::RevisionConflict { current_revision }) && current_revision == current
}

/// A write made against `expected` applies only when that is the current
/// revision; otherwise it fails with the current one.
pub fn check_revision(expected: i64, current: i64) -> (r: Result<(), AppError>)
    ensures
        expected == current ==> r is Ok,
        expected != current ==> is_revision_conflict(r, current),
{
    if expected != current {
        return Err(AppError::RevisionConflict { current_revision: current });
    }
    Ok(())
}

/// As `check_revision`, where the caller may leave the revision unstated.
pub fn check_expected_revision(expected: Option<i64>, current: i64) -> (r: Result<(), AppError>)
    ensures
        expected matches Some(e) && e != current ==> is_revision_conflict(r, current),
        !(expected matches Some(e) && e != current) ==> r is Ok,
{
    match expected {
        Some(e) => check_revision(e, current),
        None => Ok(()),
    }
}

/// `after` is `before` moved to `state` at `now`, one revision later;
/// nothing else changes.
pub open spec fn is_state_change(before: Issue, after: Issue, state: IssueState, now: i64) -> bool {
    &&& after.state == state
    &&& after.revision == before.revision + 1
    &&& after.updated_at == now
    &&& after.id == before.id
    &&& after.project_id == before.project_id
    &&& after.number == before.number
    &&& after.title == before.title
    &&& after.body == before.body
    &&& after.priority == before.priority
    &&& after.assignee_kind == before.assignee_kind
    &&& after.assignee_name == before.assignee_name
    &&& after.created_at == before.created_at
}

/// `issue` moved to `state` at `now`.
pub fn state_changed(issue: &Issue, state: IssueState, now: i64) -> (r: Issue)
    requires
        issue.revision < i64::MAX,
    ensures
        is_state_change(*issue, r, state, now),
{
    Issue {
        id: issue.id,
        project_id: issue.project_id,
        number: issue.number,
        title: issue.title.clone(),
        body: clone_opt_string(&issue.body),
        state,
        priority: issue.priority,
        assignee_kind: issue.assignee_kind,
        assignee_name: clone_opt_string(&issue.assignee_name),
        revision: issue.revision + 1,
        created_at: issue.created_at,
        updated_at: now,
    }
}

/// `r` is the refusal of an Issue whose revision cannot move on.
pub open spec fn is_revision_exhausted<T>(r: Result<T, AppError>) -> bool {
    r matches Err(AppError::Internal(m)) && m@ == "issue revision is exhausted"@
}

/// Every write gives an Issue its next revision, which must fit.
pub fn check_revision_room(issue: &Issue) -> (r: Result<(), AppError>)
    ensures
        issue.revision == i64::MAX ==> is_revision_exhausted(r),
        issue.revision < i64::MAX ==> r is Ok,
{
    if issue.revision == i64::MAX {
        return Err(AppError::Internal("issue revision is exhausted".to_owned()));
    }
    Ok(())
}

/// An Issue with an open human decision is not completed.
pub fn check_completion_decisions(target: IssueState, has_open_decision: bool) -> (r: Result<
    (),
    AppError,
>)
    ensures
        target == IssueState::Done && has_open_decision ==> fails_with_conflict(
            r,
            "Issue has an unresolved human decision"@,
        ),
        !(target == IssueState::Done && has_open_decision) ==> r is Ok,
{
    if target == IssueState::Done && has_open_decision {
        return Err(conflict("Issue has an unresolved human decision"));
    }
    Ok(())
}

/// A transition keeps the Issue's lease only when it enters `in_progress`.
pub fn keeps_lease(target: IssueState) -> (b: bool)
    ensures
        b == (target == IssueState::InProgress),
{
    target == IssueState::InProgress
}

/// The message of the refusal, if any, of a decision request.
pub open spec fn decision_request_refusal(
    state: IssueState,
    lease_owner: Option<(Seq<char>, Seq<char>)>,
    context: ExecutionContext,
) -> Option<(bool, Seq<char>)> {
    if state == IssueState::Done || state == IssueState::Cancelled {
        Some((true, "cannot request a decision for a completed Issue"@))
    } else {
        match lease_owner {
            None => None,
            Some((agent, session)) => match agent_session_error(context) {
                Some(m) => Some((false, m)),
                None => if agent != context.agent->0@ || session != context.session_id->0@ {
                    Some((true, "lease is owned by another agent session"@))
                } else {
                    None
                },
            },
        }
    }
}

/// Checks that a decision can be requested: the Issue is not finished, and a
/// lease on it, if any, belongs to the requesting agent session. The flag of
/// a refusal tells a conflict (`true`) from invalid input (`false`).
pub fn check_decision_request(
    state: IssueState,
    lease_owner: Option<(&str, &str)>,
    context: &ExecutionContext,
) -> (r: Result<(), AppError>)
    ensures
        match decision_request_refusal(
            state,
            match lease_owner {
                Some((a, s)) => Some((a@, s@)),
                None => None,
            },
            *context,
        ) {
            Some((true, m)) => fails_with_conflict(r, m),
            Some((false, m)) => r matches Err(AppError::InvalidInput(n)) && n@ == m,
            None => r is Ok,
        },
{
    if state == IssueState::Done || state == IssueState::Cancelled {
        return Err(conflict("cannot request a decision for a completed Issue"));
    }
    if let Some((lease_agent, lease_session)) = lease_owner {
        let (agent, session_id) = agent_session(context)?;
        if !str_equals(lease_agent, agent) || !str_equals(lease_session, session_id) {
            return Err(conflict("lease is owned by another agent session"));
        }
    }
    Ok(())
}

fn clone_strings(v: &Vec<String>) -> (r: Vec<String>)
    ensures
        r@ == v@,
{
    let mut r: Vec<String> = Vec::new();
    let mut i: usize = 0;
    while i < v.len()
        invariant
            i <= v.len(),
            r@ == v@.take(i as int),
        decreases v.len() - i,
    {
        r.push(v[i].clone());
        assert(r@ =~= v@.take(i + 1));
        i = i + 1;
    }
    assert(v@.take(i as int) =~= v@);
    r
}

/// `r` is a new open decision request `id` on Issue `project#number`, made
/// under `context` at `now` with what `input` asks.
pub open spec fn is_new_decision_request(
    r: DecisionRequest,
    id: u128,
    project: Seq<char>,
    number: i64,
    input: DecisionRequestInput,
    context: ExecutionContext,
    now: i64,
) -> bool {
    &&& r.id == id
    &&& r.issue@ == project + "#"@ + int_decimal(number as int)
    &&& r.question == input.question
    &&& r.background == input.background
    &&& r.blocker == input.blocker
    &&& r.options@ == input.options@
    &&& r.recommendation == input.recommendation
    &&& r.resume_condition == input.resume_condition
    &&& r.requester_kind == Some(context.kind)
    &&& opt_string_view(r.requester_name) == spec_initiator_name(context)
    &&& r.requester_session_id == context.session_id
    &&& r.status@ == "open"@
    &&& r.answer is None
    &&& r.resolver_kind is None
    &&& r.resolver_name is None
    &&& r.resolver_session_id is None
    &&& r.created_at == now
    &&& r.resolved_at is None
}

/// A new open decision request `id` on Issue `project#number`, made under
/// `context` at `now`.
pub fn new_decision_request(
    id: u128,
    project: &str,
    number: i64,
    input: &DecisionRequestInput,
    context: &ExecutionContext,
    now: i64,
) -> (r: DecisionRequest)
    ensures
        is_new_decision_request(r, id, project@, number, *input, *context, now),
{
    let n = i64_to_decimal(number);
    let requester_name = match context.initiator_name() {
        Some(name) => Some(name.to_owned()),
        None => None,
    };
    DecisionRequest {
        id,
        issue: concat3(project, "#", n.as_str()),
        question: input.question.clone(),
        background: input.background.clone(),
        blocker: input.blocker.clone(),
        options: clone_strings(&input.options),
        recommendation: input.recommendation.clone(),
        resume_condition: input.resume_condition.clone(),
        requester_kind: Some(context.kind),
        requester_name,
        requester_session_id: clone_opt_string(&context.session_id),
        status: "open".to_owned(),
        answer: None,
        resolver_kind: None,
        resolver_name: None,
        resolver_session_id: None,
        created_at: now,
        resolved_at: None,
    }
}

/// The error, if any, with which resolving `request` to `target` under
/// `context` is refused.
pub open spec fn resolution_refusal(
    request: DecisionRequest,
    context: ExecutionContext,
    target: IssueState,
) -> Option<Seq<char>> {
    if request.status@ != "open"@ {
        Some("decision request is already resolved"@)
    } else if context.kind == InitiatorKind::Agent && request.requester_kind == Some(
        InitiatorKind::Agent,
    ) && opt_string_view(request.requester_name) == opt_string_view(context.agent)
        && opt_string_view(request.requester_session_id) == opt_string_view(context.session_id) {
        Some("the requesting agent session cannot resolve its own decision request"@)
    } else if context.kind != InitiatorKind::Human {
        Some("decision requests must be resolved by a human"@)
    } else if target == IssueState::InProgress {
        Some(
            "decision resolution cannot enter in_progress without a lease; use todo and claim the Issue"@,
        )
    } else {
        None
    }
}

fn opt_str_equal(a: &Option<String>, b: &Option<String>) -> (r: bool)
    ensures
        r == (opt_string_view(*a) == opt_string_view(*b)),
{
    match (a, b) {
        (Some(x), Some(y)) => str_equals(x.as_str(), y.as_str()),
        (None, None) => true,
        _ => false,
    }
}

/// Only a human resolves an open decision request, never the agent session
/// that asked it, and never into `in_progress`.
pub fn check_decision_resolution(
    request: &DecisionRequest,
    context: &ExecutionContext,
    target: IssueState,
) -> (r: Result<(), AppError>)
    ensures
        match resolution_refusal(*request, *context, target) {
            Some(m) => fails_with_conflict(r, m),
            None => r is Ok,
        },
{
    if !str_equals(request.status.as_str(), "open") {
        return Err(conflict("decision request is already resolved"));
    }
    if context.kind == InitiatorKind::Agent && request.requester_kind == Some(InitiatorKind::Agent)
        && opt_str_equal(&request.requester_name, &context.agent) && opt_str_equal(
        &request.requester_session_id,
        &context.session_id,
    ) {
        return Err(conflict("the requesting agent session cannot resolve its own decision request"));
    }
    if context.kind != InitiatorKind::Human {
        return Err(conflict("decision requests must be resolved by a human"));
    }
    if target == IssueState::InProgress {
        return Err(
            conflict(
                "decision resolution cannot enter in_progress without a lease; use todo and claim the Issue",
            ),
        );
    }
    Ok(())
}

/// Completing an Issue through a decision needs every other decision on it
/// resolved.
pub fn check_other_open_decisions(target: IssueState, another_open_request: bool) -> (r: Result<
    (),
    AppError,
>)
    ensures
        target == IssueState::Done && another_open_request ==> fails_with_conflict(
            r,
            "Issue has another unresolved human decision"@,
        ),
        !(target == IssueState::Done && another_open_request) ==> r is Ok,
{
    if target == IssueState::Done && another_open_request {
        return Err(conflict("Issue has another unresolved human decision"));
    }
    Ok(())
}

/// The checked resolution of a resolution input, its domain error turned
/// into an application error.
pub fn checked_resolution(input: DecisionResolutionInput) -> (r: Result<DecisionResolution, AppError>)
    ensures
        input.target_state == IssueState::InProgress ==> (r matches Err(
            AppError::InvalidTransition(m),
        ) && m@ == spec_domain_message(
            DomainError::InvalidTransition { from: IssueState::Blocked, transition: "decision_resolve" },
        )),
        input.target_state != IssueState::InProgress ==> match resolution_error(
            input.target_state,
            input.summary,
            input.verification,
            input.reason,
            input.wait_kind,
        ) {
            Some(m) => fails_with_input(r, m),
            None => r matches Ok(d) && d.target_state == input.target_state && resolution_matches(
                d,
                input.summary,
                input.verification,
                input.reason,
                input.wait_kind,
            ),
        },
{
    match input.into_resolution() {
        Ok(d) => Ok(d),
        Err(e) => Err(e.into_app_error()),
    }
}

/// `r` is `request` resolved with `answer` under `context` at `now`: what
/// was asked stays, and the answer and its resolver are recorded.
pub open spec fn is_resolved_request(
    request: DecisionRequest,
    r: DecisionRequest,
    answer: Seq<char>,
    context: ExecutionContext,
    now: i64,
) -> bool {
    &&& r.id == request.id
    &&& r.issue == request.issue
    &&& r.question == request.question
    &&& r.background == request.background
    &&& r.blocker == request.blocker
    &&& r.options@ == request.options@
    &&& r.recommendation == request.recommendation
    &&& r.resume_condition == request.resume_condition
    &&& r.requester_kind == request.requester_kind
    &&& r.requester_name == request.requester_name
    &&& r.requester_session_id == request.requester_session_id
    &&& r.status@ == "resolved"@
    &&& r.answer matches Some(a) && a@ == answer
    &&& r.resolver_kind == Some(context.kind)
    &&& opt_string_view(r.resolver_name) == spec_initiator_name(context)
    &&& r.resolver_session_id == context.session_id
    &&& r.created_at == request.created_at
    &&& r.resolved_at == Some(now)
}

/// `request` resolved with `answer` under `context` at `now`.
pub fn resolved_request(request: &DecisionRequest, answer: &str, context: &ExecutionContext, now: i64) -> (r:
    DecisionRequest)
    ensures
        is_resolved_request(*request, r, answer@, *context, now),
{
    let resolver_name = match context.initiator_name() {
        Some(name) => Some(name.to_owned()),
        None => None,
    };
    DecisionRequest {
        id: request.id,
        issue: request.issue.clone(),
        question: request.question.clone(),
        background: request.background.clone(),
        blocker: request.blocker.clone(),
        options: clone_strings(&request.options),
        recommendation: request.recommendation.clone(),
        resume_condition: request.resume_condition.clone(),
        requester_kind: request.requester_kind,
        requester_name: clone_opt_string(&request.requester_name),
        requester_session_id: clone_opt_string(&request.requester_session_id),
        status: "resolved".to_owned(),
        answer: Some(answer.to_owned()),
        resolver_kind: Some(context.kind),
        resolver_name,
        resolver_session_id: clone_opt_string(&context.session_id),
        created_at: request.created_at,
        resolved_at: Some(now),
    }
}

/// The state that a transition of `issue`, made against `expected`, moves it
/// to: the revision must be current and the transition allowed from the
/// Issue's state.
pub fn transition_target(issue: &Issue, expected: i64, transition: &Transition) -> (r: Result<
    IssueState,
    AppError,
>)
    ensures
        expected != issue.revision ==> is_revision_conflict(r, issue.revision),
        expected == issue.revision ==> match next_state(issue.state, transition.kind()) {
            Some(s) => r == Ok::<IssueState, AppError>(s),
            None => r matches Err(AppError::InvalidTransition(m)) && m@ == "cannot "@
                + transition_kind_name(transition.kind()) + " an issue in the "@
                + issue_state_name(issue.state) + " state"@,
        },
{
    check_revision(expected, issue.revision)?;
    match issue.state.apply(transition) {
        Ok(s) => Ok(s),
        Err(e) => Err(e.into_app_error()),
    }
}

/// `issue` with `patch` applied at `now`, made against `expected`: the
/// revision must be current, then able to move on.
pub fn edited_issue(issue: &Issue, expected: i64, patch: &IssuePatch, now: i64) -> (r: Result<
    Issue,
    AppError,
>)
    ensures
        expected != issue.revision ==> is_revision_conflict(r, issue.revision),
        expected == issue.revision && issue.revision == i64::MAX ==> is_revision_exhausted(r),
        expected == issue.revision && issue.revision < i64::MAX ==> (r matches Ok(after) && after == (
        Issue { revision: (issue.revision + 1) as i64, updated_at: now, ..patched(*issue, *patch) })),
{
    check_revision(expected, issue.revision)?;
    check_revision_room(issue)?;
    let mut updated = Issue {
        id: issue.id,
        project_id: issue.project_id,
        number: issue.number,
        title: issue.title.clone(),
        body: clone_opt_string(&issue.body),
        state: issue.state,
        priority: issue.priority,
        assignee_kind: issue.assignee_kind,
        assignee_name: clone_opt_string(&issue.assignee_name),
        revision: issue.revision,
        created_at: issue.created_at,
        updated_at: issue.updated_at,
    };
    patch.apply_to(&mut updated);
    updated.revision = issue.revision + 1;
    updated.updated_at = now;
    Ok(updated)
}

/// Decision requests are listed oldest first, by id among those of the same
/// time: `a` may come before `b`.
pub open spec fn decision_listed_before(a: DecisionRequest, b: DecisionRequest) -> bool {
    a.created_at < b.created_at || (a.created_at == b.created_at && a.id <= b.id)
}

/// The order in which an Issue's decision requests are listed: each index
/// once, oldest first, by id among those of the same time.
pub fn decision_order(decisions: &Vec<DecisionRequest>) -> (order: Vec<usize>)
    ensures
        order@.len() == decisions@.len(),
        order@.no_duplicates(),
        forall|i: int| 0 <= i < order@.len() ==> #[trigger] order@[i] < decisions@.len(),
        forall|i: int, j: int|
            0 <= i < j < order@.len() ==> decision_listed_before(
                decisions@[#[trigger] order@[i] as int],
                decisions@[#[trigger] order@[j] as int],
            ),
{
    let mut order: Vec<usize> = Vec::new();
    let mut k: usize = 0;
    while k < decisions.len()
        invariant
            k <= decisions.len(),
            order@.len() == k,
            order@.no_duplicates(),
            forall|i: int| 0 <= i < order@.len() ==> #[trigger] order@[i] < k,
            forall|i: int, j: int|
                0 <= i < j < order@.len() ==> decision_listed_before(
                    decisions@[#[trigger] order@[i] as int],
                    decisions@[#[trigger] order@[j] as int],
                ),
        decreases decisions.len() - k,
    {
        let d = &decisions[k];
        let mut p: usize = 0;
        while p < order.len() && (decisions[order[p]].created_at < d.created_at || (
        decisions[order[p]].created_at == d.created_at && decisions[order[p]].id <= d.id))
            invariant
                p <= order@.len(),
                order@.len() == k,
                k < decisions@.len(),
                *d == decisions@[k as int],
                forall|i: int| 0 <= i < order@.len() ==> #[trigger] order@[i] < k,
                forall|i: int| 0 <= i < p ==> decision_listed_before(
                    decisions@[#[trigger] order@[i] as int],
                    decisions@[k as int],
                ),
            decreases order@.len() - p,
        {
            p = p + 1;
        }
        let ghost old_order = order@;
        proof {
            assert forall|i: int| p <= i < old_order.len() implies !decision_listed_before(
                decisions@[#[trigger] old_order[i] as int],
                decisions@[k as int],
            ) by {
                if p < old_order.len() {
                    assert(!decision_listed_before(decisions@[old_order[p as int] as int], decisions@[k as int]));
                    if i > p {
                        assert(decision_listed_before(
                            decisions@[old_order[p as int] as int],
                            decisions@[old_order[i] as int],
                        ));
                    }
                }
            }
        }
        order.insert(p, k);
        proof {
            let n = order@;
            assert(n.len() == old_order.len() + 1);
            assert forall|i: int| 0 <= i < n.len() implies #[trigger] n[i] < k + 1 by {
                if i < p {
                    assert(n[i] == old_order[i]);
                } else if i > p {
                    assert(n[i] == old_order[i - 1]);
                }
            }
            assert forall|i: int, j: int|
                0 <= i < j < n.len() implies decision_listed_before(
                decisions@[#[trigger] n[i] as int],
                decisions@[#[trigger] n[j] as int],
            ) by {
                if i < p && j < p {
                    assert(n[i] == old_order[i] && n[j] == old_order[j]);
                } else if i < p && j == p {
                    assert(n[i] == old_order[i]);
                } else if i < p && j > p {
                    assert(n[i] == old_order[i] && n[j] == old_order[j - 1]);
                } else if i == p {
                    assert(n[j] == old_order[j - 1]);
                    assert(!decision_listed_before(decisions@[old_order[j - 1] as int], decisions@[k as int]));
                } else {
                    assert(n[i] == old_order[i - 1] && n[j] == old_order[j - 1]);
                }
            }
            assert forall|i: int, j: int| 0 <= i < n.len() && 0 <= j < n.len() && i != j implies n[i] != n[j] by {
                if i == p || j == p {
                } else {
                    let oi = if i < p { i } else { i - 1 };
                    let oj = if j < p { j } else { j - 1 };
                    assert(n[i] == old_order[oi] && n[j] == old_order[oj]);
                }
            }
        }
        k = k + 1;
    }
    order
}

/// The Issue that a transition to `target` writes at `now`: an Issue with
/// an open human decision is not completed, and one whose revision cannot
/// move on is not written.
pub fn transitioned_issue(issue: &Issue, target: IssueState, has_open_decision: bool, now: i64) -> (r: Result<
    Issue,
    AppError,
>)
    ensures
        target == IssueState::Done && has_open_decision ==> fails_with_conflict(
            r,
            "Issue has an unresolved human decision"@,
        ),
        !(target == IssueState::Done && has_open_decision) && issue.revision == i64::MAX
            ==> is_revision_exhausted(r),
        !(target == IssueState::Done && has_open_decision) && issue.revision < i64::MAX ==> (r matches Ok(
            after,
        ) && is_state_change(*issue, after, target, now)),
{
    match check_completion_decisions(target, has_open_decision) {
        Ok(()) => {},
        Err(e) => {
            return Err(e);
        },
    }
    match check_revision_room(issue) {
        Ok(()) => {},
        Err(e) => {
            return Err(e);
        },
    }
    Ok(state_changed(issue, target, now))
}

/// The refusals of a decision resolution, in the order in which they are
/// reported: a request that this context may not resolve (which covers a
/// resolution to `in_progress`), an invalid resolution, another open
/// decision on an Issue being completed, a stale revision, then a revision
/// that cannot move on. Only once all of them are passed does the Issue
/// move to the chosen state and the request become resolved, both at `now`.
pub fn plan_resolution(
    request: &DecisionRequest,
    context: &ExecutionContext,
    input: DecisionResolutionInput,
    another_open_request: bool,
    expected_revision: Option<i64>,
    issue: &Issue,
    answer: &str,
    now: i64,
) -> (r: Result<(DecisionResolution, Issue, DecisionRequest), AppError>)
    ensures
        match resolution_refusal(*request, *context, input.target_state) {
            Some(m) => fails_with_conflict(r, m),
            None => match resolution_error(
                input.target_state,
                input.summary,
                input.verification,
                input.reason,
                input.wait_kind,
            ) {
                Some(m) => fails_with_input(r, m),
                None => if input.target_state == IssueState::Done && another_open_request {
                    fails_with_conflict(r, "Issue has another unresolved human decision"@)
                } else if expected_revision matches Some(e) && e != issue.revision {
                    is_revision_conflict(r, issue.revision)
                } else if issue.revision == i64::MAX {
                    is_revision_exhausted(r)
                } else {
                    r matches Ok((d, after, resolved)) && d.target_state == input.target_state
                        && resolution_matches(
                        d,
                        input.summary,
                        input.verification,
                        input.reason,
                        input.wait_kind,
                    ) && is_state_change(*issue, after, input.target_state, now)
                        && is_resolved_request(*request, resolved, answer@, *context, now)
                },
            }
        },
{
    match check_decision_resolution(request, context, input.target_state) {
        Ok(()) => {},
        Err(e) => {
            return Err(e);
        },
    }
    let resolution = match checked_resolution(input) {
        Ok(d) => d,
        Err(e) => {
            return Err(e);
        },
    };
    match check_other_open_decisions(resolution.target_state, another_open_request) {
        Ok(()) => {},
        Err(e) => {
            return Err(e);
        },
    }
    match check_expected_revision(expected_revision, issue.revision) {
        Ok(()) => {},
        Err(e) => {
            return Err(e);
        },
    }
    match check_revision_room(issue) {
        Ok(()) => {},
        Err(e) => {
            return Err(e);
        },
    }
    let after = state_changed(issue, resolution.target_state, now);
    let resolved = resolved_request(request, answer, context, now);
    Ok((resolution, after, resolved))
}

/// The refusals of a decision request, in the order in which they are
/// reported: a finished Issue, or a lease held by another agent session (or
/// by anyone, for a context that is no agent session), then a revision that
/// cannot move on. Only once all of them are passed does the Issue become
/// blocked and the request `id` open, both at `now`.
pub fn plan_decision_request(
    issue: &Issue,
    lease_owner: Option<(&str, &str)>,
    context: &ExecutionContext,
    id: u128,
    project: &str,
    input: &DecisionRequestInput,
    now: i64,
) -> (r: Result<(Issue, DecisionRequest), AppError>)
    ensures
        match decision_request_refusal(
            issue.state,
            match lease_owner {
                Some((a, s)) => Some((a@, s@)),
                None => None,
            },
            *context,
        ) {
            Some((true, m)) => fails_with_conflict(r, m),
            Some((false, m)) => r matches Err(AppError::InvalidInput(n)) && n@ == m,
            None => if issue.revision == i64::MAX {
                is_revision_exhausted(r)
            } else {
                r matches Ok((blocked, request)) && is_state_change(*issue, blocked, IssueState::Blocked, now)
                    && is_new_decision_request(request, id, project@, issue.number, *input, *context, now)
            },
        },
{
    match check_decision_request(issue.state, lease_owner, context) {
        Ok(()) => {},
        Err(e) => {
            return Err(e);
        },
    }
    match check_revision_room(issue) {
        Ok(()) => {},
        Err(e) => {
            return Err(e);
        },
    }
    let blocked = state_changed(issue, IssueState::Blocked, now);
    let request = new_decision_request(id, project, issue.number, input, context, now);
    Ok((blocked, request))
}

} // verus!
