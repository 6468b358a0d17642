//! Claims and leases: who may work on an Issue, and for how long.
//! Times are nanoseconds since the Unix epoch, UTC.
use crate::domain::{clone_opt_string, AssigneeKind, ExecutionContext, InitiatorKind, Issue, IssueLease, IssueState, Priority};
use crate::error::{conflict, fails_with_conflict, fails_with_input, invalid_input, AppError};
use crate::store::writes::{check_revision_room, is_revision_exhausted};
use crate::text::{is_blank, is_blank_str, str_equals};
use vstd::prelude::*;

verus! {

/// How long a lease lasts after it is granted or renewed: 15 minutes.
pub const LEASE_TTL_MINUTES: i64 = 15;

/// The lease duration in nanoseconds.
pub const LEASE_TTL_NANOS: i64 = 900000000000;

/// The agent and session of an agent context.
pub open spec fn agent_session_error(context: ExecutionContext) -> Option<Seq<char>> {
    if context.kind != InitiatorKind::Agent {
        Some("agent execution context is required"@)
    } else if context.agent is None {
        Some("BETTR_AGENT is required"@)
    } else if context.session_id is None {
        Some("BETTR_SESSION_ID is required"@)
    } else {
        None
    }
}

/// The agent name and session id of an agent context; leases belong to them.
pub fn agent_session(context: &ExecutionContext) -> (r: Result<(&str, &str), AppError>)
    ensures
        match agent_session_error(*context) {
            Some(m) => fails_with_input(r, m),
            None => r matches Ok((a, s)) && a@ == context.agent->0@ && s@
                == context.session_id->0@,
        },
{
    if context.kind != InitiatorKind::Agent {
        return Err(invalid_input("agent execution context is required"));
    }
    let agent = match &context.agent {
        Some(a) => a.as_str(),
        None => {
            return Err(invalid_input("BETTR_AGENT is required"));
        },
    };
    let session_id = match &context.session_id {
        Some(s) => s.as_str(),
        None => {
            return Err(invalid_input("BETTR_SESSION_ID is required"));
        },
    };
    Ok((agent, session_id))
}

/// When a lease granted or renewed at `now` expires.
pub fn lease_expiry(now: i64) -> (e: i64)
    requires
        now <= i64::MAX - LEASE_TTL_NANOS,
    ensures
        e == now + LEASE_TTL_NANOS,
{
    now + LEASE_TTL_NANOS
}

/// A lease is stale once its expiry is reached.
pub fn is_stale(expires_at: i64, now: i64) -> (b: bool)
    ensures
        b == (expires_at <= now),
{
    expires_at <= now
}

/// The error, if any, with which claiming an Issue is refused.
pub open spec fn claimable_error(
    state: IssueState,
    has_open_blocker: bool,
    has_open_decision: bool,
    has_lease: bool,
) -> Option<Seq<char>> {
    if state != IssueState::Todo {
        Some("Issue is not claimable in its current state"@)
    } else if has_open_blocker {
        Some("Issue has unresolved blocking dependencies"@)
    } else if has_open_decision {
        Some("Issue has an unresolved human decision"@)
    } else if has_lease {
        Some("Issue already has a lease"@)
    } else {
        None
    }
}

/// An Issue can be claimed when it is `todo`, no unfinished Issue blocks it,
/// no human decision on it is open and nobody holds a lease on it.
pub fn ensure_claimable(
    state: IssueState,
    has_open_blocker: bool,
    has_open_decision: bool,
    has_lease: bool,
) -> (r: Result<(), AppError>)
    ensures
        match claimable_error(state, has_open_blocker, has_open_decision, has_lease) {
            Some(m) => fails_with_conflict(r, m),
            None => r is Ok,
        },
{
    if state != IssueState::Todo {
        return Err(conflict("Issue is not claimable in its current state"));
    }
    if has_open_blocker {
        return Err(conflict("Issue has unresolved blocking dependencies"));
    }
    if has_open_decision {
        return Err(conflict("Issue has an unresolved human decision"));
    }
    if has_lease {
        return Err(conflict("Issue already has a lease"));
    }
    Ok(())
}

/// Checks what a claim names: a positive number, and a project with it.
pub fn check_claim_target(project: Option<&str>, number: Option<i64>) -> (r: Result<(), AppError>)
    ensures
        number matches Some(n) && n < 1 ==> fails_with_input(r, "issue number must be positive"@),
        number matches Some(n) && n >= 1 && project is None ==> fails_with_input(
            r,
            "--project is required when claiming an Issue by number"@,
        ),
        (number is None || project is Some) && !(number matches Some(n) && n < 1) ==> r is Ok,
{
    if let Some(n) = number {
        if n < 1 {
            return Err(invalid_input("issue number must be positive"));
        }
        if project.is_none() {
            return Err(invalid_input("--project is required when claiming an Issue by number"));
        }
    }
    Ok(())
}

/// `after` is `before` put in progress, assigned to the agent `agent`, at
/// `now`, one revision later; nothing else changes.
pub open spec fn is_claimed_by(before: Issue, after: Issue, agent: Seq<char>, now: i64) -> bool {
    &&& after.state == IssueState::InProgress
    &&& after.assignee_kind == Some(AssigneeKind::Agent)
    &&& after.assignee_name matches Some(n) && n@ == agent
    &&& after.revision == before.revision + 1
    &&& after.updated_at == now
    &&& after.id == before.id
    &&& after.project_id == before.project_id
    &&& after.number == before.number
    &&& after.title == before.title
    &&& after.body == before.body
    &&& after.priority == before.priority
    &&& after.created_at == before.created_at
}

/// The Issue after a claim or a takeover by `agent` at `now`.
pub fn claimed_issue(issue: &Issue, agent: &str, now: i64) -> (r: Issue)
    requires
        issue.revision < i64::MAX,
    ensures
        is_claimed_by(*issue, r, agent@, now),
{
    Issue {
        id: issue.id,
        project_id: issue.project_id,
        number: issue.number,
        title: issue.title.clone(),
        body: clone_opt_string(&issue.body),
        state: IssueState::InProgress,
        priority: issue.priority,
        assignee_kind: Some(AssigneeKind::Agent),
        assignee_name: Some(agent.to_owned()),
        revision: issue.revision + 1,
        created_at: issue.created_at,
        updated_at: now,
    }
}

/// A new lease for `agent` and `session_id` at `now`.
pub fn new_lease(agent: &str, session_id: &str, now: i64) -> (l: IssueLease)
    requires
        now <= i64::MAX - LEASE_TTL_NANOS,
    ensures
        l.agent@ == agent@,
        l.session_id@ == session_id@,
        l.claimed_at == now,
        l.heartbeat_at == now,
        l.expires_at == now + LEASE_TTL_NANOS,
        l.lease_revision == 1,
        !l.stale,
{
    IssueLease {
        agent: agent.to_owned(),
        session_id: session_id.to_owned(),
        claimed_at: now,
        heartbeat_at: now,
        expires_at: lease_expiry(now),
        lease_revision: 1,
        stale: false,
    }
}

/// The error, if any, with which a heartbeat at `now` is refused.
pub open spec fn heartbeat_error(
    lease: IssueLease,
    agent: Seq<char>,
    session_id: Seq<char>,
    now: i64,
) -> Option<Seq<char>> {
    if lease.agent@ != agent || lease.session_id@ != session_id {
        Some("lease is owned by another agent session"@)
    } else if lease.expires_at <= now {
        Some("lease has expired; use takeover with a reason"@)
    } else {
        None
    }
}

/// Only the session that holds a lease renews it, and only before it expires.
pub fn check_heartbeat(lease: &IssueLease, agent: &str, session_id: &str, now: i64) -> (r: Result<
    (),
    AppError,
>)
    ensures
        match heartbeat_error(*lease, agent@, session_id@, now) {
            Some(m) => fails_with_conflict(r, m),
            None => r is Ok,
        },
{
    if !str_equals(lease.agent.as_str(), agent) || !str_equals(lease.session_id.as_str(), session_id) {
        return Err(conflict("lease is owned by another agent session"));
    }
    if lease.expires_at <= now {
        return Err(conflict("lease has expired; use takeover with a reason"));
    }
    Ok(())
}

/// The lease renewed at `now`.
pub fn renewed_lease(lease: &IssueLease, now: i64) -> (l: IssueLease)
    requires
        now <= i64::MAX - LEASE_TTL_NANOS,
        lease.lease_revision < i64::MAX,
    ensures
        l.agent == lease.agent,
        l.session_id == lease.session_id,
        l.claimed_at == lease.claimed_at,
        l.heartbeat_at == now,
        l.expires_at == now + LEASE_TTL_NANOS,
        l.lease_revision == lease.lease_revision + 1,
        !l.stale,
{
    IssueLease {
        agent: lease.agent.clone(),
        session_id: lease.session_id.clone(),
        claimed_at: lease.claimed_at,
        heartbeat_at: now,
        expires_at: lease_expiry(now),
        lease_revision: lease.lease_revision + 1,
        stale: false,
    }
}

/// A takeover states its reason.
pub fn check_takeover_reason(reason: &str) -> (r: Result<(), AppError>)
    ensures
        is_blank(reason@) ==> fails_with_input(r, "takeover reason must not be empty"@),
        !is_blank(reason@) ==> r is Ok,
{
    if is_blank_str(reason) {
        return Err(invalid_input("takeover reason must not be empty"));
    }
    Ok(())
}

/// The error, if any, with which a takeover at `now` is refused.
pub open spec fn takeover_error(lease: IssueLease, now: i64) -> Option<Seq<char>> {
    if lease.expires_at > now {
        Some("lease is still active"@)
    } else {
        None
    }
}

/// A lease is taken over only once it has expired.
pub fn check_takeover(lease: &IssueLease, now: i64) -> (r: Result<(), AppError>)
    ensures
        match takeover_error(*lease, now) {
            Some(m) => fails_with_conflict(r, m),
            None => r is Ok,
        },
{
    if lease.expires_at > now {
        return Err(conflict("lease is still active"));
    }
    Ok(())
}

/// The lease after `agent` and `session_id` take it over at `now`.
pub fn taken_over_lease(lease: &IssueLease, agent: &str, session_id: &str, now: i64) -> (l:
    IssueLease)
    requires
        now <= i64::MAX - LEASE_TTL_NANOS,
        lease.lease_revision < i64::MAX,
    ensures
        l.agent@ == agent@,
        l.session_id@ == session_id@,
        l.claimed_at == now,
        l.heartbeat_at == now,
        l.expires_at == now + LEASE_TTL_NANOS,
        l.lease_revision == lease.lease_revision + 1,
        !l.stale,
{
    IssueLease {
        agent: agent.to_owned(),
        session_id: session_id.to_owned(),
        claimed_at: now,
        heartbeat_at: now,
        expires_at: lease_expiry(now),
        lease_revision: lease.lease_revision + 1,
        stale: false,
    }
}

/// A lease granted or renewed at `now` can be renewed by its holder, and by
/// nobody else, at every moment before it expires, and cannot be taken over
/// then; from its expiry on it cannot be renewed and can be taken over.
pub proof fn law_lease_lifetime(lease: IssueLease, now: i64, t: i64, agent: Seq<char>, session_id: Seq<char>)
    requires
        lease.expires_at == now + LEASE_TTL_NANOS,
        now <= t,
    ensures
        t < now + LEASE_TTL_NANOS ==> takeover_error(lease, t) is Some,
        t < now + LEASE_TTL_NANOS && lease.agent@ == agent && lease.session_id@ == session_id
            ==> heartbeat_error(lease, agent, session_id, t) is None,
        lease.agent@ != agent || lease.session_id@ != session_id ==> heartbeat_error(
            lease,
            agent,
            session_id,
            t,
        ) == Some("lease is owned by another agent session"@),
        t >= now + LEASE_TTL_NANOS ==> takeover_error(lease, t) is None && heartbeat_error(
            lease,
            agent,
            session_id,
            t,
        ) is Some,
{
}

/// An Issue that a claim without a number may take, with what decides
/// whether and in which order it is taken.
#[derive(Clone, Debug)]
pub struct ClaimCandidate {
    pub project: String,
    pub issue: Issue,
    pub has_open_blocker: bool,
    pub has_open_decision: bool,
    pub has_lease: bool,
}

/// The rank of a priority in a claim: critical first, no priority last.
pub open spec fn priority_rank(p: Option<Priority>) -> int {
    match p {
        Some(Priority::Critical) => 0,
        Some(Priority::High) => 1,
        Some(Priority::Medium) => 2,
        Some(Priority::Low) => 3,
        None => 4,
    }
}

fn rank_of(p: Option<Priority>) -> (r: u8)
    ensures
        r == priority_rank(p),
{
    match p {
        Some(Priority::Critical) => 0,
        Some(Priority::High) => 1,
        Some(Priority::Medium) => 2,
        Some(Priority::Low) => 3,
        None => 4,
    }
}

/// `a` comes before `b` in code-point order.
pub open spec fn text_before(a: Seq<char>, b: Seq<char>) -> bool
    decreases a.len(),
{
    if a.len() == 0 {
        b.len() > 0
    } else if b.len() == 0 {
        false
    } else if a[0] != b[0] {
        (a[0] as u32) < (b[0] as u32)
    } else {
        text_before(a.drop_first(), b.drop_first())
    }
}

proof fn lemma_text_before_transitive(a: Seq<char>, b: Seq<char>, c: Seq<char>)
    requires
        text_before(a, b),
        text_before(b, c),
    ensures
        text_before(a, c),
    decreases a.len(),
{
    if a.len() > 0 && b.len() > 0 && c.len() > 0 && a[0] == b[0] && b[0] == c[0] {
        lemma_text_before_transitive(a.drop_first(), b.drop_first(), c.drop_first());
    }
}

proof fn lemma_text_before_irreflexive(a: Seq<char>)
    ensures
        !text_before(a, a),
    decreases a.len(),
{
    if a.len() > 0 {
        lemma_text_before_irreflexive(a.drop_first());
    }
}

fn chars_before(a: &Vec<char>, b: &Vec<char>) -> (r: bool)
    ensures
        r == text_before(a@, b@),
{
    let mut i: usize = 0;
    assert(a@.skip(0) =~= a@ && b@.skip(0) =~= b@);
    while i < a.len() && i < b.len()
        invariant
            i <= a.len(),
            i <= b.len(),
            text_before(a@, b@) == text_before(a@.skip(i as int), b@.skip(i as int)),
        decreases a.len() - i,
    {
        assert(a@.skip(i as int).drop_first() =~= a@.skip(i + 1));
        assert(b@.skip(i as int).drop_first() =~= b@.skip(i + 1));
        assert(a@.skip(i as int)[0] == a@[i as int]);
        assert(b@.skip(i as int)[0] == b@[i as int]);
        if a[i] != b[i] {
            return (a[i] as u32) < (b[i] as u32);
        }
        i = i + 1;
    }
    i == a.len() && i < b.len()
}

/// Among claimable Issues, `a` is taken before `b`: by priority, then the
/// oldest, then by project name and number.
pub open spec fn claims_before(a: ClaimCandidate, b: ClaimCandidate) -> bool {
    let (ra, rb) = (priority_rank(a.issue.priority), priority_rank(b.issue.priority));
    ||| ra < rb
    ||| ra == rb && a.issue.created_at < b.issue.created_at
    ||| ra == rb && a.issue.created_at == b.issue.created_at && text_before(a.project@, b.project@)
    ||| ra == rb && a.issue.created_at == b.issue.created_at && a.project@ == b.project@
        && a.issue.number < b.issue.number
}

proof fn lemma_claims_before_transitive(a: ClaimCandidate, b: ClaimCandidate, c: ClaimCandidate)
    requires
        claims_before(a, b),
        claims_before(b, c),
    ensures
        claims_before(a, c),
{
    if text_before(a.project@, b.project@) && text_before(b.project@, c.project@) {
        lemma_text_before_transitive(a.project@, b.project@, c.project@);
    }
}

/// A candidate that a claim without a number may take: claimable, and in
/// the project the claim names, if it names one.
pub open spec fn claim_eligible(c: ClaimCandidate, project: Option<&str>) -> bool {
    &&& claimable_error(c.issue.state, c.has_open_blocker, c.has_open_decision, c.has_lease) is None
    &&& project matches Some(p) ==> c.project@ == p@
}

fn eligible(c: &ClaimCandidate, project: Option<&str>) -> (b: bool)
    ensures
        b == claim_eligible(*c, project),
{
    let free = c.issue.state == IssueState::Todo && !c.has_open_blocker && !c.has_open_decision
        && !c.has_lease;
    match project {
        Some(p) => free && str_equals(c.project.as_str(), p),
        None => free,
    }
}

fn before(a: &ClaimCandidate, b: &ClaimCandidate) -> (r: bool)
    ensures
        r == claims_before(*a, *b),
{
    let (ra, rb) = (rank_of(a.issue.priority), rank_of(b.issue.priority));
    if ra != rb {
        return ra < rb;
    }
    if a.issue.created_at != b.issue.created_at {
        return a.issue.created_at < b.issue.created_at;
    }
    let pa = crate::text::chars_of(a.project.as_str());
    let pb = crate::text::chars_of(b.project.as_str());
    if chars_before(&pa, &pb) {
        return true;
    }
    if !str_equals(a.project.as_str(), b.project.as_str()) {
        return false;
    }
    a.issue.number < b.issue.number
}

/// The Issue that a claim without a number takes: the first of the eligible
/// candidates by priority, age, project name and number; none where no
/// candidate is eligible.
pub fn next_claim(candidates: &Vec<ClaimCandidate>, project: Option<&str>) -> (r: Option<usize>)
    ensures
        match r {
            Some(i) => i < candidates@.len() && claim_eligible(candidates@[i as int], project)
                && forall|j: int|
                0 <= j < candidates@.len() && claim_eligible(#[trigger] candidates@[j], project)
                    ==> !claims_before(candidates@[j], candidates@[i as int]),
            None => forall|j: int|
                0 <= j < candidates@.len() ==> !claim_eligible(#[trigger] candidates@[j], project),
        },
{
    let mut best: Option<usize> = None;
    let mut k: usize = 0;
    while k < candidates.len()
        invariant
            k <= candidates.len(),
            match best {
                Some(b) => b < k && claim_eligible(candidates@[b as int], project) && forall|j: int|
                    0 <= j < k && claim_eligible(#[trigger] candidates@[j], project)
                        ==> !claims_before(candidates@[j], candidates@[b as int]),
                None => forall|j: int| 0 <= j < k ==> !claim_eligible(#[trigger] candidates@[j], project),
            },
        decreases candidates.len() - k,
    {
        proof {
            lemma_text_before_irreflexive(candidates@[k as int].project@);
        }
        if eligible(&candidates[k], project) {
            match best {
                None => {
                    best = Some(k);
                },
                Some(b) => {
                    if before(&candidates[k], &candidates[b]) {
                        proof {
                            assert forall|j: int|
                                0 <= j < k && claim_eligible(#[trigger] candidates@[j], project)
                                    implies !claims_before(candidates@[j], candidates@[k as int]) by {
                                if claims_before(candidates@[j], candidates@[k as int]) {
                                    lemma_claims_before_transitive(
                                        candidates@[j],
                                        candidates@[k as int],
                                        candidates@[b as int],
                                    );
                                }
                            }
                        }
                        best = Some(k);
                    }
                },
            }
        }
        k = k + 1;
    }
    best
}

/// The refusals of a heartbeat, in the order in which they are reported: a
/// number that is not positive, an Issue that could not be read, then a
/// context that is no agent session. Gives the Issue.
pub fn plan_heartbeat(number: i64, issue: Result<Issue, AppError>, context: &ExecutionContext) -> (r:
    Result<Issue, AppError>)
    ensures
        number < 1 ==> fails_with_input(r, "issue number must be positive"@),
        number >= 1 && issue is Err ==> r == issue,
        number >= 1 && issue is Ok ==> match agent_session_error(*context) {
            Some(m) => fails_with_input(r, m),
            None => r == issue,
        },
{
    if number < 1 {
        return Err(invalid_input("issue number must be positive"));
    }
    let found = issue?;
    agent_session(context)?;
    Ok(found)
}

/// The refusals of a takeover, in the order in which they are reported: a
/// number that is not positive, an Issue that could not be read, a context
/// that is no agent session, then a blank reason. Gives the Issue.
pub fn plan_takeover(
    number: i64,
    issue: Result<Issue, AppError>,
    context: &ExecutionContext,
    reason: &str,
) -> (r: Result<Issue, AppError>)
    ensures
        number < 1 ==> fails_with_input(r, "issue number must be positive"@),
        number >= 1 && issue is Err ==> r == issue,
        number >= 1 && issue is Ok ==> match agent_session_error(*context) {
            Some(m) => fails_with_input(r, m),
            None => if is_blank(reason@) {
                fails_with_input(r, "takeover reason must not be empty"@)
            } else {
                r == issue
            },
        },
{
    if number < 1 {
        return Err(invalid_input("issue number must be positive"));
    }
    let found = issue?;
    agent_session(context)?;
    check_takeover_reason(reason)?;
    Ok(found)
}

/// `r` is the refusal of a write whose lease would expire past the range of
/// times.
pub open spec fn is_expiry_out_of_range<T>(r: Result<T, AppError>) -> bool {
    r matches Err(AppError::Internal(m)) && m@ == "lease expiry is out of range"@
}

/// `l` is a lease held by `agent` and `session_id` from `now` for one lease
/// duration, at lease revision `revision`.
pub open spec fn is_fresh_lease(
    l: IssueLease,
    agent: Seq<char>,
    session_id: Seq<char>,
    claimed_at: i64,
    now: i64,
    revision: int,
) -> bool {
    &&& l.agent@ == agent
    &&& l.session_id@ == session_id
    &&& l.claimed_at == claimed_at
    &&& l.heartbeat_at == now
    &&& l.expires_at == now + LEASE_TTL_NANOS
    &&& l.lease_revision == revision
    &&& !l.stale
}

/// What a claim of `issue` by `agent` and `session_id` at `now` writes: the
/// Issue in progress for the agent and a new lease. Refused, before
/// anything is written, where the Issue's revision cannot move on, then
/// where the lease would expire past the range of times.
pub fn plan_claim_write(issue: &Issue, agent: &str, session_id: &str, now: i64) -> (r: Result<
    (Issue, IssueLease),
    AppError,
>)
    ensures
        issue.revision == i64::MAX ==> is_revision_exhausted(r),
        issue.revision < i64::MAX && now > i64::MAX - LEASE_TTL_NANOS ==> is_expiry_out_of_range(r),
        issue.revision < i64::MAX && now <= i64::MAX - LEASE_TTL_NANOS ==> (r matches Ok((claimed, lease))
            && is_claimed_by(*issue, claimed, agent@, now) && is_fresh_lease(lease, agent@, session_id@, now, now, 1)),
{
    match check_revision_room(issue) {
        Ok(()) => {},
        Err(e) => {
            return Err(e);
        },
    }
    if now > i64::MAX - LEASE_TTL_NANOS {
        return Err(AppError::Internal("lease expiry is out of range".to_owned()));
    }
    Ok((claimed_issue(issue, agent, now), new_lease(agent, session_id, now)))
}

/// The lease that a heartbeat of `agent` and `session_id` at `now` writes.
/// Refused, before anything is written, where the renewed lease would
/// expire past the range of times, where the lease is another session's or
/// has expired, then where its revision cannot move on.
pub fn plan_heartbeat_write(lease: &IssueLease, agent: &str, session_id: &str, now: i64) -> (r: Result<
    IssueLease,
    AppError,
>)
    ensures
        now > i64::MAX - LEASE_TTL_NANOS ==> is_expiry_out_of_range(r),
        now <= i64::MAX - LEASE_TTL_NANOS ==> match heartbeat_error(*lease, agent@, session_id@, now) {
            Some(m) => fails_with_conflict(r, m),
            None => if lease.lease_revision == i64::MAX {
                r matches Err(AppError::Internal(m)) && m@ == "lease revision is exhausted"@
            } else {
                r matches Ok(l) && is_fresh_lease(
                    l,
                    lease.agent@,
                    lease.session_id@,
                    lease.claimed_at,
                    now,
                    lease.lease_revision + 1,
                )
            },
        },
{
    if now > i64::MAX - LEASE_TTL_NANOS {
        return Err(AppError::Internal("lease expiry is out of range".to_owned()));
    }
    match check_heartbeat(lease, agent, session_id, now) {
        Ok(()) => {},
        Err(e) => {
            return Err(e);
        },
    }
    if lease.lease_revision == i64::MAX {
        return Err(AppError::Internal("lease revision is exhausted".to_owned()));
    }
    Ok(renewed_lease(lease, now))
}

/// What a takeover of `issue` by `agent` and `session_id` at `now` writes:
/// the Issue in progress for the agent and the lease handed over. Refused,
/// before anything is written, where the new lease would expire past the
/// range of times, where the lease is still active, then where a revision
/// cannot move on.
pub fn plan_takeover_write(
    lease: &IssueLease,
    issue: &Issue,
    agent: &str,
    session_id: &str,
    now: i64,
) -> (r: Result<(Issue, IssueLease), AppError>)
    ensures
        now > i64::MAX - LEASE_TTL_NANOS ==> is_expiry_out_of_range(r),
        now <= i64::MAX - LEASE_TTL_NANOS ==> match takeover_error(*lease, now) {
            Some(m) => fails_with_conflict(r, m),
            None => if lease.lease_revision == i64::MAX || issue.revision == i64::MAX {
                r matches Err(AppError::Internal(m)) && m@ == "revision is exhausted"@
            } else {
                r matches Ok((claimed, l)) && is_claimed_by(*issue, claimed, agent@, now) && is_fresh_lease(
                    l,
                    agent@,
                    session_id@,
                    now,
                    now,
                    lease.lease_revision + 1,
                )
            },
        },
{
    if now > i64::MAX - LEASE_TTL_NANOS {
        return Err(AppError::Internal("lease expiry is out of range".to_owned()));
    }
    match check_takeover(lease, now) {
        Ok(()) => {},
        Err(e) => {
            return Err(e);
        },
    }
    if lease.lease_revision == i64::MAX || issue.revision == i64::MAX {
        return Err(AppError::Internal("revision is exhausted".to_owned()));
    }
    Ok((claimed_issue(issue, agent, now), taken_over_lease(lease, agent, session_id, now)))
}

/// `a` is a higher priority than `b`: critical, then high, medium, low,
/// and last no priority.
pub open spec fn outranks(a: Option<Priority>, b: Option<Priority>) -> bool {
    match a {
        Some(Priority::Critical) => b != Some(Priority::Critical),
        Some(Priority::High) => b == Some(Priority::Medium) || b == Some(Priority::Low) || b is None,
        Some(Priority::Medium) => b == Some(Priority::Low) || b is None,
        Some(Priority::Low) => b is None,
        None => false,
    }
}

/// A claim prefers the higher priority, whatever the age, project or
/// number of the candidates.
pub proof fn law_claim_prefers_priority(a: ClaimCandidate, b: ClaimCandidate)
    requires
        outranks(a.issue.priority, b.issue.priority),
    ensures
        claims_before(a, b),
        !claims_before(b, a),
{
}

/// A claim without a number never takes a candidate while an eligible one
/// of higher priority is left.
pub proof fn law_next_claim_takes_highest_priority(
    candidates: Seq<ClaimCandidate>,
    project: Option<&str>,
    chosen: int,
    other: int,
)
    requires
        0 <= chosen < candidates.len(),
        0 <= other < candidates.len(),
        claim_eligible(candidates[chosen], project),
        claim_eligible(candidates[other], project),
        forall|j: int|
            0 <= j < candidates.len() && claim_eligible(#[trigger] candidates[j], project)
                ==> !claims_before(candidates[j], candidates[chosen]),
    ensures
        !outranks(candidates[other].issue.priority, candidates[chosen].issue.priority),
{
    if outranks(candidates[other].issue.priority, candidates[chosen].issue.priority) {
        law_claim_prefers_priority(candidates[other], candidates[chosen]);
    }
}

/// Among candidates of the same priority a claim takes the oldest; of the
/// same age, the one whose project name comes first; in the same project,
/// the lowest number.
pub proof fn law_claim_order_after_priority(a: ClaimCandidate, b: ClaimCandidate)
    requires
        a.issue.priority == b.issue.priority,
    ensures
        a.issue.created_at < b.issue.created_at ==> claims_before(a, b) && !claims_before(b, a),
        a.issue.created_at == b.issue.created_at && a.project@.len() > 0 && b.project@.len() > 0
            && (a.project@[0] as u32) < (b.project@[0] as u32) ==> claims_before(a, b) && !claims_before(
            b,
            a,
        ),
        a.issue.created_at == b.issue.created_at && a.project@ == b.project@ && a.issue.number
            < b.issue.number ==> claims_before(a, b) && !claims_before(b, a),
        !claims_before(a, a),
{
    lemma_text_before_irreflexive(a.project@);
    lemma_text_before_irreflexive(b.project@);
}

/// A claim without a number takes only a `todo` Issue that no unfinished
/// Issue blocks, that waits for no human decision and that nobody holds,
/// in the named project if one is named.
pub proof fn law_claim_eligible(c: ClaimCandidate, project: Option<&str>)
    ensures
        claim_eligible(c, project) <==> (c.issue.state == IssueState::Todo && !c.has_open_blocker
            && !c.has_open_decision && !c.has_lease && (project matches Some(p) ==> c.project@ == p@)),
{
}

} // verus!
