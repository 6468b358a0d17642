use bettr::domain::{
    DecisionRequest, DecisionRequestInput, DecisionResolutionInput, ExecutionContext, InitiatorKind, Issue, IssueLease,
    IssuePatch, IssueState,
    Priority, Transition,
};
use bettr::error::AppError;
use bettr::json::{read_int, Json};
use bettr::store::backup::{
    check_backup_application_id, check_backup_destination, check_backup_integrity, check_backup_schema_version,
    check_restore_destination, check_restore_request, sidecar_suffixes_list, sqlite_sidecar,
};
use bettr::store::graph::reachable;
use bettr::store::idempotency::{check_idempotency_record, IdempotencyRequest};
use bettr::store::jsonl::sha256_hex;
use bettr::store::leases::{
    agent_session, check_claim_target, check_heartbeat, check_takeover, check_takeover_reason,
    claimed_issue, ensure_claimable, is_stale, lease_expiry, new_lease, next_claim, plan_heartbeat,
    plan_claim_write, plan_heartbeat_write, plan_takeover, plan_takeover_write, renewed_lease,
    taken_over_lease, ClaimCandidate, LEASE_TTL_NANOS,
};
use bettr::store::relations::{check_dependency_removal, check_new_dependency, check_new_parent};
use bettr::store::schema::{
    check_identity, header_identity, is_supported_version, migrations, pending_migrations,
    DatabaseIdentity, BETTR_APPLICATION_ID, LATEST_SCHEMA_VERSION,
};
use bettr::store::writes::{
    check_completion_decisions, check_expected_revision, check_revision, decision_order, edited_issue, keeps_lease,
    new_decision_request, plan_decision_request, plan_resolution, state_changed, transitioned_issue,
    transition_target,
};

fn issue(state: IssueState, revision: i64) -> Issue {
    Issue {
        id: 1,
        project_id: 2,
        number: 4,
        title: "Title".to_owned(),
        body: None,
        state,
        priority: Some(Priority::Medium),
        assignee_kind: None,
        assignee_name: None,
        revision,
        created_at: 100,
        updated_at: 200,
    }
}

fn agent() -> ExecutionContext {
    ExecutionContext {
        kind: InitiatorKind::Agent,
        agent: Some("codex".to_owned()),
        session_id: Some("s-1".to_owned()),
        operator: None,
    }
}

fn conflict_message<T>(result: Result<T, AppError>) -> String {
    match result {
        Err(AppError::Conflict(message)) => message,
        _ => panic!("expected a conflict"),
    }
}

#[test]
fn only_known_schema_versions_are_supported() {
    assert!(!is_supported_version(0));
    assert!(is_supported_version(1));
    assert!(is_supported_version(2));
    assert!(is_supported_version(3));
    assert!(is_supported_version(4));
    assert!(is_supported_version(5));
    assert!(is_supported_version(6));
    assert!(is_supported_version(7));
    assert!(!is_supported_version(8));
}

#[test]
fn pending_migrations_follow_the_current_version() {
    let all = migrations();
    assert_eq!(all.len(), 6);
    assert_eq!(all[0].version, 2);
    assert_eq!(all[5].name, "jsonl_audit_cursor");
    let pending = pending_migrations(&all, 5);
    let versions: Vec<u32> = pending.iter().map(|m| m.version).collect();
    assert_eq!(versions, vec![6, 7]);
    assert!(pending_migrations(&all, 7).is_empty());
    assert_eq!(pending_migrations(&all, 1).len(), 6);
}

#[test]
fn a_database_header_gives_its_identity() {
    let mut header = vec![0u8; 100];
    header[..16].copy_from_slice(b"SQLite format 3\0");
    header[60..64].copy_from_slice(&7u32.to_be_bytes());
    header[68..72].copy_from_slice(&BETTR_APPLICATION_ID.to_be_bytes());
    let identity = header_identity(&header).unwrap();
    assert_eq!(identity.user_version, 7);
    assert!(identity.is_bettr_application());
    assert!(identity.is_supported_bettr());
    assert_eq!(check_identity(&identity).unwrap(), 7);

    let not_sqlite = vec![1u8; 100];
    assert!(matches!(header_identity(&not_sqlite), Err(AppError::DatabaseNotInitialized)));

    let future = DatabaseIdentity {
        application_id: BETTR_APPLICATION_ID,
        user_version: 99,
    };
    assert!(matches!(
        check_identity(&future),
        Err(AppError::UnsupportedDatabaseSchemaVersion {
            found_version: 99,
            current_version: LATEST_SCHEMA_VERSION
        })
    ));
    let other = DatabaseIdentity {
        application_id: 1,
        user_version: 3,
    };
    assert!(matches!(check_identity(&other), Err(AppError::DatabaseNotInitialized)));
}

#[test]
fn dependencies_refuse_self_repeats_and_cycles() {
    let edges = vec![(1u128, 2u128), (2, 3)];
    assert_eq!(conflict_message(check_new_dependency(&edges, 4, 4)), "an Issue cannot block itself");
    assert_eq!(conflict_message(check_new_dependency(&edges, 1, 2)), "dependency already exists");
    assert_eq!(
        conflict_message(check_new_dependency(&edges, 3, 1)),
        "dependency would create a cycle"
    );
    assert!(check_new_dependency(&edges, 1, 3).is_ok());
    assert!(reachable(&edges, 1, 3));
    assert!(!reachable(&edges, 3, 1));
    assert!(check_dependency_removal(&edges, 2, 3).is_ok());
    assert!(matches!(
        check_dependency_removal(&edges, 3, 2),
        Err(AppError::NotFound(message)) if message == "dependency not found"
    ));
}

#[test]
fn parents_are_one_level_deep() {
    let parents = vec![(10u128, 20u128)];
    assert_eq!(conflict_message(check_new_parent(&parents, 5, 5)), "an Issue cannot be its own parent");
    assert_eq!(conflict_message(check_new_parent(&parents, 10, 30)), "Issue already has a parent");
    assert_eq!(
        conflict_message(check_new_parent(&parents, 20, 30)),
        "parent nesting is limited to one level"
    );
    assert_eq!(
        conflict_message(check_new_parent(&parents, 30, 10)),
        "parent nesting is limited to one level"
    );
    assert!(check_new_parent(&parents, 30, 20).is_ok());
}

#[test]
fn claims_need_an_agent_session_and_a_free_todo_issue() {
    let context = agent();
    let (name, session) = agent_session(&context).unwrap();
    assert_eq!((name, session), ("codex", "s-1"));
    let human = ExecutionContext {
        kind: InitiatorKind::Human,
        agent: None,
        session_id: None,
        operator: Some("alice".to_owned()),
    };
    assert!(matches!(
        agent_session(&human),
        Err(AppError::InvalidInput(message)) if message == "agent execution context is required"
    ));
    assert!(ensure_claimable(IssueState::Todo, false, false, false).is_ok());
    assert_eq!(
        conflict_message(ensure_claimable(IssueState::Done, false, false, false)),
        "Issue is not claimable in its current state"
    );
    assert_eq!(
        conflict_message(ensure_claimable(IssueState::Todo, true, false, false)),
        "Issue has unresolved blocking dependencies"
    );
    assert_eq!(
        conflict_message(ensure_claimable(IssueState::Todo, false, false, true)),
        "Issue already has a lease"
    );
    assert!(check_claim_target(None, None).is_ok());
    assert!(check_claim_target(None, Some(3)).is_err());
    assert!(check_claim_target(Some("p"), Some(0)).is_err());
}

#[test]
fn a_lease_lasts_fifteen_minutes_from_its_last_heartbeat() {
    assert_eq!(LEASE_TTL_NANOS, 15 * 60 * 1_000_000_000);
    assert_eq!(lease_expiry(1_000), 1_000 + LEASE_TTL_NANOS);
    let lease = new_lease("codex", "s-1", 1_000);
    assert_eq!(lease.expires_at, 1_000 + LEASE_TTL_NANOS);
    assert_eq!(lease.lease_revision, 1);
    assert!(!is_stale(lease.expires_at, lease.expires_at - 1));
    assert!(is_stale(lease.expires_at, lease.expires_at));

    assert!(check_heartbeat(&lease, "codex", "s-1", 2_000).is_ok());
    assert_eq!(
        conflict_message(check_heartbeat(&lease, "codex", "s-2", 2_000)),
        "lease is owned by another agent session"
    );
    assert_eq!(
        conflict_message(check_heartbeat(&lease, "codex", "s-1", lease.expires_at)),
        "lease has expired; use takeover with a reason"
    );
    let renewed = renewed_lease(&lease, 5_000);
    assert_eq!(renewed.claimed_at, 1_000);
    assert_eq!(renewed.expires_at, 5_000 + LEASE_TTL_NANOS);
    assert_eq!(renewed.lease_revision, 2);

    assert_eq!(conflict_message(check_takeover(&lease, 2_000)), "lease is still active");
    assert!(check_takeover(&lease, lease.expires_at).is_ok());
    assert!(check_takeover_reason(" ").is_err());
    let taken: IssueLease = taken_over_lease(&lease, "agent-b", "s-9", lease.expires_at);
    assert_eq!(taken.agent, "agent-b");
    assert_eq!(taken.lease_revision, 2);
    assert_eq!(taken.claimed_at, lease.expires_at);
}

#[test]
fn claiming_starts_the_issue_and_assigns_the_agent() {
    let claimed = claimed_issue(&issue(IssueState::Todo, 2), "codex", 500);
    assert_eq!(claimed.state, IssueState::InProgress);
    assert_eq!(claimed.assignee_name, Some("codex".to_owned()));
    assert_eq!(claimed.revision, 3);
    assert_eq!(claimed.updated_at, 500);
}

#[test]
fn writes_check_the_expected_revision() {
    assert!(check_revision(3, 3).is_ok());
    assert!(matches!(
        check_revision(2, 3),
        Err(AppError::RevisionConflict { current_revision: 3 })
    ));
    assert!(check_expected_revision(None, 3).is_ok());
    assert!(check_expected_revision(Some(1), 3).is_err());

    let changed = state_changed(&issue(IssueState::InProgress, 5), IssueState::Done, 900);
    assert_eq!(changed.state, IssueState::Done);
    assert_eq!(changed.revision, 6);
    assert_eq!(changed.updated_at, 900);

    let start = Transition::Start;
    assert_eq!(transition_target(&issue(IssueState::Todo, 1), 1, &start).unwrap(), IssueState::InProgress);
    assert!(transition_target(&issue(IssueState::Todo, 1), 0, &start).is_err());
    assert!(matches!(
        transition_target(&issue(IssueState::Done, 1), 1, &start),
        Err(AppError::InvalidTransition(_))
    ));
    assert!(check_completion_decisions(IssueState::Done, true).is_err());
    assert!(check_completion_decisions(IssueState::Blocked, true).is_ok());
    assert!(keeps_lease(IssueState::InProgress));
    assert!(!keeps_lease(IssueState::Done));
}

#[test]
fn a_decision_request_starts_open_with_its_requester() {
    let input = DecisionRequestInput {
        blocker: "b".to_owned(),
        question: "q".to_owned(),
        options: vec!["a".to_owned(), "b".to_owned()],
        recommendation: "a".to_owned(),
        resume_condition: "r".to_owned(),
        background: "g".to_owned(),
    };
    let request = new_decision_request(9, "bettr", 4, &input, &agent(), 77);
    assert_eq!(request.issue, "bettr#4");
    assert_eq!(request.status, "open");
    assert_eq!(request.requester_name, Some("codex".to_owned()));
    assert_eq!(request.created_at, 77);
    assert!(request.answer.is_none());
}

#[test]
fn retries_with_the_same_payload_replay_and_others_conflict() {
    let request = IdempotencyRequest::new("key-1", "issue_create", b"{\"title\":\"a\"}").unwrap();
    assert_eq!(request.request_hash, sha256_hex(b"{\"title\":\"a\"}"));
    assert_eq!(check_idempotency_record(&request, None).unwrap(), false);
    let hash = request.request_hash.clone();
    assert_eq!(
        check_idempotency_record(&request, Some(("issue_create", hash.as_str()))).unwrap(),
        true
    );
    assert!(matches!(
        check_idempotency_record(&request, Some(("issue_edit", hash.as_str()))),
        Err(AppError::IdempotencyConflict)
    ));
    assert!(IdempotencyRequest::new(" ", "issue_create", b"{}").is_err());
}

#[test]
fn backups_are_checked_before_use() {
    assert!(check_backup_application_id(BETTR_APPLICATION_ID as i64).is_ok());
    assert!(matches!(check_backup_application_id(5), Err(AppError::DatabaseNotInitialized)));
    assert!(matches!(check_backup_application_id(-1), Err(AppError::InvalidBackup(_))));
    assert_eq!(check_backup_schema_version(3).unwrap(), 3);
    assert!(matches!(
        check_backup_schema_version(8),
        Err(AppError::UnsupportedDatabaseSchemaVersion { found_version: 8, .. })
    ));
    assert!(check_backup_integrity("ok").is_ok());
    assert!(check_backup_integrity("row 3 missing").is_err());
    assert!(matches!(check_restore_request(false, false), Err(AppError::BackupConfirmationRequired)));
    assert!(check_restore_request(true, true).is_err());
    assert!(check_restore_request(true, false).is_ok());
    assert!(matches!(
        check_restore_destination(false, true, false, false, false),
        Err(AppError::BackupDestinationInUse)
    ));
    assert!(check_restore_destination(true, true, true, true, true).is_ok());
    assert!(matches!(
        check_restore_destination(true, false, true, false, false),
        Err(AppError::BackupOutputExists)
    ));
    assert!(check_restore_destination(true, false, true, true, true).is_ok());
    assert_eq!(sidecar_suffixes_list(), vec!["-wal", "-shm", "-journal"]);
    assert_eq!(sqlite_sidecar("/tmp/db.sqlite", "-wal"), "/tmp/db.sqlite-wal");
}

fn candidate(project: &str, number: i64, priority: Option<Priority>, created_at: i64) -> ClaimCandidate {
    let mut found = issue(IssueState::Todo, 1);
    found.number = number;
    found.priority = priority;
    found.created_at = created_at;
    ClaimCandidate {
        project: project.to_owned(),
        issue: found,
        has_open_blocker: false,
        has_open_decision: false,
        has_lease: false,
    }
}

#[test]
fn a_claim_takes_the_first_free_issue_by_priority_age_project_and_number() {
    let mut blocked = candidate("a", 1, Some(Priority::Critical), 10);
    blocked.has_open_blocker = true;
    let mut started = candidate("a", 2, Some(Priority::Critical), 10);
    started.issue.state = IssueState::InProgress;
    let candidates = vec![
        blocked,
        started,
        candidate("b", 7, Some(Priority::High), 50),
        candidate("b", 3, Some(Priority::High), 20),
        candidate("a", 9, Some(Priority::High), 20),
        candidate("a", 5, None, 1),
    ];
    assert_eq!(next_claim(&candidates, None), Some(4));
    assert_eq!(next_claim(&candidates, Some("b")), Some(3));
    assert_eq!(next_claim(&candidates, Some("c")), None);
    assert_eq!(next_claim(&candidates[..2].to_vec(), None), None);
    let tie = vec![candidate("a", 8, None, 1), candidate("a", 6, None, 1)];
    assert_eq!(next_claim(&tie, None), Some(1));
}

fn decision(id: u128, created_at: i64) -> DecisionRequest {
    DecisionRequest {
        id,
        issue: "bettr#1".to_owned(),
        question: "Which?".to_owned(),
        background: "b".to_owned(),
        blocker: "x".to_owned(),
        options: vec!["A".to_owned(), "B".to_owned()],
        recommendation: "A".to_owned(),
        resume_condition: "answered".to_owned(),
        requester_kind: None,
        requester_name: None,
        requester_session_id: None,
        status: "open".to_owned(),
        answer: None,
        resolver_kind: None,
        resolver_name: None,
        resolver_session_id: None,
        created_at,
        resolved_at: None,
    }
}

#[test]
fn decisions_are_listed_oldest_first_then_by_id() {
    let decisions = vec![decision(9, 30), decision(4, 10), decision(7, 20), decision(2, 20)];
    assert_eq!(decision_order(&decisions), vec![1, 3, 2, 0]);
    assert!(decision_order(&Vec::new()).is_empty());
}

#[test]
fn a_payload_document_is_hashed_as_canonical_json() {
    let payload = Json::Object(vec![
        ("title".to_owned(), Json::Str("a".to_owned())),
        ("number".to_owned(), Json::Int(3)),
        ("body".to_owned(), Json::Null),
    ]);
    let request = IdempotencyRequest::for_payload("key-1", "issue_create", &payload).unwrap();
    assert_eq!(request.request_hash, sha256_hex(b"{\"body\":null,\"number\":3,\"title\":\"a\"}"));
    assert!(IdempotencyRequest::for_payload(" ", "issue_create", &payload).is_err());
}

#[test]
fn heartbeats_and_takeovers_report_their_first_refusal() {
    let human = ExecutionContext {
        kind: InitiatorKind::Human,
        agent: None,
        session_id: None,
        operator: Some("o".to_owned()),
    };
    let found = || Ok(issue(IssueState::InProgress, 3));
    assert!(matches!(
        plan_heartbeat(0, found(), &human),
        Err(AppError::InvalidInput(m)) if m == "issue number must be positive"
    ));
    assert!(matches!(
        plan_heartbeat(1, Err(AppError::NotFound("issue not found".to_owned())), &human),
        Err(AppError::NotFound(_))
    ));
    assert!(matches!(
        plan_heartbeat(1, found(), &human),
        Err(AppError::InvalidInput(m)) if m == "agent execution context is required"
    ));
    assert_eq!(plan_heartbeat(1, found(), &agent()).unwrap().revision, 3);
    assert!(matches!(
        plan_takeover(1, found(), &agent(), "  "),
        Err(AppError::InvalidInput(m)) if m == "takeover reason must not be empty"
    ));
    assert!(matches!(
        plan_takeover(1, found(), &human, "  "),
        Err(AppError::InvalidInput(m)) if m == "agent execution context is required"
    ));
    assert_eq!(plan_takeover(1, found(), &agent(), "stale").unwrap().number, 4);
}

#[test]
fn a_backup_never_overwrites_an_existing_output() {
    assert!(matches!(check_backup_destination(true, true, false), Err(AppError::BackupOutputExists)));
    assert!(matches!(check_backup_destination(true, false, true), Err(AppError::BackupOutputExists)));
    assert!(matches!(
        check_backup_destination(false, false, true),
        Err(AppError::BackupOperation { operation: "output" })
    ));
    assert!(matches!(check_backup_destination(false, true, true), Err(AppError::BackupDestinationInUse)));
    assert!(check_backup_destination(false, true, false).is_ok());
}

fn human() -> ExecutionContext {
    ExecutionContext { kind: InitiatorKind::Human, agent: None, session_id: None, operator: Some("ana".to_owned()) }
}

fn resolution_to(target: IssueState, summary: Option<&str>, verification: Option<&str>) -> DecisionResolutionInput {
    DecisionResolutionInput {
        target_state: target,
        summary: summary.map(str::to_owned),
        verification: verification.map(str::to_owned),
        reason: None,
        wait_kind: None,
    }
}

#[test]
fn a_resolution_is_refused_before_anything_changes() {
    let request = decision(5, 10);
    let blocked = issue(IssueState::Blocked, 3);
    let todo = resolution_to(IssueState::Todo, None, None);
    let (resolution, after, resolved) =
        plan_resolution(&request, &human(), todo.clone(), false, Some(3), &blocked, "Use A", 500).unwrap();
    assert_eq!(resolution.target_state, IssueState::Todo);
    assert_eq!((after.state, after.revision, after.updated_at), (IssueState::Todo, 4, 500));
    assert_eq!((resolved.status.as_str(), resolved.answer.as_deref()), ("resolved", Some("Use A")));
    assert_eq!((resolved.resolver_kind, resolved.resolved_at), (Some(InitiatorKind::Human), Some(500)));
    assert_eq!(
        conflict_message(plan_resolution(&request, &agent(), todo.clone(), false, None, &blocked, "A", 1)),
        "decision requests must be resolved by a human"
    );
    assert!(matches!(
        plan_resolution(&request, &human(), resolution_to(IssueState::Todo, Some("s"), None), false, None, &blocked, "A", 1),
        Err(AppError::InvalidInput(message)) if message == "decision resolution to todo does not accept transition metadata"
    ));
    let done = resolution_to(IssueState::Done, Some("s"), Some("v"));
    assert_eq!(
        conflict_message(plan_resolution(&request, &human(), done.clone(), true, Some(3), &blocked, "A", 1)),
        "Issue has another unresolved human decision"
    );
    assert!(matches!(
        plan_resolution(&request, &human(), done.clone(), false, Some(2), &blocked, "A", 1),
        Err(AppError::RevisionConflict { current_revision: 3 })
    ));
    assert!(matches!(
        plan_resolution(&request, &human(), done, false, None, &issue(IssueState::Blocked, i64::MAX), "A", 1),
        Err(AppError::Internal(message)) if message == "issue revision is exhausted"
    ));
}

#[test]
fn a_transition_to_done_waits_for_open_decisions() {
    let found = issue(IssueState::InProgress, 6);
    assert_eq!(
        conflict_message(transitioned_issue(&found, IssueState::Done, true, 50)),
        "Issue has an unresolved human decision"
    );
    let after = transitioned_issue(&found, IssueState::Done, false, 50).unwrap();
    assert_eq!((after.state, after.revision, after.updated_at), (IssueState::Done, 7, 50));
    assert_eq!(transitioned_issue(&found, IssueState::Blocked, true, 50).unwrap().state, IssueState::Blocked);
    assert!(matches!(
        transitioned_issue(&issue(IssueState::InProgress, i64::MAX), IssueState::Done, false, 50),
        Err(AppError::Internal(message)) if message == "issue revision is exhausted"
    ));
}

fn asking() -> DecisionRequestInput {
    DecisionRequestInput {
        question: "Which?".to_owned(),
        background: "b".to_owned(),
        blocker: "x".to_owned(),
        options: vec!["A".to_owned(), "B".to_owned()],
        recommendation: "A".to_owned(),
        resume_condition: "answered".to_owned(),
    }
}

#[test]
fn a_decision_request_blocks_its_issue_only_when_allowed() {
    let found = issue(IssueState::InProgress, 2);
    let (blocked, request) =
        plan_decision_request(&found, Some(("codex", "s-1")), &agent(), 9, "bettr", &asking(), 70).unwrap();
    assert_eq!((blocked.state, blocked.revision, blocked.updated_at), (IssueState::Blocked, 3, 70));
    assert_eq!((request.id, request.issue.as_str(), request.status.as_str()), (9, "bettr#4", "open"));
    assert_eq!((request.requester_kind, request.created_at), (Some(InitiatorKind::Agent), 70));
    assert_eq!(
        conflict_message(plan_decision_request(&found, Some(("other", "s-1")), &agent(), 9, "bettr", &asking(), 70)),
        "lease is owned by another agent session"
    );
    assert_eq!(
        conflict_message(plan_decision_request(&issue(IssueState::Done, 2), None, &agent(), 9, "bettr", &asking(), 70)),
        "cannot request a decision for a completed Issue"
    );
    assert!(matches!(
        plan_decision_request(&issue(IssueState::Todo, i64::MAX), None, &human(), 9, "bettr", &asking(), 70),
        Err(AppError::Internal(message)) if message == "issue revision is exhausted"
    ));
}

fn internal_text<T>(result: Result<T, AppError>) -> String {
    match result {
        Err(AppError::Internal(message)) => message,
        _ => panic!("expected an internal error"),
    }
}

#[test]
fn lease_writes_are_refused_before_anything_is_written() {
    let todo = issue(IssueState::Todo, 3);
    let (claimed, lease) = plan_claim_write(&todo, "codex", "s-1", 1_000).unwrap();
    assert_eq!((claimed.state, claimed.revision, claimed.assignee_name.as_deref()), (IssueState::InProgress, 4, Some("codex")));
    assert_eq!((lease.expires_at, lease.lease_revision), (1_000 + LEASE_TTL_NANOS, 1));
    assert_eq!(internal_text(plan_claim_write(&issue(IssueState::Todo, i64::MAX), "a", "s", 1)), "issue revision is exhausted");
    assert_eq!(internal_text(plan_claim_write(&todo, "a", "s", i64::MAX)), "lease expiry is out of range");

    let renewed = plan_heartbeat_write(&lease, "codex", "s-1", 2_000).unwrap();
    assert_eq!((renewed.claimed_at, renewed.heartbeat_at, renewed.lease_revision), (1_000, 2_000, 2));
    assert_eq!(
        conflict_message(plan_heartbeat_write(&lease, "other", "s-1", 2_000)),
        "lease is owned by another agent session"
    );
    assert_eq!(internal_text(plan_heartbeat_write(&lease, "codex", "s-1", i64::MAX)), "lease expiry is out of range");
    let worn = IssueLease { lease_revision: i64::MAX, ..lease.clone() };
    assert_eq!(internal_text(plan_heartbeat_write(&worn, "codex", "s-1", 2_000)), "lease revision is exhausted");

    let late = 1_000 + LEASE_TTL_NANOS;
    assert_eq!(conflict_message(plan_takeover_write(&lease, &claimed, "b", "s-2", late - 1)), "lease is still active");
    let (taken, handed) = plan_takeover_write(&lease, &claimed, "b", "s-2", late).unwrap();
    assert_eq!((taken.revision, taken.assignee_name.as_deref()), (5, Some("b")));
    assert_eq!((handed.agent.as_str(), handed.claimed_at, handed.lease_revision), ("b", late, 2));
    assert_eq!(internal_text(plan_takeover_write(&worn, &claimed, "b", "s-2", late)), "revision is exhausted");
}

#[test]
fn an_edit_applies_only_at_the_current_revision() {
    let patch = IssuePatch { title: Some("New".to_owned()), body: None, priority: None, assignee_kind: None, assignee_name: None };
    let found = issue(IssueState::Todo, 5);
    let after = edited_issue(&found, 5, &patch, 900).unwrap();
    assert_eq!((after.title.as_str(), after.revision, after.updated_at), ("New", 6, 900));
    assert!(matches!(edited_issue(&found, 4, &patch, 900), Err(AppError::RevisionConflict { current_revision: 5 })));
    let worn = issue(IssueState::Todo, i64::MAX);
    assert!(matches!(edited_issue(&worn, 4, &patch, 900), Err(AppError::RevisionConflict { current_revision: i64::MAX })));
    assert_eq!(internal_text(edited_issue(&worn, i64::MAX, &patch, 900)), "issue revision is exhausted");
}

#[test]
fn integers_are_read_from_values_and_number_texts() {
    assert_eq!(read_int(&Json::Int(-3)), Some(-3));
    assert_eq!(read_int(&Json::Raw("12".to_owned())), Some(12));
    assert_eq!(read_int(&Json::Raw("-9223372036854775808".to_owned())), Some(i64::MIN));
    assert_eq!(read_int(&Json::Raw("18446744073709551615".to_owned())), None);
    assert_eq!(read_int(&Json::Raw("1.5".to_owned())), None);
    assert_eq!(read_int(&Json::Raw("1e3".to_owned())), None);
    assert_eq!(read_int(&Json::Str("12".to_owned())), None);
}
