use bettr::domain::{BatchOperation, IssueFilter, IssuePatch, IssueState, Priority, WaitKind};
use bettr::error::AppError;
use bettr::store::audit::{
    allowed_changed_fields, audit_record_changed_fields, event_record_fields, check_changed_fields, event_changed_fields, failure_audit_revision,
    operation_allows_project, records_failure, safe_changed_fields,
};
use bettr::store::batch::{batch_project, plan_batch_operation, BatchStep};
use bettr::store::jsonl::{
    hex_lower, jsonl_line, path_for_database, read_audit_line, repaired_length, sequences_unique,
    sha256_hex, split_jsonl, verify_audit_bytes, verify_audit_lines, AuditLine, ExistingJsonlEvent,
    SourceAuditEvent,
};
use bettr::store::query::{escape_like, in_clause, issue_list_query};

fn input_message<T>(result: Result<T, AppError>) -> String {
    match result {
        Err(AppError::InvalidInput(message)) => message,
        _ => panic!("expected an invalid input error"),
    }
}

fn integrity<T>(result: Result<T, AppError>) -> (String, Option<usize>, Option<i64>) {
    match result {
        Err(AppError::AuditIntegrity {
            message,
            line,
            sequence,
        }) => (message, line, sequence),
        _ => panic!("expected an audit integrity error"),
    }
}

#[test]
fn sha256_gives_the_known_digest() {
    assert_eq!(
        sha256_hex(b"abc"),
        "ba7816bf8f01cfea414140de5dae2223b00361a396177a9cb410ff61f20015ad"
    );
    assert_eq!(
        sha256_hex(b""),
        "e3b0c44298fc1c149afbf4c8996fb92427ae41e4649b934ca495991b7852b855"
    );
    assert_eq!(hex_lower(&vec![0, 15, 16, 255]), "000f10ff");
}

#[test]
fn a_log_splits_into_complete_lines() {
    let lines = split_jsonl(&b"{\"a\":1}\n{\"b\":2}\n".to_vec()).unwrap();
    assert_eq!(lines, vec![b"{\"a\":1}".to_vec(), b"{\"b\":2}".to_vec()]);
    assert!(split_jsonl(&Vec::new()).unwrap().is_empty());
    let (message, line, sequence) = integrity(split_jsonl(&b"{}\n{\"x\"".to_vec()));
    assert_eq!(message, "audit JSONL integrity check failed: incomplete final line");
    assert_eq!(line, Some(2));
    assert_eq!(sequence, None);
    assert_eq!(repaired_length(&b"{}\n{\"x\"".to_vec()), 3);
    assert_eq!(repaired_length(&b"{}\n".to_vec()), 3);
    assert_eq!(repaired_length(&b"partial".to_vec()), 0);
    assert_eq!(path_for_database("/data/bettr"), "/data/bettr.audit.jsonl");
    assert!(sequences_unique(&vec![1, 2, 3]));
    assert!(!sequences_unique(&vec![1, 2, 1]));
}

fn audit_line(sequence: i64, id: &str, previous: Option<&str>, input: &[u8]) -> AuditLine {
    AuditLine {
        json: true,
        schema_version: Some(1),
        event: Some(ExistingJsonlEvent {
            sequence,
            event_id: id.to_owned(),
            previous_hash: previous.map(str::to_owned),
            hash: sha256_hex(input),
        }),
        object: true,
        hash_input: Some(input.to_vec()),
    }
}

#[test]
fn a_hash_chain_verifies_line_by_line() {
    let first = audit_line(1, "a", None, b"{\"n\":1}");
    let first_hash = sha256_hex(b"{\"n\":1}");
    let second = audit_line(2, "b", Some(&first_hash), b"{\"n\":2}");
    let lines = vec![b"1".to_vec(), b"2".to_vec()];
    let result = verify_audit_lines(&lines, &vec![first.clone(), second.clone()]).unwrap();
    assert!(result.valid);
    assert_eq!(result.event_count, 2);
    assert_eq!(result.first_sequence, Some(1));
    assert_eq!(result.last_sequence, Some(2));
    assert_eq!(result.last_hash, Some(sha256_hex(b"{\"n\":2}")));

    let broken = audit_line(2, "b", Some("0000"), b"{\"n\":2}");
    let (message, line, sequence) =
        integrity(verify_audit_lines(&lines, &vec![first.clone(), broken]));
    assert_eq!(message, "audit JSONL integrity check failed: previous hash does not match");
    assert_eq!(line, Some(2));
    assert_eq!(sequence, Some(2));

    let gap = audit_line(3, "b", Some(&first_hash), b"{\"n\":2}");
    let (message, _, _) = integrity(verify_audit_lines(&lines, &vec![first.clone(), gap]));
    assert_eq!(message, "audit JSONL integrity check failed: sequence is not contiguous");

    let mut tampered = second.clone();
    tampered.hash_input = Some(b"{\"n\":3}".to_vec());
    let (message, _, _) = integrity(verify_audit_lines(&lines, &vec![first, tampered]));
    assert_eq!(message, "audit JSONL integrity check failed: hash does not match");

    let empty = verify_audit_lines(&Vec::new(), &Vec::new()).unwrap();
    assert_eq!(empty.event_count, 0);
    assert_eq!(empty.last_hash, None);
}

#[test]
fn audit_entries_keep_only_allowed_fields() {
    assert_eq!(allowed_changed_fields("issue_complete"), vec!["state", "summary", "verification"]);
    assert!(allowed_changed_fields("issue_list").is_empty());
    assert!(check_changed_fields("issue_edit", &vec!["title", "body"]).is_ok());
    assert!(matches!(
        check_changed_fields("issue_edit", &vec!["state"]),
        Err(AppError::Internal(message))
            if message == "audit operation issue_edit contains a disallowed changed field"
    ));
    assert_eq!(
        safe_changed_fields("issue_edit", &vec!["title".to_owned(), "secret".to_owned()]),
        vec!["title".to_owned()]
    );
    assert!(operation_allows_project("issue_create"));
    assert!(!operation_allows_project("capabilities"));
    assert!(records_failure(true, &AppError::NotFound("x".to_owned())));
    assert!(!records_failure(true, &AppError::DatabaseBusy("x".to_owned())));
    assert!(!records_failure(false, &AppError::NotFound("x".to_owned())));
    assert_eq!(
        failure_audit_revision(&AppError::RevisionConflict { current_revision: 4 }, Some(2)),
        Some(4)
    );
    assert_eq!(failure_audit_revision(&AppError::Conflict("x".to_owned()), Some(2)), Some(2));
    assert_eq!(
        event_changed_fields("issue_updated", &vec!["title".to_owned(), "nonsense".to_owned()]),
        vec!["title".to_owned()]
    );
}

#[test]
fn batch_operations_are_checked_before_any_runs() {
    assert_eq!(batch_project(None, Some("core")).unwrap(), "core");
    assert_eq!(
        input_message(batch_project(None, None)),
        "issue batch operation requires a project or --project"
    );
    let create = BatchOperation::IssueCreate {
        project: None,
        title: "New".to_owned(),
        body: None,
        priority: Some(Priority::Critical),
    };
    assert_eq!(create.operation_name(), "issue_create");
    match plan_batch_operation(&create, Some("core")).unwrap() {
        BatchStep::Create { project, input } => {
            assert_eq!(project, "core");
            assert_eq!(input.title, "New");
        }
        _ => panic!("expected a create step"),
    }
    let block = BatchOperation::IssueBlock {
        project: Some("core".to_owned()),
        number: 3,
        revision: 0,
        reason: "wait".to_owned(),
        wait_kind: WaitKind::External,
    };
    assert_eq!(
        input_message(plan_batch_operation(&block, None)),
        "issue revision must be positive"
    );
    let edit = BatchOperation::IssueEdit {
        project: Some("core".to_owned()),
        number: 3,
        revision: 1,
        patch: IssuePatch {
            title: None,
            body: None,
            priority: None,
            assignee_kind: None,
            assignee_name: None,
        },
    };
    assert_eq!(
        input_message(plan_batch_operation(&edit, None)),
        "issue edit must change at least one field"
    );
}

#[test]
fn issue_listings_escape_like_patterns_and_bind_every_filter() {
    assert_eq!(escape_like("50%_a\\b"), "50\\%\\_a\\\\b");
    assert_eq!(in_clause("p.name", 3), " AND p.name IN (?, ?, ?)");
    assert_eq!(in_clause("p.name", 0), "");
    let filter = IssueFilter {
        projects: vec!["core".to_owned()],
        states: vec![IssueState::Blocked],
        priorities: vec![],
        assignee: None,
        updated_after: Some(0),
        query: Some("a_b".to_owned()),
        include_done: false,
    };
    let (_, params) = issue_list_query(&filter);
    assert_eq!(
        params,
        vec![
            "core".to_owned(),
            "blocked".to_owned(),
            "1970-01-01T00:00:00+00:00".to_owned(),
            "%a\\_b%".to_owned(),
            "%a\\_b%".to_owned(),
        ]
    );
    let precise = IssueFilter {
        updated_after: Some(1_700_000_000_123_456_789),
        ..filter
    };
    assert_eq!(issue_list_query(&precise).1[2], "2023-11-14T22:13:20.123456789+00:00");
}

fn source_event(sequence: i64, event_id: &str, success: bool) -> SourceAuditEvent {
    SourceAuditEvent {
        sequence,
        event_id: event_id.to_owned(),
        started_at: "2024-01-01T00:00:00+00:00".to_owned(),
        finished_at: "2024-01-01T00:00:01+00:00".to_owned(),
        operation: "issue_edit".to_owned(),
        success,
        exit_code: if success { 0 } else { 10 },
        initiator_kind: Some("agent".to_owned()),
        initiator_name: Some("codex".to_owned()),
        session_id: Some("s-1".to_owned()),
        project_id: None,
        target_type: None,
        target_id: None,
        revision: Some(2),
        changed_fields_json: "[\"title\"]".to_owned(),
        metadata_json: "{\"error_code\":\"revision_conflict\"}".to_owned(),
    }
}

#[test]
fn written_audit_lines_verify_and_tampering_is_found() {
    let (first_hash, first) = jsonl_line(&source_event(1, "a", true), None).unwrap();
    let (second_hash, second) = jsonl_line(&source_event(2, "b", false), Some(&first_hash)).unwrap();
    let text = String::from_utf8(second.clone()).unwrap();
    assert!(text.contains("\"error_code\":\"revision_conflict\""));
    assert!(text.contains(&format!("\"hash\":\"{second_hash}\"")));
    assert!(text.contains(&format!("\"previous_hash\":\"{first_hash}\"")));
    assert!(text.starts_with("{\"changed_fields\":[\"title\"]"));

    let mut log = first.clone();
    log.push(b'\n');
    log.extend_from_slice(&second);
    log.push(b'\n');
    let result = verify_audit_bytes(&log).unwrap();
    assert!(result.valid);
    assert_eq!(result.event_count, 2);
    assert_eq!(result.last_sequence, Some(2));
    assert_eq!(result.last_hash, Some(second_hash.clone()));

    let read = read_audit_line(&second);
    assert!(read.json && read.object);
    assert_eq!(read.schema_version, Some(1));
    let event = read.event.unwrap();
    assert_eq!(event.sequence, 2);
    assert_eq!(event.previous_hash, Some(first_hash.clone()));
    assert_eq!(sha256_hex(&read.hash_input.unwrap()), second_hash);

    let tampered = String::from_utf8(log.clone()).unwrap().replace("issue_edit", "issue_drop");
    let (message, line, sequence) = integrity(verify_audit_bytes(&tampered.into_bytes()));
    assert_eq!(message, "audit JSONL integrity check failed: hash does not match");
    assert_eq!(line, Some(1));
    assert_eq!(sequence, Some(1));

    let (message, _, _) = integrity(verify_audit_bytes(&first));
    assert_eq!(message, "audit JSONL integrity check failed: incomplete final line");
    let not_json = read_audit_line(&b"not json".to_vec());
    assert!(!not_json.json && not_json.event.is_none());
    assert!(verify_audit_bytes(&Vec::new()).unwrap().valid);

    let mut bad = source_event(3, "c", true);
    bad.changed_fields_json = "{}".to_owned();
    assert!(matches!(
        jsonl_line(&bad, None),
        Err(AppError::Internal(m)) if m == "audit event changed fields are not valid JSON"
    ));
}

#[test]
fn stored_json_is_read_for_the_feeds() {
    let (fields, revision) = event_record_fields(
        "issue_updated",
        "{\"changes\":{\"title\":{},\"state\":{},\"body\":{}},\"revision\":4}",
    )
    .unwrap();
    assert_eq!(fields, vec!["body".to_owned(), "title".to_owned()]);
    assert_eq!(revision, Some(4));
    let (fields, revision) = event_record_fields("issue_started", "{}").unwrap();
    assert_eq!(fields, vec!["state".to_owned()]);
    assert_eq!(revision, None);
    assert!(matches!(
        event_record_fields("issue_started", "{"),
        Err(AppError::Internal(m)) if m == "domain event metadata is not valid JSON"
    ));
    assert_eq!(
        audit_record_changed_fields("issue_edit", "[\"title\",\"state\",\"title\"]").unwrap(),
        vec!["title".to_owned()]
    );
    assert!(audit_record_changed_fields("issue_edit", "[1]").is_err());
}

#[test]
fn a_line_may_leave_out_its_previous_hash() {
    let body = "{\"event_id\":\"a\",\"schema_version\":1,\"sequence\":1}";
    let hash = sha256_hex(body.as_bytes());
    let first = format!("{{\"event_id\":\"a\",\"hash\":\"{hash}\",\"schema_version\":1,\"sequence\":1}}\n");
    let result = verify_audit_bytes(&first.clone().into_bytes()).unwrap();
    assert!(result.valid);
    assert_eq!(result.event_count, 1);
    assert_eq!(read_audit_line(&first.trim_end().as_bytes().to_vec()).event.unwrap().previous_hash, None);

    let body = "{\"event_id\":\"b\",\"schema_version\":1,\"sequence\":2}";
    let second_hash = sha256_hex(body.as_bytes());
    let second = format!("{{\"event_id\":\"b\",\"hash\":\"{second_hash}\",\"schema_version\":1,\"sequence\":2}}\n");
    let (message, line, sequence) = integrity(verify_audit_bytes(&format!("{first}{second}").into_bytes()));
    assert_eq!(message, "audit JSONL integrity check failed: previous hash does not match");
    assert_eq!(line, Some(2));
    assert_eq!(sequence, Some(2));

    let typed = "{\"event_id\":\"a\",\"hash\":\"x\",\"previous_hash\":3,\"schema_version\":1,\"sequence\":1}\n";
    let (message, _, _) = integrity(verify_audit_bytes(&typed.as_bytes().to_vec()));
    assert_eq!(message, "audit JSONL integrity check failed: missing event fields");
}
