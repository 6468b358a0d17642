use bettr::app::{
    check_audit_filter, check_decision_resolution_request, decision_request_id, check_event_request, check_edit_request,
    check_redaction_context,
    event_page, failure_audit_error, plan_transition, resolve_database, resolve_project, App,
    ContextSource, UpdateSource, CLI_VERSION,
};
use bettr::domain::{ExecutionContext, InitiatorKind, Issue, IssuePatch, IssueState, Transition};
use bettr::error::AppError;

fn input_message<T>(result: Result<T, AppError>) -> String {
    match result {
        Err(AppError::InvalidInput(message)) => message,
        _ => panic!("expected an invalid input error"),
    }
}

fn issue(state: IssueState, revision: i64) -> Issue {
    Issue {
        id: 1,
        project_id: 2,
        number: 3,
        title: "t".to_owned(),
        body: None,
        state,
        priority: None,
        assignee_kind: None,
        assignee_name: None,
        revision,
        created_at: 0,
        updated_at: 0,
    }
}

#[test]
fn update_source_configuration_accepts_release_and_main() {
    let config: toml::Table = toml::from_str("update_source = \"main\"\n").unwrap();
    let configured = config.get("update_source").and_then(|value| value.as_str()).unwrap();
    assert_eq!(UpdateSource::from_config(configured), Some(UpdateSource::Main));
    assert_eq!(UpdateSource::from_config("release"), Some(UpdateSource::Release));
    assert_eq!(UpdateSource::from_config(" Main "), None);
    assert_eq!(
        App::<()>::parse_update_source("BETTR_UPDATE_SOURCE", " RELEASE ").unwrap(),
        UpdateSource::Release
    );
}

#[test]
fn an_unknown_update_source_is_refused_by_name() {
    assert_eq!(
        input_message(App::<()>::parse_update_source("BETTR_UPDATE_SOURCE", "nightly")),
        "BETTR_UPDATE_SOURCE must be release or main"
    );
}

#[test]
fn update_source_follows_precedence() {
    let chosen = App::<()>::resolved_update_source(
        Some(UpdateSource::Main),
        Some("release"),
        Some(UpdateSource::Release),
        None,
    )
    .unwrap();
    assert_eq!(chosen.value, UpdateSource::Main);
    assert_eq!(chosen.source, ContextSource::Argument);

    let environment =
        App::<()>::resolved_update_source(None, Some("Main"), Some(UpdateSource::Release), None)
            .unwrap();
    assert_eq!(environment.value, UpdateSource::Main);
    assert_eq!(environment.source, ContextSource::Environment);

    let user = App::<()>::resolved_update_source(None, None, None, Some(UpdateSource::Main)).unwrap();
    assert_eq!(user.source, ContextSource::UserConfig);

    let fallback = App::<()>::resolved_update_source(None, None, None, None).unwrap();
    assert_eq!(fallback.value, UpdateSource::Release);
    assert_eq!(fallback.source, ContextSource::Default);
    assert_eq!(fallback.source.as_str(), "default");
}

#[test]
fn project_follows_precedence_and_is_checked() {
    let chosen = resolve_project(None, Some("env".to_owned()), Some("dir".to_owned()), None).unwrap();
    assert_eq!(chosen.value, Some("env".to_owned()));
    assert_eq!(chosen.source, ContextSource::Environment);
    let none = resolve_project(None, None, None, None).unwrap();
    assert_eq!(none.value, None);
    assert_eq!(none.source, ContextSource::Default);
    assert_eq!(
        input_message(resolve_project(Some(" ".to_owned()), None, None, None)),
        "project name must not be empty"
    );
}

#[test]
fn database_follows_precedence_and_is_checked() {
    let default = resolve_database(None, None, None, "/c/config.toml", Some("/d/bettr.db".to_owned()))
        .unwrap();
    assert_eq!(default.value, "/d/bettr.db");
    assert_eq!(default.source, ContextSource::Default);
    assert_eq!(
        input_message(resolve_database(
            None,
            None,
            Some(("db".to_owned(), false)),
            "/c/config.toml",
            None
        )),
        "database in /c/config.toml must be an absolute path"
    );
    assert_eq!(
        input_message(resolve_database(Some(String::new()), None, None, "/c", None)),
        "--database must not be empty"
    );
    assert_eq!(
        input_message(resolve_database(None, None, None, "/c", None)),
        "could not resolve the platform data directory"
    );
}

#[test]
fn an_idempotency_key_must_be_valid() {
    let app = App::new(7u8).with_idempotency_key(Some("retry-1".to_owned())).unwrap();
    assert_eq!(app.database, 7);
    assert_eq!(app.idempotency_key, Some("retry-1".to_owned()));
    assert!(App::new(7u8).with_idempotency_key(Some("  ".to_owned())).is_err());
    assert!(App::new(7u8).with_idempotency_key(None).unwrap().idempotency_key.is_none());
}

#[test]
fn capabilities_are_sorted_and_enabled() {
    let capabilities = App::<()>::capabilities();
    assert_eq!(capabilities.json_contract_version, 1);
    assert_eq!(capabilities.cli_version, CLI_VERSION);
    let names: Vec<&str> = capabilities.capabilities.iter().map(|(name, _)| *name).collect();
    let mut sorted = names.clone();
    sorted.sort();
    assert_eq!(names, sorted);
    assert_eq!(names.len(), 11);
    assert!(capabilities.capabilities.iter().all(|(_, enabled)| *enabled));
}

#[test]
fn event_pages_are_bounded() {
    assert_eq!(check_event_request(0, None).unwrap(), 100);
    assert_eq!(check_event_request(5, Some(500)).unwrap(), 500);
    assert_eq!(
        input_message(check_event_request(-1, None)),
        "event cursor must not be negative"
    );
    assert_eq!(
        input_message(check_event_request(0, Some(0))),
        "event limit must be between 1 and 500"
    );
    assert_eq!(event_page(4, 2, &vec![7, 3, 5, 6]), (vec![5, 6], true, 6));
    assert_eq!(event_page(4, 2, &vec![5, 1]), (vec![5], false, 5));
    assert_eq!(event_page(4, 2, &vec![]), (vec![], false, 4));
    assert_eq!(event_page(0, 3, &vec![2, 2, 1]), (vec![1, 2], false, 2));
}

#[test]
fn a_transition_is_planned_against_the_current_issue() {
    let planned = plan_transition(Ok(Transition::Start), 3, 2, Ok(issue(IssueState::Todo, 2))).unwrap();
    assert_eq!(planned.1, IssueState::InProgress);
    assert!(matches!(
        plan_transition(Ok(Transition::Start), 3, 1, Ok(issue(IssueState::Todo, 2))),
        Err(AppError::RevisionConflict { current_revision: 2 })
    ));
    assert_eq!(
        input_message(plan_transition(Ok(Transition::Start), 0, 1, Ok(issue(IssueState::Todo, 1)))),
        "issue number must be positive"
    );
    assert!(matches!(
        plan_transition(Transition::cancel(" ".to_owned()), 3, 1, Ok(issue(IssueState::Todo, 1))),
        Err(AppError::InvalidInput(_))
    ));
}

#[test]
fn an_edit_request_is_checked_before_the_store() {
    let patch = IssuePatch {
        title: Some("x".to_owned()),
        body: None,
        priority: None,
        assignee_kind: None,
        assignee_name: None,
    };
    assert_eq!(
        input_message(check_edit_request(3, 0, &patch, Ok(issue(IssueState::Todo, 1)))),
        "issue revision must be positive"
    );
    assert!(check_edit_request(3, 1, &patch, Ok(issue(IssueState::Todo, 1))).is_ok());
}

#[test]
fn decision_resolution_requests_need_a_uuid_and_an_answer() {
    let id = "67e55044-10b1-426f-9247-bb680e5fe0c8";
    assert_eq!(
        check_decision_resolution_request(id, Some(2), "Use A").unwrap(),
        0x67e55044_10b1_426f_9247_bb680e5fe0c8u128
    );
    assert_eq!(
        input_message(check_decision_resolution_request("not-a-uuid", None, "Use A")),
        "decision request id must be a UUID"
    );
    assert_eq!(
        input_message(check_decision_resolution_request(id, Some(0), "Use A")),
        "issue revision must be positive"
    );
    assert_eq!(
        input_message(check_decision_resolution_request(id, None, " ")),
        "decision answer must not be empty"
    );
}

#[test]
fn audit_filters_are_checked() {
    assert!(check_audit_filter(Some("issue_create"), Some("success"), Some("agent"), None, None).is_ok());
    assert_eq!(
        input_message(check_audit_filter(None, Some("maybe"), None, None, None)),
        "audit outcome must be success or failure"
    );
    assert_eq!(
        input_message(check_audit_filter(None, None, Some("robot"), None, None)),
        "audit kind must be agent, human, or system"
    );
    assert_eq!(
        input_message(check_audit_filter(None, None, None, Some(5), Some(4))),
        "audit --after must not be later than --before"
    );
}

#[test]
fn an_unaudited_failure_names_both_codes() {
    let error = failure_audit_error(
        "issue_show",
        &AppError::NotFound("missing".to_owned()),
        &AppError::DatabaseBusy("busy".to_owned()),
    );
    match error {
        AppError::Internal(message) => assert_eq!(
            message,
            "failed to persist failure audit for issue_show after not_found (database_busy)"
        ),
        _ => panic!("expected an internal error"),
    }
}

#[test]
fn only_a_human_may_redact() {
    let human = ExecutionContext {
        kind: InitiatorKind::Human,
        agent: None,
        session_id: None,
        operator: Some("asonas".to_owned()),
    };
    assert!(check_redaction_context(&human).is_ok());
    let agent = ExecutionContext {
        kind: InitiatorKind::Agent,
        agent: Some("codex".to_owned()),
        session_id: Some("s-1".to_owned()),
        operator: None,
    };
    match check_redaction_context(&agent) {
        Err(AppError::Conflict(message)) => {
            assert_eq!(message, "redaction requires a human execution context")
        }
        _ => panic!("expected a conflict"),
    }
}

#[test]
fn a_decision_request_id_is_a_uuid() {
    assert_eq!(
        decision_request_id("00000000-0000-0000-0000-00000000002a").unwrap(),
        42
    );
    assert_eq!(
        input_message(decision_request_id("42")),
        "decision request id must be a UUID"
    );
}
