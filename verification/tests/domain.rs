use bettr::domain::{
    validate_comment_body, validate_decision_options, validate_idempotency_key,
    validate_issue_title, validate_project_name, AssigneeKind, DomainError, Issue, IssuePatch,
    IssueReference, IssueState, NewIssue, Priority, Transition, WaitKind,
};
use bettr::error::AppError;

fn issue(state: IssueState) -> Issue {
    Issue {
        id: 1,
        project_id: 2,
        number: 7,
        title: "Build local core".to_owned(),
        body: Some("details".to_owned()),
        state,
        priority: Some(Priority::High),
        assignee_kind: None,
        assignee_name: None,
        revision: 3,
        created_at: 10,
        updated_at: 20,
    }
}

fn input_message<T>(result: Result<T, AppError>) -> String {
    match result {
        Err(AppError::InvalidInput(message)) => message,
        _ => panic!("expected an invalid input error"),
    }
}

#[test]
fn issue_state_apply_uses_the_guarded_transition_table() {
    let allowed = [
        (IssueState::Todo, Transition::Start, IssueState::InProgress),
        (IssueState::Blocked, Transition::Resume, IssueState::InProgress),
    ];
    for (state, transition, expected) in allowed {
        assert_eq!(state.apply(&transition).unwrap(), expected);
    }

    assert!(matches!(
        IssueState::Done.apply(&Transition::Start),
        Err(DomainError::InvalidTransition { .. })
    ));
}

#[test]
fn transition_metadata_constructors_reject_blank_values() {
    assert!(matches!(
        Transition::block(" ".to_owned(), WaitKind::Human),
        Err(DomainError::InvalidMetadata(_))
    ));
    assert!(matches!(
        Transition::complete("done".to_owned(), " ".to_owned()),
        Err(DomainError::InvalidMetadata(_))
    ));
    assert!(matches!(
        Transition::cancel(" ".to_owned()),
        Err(DomainError::InvalidMetadata(_))
    ));
    assert!(matches!(
        Transition::reopen(" ".to_owned()),
        Err(DomainError::InvalidMetadata(_))
    ));
}

#[test]
fn new_issue_rejects_a_body_larger_than_one_mebibyte() {
    let issue = NewIssue {
        title: "Build local core".to_owned(),
        body: Some("a".repeat(1_048_577)),
        priority: None,
    };

    assert!(matches!(
        issue.validate(),
        Err(AppError::InvalidInput(message))
            if message == "issue body must contain at most 1 MiB"
    ));
}

#[test]
fn idempotency_key_validation_rejects_blank_and_oversized_keys() {
    assert!(validate_idempotency_key(" ").is_err());
    assert!(validate_idempotency_key(&"a".repeat(201)).is_err());
    assert!(validate_idempotency_key("request-123").is_ok());
}

#[test]
fn every_allowed_transition_reaches_its_target_state() {
    let block = Transition::block("waiting".to_owned(), WaitKind::Human).unwrap();
    let complete = Transition::complete("done".to_owned(), "tests".to_owned()).unwrap();
    let cancel = Transition::cancel("dropped".to_owned()).unwrap();
    let reopen = Transition::reopen("again".to_owned()).unwrap();
    assert_eq!(IssueState::InProgress.apply(&block).unwrap(), IssueState::Blocked);
    assert_eq!(IssueState::InProgress.apply(&complete).unwrap(), IssueState::Done);
    assert_eq!(IssueState::InProgress.apply(&cancel).unwrap(), IssueState::Cancelled);
    assert_eq!(IssueState::Blocked.apply(&cancel).unwrap(), IssueState::Cancelled);
    assert_eq!(IssueState::Done.apply(&reopen).unwrap(), IssueState::Todo);
    assert_eq!(IssueState::Cancelled.apply(&reopen).unwrap(), IssueState::Todo);
}

#[test]
fn refused_transition_names_the_state_and_transition() {
    let error = IssueState::Todo
        .apply(&Transition::complete("s".to_owned(), "v".to_owned()).unwrap())
        .unwrap_err();
    assert_eq!(error.message(), "cannot complete an issue in the todo state");
    match error.into_app_error() {
        AppError::InvalidTransition(message) => {
            assert_eq!(message, "cannot complete an issue in the todo state")
        }
        _ => panic!("expected an invalid transition"),
    }
    let metadata = Transition::cancel("  ".to_owned()).unwrap_err();
    assert_eq!(metadata.message(), "cancellation reason must not be empty");
    assert!(matches!(metadata.into_app_error(), AppError::InvalidInput(_)));
}

#[test]
fn state_names_round_trip() {
    for state in [
        IssueState::Todo,
        IssueState::InProgress,
        IssueState::Blocked,
        IssueState::Done,
        IssueState::Cancelled,
    ] {
        assert_eq!(IssueState::parse(state.as_str()).unwrap(), state);
    }
    assert_eq!(IssueState::InProgress.as_str(), "in_progress");
    assert!(IssueState::parse("open").is_err());
}

#[test]
fn issue_references_read_project_and_number() {
    let reference = IssueReference::parse("bettr#12", None).unwrap();
    assert_eq!(reference.project, "bettr");
    assert_eq!(reference.number, 12);
    assert_eq!(reference.label(), "bettr#12");

    let defaulted = IssueReference::parse("5", Some("core")).unwrap();
    assert_eq!(defaulted.project, "core");
    assert_eq!(defaulted.number, 5);

    assert_eq!(
        input_message(IssueReference::parse("5", None)),
        "issue reference must use PROJECT#NUMBER or provide --project"
    );
    assert_eq!(
        input_message(IssueReference::parse("bettr#0", None)),
        "issue reference number must be positive"
    );
    assert_eq!(
        input_message(IssueReference::parse("bettr#x", None)),
        "issue reference number must be a positive integer"
    );
    assert_eq!(
        input_message(IssueReference::parse(" #3", None)),
        "project name must not be empty"
    );
}

#[test]
fn text_fields_are_checked_for_blank_and_length() {
    assert_eq!(
        input_message(validate_project_name(&"p".repeat(201))),
        "project name must contain at most 200 Unicode scalar values"
    );
    assert!(validate_project_name(&"p".repeat(200)).is_ok());
    assert_eq!(input_message(validate_issue_title("  ")), "issue title must not be empty");
    assert!(validate_comment_body("\t").is_err());
    assert!(validate_comment_body("looks good").is_ok());
    assert_eq!(
        input_message(validate_idempotency_key(&"é".repeat(201))),
        "idempotency key must contain at most 200 Unicode scalar values"
    );
    assert!(validate_idempotency_key(&"é".repeat(200)).is_ok());
}

#[test]
fn decision_options_need_two_filled_choices() {
    assert_eq!(
        input_message(validate_decision_options(&vec!["only".to_owned()])),
        "decision options must contain at least two choices"
    );
    assert_eq!(
        input_message(validate_decision_options(&vec!["a".to_owned(), " ".to_owned()])),
        "decision option 2 must not be empty"
    );
    assert!(validate_decision_options(&vec!["a".to_owned(), "b".to_owned()]).is_ok());
}

#[test]
fn new_issue_records_its_provided_fields() {
    let new_issue = NewIssue {
        title: "t".to_owned(),
        body: None,
        priority: Some(Priority::Low),
    };
    assert!(new_issue.validate().is_ok());
    assert_eq!(new_issue.changed_fields(), vec!["title", "state", "priority"]);
}

#[test]
fn an_edit_changes_only_the_fields_it_provides() {
    let before = issue(IssueState::Todo);
    let patch = IssuePatch {
        title: Some("Renamed".to_owned()),
        body: Some(None),
        priority: None,
        assignee_kind: Some(Some(AssigneeKind::Agent)),
        assignee_name: Some(Some("codex".to_owned())),
    };
    assert!(patch.validate().is_ok());
    let mut after = before.clone();
    patch.apply_to(&mut after);
    assert_eq!(after.title, "Renamed");
    assert_eq!(after.body, None);
    assert_eq!(after.priority, Some(Priority::High));
    assert_eq!(after.assignee_kind, Some(AssigneeKind::Agent));
    assert_eq!(after.assignee_name, Some("codex".to_owned()));
    assert_eq!(
        patch.changed_fields(&before, &after),
        vec!["title", "body", "assignee_kind", "assignee_name"]
    );

    let mut again = after.clone();
    patch.apply_to(&mut again);
    assert_eq!(again.title, after.title);
    assert_eq!(again.body, after.body);
    assert_eq!(again.assignee_name, after.assignee_name);
}

#[test]
fn an_empty_edit_is_refused() {
    let patch = IssuePatch {
        title: None,
        body: None,
        priority: None,
        assignee_kind: None,
        assignee_name: None,
    };
    assert_eq!(input_message(patch.validate()), "issue edit must change at least one field");
}
