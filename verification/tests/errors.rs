use bettr::error::{sqlite_error, AppError, ExitCode};
use bettr::output::{error_document, error_line};
use bettr::json::Json;

#[test]
fn unsupported_schema_version_has_a_stable_input_error_contract() {
    let error = AppError::UnsupportedDatabaseSchemaVersion {
        found_version: 99,
        current_version: 3,
    };

    assert_eq!(error.exit_code().as_u8(), 2);
    assert_eq!(error.code(), "unsupported_database_schema_version");
    assert_eq!(
        error.message(),
        "database schema version 99 is unsupported; current version is 3"
    );
}

#[test]
fn idempotency_conflict_has_a_stable_contract() {
    let error = AppError::IdempotencyConflict;

    assert_eq!(error.exit_code().as_u8(), 4);
    assert_eq!(error.code(), "idempotency_conflict");
}

#[test]
fn every_error_kind_has_its_exit_status() {
    let cases: Vec<(AppError, ExitCode, u8, &str)> = vec![
        (AppError::InvalidInput("x".to_owned()), ExitCode::InvalidInput, 2, "invalid_input"),
        (AppError::NotFound("x".to_owned()), ExitCode::NotFound, 3, "not_found"),
        (AppError::Conflict("x".to_owned()), ExitCode::Conflict, 4, "conflict"),
        (AppError::InvalidTransition("x".to_owned()), ExitCode::Conflict, 4, "invalid_transition"),
        (AppError::RevisionConflict { current_revision: 2 }, ExitCode::Conflict, 4, "revision_conflict"),
        (AppError::ProjectNameConflict, ExitCode::Conflict, 4, "project_name_conflict"),
        (AppError::DatabaseBusy("x".to_owned()), ExitCode::DatabaseBusy, 5, "database_busy"),
        (AppError::Internal("x".to_owned()), ExitCode::Internal, 10, "internal_error"),
        (AppError::DatabaseAlreadyInitialized, ExitCode::InvalidInput, 2, "database_already_initialized"),
        (AppError::DatabaseNotInitialized, ExitCode::NotFound, 3, "database_not_initialized"),
    ];
    for (error, exit, number, code) in cases {
        assert_eq!(error.exit_code(), exit);
        assert_eq!(error.exit_code().as_u8(), number);
        assert_eq!(error.code(), code);
    }
    assert_eq!(ExitCode::Success.as_u8(), 0);
}

#[test]
fn fixed_messages_do_not_leak_details() {
    assert_eq!(AppError::ProjectNameConflict.message(), "project name already exists");
    assert_eq!(AppError::SelfUpdateFailed("secret".to_owned()).message(), "self-update failed");
    assert_eq!(
        AppError::BackupConfirmationRequired.message(),
        "restore confirmation is required"
    );
    assert_eq!(
        AppError::BackupOperation { operation: "verify" }.message(),
        "backup verify operation failed"
    );
}

#[test]
fn sqlite_codes_map_to_busy_or_a_safe_internal_error() {
    assert!(matches!(sqlite_error(Some(5)), AppError::DatabaseBusy(_)));
    assert!(matches!(sqlite_error(Some(517)), AppError::DatabaseBusy(_)));
    assert!(matches!(sqlite_error(Some(6)), AppError::DatabaseBusy(_)));
    match sqlite_error(Some(19)) {
        AppError::Internal(message) => {
            assert_eq!(message, "database operation failed (SQLite error code 19)")
        }
        _ => panic!("expected an internal error"),
    }
    match sqlite_error(None) {
        AppError::Internal(message) => assert_eq!(message, "database operation failed"),
        _ => panic!("expected an internal error"),
    }
}

#[test]
fn an_error_line_joins_code_and_message() {
    let error = AppError::NotFound("issue not found".to_owned());
    assert_eq!(error_line(&error), "not_found: issue not found");
    assert!(matches!(error_document(&error), Json::Object(_)));
}
