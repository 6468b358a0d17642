use bettr::error::{sqlite_error, AppError};

fn sqlite_failure(code: i32) -> AppError {
    sqlite_error(Some(rusqlite::ffi::Error::new(code).extended_code))
}

#[test]
fn sqlite_busy_variants_and_locked_map_to_database_busy() {
    for code in [
        rusqlite::ffi::SQLITE_BUSY,
        rusqlite::ffi::SQLITE_BUSY_SNAPSHOT,
        rusqlite::ffi::SQLITE_LOCKED,
    ] {
        let error = sqlite_failure(code);
        assert!(matches!(error, AppError::DatabaseBusy(_)));
        assert!(!error.message().contains("private SQLite detail"));
    }
}

#[test]
fn other_sqlite_errors_have_safe_internal_diagnostics() {
    let error = sqlite_failure(rusqlite::ffi::SQLITE_CORRUPT);

    assert!(matches!(error, AppError::Internal(_)));
    assert!(!error.message().contains("secret database detail"));
    assert!(error.message().contains("SQLite error code 11"));
}
