//! The error type of every operation, with its stable code and process exit code.
use crate::text::{concat, concat3, i64_to_decimal, int_decimal, nat_decimal, push_str, u64_to_decimal};
use vstd::prelude::*;

verus! {

/// The process exit status that the command-line program reports.
#[derive(Clone, Copy, Debug, PartialEq, Eq, Structural)]
pub enum ExitCode {
    Success,
    InvalidInput,
    NotFound,
    Conflict,
    DatabaseBusy,
    Internal,
}

/// The numeric status of each exit code.
pub open spec fn exit_code_number(code: ExitCode) -> u8 {
    match code {
        ExitCode::Success => 0,
        ExitCode::InvalidInput => 2,
        ExitCode::NotFound => 3,
        ExitCode::Conflict => 4,
        ExitCode::DatabaseBusy => 5,
        ExitCode::Internal => 10,
    }
}

impl ExitCode {
    /// The numeric process status.
    pub fn as_u8(self) -> (n: u8)
        ensures
            n == exit_code_number(self),
    {
        match self {
            ExitCode::Success => 0,
            ExitCode::InvalidInput => 2,
            ExitCode::NotFound => 3,
            ExitCode::Conflict => 4,
            ExitCode::DatabaseBusy => 5,
            ExitCode::Internal => 10,
        }
    }
}

#[derive(Clone, Debug)]
pub enum AppError {
    InvalidInput(String),
    NotFound(String),
    Conflict(String),
    IdempotencyConflict,
    InvalidTransition(String),
    RevisionConflict { current_revision: i64 },
    ProjectNameConflict,
    DatabaseBusy(String),
    Internal(String),
    AuditIntegrity { message: String, line: Option<usize>, sequence: Option<i64> },
    AuditOperation { operation: &'static str },
    DatabaseAlreadyInitialized,
    DatabaseNotInitialized,
    UnsupportedDatabaseSchemaVersion { found_version: u32, current_version: u32 },
    /// Carries the serialized self-update report.
    SelfUpdateFailed(String),
    /// Carries the serialized self-uninstall report.
    SelfUninstallFailed(String),
    InvalidBackup(String),
    BackupOutputExists,
    BackupConfirmationRequired,
    BackupDestinationInUse,
    BackupOperation { operation: &'static str },
}

/// The exit code of each error kind.
pub open spec fn spec_exit_code(e: AppError) -> ExitCode {
    match e {
        AppError::InvalidInput(_) => ExitCode::InvalidInput,
        AppError::NotFound(_) => ExitCode::NotFound,
        AppError::Conflict(_) | AppError::IdempotencyConflict | AppError::InvalidTransition(_)
        | AppError::RevisionConflict { .. } | AppError::ProjectNameConflict => ExitCode::Conflict,
        AppError::DatabaseBusy(_) => ExitCode::DatabaseBusy,
        AppError::Internal(_) | AppError::AuditIntegrity { .. } | AppError::AuditOperation {
            ..
        } => ExitCode::Internal,
        AppError::DatabaseAlreadyInitialized => ExitCode::InvalidInput,
        AppError::DatabaseNotInitialized => ExitCode::NotFound,
        AppError::UnsupportedDatabaseSchemaVersion { .. } => ExitCode::InvalidInput,
        AppError::SelfUpdateFailed(_) | AppError::SelfUninstallFailed(_) => ExitCode::Internal,
        AppError::InvalidBackup(_) | AppError::BackupConfirmationRequired => ExitCode::InvalidInput,
        AppError::BackupOutputExists | AppError::BackupDestinationInUse => ExitCode::Conflict,
        AppError::BackupOperation { .. } => ExitCode::Internal,
    }
}

/// The stable machine-readable code of each error kind.
pub open spec fn spec_code(e: AppError) -> Seq<char> {
    match e {
        AppError::InvalidInput(_) => "invalid_input"@,
        AppError::NotFound(_) => "not_found"@,
        AppError::Conflict(_) => "conflict"@,
        AppError::IdempotencyConflict => "idempotency_conflict"@,
        AppError::InvalidTransition(_) => "invalid_transition"@,
        AppError::RevisionConflict { .. } => "revision_conflict"@,
        AppError::ProjectNameConflict => "project_name_conflict"@,
        AppError::DatabaseBusy(_) => "database_busy"@,
        AppError::Internal(_) => "internal_error"@,
        AppError::AuditIntegrity { .. } => "audit_integrity_failure"@,
        AppError::AuditOperation { .. } => "audit_operation_failed"@,
        AppError::DatabaseAlreadyInitialized => "database_already_initialized"@,
        AppError::DatabaseNotInitialized => "database_not_initialized"@,
        AppError::UnsupportedDatabaseSchemaVersion { .. } => "unsupported_database_schema_version"@,
        AppError::SelfUpdateFailed(_) => "self_update_failed"@,
        AppError::SelfUninstallFailed(_) => "self_uninstall_failed"@,
        AppError::InvalidBackup(_) => "invalid_backup"@,
        AppError::BackupOutputExists => "backup_output_exists"@,
        AppError::BackupConfirmationRequired => "confirmation_required"@,
        AppError::BackupDestinationInUse => "backup_destination_in_use"@,
        AppError::BackupOperation { .. } => "backup_operation_failed"@,
    }
}

/// The human-readable message of each error.
pub open spec fn spec_message(e: AppError) -> Seq<char> {
    match e {
        AppError::InvalidInput(m) => m@,
        AppError::NotFound(m) => m@,
        AppError::Conflict(m) => m@,
        AppError::InvalidTransition(m) => m@,
        AppError::DatabaseBusy(m) => m@,
        AppError::Internal(m) => m@,
        AppError::AuditIntegrity { message, .. } => message@,
        AppError::AuditOperation { operation } => "audit "@ + operation@ + " operation failed"@,
        AppError::IdempotencyConflict =>
            "idempotency key has already been used with a different operation or payload"@,
        AppError::RevisionConflict { current_revision } => "issue revision conflict; current revision is "@
            + int_decimal(current_revision as int),
        AppError::ProjectNameConflict => "project name already exists"@,
        AppError::DatabaseAlreadyInitialized => "database is already initialized"@,
        AppError::DatabaseNotInitialized => "database is not initialized"@,
        AppError::UnsupportedDatabaseSchemaVersion { found_version, current_version } =>
            "database schema version "@ + nat_decimal(found_version as nat)
            + " is unsupported; current version is "@ + nat_decimal(current_version as nat),
        AppError::SelfUpdateFailed(_) => "self-update failed"@,
        AppError::SelfUninstallFailed(_) => "self-uninstall failed"@,
        AppError::InvalidBackup(m) => m@,
        AppError::BackupOutputExists => "backup output already exists"@,
        AppError::BackupConfirmationRequired => "restore confirmation is required"@,
        AppError::BackupDestinationInUse => "destination has SQLite sidecar files"@,
        AppError::BackupOperation { operation } => "backup "@ + operation@ + " operation failed"@,
    }
}

/// `r` failed with `InvalidInput` carrying exactly `message`.
pub open spec fn fails_with_input<T>(r: Result<T, AppError>, message: Seq<char>) -> bool {
    r matches Err(AppError::InvalidInput(m)) && m@ == message
}

/// `r` failed with `Internal` carrying exactly `message`.
pub open spec fn fails_with_internal<T>(r: Result<T, AppError>, message: Seq<char>) -> bool {
    r matches Err(AppError::Internal(m)) && m@ == message
}

/// `r` failed with `Conflict` carrying exactly `message`.
pub open spec fn fails_with_conflict<T>(r: Result<T, AppError>, message: Seq<char>) -> bool {
    r matches Err(AppError::Conflict(m)) && m@ == message
}

/// `r` failed with `NotFound` carrying exactly `message`.
pub open spec fn fails_with_not_found<T>(r: Result<T, AppError>, message: Seq<char>) -> bool {
    r matches Err(AppError::NotFound(m)) && m@ == message
}

/// An `InvalidInput` error with the given message.
pub fn invalid_input(message: &str) -> (e: AppError)
    ensures
        e matches AppError::InvalidInput(m) && m@ == message@,
{
    AppError::InvalidInput(message.to_owned())
}

/// An `Internal` error with the given message.
pub fn internal(message: &str) -> (e: AppError)
    ensures
        e matches AppError::Internal(m) && m@ == message@,
{
    AppError::Internal(message.to_owned())
}

/// A `Conflict` error with the given message.
pub fn conflict(message: &str) -> (e: AppError)
    ensures
        e matches AppError::Conflict(m) && m@ == message@,
{
    AppError::Conflict(message.to_owned())
}

/// A `NotFound` error with the given message.
pub fn not_found(message: &str) -> (e: AppError)
    ensures
        e matches AppError::NotFound(m) && m@ == message@,
{
    AppError::NotFound(message.to_owned())
}

impl AppError {
    /// The process exit code for this error.
    pub fn exit_code(&self) -> (c: ExitCode)
        ensures
            c == spec_exit_code(*self),
    {
        match self {
            AppError::InvalidInput(_) => ExitCode::InvalidInput,
            AppError::NotFound(_) => ExitCode::NotFound,
            AppError::Conflict(_) | AppError::IdempotencyConflict | AppError::InvalidTransition(_)
            | AppError::RevisionConflict { .. } => ExitCode::Conflict,
            AppError::ProjectNameConflict => ExitCode::Conflict,
            AppError::DatabaseBusy(_) => ExitCode::DatabaseBusy,
            AppError::Internal(_) | AppError::AuditIntegrity { .. } | AppError::AuditOperation {
                ..
            } => ExitCode::Internal,
            AppError::DatabaseAlreadyInitialized => ExitCode::InvalidInput,
            AppError::DatabaseNotInitialized => ExitCode::NotFound,
            AppError::UnsupportedDatabaseSchemaVersion { .. } => ExitCode::InvalidInput,
            AppError::SelfUpdateFailed(_) | AppError::SelfUninstallFailed(_) => ExitCode::Internal,
            AppError::InvalidBackup(_) | AppError::BackupConfirmationRequired => {
                ExitCode::InvalidInput
            },
            AppError::BackupOutputExists | AppError::BackupDestinationInUse => ExitCode::Conflict,
            AppError::BackupOperation { .. } => ExitCode::Internal,
        }
    }

    /// The stable machine-readable code for this error.
    pub fn code(&self) -> (c: &'static str)
        ensures
            c@ == spec_code(*self),
    {
        match self {
            AppError::InvalidInput(_) => "invalid_input",
            AppError::NotFound(_) => "not_found",
            AppError::Conflict(_) => "conflict",
            AppError::IdempotencyConflict => "idempotency_conflict",
            AppError::InvalidTransition(_) => "invalid_transition",
            AppError::RevisionConflict { .. } => "revision_conflict",
            AppError::ProjectNameConflict => "project_name_conflict",
            AppError::DatabaseBusy(_) => "database_busy",
            AppError::Internal(_) => "internal_error",
            AppError::AuditIntegrity { .. } => "audit_integrity_failure",
            AppError::AuditOperation { .. } => "audit_operation_failed",
            AppError::DatabaseAlreadyInitialized => "database_already_initialized",
            AppError::DatabaseNotInitialized => "database_not_initialized",
            AppError::UnsupportedDatabaseSchemaVersion { .. } => "unsupported_database_schema_version",
            AppError::SelfUpdateFailed(_) => "self_update_failed",
            AppError::SelfUninstallFailed(_) => "self_uninstall_failed",
            AppError::InvalidBackup(_) => "invalid_backup",
            AppError::BackupOutputExists => "backup_output_exists",
            AppError::BackupConfirmationRequired => "confirmation_required",
            AppError::BackupDestinationInUse => "backup_destination_in_use",
            AppError::BackupOperation { .. } => "backup_operation_failed",
        }
    }

    /// The human-readable message, as the error's `Display` writes it.
    pub fn message(&self) -> (m: String)
        ensures
            m@ == spec_message(*self),
    {
        match self {
            AppError::InvalidInput(m) | AppError::NotFound(m) | AppError::Conflict(m)
            | AppError::InvalidTransition(m) | AppError::DatabaseBusy(m) | AppError::Internal(
                m,
            ) => m.clone(),
            AppError::AuditIntegrity { message, .. } => message.clone(),
            AppError::AuditOperation { operation } => concat3("audit ", operation, " operation failed"),
            AppError::IdempotencyConflict => {
                "idempotency key has already been used with a different operation or payload".to_owned()
            },
            AppError::RevisionConflict { current_revision } => {
                let n = i64_to_decimal(*current_revision);
                concat("issue revision conflict; current revision is ", n.as_str())
            },
            AppError::ProjectNameConflict => "project name already exists".to_owned(),
            AppError::DatabaseAlreadyInitialized => "database is already initialized".to_owned(),
            AppError::DatabaseNotInitialized => "database is not initialized".to_owned(),
            AppError::UnsupportedDatabaseSchemaVersion { found_version, current_version } => {
                let found = u64_to_decimal(*found_version as u64);
                let current = u64_to_decimal(*current_version as u64);
                let mut m = concat3("database schema version ", found.as_str(),
                    " is unsupported; current version is ");
                push_str(&mut m, current.as_str());
                m
            },
            AppError::SelfUpdateFailed(_) => "self-update failed".to_owned(),
            AppError::SelfUninstallFailed(_) => "self-uninstall failed".to_owned(),
            AppError::InvalidBackup(m) => m.clone(),
            AppError::BackupOutputExists => "backup output already exists".to_owned(),
            AppError::BackupConfirmationRequired => "restore confirmation is required".to_owned(),
            AppError::BackupDestinationInUse => "destination has SQLite sidecar files".to_owned(),
            AppError::BackupOperation { operation } => concat3("backup ", operation, " operation failed"),
        }
    }
}

/// The error that a failed database call becomes. `sqlite_code` is the
/// extended result code of a SQLite failure, `None` for any other failure.
/// A busy or locked database (primary codes 5 and 6) is reported as busy;
/// other failures keep SQLite's own message out and name only the code.
pub fn sqlite_error(sqlite_code: Option<i32>) -> (e: AppError)
    ensures
        match sqlite_code {
            Some(c) => if (c & 0xff) == 5 || (c & 0xff) == 6 {
                e matches AppError::DatabaseBusy(m) && m@ == "database is busy"@
            } else {
                e matches AppError::Internal(m) && m@ == "database operation failed (SQLite error code "@
                    + int_decimal(c as int) + ")"@
            },
            None => e matches AppError::Internal(m) && m@ == "database operation failed"@,
        },
{
    match sqlite_code {
        Some(c) => {
            let primary = c & 0xff;
            if primary == 5 || primary == 6 {
                AppError::DatabaseBusy("database is busy".to_owned())
            } else {
                let n = i64_to_decimal(c as i64);
                AppError::Internal(concat3("database operation failed (SQLite error code ", n.as_str(), ")"))
            }
        },
        None => AppError::Internal("database operation failed".to_owned()),
    }
}

} // verus!
