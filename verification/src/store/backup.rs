//! The checks of backup and restore: what a backup must be, and when a
//! restore may write its output. The program copies the files.
use crate::error::{fails_with_input, AppError};
use crate::store::schema::{is_supported_version, BASE_SCHEMA_VERSION, BETTR_APPLICATION_ID, LATEST_SCHEMA_VERSION};
use crate::text::{concat, str_equals};
use vstd::prelude::*;

verus! {

/// The format that backups are written in.
pub const BACKUP_FORMAT: &'static str = "sqlite_online_backup";

/// A written backup.
#[derive(Clone, Debug)]
pub struct BackupResult {
    pub output: String,
    pub schema_version: u32,
    pub format: &'static str,
}

/// A restored database.
#[derive(Clone, Debug)]
pub struct RestoreResult {
    pub output: String,
    pub schema_version: u32,
    pub audit_event_count: usize,
    pub format: &'static str,
}

/// `r` failed as an invalid backup with exactly `message`.
pub open spec fn fails_as_invalid_backup<T>(r: Result<T, AppError>, message: Seq<char>) -> bool {
    r matches Err(AppError::InvalidBackup(m)) && m@ == message
}

/// A backup belongs to bettr: its `application_id` must be ours.
pub fn check_backup_application_id(application_id: i64) -> (r: Result<(), AppError>)
    ensures
        !(0 <= application_id <= u32::MAX) ==> fails_as_invalid_backup(
            r,
            "backup identity is invalid"@,
        ),
        0 <= application_id <= u32::MAX && application_id != BETTR_APPLICATION_ID ==> r matches Err(
            AppError::DatabaseNotInitialized,
        ),
        application_id == BETTR_APPLICATION_ID ==> r is Ok,
{
    if application_id < 0 || application_id > 4294967295 {
        return Err(AppError::InvalidBackup("backup identity is invalid".to_owned()));
    }
    if application_id != BETTR_APPLICATION_ID as i64 {
        return Err(AppError::DatabaseNotInitialized);
    }
    Ok(())
}

/// A backup's schema version must be one that this build opens.
pub fn check_backup_schema_version(user_version: i64) -> (r: Result<u32, AppError>)
    ensures
        !(0 <= user_version <= u32::MAX) ==> fails_as_invalid_backup(
            r,
            "backup schema version is invalid"@,
        ),
        0 <= user_version <= u32::MAX && !(BASE_SCHEMA_VERSION <= user_version
            <= LATEST_SCHEMA_VERSION) ==> (r matches Err(
            AppError::UnsupportedDatabaseSchemaVersion { found_version, current_version },
        ) && found_version == user_version && current_version == LATEST_SCHEMA_VERSION),
        BASE_SCHEMA_VERSION <= user_version <= LATEST_SCHEMA_VERSION ==> r == Ok::<u32, AppError>(
            user_version as u32,
        ),
{
    if user_version < 0 || user_version > 4294967295 {
        return Err(AppError::InvalidBackup("backup schema version is invalid".to_owned()));
    }
    let version = user_version as u32;
    if !is_supported_version(version) {
        return Err(
            AppError::UnsupportedDatabaseSchemaVersion {
                found_version: version,
                current_version: LATEST_SCHEMA_VERSION,
            },
        );
    }
    Ok(version)
}

/// SQLite's integrity check of a backup must report `ok`.
pub fn check_backup_integrity(report: &str) -> (r: Result<(), AppError>)
    ensures
        report@ == "ok"@ ==> r is Ok,
        report@ != "ok"@ ==> fails_as_invalid_backup(r, "backup integrity check failed"@),
{
    if !str_equals(report, "ok") {
        return Err(AppError::InvalidBackup("backup integrity check failed".to_owned()));
    }
    Ok(())
}

/// A backup has no foreign key violation.
pub fn check_backup_foreign_keys(has_violation: bool) -> (r: Result<(), AppError>)
    ensures
        has_violation ==> fails_as_invalid_backup(r, "backup foreign key check failed"@),
        !has_violation ==> r is Ok,
{
    if has_violation {
        return Err(AppError::InvalidBackup("backup foreign key check failed".to_owned()));
    }
    Ok(())
}

/// A restore is confirmed and does not write over its own input.
pub fn check_restore_request(confirmed: bool, same_paths: bool) -> (r: Result<(), AppError>)
    ensures
        !confirmed ==> r matches Err(AppError::BackupConfirmationRequired),
        confirmed && same_paths ==> fails_with_input(r, "restore input and output must differ"@),
        confirmed && !same_paths ==> r is Ok,
{
    if !confirmed {
        return Err(AppError::BackupConfirmationRequired);
    }
    if same_paths {
        return Err(AppError::InvalidInput("restore input and output must differ".to_owned()));
    }
    Ok(())
}

/// A backup writes a new file only: an existing output is refused, then an
/// output whose directory does not exist, then one beside SQLite sidecar
/// files.
pub fn check_backup_destination(output_exists: bool, parent_is_dir: bool, has_sidecar: bool) -> (r: Result<
    (),
    AppError,
>)
    ensures
        output_exists ==> r matches Err(AppError::BackupOutputExists),
        !output_exists && !parent_is_dir ==> (r matches Err(AppError::BackupOperation { operation })
            && operation@ == "output"@),
        !output_exists && parent_is_dir && has_sidecar ==> r matches Err(AppError::BackupDestinationInUse),
        !output_exists && parent_is_dir && !has_sidecar ==> r is Ok,
{
    if output_exists {
        return Err(AppError::BackupOutputExists);
    }
    if !parent_is_dir {
        return Err(AppError::BackupOperation { operation: "output" });
    }
    if has_sidecar {
        return Err(AppError::BackupDestinationInUse);
    }
    Ok(())
}

/// A restore writes its output only where it replaces nothing, unless asked
/// to replace: an existing database, its audit log or its SQLite sidecar
/// files are then replaced. A path that exists but is no regular file is
/// never replaced; `output_is_file` matters only when the output exists.
pub fn check_restore_destination(
    output_exists: bool,
    has_sidecar: bool,
    output_is_file: bool,
    audit_log_exists: bool,
    replace: bool,
) -> (r: Result<(), AppError>)
    ensures
        has_sidecar && !replace ==> r matches Err(AppError::BackupDestinationInUse),
        !(has_sidecar && !replace) && output_exists && (!output_is_file || !replace) ==> r matches Err(
            AppError::BackupOutputExists,
        ),
        !(has_sidecar && !replace) && !(output_exists && (!output_is_file || !replace))
            && audit_log_exists && !replace ==> r matches Err(AppError::BackupOutputExists),
        !(has_sidecar && !replace) && !(output_exists && (!output_is_file || !replace))
            && !(audit_log_exists && !replace) ==> r is Ok,
{
    if has_sidecar && !replace {
        return Err(AppError::BackupDestinationInUse);
    }
    if output_exists {
        if !output_is_file {
            return Err(AppError::BackupOutputExists);
        }
        if !replace {
            return Err(AppError::BackupOutputExists);
        }
    }
    if audit_log_exists && !replace {
        return Err(AppError::BackupOutputExists);
    }
    Ok(())
}

/// The files that SQLite keeps beside a database.
pub open spec fn sidecar_suffixes() -> Seq<Seq<char>> {
    seq!["-wal"@, "-shm"@, "-journal"@]
}

/// The suffixes of SQLite's sidecar files, in the order they are checked.
pub fn sidecar_suffixes_list() -> (v: Vec<&'static str>)
    ensures
        v@.len() == 3,
        forall|i: int| 0 <= i < 3 ==> #[trigger] v@[i]@ == sidecar_suffixes()[i],
{
    vec!["-wal", "-shm", "-journal"]
}

/// The path of a database's sidecar file.
pub fn sqlite_sidecar(path: &str, suffix: &str) -> (s: String)
    ensures
        s@ == path@ + suffix@,
{
    concat(path, suffix)
}

} // verus!
