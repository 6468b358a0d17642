//! The database file's identity and its schema versions.
use crate::error::AppError;
use vstd::prelude::*;

verus! {

/// The SQLite `application_id` that marks a bettr database: `BTTR`.
pub const BETTR_APPLICATION_ID: u32 = 0x42545452;

/// The oldest schema version that this build opens.
pub const BASE_SCHEMA_VERSION: u32 = 1;

/// The schema version that this build writes.
pub const LATEST_SCHEMA_VERSION: u32 = 7;

/// A schema version is supported from the base version to the latest.
pub fn is_supported_version(version: u32) -> (b: bool)
    ensures
        b == (BASE_SCHEMA_VERSION <= version && version <= LATEST_SCHEMA_VERSION),
{
    BASE_SCHEMA_VERSION <= version && version <= LATEST_SCHEMA_VERSION
}

/// A step of the schema's history.
#[derive(Clone, Copy, Debug)]
pub struct Migration {
    pub version: u32,
    pub name: &'static str,
}

pub open spec fn migration_history() -> Seq<(u32, Seq<char>)> {
    seq![
        (2u32, "schema_migrations"@),
        (3u32, "phase_two_coordination"@),
        (4u32, "idempotency_and_audit"@),
        (5u32, "blocked_decision_context"@),
        (6u32, "repair_blocked_decision_context"@),
        (7u32, "jsonl_audit_cursor"@),
    ]
}

/// The migrations that lead from the base schema to the latest, in order.
pub fn migrations() -> (v: Vec<Migration>)
    ensures
        v@.len() == migration_history().len(),
        forall|i: int|
            0 <= i < v@.len() ==> (#[trigger] v@[i]).version == migration_history()[i].0
                && v@[i].name@ == migration_history()[i].1,
{
    let v = vec![
        Migration { version: 2, name: "schema_migrations" },
        Migration { version: 3, name: "phase_two_coordination" },
        Migration { version: 4, name: "idempotency_and_audit" },
        Migration { version: 5, name: "blocked_decision_context" },
        Migration { version: 6, name: "repair_blocked_decision_context" },
        Migration { version: 7, name: "jsonl_audit_cursor" },
    ];
    v
}

/// The migrations of `all` that a database at `current` still needs, in
/// order.
pub fn pending_migrations(all: &Vec<Migration>, current: i64) -> (v: Vec<Migration>)
    ensures
        v@ == all@.filter(|m: Migration| m.version > current),
{
    let mut v: Vec<Migration> = Vec::new();
    let mut i: usize = 0;
    while i < all.len()
        invariant
            i <= all.len(),
            v@ == all@.take(i as int).filter(|m: Migration| m.version > current),
        decreases all.len() - i,
    {
        let m = all[i];
        proof {
            assert(all@.take(i + 1).drop_last() =~= all@.take(i as int));
            reveal(Seq::filter);
        }
        if m.version as i64 > current {
            v.push(m);
        }
        i = i + 1;
    }
    assert(all@.take(i as int) =~= all@);
    v
}

/// What the header of a database file says of it.
#[derive(Clone, Copy, Debug)]
pub struct DatabaseIdentity {
    pub application_id: u32,
    pub user_version: u32,
}

impl DatabaseIdentity {
    pub fn is_bettr_application(&self) -> (b: bool)
        ensures
            b == (self.application_id == BETTR_APPLICATION_ID),
    {
        self.application_id == BETTR_APPLICATION_ID
    }

    pub fn is_supported_bettr(&self) -> (b: bool)
        ensures
            b == (self.application_id == BETTR_APPLICATION_ID && BASE_SCHEMA_VERSION
                <= self.user_version && self.user_version <= LATEST_SCHEMA_VERSION),
    {
        self.is_bettr_application() && is_supported_version(self.user_version)
    }
}

/// The first 16 bytes of every SQLite database file: `SQLite format 3\0`.
pub open spec fn sqlite_magic() -> Seq<u8> {
    seq![83u8, 81, 76, 105, 116, 101, 32, 102, 111, 114, 109, 97, 116, 32, 51, 0]
}

/// The big-endian number in the four bytes of `b` from `at`.
pub open spec fn be_u32(b: Seq<u8>, at: int) -> int {
    b[at] * 16777216 + b[at + 1] * 65536 + b[at + 2] * 256 + b[at + 3]
}

fn read_be_u32(b: &[u8], at: usize) -> (n: u32)
    requires
        at + 4 <= b@.len(),
    ensures
        n == be_u32(b@, at as int),
{
    let n = (b[at] as u32) * 16777216 + (b[at + 1] as u32) * 65536 + (b[at + 2] as u32) * 256
        + (b[at + 3] as u32);
    n
}

/// Reads the identity of a database from the first 100 bytes of its file:
/// the SQLite magic, the `user_version` at offset 60 and the `application_id`
/// at offset 68, both big-endian. A file that is not a SQLite database is not
/// an initialized one.
pub fn header_identity(header: &[u8]) -> (r: Result<DatabaseIdentity, AppError>)
    requires
        header@.len() == 100,
    ensures
        header@.take(16) != sqlite_magic() ==> r matches Err(AppError::DatabaseNotInitialized),
        header@.take(16) == sqlite_magic() ==> (r matches Ok(id) && id.user_version == be_u32(
            header@,
            60,
        ) && id.application_id == be_u32(header@, 68)),
{
    let magic: [u8; 16] = [83, 81, 76, 105, 116, 101, 32, 102, 111, 114, 109, 97, 116, 32, 51, 0];
    let mut i: usize = 0;
    while i < 16
        invariant
            i <= 16,
            header@.len() == 100,
            magic@ == sqlite_magic(),
            forall|j: int| 0 <= j < i ==> header@[j] == sqlite_magic()[j],
        decreases 16 - i,
    {
        if header[i] != magic[i] {
            assert(header@.take(16)[i as int] != sqlite_magic()[i as int]);
            return Err(AppError::DatabaseNotInitialized);
        }
        i = i + 1;
    }
    assert(header@.take(16) =~= sqlite_magic());
    Ok(
        DatabaseIdentity {
            user_version: read_be_u32(header, 60),
            application_id: read_be_u32(header, 68),
        },
    )
}

/// What opening a database at `identity` finds: not a bettr database, a
/// schema too new or too old, or the version to migrate from.
pub fn check_identity(identity: &DatabaseIdentity) -> (r: Result<u32, AppError>)
    ensures
        identity.application_id != BETTR_APPLICATION_ID ==> r matches Err(
            AppError::DatabaseNotInitialized,
        ),
        identity.application_id == BETTR_APPLICATION_ID && !(BASE_SCHEMA_VERSION
            <= identity.user_version && identity.user_version <= LATEST_SCHEMA_VERSION) ==> (r
            matches Err(AppError::UnsupportedDatabaseSchemaVersion { found_version, current_version })
            && found_version == identity.user_version && current_version == LATEST_SCHEMA_VERSION),
        identity.application_id == BETTR_APPLICATION_ID && BASE_SCHEMA_VERSION
            <= identity.user_version && identity.user_version <= LATEST_SCHEMA_VERSION ==> r
            == Ok::<u32, AppError>(identity.user_version),
{
    if !identity.is_bettr_application() {
        return Err(AppError::DatabaseNotInitialized);
    }
    if !is_supported_version(identity.user_version) {
        return Err(
            AppError::UnsupportedDatabaseSchemaVersion {
                found_version: identity.user_version,
                current_version: LATEST_SCHEMA_VERSION,
            },
        );
    }
    Ok(identity.user_version)
}

} // verus!
