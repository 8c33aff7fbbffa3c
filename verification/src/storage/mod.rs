//! Manager-owned storage decisions: validation of writes, revision and
//! sequence rules, delivery and review transitions, schema identity.
pub mod attention;
pub mod catalog;
pub mod codes;
pub mod engine;
pub mod files;
pub mod layout;
pub mod migration;
pub mod outcomes;
pub mod queries;
pub mod reconcile;
pub mod reducer_types;
pub mod runs;
pub mod schema;
pub mod sequencing;
pub mod types;
pub mod validation;

use vstd::prelude::*;

verus! {

/// Sanitized failure categories contain no paths, SQL, metadata or OS messages.
#[derive(Clone, Copy, Debug, PartialEq, Eq, Structural)]
pub enum StorageError {
    InvalidRequest,
    UnsafePath,
    UnsupportedFilesystem,
    AlreadyOwned,
    ForeignDatabase,
    FutureSchema,
    CorruptDatabase,
    RecoveryRequired,
    StaleRevision,
    StaleGeneration,
    UnknownProducer,
    SequenceGap,
    Conflict,
    ResourceExhausted,
    Backpressure,
    PersistenceUnavailable,
}

/// The primary result codes of SQLite that storage tells apart.
#[derive(Clone, Copy, Debug, PartialEq, Eq, Structural)]
pub enum SqliteCode {
    DatabaseBusy,
    DatabaseLocked,
    DiskFull,
    TooBig,
    DatabaseCorrupt,
    NotADatabase,
    Other,
}

/// The storage failure for an SQLite error with result code `code`.
pub open spec fn sqlite_failure(code: Option<SqliteCode>) -> StorageError {
    match code {
        Some(SqliteCode::DatabaseBusy) | Some(SqliteCode::DatabaseLocked) => StorageError::Backpressure,
        Some(SqliteCode::DiskFull) | Some(SqliteCode::TooBig) => StorageError::ResourceExhausted,
        Some(SqliteCode::DatabaseCorrupt) | Some(SqliteCode::NotADatabase) => StorageError::CorruptDatabase,
        _ => StorageError::PersistenceUnavailable,
    }
}

impl StorageError {
    /// Classifies an SQLite error by its result code: contention is
    /// backpressure, space is exhaustion, damage is corruption, and anything
    /// else means persistence is unavailable.
    pub fn from_sqlite(code: Option<SqliteCode>) -> (r: Self)
        ensures
            r == sqlite_failure(code),
    {
        match code {
            Some(SqliteCode::DatabaseBusy) | Some(SqliteCode::DatabaseLocked) => StorageError::Backpressure,
            Some(SqliteCode::DiskFull) | Some(SqliteCode::TooBig) => StorageError::ResourceExhausted,
            Some(SqliteCode::DatabaseCorrupt) | Some(SqliteCode::NotADatabase) => StorageError::CorruptDatabase,
            _ => StorageError::PersistenceUnavailable,
        }
    }
}

} // verus!
