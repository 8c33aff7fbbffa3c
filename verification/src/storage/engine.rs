//! Request handling of the storage engine: which requests only read, and
//! when a write is followed by a checkpoint.
use super::schema::WAL_TRIGGER;
use super::StorageError;
use vstd::prelude::*;

verus! {

/// The kind of a storage request.
#[derive(Clone, Copy, Debug, PartialEq, Eq, Structural)]
pub enum RequestKind {
    Context,
    Apply,
    Reconcile,
    ReviewOutcome,
    Policy,
    Status,
    UpdatePolicy,
    CleanupPreview,
    ApplyCleanup,
    Register,
    Commit,
    Snapshot,
    Producer,
    Outcome,
    MarkReviewed,
    Maintain,
    SetDelivery,
    Backup,
    RestoreBackup,
}

/// Requests that never write: reads of state, policy, status and plans.
pub open spec fn is_read_only(k: RequestKind) -> bool {
    match k {
        RequestKind::Snapshot | RequestKind::Producer | RequestKind::Outcome | RequestKind::Context
        | RequestKind::Policy | RequestKind::Status | RequestKind::CleanupPreview => true,
        _ => false,
    }
}

impl RequestKind {
    /// Whether the request only reads.
    pub fn read_only(&self) -> (r: bool)
        ensures
            r == is_read_only(*self),
    {
        match self {
            RequestKind::Snapshot | RequestKind::Producer | RequestKind::Outcome
            | RequestKind::Context | RequestKind::Policy | RequestKind::Status
            | RequestKind::CleanupPreview => true,
            _ => false,
        }
    }
}

/// A cleanup plan applies only on the engine instance that made it.
pub fn same_owner(engine: u64, plan: u64) -> (r: Result<(), StorageError>)
    ensures
        r == if engine == plan {
            Ok::<(), StorageError>(())
        } else {
            Err(StorageError::Conflict)
        },
{
    if engine != plan {
        return Err(StorageError::Conflict);
    }
    Ok(())
}

/// A successful write checkpoints afterwards once the WAL (when its length
/// could be read) reached the trigger; a read, a failure or an unreadable
/// length never does, so a commit is never reported as failed because a
/// later checkpoint is busy.
pub fn checkpoint_after(succeeded: bool, read_only: bool, wal_length: Option<u64>) -> (r: bool)
    ensures
        r == (succeeded && !read_only && (wal_length matches Some(l) && l >= WAL_TRIGGER)),
{
    let reached = match wal_length {
        Some(l) => l >= WAL_TRIGGER as u64,
        None => false,
    };
    succeeded && !read_only && reached
}

/// The revision at which producer generations are invalidated on open or
/// restore: a forced revision when given; otherwise, when some generation
/// is active, the next revision; else none (nothing to invalidate).
pub fn invalidation_revision(active: bool, forced: Option<u64>, current: u64) -> (r: Result<Option<u64>, StorageError>)
    ensures
        r == match forced {
            Some(next) => Ok::<Option<u64>, StorageError>(Some(next)),
            None => if !active {
                Ok(None)
            } else if current == u64::MAX {
                Err(StorageError::ResourceExhausted)
            } else {
                Ok(Some((current + 1) as u64))
            },
        },
{
    match forced {
        Some(next) => Ok(Some(next)),
        None => {
            if !active {
                return Ok(None);
            }
            match current.checked_add(1) {
                Some(next) => Ok(Some(next)),
                None => Err(StorageError::ResourceExhausted),
            }
        },
    }
}

} // verus!
