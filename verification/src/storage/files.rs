//! The fixed manager files of the state directory and the identities
//! storage recorded for the ones it owns.
use super::StorageError;
use vstd::prelude::*;

verus! {

/// A file storage may own in its directory.
#[derive(Clone, Copy, Debug, PartialEq, Eq, Structural)]
pub enum ManagedFile {
    Database,
    Backup,
    Staging,
    Rollback,
    Lock,
}

/// The name of a managed file.
pub open spec fn file_name(f: ManagedFile) -> Seq<char> {
    match f {
        ManagedFile::Database => "state.db"@,
        ManagedFile::Backup => "state.backup.db"@,
        ManagedFile::Staging => "state.staging.db"@,
        ManagedFile::Rollback => "state.rollback.db"@,
        ManagedFile::Lock => "state.lock"@,
    }
}

impl ManagedFile {
    /// Its name in the state directory.
    pub fn name(&self) -> (r: &'static str)
        ensures
            r@ == file_name(*self),
    {
        match self {
            ManagedFile::Database => "state.db",
            ManagedFile::Backup => "state.backup.db",
            ManagedFile::Staging => "state.staging.db",
            ManagedFile::Rollback => "state.rollback.db",
            ManagedFile::Lock => "state.lock",
        }
    }
}

/// Every name storage recognizes in its directory, each of which must be
/// a private file when present.
pub open spec fn known_names() -> Seq<Seq<char>> {
    seq![
        "state.db"@,
        "state.db-wal"@,
        "state.db-shm"@,
        "state.db-journal"@,
        "state.backup.db"@,
        "state.staging.db"@,
        "state.rollback.db"@,
        "state.staging.db-journal"@,
        "state.lock"@,
    ]
}

/// The recognized names, in order.
pub fn known() -> (r: Vec<&'static str>)
    ensures
        r@.map_values(|s: &str| s@) == known_names(),
{
    let v = vec![
        "state.db",
        "state.db-wal",
        "state.db-shm",
        "state.db-journal",
        "state.backup.db",
        "state.staging.db",
        "state.rollback.db",
        "state.staging.db-journal",
        "state.lock",
    ];
    assert(v@.map_values(|s: &str| s@) =~= known_names());
    v
}

/// The (device, inode) identity recorded for each owned file.
#[derive(Debug)]
pub struct Owned {
    database: Option<(u64, u64)>,
    backup: Option<(u64, u64)>,
    staging: Option<(u64, u64)>,
    rollback: Option<(u64, u64)>,
    lock: Option<(u64, u64)>,
}

impl Owned {
    /// The identity recorded for `f`.
    pub closed spec fn get(self, f: ManagedFile) -> Option<(u64, u64)> {
        match f {
            ManagedFile::Database => self.database,
            ManagedFile::Backup => self.backup,
            ManagedFile::Staging => self.staging,
            ManagedFile::Rollback => self.rollback,
            ManagedFile::Lock => self.lock,
        }
    }

    /// No file is owned yet.
    pub fn new() -> (r: Self)
        ensures
            forall|f: ManagedFile| r.get(f) is None,
    {
        Owned { database: None, backup: None, staging: None, rollback: None, lock: None }
    }

    /// The identity recorded for `f`, if any.
    pub fn identity(&self, f: ManagedFile) -> (r: Option<(u64, u64)>)
        ensures
            r == self.get(f),
    {
        match f {
            ManagedFile::Database => self.database,
            ManagedFile::Backup => self.backup,
            ManagedFile::Staging => self.staging,
            ManagedFile::Rollback => self.rollback,
            ManagedFile::Lock => self.lock,
        }
    }

    /// Records (or replaces) the identity of `f`.
    pub fn record(&mut self, f: ManagedFile, identity: (u64, u64))
        ensures
            final(self).get(f) == Some(identity),
            forall|g: ManagedFile| g != f ==> final(self).get(g) == old(self).get(g),
    {
        match f {
            ManagedFile::Database => self.database = Some(identity),
            ManagedFile::Backup => self.backup = Some(identity),
            ManagedFile::Staging => self.staging = Some(identity),
            ManagedFile::Rollback => self.rollback = Some(identity),
            ManagedFile::Lock => self.lock = Some(identity),
        }
    }

    /// Forgets `f`.
    pub fn forget(&mut self, f: ManagedFile)
        ensures
            final(self).get(f) is None,
            forall|g: ManagedFile| g != f ==> final(self).get(g) == old(self).get(g),
    {
        match f {
            ManagedFile::Database => self.database = None,
            ManagedFile::Backup => self.backup = None,
            ManagedFile::Staging => self.staging = None,
            ManagedFile::Rollback => self.rollback = None,
            ManagedFile::Lock => self.lock = None,
        }
    }

    /// Whether a rename of `from` over `to` may proceed: only an owned file
    /// is renamed, and never over a present file storage does not own. The
    /// identity that moves.
    pub fn rename_plan(&self, from: ManagedFile, to: ManagedFile, to_exists: bool) -> (r: Result<(u64, u64), StorageError>)
        ensures
            match r {
                Ok(id) => self.get(from) == Some(id) && !(to_exists && self.get(to) is None),
                Err(e) => e == StorageError::UnsafePath && (self.get(from) is None || (to_exists
                    && self.get(to) is None)),
            },
    {
        let identity = match self.identity(from) {
            Some(id) => id,
            None => return Err(StorageError::UnsafePath),
        };
        if to_exists && self.identity(to).is_none() {
            return Err(StorageError::UnsafePath);
        }
        Ok(identity)
    }

    /// Records a completed rename of `from` to `to`.
    pub fn renamed(&mut self, from: ManagedFile, to: ManagedFile, identity: (u64, u64))
        ensures
            final(self).get(to) == Some(identity),
            from != to ==> final(self).get(from) is None,
            forall|g: ManagedFile| g != from && g != to ==> final(self).get(g) == old(self).get(g),
    {
        self.forget(from);
        self.record(to, identity);
    }

    /// Whether `f` may be removed: only an owned file is.
    pub fn remove_plan(&self, f: ManagedFile) -> (r: Result<(), StorageError>)
        ensures
            r == if self.get(f) is Some {
                Ok::<(), StorageError>(())
            } else {
                Err(StorageError::UnsafePath)
            },
    {
        if self.identity(f).is_none() {
            return Err(StorageError::UnsafePath);
        }
        Ok(())
    }
}

/// The revision a restored database continues at: past both the live
/// revision and the backup's, so no revision is ever reused.
pub open spec fn restored_revision(live: u64, backup: u64) -> Result<u64, StorageError> {
    let top = if live >= backup {
        live
    } else {
        backup
    };
    if top == u64::MAX {
        Err(StorageError::ResourceExhausted)
    } else {
        Ok((top + 1) as u64)
    }
}

/// Computes `restored_revision`.
pub fn restore_revision(live: u64, backup: u64) -> (r: Result<u64, StorageError>)
    ensures
        r == restored_revision(live, backup),
{
    let top = if live >= backup {
        live
    } else {
        backup
    };
    match top.checked_add(1) {
        Some(v) => Ok(v),
        None => Err(StorageError::ResourceExhausted),
    }
}

/// Law: a restore continues strictly after both the live and the backup
/// revision.
pub proof fn lemma_restore_moves_forward(live: u64, backup: u64)
    ensures
        restored_revision(live, backup) matches Ok(next) ==> next > live && next > backup,
{
}

/// A restore may be staged only from a present backup of the current
/// schema version, with no staging or rollback file left behind.
pub fn may_stage_restore(backup_exists: bool, staging_exists: bool, rollback_exists: bool) -> (r: Result<(), StorageError>)
    ensures
        r == if backup_exists && !staging_exists && !rollback_exists {
            Ok::<(), StorageError>(())
        } else {
            Err(StorageError::RecoveryRequired)
        },
{
    if !backup_exists || staging_exists || rollback_exists {
        return Err(StorageError::RecoveryRequired);
    }
    Ok(())
}

/// Explicit recovery applies only to a database that is corrupt with no
/// pending WAL: pending WAL needs supported recovery; any other failure to
/// open is reported as it is; a database that opens needs no recovery.
pub fn recovery_applies(wal_length: u64, opened: Result<(), StorageError>) -> (r: Result<(), StorageError>)
    ensures
        r == if wal_length != 0 {
            Err(StorageError::RecoveryRequired)
        } else {
            match opened {
                Err(StorageError::CorruptDatabase) => Ok::<(), StorageError>(()),
                Err(e) => Err(e),
                Ok(()) => Err(StorageError::InvalidRequest),
            }
        },
{
    if wal_length != 0 {
        return Err(StorageError::RecoveryRequired);
    }
    match opened {
        Err(StorageError::CorruptDatabase) => Ok(()),
        Err(e) => Err(e),
        Ok(()) => Err(StorageError::InvalidRequest),
    }
}

/// After a restored database fails to load, the previous database is moved
/// back only when no WAL or shared memory of the failed one remains.
pub fn may_roll_back(wal_length: u64, shm_exists: bool) -> (r: bool)
    ensures
        r == (wal_length == 0 && !shm_exists),
{
    wal_length == 0 && !shm_exists
}

/// One step of a live backup copy.
#[derive(Clone, Copy, Debug, PartialEq, Eq, Structural)]
pub enum BackupStep {
    Done,
    More,
    Busy,
    Locked,
    Failed,
}

/// After each step of a backup copy: past the deadline, or with the
/// source busy or locked, the copy yields to writers; a failed step means
/// persistence is unavailable. Whether the copy is complete.
pub fn backup_progress(past_deadline: bool, step: BackupStep) -> (r: Result<bool, StorageError>)
    ensures
        r == if past_deadline {
            Err::<bool, StorageError>(StorageError::Backpressure)
        } else {
            match step {
                BackupStep::Done => Ok(true),
                BackupStep::More => Ok(false),
                BackupStep::Busy | BackupStep::Locked => Err(StorageError::Backpressure),
                BackupStep::Failed => Err(StorageError::PersistenceUnavailable),
            }
        },
{
    if past_deadline {
        return Err(StorageError::Backpressure);
    }
    match step {
        BackupStep::Done => Ok(true),
        BackupStep::More => Ok(false),
        BackupStep::Busy | BackupStep::Locked => Err(StorageError::Backpressure),
        BackupStep::Failed => Err(StorageError::PersistenceUnavailable),
    }
}

} // verus!
