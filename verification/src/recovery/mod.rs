//! Bounded private manager artifacts: spool names, inventories, quotas,
//! cleanup plans and log rotation. Spooling is never durable acknowledgment.
pub mod cleanup;
pub mod files;
pub mod logs;
pub mod names;
pub mod provenance;
pub mod spool;

use vstd::prelude::*;

verus! {

pub const MAX_PRODUCER_BYTES: u64 = 262144;
pub const MAX_SPOOL_BYTES: u64 = 8388608;
pub const MAX_SPOOL_FILES: usize = 1024;
pub const MAX_PRODUCER_FILES: usize = 64;
pub const MAX_RECORD_BYTES: usize = 16384;
pub const MAX_REPLAY_BATCH: usize = 32;
pub const MAX_CLEANUP_BATCH: usize = 128;
pub const MAX_HELD_HANDLES: usize = 128;
pub const MAX_LOG_BYTES: u64 = 1048576;
pub const LOG_FILES: usize = 4;

/// Fixed failures contain neither adapter input nor paths or OS error text.
#[derive(Clone, Copy, Debug, PartialEq, Eq, Structural)]
pub enum RecoveryError {
    UnsupportedAdapter,
    UnprovenSource,
    InvalidRecord,
    UnsafePath,
    AlreadyOwned,
    BoundExceeded,
    IdentityChanged,
    Io,
}

/// The fixed code text of each failure.
pub open spec fn recovery_code(e: RecoveryError) -> Seq<char> {
    match e {
        RecoveryError::UnsupportedAdapter => "unsupported_adapter"@,
        RecoveryError::UnprovenSource => "unproven_source"@,
        RecoveryError::InvalidRecord => "invalid_record"@,
        RecoveryError::UnsafePath => "unsafe_path"@,
        RecoveryError::AlreadyOwned => "already_owned"@,
        RecoveryError::BoundExceeded => "bound_exceeded"@,
        RecoveryError::IdentityChanged => "identity_changed"@,
        RecoveryError::Io => "io_unavailable"@,
    }
}

impl RecoveryError {
    /// The fixed code text of this failure.
    pub fn code(&self) -> (s: &'static str)
        ensures
            s@ == recovery_code(*self),
    {
        match self {
            RecoveryError::UnsupportedAdapter => "unsupported_adapter",
            RecoveryError::UnprovenSource => "unproven_source",
            RecoveryError::InvalidRecord => "invalid_record",
            RecoveryError::UnsafePath => "unsafe_path",
            RecoveryError::AlreadyOwned => "already_owned",
            RecoveryError::BoundExceeded => "bound_exceeded",
            RecoveryError::IdentityChanged => "identity_changed",
            RecoveryError::Io => "io_unavailable",
        }
    }
}

/// Immutable numeric observation; loss accounting is volatile, not a DB receipt.
#[derive(Clone, Copy, Debug, PartialEq, Eq, Structural)]
pub struct RecoveryStatus {
    pub spool_bytes: u64,
    pub spool_files: usize,
    pub protected_files: usize,
    pub log_bytes: u64,
    pub rejected_attempts: u64,
    pub discarded_artifacts: u64,
    pub unknown_gap: bool,
}

/// The in-memory accounting of an open artifact store.
#[derive(Clone, Copy, Debug, PartialEq, Eq, Structural)]
pub struct StoreCounters {
    pub rejected_attempts: u64,
    pub discarded_artifacts: u64,
    pub unknown_gap: bool,
    pub revision: u64,
}

impl StoreCounters {
    /// A freshly opened store: nothing counted yet, and loss not ruled out.
    pub fn opened() -> (r: Self)
        ensures
            r == (StoreCounters {
                rejected_attempts: 0,
                discarded_artifacts: 0,
                unknown_gap: true,
                revision: 0,
            }),
    {
        StoreCounters { rejected_attempts: 0, discarded_artifacts: 0, unknown_gap: true, revision: 0 }
    }

    /// Counts a rejected attempt and hands its error back.
    pub fn failure(&mut self, error: RecoveryError) -> (r: RecoveryError)
        ensures
            r == error,
            final(self).rejected_attempts == if old(self).rejected_attempts == u64::MAX {
                u64::MAX
            } else {
                (old(self).rejected_attempts + 1) as u64
            },
            final(self).unknown_gap,
            final(self).discarded_artifacts == old(self).discarded_artifacts,
            final(self).revision == old(self).revision,
    {
        self.rejected_attempts = self.rejected_attempts.saturating_add(1);
        self.unknown_gap = true;
        error
    }

    /// Advances the store revision before any mutation.
    pub fn changing(&mut self) -> (r: Result<(), RecoveryError>)
        ensures
            old(self).revision < u64::MAX ==> r is Ok && final(self).revision == old(self).revision
                + 1,
            old(self).revision == u64::MAX ==> r == Err::<(), RecoveryError>(
                RecoveryError::BoundExceeded,
            ) && final(self).revision == old(self).revision,
            final(self).rejected_attempts == old(self).rejected_attempts,
            final(self).discarded_artifacts == old(self).discarded_artifacts,
            final(self).unknown_gap == old(self).unknown_gap,
    {
        match self.revision.checked_add(1) {
            Some(next) => {
                self.revision = next;
                Ok(())
            },
            None => Err(RecoveryError::BoundExceeded),
        }
    }
}

} // verus!
