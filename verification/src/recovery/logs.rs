//! Four fixed bounded metadata logs. Records have no caller-supplied text.
use super::files::{Entry, EntryView, Identity};
use super::{RecoveryError, MAX_LOG_BYTES};
use vstd::prelude::*;

verus! {

/// Bound on one encoded log record, newline included.
pub const MAX_LOG_RECORD_BYTES: usize = 256;

/// Why a log record was written.
#[derive(Clone, Copy, Debug, PartialEq, Eq, Structural)]
pub enum LogReason {
    StorageUnavailable,
    UnsupportedAdapter,
    MissingHook,
    RecoveryDropped,
    CleanupCompleted,
    ReconciliationRequired,
}

/// Fixed codes and numeric manager data, never environment/paths/errors/payloads.
#[derive(Clone, Copy, Debug, PartialEq, Eq, Structural)]
pub struct LogRecord {
    pub observed_ms: u64,
    pub reason: LogReason,
    pub count: u64,
    pub unknown_gap: bool,
}

/// The name of log file `i` (0 is current, 3 is oldest).
pub open spec fn log_name(i: int) -> Seq<char> {
    if i == 0 {
        "metadata.0.log"@
    } else if i == 1 {
        "metadata.1.log"@
    } else if i == 2 {
        "metadata.2.log"@
    } else {
        "metadata.3.log"@
    }
}

/// One of the four fixed log names.
pub open spec fn is_log_name(s: Seq<char>) -> bool {
    s == log_name(0) || s == log_name(1) || s == log_name(2) || s == log_name(3)
}

/// The literal name of log file `i`.
pub fn log_name_str(i: usize) -> (s: &'static str)
    requires
        i < 4,
    ensures
        s@ == log_name(i as int),
{
    if i == 0 {
        "metadata.0.log"
    } else if i == 1 {
        "metadata.1.log"
    } else if i == 2 {
        "metadata.2.log"
    } else {
        "metadata.3.log"
    }
}

/// Whether `name` is one of the four fixed log names.
pub fn is_log(name: &str) -> (r: bool)
    ensures
        r == is_log_name(name@),
{
    crate::text::str_eq(name, "metadata.0.log") || crate::text::str_eq(name, "metadata.1.log")
        || crate::text::str_eq(name, "metadata.2.log") || crate::text::str_eq(
        name,
        "metadata.3.log",
    )
}

/// Position of the first entry named `name`.
pub fn find_named(entries: &Vec<Entry>, name: &str) -> (r: Option<usize>)
    ensures
        match r {
            Some(i) => i < entries@.len() && entries@[i as int]@.name == name@ && forall|j: int|
                0 <= j < i ==> #[trigger] entries@[j]@.name != name@,
            None => forall|j: int| 0 <= j < entries@.len() ==> #[trigger] entries@[j]@.name != name@,
        },
{
    let mut i: usize = 0;
    while i < entries.len()
        invariant
            i <= entries@.len(),
            forall|j: int| 0 <= j < i ==> #[trigger] entries@[j]@.name != name@,
        decreases entries.len() - i,
    {
        if crate::text::str_eq(entries[i].name.as_str(), name) {
            return Some(i);
        }
        i = i + 1;
    }
    None
}

/// Rotation is due when appending `record_len` bytes to the current log
/// would exceed the per-file bound.
pub open spec fn rotation_due(current: Option<u64>, record_len: nat) -> bool {
    match current {
        Some(bytes) => bytes + record_len > MAX_LOG_BYTES,
        None => false,
    }
}

/// Checks the encoded record bound, then whether the current log must rotate
/// first. `current_bytes` is the size of `metadata.0.log` when it exists.
pub fn plan_append(current_bytes: Option<u64>, record_len: usize) -> (r: Result<bool, RecoveryError>)
    ensures
        record_len > MAX_LOG_RECORD_BYTES ==> r == Err::<bool, RecoveryError>(
            RecoveryError::BoundExceeded,
        ),
        record_len <= MAX_LOG_RECORD_BYTES ==> r == Ok::<bool, RecoveryError>(
            rotation_due(current_bytes, record_len as nat),
        ),
{
    if record_len > MAX_LOG_RECORD_BYTES {
        return Err(RecoveryError::BoundExceeded);
    }
    match current_bytes {
        Some(bytes) => Ok(bytes as u128 + record_len as u128 > MAX_LOG_BYTES as u128),
        None => Ok(false),
    }
}

/// The renames a rotation performs, oldest first: log `i` moves to `i + 1`
/// for each present `i` in 2, 1, 0 after the oldest log (3) is removed.
pub struct RotationPlan {
    pub remove_oldest: bool,
    pub moves: Vec<usize>,
}

/// The rotation of the present logs: remove log 3 if present, then shift
/// each present log `i` (2, 1, 0 in that order) to `i + 1`.
pub fn plan_rotation(present: [bool; 4]) -> (r: RotationPlan)
    ensures
        r.remove_oldest == present[3],
        r.moves@ == seq![2usize, 1usize, 0usize].filter(|i: usize| present[i as int]),
{
    let mut moves: Vec<usize> = Vec::new();
    let ghost order = seq![2usize, 1usize, 0usize];
    let ghost keep = |i: usize| present[i as int];
    if present[2] {
        moves.push(2);
    }
    if present[1] {
        moves.push(1);
    }
    if present[0] {
        moves.push(0);
    }
    proof {
        reveal_with_fuel(Seq::filter, 4);
        assert(order.take(0).filter(keep) =~= Seq::<usize>::empty());
        assert(order.take(1).drop_last() =~= order.take(0));
        assert(order.take(2).drop_last() =~= order.take(1));
        assert(order.take(3).drop_last() =~= order.take(2));
        assert(order.take(3) =~= order);
        assert(moves@ =~= order.filter(keep));
    }
    RotationPlan { remove_oldest: present[3], moves }
}

/// After opening the current log for append: an existing log must keep its
/// scanned identity, and the record must still fit.
pub fn check_open_log(
    expected: Option<Identity>,
    opened: Identity,
    opened_size: i64,
    record_len: usize,
) -> (r: Result<(), RecoveryError>)
    ensures
        r == if expected matches Some(id) && id != opened {
            Err::<(), RecoveryError>(RecoveryError::IdentityChanged)
        } else if opened_size < 0 {
            Err(RecoveryError::UnsafePath)
        } else if opened_size + record_len > MAX_LOG_BYTES {
            Err(RecoveryError::BoundExceeded)
        } else {
            Ok(())
        },
{
    if let Some(id) = expected {
        if id != opened {
            return Err(RecoveryError::IdentityChanged);
        }
    }
    if opened_size < 0 {
        return Err(RecoveryError::UnsafePath);
    }
    if opened_size as u128 + record_len as u128 > MAX_LOG_BYTES as u128 {
        return Err(RecoveryError::BoundExceeded);
    }
    Ok(())
}

} // verus!
