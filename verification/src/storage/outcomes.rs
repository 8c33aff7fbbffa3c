//! Delivery, review and maintenance decisions over stored outcome rows.
use super::codes::delivery_code;
use super::types::{DeliveryUpdate, HistoryRetention, MaintenanceResult, retention_days, DAY};
use super::StorageError;
use crate::domain::DeliveryState;
use vstd::prelude::*;

verus! {

/// Rows one maintenance pass removes or expires of each kind, at most.
pub const MAINTENANCE_BATCH: usize = 100;

/// Whether a stored delivery in state `state` (by code) last changed at
/// `changed` may move to `next` at `at`: only from pending or an uncertain
/// attempt, never back to pending, and never to an earlier time.
pub open spec fn delivery_allowed(state: u8, changed: i64, next: DeliveryState, at: i64) -> bool {
    at >= changed && state < 2 && next != DeliveryState::Pending
}

/// The stored delivery row after an update: `None` when the update is
/// refused as a conflict (no row, or a transition `delivery_allowed` does
/// not allow), else the new state code and change time.
pub open spec fn delivery_after(current: Option<(u8, i64)>, next: DeliveryState, at: i64) -> Option<(u8, i64)> {
    match current {
        Some((state, changed)) => if delivery_allowed(state, changed, next, at) {
            Some((delivery_code(next), at))
        } else {
            None
        },
        None => None,
    }
}

/// Checks a delivery update against the stored row (its state code and
/// change time); the row to store.
pub fn set_delivery(current: Option<(u8, i64)>, update: &DeliveryUpdate) -> (r: Result<(u8, i64), StorageError>)
    ensures
        match r {
            Ok(row) => delivery_after(current, update.state, update.at) == Some(row),
            Err(e) => e == StorageError::Conflict && delivery_after(current, update.state, update.at)
                is None,
        },
{
    let (state, changed) = match current {
        Some(row) => row,
        None => return Err(StorageError::Conflict),
    };
    let to_pending = match update.state {
        DeliveryState::Pending => true,
        _ => false,
    };
    if update.at < changed || state >= 2 || to_pending {
        return Err(StorageError::Conflict);
    }
    Ok((super::codes::encode_delivery(update.state), update.at))
}

/// Law: along any sequence of accepted delivery updates, a delivery never
/// returns to pending, a final state (acknowledged, expired or overflowed)
/// is never left, and the change time never decreases.
pub proof fn lemma_delivery_monotone(rows: Seq<(u8, i64)>, steps: Seq<(DeliveryState, i64)>, i: int, j: int)
    requires
        rows.len() == steps.len() + 1,
        forall|k: int|
            0 <= k < steps.len() ==> delivery_after(Some(#[trigger] rows[k]), steps[k].0, steps[k].1)
                == Some(rows[k + 1]),
        0 <= i <= j < rows.len(),
    ensures
        rows[i].0 >= 2 ==> i == j,
        j > i ==> rows[j].0 != 0,
        rows[i].1 <= rows[j].1,
    decreases j - i,
{
    if i < j {
        lemma_delivery_monotone(rows, steps, i, j - 1);
        let k = j - 1;
        assert(delivery_after(Some(rows[k]), steps[k].0, steps[k].1) == Some(rows[k + 1]));
        if rows[i].0 >= 2 {
            assert(i == k);
        }
    }
}

/// `u32` counts of rows; a count beyond it exhausts resources.
pub fn bounded_count(count: usize) -> (r: Result<u32, StorageError>)
    ensures
        match r {
            Ok(c) => c == count,
            Err(e) => e == StorageError::ResourceExhausted && count > u32::MAX,
        },
{
    if count > u32::MAX as usize {
        return Err(StorageError::ResourceExhausted);
    }
    Ok(count as u32)
}

/// The counts of one maintenance pass; more remain when any batch was full.
pub open spec fn maintenance_counts(facts: nat, tombstones: nat, generations: nat, deliveries: nat) -> Option<MaintenanceResult> {
    if facts <= u32::MAX && tombstones <= u32::MAX && generations <= u32::MAX && deliveries
        <= u32::MAX {
        Some(
            MaintenanceResult {
                facts_removed: facts as u32,
                tombstones_removed: tombstones as u32,
                generations_retired: generations as u32,
                deliveries_expired: deliveries as u32,
                more: facts == MAINTENANCE_BATCH || tombstones == MAINTENANCE_BATCH || deliveries
                    == MAINTENANCE_BATCH,
            },
        )
    } else {
        None
    }
}

/// Builds `maintenance_counts`; a count beyond `u32` exhausts resources.
pub fn maintenance_result(facts: usize, tombstones: usize, generations: usize, deliveries: usize) -> (r: Result<MaintenanceResult, StorageError>)
    ensures
        match r {
            Ok(m) => maintenance_counts(facts as nat, tombstones as nat, generations as nat, deliveries as nat) == Some(m),
            Err(e) => e == StorageError::ResourceExhausted && maintenance_counts(facts as nat, tombstones as nat, generations as nat, deliveries as nat) is None,
        },
{
    let f = bounded_count(facts)?;
    let t = bounded_count(tombstones)?;
    let g = bounded_count(generations)?;
    let d = bounded_count(deliveries)?;
    Ok(
        MaintenanceResult {
            facts_removed: f,
            tombstones_removed: t,
            generations_retired: g,
            deliveries_expired: d,
            more: facts == MAINTENANCE_BATCH || tombstones == MAINTENANCE_BATCH || deliveries
                == MAINTENANCE_BATCH,
        },
    )
}

/// `now.saturating_sub(days * DAY)`: the oldest time still kept.
pub open spec fn cutoff_time(now: i64, days: i64) -> i64 {
    if now - days * DAY < i64::MIN {
        i64::MIN
    } else {
        (now - days * DAY) as i64
    }
}

fn cutoff(now: i64, days: i64) -> (r: i64)
    requires
        0 <= days <= 365,
    ensures
        r == cutoff_time(now, days),
{
    let v: i128 = now as i128 - (days * DAY) as i128;
    if v < i64::MIN as i128 {
        i64::MIN
    } else {
        v as i64
    }
}

/// Tombstones are kept for thirty days.
pub fn tombstone_cutoff(now: i64) -> (r: i64)
    ensures
        r == cutoff_time(now, 30),
{
    cutoff(now, 30)
}

/// Undelivered notifications expire after seven days.
pub fn delivery_cutoff(now: i64) -> (r: i64)
    ensures
        r == cutoff_time(now, 7),
{
    cutoff(now, 7)
}

/// The cutoff of the fact history under `history`.
pub fn history_cutoff(now: i64, history: HistoryRetention) -> (r: i64)
    ensures
        r == cutoff_time(now, retention_days(history)),
{
    cutoff(now, history.days())
}

/// The number of distinct producers among the generations a cleanup retires.
pub fn distinct_count(producers: &Vec<String>) -> (r: usize)
    ensures
        r == producers@.map_values(|s: String| s@).to_set().len(),
{
    let ghost all = producers@.map_values(|s: String| s@);
    let mut seen: Vec<String> = Vec::new();
    let mut i: usize = 0;
    while i < producers.len()
        invariant
            i <= producers@.len(),
            all == producers@.map_values(|s: String| s@),
            seen@.map_values(|s: String| s@).no_duplicates(),
            seen@.map_values(|s: String| s@).to_set() == all.take(i as int).to_set(),
            seen@.len() <= i,
        decreases producers@.len() - i,
    {
        let ghost sv = seen@.map_values(|s: String| s@);
        let mut k: usize = 0;
        let mut present = false;
        while k < seen.len()
            invariant
                k <= seen@.len(),
                i < producers@.len(),
                sv == seen@.map_values(|s: String| s@),
                present ==> sv.contains(producers@[i as int]@),
                !present ==> forall|t: int| 0 <= t < k ==> sv[t] != producers@[i as int]@,
            decreases seen@.len() - k,
        {
            if seen[k] == producers[i] {
                present = true;
                assert(sv[k as int] == producers@[i as int]@);
            }
            k = k + 1;
        }
        proof {
            broadcast use vstd::seq_lib::group_seq_properties;
            assert(all.take(i + 1) =~= all.take(i as int).push(all[i as int]));
            assert(all[i as int] == producers@[i as int]@);
        }
        if !present {
            seen.push(producers[i].clone());
            proof {
                broadcast use vstd::seq_lib::group_seq_properties;
                let x = producers@[i as int]@;
                assert(seen@.map_values(|s: String| s@) =~= sv.push(x));
                assert(!sv.contains(x));
                assert(sv.push(x).to_set() =~= sv.to_set().insert(x));
                assert(all.take(i + 1).to_set() =~= all.take(i as int).to_set().insert(x));
            }
        } else {
            proof {
                broadcast use vstd::seq_lib::group_seq_properties;
                assert(all.take(i as int).to_set().contains(producers@[i as int]@));
                assert(all.take(i + 1).to_set() =~= all.take(i as int).to_set());
            }
        }
        i = i + 1;
    }
    proof {
        assert(all.take(i as int) =~= all);
        seen@.map_values(|s: String| s@).unique_seq_to_set();
    }
    seen.len()
}

/// The single outcome revision recorded across an outcome's rows; two
/// different ones mean the database is corrupt.
pub fn outcome_revision(revisions: &Vec<u64>) -> (r: Result<Option<u64>, StorageError>)
    ensures
        match r {
            Ok(v) => revisions@.len() <= 1 && v == (if revisions@.len() == 1 {
                Some(revisions@[0])
            } else {
                None
            }),
            Err(e) => e == StorageError::CorruptDatabase && revisions@.len() > 1,
        },
{
    if revisions.len() > 1 {
        return Err(StorageError::CorruptDatabase);
    }
    if revisions.len() == 1 {
        Ok(Some(revisions[0]))
    } else {
        Ok(None)
    }
}

/// A human review of an outcome is accepted only at the outcome's recorded
/// revision and only when it has attention rows.
pub fn review(found: Option<(Option<u64>, usize)>, outcome_revision: u64) -> (r: Result<(), StorageError>)
    ensures
        r == match found {
            Some((recorded, attention)) => if recorded == Some(outcome_revision) && attention > 0 {
                Ok::<(), StorageError>(())
            } else {
                Err(StorageError::Conflict)
            },
            None => Err(StorageError::Conflict),
        },
{
    match found {
        Some((recorded, attention)) => {
            let same = match recorded {
                Some(v) => v == outcome_revision,
                None => false,
            };
            if !same || attention == 0 {
                return Err(StorageError::Conflict);
            }
            Ok(())
        },
        None => Err(StorageError::Conflict),
    }
}

} // verus!
