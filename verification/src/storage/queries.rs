//! Decoding of stored rows read by queries: snapshot pages, producer
//! harnesses and outcome attention.
use super::codes::reason_code_of;
use super::types::AttentionMutation;
use super::StorageError;
use crate::domain::{AttentionReason, RunProjection};
use crate::protocol::HarnessKind;
use vstd::prelude::*;

verus! {

/// A revision-consistent page of run projections.
#[derive(Debug)]
pub struct SnapshotPage {
    pub revision: u64,
    pub runs: Vec<RunProjection>,
    pub next_after: Option<String>,
}

/// Cuts a snapshot page from `runs`, read in run order with one row beyond
/// `limit` when more exist. A snapshot expected at another revision is
/// stale. With more rows than the limit, the extra row is dropped and the
/// page continues after the last run kept.
pub fn snapshot(revision: u64, expected: Option<u64>, runs: Vec<RunProjection>, limit: u16) -> (r: Result<SnapshotPage, StorageError>)
    ensures
        match r {
            Ok(p) => {
                &&& !(expected matches Some(e) && e != revision)
                &&& p.revision == revision
                &&& if runs@.len() > limit {
                    &&& p.runs@ == runs@.drop_last()
                    &&& crate::protocol::opt_view(p.next_after) == if runs@.len() > 1 {
                        Some(runs@[runs@.len() - 2].run_id@)
                    } else {
                        None::<Seq<char>>
                    }
                } else {
                    p.runs@ == runs@ && p.next_after is None
                }
            },
            Err(e) => e == StorageError::StaleRevision && (expected matches Some(x) && x != revision),
        },
{
    if let Some(e) = expected {
        if e != revision {
            return Err(StorageError::StaleRevision);
        }
    }
    let mut runs = runs;
    let next_after = if runs.len() > limit as usize {
        runs.pop();
        if runs.len() > 0 {
            Some(runs[runs.len() - 1].run_id.clone())
        } else {
            None
        }
    } else {
        None
    };
    Ok(SnapshotPage { revision, runs, next_after })
}

/// The harness a stored code denotes.
pub open spec fn harness_code_of(code: u8) -> Option<HarnessKind> {
    match code {
        0 => Some(HarnessKind::Hermes),
        1 => Some(HarnessKind::Claude),
        2 => Some(HarnessKind::Codex),
        _ => None,
    }
}

/// Decodes `harness_code_of`.
pub fn harness(code: u8) -> (r: Option<HarnessKind>)
    ensures
        r == harness_code_of(code),
{
    match code {
        0 => Some(HarnessKind::Hermes),
        1 => Some(HarnessKind::Claude),
        2 => Some(HarnessKind::Codex),
        _ => None,
    }
}

/// Most attention rows one outcome has (one per reason).
pub const MAX_OUTCOME_ATTENTION: usize = 8;

/// The reasons of the resolved rows, in row order.
pub open spec fn resolved_reasons(rows: Seq<(u8, bool, bool)>) -> Seq<AttentionReason>
    decreases rows.len(),
{
    if rows.len() == 0 {
        Seq::empty()
    } else {
        let rest = resolved_reasons(rows.drop_last());
        if rows.last().2 {
            rest.push(reason_code_of(rows.last().0).unwrap())
        } else {
            rest
        }
    }
}

/// Whether every one of the first `n` rows has a known reason code.
pub open spec fn reasons_decode(rows: Seq<(u8, bool, bool)>, n: int) -> bool {
    forall|k: int| 0 <= k < n ==> #[trigger] reason_code_of(rows[k].0) is Some
}

/// The attention of an outcome from its rows (reason code, reviewed,
/// resolved), read in reason order with one row beyond the bound: a row of
/// unknown reason among the first eight fails the query; a ninth row means
/// the database is corrupt. The attention rows and the resolved reasons.
pub fn outcome_attention(event_id: &String, rows: &Vec<(u8, bool, bool)>) -> (r: Result<(Vec<AttentionMutation>, Vec<AttentionReason>), StorageError>)
    ensures
        match r {
            Ok((attention, resolved)) => {
                &&& rows@.len() <= MAX_OUTCOME_ATTENTION
                &&& reasons_decode(rows@, rows@.len() as int)
                &&& attention@.len() == rows@.len()
                &&& forall|k: int|
                    0 <= k < rows@.len() ==> (#[trigger] attention@[k]).outcome_id@ == event_id@
                        && Some(attention@[k].reason) == reason_code_of(rows@[k].0)
                        && attention@[k].reviewed == rows@[k].1
                &&& resolved@ == resolved_reasons(rows@)
            },
            Err(e) => if reasons_decode(
                rows@,
                if rows@.len() < MAX_OUTCOME_ATTENTION {
                    rows@.len() as int
                } else {
                    MAX_OUTCOME_ATTENTION as int
                },
            ) {
                e == StorageError::CorruptDatabase && rows@.len() > MAX_OUTCOME_ATTENTION
            } else {
                e == StorageError::PersistenceUnavailable
            },
        },
{
    let mut attention: Vec<AttentionMutation> = Vec::new();
    let mut resolved: Vec<AttentionReason> = Vec::new();
    let mut i: usize = 0;
    while i < rows.len()
        invariant
            i <= rows@.len(),
            i <= MAX_OUTCOME_ATTENTION,
            attention@.len() == i,
            reasons_decode(rows@, i as int),
            forall|k: int|
                0 <= k < i ==> (#[trigger] attention@[k]).outcome_id@ == event_id@ && Some(
                    attention@[k].reason,
                ) == reason_code_of(rows@[k].0) && attention@[k].reviewed == rows@[k].1,
            resolved@ == resolved_reasons(rows@.take(i as int)),
        decreases rows@.len() - i,
    {
        if attention.len() == MAX_OUTCOME_ATTENTION {
            return Err(StorageError::CorruptDatabase);
        }
        let (code, reviewed, is_resolved) = rows[i];
        let reason = match super::codes::reason(code) {
            Some(r) => r,
            None => return Err(StorageError::PersistenceUnavailable),
        };
        proof {
            assert(rows@.take(i + 1).drop_last() =~= rows@.take(i as int));
            assert(rows@.take(i + 1).last() == rows@[i as int]);
        }
        if is_resolved {
            resolved.push(reason);
        }
        attention.push(AttentionMutation { outcome_id: event_id.clone(), reason, reviewed });
        i = i + 1;
    }
    assert(rows@.take(i as int) =~= rows@);
    Ok((attention, resolved))
}

} // verus!
