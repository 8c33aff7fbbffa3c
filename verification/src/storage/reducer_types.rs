//! Fixed manager operations for deterministic reduction and explicit policy.
use super::types::{HistoryRetention, MaintenanceResult, OutcomeKey, ProducerRecord, Registration};
use crate::domain::{Effects, ReductionState, RunProjection, TurnKey};
use crate::protocol::EventEnvelope;
use vstd::prelude::*;

verus! {

/// What storage knows of an event's identity.
#[derive(Clone, Copy, Debug, PartialEq, Eq, Structural)]
pub enum EventReceipt {
    Missing,
    Exact { revision: u64 },
    Conflict,
    /// A checkpoint is not proof of the pruned event's identity or payload.
    PriorSequenceUnverifiable,
}

/// A revision-consistent read for reducing one event.
#[derive(Debug)]
pub struct ReducerContext {
    pub revision: u64,
    pub producer: Option<ProducerRecord>,
    pub state: ReductionState,
    pub receipt: EventReceipt,
}

/// Trusted internal effects; this type has no wire deserializer or adapter entry point.
#[derive(Debug)]
pub struct ReducerWrite {
    pub expected_revision: u64,
    pub fact: EventEnvelope,
    pub effects: Effects,
    pub accepted_at: i64,
    pub notify: bool,
}

/// A baseline for reconciling a new generation.
#[derive(Debug)]
pub enum ReconciliationBaseline {
    Unavailable,
    /// The manager must establish this baseline independently of producer claims.
    Verified { projection: RunProjection, current_turn: Option<String> },
}

/// Registration of a generation with its independently established baseline.
#[derive(Debug)]
pub struct Reconciliation {
    pub registration: Registration,
    pub baseline: ReconciliationBaseline,
    pub discarded_events: u64,
    /// Independently established progress for the stored old current turn.
    pub resolved_turn: Option<TurnKey>,
}

/// A human review of one outcome, at a known revision of it.
#[derive(Debug)]
pub struct OutcomeReview {
    pub expected_revision: u64,
    pub outcome: OutcomeKey,
    pub outcome_revision: u64,
}

/// The history policy at a revision.
#[derive(Clone, Copy, Debug, PartialEq, Eq, Structural)]
pub struct StoragePolicy {
    pub revision: u64,
    pub history: HistoryRetention,
}

/// Bounded counts of stored state.
#[derive(Clone, Copy, Debug, PartialEq, Eq, Structural)]
pub struct StorageStatus {
    pub revision: u64,
    pub facts: u32,
    pub tombstones: u32,
    pub attention: u32,
    pub pending_deliveries: u32,
    pub discarded_events: u64,
    pub cleanup: MaintenanceResult,
}

/// An immutable bounded cleanup plan bound to the engine instance that made it.
#[derive(Debug)]
pub struct CleanupPreview {
    pub owner: u64,
    pub revision: u64,
    pub now: i64,
    pub history: HistoryRetention,
    pub facts: Vec<i64>,
    pub tombstones: Vec<i64>,
    pub deliveries: Vec<i64>,
    pub result: MaintenanceResult,
}

pub ghost struct PreviewView {
    pub owner: u64,
    pub revision: u64,
    pub now: i64,
    pub history: HistoryRetention,
    pub facts: Seq<i64>,
    pub tombstones: Seq<i64>,
    pub deliveries: Seq<i64>,
    pub result: MaintenanceResult,
}

impl View for CleanupPreview {
    type V = PreviewView;

    open spec fn view(&self) -> PreviewView {
        PreviewView {
            owner: self.owner,
            revision: self.revision,
            now: self.now,
            history: self.history,
            facts: self.facts@,
            tombstones: self.tombstones@,
            deliveries: self.deliveries@,
            result: self.result,
        }
    }
}

fn same_rows(a: &Vec<i64>, b: &Vec<i64>) -> (r: bool)
    ensures
        r == (a@ == b@),
{
    if a.len() != b.len() {
        return false;
    }
    let mut i: usize = 0;
    while i < a.len()
        invariant
            i <= a@.len(),
            a@.len() == b@.len(),
            forall|k: int| 0 <= k < i ==> a@[k] == b@[k],
        decreases a.len() - i,
    {
        if a[i] != b[i] {
            return false;
        }
        i = i + 1;
    }
    assert(a@ =~= b@);
    true
}

impl CleanupPreview {
    /// The revision the plan was made at.
    pub fn revision(&self) -> (r: u64)
        ensures
            r == self.revision,
    {
        self.revision
    }

    /// The counts the plan would apply.
    pub fn result(&self) -> (r: MaintenanceResult)
        ensures
            r == self.result,
    {
        self.result
    }

    /// The same instance, revision, time, policy, rows and counts.
    pub fn same(&self, other: &CleanupPreview) -> (r: bool)
        ensures
            r == (self@ == other@),
    {
        self.owner == other.owner && self.revision == other.revision && self.now == other.now
            && self.history == other.history && same_rows(&self.facts, &other.facts) && same_rows(
            &self.tombstones,
            &other.tombstones,
        ) && same_rows(&self.deliveries, &other.deliveries) && self.result == other.result
    }
}

} // verus!
