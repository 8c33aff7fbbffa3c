//! Stored records and requests of the storage worker.
use super::StorageError;
use crate::domain::{AttentionReason, DeliveryState};
use crate::protocol::HarnessKind;
use vstd::prelude::*;

verus! {

/// One second of wall-clock time, in the stored timestamp unit.
pub const DAY: i64 = 86400;

/// How long accepted facts are kept.
#[derive(Clone, Copy, Debug, PartialEq, Eq, Structural)]
pub enum HistoryRetention {
    Week,
    Month,
}

pub open spec fn retention_days(h: HistoryRetention) -> i64 {
    match h {
        HistoryRetention::Week => 7,
        HistoryRetention::Month => 30,
    }
}

impl HistoryRetention {
    /// Days of history kept.
    pub fn days(&self) -> (r: i64)
        ensures
            r == retention_days(*self),
    {
        match self {
            HistoryRetention::Week => 7,
            HistoryRetention::Month => 30,
        }
    }

    /// The retention a stored day count denotes; only 7 and 30 are stored.
    pub fn from_days(days: u16) -> (r: Result<Self, StorageError>)
        ensures
            match r {
                Ok(h) => retention_days(h) == days,
                Err(e) => e == StorageError::CorruptDatabase && days != 7 && days != 30,
            },
    {
        if days == 7 {
            Ok(HistoryRetention::Week)
        } else if days == 30 {
            Ok(HistoryRetention::Month)
        } else {
            Err(StorageError::CorruptDatabase)
        }
    }
}

/// The registration of a producer generation.
#[derive(Debug)]
pub struct ProducerRecord {
    pub producer_id: String,
    pub harness: HarnessKind,
    pub generation: String,
    pub run_id: String,
    pub next_sequence: Option<u64>,
    pub active: bool,
    pub reconciled: bool,
}

pub ghost struct ProducerView {
    pub producer_id: Seq<char>,
    pub harness: HarnessKind,
    pub generation: Seq<char>,
    pub run_id: Seq<char>,
    pub next_sequence: Option<u64>,
    pub active: bool,
    pub reconciled: bool,
}

impl View for ProducerRecord {
    type V = ProducerView;

    open spec fn view(&self) -> ProducerView {
        ProducerView {
            producer_id: self.producer_id@,
            harness: self.harness,
            generation: self.generation@,
            run_id: self.run_id@,
            next_sequence: self.next_sequence,
            active: self.active,
            reconciled: self.reconciled,
        }
    }
}

/// A producer's request to register a new generation for a run.
#[derive(Debug)]
pub struct Registration {
    pub producer_id: String,
    pub harness: HarnessKind,
    pub generation: String,
    pub previous_generation: Option<String>,
    pub run_id: String,
}

/// Counts of one bounded maintenance pass.
#[derive(Clone, Copy, Debug, PartialEq, Eq, Structural)]
pub struct MaintenanceResult {
    pub facts_removed: u32,
    pub tombstones_removed: u32,
    pub generations_retired: u32,
    pub deliveries_expired: u32,
    pub more: bool,
}

/// The identity of an outcome: the event that produced it.
#[derive(Debug)]
pub struct OutcomeKey {
    pub producer_id: String,
    pub generation: String,
    pub event_id: String,
}

/// A delivery transition requested at revision `expected_revision`.
#[derive(Debug)]
pub struct DeliveryUpdate {
    pub expected_revision: u64,
    pub outcome: OutcomeKey,
    pub state: DeliveryState,
    pub at: i64,
}

/// One attention row of an outcome.
#[derive(Debug)]
pub struct AttentionMutation {
    pub outcome_id: String,
    pub reason: AttentionReason,
    pub reviewed: bool,
}

} // verus!
