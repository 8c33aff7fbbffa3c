//! Revision, sequence and identity rules of accepted facts.
use super::reducer_types::EventReceipt;
use super::types::{ProducerRecord, ProducerView};
use super::StorageError;
use crate::protocol::{EventEnvelope, EventView};
use vstd::prelude::*;

verus! {

/// The revision after a write expected at `expected`: refused as stale
/// unless the store is at `expected`, and exhausted when no next exists.
pub open spec fn next_revision(current: u64, expected: u64) -> Result<u64, StorageError> {
    if current != expected {
        Err(StorageError::StaleRevision)
    } else if expected == u64::MAX {
        Err(StorageError::ResourceExhausted)
    } else {
        Ok((expected + 1) as u64)
    }
}

/// Checks a write's expected revision against the store's `current` one;
/// the revision the write commits at.
pub fn require_revision(current: u64, expected: u64) -> (r: Result<u64, StorageError>)
    ensures
        r == next_revision(current, expected),
{
    if current != expected {
        return Err(StorageError::StaleRevision);
    }
    match expected.checked_add(1) {
        Some(next) => Ok(next),
        None => Err(StorageError::ResourceExhausted),
    }
}

/// Law: revisions advance one at a time and admit one writer per
/// revision: a write commits exactly one past the store's revision, and a
/// second write that expected the same revision is then stale.
pub proof fn lemma_one_writer_per_revision(current: u64, expected: u64, other: u64)
    requires
        next_revision(current, expected) is Ok,
    ensures
        expected == current,
        next_revision(current, expected)->Ok_0 == current + 1,
        next_revision(next_revision(current, expected)->Ok_0, expected) == Err::<u64, StorageError>(
            StorageError::StaleRevision,
        ),
        next_revision(next_revision(current, expected)->Ok_0, other) is Ok ==> other == current + 1,
{
}

/// The sequence a producer expects after `seq`; none after the last one.
pub open spec fn sequence_after(seq: u64) -> Option<u64> {
    if seq == u64::MAX {
        None
    } else {
        Some((seq + 1) as u64)
    }
}

/// Computes `sequence_after`.
pub fn next_sequence(seq: u64) -> (r: Option<u64>)
    ensures
        r == sequence_after(seq),
{
    seq.checked_add(1)
}

/// Whether a fact may be written for its producer's registration: an
/// unknown producer is refused; a retired, unreconciled, other-generation or
/// other-run registration is stale; the expected next sequence is accepted,
/// a later one leaves a gap, and an earlier one (or any after the last
/// sequence) conflicts.
pub open spec fn fact_scope(record: Option<ProducerView>, fact: EventView) -> Result<(), StorageError> {
    match record {
        None => Err(StorageError::UnknownProducer),
        Some(r) => if !r.active || !r.reconciled || r.generation != fact.generation || r.run_id
            != fact.run_id {
            Err(StorageError::StaleGeneration)
        } else {
            match r.next_sequence {
                Some(next) => if next == fact.seq {
                    Ok(())
                } else if next < fact.seq {
                    Err(StorageError::SequenceGap)
                } else {
                    Err(StorageError::Conflict)
                },
                None => Err(StorageError::Conflict),
            }
        },
    }
}

pub open spec fn opt_producer(r: Option<&ProducerRecord>) -> Option<ProducerView> {
    match r {
        Some(p) => Some(p@),
        None => None,
    }
}

/// Checks `fact_scope`.
pub fn scope(record: Option<&ProducerRecord>, fact: &EventEnvelope) -> (r: Result<(), StorageError>)
    ensures
        r == fact_scope(opt_producer(record), fact@),
{
    let record = match record {
        Some(r) => r,
        None => return Err(StorageError::UnknownProducer),
    };
    if !record.active || !record.reconciled || record.generation != fact.generation
        || record.run_id != fact.run_id {
        return Err(StorageError::StaleGeneration);
    }
    match record.next_sequence {
        Some(next) => if next == fact.seq {
            Ok(())
        } else if next < fact.seq {
            Err(StorageError::SequenceGap)
        } else {
            Err(StorageError::Conflict)
        },
        None => Err(StorageError::Conflict),
    }
}

/// The registration after a fact at `seq` is written under it: the next
/// expected sequence follows `seq`.
pub open spec fn advanced(r: ProducerView, seq: u64) -> ProducerView {
    ProducerView { next_sequence: sequence_after(seq), ..r }
}

/// Law: once a fact is accepted, its registration expects the following
/// sequence only: the same fact again conflicts, a fact at any earlier
/// sequence conflicts, the next one in order is accepted, and one beyond
/// that leaves a gap.
pub proof fn lemma_sequence_advances(r: ProducerView, fact: EventView, later: EventView)
    requires
        fact_scope(Some(r), fact) == Ok::<(), StorageError>(()),
        later.generation == fact.generation,
        later.run_id == fact.run_id,
    ensures
        fact_scope(Some(advanced(r, fact.seq)), fact) == Err::<(), StorageError>(
            StorageError::Conflict,
        ),
        later.seq <= fact.seq ==> fact_scope(Some(advanced(r, fact.seq)), later) == Err::<
            (),
            StorageError,
        >(StorageError::Conflict),
        later.seq == fact.seq + 1 ==> fact_scope(Some(advanced(r, fact.seq)), later) == Ok::<
            (),
            StorageError,
        >(()),
        later.seq > fact.seq + 1 ==> fact_scope(Some(advanced(r, fact.seq)), later) == Err::<
            (),
            StorageError,
        >(StorageError::SequenceGap),
{
}

/// What storage knows of a fact's identity: the stored fact and revision
/// found at its event id or sequence, if any, else what the producer's
/// registration shows. A stored fact is exact only when it is the same
/// fact; a registration of the same generation and run past this sequence
/// (or past its last sequence) proves the sequence was used but not by what.
pub open spec fn receipt_of(
    stored: Option<(EventView, u64)>,
    producer: Option<ProducerView>,
    fact: EventView,
) -> EventReceipt {
    match stored {
        Some((f, revision)) => if f == fact {
            EventReceipt::Exact { revision }
        } else {
            EventReceipt::Conflict
        },
        None => if (producer matches Some(r) && r.generation == fact.generation && r.run_id
            == fact.run_id && (r.next_sequence matches Some(next) ==> next > fact.seq)) {
            EventReceipt::PriorSequenceUnverifiable
        } else {
            EventReceipt::Missing
        },
    }
}

/// Decides `receipt_of` from the decoded stored fact and its revision.
pub fn receipt(
    stored: Option<(&EventEnvelope, u64)>,
    producer: Option<&ProducerRecord>,
    fact: &EventEnvelope,
) -> (r: EventReceipt)
    ensures
        r == receipt_of(
            match stored {
                Some(s) => Some((s.0@, s.1)),
                None => None,
            },
            opt_producer(producer),
            fact@,
        ),
{
    if let Some((f, revision)) = stored {
        return if f.same(fact) {
            EventReceipt::Exact { revision }
        } else {
            EventReceipt::Conflict
        };
    }
    match producer {
        Some(r) => {
            let past = match r.next_sequence {
                Some(next) => next > fact.seq,
                None => true,
            };
            if r.generation == fact.generation && r.run_id == fact.run_id && past {
                EventReceipt::PriorSequenceUnverifiable
            } else {
                EventReceipt::Missing
            }
        },
        None => EventReceipt::Missing,
    }
}

/// Law: how a receipt classifies a fact. A stored fact is an exact duplicate
/// (at its own revision) when it is this fact and a conflict otherwise.
/// Without a stored fact, the sequence counts as used but unverifiable only
/// when the producer's registration is of the fact's own generation and run
/// and already past the fact's sequence; a registration of any other
/// generation or run, one not yet past the sequence, or no registration at
/// all says nothing about the fact, which is then missing.
pub proof fn lemma_receipt_classifies(
    stored: Option<(EventView, u64)>,
    producer: Option<ProducerView>,
    fact: EventView,
)
    ensures
        stored matches Some((f, revision)) ==> (f == fact ==> receipt_of(stored, producer, fact)
            == EventReceipt::Exact { revision }) && (f != fact ==> receipt_of(stored, producer, fact)
            == EventReceipt::Conflict),
        receipt_of(stored, producer, fact) == EventReceipt::PriorSequenceUnverifiable ==> {
            &&& stored is None
            &&& producer is Some
            &&& producer->0.generation == fact.generation
            &&& producer->0.run_id == fact.run_id
            &&& (producer->0.next_sequence matches Some(next) ==> fact.seq < next)
        },
        stored is None && (producer is None || producer->0.generation != fact.generation
            || producer->0.run_id != fact.run_id) ==> receipt_of(stored, producer, fact)
            == EventReceipt::Missing,
        stored is None && (producer matches Some(r) && r.next_sequence matches Some(next) && next
            <= fact.seq) ==> receipt_of(stored, producer, fact) == EventReceipt::Missing,
        stored is None && (producer matches Some(r) && r.generation == fact.generation && r.run_id
            == fact.run_id && (r.next_sequence matches Some(next) ==> fact.seq < next))
            ==> receipt_of(stored, producer, fact) == EventReceipt::PriorSequenceUnverifiable,
{
}

/// A write whose stored identity is byte-for-byte this write's is a
/// duplicate committed at the stored revision; any other stored write at the
/// same event id or sequence conflicts.
pub open spec fn duplicate_of(stored: Option<(Seq<u8>, u64)>, identity: Seq<u8>) -> Result<
    Option<u64>,
    StorageError,
> {
    match stored {
        Some((bytes, revision)) => if bytes == identity {
            Ok(Some(revision))
        } else {
            Err(StorageError::Conflict)
        },
        None => Ok(None),
    }
}

/// Decides `duplicate_of`.
pub fn duplicate(stored: Option<(&[u8], u64)>, identity: &[u8]) -> (r: Result<Option<u64>, StorageError>)
    ensures
        r == duplicate_of(
            match stored {
                Some(s) => Some((s.0@, s.1)),
                None => None,
            },
            identity@,
        ),
{
    match stored {
        Some((bytes, revision)) => if crate::text::same_bytes(bytes, identity) {
            Ok(Some(revision))
        } else {
            Err(StorageError::Conflict)
        },
        None => Ok(None),
    }
}

/// Room for `adding` more rows beside `count` under `limit`.
pub fn capacity(count: u64, limit: u64, adding: u64) -> (r: Result<(), StorageError>)
    ensures
        r == if count + adding <= limit {
            Ok::<(), StorageError>(())
        } else {
            Err(StorageError::ResourceExhausted)
        },
{
    if count > limit || adding > limit - count {
        return Err(StorageError::ResourceExhausted);
    }
    Ok(())
}

} // verus!
