//! Consistency of reducer writes and reconciliation requests.
use super::reducer_types::{Reconciliation, ReconciliationBaseline, ReducerWrite};
use super::StorageError;
use crate::domain::{ObservationState, ProcessState, TurnKey, TurnKeyView, TurnState, turn_is_terminal};
use crate::protocol::{
    opt_view, payload_kind, payload_turn, EventEnvelope, EventKind, EventView, TurnEvent,
};
use vstd::prelude::*;

verus! {

/// Largest encoded reducer write, in bytes.
pub const MAX_WRITE_BYTES: usize = 24576;

/// The key is the fact's producer, generation and run.
pub open spec fn in_scope(key: TurnKeyView, fact: EventView) -> bool {
    key.producer_id == fact.producer_id && key.generation == fact.generation && key.run_id
        == fact.run_id
}

/// The terminal turn state an event reports, if it ends a turn.
pub open spec fn fact_terminal(fact: EventView) -> Option<TurnState> {
    match payload_kind(fact.event) {
        EventKind::Turn(TurnEvent::Completed) => Some(TurnState::Completed),
        EventKind::Turn(TurnEvent::Failed) => Some(TurnState::Failed),
        EventKind::Turn(TurnEvent::Interrupted) => Some(TurnState::Interrupted),
        _ => None,
    }
}

/// Checks `in_scope`.
pub fn same_scope(key: &TurnKey, fact: &EventEnvelope) -> (r: bool)
    ensures
        r == in_scope(key@, fact@),
{
    key.producer_id == fact.producer_id && key.generation == fact.generation && key.run_id
        == fact.run_id
}

/// The terminal turn state an event reports.
pub fn terminal(fact: &EventEnvelope) -> (r: Option<TurnState>)
    ensures
        r == fact_terminal(fact@),
{
    match fact.event.kind() {
        EventKind::Turn(TurnEvent::Completed) => Some(TurnState::Completed),
        EventKind::Turn(TurnEvent::Failed) => Some(TurnState::Failed),
        EventKind::Turn(TurnEvent::Interrupted) => Some(TurnState::Interrupted),
        _ => None,
    }
}

/// A reducer write is internally consistent: accepted at a non-negative
/// time, at most eight distinct attention reasons, a projection of the
/// fact's run, turn keys within the fact's scope, and a tombstone only for
/// the fact's own terminal turn.
pub open spec fn write_consistent(set: ReducerWrite) -> bool {
    let e = set.effects;
    let fact = set.fact@;
    &&& set.accepted_at >= 0
    &&& e.attention@.len() <= 8
    &&& e.attention@.no_duplicates()
    &&& e.projection.run_id@ == fact.run_id
    &&& (e.current_turn matches Some(k) ==> in_scope(k@, fact) && opt_view(e.projection.turn_id)
        == Some(k.turn_id@))
    &&& (e.resolve_transient matches Some(k) ==> in_scope(k@, fact))
    &&& (e.tombstone matches Some(t) ==> {
        &&& in_scope(t.key@, fact)
        &&& payload_turn(fact.event) == Some(t.key.turn_id@)
        &&& t.outcome_id@ == fact.event_id
        &&& t.terminal matches Some(s) && turn_is_terminal(s)
        &&& t.terminal == fact_terminal(fact)
    })
}

fn distinct_reasons(reasons: &Vec<crate::domain::AttentionReason>) -> (r: bool)
    ensures
        r == reasons@.no_duplicates(),
{
    let mut i: usize = 0;
    while i < reasons.len()
        invariant
            i <= reasons@.len(),
            forall|a: int, b: int| 0 <= a < b < reasons@.len() && a < i ==> reasons@[a] != reasons@[b],
        decreases reasons.len() - i,
    {
        let mut j: usize = i + 1;
        while j < reasons.len()
            invariant
                i < j <= reasons@.len(),
                forall|a: int, b: int|
                    0 <= a < b < reasons@.len() && a < i ==> reasons@[a] != reasons@[b],
                forall|b: int| i < b < j ==> reasons@[i as int] != reasons@[b],
            decreases reasons.len() - j,
        {
            if reasons[i] == reasons[j] {
                return false;
            }
            j = j + 1;
        }
        i = i + 1;
    }
    true
}

fn same_opt_text(a: &Option<String>, b: &String) -> (r: bool)
    ensures
        r == (opt_view(*a) == Some(b@)),
{
    match a {
        Some(x) => *x == *b,
        None => false,
    }
}

/// Checks a reducer write before any statement runs: its consistency, that
/// its fact encodes as a frame (`frame_ok`), and its encoded size.
pub fn apply(set: &ReducerWrite, frame_ok: bool, encoded_len: usize) -> (r: Result<(), StorageError>)
    ensures
        r == if write_consistent(*set) && frame_ok && encoded_len <= MAX_WRITE_BYTES {
            Ok::<(), StorageError>(())
        } else {
            Err(StorageError::InvalidRequest)
        },
{
    let effects = &set.effects;
    if set.accepted_at < 0 || effects.attention.len() > 8 || !distinct_reasons(&effects.attention)
        || effects.projection.run_id != set.fact.run_id {
        return Err(StorageError::InvalidRequest);
    }
    if let Some(key) = &effects.current_turn {
        if !same_scope(key, &set.fact) || !same_opt_text(&effects.projection.turn_id, &key.turn_id) {
            return Err(StorageError::InvalidRequest);
        }
    }
    if let Some(key) = &effects.resolve_transient {
        if !same_scope(key, &set.fact) {
            return Err(StorageError::InvalidRequest);
        }
    }
    if let Some(item) = &effects.tombstone {
        let turn_matches = match set.fact.event.turn_id() {
            Some(t) => *t == item.key.turn_id,
            None => false,
        };
        let terminal_ok = match item.terminal {
            Some(state) => state.is_terminal(),
            None => false,
        };
        if !same_scope(&item.key, &set.fact) || !turn_matches || item.outcome_id != set.fact.event_id
            || !terminal_ok || item.terminal != terminal(&set.fact) {
            return Err(StorageError::InvalidRequest);
        }
    }
    if !frame_ok || encoded_len > MAX_WRITE_BYTES {
        return Err(StorageError::InvalidRequest);
    }
    Ok(())
}

/// A reconciliation is consistent: a verified baseline is a live, fresh
/// projection of the registered run whose turn matches the claimed current
/// turn (an active turn state for a current turn, unknown otherwise); an
/// unavailable baseline resolves no old turn.
pub open spec fn reconciliation_consistent(request: Reconciliation) -> bool {
    &&& (request.baseline matches ReconciliationBaseline::Verified { projection, current_turn }
        ==> {
        &&& projection.run_id@ == request.registration.run_id@
        &&& projection.process == ProcessState::Alive
        &&& projection.observation == ObservationState::Fresh
        &&& opt_view(projection.turn_id) == opt_view(current_turn)
        &&& if current_turn is Some {
            projection.turn == TurnState::Working || projection.turn == TurnState::AwaitingInput
                || projection.turn == TurnState::AwaitingApproval
        } else {
            projection.turn == TurnState::Unknown
        }
    })
    &&& !(request.baseline is Unavailable && request.resolved_turn is Some)
}

/// Checks `reconciliation_consistent`.
pub fn reconciliation(request: &Reconciliation) -> (r: Result<(), StorageError>)
    ensures
        r == if reconciliation_consistent(*request) {
            Ok::<(), StorageError>(())
        } else {
            Err(StorageError::InvalidRequest)
        },
{
    match &request.baseline {
        ReconciliationBaseline::Verified { projection, current_turn } => {
            let same_turn = match (&projection.turn_id, current_turn) {
                (Some(a), Some(b)) => *a == *b,
                (None, None) => true,
                _ => false,
            };
            let turn_ok = match current_turn {
                Some(_) => match projection.turn {
                    TurnState::Working | TurnState::AwaitingInput | TurnState::AwaitingApproval => true,
                    _ => false,
                },
                None => projection.turn == TurnState::Unknown,
            };
            if projection.run_id != request.registration.run_id || projection.process
                != ProcessState::Alive || projection.observation != ObservationState::Fresh
                || !same_turn || !turn_ok {
                return Err(StorageError::InvalidRequest);
            }
        },
        ReconciliationBaseline::Unavailable => {
            if request.resolved_turn.is_some() {
                return Err(StorageError::InvalidRequest);
            }
        },
    }
    Ok(())
}

} // verus!
