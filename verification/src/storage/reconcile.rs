//! Decisions of reconciling a new generation and of reading reduced state.
use super::codes::{observation, process, turn};
use super::reducer_types::{Reconciliation, ReconciliationBaseline};
use super::StorageError;
use crate::domain::{
    ProjectionView, RunProjection, TurnKey, TurnKeyView, TurnState, turn_is_terminal,
    unknown_projection,
};
use crate::protocol::opt_view;
use vstd::prelude::*;

verus! {

pub open spec fn opt_key(k: Option<TurnKey>) -> Option<TurnKeyView> {
    match k {
        Some(x) => Some(x@),
        None => None,
    }
}

/// An old current turn may be resolved by a reconciliation only when it is
/// the run's stored current turn, of the registering producer, in the
/// generation being replaced.
pub open spec fn resolvable(current: Option<TurnKeyView>, request: Reconciliation) -> bool {
    match request.resolved_turn {
        None => true,
        Some(key) => current == Some(key@) && key.producer_id@ == request.registration.producer_id@
            && opt_view(request.registration.previous_generation) == Some(key.generation@),
    }
}

/// Checks `resolvable` against the run's stored current turn.
pub fn resolve_old(current: Option<&TurnKey>, request: &Reconciliation) -> (r: Result<(), StorageError>)
    ensures
        r == if resolvable(
            match current {
                Some(k) => Some(k@),
                None => None,
            },
            *request,
        ) {
            Ok::<(), StorageError>(())
        } else {
            Err(StorageError::Conflict)
        },
{
    let key = match &request.resolved_turn {
        Some(k) => k,
        None => return Ok(()),
    };
    let same_current = match current {
        Some(c) => c.same(key),
        None => false,
    };
    let previous = match &request.registration.previous_generation {
        Some(g) => *g == key.generation,
        None => false,
    };
    if !same_current || key.producer_id != request.registration.producer_id || !previous {
        return Err(StorageError::Conflict);
    }
    Ok(())
}

/// The projection and current turn a reconciliation stores: unknown and no
/// current turn without a baseline; otherwise the verified projection, with
/// its current turn keyed to the registering producer, the new generation
/// and the run.
pub open spec fn reconciled_state(request: Reconciliation, generation: Seq<char>) -> (ProjectionView, Option<TurnKeyView>) {
    match request.baseline {
        ReconciliationBaseline::Unavailable => (
            unknown_projection(request.registration.run_id@),
            None,
        ),
        ReconciliationBaseline::Verified { projection, current_turn } => (
            projection@,
            match current_turn {
                Some(t) => Some(
                    TurnKeyView {
                        producer_id: request.registration.producer_id@,
                        generation,
                        run_id: request.registration.run_id@,
                        turn_id: t@,
                    },
                ),
                None => None,
            },
        ),
    }
}

/// Builds `reconciled_state` for the registered `generation`.
pub fn baseline(request: &Reconciliation, generation: &String) -> (r: (RunProjection, Option<TurnKey>))
    ensures
        (r.0@, opt_key(r.1)) == reconciled_state(*request, generation@),
{
    match &request.baseline {
        ReconciliationBaseline::Unavailable => (
            RunProjection::unknown(request.registration.run_id.clone()),
            None,
        ),
        ReconciliationBaseline::Verified { projection, current_turn } => {
            let current = match current_turn {
                Some(t) => Some(
                    TurnKey {
                        producer_id: request.registration.producer_id.clone(),
                        generation: generation.clone(),
                        run_id: request.registration.run_id.clone(),
                        turn_id: t.clone(),
                    },
                ),
                None => None,
            };
            (projection.duplicate(), current)
        },
    }
}

/// Law: what a reconciliation stores. Without a baseline the run is unknown
/// and has no current turn. With a verified baseline the run takes exactly
/// the verified projection, and it has a current turn exactly when the
/// baseline names one: that turn id, keyed to the registering producer, the
/// new generation and the registration's run.
pub proof fn lemma_baseline_keeps_verified_turn(request: Reconciliation, generation: Seq<char>)
    ensures
        request.baseline is Unavailable ==> reconciled_state(request, generation).0
            == unknown_projection(request.registration.run_id@) && reconciled_state(
            request,
            generation,
        ).1 is None,
        request.baseline matches ReconciliationBaseline::Verified { projection, current_turn } ==> {
            let (p, key) = reconciled_state(request, generation);
            &&& p == projection@
            &&& key is Some <==> current_turn is Some
            &&& current_turn matches Some(t) ==> {
                &&& key->0.turn_id == t@
                &&& key->0.producer_id == request.registration.producer_id@
                &&& key->0.generation == generation
                &&& key->0.run_id == request.registration.run_id@
            }
        },
{
}

/// The running count of discarded events after adding `more`.
pub fn add_discarded(stored: u64, more: u64) -> (r: Result<u64, StorageError>)
    ensures
        match r {
            Ok(v) => v == stored + more,
            Err(e) => e == StorageError::ResourceExhausted && stored + more > u64::MAX,
        },
{
    match stored.checked_add(more) {
        Some(v) => Ok(v),
        None => Err(StorageError::ResourceExhausted),
    }
}

/// A stored projection row: its state codes, turn id, and the producer and
/// generation of its current turn.
pub struct ProjectionRow {
    pub process: u8,
    pub observation: u8,
    pub turn: u8,
    pub turn_id: Option<String>,
    pub producer: Option<String>,
    pub generation: Option<String>,
}

/// The current turn a stored row names: a producer and generation with a
/// turn id make a key; neither makes none; anything else is undecodable.
pub open spec fn row_current(run: Seq<char>, row: ProjectionRow) -> Option<Option<TurnKeyView>> {
    match (row.producer, row.generation, row.turn_id) {
        (Some(p), Some(g), Some(t)) => Some(
            Some(TurnKeyView { producer_id: p@, generation: g@, run_id: run, turn_id: t@ }),
        ),
        (None, None, _) => Some(None),
        _ => None,
    }
}

/// The reduced state of `run`, from its stored row: the row decoded, or the
/// unknown projection when the run has no row. A row that does not decode
/// fails the query, which storage reports as unavailable persistence.
pub open spec fn stored_state(run: Seq<char>, row: Option<ProjectionRow>) -> Option<(ProjectionView, Option<TurnKeyView>)> {
    match row {
        None => Some((unknown_projection(run), None)),
        Some(r) => if super::codes::process_code_of(r.process) is Some
            && super::codes::observation_code_of(r.observation) is Some
            && super::codes::turn_code_of(r.turn) is Some && row_current(run, r) is Some {
            Some(
                (
                    ProjectionView {
                        run_id: run,
                        process: super::codes::process_code_of(r.process).unwrap(),
                        observation: super::codes::observation_code_of(r.observation).unwrap(),
                        turn: super::codes::turn_code_of(r.turn).unwrap(),
                        turn_id: opt_view(r.turn_id),
                    },
                    row_current(run, r).unwrap(),
                ),
            )
        } else {
            None
        },
    }
}

/// Decodes `stored_state`.
pub fn projection(run: &String, row: Option<ProjectionRow>) -> (r: Result<(RunProjection, Option<TurnKey>), StorageError>)
    ensures
        match r {
            Ok(s) => stored_state(run@, row) == Some((s.0@, opt_key(s.1))),
            Err(e) => e == StorageError::PersistenceUnavailable && stored_state(run@, row) is None,
        },
{
    let row = match row {
        None => return Ok((RunProjection::unknown(run.clone()), None)),
        Some(r) => r,
    };
    let ghost spec_row = row;
    let p = match process(row.process) {
        Some(v) => v,
        None => return Err(StorageError::PersistenceUnavailable),
    };
    let o = match observation(row.observation) {
        Some(v) => v,
        None => return Err(StorageError::PersistenceUnavailable),
    };
    let t = match turn(row.turn) {
        Some(v) => v,
        None => return Err(StorageError::PersistenceUnavailable),
    };
    let ProjectionRow { turn_id, producer, generation, .. } = row;
    let current = match (producer, generation, &turn_id) {
        (Some(p), Some(g), Some(id)) => Some(
            TurnKey { producer_id: p, generation: g, run_id: run.clone(), turn_id: id.clone() },
        ),
        (None, None, _) => None,
        _ => return Err(StorageError::PersistenceUnavailable),
    };
    Ok((RunProjection { run_id: run.clone(), process: p, observation: o, turn: t, turn_id }, current))
}

/// The terminal state a stored tombstone records: none, or a terminal turn
/// state; any other code fails the query.
pub fn tombstone_terminal(code: Option<u8>) -> (r: Result<Option<TurnState>, StorageError>)
    ensures
        match r {
            Ok(v) => match code {
                None => v is None,
                Some(c) => v == super::codes::turn_code_of(c) && (v matches Some(s) && turn_is_terminal(s)),
            },
            Err(e) => e == StorageError::PersistenceUnavailable && (code matches Some(c) && !(
            super::codes::turn_code_of(c) matches Some(s) && turn_is_terminal(s))),
        },
{
    match code {
        None => Ok(None),
        Some(c) => match turn(c) {
            Some(s) => if s.is_terminal() {
                Ok(Some(s))
            } else {
                Err(StorageError::PersistenceUnavailable)
            },
            None => Err(StorageError::PersistenceUnavailable),
        },
    }
}

} // verus!
