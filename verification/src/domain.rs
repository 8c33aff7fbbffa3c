//! Reduced run state: projections, turn keys and attention reasons.
use vstd::prelude::*;

verus! {

/// Observed state of a harness process.
#[derive(Clone, Copy, Debug, PartialEq, Eq, Structural)]
pub enum ProcessState {
    Unknown,
    Alive,
    Exited,
    Zombie,
}

/// Freshness of the observation channel.
#[derive(Clone, Copy, Debug, PartialEq, Eq, Structural)]
pub enum ObservationState {
    Fresh,
    Stale,
    Disconnected,
    Unsupported,
}

/// State of the current turn.
#[derive(Clone, Copy, Debug, PartialEq, Eq, Structural)]
pub enum TurnState {
    Unknown,
    Working,
    AwaitingInput,
    AwaitingApproval,
    Completed,
    Failed,
    Interrupted,
}

/// A turn that has ended.
pub open spec fn turn_is_terminal(t: TurnState) -> bool {
    t == TurnState::Completed || t == TurnState::Failed || t == TurnState::Interrupted
}

impl TurnState {
    /// Whether the turn has ended.
    pub fn is_terminal(&self) -> (r: bool)
        ensures
            r == turn_is_terminal(*self),
    {
        match self {
            TurnState::Completed | TurnState::Failed | TurnState::Interrupted => true,
            _ => false,
        }
    }
}

/// Why a human's attention is requested.
#[derive(Clone, Copy, Debug, PartialEq, Eq, Structural)]
pub enum AttentionReason {
    Input,
    NativeApproval,
    Failure,
    ConnectionUncertainty,
    Completion,
}

/// Reasons that stay active only while their turn is current.
pub open spec fn is_transient(r: AttentionReason) -> bool {
    r == AttentionReason::Input || r == AttentionReason::NativeApproval || r
        == AttentionReason::ConnectionUncertainty
}

/// Delivery state of a notification.
#[derive(Clone, Copy, Debug, PartialEq, Eq, Structural)]
pub enum DeliveryState {
    Pending,
    AttemptedUncertain,
    Acknowledged,
    Expired,
    Overflowed,
}

/// The full scope of a turn.
#[derive(Debug)]
pub struct TurnKey {
    pub producer_id: String,
    pub generation: String,
    pub run_id: String,
    pub turn_id: String,
}

pub ghost struct TurnKeyView {
    pub producer_id: Seq<char>,
    pub generation: Seq<char>,
    pub run_id: Seq<char>,
    pub turn_id: Seq<char>,
}

impl View for TurnKey {
    type V = TurnKeyView;

    open spec fn view(&self) -> TurnKeyView {
        TurnKeyView {
            producer_id: self.producer_id@,
            generation: self.generation@,
            run_id: self.run_id@,
            turn_id: self.turn_id@,
        }
    }
}

impl TurnKey {
    pub fn same(&self, other: &TurnKey) -> (r: bool)
        ensures
            r == (self@ == other@),
    {
        self.producer_id == other.producer_id && self.generation == other.generation && self.run_id
            == other.run_id && self.turn_id == other.turn_id
    }
}

/// The reduced state of one run.
#[derive(Debug)]
pub struct RunProjection {
    pub run_id: String,
    pub process: ProcessState,
    pub observation: ObservationState,
    pub turn: TurnState,
    pub turn_id: Option<String>,
}

pub ghost struct ProjectionView {
    pub run_id: Seq<char>,
    pub process: ProcessState,
    pub observation: ObservationState,
    pub turn: TurnState,
    pub turn_id: Option<Seq<char>>,
}

impl View for RunProjection {
    type V = ProjectionView;

    open spec fn view(&self) -> ProjectionView {
        ProjectionView {
            run_id: self.run_id@,
            process: self.process,
            observation: self.observation,
            turn: self.turn,
            turn_id: crate::protocol::opt_view(self.turn_id),
        }
    }
}

/// The projection of a run nothing is known of: unknown process, stale
/// observation, unknown turn.
pub open spec fn unknown_projection(run_id: Seq<char>) -> ProjectionView {
    ProjectionView {
        run_id,
        process: ProcessState::Unknown,
        observation: ObservationState::Stale,
        turn: TurnState::Unknown,
        turn_id: None,
    }
}

impl RunProjection {
    /// The projection of a run nothing is known of.
    pub fn unknown(run_id: String) -> (r: Self)
        ensures
            r@ == unknown_projection(run_id@),
    {
        RunProjection {
            run_id,
            process: ProcessState::Unknown,
            observation: ObservationState::Stale,
            turn: TurnState::Unknown,
            turn_id: None,
        }
    }

    /// A field-by-field copy.
    pub fn duplicate(&self) -> (r: Self)
        ensures
            r@ == self@,
    {
        RunProjection {
            run_id: self.run_id.clone(),
            process: self.process,
            observation: self.observation,
            turn: self.turn,
            turn_id: match &self.turn_id {
                Some(t) => Some(t.clone()),
                None => None,
            },
        }
    }
}

/// Evidence that a turn reached an outcome.
#[derive(Debug)]
pub struct TombstoneEvidence {
    pub key: TurnKey,
    pub outcome_id: String,
    pub terminal: Option<TurnState>,
}

/// Effects of reducing one event.
#[derive(Debug)]
pub struct Effects {
    pub projection: RunProjection,
    pub current_turn: Option<TurnKey>,
    pub attention: Vec<AttentionReason>,
    pub resolve_transient: Option<TurnKey>,
    pub tombstone: Option<TombstoneEvidence>,
    pub reconciliation_required: bool,
}

/// The stored state an event is reduced against.
#[derive(Debug)]
pub struct ReductionState {
    pub projection: RunProjection,
    pub current_turn: Option<TurnKey>,
    pub tombstone: Option<TombstoneEvidence>,
}

} // verus!
