//! Stored integer codes of the reduced-state enums, with exact inverses.
use crate::domain::{AttentionReason, DeliveryState, ObservationState, ProcessState, TurnState};
use vstd::prelude::*;

verus! {

pub open spec fn process_code(s: ProcessState) -> u8 {
    match s {
        ProcessState::Unknown => 0,
        ProcessState::Alive => 1,
        ProcessState::Exited => 2,
        ProcessState::Zombie => 3,
    }
}

pub open spec fn observation_code(s: ObservationState) -> u8 {
    match s {
        ObservationState::Fresh => 0,
        ObservationState::Stale => 1,
        ObservationState::Disconnected => 2,
        ObservationState::Unsupported => 3,
    }
}

pub open spec fn turn_code(s: TurnState) -> u8 {
    match s {
        TurnState::Unknown => 0,
        TurnState::Working => 1,
        TurnState::AwaitingInput => 2,
        TurnState::AwaitingApproval => 3,
        TurnState::Completed => 4,
        TurnState::Failed => 5,
        TurnState::Interrupted => 6,
    }
}

pub open spec fn reason_code(s: AttentionReason) -> u8 {
    match s {
        AttentionReason::Input => 0,
        AttentionReason::NativeApproval => 1,
        AttentionReason::Failure => 2,
        AttentionReason::ConnectionUncertainty => 3,
        AttentionReason::Completion => 4,
    }
}

pub open spec fn delivery_code(s: DeliveryState) -> u8 {
    match s {
        DeliveryState::Pending => 0,
        DeliveryState::AttemptedUncertain => 1,
        DeliveryState::Acknowledged => 2,
        DeliveryState::Expired => 3,
        DeliveryState::Overflowed => 4,
    }
}

/// The process state a stored code denotes, if any.
pub open spec fn process_code_of(v: u8) -> Option<ProcessState> {
    match v {
        0 => Some(ProcessState::Unknown),
        1 => Some(ProcessState::Alive),
        2 => Some(ProcessState::Exited),
        3 => Some(ProcessState::Zombie),
        _ => None,
    }
}

/// The observation state a stored code denotes, if any.
pub open spec fn observation_code_of(v: u8) -> Option<ObservationState> {
    match v {
        0 => Some(ObservationState::Fresh),
        1 => Some(ObservationState::Stale),
        2 => Some(ObservationState::Disconnected),
        3 => Some(ObservationState::Unsupported),
        _ => None,
    }
}

/// The turn state a stored code denotes, if any.
pub open spec fn turn_code_of(v: u8) -> Option<TurnState> {
    match v {
        0 => Some(TurnState::Unknown),
        1 => Some(TurnState::Working),
        2 => Some(TurnState::AwaitingInput),
        3 => Some(TurnState::AwaitingApproval),
        4 => Some(TurnState::Completed),
        5 => Some(TurnState::Failed),
        6 => Some(TurnState::Interrupted),
        _ => None,
    }
}

/// The attention reason state a stored code denotes, if any.
pub open spec fn reason_code_of(v: u8) -> Option<AttentionReason> {
    match v {
        0 => Some(AttentionReason::Input),
        1 => Some(AttentionReason::NativeApproval),
        2 => Some(AttentionReason::Failure),
        3 => Some(AttentionReason::ConnectionUncertainty),
        4 => Some(AttentionReason::Completion),
        _ => None,
    }
}

/// The delivery state a stored code denotes, if any.
pub open spec fn delivery_code_of(v: u8) -> Option<DeliveryState> {
    match v {
        0 => Some(DeliveryState::Pending),
        1 => Some(DeliveryState::AttemptedUncertain),
        2 => Some(DeliveryState::Acknowledged),
        3 => Some(DeliveryState::Expired),
        4 => Some(DeliveryState::Overflowed),
        _ => None,
    }
}

/// The stored code of a process state.
pub fn encode_process(s: ProcessState) -> (r: u8)
    ensures
        r == process_code(s),
{
    match s {
        ProcessState::Unknown => 0,
        ProcessState::Alive => 1,
        ProcessState::Exited => 2,
        ProcessState::Zombie => 3,
    }
}

/// The process state a stored code denotes; unknown codes are corrupt.
pub fn process(value: u8) -> (r: Option<ProcessState>)
    ensures
        r == process_code_of(value),
        match r {
            Some(s) => process_code(s) == value,
            None => forall|s: ProcessState| process_code(s) != value,
        },
{
    match value {
        0 => Some(ProcessState::Unknown),
        1 => Some(ProcessState::Alive),
        2 => Some(ProcessState::Exited),
        3 => Some(ProcessState::Zombie),
        _ => None,
    }
}

/// The stored code of an observation state.
pub fn encode_observation(s: ObservationState) -> (r: u8)
    ensures
        r == observation_code(s),
{
    match s {
        ObservationState::Fresh => 0,
        ObservationState::Stale => 1,
        ObservationState::Disconnected => 2,
        ObservationState::Unsupported => 3,
    }
}

/// The observation state a stored code denotes.
pub fn observation(value: u8) -> (r: Option<ObservationState>)
    ensures
        r == observation_code_of(value),
        match r {
            Some(s) => observation_code(s) == value,
            None => forall|s: ObservationState| observation_code(s) != value,
        },
{
    match value {
        0 => Some(ObservationState::Fresh),
        1 => Some(ObservationState::Stale),
        2 => Some(ObservationState::Disconnected),
        3 => Some(ObservationState::Unsupported),
        _ => None,
    }
}

/// The stored code of a turn state.
pub fn encode_turn(s: TurnState) -> (r: u8)
    ensures
        r == turn_code(s),
{
    match s {
        TurnState::Unknown => 0,
        TurnState::Working => 1,
        TurnState::AwaitingInput => 2,
        TurnState::AwaitingApproval => 3,
        TurnState::Completed => 4,
        TurnState::Failed => 5,
        TurnState::Interrupted => 6,
    }
}

/// The turn state a stored code denotes.
pub fn turn(value: u8) -> (r: Option<TurnState>)
    ensures
        r == turn_code_of(value),
        match r {
            Some(s) => turn_code(s) == value,
            None => forall|s: TurnState| turn_code(s) != value,
        },
{
    match value {
        0 => Some(TurnState::Unknown),
        1 => Some(TurnState::Working),
        2 => Some(TurnState::AwaitingInput),
        3 => Some(TurnState::AwaitingApproval),
        4 => Some(TurnState::Completed),
        5 => Some(TurnState::Failed),
        6 => Some(TurnState::Interrupted),
        _ => None,
    }
}

/// The stored code of an attention reason.
pub fn encode_reason(s: AttentionReason) -> (r: u8)
    ensures
        r == reason_code(s),
{
    match s {
        AttentionReason::Input => 0,
        AttentionReason::NativeApproval => 1,
        AttentionReason::Failure => 2,
        AttentionReason::ConnectionUncertainty => 3,
        AttentionReason::Completion => 4,
    }
}

/// The attention reason a stored code denotes.
pub fn reason(value: u8) -> (r: Option<AttentionReason>)
    ensures
        r == reason_code_of(value),
        match r {
            Some(s) => reason_code(s) == value,
            None => forall|s: AttentionReason| reason_code(s) != value,
        },
{
    match value {
        0 => Some(AttentionReason::Input),
        1 => Some(AttentionReason::NativeApproval),
        2 => Some(AttentionReason::Failure),
        3 => Some(AttentionReason::ConnectionUncertainty),
        4 => Some(AttentionReason::Completion),
        _ => None,
    }
}

/// The stored code of a delivery state.
pub fn encode_delivery(s: DeliveryState) -> (r: u8)
    ensures
        r == delivery_code(s),
{
    match s {
        DeliveryState::Pending => 0,
        DeliveryState::AttemptedUncertain => 1,
        DeliveryState::Acknowledged => 2,
        DeliveryState::Expired => 3,
        DeliveryState::Overflowed => 4,
    }
}

/// The delivery state a stored code denotes.
pub fn delivery(value: u8) -> (r: Option<DeliveryState>)
    ensures
        r == delivery_code_of(value),
        match r {
            Some(s) => delivery_code(s) == value,
            None => forall|s: DeliveryState| delivery_code(s) != value,
        },
{
    match value {
        0 => Some(DeliveryState::Pending),
        1 => Some(DeliveryState::AttemptedUncertain),
        2 => Some(DeliveryState::Acknowledged),
        3 => Some(DeliveryState::Expired),
        4 => Some(DeliveryState::Overflowed),
        _ => None,
    }
}

/// Law: each stored code denotes at most one state, so decoding a stored
/// code gives back exactly the state that was encoded.
pub proof fn lemma_codes_injective(
    p1: ProcessState,
    p2: ProcessState,
    o1: ObservationState,
    o2: ObservationState,
    t1: TurnState,
    t2: TurnState,
    r1: AttentionReason,
    r2: AttentionReason,
    d1: DeliveryState,
    d2: DeliveryState,
)
    ensures
        process_code(p1) == process_code(p2) ==> p1 == p2,
        observation_code(o1) == observation_code(o2) ==> o1 == o2,
        turn_code(t1) == turn_code(t2) ==> t1 == t2,
        reason_code(r1) == reason_code(r2) ==> r1 == r2,
        delivery_code(d1) == delivery_code(d2) ==> d1 == d2,
{
}

/// Law: reading back a stored code gives the state that was stored.
pub proof fn lemma_codes_roundtrip(
    p: ProcessState,
    o: ObservationState,
    t: TurnState,
    r: AttentionReason,
    d: DeliveryState,
)
    ensures
        process_code_of(process_code(p)) == Some(p),
        observation_code_of(observation_code(o)) == Some(o),
        turn_code_of(turn_code(t)) == Some(t),
        reason_code_of(reason_code(r)) == Some(r),
        delivery_code_of(delivery_code(d)) == Some(d),
{
}

} // verus!
