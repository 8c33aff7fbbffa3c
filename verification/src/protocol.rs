//! Wire-level identifiers and event envelopes, held as plain values.
//!
//! Identifiers are canonical lowercase UUID text; sequences are `u64`.
use vstd::prelude::*;

verus! {

/// A lowercase hexadecimal digit as used in canonical identifiers.
pub open spec fn is_lower_hex(c: char) -> bool {
    ('0' <= c && c <= '9') || ('a' <= c && c <= 'f')
}

/// Canonical identifier text: 36 characters in the 8-4-4-4-12 grouping,
/// lowercase hexadecimal digits separated by hyphens.
pub open spec fn is_uuid(s: Seq<char>) -> bool {
    &&& s.len() == 36
    &&& forall|i: int|
        0 <= i < 36 ==> if i == 8 || i == 13 || i == 18 || i == 23 {
            #[trigger] s[i] == '-'
        } else {
            is_lower_hex(s[i])
        }
}

/// Checks whether `cs[start..start + 36]` is canonical identifier text.
pub fn uuid_at(cs: &Vec<char>, start: usize) -> (r: bool)
    requires
        start + 36 <= cs@.len(),
    ensures
        r == is_uuid(cs@.subrange(start as int, start + 36)),
{
    let ghost sub = cs@.subrange(start as int, start + 36);
    let mut i: usize = 0;
    while i < 36
        invariant
            i <= 36,
            start + 36 <= cs@.len(),
            sub == cs@.subrange(start as int, start + 36),
            forall|j: int|
                0 <= j < i ==> if j == 8 || j == 13 || j == 18 || j == 23 {
                    #[trigger] sub[j] == '-'
                } else {
                    is_lower_hex(sub[j])
                },
        decreases 36 - i,
    {
        assert(start + i < cs.len());
        let c = cs[start + i];
        assert(c == sub[i as int]);
        let ok = if i == 8 || i == 13 || i == 18 || i == 23 {
            c == '-'
        } else {
            ('0' <= c && c <= '9') || ('a' <= c && c <= 'f')
        };
        if !ok {
            return false;
        }
        i = i + 1;
    }
    true
}

/// Checks whether a string is canonical identifier text.
pub fn is_uuid_str(s: &str) -> (r: bool)
    ensures
        r == is_uuid(s@),
{
    let cs = crate::text::chars_of(s);
    if cs.len() != 36 {
        return false;
    }
    proof {
        assert(cs@.subrange(0, 36) =~= cs@);
    }
    uuid_at(&cs, 0)
}

/// The harness that produced an event.
#[derive(Clone, Copy, Debug, PartialEq, Eq, Structural)]
pub enum HarnessKind {
    Hermes,
    Claude,
    Codex,
}

/// Lifecycle phase reported for a turn.
#[derive(Clone, Copy, Debug, PartialEq, Eq, Structural)]
pub enum TurnEvent {
    Started,
    AwaitingInput,
    AwaitingApproval,
    Completed,
    Failed,
    Interrupted,
}

/// The kind tag of an event payload.
#[derive(Clone, Copy, Debug, PartialEq, Eq, Structural)]
pub enum EventKind {
    RunStarted,
    RunExited,
    ProducerHealth,
    Turn(TurnEvent),
}

/// Metadata-only event payloads.
#[derive(Clone, Debug)]
pub enum EventPayload {
    RunStarted { harness_session_id: Option<String> },
    RunExited { exit_code: Option<i64>, reason: Option<String> },
    ProducerHealth { adapter_version: String },
    Turn { phase: TurnEvent, turn_id: String, reason: Option<String> },
}

/// Mathematical view of an event payload.
pub ghost enum PayloadView {
    RunStarted { harness_session_id: Option<Seq<char>> },
    RunExited { exit_code: Option<i64>, reason: Option<Seq<char>> },
    ProducerHealth { adapter_version: Seq<char> },
    Turn { phase: TurnEvent, turn_id: Seq<char>, reason: Option<Seq<char>> },
}

pub open spec fn opt_view(o: Option<String>) -> Option<Seq<char>> {
    match o {
        Some(s) => Some(s@),
        None => None,
    }
}

impl View for EventPayload {
    type V = PayloadView;

    open spec fn view(&self) -> PayloadView {
        match self {
            EventPayload::RunStarted { harness_session_id } => PayloadView::RunStarted {
                harness_session_id: opt_view(*harness_session_id),
            },
            EventPayload::RunExited { exit_code, reason } => PayloadView::RunExited {
                exit_code: *exit_code,
                reason: opt_view(*reason),
            },
            EventPayload::ProducerHealth { adapter_version } => PayloadView::ProducerHealth {
                adapter_version: adapter_version@,
            },
            EventPayload::Turn { phase, turn_id, reason } => PayloadView::Turn {
                phase: *phase,
                turn_id: turn_id@,
                reason: opt_view(*reason),
            },
        }
    }
}

/// The kind of a payload view.
pub open spec fn payload_kind(p: PayloadView) -> EventKind {
    match p {
        PayloadView::RunStarted { .. } => EventKind::RunStarted,
        PayloadView::RunExited { .. } => EventKind::RunExited,
        PayloadView::ProducerHealth { .. } => EventKind::ProducerHealth,
        PayloadView::Turn { phase, .. } => EventKind::Turn(phase),
    }
}

/// The turn an event payload belongs to, when it has one.
pub open spec fn payload_turn(p: PayloadView) -> Option<Seq<char>> {
    match p {
        PayloadView::Turn { turn_id, .. } => Some(turn_id),
        _ => None,
    }
}

fn opt_string_eq(a: &Option<String>, b: &Option<String>) -> (r: bool)
    ensures
        r == (opt_view(*a) == opt_view(*b)),
{
    match (a, b) {
        (Some(x), Some(y)) => *x == *y,
        (None, None) => true,
        _ => false,
    }
}

impl EventPayload {
    /// The kind tag of this payload.
    pub fn kind(&self) -> (k: EventKind)
        ensures
            k == payload_kind(self@),
    {
        match self {
            EventPayload::RunStarted { .. } => EventKind::RunStarted,
            EventPayload::RunExited { .. } => EventKind::RunExited,
            EventPayload::ProducerHealth { .. } => EventKind::ProducerHealth,
            EventPayload::Turn { phase, .. } => EventKind::Turn(*phase),
        }
    }

    /// The turn this payload belongs to, if any.
    pub fn turn_id(&self) -> (t: Option<&String>)
        ensures
            match t {
                Some(s) => payload_turn(self@) == Some(s@),
                None => payload_turn(self@) is None,
            },
    {
        match self {
            EventPayload::Turn { turn_id, .. } => Some(turn_id),
            _ => None,
        }
    }

    /// Field-by-field equality of payloads.
    pub fn same(&self, other: &EventPayload) -> (r: bool)
        ensures
            r == (self@ == other@),
    {
        match (self, other) {
            (
                EventPayload::RunStarted { harness_session_id: a },
                EventPayload::RunStarted { harness_session_id: b },
            ) => opt_string_eq(a, b),
            (
                EventPayload::RunExited { exit_code: a, reason: ra },
                EventPayload::RunExited { exit_code: b, reason: rb },
            ) => {
                let same_code = match (a, b) {
                    (Some(x), Some(y)) => *x == *y,
                    (None, None) => true,
                    _ => false,
                };
                same_code && opt_string_eq(ra, rb)
            },
            (
                EventPayload::ProducerHealth { adapter_version: a },
                EventPayload::ProducerHealth { adapter_version: b },
            ) => *a == *b,
            (
                EventPayload::Turn { phase: pa, turn_id: ta, reason: ra },
                EventPayload::Turn { phase: pb, turn_id: tb, reason: rb },
            ) => *pa == *pb && *ta == *tb && opt_string_eq(ra, rb),
            _ => false,
        }
    }
}

/// One producer event with its full identity.
#[derive(Clone, Debug)]
pub struct EventEnvelope {
    pub event_id: String,
    pub producer_id: String,
    pub generation: String,
    pub run_id: String,
    pub seq: u64,
    pub event: EventPayload,
}

/// Mathematical view of an event envelope.
pub ghost struct EventView {
    pub event_id: Seq<char>,
    pub producer_id: Seq<char>,
    pub generation: Seq<char>,
    pub run_id: Seq<char>,
    pub seq: u64,
    pub event: PayloadView,
}

impl View for EventEnvelope {
    type V = EventView;

    open spec fn view(&self) -> EventView {
        EventView {
            event_id: self.event_id@,
            producer_id: self.producer_id@,
            generation: self.generation@,
            run_id: self.run_id@,
            seq: self.seq,
            event: self.event@,
        }
    }
}

impl EventEnvelope {
    /// Equality over every field of the envelope, payload included.
    pub fn same(&self, other: &EventEnvelope) -> (r: bool)
        ensures
            r == (self@ == other@),
    {
        self.event_id == other.event_id && self.producer_id == other.producer_id
            && self.generation == other.generation && self.run_id == other.run_id
            && self.seq == other.seq && self.event.same(&other.event)
    }
}

} // verus!
