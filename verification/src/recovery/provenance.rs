//! Reviewed source provenance. An empty production registry is intentional:
//! wire string types prove no origin.
use super::{RecoveryError, MAX_RECORD_BYTES};
use crate::decimal::{parse_u64, parsed_unsigned};
use crate::protocol::{
    is_uuid, is_uuid_str, opt_view, EventEnvelope, EventKind, EventPayload, EventView, HarnessKind,
    PayloadView, TurnEvent,
};
use crate::text::str_eq;
use vstd::prelude::*;

verus! {

/// Longest accepted adapter version text, in bytes.
pub const MAX_VERSION_BYTES: usize = 64;

/// Borrowed, bounded source input. Never formatted, logged or persisted verbatim.
#[derive(Clone, Copy)]
pub struct AdapterRecord<'a> {
    pub harness: HarnessKind,
    pub version: &'a str,
    pub source: &'a [u8],
}

/// Where a mapped field's value originates.
#[derive(Clone, Copy, Debug, PartialEq, Eq, Structural)]
pub enum Source {
    Metadata,
    Unproven,
    Prompt,
    Environment,
}

/// A reviewed, version-specific adapter mapping.
#[derive(Debug)]
pub struct Mapping {
    pub harness: HarnessKind,
    pub version: String,
    pub turn: Source,
    pub session: Source,
    pub health_version: Source,
}

/// The production registry: no live adapter version is qualified.
pub fn reviewed() -> (r: Vec<Mapping>)
    ensures
        r@.len() == 0,
{
    Vec::new()
}

/// The mapping at `i` is the first for this harness and version.
pub open spec fn first_mapping(
    reviewed: Seq<Mapping>,
    harness: HarnessKind,
    version: Seq<char>,
    i: int,
) -> bool {
    &&& 0 <= i < reviewed.len()
    &&& reviewed[i].harness == harness && reviewed[i].version@ == version
    &&& forall|j: int|
        0 <= j < i ==> !(#[trigger] reviewed[j].harness == harness && reviewed[j].version@
            == version)
}

/// Finds the reviewed mapping for `harness` at `version`.
pub fn mapping(harness: HarnessKind, version: &str, reviewed: &Vec<Mapping>) -> (r: Result<
    usize,
    RecoveryError,
>)
    ensures
        match r {
            Ok(i) => first_mapping(reviewed@, harness, version@, i as int),
            Err(e) => e == RecoveryError::UnsupportedAdapter && forall|j: int|
                0 <= j < reviewed@.len() ==> !(#[trigger] reviewed@[j].harness == harness
                    && reviewed@[j].version@ == version@),
        },
{
    let mut i: usize = 0;
    while i < reviewed.len()
        invariant
            i <= reviewed@.len(),
            forall|j: int|
                0 <= j < i ==> !(#[trigger] reviewed@[j].harness == harness && reviewed@[j].version@
                    == version@),
        decreases reviewed.len() - i,
    {
        if reviewed[i].harness == harness && crate::text::str_eq(reviewed[i].version.as_str(), version) {
            return Ok(i);
        }
        i = i + 1;
    }
    Err(RecoveryError::UnsupportedAdapter)
}

/// Bounds on input checked before any parsing: a non-empty version of at
/// most 64 bytes and a bounded source.
pub open spec fn input_within_bounds(input: AdapterRecord) -> bool {
    input.version@.len() > 0 && input.version.len() <= MAX_VERSION_BYTES
        && input.source@.len() <= MAX_RECORD_BYTES
}

/// Checks the input bounds, then finds the reviewed mapping for the input.
pub fn reviewed_input(input: &AdapterRecord, reviewed: &Vec<Mapping>) -> (r: Result<
    usize,
    RecoveryError,
>)
    ensures
        !input_within_bounds(*input) ==> r == Err::<usize, RecoveryError>(
            RecoveryError::BoundExceeded,
        ),
        input_within_bounds(*input) ==> match r {
            Ok(i) => first_mapping(reviewed@, input.harness, input.version@, i as int),
            Err(e) => e == RecoveryError::UnsupportedAdapter && forall|j: int|
                0 <= j < reviewed@.len() ==> !(#[trigger] reviewed@[j].harness == input.harness
                    && reviewed@[j].version@ == input.version@),
        },
{
    if input.version.is_empty() || input.version.len() > MAX_VERSION_BYTES || input.source.len()
        > MAX_RECORD_BYTES {
        return Err(RecoveryError::BoundExceeded);
    }
    mapping(input.harness, input.version, reviewed)
}

/// Which metadata fields an eligible event keeps.
#[derive(Clone, Copy, Debug, PartialEq, Eq, Structural)]
pub enum PayloadPlan {
    /// The session identifier is kept only when the mapping proves its origin.
    RunStarted { keep_session: bool },
    ExitCode,
    ExitReason,
    /// The adapter version is the reviewed mapping's own version.
    ProducerHealth,
    Turn { keep_reason: bool },
}

/// The plan for an eligible payload of `kind` under `mapping`.
pub open spec fn spec_payload_plan(kind: EventKind, mapping: Mapping, has_exit_code: bool) -> Result<
    PayloadPlan,
    RecoveryError,
> {
    match kind {
        EventKind::RunStarted => Ok(
            PayloadPlan::RunStarted { keep_session: mapping.session == Source::Metadata },
        ),
        EventKind::RunExited => if has_exit_code {
            Ok(PayloadPlan::ExitCode)
        } else {
            Ok(PayloadPlan::ExitReason)
        },
        EventKind::ProducerHealth => if mapping.health_version != Source::Metadata {
            Err(RecoveryError::UnprovenSource)
        } else {
            Ok(PayloadPlan::ProducerHealth)
        },
        EventKind::Turn(phase) => if mapping.turn != Source::Metadata {
            Err(RecoveryError::UnprovenSource)
        } else {
            Ok(PayloadPlan::Turn { keep_reason: phase == crate::protocol::TurnEvent::Failed })
        },
    }
}

/// Decides which fields of the source metadata an eligible event keeps.
pub fn payload_plan(kind: EventKind, mapping: &Mapping, has_exit_code: bool) -> (r: Result<
    PayloadPlan,
    RecoveryError,
>)
    ensures
        r == spec_payload_plan(kind, *mapping, has_exit_code),
{
    match kind {
        EventKind::RunStarted => Ok(
            PayloadPlan::RunStarted { keep_session: mapping.session == Source::Metadata },
        ),
        EventKind::RunExited => if has_exit_code {
            Ok(PayloadPlan::ExitCode)
        } else {
            Ok(PayloadPlan::ExitReason)
        },
        EventKind::ProducerHealth => if mapping.health_version != Source::Metadata {
            Err(RecoveryError::UnprovenSource)
        } else {
            Ok(PayloadPlan::ProducerHealth)
        },
        EventKind::Turn(phase) => if mapping.turn != Source::Metadata {
            Err(RecoveryError::UnprovenSource)
        } else {
            Ok(PayloadPlan::Turn { keep_reason: phase == crate::protocol::TurnEvent::Failed })
        },
    }
}

/// Replay revalidates that every stored field is still proven by the mapping.
pub open spec fn replay_allowed(event: PayloadView, mapping: Mapping) -> bool {
    match event {
        PayloadView::RunStarted { harness_session_id } => harness_session_id is None
            || mapping.session == Source::Metadata,
        PayloadView::RunExited { .. } => true,
        PayloadView::ProducerHealth { adapter_version } => mapping.health_version
            == Source::Metadata && adapter_version == mapping.version@,
        PayloadView::Turn { .. } => mapping.turn == Source::Metadata,
    }
}

/// Revalidates a replayed event against its reviewed mapping.
pub fn validate_replay(event: &EventEnvelope, mapping: &Mapping) -> (r: Result<(), RecoveryError>)
    ensures
        r == if replay_allowed(event.event@, *mapping) {
            Ok::<(), RecoveryError>(())
        } else {
            Err(RecoveryError::UnprovenSource)
        },
{
    match &event.event {
        crate::protocol::EventPayload::RunStarted { harness_session_id } => {
            if harness_session_id.is_some() && mapping.session != Source::Metadata {
                return Err(RecoveryError::UnprovenSource);
            }
        },
        crate::protocol::EventPayload::RunExited { .. } => {},
        crate::protocol::EventPayload::ProducerHealth { adapter_version } => {
            if mapping.health_version != Source::Metadata || *adapter_version != mapping.version {
                return Err(RecoveryError::UnprovenSource);
            }
        },
        crate::protocol::EventPayload::Turn { .. } => {
            if mapping.turn != Source::Metadata {
                return Err(RecoveryError::UnprovenSource);
            }
        },
    }
    Ok(())
}

/// An event built only from reviewed metadata fields.
pub struct EligibleMetadata {
    event: EventEnvelope,
    harness: HarnessKind,
    version: String,
}

impl View for EligibleMetadata {
    type V = (crate::protocol::EventView, HarnessKind, Seq<char>);

    closed spec fn view(&self) -> Self::V {
        (self.event@, self.harness, self.version@)
    }
}

impl EligibleMetadata {
    /// Wraps an event built under the plan of the mapping for `harness` at `version`.
    pub fn new(event: EventEnvelope, harness: HarnessKind, version: String) -> (r: Self)
        ensures
            r@ == (event@, harness, version@),
    {
        EligibleMetadata { event, harness, version }
    }

    /// The event, its harness and the reviewed version.
    pub fn into_parts(self) -> (r: (EventEnvelope, HarnessKind, String))
        ensures
            (r.0@, r.1, r.2@) == self@,
    {
        (self.event, self.harness, self.version)
    }
}

/// The fields of an adapter's source record that eligibility reads, each as
/// the record holds it: text fields are `None` when absent or not text.
/// `exit_code` is `None` when the payload has no such key, and `Some(None)`
/// when the key holds no integer.
#[derive(Debug)]
pub struct SourceMetadata {
    pub kind: Option<String>,
    pub event_id: Option<String>,
    pub producer_id: Option<String>,
    pub generation: Option<String>,
    pub run_id: Option<String>,
    pub seq: Option<String>,
    pub harness_session_id: Option<String>,
    pub exit_code: Option<Option<i64>>,
    pub reason: Option<String>,
    pub turn_id: Option<String>,
}

/// Mathematical view of the source fields.
pub ghost struct SourceMetadataView {
    pub kind: Option<Seq<char>>,
    pub event_id: Option<Seq<char>>,
    pub producer_id: Option<Seq<char>>,
    pub generation: Option<Seq<char>>,
    pub run_id: Option<Seq<char>>,
    pub seq: Option<Seq<char>>,
    pub harness_session_id: Option<Seq<char>>,
    pub exit_code: Option<Option<i64>>,
    pub reason: Option<Seq<char>>,
    pub turn_id: Option<Seq<char>>,
}

impl View for SourceMetadata {
    type V = SourceMetadataView;

    open spec fn view(&self) -> SourceMetadataView {
        SourceMetadataView {
            kind: opt_view(self.kind),
            event_id: opt_view(self.event_id),
            producer_id: opt_view(self.producer_id),
            generation: opt_view(self.generation),
            run_id: opt_view(self.run_id),
            seq: opt_view(self.seq),
            harness_session_id: opt_view(self.harness_session_id),
            exit_code: self.exit_code,
            reason: opt_view(self.reason),
            turn_id: opt_view(self.turn_id),
        }
    }
}

/// View of an optional source record.
pub open spec fn metadata_view(m: Option<SourceMetadata>) -> Option<SourceMetadataView> {
    match m {
        Some(x) => Some(x@),
        None => None,
    }
}

/// Whether the JSON document `bytes` has a value at the JSON pointer
/// `pointer`; false when `bytes` is no JSON document.
pub uninterp spec fn json_present_at(bytes: Seq<u8>, pointer: Seq<char>) -> bool;

/// The string at the JSON pointer `pointer` of the JSON document `bytes`;
/// `None` when `bytes` is no JSON document, nothing is there, or the value
/// there is no string.
pub uninterp spec fn json_text_at(bytes: Seq<u8>, pointer: Seq<char>) -> Option<Seq<char>>;

/// The integer at the JSON pointer `pointer` of the JSON document `bytes`;
/// `None` when `bytes` is no JSON document, nothing is there, or the value
/// there is no integer that fits an `i64`.
pub uninterp spec fn json_int_at(bytes: Seq<u8>, pointer: Seq<char>) -> Option<i64>;

/// Parses `bytes` with `serde_json::from_slice` into a `serde_json::Value` and
/// looks `pointer` up with `Value::pointer`. Claimed: whether a value is
/// there is `json_present_at` of the bytes and the pointer.
#[verifier::external_body]
fn present_at(bytes: &[u8], pointer: &str) -> (r: bool)
    ensures
        r == json_present_at(bytes@, pointer@),
{
    match serde_json::from_slice::<serde_json::Value>(bytes) {
        Ok(value) => value.pointer(pointer).is_some(),
        Err(_) => false,
    }
}

/// Parses `bytes` with `serde_json::from_slice`, looks `pointer` up with
/// `Value::pointer` and reads the value with `Value::as_str`. Claimed: the
/// result is `json_text_at` of the bytes and the pointer.
#[verifier::external_body]
fn text_at(bytes: &[u8], pointer: &str) -> (r: Option<String>)
    ensures
        opt_view(r) == json_text_at(bytes@, pointer@),
{
    let value: serde_json::Value = serde_json::from_slice(bytes).ok()?;
    value.pointer(pointer)?.as_str().map(String::from)
}

/// Parses `bytes` with `serde_json::from_slice`, looks `pointer` up with
/// `Value::pointer` and reads the value with `Value::as_i64`. Claimed: the
/// result is `json_int_at` of the bytes and the pointer.
#[verifier::external_body]
fn int_at(bytes: &[u8], pointer: &str) -> (r: Option<i64>)
    ensures
        r == json_int_at(bytes@, pointer@),
{
    let value: serde_json::Value = serde_json::from_slice(bytes).ok()?;
    value.pointer(pointer)?.as_i64()
}

/// The fields of an adapter source record that eligibility reads: all of
/// them inside its `metadata` member, none elsewhere. `None` when `bytes`
/// is no JSON document with a `metadata` member.
pub open spec fn source_fields(b: Seq<u8>) -> Option<SourceMetadataView> {
    if !json_present_at(b, "/metadata"@) {
        None
    } else {
        Some(
            SourceMetadataView {
                kind: json_text_at(b, "/metadata/kind"@),
                event_id: json_text_at(b, "/metadata/event_id"@),
                producer_id: json_text_at(b, "/metadata/producer_id"@),
                generation: json_text_at(b, "/metadata/generation"@),
                run_id: json_text_at(b, "/metadata/run_id"@),
                seq: json_text_at(b, "/metadata/seq"@),
                harness_session_id: json_text_at(b, "/metadata/payload/harness_session_id"@),
                exit_code: if json_present_at(b, "/metadata/payload/exit_code"@) {
                    Some(json_int_at(b, "/metadata/payload/exit_code"@))
                } else {
                    None
                },
                reason: json_text_at(b, "/metadata/payload/reason"@),
                turn_id: json_text_at(b, "/metadata/payload/turn_id"@),
            },
        )
    }
}

/// Reads the fields that eligibility uses from an adapter source record.
pub fn read_source(bytes: &[u8]) -> (r: Option<SourceMetadata>)
    ensures
        metadata_view(r) == source_fields(bytes@),
{
    if !present_at(bytes, "/metadata") {
        return None;
    }
    let exit_code = if present_at(bytes, "/metadata/payload/exit_code") {
        Some(int_at(bytes, "/metadata/payload/exit_code"))
    } else {
        None
    };
    Some(
        SourceMetadata {
            kind: text_at(bytes, "/metadata/kind"),
            event_id: text_at(bytes, "/metadata/event_id"),
            producer_id: text_at(bytes, "/metadata/producer_id"),
            generation: text_at(bytes, "/metadata/generation"),
            run_id: text_at(bytes, "/metadata/run_id"),
            seq: text_at(bytes, "/metadata/seq"),
            harness_session_id: text_at(bytes, "/metadata/payload/harness_session_id"),
            exit_code,
            reason: text_at(bytes, "/metadata/payload/reason"),
            turn_id: text_at(bytes, "/metadata/payload/turn_id"),
        },
    )
}

/// Two source records agree on everything inside their `metadata` member:
/// at every JSON pointer below `/metadata`, the same presence, string and
/// integer.
pub open spec fn same_metadata(a: Seq<u8>, b: Seq<u8>) -> bool {
    forall|q: Seq<char>|
        #![trigger json_present_at(a, q)]
        #![trigger json_text_at(a, q)]
        #![trigger json_int_at(a, q)]
        q.len() >= 9 && q.subrange(0, 9) == "/metadata"@ ==> json_present_at(a, q)
            == json_present_at(b, q) && json_text_at(a, q) == json_text_at(b, q) && json_int_at(a, q)
            == json_int_at(b, q)
}

/// The wire name of each event kind.
pub open spec fn kind_of_text(t: Seq<char>) -> Option<EventKind> {
    if t == "run.started"@ {
        Some(EventKind::RunStarted)
    } else if t == "run.exited"@ {
        Some(EventKind::RunExited)
    } else if t == "producer.health"@ {
        Some(EventKind::ProducerHealth)
    } else if t == "turn.started"@ {
        Some(EventKind::Turn(TurnEvent::Started))
    } else if t == "turn.awaiting_input"@ {
        Some(EventKind::Turn(TurnEvent::AwaitingInput))
    } else if t == "turn.awaiting_approval"@ {
        Some(EventKind::Turn(TurnEvent::AwaitingApproval))
    } else if t == "turn.completed"@ {
        Some(EventKind::Turn(TurnEvent::Completed))
    } else if t == "turn.failed"@ {
        Some(EventKind::Turn(TurnEvent::Failed))
    } else if t == "turn.interrupted"@ {
        Some(EventKind::Turn(TurnEvent::Interrupted))
    } else {
        None
    }
}

/// The wire name of a turn phase.
pub open spec fn phase_name(p: TurnEvent) -> Seq<char> {
    match p {
        TurnEvent::Started => "started"@,
        TurnEvent::AwaitingInput => "awaiting_input"@,
        TurnEvent::AwaitingApproval => "awaiting_approval"@,
        TurnEvent::Completed => "completed"@,
        TurnEvent::Failed => "failed"@,
        TurnEvent::Interrupted => "interrupted"@,
    }
}

/// The wire name an event kind is printed with: `run.started`,
/// `run.exited`, `producer.health`, and `turn.` followed by the phase name.
pub open spec fn kind_name(k: EventKind) -> Seq<char> {
    match k {
        EventKind::RunStarted => "run.started"@,
        EventKind::RunExited => "run.exited"@,
        EventKind::ProducerHealth => "producer.health"@,
        EventKind::Turn(p) => "turn."@ + phase_name(p),
    }
}

/// Law: reading a kind's printed name gives back that kind, so every turn
/// phase reads as itself (`turn.completed` as a completed turn), and only
/// printed names read as a kind.
pub proof fn lemma_kind_names_roundtrip(k: EventKind, t: Seq<char>)
    ensures
        kind_of_text(kind_name(k)) == Some(k),
        kind_of_text(t) matches Some(j) ==> t == kind_name(j),
{
    reveal_strlit("run.started");
    reveal_strlit("run.exited");
    reveal_strlit("producer.health");
    reveal_strlit("turn.");
    reveal_strlit("started");
    reveal_strlit("awaiting_input");
    reveal_strlit("awaiting_approval");
    reveal_strlit("completed");
    reveal_strlit("failed");
    reveal_strlit("interrupted");
    reveal_strlit("turn.started");
    reveal_strlit("turn.awaiting_input");
    reveal_strlit("turn.awaiting_approval");
    reveal_strlit("turn.completed");
    reveal_strlit("turn.failed");
    reveal_strlit("turn.interrupted");
    assert(("turn."@ + "started"@) =~= "turn.started"@);
    assert(("turn."@ + "awaiting_input"@) =~= "turn.awaiting_input"@);
    assert(("turn."@ + "awaiting_approval"@) =~= "turn.awaiting_approval"@);
    assert(("turn."@ + "completed"@) =~= "turn.completed"@);
    assert(("turn."@ + "failed"@) =~= "turn.failed"@);
    assert(("turn."@ + "interrupted"@) =~= "turn.interrupted"@);
    assert("run.started"@.len() != "run.exited"@.len());
    assert("run.started"@.len() != "producer.health"@.len());
    assert("run.started"@.len() != "turn.started"@.len());
    assert("run.started"@.len() != "turn.awaiting_input"@.len());
    assert("run.started"@.len() != "turn.awaiting_approval"@.len());
    assert("run.started"@.len() != "turn.completed"@.len());
    assert("run.started"@[0] != "turn.failed"@[0]);
    assert("run.started"@.len() != "turn.interrupted"@.len());
    assert("run.exited"@.len() != "producer.health"@.len());
    assert("run.exited"@.len() != "turn.started"@.len());
    assert("run.exited"@.len() != "turn.awaiting_input"@.len());
    assert("run.exited"@.len() != "turn.awaiting_approval"@.len());
    assert("run.exited"@.len() != "turn.completed"@.len());
    assert("run.exited"@.len() != "turn.failed"@.len());
    assert("run.exited"@.len() != "turn.interrupted"@.len());
    assert("producer.health"@.len() != "turn.started"@.len());
    assert("producer.health"@.len() != "turn.awaiting_input"@.len());
    assert("producer.health"@.len() != "turn.awaiting_approval"@.len());
    assert("producer.health"@.len() != "turn.completed"@.len());
    assert("producer.health"@.len() != "turn.failed"@.len());
    assert("producer.health"@.len() != "turn.interrupted"@.len());
    assert("turn.started"@.len() != "turn.awaiting_input"@.len());
    assert("turn.started"@.len() != "turn.awaiting_approval"@.len());
    assert("turn.started"@.len() != "turn.completed"@.len());
    assert("turn.started"@.len() != "turn.failed"@.len());
    assert("turn.started"@.len() != "turn.interrupted"@.len());
    assert("turn.awaiting_input"@.len() != "turn.awaiting_approval"@.len());
    assert("turn.awaiting_input"@.len() != "turn.completed"@.len());
    assert("turn.awaiting_input"@.len() != "turn.failed"@.len());
    assert("turn.awaiting_input"@.len() != "turn.interrupted"@.len());
    assert("turn.awaiting_approval"@.len() != "turn.completed"@.len());
    assert("turn.awaiting_approval"@.len() != "turn.failed"@.len());
    assert("turn.awaiting_approval"@.len() != "turn.interrupted"@.len());
    assert("turn.completed"@.len() != "turn.failed"@.len());
    assert("turn.completed"@.len() != "turn.interrupted"@.len());
    assert("turn.failed"@.len() != "turn.interrupted"@.len());
    match k {
        EventKind::Turn(p) => match p {
            TurnEvent::Started => assert(kind_name(k) == "turn.started"@),
            TurnEvent::AwaitingInput => assert(kind_name(k) == "turn.awaiting_input"@),
            TurnEvent::AwaitingApproval => assert(kind_name(k) == "turn.awaiting_approval"@),
            TurnEvent::Completed => assert(kind_name(k) == "turn.completed"@),
            TurnEvent::Failed => assert(kind_name(k) == "turn.failed"@),
            TurnEvent::Interrupted => assert(kind_name(k) == "turn.interrupted"@),
        },
        _ => {},
    }
}

/// Reads an event kind from its wire name.
pub fn kind_from_text(t: &str) -> (r: Option<EventKind>)
    ensures
        r == kind_of_text(t@),
{
    if str_eq(t, "run.started") {
        Some(EventKind::RunStarted)
    } else if str_eq(t, "run.exited") {
        Some(EventKind::RunExited)
    } else if str_eq(t, "producer.health") {
        Some(EventKind::ProducerHealth)
    } else if str_eq(t, "turn.started") {
        Some(EventKind::Turn(TurnEvent::Started))
    } else if str_eq(t, "turn.awaiting_input") {
        Some(EventKind::Turn(TurnEvent::AwaitingInput))
    } else if str_eq(t, "turn.awaiting_approval") {
        Some(EventKind::Turn(TurnEvent::AwaitingApproval))
    } else if str_eq(t, "turn.completed") {
        Some(EventKind::Turn(TurnEvent::Completed))
    } else if str_eq(t, "turn.failed") {
        Some(EventKind::Turn(TurnEvent::Failed))
    } else if str_eq(t, "turn.interrupted") {
        Some(EventKind::Turn(TurnEvent::Interrupted))
    } else {
        None
    }
}

/// The envelope fields are canonical identifiers and a decimal sequence
/// that fits a u64.
pub open spec fn identity_fields_valid(m: SourceMetadataView) -> bool {
    &&& m.event_id matches Some(t) && is_uuid(t)
    &&& m.producer_id matches Some(t) && is_uuid(t)
    &&& m.generation matches Some(t) && is_uuid(t)
    &&& m.run_id matches Some(t) && is_uuid(t)
    &&& m.seq matches Some(t) && (parsed_unsigned(t) matches Some(n) && n <= u64::MAX)
}

/// The payload an eligible event carries under `plan`, or `None` when the
/// source lacks a field the plan keeps.
pub open spec fn planned_payload(
    plan: PayloadPlan,
    kind: EventKind,
    m: SourceMetadataView,
    mapping: Mapping,
) -> Option<PayloadView> {
    match plan {
        PayloadPlan::RunStarted { keep_session } => Some(
            PayloadView::RunStarted {
                harness_session_id: if keep_session {
                    m.harness_session_id
                } else {
                    None
                },
            },
        ),
        PayloadPlan::ExitCode => match m.exit_code {
            Some(Some(code)) => Some(PayloadView::RunExited { exit_code: Some(code), reason: None }),
            _ => None,
        },
        PayloadPlan::ExitReason => Some(PayloadView::RunExited { exit_code: None, reason: m.reason }),
        PayloadPlan::ProducerHealth => Some(
            PayloadView::ProducerHealth { adapter_version: mapping.version@ },
        ),
        PayloadPlan::Turn { keep_reason } => match (kind, m.turn_id) {
            (EventKind::Turn(phase), Some(turn_id)) => Some(
                PayloadView::Turn {
                    phase,
                    turn_id,
                    reason: if keep_reason {
                        m.reason
                    } else {
                        None
                    },
                },
            ),
            _ => None,
        },
    }
}

/// The event an adapter record's metadata gives under `mapping`: a missing
/// record or an unknown kind is invalid, the payload plan may find the source
/// unproven, and the envelope must carry canonical identifiers, a sequence and
/// every field the plan keeps.
pub open spec fn eligible_event(m: Option<SourceMetadataView>, mapping: Mapping) -> Result<
    EventView,
    RecoveryError,
> {
    match m {
        None => Err(RecoveryError::InvalidRecord),
        Some(m) => match m.kind {
            None => Err(RecoveryError::InvalidRecord),
            Some(text) => match kind_of_text(text) {
                None => Err(RecoveryError::InvalidRecord),
                Some(kind) => match spec_payload_plan(kind, mapping, m.exit_code is Some) {
                    Err(e) => Err(e),
                    Ok(plan) => match planned_payload(plan, kind, m, mapping) {
                        Some(payload) => if identity_fields_valid(m) {
                            Ok(
                                EventView {
                                    event_id: m.event_id.unwrap(),
                                    producer_id: m.producer_id.unwrap(),
                                    generation: m.generation.unwrap(),
                                    run_id: m.run_id.unwrap(),
                                    seq: parsed_unsigned(m.seq.unwrap()).unwrap() as u64,
                                    event: payload,
                                },
                            )
                        } else {
                            Err(RecoveryError::InvalidRecord)
                        },
                        None => Err(RecoveryError::InvalidRecord),
                    },
                },
            },
        },
    }
}

/// `r` is the outcome `eligible_event` gives, with the harness and the
/// mapping's own version.
pub open spec fn eligible_outcome(
    r: Result<EligibleMetadata, RecoveryError>,
    m: Option<SourceMetadataView>,
    mapping: Mapping,
    harness: HarnessKind,
) -> bool {
    match r {
        Ok(x) => eligible_event(m, mapping) == Ok::<EventView, RecoveryError>(x@.0) && x@.1
            == harness && x@.2 == mapping.version@,
        Err(e) => eligible_event(m, mapping) == Err::<EventView, RecoveryError>(e),
    }
}

/// Law: only the `metadata` member of a source record decides what is
/// kept. Two records that agree on everything inside `metadata` read the
/// same fields and give the same eligible event under any mapping, whatever
/// else (prompts, responses, terminal text, errors, environment) they hold.
pub proof fn lemma_only_metadata_decides(a: Seq<u8>, b: Seq<u8>, mapping: Mapping)
    requires
        same_metadata(a, b),
    ensures
        source_fields(a) == source_fields(b),
        eligible_event(source_fields(a), mapping) == eligible_event(source_fields(b), mapping),
{
    reveal_strlit("/metadata");
    assert("/metadata"@.subrange(0, 9) =~= "/metadata"@);
    assert(json_present_at(a, "/metadata"@) == json_present_at(b, "/metadata"@));
    assert(json_text_at(a, "/metadata"@) == json_text_at(b, "/metadata"@));
    assert(json_int_at(a, "/metadata"@) == json_int_at(b, "/metadata"@));
    reveal_strlit("/metadata/kind");
    assert("/metadata/kind"@.subrange(0, 9) =~= "/metadata"@);
    assert(json_present_at(a, "/metadata/kind"@) == json_present_at(b, "/metadata/kind"@));
    assert(json_text_at(a, "/metadata/kind"@) == json_text_at(b, "/metadata/kind"@));
    assert(json_int_at(a, "/metadata/kind"@) == json_int_at(b, "/metadata/kind"@));
    reveal_strlit("/metadata/event_id");
    assert("/metadata/event_id"@.subrange(0, 9) =~= "/metadata"@);
    assert(json_present_at(a, "/metadata/event_id"@) == json_present_at(b, "/metadata/event_id"@));
    assert(json_text_at(a, "/metadata/event_id"@) == json_text_at(b, "/metadata/event_id"@));
    assert(json_int_at(a, "/metadata/event_id"@) == json_int_at(b, "/metadata/event_id"@));
    reveal_strlit("/metadata/producer_id");
    assert("/metadata/producer_id"@.subrange(0, 9) =~= "/metadata"@);
    assert(json_present_at(a, "/metadata/producer_id"@) == json_present_at(b, "/metadata/producer_id"@));
    assert(json_text_at(a, "/metadata/producer_id"@) == json_text_at(b, "/metadata/producer_id"@));
    assert(json_int_at(a, "/metadata/producer_id"@) == json_int_at(b, "/metadata/producer_id"@));
    reveal_strlit("/metadata/generation");
    assert("/metadata/generation"@.subrange(0, 9) =~= "/metadata"@);
    assert(json_present_at(a, "/metadata/generation"@) == json_present_at(b, "/metadata/generation"@));
    assert(json_text_at(a, "/metadata/generation"@) == json_text_at(b, "/metadata/generation"@));
    assert(json_int_at(a, "/metadata/generation"@) == json_int_at(b, "/metadata/generation"@));
    reveal_strlit("/metadata/run_id");
    assert("/metadata/run_id"@.subrange(0, 9) =~= "/metadata"@);
    assert(json_present_at(a, "/metadata/run_id"@) == json_present_at(b, "/metadata/run_id"@));
    assert(json_text_at(a, "/metadata/run_id"@) == json_text_at(b, "/metadata/run_id"@));
    assert(json_int_at(a, "/metadata/run_id"@) == json_int_at(b, "/metadata/run_id"@));
    reveal_strlit("/metadata/seq");
    assert("/metadata/seq"@.subrange(0, 9) =~= "/metadata"@);
    assert(json_present_at(a, "/metadata/seq"@) == json_present_at(b, "/metadata/seq"@));
    assert(json_text_at(a, "/metadata/seq"@) == json_text_at(b, "/metadata/seq"@));
    assert(json_int_at(a, "/metadata/seq"@) == json_int_at(b, "/metadata/seq"@));
    reveal_strlit("/metadata/payload/harness_session_id");
    assert("/metadata/payload/harness_session_id"@.subrange(0, 9) =~= "/metadata"@);
    assert(json_present_at(a, "/metadata/payload/harness_session_id"@) == json_present_at(b, "/metadata/payload/harness_session_id"@));
    assert(json_text_at(a, "/metadata/payload/harness_session_id"@) == json_text_at(b, "/metadata/payload/harness_session_id"@));
    assert(json_int_at(a, "/metadata/payload/harness_session_id"@) == json_int_at(b, "/metadata/payload/harness_session_id"@));
    reveal_strlit("/metadata/payload/exit_code");
    assert("/metadata/payload/exit_code"@.subrange(0, 9) =~= "/metadata"@);
    assert(json_present_at(a, "/metadata/payload/exit_code"@) == json_present_at(b, "/metadata/payload/exit_code"@));
    assert(json_text_at(a, "/metadata/payload/exit_code"@) == json_text_at(b, "/metadata/payload/exit_code"@));
    assert(json_int_at(a, "/metadata/payload/exit_code"@) == json_int_at(b, "/metadata/payload/exit_code"@));
    reveal_strlit("/metadata/payload/reason");
    assert("/metadata/payload/reason"@.subrange(0, 9) =~= "/metadata"@);
    assert(json_present_at(a, "/metadata/payload/reason"@) == json_present_at(b, "/metadata/payload/reason"@));
    assert(json_text_at(a, "/metadata/payload/reason"@) == json_text_at(b, "/metadata/payload/reason"@));
    assert(json_int_at(a, "/metadata/payload/reason"@) == json_int_at(b, "/metadata/payload/reason"@));
    reveal_strlit("/metadata/payload/turn_id");
    assert("/metadata/payload/turn_id"@.subrange(0, 9) =~= "/metadata"@);
    assert(json_present_at(a, "/metadata/payload/turn_id"@) == json_present_at(b, "/metadata/payload/turn_id"@));
    assert(json_text_at(a, "/metadata/payload/turn_id"@) == json_text_at(b, "/metadata/payload/turn_id"@));
    assert(json_int_at(a, "/metadata/payload/turn_id"@) == json_int_at(b, "/metadata/payload/turn_id"@));
}

/// Reads a canonical identifier field.
fn identifier(field: &Option<String>) -> (r: Option<String>)
    ensures
        match r {
            Some(t) => field.is_some() && opt_view(*field) == Some(t@) && is_uuid(t@),
            None => !(opt_view(*field) matches Some(t) && is_uuid(t)),
        },
{
    match field {
        Some(t) => if is_uuid_str(t.as_str()) {
            Some(t.clone())
        } else {
            None
        },
        None => None,
    }
}

fn clone_opt(o: &Option<String>) -> (r: Option<String>)
    ensures
        opt_view(r) == opt_view(*o),
{
    match o {
        Some(t) => Some(t.clone()),
        None => None,
    }
}

/// Builds the eligible event from an adapter record's metadata under the
/// reviewed `mapping` for `harness`.
pub fn eligible_from(metadata: Option<SourceMetadata>, mapping: &Mapping, harness: HarnessKind) -> (r:
    Result<EligibleMetadata, RecoveryError>)
    ensures
        eligible_outcome(r, metadata_view(metadata), *mapping, harness),
{
    let m = match metadata {
        Some(m) => m,
        None => return Err(RecoveryError::InvalidRecord),
    };
    let kind = match &m.kind {
        Some(t) => match kind_from_text(t.as_str()) {
            Some(k) => k,
            None => return Err(RecoveryError::InvalidRecord),
        },
        None => return Err(RecoveryError::InvalidRecord),
    };
    let plan = payload_plan(kind, mapping, m.exit_code.is_some())?;
    let payload = match plan {
        PayloadPlan::RunStarted { keep_session } => EventPayload::RunStarted {
            harness_session_id: if keep_session {
                clone_opt(&m.harness_session_id)
            } else {
                None
            },
        },
        PayloadPlan::ExitCode => match m.exit_code {
            Some(Some(code)) => EventPayload::RunExited { exit_code: Some(code), reason: None },
            _ => return Err(RecoveryError::InvalidRecord),
        },
        PayloadPlan::ExitReason => EventPayload::RunExited {
            exit_code: None,
            reason: clone_opt(&m.reason),
        },
        PayloadPlan::ProducerHealth => EventPayload::ProducerHealth {
            adapter_version: mapping.version.clone(),
        },
        PayloadPlan::Turn { keep_reason } => match (kind, &m.turn_id) {
            (EventKind::Turn(phase), Some(turn_id)) => EventPayload::Turn {
                phase,
                turn_id: turn_id.clone(),
                reason: if keep_reason {
                    clone_opt(&m.reason)
                } else {
                    None
                },
            },
            _ => return Err(RecoveryError::InvalidRecord),
        },
    };
    let event_id = identifier(&m.event_id);
    let producer_id = identifier(&m.producer_id);
    let generation = identifier(&m.generation);
    let run_id = identifier(&m.run_id);
    let seq = match &m.seq {
        Some(t) => parse_u64(t.as_str()),
        None => None,
    };
    match (event_id, producer_id, generation, run_id, seq) {
        (Some(event_id), Some(producer_id), Some(generation), Some(run_id), Some(seq)) => {
            let event = EventEnvelope { event_id, producer_id, generation, run_id, seq, event: payload };
            Ok(EligibleMetadata::new(event, harness, mapping.version.clone()))
        },
        _ => Err(RecoveryError::InvalidRecord),
    }
}

/// Checks an adapter record's bounds and provenance before anything is built
/// from it: out-of-bounds input, then an adapter without a reviewed mapping,
/// are refused; otherwise the record's metadata decides under the first
/// mapping for its harness and version.
pub fn eligible(input: &AdapterRecord, reviewed: &Vec<Mapping>) -> (r: Result<
    EligibleMetadata,
    RecoveryError,
>)
    ensures
        !input_within_bounds(*input) ==> r is Err && r->Err_0 == RecoveryError::BoundExceeded,
        input_within_bounds(*input) && (forall|j: int|
            0 <= j < reviewed@.len() ==> !(#[trigger] reviewed@[j].harness == input.harness
                && reviewed@[j].version@ == input.version@)) ==> r is Err && r->Err_0
            == RecoveryError::UnsupportedAdapter,
        forall|i: int|
            input_within_bounds(*input) && first_mapping(reviewed@, input.harness, input.version@, i)
                ==> eligible_outcome(
                r,
                source_fields(input.source@),
                #[trigger] reviewed@[i],
                input.harness,
            ),
{
    let i = reviewed_input(input, reviewed)?;
    proof {
        assert forall|k: int|
            input_within_bounds(*input) && first_mapping(reviewed@, input.harness, input.version@, k)
                implies k == i by {
            if k < i {
                assert(!(reviewed@[k].harness == input.harness && reviewed@[k].version@
                    == input.version@));
            } else if k > i {
                assert(!(reviewed@[i as int].harness == input.harness && reviewed@[i as int].version@
                    == input.version@));
            }
        }
    }
    let metadata = read_source(input.source);
    eligible_from(metadata, &reviewed[i], input.harness)
}

} // verus!
