//! Spool quota, replay selection and the checks a spooled record passes.
use super::files::{counted, counted_files, Entry, EntryView};
use super::names::{same_identity, spool_expired, SpoolName};
use super::provenance::{replay_allowed, validate_replay, Mapping};
use super::{
    RecoveryError, MAX_PRODUCER_BYTES, MAX_PRODUCER_FILES, MAX_RECORD_BYTES, MAX_REPLAY_BATCH,
    MAX_SPOOL_BYTES, MAX_SPOOL_FILES,
};
use crate::protocol::{EventEnvelope, EventView, HarnessKind};
use vstd::prelude::*;

verus! {

/// The only spool record format.
pub const RECORD_FORMAT: u8 = 1;

/// Bytes of the counted entries.
pub open spec fn counted_bytes(s: Seq<EntryView>) -> nat
    decreases s.len(),
{
    if s.len() == 0 {
        0
    } else {
        counted_bytes(s.drop_last()) + if counted(s.last()) {
            s.last().identity.bytes as nat
        } else {
            0nat
        }
    }
}

/// A counted spool entry of `producer`.
pub open spec fn of_producer(e: EntryView, producer: Seq<char>) -> bool {
    &&& counted(e)
    &&& e.spool matches Some(n) && n.producer == producer
}

/// The entry's spool name carries the identity of `event`.
pub open spec fn carries(e: EntryView, event: EventView) -> bool {
    e.spool matches Some(n) && same_identity(n, event)
}

/// Bytes of the counted entries of `producer`.
pub open spec fn producer_bytes(s: Seq<EntryView>, producer: Seq<char>) -> nat
    decreases s.len(),
{
    if s.len() == 0 {
        0
    } else {
        producer_bytes(s.drop_last(), producer) + if of_producer(s.last(), producer) {
            s.last().identity.bytes as nat
        } else {
            0nat
        }
    }
}

/// Number of counted entries of `producer`.
pub open spec fn producer_files(s: Seq<EntryView>, producer: Seq<char>) -> nat
    decreases s.len(),
{
    if s.len() == 0 {
        0
    } else {
        producer_files(s.drop_last(), producer) + if of_producer(s.last(), producer) {
            1nat
        } else {
            0nat
        }
    }
}

/// One more record of `additional` bytes keeps every spool bound: the record
/// bound, total and per-producer bytes, total and per-producer files.
pub open spec fn within_budget(s: Seq<EntryView>, producer: Seq<char>, additional: nat) -> bool {
    &&& additional <= MAX_RECORD_BYTES
    &&& additional + counted_bytes(s) <= MAX_SPOOL_BYTES
    &&& additional + producer_bytes(s, producer) <= MAX_PRODUCER_BYTES
    &&& 1 + counted_files(s) <= MAX_SPOOL_FILES
    &&& 1 + producer_files(s, producer) <= MAX_PRODUCER_FILES
}

pub open spec fn views(entries: Seq<Entry>) -> Seq<EntryView> {
    entries.map_values(|e: Entry| e@)
}

/// Whether a new record of `additional` bytes for `event` fits the spool.
pub fn budget(entries: &Vec<Entry>, event: &EventEnvelope, additional: usize) -> (r: Result<
    (),
    RecoveryError,
>)
    ensures
        r == if within_budget(views(entries@), event.producer_id@, additional as nat) {
            Ok::<(), RecoveryError>(())
        } else {
            Err(RecoveryError::BoundExceeded)
        },
{
    if additional > MAX_RECORD_BYTES {
        return Err(RecoveryError::BoundExceeded);
    }
    let ghost s = views(entries@);
    let ghost p = event.producer_id@;
    let mut total: u64 = additional as u64;
    let mut producer: u64 = additional as u64;
    let mut files: u128 = 1;
    let mut producer_count: u128 = 1;
    let mut i: usize = 0;
    while i < entries.len()
        invariant
            i <= entries@.len(),
            s == views(entries@),
            p == event.producer_id@,
            additional <= MAX_RECORD_BYTES,
            total as nat == min_u64(additional as nat + counted_bytes(s.take(i as int))),
            producer as nat == min_u64(additional as nat + producer_bytes(s.take(i as int), p)),
            files == 1 + counted_files(s.take(i as int)),
            producer_count == 1 + producer_files(s.take(i as int), p),
            producer_files(s.take(i as int), p) <= counted_files(s.take(i as int)),
            counted_files(s.take(i as int)) <= i,
            i <= usize::MAX,
        decreases entries.len() - i,
    {
        let entry = &entries[i];
        proof {
            assert(s.take(i + 1).drop_last() =~= s.take(i as int));
            assert(s.take(i + 1).last() == entry@);
        }
        let log = super::logs::is_log(entry.name.as_str());
        let lock = super::files::is_lock(entry.name.as_str());
        if !lock && !log {
            total = total.saturating_add(entry.bytes());
            files = files + 1;
            let mine = match &entry.spool {
                Some(name) => name.producer == event.producer_id,
                None => false,
            };
            if mine {
                producer = producer.saturating_add(entry.bytes());
                producer_count = producer_count + 1;
            }
        }
        i = i + 1;
    }
    proof {
        assert(s.take(entries@.len() as int) =~= s);
    }
    if total > MAX_SPOOL_BYTES || producer > MAX_PRODUCER_BYTES || files > MAX_SPOOL_FILES as u128
        || producer_count > MAX_PRODUCER_FILES as u128 {
        return Err(RecoveryError::BoundExceeded);
    }
    Ok(())
}

/// A sum clamped at `u64::MAX`, as saturating addition computes it.
pub open spec fn min_u64(n: nat) -> nat {
    if n <= u64::MAX {
        n
    } else {
        u64::MAX as nat
    }
}

/// A complete, unexpired spool entry that replay reads.
pub open spec fn replayable(e: EntryView, now_ms: u64) -> bool {
    e.spool matches Some(n) && !n.partial && !spool_expired(n, now_ms)
}

/// Indices of the replayable entries among the first `n`, in order.
pub open spec fn replayable_indices(s: Seq<EntryView>, now_ms: u64, n: int) -> Seq<int>
    decreases n,
{
    if n <= 0 {
        Seq::empty()
    } else {
        let earlier = replayable_indices(s, now_ms, n - 1);
        if replayable(s[n - 1], now_ms) {
            earlier.push(n - 1)
        } else {
            earlier
        }
    }
}

proof fn lemma_replayable_prefix(s: Seq<EntryView>, now_ms: u64, a: int, b: int)
    requires
        0 <= a <= b,
    ensures
        replayable_indices(s, now_ms, a).len() <= replayable_indices(s, now_ms, b).len(),
        replayable_indices(s, now_ms, a) == replayable_indices(s, now_ms, b).take(
            replayable_indices(s, now_ms, a).len() as int,
        ),
    decreases b - a,
{
    if a < b {
        lemma_replayable_prefix(s, now_ms, a, b - 1);
        let x = replayable_indices(s, now_ms, a);
        let y = replayable_indices(s, now_ms, b - 1);
        let z = replayable_indices(s, now_ms, b);
        assert(z.take(x.len() as int) =~= y.take(x.len() as int));
    }
}

/// The first `MAX_REPLAY_BATCH` replayable entries, by position in the
/// inventory (which is ordered by name).
pub fn replay_selection(entries: &Vec<Entry>, now_ms: u64) -> (r: Vec<usize>)
    ensures
        r@.map_values(|i: usize| i as int) == ({
            let all = replayable_indices(views(entries@), now_ms, entries@.len() as int);
            if all.len() <= MAX_REPLAY_BATCH {
                all
            } else {
                all.take(MAX_REPLAY_BATCH as int)
            }
        }),
{
    let ghost s = views(entries@);
    let mut selected: Vec<usize> = Vec::new();
    let mut i: usize = 0;
    while i < entries.len()
        invariant
            i <= entries@.len(),
            s == views(entries@),
            selected@.map_values(|k: usize| k as int) == replayable_indices(s, now_ms, i as int),
            selected@.len() <= MAX_REPLAY_BATCH,
        decreases entries.len() - i,
    {
        if selected.len() == MAX_REPLAY_BATCH {
            proof {
                lemma_replayable_prefix(s, now_ms, i as int, entries@.len() as int);
            }
            return selected;
        }
        let keep = match &entries[i].spool {
            Some(name) => !name.partial && !name.expired(now_ms),
            None => false,
        };
        assert(keep == replayable(s[i as int], now_ms));
        if keep {
            let ghost before = selected@;
            selected.push(i);
            assert(selected@.map_values(|k: usize| k as int) =~= before.map_values(
                |k: usize| k as int,
            ).push(i as int));
        }
        i = i + 1;
    }
    selected
}

/// The first entry whose spool name carries the identity of `event`.
pub fn find_same_identity(entries: &Vec<Entry>, event: &EventEnvelope) -> (r: Option<usize>)
    ensures
        match r {
            Some(i) => i < entries@.len() && carries(entries@[i as int]@, event@) && forall|j: int|
                0 <= j < i ==> !carries(#[trigger] entries@[j]@, event@),
            None => forall|j: int| 0 <= j < entries@.len() ==> !carries(#[trigger] entries@[j]@, event@),
        },
{
    let mut i: usize = 0;
    while i < entries.len()
        invariant
            i <= entries@.len(),
            forall|j: int| 0 <= j < i ==> !carries(#[trigger] entries@[j]@, event@),
        decreases entries.len() - i,
    {
        let hit = match &entries[i].spool {
            Some(name) => name.same_event_identity(event),
            None => false,
        };
        if hit {
            return Some(i);
        }
        i = i + 1;
    }
    None
}

/// The spool name of an entry that replay decodes: complete files only.
pub fn replay_name(entry: &Entry) -> (r: Result<SpoolName, RecoveryError>)
    ensures
        match r {
            Ok(n) => entry@.spool == Some(n@) && !n.partial,
            Err(e) => e == RecoveryError::InvalidRecord && !(entry@.spool matches Some(n)
                && !n.partial),
        },
{
    match &entry.spool {
        Some(name) => if name.partial {
            Err(RecoveryError::InvalidRecord)
        } else {
            Ok(name.duplicate())
        },
        None => Err(RecoveryError::InvalidRecord),
    }
}

/// A stored record must have the current format and its name's observation time.
pub fn check_record_header(name: &SpoolName, format: u8, observed_ms: u64) -> (r: Result<
    (),
    RecoveryError,
>)
    ensures
        r == if format != RECORD_FORMAT || observed_ms != name.observed_ms {
            Err::<(), RecoveryError>(RecoveryError::InvalidRecord)
        } else {
            Ok(())
        },
{
    if format != RECORD_FORMAT || observed_ms != name.observed_ms {
        Err(RecoveryError::InvalidRecord)
    } else {
        Ok(())
    }
}

/// A decoded event must still be proven by its mapping and match its file name exactly.
pub fn check_replayed_event(name: &SpoolName, event: &EventEnvelope, mapping: &Mapping) -> (r:
    Result<(), RecoveryError>)
    ensures
        r == if !replay_allowed(event.event@, *mapping) {
            Err::<(), RecoveryError>(RecoveryError::UnprovenSource)
        } else if !(same_identity(name@, event@) && name.sequence == event.seq) {
            Err(RecoveryError::InvalidRecord)
        } else {
            Ok(())
        },
{
    validate_replay(event, mapping)?;
    if !name.matches(event) {
        return Err(RecoveryError::InvalidRecord);
    }
    Ok(())
}

/// A staged record that already exists must be the same event.
pub fn check_existing(existing: &EventEnvelope, event: &EventEnvelope) -> (r: Result<
    (),
    RecoveryError,
>)
    ensures
        r == if existing@ == event@ {
            Ok::<(), RecoveryError>(())
        } else {
            Err(RecoveryError::InvalidRecord)
        },
{
    if existing.same(event) {
        Ok(())
    } else {
        Err(RecoveryError::InvalidRecord)
    }
}

/// A staged event as it was accepted, with the identity of its owned spool entry; its generation is never retagged.
pub struct ReplayEntry {
    event: EventEnvelope,
    harness: HarnessKind,
    held: Entry,
}

impl View for ReplayEntry {
    type V = (EventView, HarnessKind, EntryView);

    closed spec fn view(&self) -> Self::V {
        (self.event@, self.harness, self.held@)
    }
}

impl ReplayEntry {
    /// A replayed event read from `held`.
    pub fn new(event: EventEnvelope, harness: HarnessKind, held: Entry) -> (r: Self)
        ensures
            r@ == (event@, harness, held@),
    {
        ReplayEntry { event, harness, held }
    }

    /// The event as it was staged.
    pub fn event(&self) -> (r: &EventEnvelope)
        ensures
            r@ == self@.0,
    {
        &self.event
    }

    /// The harness that produced the event.
    pub fn harness(&self) -> (r: HarnessKind)
        ensures
            r == self@.1,
    {
        self.harness
    }

    /// The spool entry the event was read from.
    pub fn held(&self) -> (r: &Entry)
        ensures
            r@ == self@.2,
    {
        &self.held
    }

    /// Disposal after a durable commit: the committed event must equal the
    /// replayed one in every field.
    pub fn confirm(&self, durable: &EventEnvelope) -> (r: Result<(), RecoveryError>)
        ensures
            r == if self@.0 == durable@ {
                Ok::<(), RecoveryError>(())
            } else {
                Err(RecoveryError::InvalidRecord)
            },
    {
        check_existing(durable, &self.event)
    }
}

/// Proof only of an owned metadata spool entry, never of SQLite commit or ACK.
pub struct SpoolReceipt {
    entry: ReplayEntry,
}

impl View for SpoolReceipt {
    type V = (EventView, HarnessKind, EntryView);

    closed spec fn view(&self) -> Self::V {
        self.entry@
    }
}

impl SpoolReceipt {
    /// The receipt for a staged or already present spool entry.
    pub fn new(entry: ReplayEntry) -> (r: Self)
        ensures
            r@ == entry@,
    {
        SpoolReceipt { entry }
    }

    /// The staged event.
    pub fn event(&self) -> (r: &EventEnvelope)
        ensures
            r@ == self@.0,
    {
        self.entry.event()
    }
}

} // verus!
