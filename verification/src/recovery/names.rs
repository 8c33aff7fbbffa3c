//! Generated spool file names: the only names eligible for automatic age
//! classification. Printing and parsing are exact inverses.
use crate::decimal::{all_digits, dec_fixed, digits_value, lemma_u64_dec20};
use crate::protocol::{is_uuid, uuid_at, EventEnvelope, EventView};
use vstd::prelude::*;

verus! {

/// Spool retention before a spool file counts as expired, in milliseconds.
pub const SPOOL_TTL_MS: u64 = 86400000;

/// The identity of one spooled event as encoded in its file name.
#[derive(Debug)]
pub struct SpoolName {
    pub producer: String,
    pub generation: String,
    pub event: String,
    pub sequence: u64,
    pub observed_ms: u64,
    pub partial: bool,
}

/// Mathematical view of a spool name.
pub ghost struct SpoolNameView {
    pub producer: Seq<char>,
    pub generation: Seq<char>,
    pub event: Seq<char>,
    pub sequence: u64,
    pub observed_ms: u64,
    pub partial: bool,
}

impl View for SpoolName {
    type V = SpoolNameView;

    open spec fn view(&self) -> SpoolNameView {
        SpoolNameView {
            producer: self.producer@,
            generation: self.generation@,
            event: self.event@,
            sequence: self.sequence,
            observed_ms: self.observed_ms,
            partial: self.partial,
        }
    }
}

/// All three identifiers are canonical.
pub open spec fn spool_name_wf(n: SpoolNameView) -> bool {
    is_uuid(n.producer) && is_uuid(n.generation) && is_uuid(n.event)
}

pub open spec fn spool_prefix() -> Seq<char> {
    seq!['s', 'p', 'o', 'o', 'l', '-']
}

pub open spec fn part_suffix() -> Seq<char> {
    seq!['.', 'p', 'a', 'r', 't']
}

pub open spec fn json_suffix() -> Seq<char> {
    seq!['.', 'j', 's', 'o', 'n']
}

/// `spool-{producer}_{generation}_{sequence:020}_{event}_{observed:020}.{part|json}`
pub open spec fn spool_filename(n: SpoolNameView) -> Seq<char> {
    spool_prefix() + n.producer + seq!['_'] + n.generation + seq!['_'] + dec_fixed(
        n.sequence as nat,
        20,
    ) + seq!['_'] + n.event + seq!['_'] + dec_fixed(n.observed_ms as nat, 20) + if n.partial {
        part_suffix()
    } else {
        json_suffix()
    }
}

/// The shape every generated spool file name has.
pub open spec fn spool_shape(s: Seq<char>) -> bool {
    &&& s.len() == 163
    &&& s.subrange(0, 6) == spool_prefix()
    &&& is_uuid(s.subrange(6, 42))
    &&& s[42] == '_'
    &&& is_uuid(s.subrange(43, 79))
    &&& s[79] == '_'
    &&& all_digits(s.subrange(80, 100))
    &&& digits_value(s.subrange(80, 100)) <= u64::MAX
    &&& s[100] == '_'
    &&& is_uuid(s.subrange(101, 137))
    &&& s[137] == '_'
    &&& all_digits(s.subrange(138, 158))
    &&& digits_value(s.subrange(138, 158)) <= u64::MAX
    &&& (s.subrange(158, 163) == part_suffix() || s.subrange(158, 163) == json_suffix())
}

/// The name that a well-shaped file name spells.
pub open spec fn spool_fields(s: Seq<char>) -> SpoolNameView {
    SpoolNameView {
        producer: s.subrange(6, 42),
        generation: s.subrange(43, 79),
        event: s.subrange(101, 137),
        sequence: digits_value(s.subrange(80, 100)) as u64,
        observed_ms: digits_value(s.subrange(138, 158)) as u64,
        partial: s.subrange(158, 163) == part_suffix(),
    }
}

proof fn lemma_filename_layout(n: SpoolNameView)
    requires
        spool_name_wf(n),
    ensures
        spool_shape(spool_filename(n)),
        spool_fields(spool_filename(n)) == n,
{
    let s = spool_filename(n);
    lemma_u64_dec20(n.sequence);
    lemma_u64_dec20(n.observed_ms);
    let tail = if n.partial {
        part_suffix()
    } else {
        json_suffix()
    };
    assert(s.len() == 163);
    assert(s.subrange(0, 6) =~= spool_prefix());
    assert(s.subrange(6, 42) =~= n.producer);
    assert(s.subrange(43, 79) =~= n.generation);
    assert(s.subrange(80, 100) =~= dec_fixed(n.sequence as nat, 20));
    assert(s.subrange(101, 137) =~= n.event);
    assert(s.subrange(138, 158) =~= dec_fixed(n.observed_ms as nat, 20));
    assert(s.subrange(158, 163) =~= tail);
    assert(s[42] == '_');
    assert(s[79] == '_');
    assert(s[100] == '_');
    assert(s[137] == '_');
    assert(part_suffix() != json_suffix()) by {
        assert(part_suffix()[1] != json_suffix()[1]);
    }
}

proof fn lemma_shape_spells_fields(s: Seq<char>)
    requires
        spool_shape(s),
    ensures
        spool_name_wf(spool_fields(s)),
        spool_filename(spool_fields(s)) == s,
{
    let n = spool_fields(s);
    crate::decimal::lemma_dec_fixed_of_value(s.subrange(80, 100));
    crate::decimal::lemma_dec_fixed_of_value(s.subrange(138, 158));
    assert(dec_fixed(n.sequence as nat, 20) == s.subrange(80, 100));
    assert(dec_fixed(n.observed_ms as nat, 20) == s.subrange(138, 158));
    let tail = if n.partial {
        part_suffix()
    } else {
        json_suffix()
    };
    assert(tail == s.subrange(158, 163));
    assert(spool_filename(n) =~= s);
}

/// Law: distinct well-formed spool names have distinct file names.
pub proof fn lemma_spool_filename_injective(a: SpoolNameView, b: SpoolNameView)
    requires
        spool_name_wf(a),
        spool_name_wf(b),
        spool_filename(a) == spool_filename(b),
    ensures
        a == b,
{
    lemma_filename_layout(a);
    lemma_filename_layout(b);
}

/// Law: a parsed name prints back to exactly the text it was read from, and
/// every well-formed name is read back from its printed text.
pub proof fn lemma_spool_roundtrip(n: SpoolNameView, s: Seq<char>)
    ensures
        spool_name_wf(n) ==> spool_shape(spool_filename(n)) && spool_fields(spool_filename(n))
            == n,
        spool_shape(s) ==> spool_name_wf(spool_fields(s)) && spool_filename(spool_fields(s))
            == s,
{
    if spool_name_wf(n) {
        lemma_filename_layout(n);
    }
    if spool_shape(s) {
        lemma_shape_spells_fields(s);
    }
}

/// Law: within one producer generation, spool file names order by
/// sequence: the sequence is printed zero padded to 20 digits and comes
/// before every field that may differ, so a name-sorted inventory lists a
/// generation's records in sequence order.
pub proof fn lemma_filenames_follow_sequence(a: SpoolNameView, b: SpoolNameView)
    requires
        a.producer == b.producer,
        a.generation == b.generation,
        a.sequence < b.sequence,
    ensures
        crate::text::seq_lt(spool_filename(a), spool_filename(b)),
{
    let p = spool_prefix() + a.producer + seq!['_'] + a.generation + seq!['_'];
    let da = dec_fixed(a.sequence as nat, 20);
    let db = dec_fixed(b.sequence as nat, 20);
    let tail = |n: SpoolNameView|
        seq!['_'] + n.event + seq!['_'] + dec_fixed(n.observed_ms as nat, 20) + if n.partial {
            part_suffix()
        } else {
            json_suffix()
        };
    crate::decimal::lemma_pow10_20();
    crate::decimal::lemma_dec_fixed_ordered(a.sequence as nat, b.sequence as nat, 20);
    crate::decimal::lemma_dec_fixed_shape(a.sequence as nat, 20);
    crate::decimal::lemma_dec_fixed_shape(b.sequence as nat, 20);
    assert(spool_filename(a) =~= p + (da + tail(a)));
    assert(spool_filename(b) =~= p + (db + tail(b)));
    crate::text::lemma_seq_lt_same_length_prefix(da, db, tail(a), tail(b));
    crate::text::lemma_seq_lt_common_prefix(p, da + tail(a), db + tail(b));
}

/// The same producer, generation and event identifiers.
pub open spec fn same_identity(n: SpoolNameView, e: EventView) -> bool {
    n.producer == e.producer_id && n.generation == e.generation && n.event == e.event_id
}

/// Age at or beyond the spool retention, never for timestamps in the future.
pub open spec fn spool_expired(n: SpoolNameView, now_ms: u64) -> bool {
    now_ms >= n.observed_ms && now_ms - n.observed_ms >= SPOOL_TTL_MS
}

impl SpoolName {
    /// The name for an event observed at `observed_ms`.
    pub fn new(event: &EventEnvelope, observed_ms: u64, partial: bool) -> (r: Self)
        ensures
            same_identity(r@, event@),
            r.sequence == event.seq,
            r.observed_ms == observed_ms,
            r.partial == partial,
    {
        SpoolName {
            producer: event.producer_id.clone(),
            generation: event.generation.clone(),
            event: event.event_id.clone(),
            sequence: event.seq,
            observed_ms,
            partial,
        }
    }

    /// Reads a generated spool file name; any other name is `None`.
    pub fn parse(name: &str) -> (r: Option<Self>)
        ensures
            match r {
                Some(n) => spool_name_wf(n@) && spool_filename(n@) == name@,
                None => forall|n: SpoolNameView| #[trigger]
                    spool_name_wf(n) ==> spool_filename(n) != name@,
            },
    {
        let cs = crate::text::chars_of(name);
        let shaped = Self::shaped(&cs);
        if !shaped {
            proof {
                assert forall|n: SpoolNameView| #[trigger]
                    spool_name_wf(n) implies spool_filename(n) != name@ by {
                    lemma_filename_layout(n);
                }
            }
            return None;
        }
        let sequence = crate::decimal::u64_at(&cs, 80, 20);
        let observed = crate::decimal::u64_at(&cs, 138, 20);
        match (sequence, observed) {
            (Some(sequence), Some(observed_ms)) => {
                let n = SpoolName {
                    producer: crate::text::string_from(&cs, 6, 42),
                    generation: crate::text::string_from(&cs, 43, 79),
                    event: crate::text::string_from(&cs, 101, 137),
                    sequence,
                    observed_ms,
                    partial: cs[159] == 'p',
                };
                proof {
                    let s = cs@;
                    assert(n.partial == (s.subrange(158, 163) == part_suffix())) by {
                        if s.subrange(158, 163) == json_suffix() {
                            assert(s[159] == s.subrange(158, 163)[1]);
                        }
                        if s[159] == 'p' {
                            assert(s.subrange(158, 163)[1] == 'p');
                            assert(json_suffix()[1] == 'j');
                        }
                    }
                    assert(n@ == spool_fields(s));
                    lemma_shape_spells_fields(s);
                }
                Some(n)
            },
            _ => {
                proof {
                    assert(false);
                }
                None
            },
        }
    }

    /// Checks the fixed layout of a generated spool file name.
    fn shaped(cs: &Vec<char>) -> (r: bool)
        ensures
            r == spool_shape(cs@),
    {
        if cs.len() != 163 {
            return false;
        }
        let s = Ghost(cs@);
        let prefix = cs[0] == 's' && cs[1] == 'p' && cs[2] == 'o' && cs[3] == 'o' && cs[4] == 'l'
            && cs[5] == '-';
        assert(prefix == (s@.subrange(0, 6) == spool_prefix())) by {
            if s@.subrange(0, 6) == spool_prefix() {
                assert(s@.subrange(0, 6)[2] == s@[2]);
            }
            if prefix {
                assert(s@.subrange(0, 6) =~= spool_prefix());
            }
        }
        let part = cs[158] == '.' && cs[159] == 'p' && cs[160] == 'a' && cs[161] == 'r' && cs[162]
            == 't';
        let json = cs[158] == '.' && cs[159] == 'j' && cs[160] == 's' && cs[161] == 'o' && cs[162]
            == 'n';
        assert(part == (s@.subrange(158, 163) == part_suffix())) by {
            if s@.subrange(158, 163) == part_suffix() {
                assert(s@.subrange(158, 163)[1] == s@[159]);
            }
            if part {
                assert(s@.subrange(158, 163) =~= part_suffix());
            }
        }
        assert(json == (s@.subrange(158, 163) == json_suffix())) by {
            if s@.subrange(158, 163) == json_suffix() {
                assert(s@.subrange(158, 163)[1] == s@[159]);
            }
            if json {
                assert(s@.subrange(158, 163) =~= json_suffix());
            }
        }
        let sequence = crate::decimal::u64_at(cs, 80, 20);
        let observed = crate::decimal::u64_at(cs, 138, 20);
        prefix && uuid_at(cs, 6) && cs[42] == '_' && uuid_at(cs, 43) && cs[79] == '_'
            && sequence.is_some() && cs[100] == '_' && uuid_at(cs, 101) && cs[137] == '_'
            && observed.is_some() && (part || json)
    }

    /// The file name of this spool entry.
    pub fn filename(&self) -> (r: String)
        ensures
            r@ == spool_filename(self@),
    {
        let mut out = String::new();
        proof {
            reveal_strlit("spool-");
        }
        out.append("spool-");
        out.append(self.producer.as_str());
        crate::text::push_char(&mut out, '_');
        out.append(self.generation.as_str());
        crate::text::push_char(&mut out, '_');
        crate::decimal::push_dec_fixed(&mut out, self.sequence, 20);
        crate::text::push_char(&mut out, '_');
        out.append(self.event.as_str());
        crate::text::push_char(&mut out, '_');
        crate::decimal::push_dec_fixed(&mut out, self.observed_ms, 20);
        if self.partial {
            proof {
                reveal_strlit(".part");
            }
            out.append(".part");
        } else {
            proof {
                reveal_strlit(".json");
            }
            out.append(".json");
        }
        assert(out@ =~= spool_filename(self@));
        out
    }

    /// Same identity and the same sequence number.
    pub fn matches(&self, event: &EventEnvelope) -> (r: bool)
        ensures
            r == (same_identity(self@, event@) && self.sequence == event.seq),
    {
        self.same_event_identity(event) && self.sequence == event.seq
    }

    /// Same producer, generation and event identifiers.
    pub fn same_event_identity(&self, event: &EventEnvelope) -> (r: bool)
        ensures
            r == same_identity(self@, event@),
    {
        self.producer == event.producer_id && self.generation == event.generation && self.event
            == event.event_id
    }

    /// Whether the entry has reached the spool retention at `now_ms`.
    pub fn expired(&self, now_ms: u64) -> (r: bool)
        ensures
            r == spool_expired(self@, now_ms),
    {
        match now_ms.checked_sub(self.observed_ms) {
            Some(age) => age >= SPOOL_TTL_MS,
            None => false,
        }
    }

    /// A field-by-field copy.
    pub fn duplicate(&self) -> (r: Self)
        ensures
            r@ == self@,
    {
        SpoolName {
            producer: self.producer.clone(),
            generation: self.generation.clone(),
            event: self.event.clone(),
            sequence: self.sequence,
            observed_ms: self.observed_ms,
            partial: self.partial,
        }
    }
}

} // verus!
