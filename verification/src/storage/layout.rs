//! The table layouts storage recognizes, byte for byte: the legacy layout
//! of the schema check, and the current layout with its added columns.
use vstd::prelude::*;
use vstd::string::StringExecFns;

verus! {

/// The recognized statement of the `metadata` table.
pub const METADATA_TABLE: &'static str = "CREATE TABLE metadata(id INTEGER PRIMARY KEY CHECK(id=1),revision BLOB NOT NULL CHECK(typeof(revision)='blob' AND length(revision)=8),history_days INTEGER NOT NULL CHECK(history_days IN(7,30))) STRICT";

/// The recognized statement of the `producers` table.
pub const PRODUCERS_TABLE: &'static str = "CREATE TABLE producers(producer TEXT PRIMARY KEY,generation TEXT NOT NULL,run TEXT NOT NULL,harness INTEGER NOT NULL,next_seq BLOB CHECK(next_seq IS NULL OR (typeof(next_seq)='blob' AND length(next_seq)=8)),active INTEGER NOT NULL CHECK(active IN(0,1))) STRICT";

/// The recognized statement of the `facts` table.
pub const FACTS_TABLE: &'static str = "CREATE TABLE facts(event TEXT NOT NULL,producer TEXT NOT NULL,generation TEXT NOT NULL,seq BLOB NOT NULL CHECK(typeof(seq)='blob' AND length(seq)=8),run TEXT NOT NULL,accepted INTEGER NOT NULL CHECK(accepted>=0),write_set BLOB NOT NULL CHECK(length(write_set)<=24576),revision BLOB NOT NULL CHECK(typeof(revision)='blob' AND length(revision)=8),PRIMARY KEY(producer,generation,event),UNIQUE(producer,generation,seq)) STRICT";

/// The recognized statement of the `projections` table.
pub const PROJECTIONS_TABLE: &'static str = "CREATE TABLE projections(run TEXT PRIMARY KEY,process INTEGER NOT NULL,observation INTEGER NOT NULL,turn INTEGER NOT NULL,turn_id TEXT) STRICT";

/// The recognized statement of the `attention` table.
pub const ATTENTION_TABLE: &'static str = "CREATE TABLE attention(producer TEXT NOT NULL,generation TEXT NOT NULL,event TEXT NOT NULL,run TEXT NOT NULL,reason INTEGER NOT NULL,reviewed INTEGER NOT NULL CHECK(reviewed IN(0,1)),PRIMARY KEY(producer,generation,event,reason)) STRICT";

/// The recognized statement of the `outbox` table.
pub const OUTBOX_TABLE: &'static str = "CREATE TABLE outbox(producer TEXT NOT NULL,generation TEXT NOT NULL,event TEXT NOT NULL,run TEXT NOT NULL,state INTEGER NOT NULL,created INTEGER NOT NULL CHECK(created>=0),changed INTEGER NOT NULL CHECK(changed>=0),PRIMARY KEY(producer,generation,event)) STRICT";

/// The recognized statement of the `tombstones` table.
pub const TOMBSTONES_TABLE: &'static str = "CREATE TABLE tombstones(producer TEXT NOT NULL,generation TEXT NOT NULL,run TEXT NOT NULL,turn_id TEXT NOT NULL,event TEXT NOT NULL,created INTEGER NOT NULL CHECK(created>=0),PRIMARY KEY(producer,generation,run,turn_id)) STRICT";

/// The recognized statement of the `maintenance` table.
pub const MAINTENANCE_TABLE: &'static str = "CREATE TABLE maintenance(id INTEGER PRIMARY KEY CHECK(id=1),facts_removed INTEGER NOT NULL,tombstones_removed INTEGER NOT NULL,generations_retired INTEGER NOT NULL,deliveries_expired INTEGER NOT NULL) STRICT";

/// The columns the current layout adds to `producers`.
pub const PRODUCERS_COLUMNS: &'static str = ",reconciled INTEGER NOT NULL DEFAULT 0 CHECK(reconciled IN(0,1))";

/// The columns the current layout adds to `metadata`.
pub const METADATA_COLUMNS: &'static str = ",discarded BLOB NOT NULL DEFAULT X'0000000000000000' CHECK(typeof(discarded)='blob' AND length(discarded)=8)";

/// The columns the current layout adds to `projections`.
pub const PROJECTIONS_COLUMNS: &'static str = ",producer TEXT,generation TEXT,CHECK((producer IS NULL)=(generation IS NULL))";

/// The columns the current layout adds to `attention`.
pub const ATTENTION_COLUMNS: &'static str = ",turn_id TEXT,resolved INTEGER NOT NULL DEFAULT 0 CHECK(resolved IN(0,1)),outcome_revision BLOB CHECK(outcome_revision IS NULL OR (typeof(outcome_revision)='blob' AND length(outcome_revision)=8)),scoped INTEGER NOT NULL DEFAULT 0 CHECK(scoped IN(0,1)),resolution_generation TEXT,CHECK(scoped=0 OR resolution_generation IS NOT NULL)";

/// The columns the current layout adds to `outbox`.
pub const OUTBOX_COLUMNS: &'static str = ",outcome_revision BLOB CHECK(outcome_revision IS NULL OR (typeof(outcome_revision)='blob' AND length(outcome_revision)=8))";

/// The columns the current layout adds to `tombstones`.
pub const TOMBSTONES_COLUMNS: &'static str = ",terminal INTEGER CHECK(terminal IS NULL OR terminal IN(4,5,6)),outcome_revision BLOB CHECK(outcome_revision IS NULL OR (typeof(outcome_revision)='blob' AND length(outcome_revision)=8))";

/// The index of active scoped attention.
pub const ATTENTION_INDEX: &'static str = "CREATE UNIQUE INDEX attention_active_scope ON attention(producer,resolution_generation,run,coalesce(turn_id,''),reason) WHERE scoped=1 AND resolved=0 AND reason IN(0,1,3)";

/// The first index at or after `i` where `pat` occurs in `s`.
pub open spec fn find_at(s: Seq<char>, pat: Seq<char>, i: nat) -> Option<nat>
    decreases s.len() - i,
{
    if pat.len() == 0 && i <= s.len() {
        Some(i)
    } else if i + pat.len() > s.len() {
        None
    } else if s.subrange(i as int, (i + pat.len()) as int) == pat {
        Some(i)
    } else {
        find_at(s, pat, i + 1)
    }
}

/// `str::find`: the first index where `pat` occurs in `s`.
pub open spec fn find(s: Seq<char>, pat: Seq<char>) -> Option<nat> {
    find_at(s, pat, 0)
}

/// Where added columns go: before the table constraints (`,PRIMARY KEY(`)
/// or else before the closing `) STRICT` (every statement is longer).
pub open spec fn column_position(sql: Seq<char>) -> int {
    match find(sql, ",PRIMARY KEY("@) {
        Some(p) => p as int,
        None => if sql.len() >= 8 {
            sql.len() - 8
        } else {
            0
        },
    }
}

/// A table statement with `extra` column definitions inserted.
pub open spec fn with_columns(sql: Seq<char>, extra: Seq<char>) -> Seq<char> {
    sql.take(column_position(sql)) + extra + sql.skip(column_position(sql))
}

fn matches_at(cs: &Vec<char>, pat: &Vec<char>, i: usize) -> (r: bool)
    requires
        i + pat@.len() <= cs@.len(),
    ensures
        r == (cs@.subrange(i as int, i + pat@.len()) == pat@),
{
    let mut k: usize = 0;
    while k < pat.len()
        invariant
            k <= pat@.len(),
            i + pat@.len() <= cs@.len(),
            forall|t: int| 0 <= t < k ==> cs@[i + t] == pat@[t],
        decreases pat@.len() - k,
    {
        assert(i + k < cs.len());
        if cs[i + k] != pat[k] {
            assert(cs@.subrange(i as int, i + pat@.len())[k as int] == cs@[i + k]);
            return false;
        }
        k = k + 1;
    }
    assert(cs@.subrange(i as int, i + pat@.len()) =~= pat@);
    true
}

/// The first index where `pat` occurs in `text`.
pub fn find_text(text: &str, pat: &str) -> (r: Option<usize>)
    ensures
        match r {
            Some(p) => find(text@, pat@) == Some(p as nat),
            None => find(text@, pat@) is None,
        },
{
    let cs = crate::text::chars_of(text);
    let ps = crate::text::chars_of(pat);
    if ps.len() == 0 {
        return Some(0);
    }
    let mut i: usize = 0;
    while i < cs.len() && ps.len() <= cs.len() - i
        invariant
            cs@ == text@,
            ps@ == pat@,
            ps@.len() > 0,
            i <= cs@.len(),
            find(text@, pat@) == find_at(text@, pat@, i as nat),
        decreases cs@.len() - i,
    {
        if matches_at(&cs, &ps, i) {
            return Some(i);
        }
        i = i + 1;
    }
    None
}

fn insert_columns(sql: &str, extra: &str) -> (r: String)
    ensures
        r@ == with_columns(sql@, extra@),
{
    let cs = crate::text::chars_of(sql);
    let position = match find_text(sql, ",PRIMARY KEY(") {
        Some(p) => p,
        None => if cs.len() >= 8 {
            cs.len() - 8
        } else {
            0
        },
    };
    proof {
        if let Some(p) = find(sql@, ",PRIMARY KEY("@) {
            lemma_find_bound(sql@, ",PRIMARY KEY("@, 0);
        }
    }
    let mut out = crate::text::string_from(&cs, 0, position);
    out.append(extra);
    let rest = crate::text::string_from(&cs, position, cs.len());
    out.append(rest.as_str());
    assert(out@ =~= with_columns(sql@, extra@));
    out
}

pub proof fn lemma_find_bound(s: Seq<char>, pat: Seq<char>, i: nat)
    requires
        i <= s.len(),
    ensures
        find_at(s, pat, i) matches Some(p) ==> i <= p && p + pat.len() <= s.len(),
    decreases s.len() - i,
{
    if pat.len() == 0 && i <= s.len() {
    } else if i + pat.len() > s.len() {
    } else if s.subrange(i as int, (i + pat.len()) as int) == pat {
    } else {
        lemma_find_bound(s, pat, i + 1);
    }
}

/// The current layout: each recognized table with the columns it gained,
/// in the recognized order, then the index of active scoped attention.
pub open spec fn current_layout() -> Seq<(Seq<char>, Seq<char>)> {
    seq![
        ("metadata"@, with_columns(METADATA_TABLE@, METADATA_COLUMNS@)),
        ("producers"@, with_columns(PRODUCERS_TABLE@, PRODUCERS_COLUMNS@)),
        ("facts"@, with_columns(FACTS_TABLE@, ""@)),
        ("projections"@, with_columns(PROJECTIONS_TABLE@, PROJECTIONS_COLUMNS@)),
        ("attention"@, with_columns(ATTENTION_TABLE@, ATTENTION_COLUMNS@)),
        ("outbox"@, with_columns(OUTBOX_TABLE@, OUTBOX_COLUMNS@)),
        ("tombstones"@, with_columns(TOMBSTONES_TABLE@, TOMBSTONES_COLUMNS@)),
        ("maintenance"@, with_columns(MAINTENANCE_TABLE@, ""@)),
        ("attention_active_scope"@, ATTENTION_INDEX@),
    ]
}

fn push_pair(out: &mut Vec<(String, String)>, name: &str, sql: String)
    ensures
        final(out)@.map_values(|p: (String, String)| (p.0@, p.1@)) == old(out)@.map_values(
            |p: (String, String)| (p.0@, p.1@),
        ).push((name@, sql@)),
{
    let ghost before = out@;
    out.push((String::from_str(name), sql));
    assert(out@.map_values(|p: (String, String)| (p.0@, p.1@)) =~= before.map_values(
        |p: (String, String)| (p.0@, p.1@),
    ).push((name@, sql@)));
}

/// Builds `current_layout`.
pub fn current() -> (r: Vec<(String, String)>)
    ensures
        r@.map_values(|p: (String, String)| (p.0@, p.1@)) == current_layout(),
{
    let mut out: Vec<(String, String)> = Vec::new();
    push_pair(&mut out, "metadata", insert_columns(METADATA_TABLE, METADATA_COLUMNS));
    push_pair(&mut out, "producers", insert_columns(PRODUCERS_TABLE, PRODUCERS_COLUMNS));
    push_pair(&mut out, "facts", insert_columns(FACTS_TABLE, ""));
    push_pair(&mut out, "projections", insert_columns(PROJECTIONS_TABLE, PROJECTIONS_COLUMNS));
    push_pair(&mut out, "attention", insert_columns(ATTENTION_TABLE, ATTENTION_COLUMNS));
    push_pair(&mut out, "outbox", insert_columns(OUTBOX_TABLE, OUTBOX_COLUMNS));
    push_pair(&mut out, "tombstones", insert_columns(TOMBSTONES_TABLE, TOMBSTONES_COLUMNS));
    push_pair(&mut out, "maintenance", insert_columns(MAINTENANCE_TABLE, ""));
    push_pair(&mut out, "attention_active_scope", String::from_str(ATTENTION_INDEX));
    out
}

/// The tables the schema check expects at `version`, sorted by name: every
/// recognized table, the maintenance table only from version 2.
pub open spec fn expected_tables(version: i64) -> Seq<(Seq<char>, Seq<char>)> {
    let head = seq![("attention"@, ATTENTION_TABLE@), ("facts"@, FACTS_TABLE@)];
    let tail = seq![
        ("metadata"@, METADATA_TABLE@),
        ("outbox"@, OUTBOX_TABLE@),
        ("producers"@, PRODUCERS_TABLE@),
        ("projections"@, PROJECTIONS_TABLE@),
        ("tombstones"@, TOMBSTONES_TABLE@),
    ];
    if version == 2 {
        head.push(("maintenance"@, MAINTENANCE_TABLE@)) + tail
    } else {
        head + tail
    }
}

/// Builds `expected_tables`.
pub fn schema_tables(version: i64) -> (r: Vec<(String, String)>)
    ensures
        r@.map_values(|p: (String, String)| (p.0@, p.1@)) == expected_tables(version),
{
    let mut out: Vec<(String, String)> = Vec::new();
    push_pair(&mut out, "attention", String::from_str(ATTENTION_TABLE));
    push_pair(&mut out, "facts", String::from_str(FACTS_TABLE));
    if version == 2 {
        push_pair(&mut out, "maintenance", String::from_str(MAINTENANCE_TABLE));
    }
    push_pair(&mut out, "metadata", String::from_str(METADATA_TABLE));
    push_pair(&mut out, "outbox", String::from_str(OUTBOX_TABLE));
    push_pair(&mut out, "producers", String::from_str(PRODUCERS_TABLE));
    push_pair(&mut out, "projections", String::from_str(PROJECTIONS_TABLE));
    push_pair(&mut out, "tombstones", String::from_str(TOMBSTONES_TABLE));
    assert(out@.map_values(|p: (String, String)| (p.0@, p.1@)) =~= expected_tables(version));
    out
}

/// Whether two listings of names and statements are the same.
pub fn same_tables(a: &Vec<(String, String)>, b: &Vec<(String, String)>) -> (r: bool)
    ensures
        r == (a@.map_values(|p: (String, String)| (p.0@, p.1@)) == b@.map_values(
            |p: (String, String)| (p.0@, p.1@),
        )),
{
    let ghost av = a@.map_values(|p: (String, String)| (p.0@, p.1@));
    let ghost bv = b@.map_values(|p: (String, String)| (p.0@, p.1@));
    if a.len() != b.len() {
        assert(av.len() != bv.len());
        return false;
    }
    let mut i: usize = 0;
    while i < a.len()
        invariant
            i <= a@.len(),
            a@.len() == b@.len(),
            av == a@.map_values(|p: (String, String)| (p.0@, p.1@)),
            bv == b@.map_values(|p: (String, String)| (p.0@, p.1@)),
            forall|k: int| 0 <= k < i ==> av[k] == bv[k],
        decreases a@.len() - i,
    {
        assert(av[i as int] == (a@[i as int].0@, a@[i as int].1@));
        assert(bv[i as int] == (b@[i as int].0@, b@[i as int].1@));
        if a[i].0 != b[i].0 || a[i].1 != b[i].1 {
            return false;
        }
        i = i + 1;
    }
    assert(av =~= bv);
    true
}

} // verus!
