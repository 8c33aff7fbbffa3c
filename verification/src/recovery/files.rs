//! Bounded inventory entries and their identity tokens.
use super::logs::is_log_name;
use super::names::{spool_filename, spool_name_wf, SpoolName, SpoolNameView};
use super::{RecoveryError, LOG_FILES, MAX_LOG_BYTES, MAX_SPOOL_FILES};
use crate::fsmeta::{is_private_file, private_file, FileStat};
use vstd::prelude::*;

verus! {

/// The name of the lock file inside the recovery directory.
pub open spec fn lock_name() -> Seq<char> {
    "recovery.lock"@
}

/// Whether `name` is the lock file.
pub fn is_lock(name: &str) -> (r: bool)
    ensures
        r == (name@ == lock_name()),
{
    crate::text::str_eq(name, "recovery.lock")
}

/// The stat identity of a file: any change to it means the file changed.
#[derive(Clone, Copy, Debug, PartialEq, Eq, Structural)]
pub struct Identity {
    pub device: u64,
    pub inode: u64,
    pub bytes: u64,
    pub modified_secs: i64,
    pub modified_nsecs: u64,
    pub changed_secs: i64,
    pub changed_nsecs: u64,
}

impl Identity {
    /// The identity of a stat result; a negative size is refused.
    pub fn from_stat(stat: &FileStat) -> (r: Result<Self, RecoveryError>)
        ensures
            stat.size < 0 ==> r == Err::<Identity, RecoveryError>(RecoveryError::UnsafePath),
            stat.size >= 0 ==> r == Ok::<Identity, RecoveryError>(
                Identity {
                    device: stat.device,
                    inode: stat.inode,
                    bytes: stat.size as u64,
                    modified_secs: stat.modified_secs,
                    modified_nsecs: stat.modified_nsecs,
                    changed_secs: stat.changed_secs,
                    changed_nsecs: stat.changed_nsecs,
                },
            ),
    {
        if stat.size < 0 {
            return Err(RecoveryError::UnsafePath);
        }
        Ok(
            Identity {
                device: stat.device,
                inode: stat.inode,
                bytes: stat.size as u64,
                modified_secs: stat.modified_secs,
                    modified_nsecs: stat.modified_nsecs,
                changed_secs: stat.changed_secs,
                    changed_nsecs: stat.changed_nsecs,
            },
        )
    }
}

/// One directory entry with its identity and, for generated names, its spool name.
#[derive(Debug)]
pub struct Entry {
    pub name: String,
    pub identity: Identity,
    pub spool: Option<SpoolName>,
}

/// Mathematical view of an entry.
pub ghost struct EntryView {
    pub name: Seq<char>,
    pub identity: Identity,
    pub spool: Option<SpoolNameView>,
}

impl View for Entry {
    type V = EntryView;

    open spec fn view(&self) -> EntryView {
        EntryView {
            name: self.name@,
            identity: self.identity,
            spool: match self.spool {
                Some(n) => Some(n@),
                None => None,
            },
        }
    }
}

/// The spool name of an entry is exactly what its file name spells.
pub open spec fn entry_wf(e: EntryView) -> bool {
    match e.spool {
        Some(n) => spool_name_wf(n) && spool_filename(n) == e.name,
        None => forall|n: SpoolNameView| #[trigger]
            spool_name_wf(n) ==> spool_filename(n) != e.name,
    }
}

impl Entry {
    /// Bytes held by the entry.
    pub fn bytes(&self) -> (r: u64)
        ensures
            r == self.identity.bytes,
    {
        self.identity.bytes
    }

    /// A scanned entry, classifying its name.
    pub fn scanned(name: String, identity: Identity) -> (r: Self)
        ensures
            r@.name == name@,
            r.identity == identity,
            entry_wf(r@),
    {
        let spool = SpoolName::parse(name.as_str());
        Entry { name, identity, spool }
    }

    /// A field-by-field copy.
    pub fn duplicate(&self) -> (r: Self)
        ensures
            r@ == self@,
    {
        let spool = match &self.spool {
            Some(n) => Some(n.duplicate()),
            None => None,
        };
        Entry { name: self.name.clone(), identity: self.identity, spool }
    }
}

/// What one directory child read gave: its name and stat, or the failure.
pub type ScannedChild = Result<(String, FileStat), RecoveryError>;

/// The identity a non-negative stat result records.
pub open spec fn stat_identity(stat: FileStat) -> Identity {
    Identity {
        device: stat.device,
        inode: stat.inode,
        bytes: stat.size as u64,
        modified_secs: stat.modified_secs,
                    modified_nsecs: stat.modified_nsecs,
        changed_secs: stat.changed_secs,
                    changed_nsecs: stat.changed_nsecs,
    }
}

/// The entry records the child's name and stat identity.
pub open spec fn entry_from_child(e: EntryView, c: ScannedChild) -> bool {
    match c {
        Ok((name, stat)) => e.name == name@ && e.identity == stat_identity(stat),
        Err(_) => false,
    }
}

/// Entries beyond this many stop a scan.
pub open spec fn scan_limit() -> int {
    MAX_SPOOL_FILES + LOG_FILES
}

/// Whether an entry counts toward the spool (not the lock, not a log).
pub open spec fn counted(e: EntryView) -> bool {
    e.name != lock_name() && !is_log_name(e.name)
}

/// Number of counted entries.
pub open spec fn counted_files(s: Seq<EntryView>) -> nat
    decreases s.len(),
{
    if s.len() == 0 {
        0
    } else {
        counted_files(s.drop_last()) + if counted(s.last()) {
            1nat
        } else {
            0nat
        }
    }
}

/// Number of children read that count toward the spool: those whose name is
/// neither a log name nor the lock.
pub open spec fn counted_children(cs: Seq<ScannedChild>) -> nat
    decreases cs.len(),
{
    if cs.len() == 0 {
        0
    } else {
        counted_children(cs.drop_last()) + match cs.last() {
            Ok((name, _)) => if name@ != lock_name() && !is_log_name(name@) {
                1nat
            } else {
                0nat
            },
            Err(_) => 0nat,
        }
    }
}

/// Entries taken one for one from children count the same.
pub proof fn lemma_counted_matches(es: Seq<EntryView>, cs: Seq<ScannedChild>)
    requires
        es.len() == cs.len(),
        forall|i: int| 0 <= i < es.len() ==> entry_from_child(#[trigger] es[i], cs[i]),
    ensures
        counted_files(es) == counted_children(cs),
    decreases es.len(),
{
    if es.len() > 0 {
        let n = es.len() - 1;
        assert(entry_from_child(es[n], cs[n]));
        lemma_counted_matches(es.drop_last(), cs.drop_last());
    }
}

/// Per-child check of a scan: a private file, a log within its bound, an
/// empty lock.
pub open spec fn child_error(name: Seq<char>, stat: FileStat, uid: u32) -> Option<RecoveryError> {
    if !is_private_file(stat, uid) {
        Some(RecoveryError::UnsafePath)
    } else if stat.size < 0 {
        Some(RecoveryError::UnsafePath)
    } else if (is_log_name(name) && stat.size > MAX_LOG_BYTES) || (name == lock_name() && stat.size
        != 0) {
        Some(RecoveryError::BoundExceeded)
    } else {
        None
    }
}

/// The first failure of a scan over children `0..n`, if any.
pub open spec fn scan_failure(children: Seq<ScannedChild>, uid: u32, n: int) -> Option<
    RecoveryError,
>
    decreases n,
{
    if n <= 0 {
        None
    } else {
        match scan_failure(children, uid, n - 1) {
            Some(e) => Some(e),
            None => if n - 1 > scan_limit() {
                Some(RecoveryError::BoundExceeded)
            } else {
                match children[n - 1] {
                    Err(e) => Some(e),
                    Ok((name, stat)) => child_error(name@, stat, uid),
                }
            },
        }
    }
}

/// Builds the inventory from the children read so far, in read order,
/// applying the per-child checks and the scan bound; the caller stops reading
/// after the first failed child or `scan_limit() + 2` children.
pub fn inventory(children: &Vec<ScannedChild>, uid: u32) -> (r: Result<Vec<Entry>, RecoveryError>)
    ensures
        match r {
            Ok(entries) => {
                &&& scan_failure(children@, uid, children@.len() as int) is None
                &&& entries@.len() == children@.len()
                &&& forall|i: int|
                    0 <= i < entries@.len() ==> entry_wf(#[trigger] entries@[i]@)
                        && entry_from_child(entries@[i]@, children@[i])
            },
            Err(e) => scan_failure(children@, uid, children@.len() as int) == Some(e),
        },
{
    let mut entries: Vec<Entry> = Vec::new();
    let ghost cs = children@;
    let mut i: usize = 0;
    let n = children.len();
    while i < n
        invariant
            n == cs.len(),
            cs == children@,
            i <= n,
            entries@.len() == i,
            scan_failure(cs, uid, i as int) is None,
            forall|k: int|
                0 <= k < i ==> entry_wf(#[trigger] entries@[k]@) && entry_from_child(
                    entries@[k]@,
                    cs[k],
                ),
        decreases n - i,
    {
        if i > MAX_SPOOL_FILES + LOG_FILES {
            proof {
                lemma_scan_failure_stable(cs, uid, i + 1, n as int);
            }
            return Err(RecoveryError::BoundExceeded);
        }
        let (name, stat) = match &children[i] {
            Ok((name, stat)) => (name.clone(), *stat),
            Err(e) => {
                proof {
                    lemma_scan_failure_stable(cs, uid, i + 1, n as int);
                }
                return Err(*e);
            },
        };
        assert(cs[i as int] == Ok::<(String, FileStat), RecoveryError>((name, stat)));
        if !private_file(&stat, uid) {
            proof {
                lemma_scan_failure_stable(cs, uid, i + 1, n as int);
            }
            return Err(RecoveryError::UnsafePath);
        }
        let identity = match Identity::from_stat(&stat) {
            Ok(id) => id,
            Err(e) => {
                proof {
                    lemma_scan_failure_stable(cs, uid, i + 1, n as int);
                }
                return Err(e);
            },
        };
        let log = super::logs::is_log(name.as_str());
        let lock = is_lock(name.as_str());
        if (log && identity.bytes > MAX_LOG_BYTES) || (lock && identity.bytes != 0) {
            proof {
                lemma_scan_failure_stable(cs, uid, i + 1, n as int);
            }
            return Err(RecoveryError::BoundExceeded);
        }
        let entry = Entry::scanned(name, identity);
        let ghost before = entries@;
        entries.push(entry);
        proof {
            let views = entries@.map_values(|e: Entry| e@);
            assert(views.drop_last() =~= before.map_values(|e: Entry| e@));
        }
        i = i + 1;
    }
    Ok(entries)
}

proof fn lemma_scan_failure_stable(cs: Seq<ScannedChild>, uid: u32, a: int, b: int)
    requires
        0 <= a <= b,
        scan_failure(cs, uid, a) is Some,
    ensures
        scan_failure(cs, uid, b) == scan_failure(cs, uid, a),
    decreases b - a,
{
    if a < b {
        lemma_scan_failure_stable(cs, uid, a, b - 1);
    }
}

/// Entries in non-decreasing order of name.
pub open spec fn sorted_by_name(s: Seq<EntryView>) -> bool {
    forall|i: int, j: int|
        0 <= i < j < s.len() ==> !crate::text::seq_lt(#[trigger] s[j].name, #[trigger] s[i].name)
}

/// Law: a name-sorted inventory lists the records of one producer
/// generation in sequence order.
pub proof fn lemma_sorted_generation_in_sequence(s: Seq<EntryView>, i: int, j: int)
    requires
        sorted_by_name(s),
        0 <= i < j < s.len(),
        entry_wf(s[i]),
        entry_wf(s[j]),
        s[i].spool is Some,
        s[j].spool is Some,
        s[i].spool->0.producer == s[j].spool->0.producer,
        s[i].spool->0.generation == s[j].spool->0.generation,
    ensures
        s[i].spool->0.sequence <= s[j].spool->0.sequence,
{
    let a = s[i].spool->0;
    let b = s[j].spool->0;
    if b.sequence < a.sequence {
        super::names::lemma_filenames_follow_sequence(b, a);
        assert(!crate::text::seq_lt(s[j].name, s[i].name));
    }
}

/// Orders entries by name, as the inventory is read.
pub fn sort_by_name(entries: Vec<Entry>) -> (r: Vec<Entry>)
    ensures
        r@.to_multiset() == entries@.to_multiset(),
        sorted_by_name(r@.map_values(|e: Entry| e@)),
{
    broadcast use vstd::seq_lib::to_multiset_insert, vstd::seq_lib::to_multiset_build;
    broadcast use vstd::multiset::group_multiset_axioms, vstd::seq_lib::group_to_multiset_ensures;

    let ghost input = entries@;
    let mut rest = entries;
    let mut sorted: Vec<Entry> = Vec::new();
    let mut keys: Vec<Vec<char>> = Vec::new();
    while rest.len() > 0
        invariant
            rest@.to_multiset().add(sorted@.to_multiset()) == input.to_multiset(),
            keys@.len() == sorted@.len(),
            forall|k: int| 0 <= k < keys@.len() ==> #[trigger] keys@[k]@ == sorted@[k]@.name,
            sorted_by_name(sorted@.map_values(|e: Entry| e@)),
        decreases rest.len(),
    {
        let ghost before_rest = rest@;
        let e = rest.pop().unwrap();
        let ghost ge = e;
        assert(before_rest =~= rest@.push(e));
        proof {
            vstd::seq_lib::to_multiset_build(rest@, ge);
        }
        assert(before_rest.to_multiset() == rest@.to_multiset().insert(ge));
        let key = crate::text::chars_of(e.name.as_str());
        let mut p: usize = 0;
        while p < sorted.len() && !crate::text::chars_lt(&key, &keys[p])
            invariant
                p <= sorted@.len(),
                keys@.len() == sorted@.len(),
                forall|k: int| 0 <= k < keys@.len() ==> #[trigger] keys@[k]@ == sorted@[k]@.name,
                forall|k: int| 0 <= k < p ==> !crate::text::seq_lt(key@, #[trigger] sorted@[k]@.name),
            decreases sorted.len() - p,
        {
            p = p + 1;
        }
        let ghost old_sorted = sorted@;
        proof {
            let s = old_sorted.map_values(|x: Entry| x@);
            assert forall|k: int| p <= k < s.len() implies !crate::text::seq_lt(
                #[trigger] s[k].name,
                key@,
            ) by {
                if crate::text::seq_lt(s[k].name, key@) {
                    assert(p < s.len());
                    assert(crate::text::seq_lt(key@, s[p as int].name));
                    if p < k {
                        assert(!crate::text::seq_lt(s[k].name, s[p as int].name));
                    }
                    crate::text::lemma_seq_lt_transitive(s[k].name, key@, s[p as int].name);
                    if p == k {
                        crate::text::lemma_seq_lt_irreflexive(s[k].name);
                    }
                }
            }
        }
        sorted.insert(p, e);
        keys.insert(p, key);
        proof {
            let s = old_sorted.map_values(|x: Entry| x@);
            let t = sorted@.map_values(|x: Entry| x@);
            assert(t =~= s.insert(p as int, e@));
            assert forall|i: int, j: int| 0 <= i < j < t.len() implies !crate::text::seq_lt(
                #[trigger] t[j].name,
                #[trigger] t[i].name,
            ) by {
                if i < p && j == p {
                    assert(t[i] == s[i]);
                } else if i == p && j > p {
                    assert(t[j] == s[j - 1]);
                } else if j < p {
                    assert(t[i] == s[i] && t[j] == s[j]);
                } else if i < p && j > p {
                    assert(t[i] == s[i] && t[j] == s[j - 1]);
                } else {
                    assert(t[i] == s[i - 1] && t[j] == s[j - 1]);
                }
            }
            assert(sorted@ == old_sorted.insert(p as int, ge));
            vstd::seq_lib::to_multiset_insert(old_sorted, p as int, ge);
            assert(sorted@.to_multiset() == old_sorted.to_multiset().insert(ge));
            assert(rest@.to_multiset().add(sorted@.to_multiset()) =~= before_rest.to_multiset().add(
                old_sorted.to_multiset(),
            ));
        }
    }
    proof {
        assert(rest@.to_multiset() =~= vstd::multiset::Multiset::empty());
    }
    sorted
}

/// Number of counted entries.
pub fn count_spool_files(entries: &Vec<Entry>) -> (r: usize)
    ensures
        r == counted_files(entries@.map_values(|e: Entry| e@)),
{
    let ghost s = entries@.map_values(|e: Entry| e@);
    let mut count: usize = 0;
    let mut i: usize = 0;
    while i < entries.len()
        invariant
            i <= entries@.len(),
            s == entries@.map_values(|e: Entry| e@),
            count == counted_files(s.take(i as int)),
            count <= i,
        decreases entries.len() - i,
    {
        proof {
            assert(s.take(i + 1).drop_last() =~= s.take(i as int));
            assert(s.take(i + 1).last() == entries@[i as int]@);
        }
        if !super::logs::is_log(entries[i].name.as_str()) && !is_lock(entries[i].name.as_str()) {
            count = count + 1;
        }
        i = i + 1;
    }
    assert(s.take(entries@.len() as int) =~= s);
    count
}

/// Some child read gave this entry.
pub open spec fn from_some_child(e: EntryView, cs: Seq<ScannedChild>) -> bool {
    exists|j: int| 0 <= j < cs.len() && entry_from_child(e, cs[j])
}

/// Some entry was taken from this child.
pub open spec fn child_listed(es: Seq<EntryView>, c: ScannedChild) -> bool {
    exists|i: int| 0 <= i < es.len() && entry_from_child(es[i], c)
}

/// A reordering of entries taken one for one from children still covers
/// exactly those children.
proof fn lemma_reordered_children(u: Seq<Entry>, es: Seq<Entry>, cs: Seq<ScannedChild>)
    requires
        es.to_multiset() == u.to_multiset(),
        u.len() == cs.len(),
        forall|i: int|
            0 <= i < u.len() ==> entry_wf(#[trigger] u[i]@) && entry_from_child(u[i]@, cs[i]),
    ensures
        es.len() == cs.len(),
        forall|i: int|
            0 <= i < es.len() ==> entry_wf(#[trigger] es[i]@) && from_some_child(es[i]@, cs),
        forall|j: int|
            0 <= j < cs.len() ==> child_listed(es.map_values(|e: Entry| e@), #[trigger] cs[j]),
{
    vstd::seq_lib::to_multiset_len(es);
    vstd::seq_lib::to_multiset_len(u);
    assert forall|i: int| 0 <= i < es.len() implies entry_wf(#[trigger] es[i]@)
        && from_some_child(es[i]@, cs) by {
        assert(es.contains(es[i]));
        vstd::seq_lib::to_multiset_contains(es, es[i]);
        vstd::seq_lib::to_multiset_contains(u, es[i]);
        assert(u.contains(es[i]));
        let j = choose|j: int| 0 <= j < u.len() && u[j] == es[i];
        assert(entry_from_child(u[j]@, cs[j]));
    }
    let ev = es.map_values(|e: Entry| e@);
    assert forall|j: int| 0 <= j < cs.len() implies child_listed(ev, #[trigger] cs[j]) by {
        assert(entry_from_child(u[j]@, cs[j]));
        assert(u.contains(u[j]));
        vstd::seq_lib::to_multiset_contains(es, u[j]);
        vstd::seq_lib::to_multiset_contains(u, u[j]);
        assert(es.contains(u[j]));
        let i = choose|i: int| 0 <= i < es.len() && es[i] == u[j];
        assert(ev[i] == es[i]@);
        assert(entry_from_child(ev[i], cs[j]));
    }
}

/// The inventory of a directory scan: every child read passes the per-child
/// checks and the scan bound, entries are ordered by name, and at most
/// `MAX_SPOOL_FILES` children count toward the spool. The caller stops
/// reading after the first failed child or `scan_limit() + 2` children.
pub fn scan(children: &Vec<ScannedChild>, uid: u32) -> (r: Result<Vec<Entry>, RecoveryError>)
    ensures
        r is Ok <==> (scan_failure(children@, uid, children@.len() as int) is None
            && counted_children(children@) <= MAX_SPOOL_FILES),
        match r {
            Ok(entries) => {
                &&& scan_failure(children@, uid, children@.len() as int) is None
                &&& entries@.len() == children@.len()
                &&& sorted_by_name(entries@.map_values(|e: Entry| e@))
                &&& counted_children(children@) <= MAX_SPOOL_FILES
                &&& forall|i: int|
                    0 <= i < entries@.len() ==> entry_wf(#[trigger] entries@[i]@)
                        && from_some_child(entries@[i]@, children@)
                &&& forall|j: int|
                    0 <= j < children@.len() ==> child_listed(
                        entries@.map_values(|e: Entry| e@),
                        #[trigger] children@[j],
                    )
            },
            Err(e) => scan_failure(children@, uid, children@.len() as int) == Some(e) || (
            scan_failure(children@, uid, children@.len() as int) is None && e
                == RecoveryError::BoundExceeded && counted_children(children@) > MAX_SPOOL_FILES),
        },
{
    broadcast use vstd::seq_lib::group_to_multiset_ensures;

    let unsorted = inventory(children, uid)?;
    let ghost u = unsorted@;
    assert(counted_files(u.map_values(|e: Entry| e@)) == counted_children(children@)) by {
        let uv = u.map_values(|e: Entry| e@);
        assert forall|i: int| 0 <= i < uv.len() implies entry_from_child(#[trigger] uv[i], children@[i]) by {
            assert(uv[i] == u[i]@);
        }
        lemma_counted_matches(uv, children@);
    }
    if count_spool_files(&unsorted) > MAX_SPOOL_FILES {
        return Err(RecoveryError::BoundExceeded);
    }
    let entries = sort_by_name(unsorted);
    proof {
        lemma_reordered_children(u, entries@, children@);
    }
    Ok(entries)
}

/// Whether a held-handle count admits one more handle.
pub fn reserve_handle(count: usize) -> (r: Option<usize>)
    ensures
        count < super::MAX_HELD_HANDLES ==> r == Some((count + 1) as usize),
        count >= super::MAX_HELD_HANDLES ==> r is None,
{
    if count < super::MAX_HELD_HANDLES {
        Some(count + 1)
    } else {
        None
    }
}

/// A bounded read refuses an entry larger than `maximum` before reading.
pub fn check_read_size(entry_bytes: u64, maximum: usize) -> (r: Result<(), RecoveryError>)
    ensures
        r == if entry_bytes > maximum {
            Err::<(), RecoveryError>(RecoveryError::BoundExceeded)
        } else {
            Ok(())
        },
{
    if entry_bytes > maximum as u64 {
        Err(RecoveryError::BoundExceeded)
    } else {
        Ok(())
    }
}

/// After a bounded read: the file kept its identity and exactly its size was read.
pub fn check_read_result(
    expected: Identity,
    after: Identity,
    read_len: usize,
    maximum: usize,
) -> (r: Result<(), RecoveryError>)
    ensures
        r == if after != expected || read_len > maximum || read_len != expected.bytes {
            Err::<(), RecoveryError>(RecoveryError::IdentityChanged)
        } else {
            Ok(())
        },
{
    if after != expected || read_len > maximum || read_len as u64 != expected.bytes {
        Err(RecoveryError::IdentityChanged)
    } else {
        Ok(())
    }
}

} // verus!
