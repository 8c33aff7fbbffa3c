//! Read-only cleanup preview, then explicit identity/revision-bound bounded application.
use super::files::{
    counted, counted_children, counted_files, entry_from_child, entry_wf, inventory, lemma_counted_matches,
    lock_name, scan_failure, Entry, EntryView, ScannedChild,
};
use super::logs::is_log_name;
use super::names::{spool_expired, spool_filename, spool_name_wf};
use super::spool::{counted_bytes, min_u64, views};
use super::{RecoveryError, RecoveryStatus, StoreCounters, MAX_CLEANUP_BATCH, MAX_SPOOL_FILES};
use vstd::prelude::*;

verus! {

/// A trusted manager policy decision, not a wire instruction or automatic timer.
#[derive(Debug)]
pub enum CleanupReason {
    Expired,
    PrivacyDisabled,
    RetiredGeneration { producer: String, generation: String },
}

/// Mathematical view of a cleanup reason.
pub ghost enum ReasonView {
    Expired,
    PrivacyDisabled,
    RetiredGeneration { producer: Seq<char>, generation: Seq<char> },
}

impl View for CleanupReason {
    type V = ReasonView;

    open spec fn view(&self) -> ReasonView {
        match self {
            CleanupReason::Expired => ReasonView::Expired,
            CleanupReason::PrivacyDisabled => ReasonView::PrivacyDisabled,
            CleanupReason::RetiredGeneration { producer, generation } => ReasonView::RetiredGeneration {
                producer: producer@,
                generation: generation@,
            },
        }
    }
}

/// Whether `reason` selects the entry. Only generated spool names can expire
/// or be retired; disabling privacy also selects the fixed logs. Unknown
/// names, database artifacts and unrelated files stay protected.
pub open spec fn cleanup_eligible(e: EntryView, reason: ReasonView, now_ms: u64) -> bool {
    match e.spool {
        Some(n) => match reason {
            ReasonView::Expired => spool_expired(n, now_ms),
            ReasonView::PrivacyDisabled => true,
            ReasonView::RetiredGeneration { producer, generation } => n.producer == producer
                && n.generation == generation,
        },
        None => reason == ReasonView::PrivacyDisabled && is_log_name(e.name),
    }
}

/// Law: retiring a generation selects only that producer's records of that
/// generation: a spool record is eligible exactly when both its producer and
/// its generation are the retired ones, so a record of the producer's
/// other generations, another producer's record, or a file that is no
/// spool record is never eligible.
pub proof fn lemma_retired_generation_only(
    e: EntryView,
    producer: Seq<char>,
    generation: Seq<char>,
    now_ms: u64,
)
    ensures
        cleanup_eligible(
            e,
            ReasonView::RetiredGeneration { producer, generation },
            now_ms,
        ) <==> (e.spool matches Some(n) && n.producer == producer && n.generation == generation),
{
}

/// Law: what each reason makes eligible. Expiry takes only spool records
/// whose retention has passed; disabling privacy takes every spool record
/// and the fixed logs, and nothing else; no reason takes a file that is
/// neither. A record that has expired stays expired later on, and none
/// expires before it is a full retention period old.
pub proof fn lemma_reasons_select(e: EntryView, now_ms: u64, later_ms: u64)
    ensures
        cleanup_eligible(e, ReasonView::Expired, now_ms) <==> (e.spool matches Some(n)
            && spool_expired(n, now_ms)),
        cleanup_eligible(e, ReasonView::PrivacyDisabled, now_ms) <==> (e.spool is Some
            || is_log_name(e.name)),
        e.spool matches Some(n) ==> (spool_expired(n, now_ms) && now_ms <= later_ms
            ==> spool_expired(n, later_ms)),
        e.spool matches Some(n) ==> (now_ms < n.observed_ms + super::names::SPOOL_TTL_MS
            ==> !spool_expired(n, now_ms)),
{
}

/// Entries selected among the first `n`: eligible ones, at most one batch.
pub open spec fn cleanup_selected(s: Seq<EntryView>, reason: ReasonView, now_ms: u64, n: int) -> Seq<
    EntryView,
>
    decreases n,
{
    if n <= 0 {
        Seq::empty()
    } else {
        let earlier = cleanup_selected(s, reason, now_ms, n - 1);
        if cleanup_eligible(s[n - 1], reason, now_ms) && earlier.len() < MAX_CLEANUP_BATCH {
            earlier.push(s[n - 1])
        } else {
            earlier
        }
    }
}

/// Number of eligible entries among the first `n`.
pub open spec fn eligible_count(s: Seq<EntryView>, reason: ReasonView, now_ms: u64, n: int) -> nat
    decreases n,
{
    if n <= 0 {
        0
    } else {
        eligible_count(s, reason, now_ms, n - 1) + if cleanup_eligible(s[n - 1], reason, now_ms) {
            1nat
        } else {
            0nat
        }
    }
}

/// Number of protected entries (not eligible, not the lock) among the first `n`.
pub open spec fn protected_count(s: Seq<EntryView>, reason: ReasonView, now_ms: u64, n: int) -> nat
    decreases n,
{
    if n <= 0 {
        0
    } else {
        protected_count(s, reason, now_ms, n - 1) + if !cleanup_eligible(s[n - 1], reason, now_ms)
            && s[n - 1].name != lock_name() {
            1nat
        } else {
            0nat
        }
    }
}

proof fn lemma_selected_count(s: Seq<EntryView>, reason: ReasonView, now_ms: u64, n: int)
    requires
        0 <= n,
    ensures
        cleanup_selected(s, reason, now_ms, n).len() == if eligible_count(s, reason, now_ms, n)
            <= MAX_CLEANUP_BATCH {
            eligible_count(s, reason, now_ms, n)
        } else {
            MAX_CLEANUP_BATCH as nat
        },
        protected_count(s, reason, now_ms, n) <= n,
        eligible_count(s, reason, now_ms, n) <= n,
    decreases n,
{
    if n > 0 {
        lemma_selected_count(s, reason, now_ms, n - 1);
    }
}

proof fn lemma_selected_eligible(s: Seq<EntryView>, reason: ReasonView, now_ms: u64, n: int)
    requires
        0 <= n <= s.len(),
    ensures
        cleanup_selected(s, reason, now_ms, n).len() <= MAX_CLEANUP_BATCH,
        forall|k: int|
            0 <= k < cleanup_selected(s, reason, now_ms, n).len() ==> cleanup_eligible(
                #[trigger] cleanup_selected(s, reason, now_ms, n)[k],
                reason,
                now_ms,
            ),
    decreases n,
{
    if n > 0 {
        lemma_selected_eligible(s, reason, now_ms, n - 1);
    }
}

/// Law: a cleanup plan selects at most one batch and only entries its
/// reason makes eligible, so never the lock, never a name storage did not
/// generate (the fixed logs aside, and only when privacy is disabled), and
/// never an unexpired record for expiry; every selected, deferred or
/// protected entry is a distinct entry of the inventory, and over a
/// well-formed inventory together they are exactly its entries but the lock.
pub proof fn lemma_cleanup_plan_safe(s: Seq<EntryView>, reason: ReasonView, now_ms: u64)
    ensures
        spec_plan(s, reason, now_ms).0.len() <= MAX_CLEANUP_BATCH,
        forall|k: int|
            0 <= k < spec_plan(s, reason, now_ms).0.len() ==> {
                let e = #[trigger] spec_plan(s, reason, now_ms).0[k];
                &&& cleanup_eligible(e, reason, now_ms)
                &&& e.spool is Some || (reason == ReasonView::PrivacyDisabled && is_log_name(e.name))
                &&& (reason == ReasonView::Expired ==> (e.spool matches Some(n) && spool_expired(n, now_ms)))
                &&& (reason matches ReasonView::RetiredGeneration { producer, generation } ==> (
                e.spool matches Some(n) && n.producer == producer && n.generation == generation))
            },
        spec_plan(s, reason, now_ms).0.len() + spec_plan(s, reason, now_ms).1 + spec_plan(
            s,
            reason,
            now_ms,
        ).2 <= s.len(),
        (forall|i: int| 0 <= i < s.len() ==> entry_wf(#[trigger] s[i])) ==> spec_plan(
            s,
            reason,
            now_ms,
        ).0.len() + spec_plan(s, reason, now_ms).1 + spec_plan(s, reason, now_ms).2
            == non_lock_count(s, s.len() as int),
{
    let n = s.len() as int;
    lemma_selected_eligible(s, reason, now_ms, n);
    lemma_selected_count(s, reason, now_ms, n);
    lemma_partition(s, reason, now_ms, n);
    if forall|i: int| 0 <= i < s.len() ==> entry_wf(#[trigger] s[i]) {
        lemma_partition_exact(s, reason, now_ms, n);
    }
}

/// Number of entries among the first `n` that are not the lock.
pub open spec fn non_lock_count(s: Seq<EntryView>, n: int) -> nat
    decreases n,
{
    if n <= 0 {
        0
    } else {
        non_lock_count(s, n - 1) + if s[n - 1].name != lock_name() {
            1nat
        } else {
            0nat
        }
    }
}

/// No reason makes the lock eligible.
proof fn lemma_eligible_not_lock(e: EntryView, reason: ReasonView, now_ms: u64)
    requires
        entry_wf(e),
        cleanup_eligible(e, reason, now_ms),
    ensures
        e.name != lock_name(),
{
    reveal_strlit("recovery.lock");
    reveal_strlit("metadata.0.log");
    reveal_strlit("metadata.1.log");
    reveal_strlit("metadata.2.log");
    reveal_strlit("metadata.3.log");
    assert(lock_name()[0] == 'r');
    match e.spool {
        Some(n) => {
            assert(spool_filename(n)[0] == 's');
        },
        None => {
            assert(e.name[0] == 'm');
        },
    }
}

proof fn lemma_partition_exact(s: Seq<EntryView>, reason: ReasonView, now_ms: u64, n: int)
    requires
        0 <= n <= s.len(),
        forall|i: int| 0 <= i < s.len() ==> entry_wf(#[trigger] s[i]),
    ensures
        eligible_count(s, reason, now_ms, n) + protected_count(s, reason, now_ms, n)
            == non_lock_count(s, n),
    decreases n,
{
    if n > 0 {
        lemma_partition_exact(s, reason, now_ms, n - 1);
        if cleanup_eligible(s[n - 1], reason, now_ms) {
            lemma_eligible_not_lock(s[n - 1], reason, now_ms);
        }
    }
}

proof fn lemma_partition(s: Seq<EntryView>, reason: ReasonView, now_ms: u64, n: int)
    requires
        0 <= n,
    ensures
        eligible_count(s, reason, now_ms, n) + protected_count(s, reason, now_ms, n) <= n,
    decreases n,
{
    if n > 0 {
        lemma_partition(s, reason, now_ms, n - 1);
    }
}

/// Bytes of a sequence of entries.
pub open spec fn total_bytes(s: Seq<EntryView>) -> nat
    decreases s.len(),
{
    if s.len() == 0 {
        0
    } else {
        total_bytes(s.drop_last()) + s.last().identity.bytes as nat
    }
}

/// An instance-bound plan retaining each selected stat identity and the
/// store revision and owner it was made against.
pub struct CleanupPlan {
    selected: Vec<Entry>,
    protected: usize,
    deferred: usize,
    revision: u64,
    owner: u64,
}

/// Mathematical view of a cleanup plan.
pub ghost struct PlanView {
    pub selected: Seq<EntryView>,
    pub protected: nat,
    pub deferred: nat,
    pub revision: u64,
    pub owner: u64,
}

impl View for CleanupPlan {
    type V = PlanView;

    closed spec fn view(&self) -> PlanView {
        PlanView {
            selected: views(self.selected@),
            protected: self.protected as nat,
            deferred: self.deferred as nat,
            revision: self.revision,
            owner: self.owner,
        }
    }
}

/// The plan for `reason` at `now_ms` over an inventory.
pub open spec fn spec_plan(s: Seq<EntryView>, reason: ReasonView, now_ms: u64) -> (
    Seq<EntryView>,
    nat,
    nat,
) {
    let n = s.len() as int;
    let selected = cleanup_selected(s, reason, now_ms, n);
    (selected, protected_count(s, reason, now_ms, n), (eligible_count(s, reason, now_ms, n)
        - selected.len()) as nat)
}

impl CleanupPlan {
    /// Previews cleanup of an inventory: the first batch of eligible entries
    /// is selected, further eligible ones are deferred, and every other entry
    /// but the lock is counted as protected. Nothing is modified.
    pub fn preview(
        entries: &Vec<Entry>,
        reason: &CleanupReason,
        now_ms: u64,
        revision: u64,
        owner: u64,
    ) -> (r: Self)
        ensures
            (r@.selected, r@.protected, r@.deferred) == spec_plan(views(entries@), reason@, now_ms),
            r@.revision == revision,
            r@.owner == owner,
    {
        let ghost s = views(entries@);
        let mut selected: Vec<Entry> = Vec::new();
        let mut protected: usize = 0;
        let mut deferred: usize = 0;
        let mut i: usize = 0;
        while i < entries.len()
            invariant
                i <= entries@.len(),
                s == views(entries@),
                views(selected@) == cleanup_selected(s, reason@, now_ms, i as int),
                protected == protected_count(s, reason@, now_ms, i as int),
                deferred + selected@.len() == eligible_count(s, reason@, now_ms, i as int),
                protected <= i,
                deferred <= i,
            decreases entries.len() - i,
        {
            let entry = &entries[i];
            assert(entry@ == s[i as int]);
            proof {
                lemma_selected_count(s, reason@, now_ms, i as int);
            }
            let eligible = Self::eligible(entry, reason, now_ms);
            if eligible && selected.len() < MAX_CLEANUP_BATCH {
                let ghost before = selected@;
                selected.push(entry.duplicate());
                assert(views(selected@) =~= views(before).push(entry@));
            } else if eligible {
                deferred = deferred + 1;
            } else if !super::files::is_lock(entry.name.as_str()) {
                protected = protected + 1;
            }
            i = i + 1;
        }
        CleanupPlan { selected, protected, deferred, revision, owner }
    }

    /// Whether `reason` selects one entry.
    pub fn eligible(entry: &Entry, reason: &CleanupReason, now_ms: u64) -> (r: bool)
        ensures
            r == cleanup_eligible(entry@, reason@, now_ms),
    {
        match &entry.spool {
            Some(name) => match reason {
                CleanupReason::Expired => name.expired(now_ms),
                CleanupReason::PrivacyDisabled => true,
                CleanupReason::RetiredGeneration { producer, generation } => name.producer
                    == *producer && name.generation == *generation,
            },
            None => match reason {
                CleanupReason::PrivacyDisabled => super::logs::is_log(entry.name.as_str()),
                _ => false,
            },
        }
    }

    /// Number of selected entries.
    pub fn eligible_files(&self) -> (r: usize)
        ensures
            r == self@.selected.len(),
    {
        self.selected.len()
    }

    /// Bytes of the selected entries.
    pub fn eligible_bytes(&self) -> (r: u64)
        requires
            total_bytes(self@.selected) <= u64::MAX,
        ensures
            r == total_bytes(self@.selected),
    {
        let ghost s = views(self.selected@);
        let mut sum: u64 = 0;
        let mut i: usize = 0;
        while i < self.selected.len()
            invariant
                i <= self.selected@.len(),
                s == views(self.selected@),
                total_bytes(s) <= u64::MAX,
                sum == total_bytes(s.take(i as int)),
            decreases self.selected.len() - i,
        {
            proof {
                assert(s.take(i + 1).drop_last() =~= s.take(i as int));
                lemma_total_bytes_prefix(s, i + 1);
            }
            sum = sum + self.selected[i].bytes();
            i = i + 1;
        }
        assert(s.take(i as int) =~= s);
        sum
    }

    /// Number of protected entries.
    pub fn protected_files(&self) -> (r: usize)
        ensures
            r == self@.protected,
    {
        self.protected
    }

    /// Number of eligible entries left for a later batch.
    pub fn deferred_files(&self) -> (r: usize)
        ensures
            r == self@.deferred,
    {
        self.deferred
    }

    /// The selected entries, in inventory order.
    pub fn selected(&self) -> (r: &Vec<Entry>)
        ensures
            views(r@) == self@.selected,
    {
        &self.selected
    }

    /// Only a plan from this unchanged open instance may be applied.
    pub fn check_current(&self, revision: u64, owner: u64) -> (r: Result<(), RecoveryError>)
        ensures
            r == plan_applicable(self@, revision, owner),
    {
        if self.revision != revision || self.owner != owner {
            Err(RecoveryError::IdentityChanged)
        } else {
            Ok(())
        }
    }
}

/// Whether a plan may be applied to the store instance `owner` at
/// `revision`: only to the one it was previewed on, unchanged since.
pub open spec fn plan_applicable(plan: PlanView, revision: u64, owner: u64) -> Result<(), RecoveryError> {
    if plan.revision != revision || plan.owner != owner {
        Err(RecoveryError::IdentityChanged)
    } else {
        Ok(())
    }
}

/// Law: every change of the store advances its revision (`changing`), so a
/// plan previewed before a change is refused after it, and a plan is refused
/// by every other store instance at any revision.
pub proof fn lemma_stale_plan_refused(
    plan: PlanView,
    previewed: StoreCounters,
    now: StoreCounters,
    owner: u64,
    other: u64,
    any_revision: u64,
)
    requires
        plan.revision == previewed.revision,
        plan.owner == owner,
        previewed.revision < now.revision,
        other != owner,
    ensures
        plan_applicable(plan, now.revision, owner) == Err::<(), RecoveryError>(
            RecoveryError::IdentityChanged,
        ),
        plan_applicable(plan, any_revision, other) == Err::<(), RecoveryError>(
            RecoveryError::IdentityChanged,
        ),
        plan_applicable(plan, previewed.revision, owner) == Ok::<(), RecoveryError>(()),
{
}

proof fn lemma_total_bytes_prefix(s: Seq<EntryView>, n: int)
    requires
        0 <= n <= s.len(),
    ensures
        total_bytes(s.take(n)) <= total_bytes(s),
    decreases s.len() - n,
{
    if n < s.len() {
        lemma_total_bytes_prefix(s, n + 1);
        assert(s.take(n + 1).drop_last() =~= s.take(n));
    } else {
        assert(s.take(n) =~= s);
    }
}

/// Actual progress, including a partial failure; there is no all-or-nothing claim.
#[derive(Clone, Copy, Debug, PartialEq, Eq, Structural)]
pub struct CleanupResult {
    pub removed_files: usize,
    pub removed_bytes: u64,
    pub failure: Option<RecoveryError>,
}

impl CleanupResult {
    /// Nothing removed yet.
    pub fn empty() -> (r: Self)
        ensures
            r == (CleanupResult { removed_files: 0, removed_bytes: 0, failure: None }),
    {
        CleanupResult { removed_files: 0, removed_bytes: 0, failure: None }
    }

    /// Records the outcome of unlinking one selected entry; `false` stops
    /// the application. A removed spool artifact is counted as discarded
    /// and makes loss possible; a failure is kept and also makes loss possible.
    pub fn record_unlink(
        &mut self,
        counters: &mut StoreCounters,
        entry: &Entry,
        outcome: Result<(), RecoveryError>,
    ) -> (go_on: bool)
        requires
            old(self).removed_files < usize::MAX,
            old(self).removed_bytes + entry.identity.bytes <= u64::MAX,
        ensures
            *final(self) == unlink_step(*old(self), entry.identity.bytes, outcome),
            match outcome {
                Err(e) => {
                    &&& !go_on
                    &&& final(self).failure == Some(e)
                    &&& final(self).removed_files == old(self).removed_files
                    &&& final(self).removed_bytes == old(self).removed_bytes
                    &&& final(counters).unknown_gap
                    &&& final(counters).discarded_artifacts == old(counters).discarded_artifacts
                },
                Ok(()) => {
                    &&& go_on
                    &&& final(self).failure == old(self).failure
                    &&& final(self).removed_files == old(self).removed_files + 1
                    &&& final(self).removed_bytes == old(self).removed_bytes + entry.identity.bytes
                    &&& final(counters).discarded_artifacts == if entry.spool is Some {
                        min_u64((old(counters).discarded_artifacts + 1) as nat)
                    } else {
                        old(counters).discarded_artifacts as nat
                    }
                    &&& final(counters).unknown_gap == (old(counters).unknown_gap
                        || entry.spool is Some)
                },
            },
            final(counters).rejected_attempts == old(counters).rejected_attempts,
            final(counters).revision == old(counters).revision,
    {
        match outcome {
            Err(e) => {
                self.failure = Some(e);
                counters.unknown_gap = true;
                false
            },
            Ok(()) => {
                self.removed_files = self.removed_files + 1;
                self.removed_bytes = self.removed_bytes + entry.bytes();
                if entry.spool.is_some() {
                    counters.discarded_artifacts = counters.discarded_artifacts.saturating_add(1);
                    counters.unknown_gap = true;
                }
                true
            },
        }
    }

    /// Records the directory sync after an unlink; `false` stops the application.
    pub fn record_sync(&mut self, counters: &mut StoreCounters, outcome: Result<(), RecoveryError>) -> (go_on: bool)
        ensures
            *final(self) == sync_step(*old(self), outcome),
            go_on == outcome is Ok,
            outcome matches Err(e) ==> final(self).failure == Some(e) && final(counters).unknown_gap,
            outcome is Ok ==> *final(self) == *old(self) && *final(counters) == *old(counters),
            final(self).removed_files == old(self).removed_files,
            final(self).removed_bytes == old(self).removed_bytes,
            final(counters).rejected_attempts == old(counters).rejected_attempts,
            final(counters).discarded_artifacts == old(counters).discarded_artifacts,
            final(counters).revision == old(counters).revision,
    {
        match outcome {
            Err(e) => {
                self.failure = Some(e);
                counters.unknown_gap = true;
                false
            },
            Ok(()) => true,
        }
    }
}

/// A result after the unlink of one selected entry of `bytes` bytes.
pub open spec fn unlink_step(r: CleanupResult, bytes: u64, outcome: Result<(), RecoveryError>) -> CleanupResult {
    match outcome {
        Err(e) => CleanupResult { failure: Some(e), ..r },
        Ok(()) => CleanupResult {
            removed_files: (r.removed_files + 1) as usize,
            removed_bytes: (r.removed_bytes + bytes) as u64,
            ..r
        },
    }
}

/// A result after the directory sync that follows an unlink.
pub open spec fn sync_step(r: CleanupResult, outcome: Result<(), RecoveryError>) -> CleanupResult {
    match outcome {
        Err(e) => CleanupResult { failure: Some(e), ..r },
        Ok(()) => r,
    }
}

/// Applying the selected entries in order from an empty result, where the
/// unlink of entry `i` gives `unlinks[i]` and the sync after it `syncs[i]`;
/// the first failure stops the application.
pub open spec fn applied(
    selected: Seq<EntryView>,
    unlinks: Seq<Result<(), RecoveryError>>,
    syncs: Seq<Result<(), RecoveryError>>,
) -> CleanupResult
    decreases selected.len(),
{
    if selected.len() == 0 {
        CleanupResult { removed_files: 0, removed_bytes: 0, failure: None }
    } else {
        let i = selected.len() - 1;
        let before = applied(selected.drop_last(), unlinks, syncs);
        if before.failure is Some {
            before
        } else {
            let after = unlink_step(before, selected.last().identity.bytes, unlinks[i]);
            if after.failure is Some {
                after
            } else {
                sync_step(after, syncs[i])
            }
        }
    }
}

/// Law: applying a plan removes a prefix of its selection. It reports
/// exactly the files and bytes of the entries it removed, and, when no
/// unlink or sync fails, exactly the plan's eligible files and bytes with no
/// failure.
pub proof fn lemma_cleanup_applies_plan(
    selected: Seq<EntryView>,
    unlinks: Seq<Result<(), RecoveryError>>,
    syncs: Seq<Result<(), RecoveryError>>,
)
    requires
        selected.len() <= unlinks.len(),
        selected.len() <= syncs.len(),
        selected.len() <= usize::MAX,
        total_bytes(selected) <= u64::MAX,
    ensures
        applied(selected, unlinks, syncs).removed_files <= selected.len(),
        applied(selected, unlinks, syncs).removed_bytes == total_bytes(
            selected.take(applied(selected, unlinks, syncs).removed_files as int),
        ),
        (forall|i: int| 0 <= i < selected.len() ==> #[trigger] unlinks[i] is Ok && syncs[i] is Ok)
            ==> applied(selected, unlinks, syncs) == (CleanupResult {
            removed_files: selected.len() as usize,
            removed_bytes: total_bytes(selected) as u64,
            failure: None,
        }),
    decreases selected.len(),
{
    if selected.len() > 0 {
        let rest = selected.drop_last();
        lemma_total_bytes_prefix(selected, rest.len() as int);
        assert(selected.take(rest.len() as int) =~= rest);
        lemma_cleanup_applies_plan(rest, unlinks, syncs);
        let before = applied(rest, unlinks, syncs);
        assert(rest.take(before.removed_files as int) =~= selected.take(before.removed_files as int));
        if before.failure is None {
            assert(before.removed_files == rest.len()) by {
                lemma_no_failure_removes_all(rest, unlinks, syncs);
            }
            assert(rest.take(rest.len() as int) =~= rest);
            assert(selected.take(selected.len() as int) =~= selected);
        }
        if forall|i: int| 0 <= i < selected.len() ==> #[trigger] unlinks[i] is Ok && syncs[i] is Ok {
            assert forall|i: int| 0 <= i < rest.len() implies #[trigger] unlinks[i] is Ok
                && syncs[i] is Ok by {
                assert(unlinks[i] is Ok && syncs[i] is Ok);
            }
            assert(unlinks[rest.len() as int] is Ok && syncs[rest.len() as int] is Ok);
        }
    }
}

/// Without a failure every selected entry was removed.
proof fn lemma_no_failure_removes_all(
    selected: Seq<EntryView>,
    unlinks: Seq<Result<(), RecoveryError>>,
    syncs: Seq<Result<(), RecoveryError>>,
)
    requires
        selected.len() <= usize::MAX,
        total_bytes(selected) <= u64::MAX,
        applied(selected, unlinks, syncs).failure is None,
    ensures
        applied(selected, unlinks, syncs).removed_files == selected.len(),
    decreases selected.len(),
{
    if selected.len() > 0 {
        let rest = selected.drop_last();
        lemma_total_bytes_prefix(selected, rest.len() as int);
        assert(selected.take(rest.len() as int) =~= rest);
        lemma_no_failure_removes_all(rest, unlinks, syncs);
    }
}

/// The inventory read from directory children, in read order.
pub open spec fn read_inventory(es: Seq<EntryView>, children: Seq<ScannedChild>) -> bool {
    &&& es.len() == children.len()
    &&& forall|i: int|
        0 <= i < es.len() ==> entry_wf(#[trigger] es[i]) && entry_from_child(es[i], children[i])
}

/// The status a snapshot reports for the children read: the counts of the
/// inventory they give and the store's counters.
pub open spec fn snapshot_status(
    children: Seq<ScannedChild>,
    counters: StoreCounters,
    status: RecoveryStatus,
) -> bool {
    &&& status.spool_files == counted_children(children)
    &&& exists|es: Seq<EntryView>|
        {
            &&& #[trigger] read_inventory(es, children)
            &&& status.spool_bytes == min_u64(counted_bytes(es))
            &&& status.protected_files == unrecognized_files(es)
            &&& status.log_bytes == min_u64(log_bytes(es))
        }
    &&& status.rejected_attempts == counters.rejected_attempts
    &&& status.discarded_artifacts == counters.discarded_artifacts
    &&& status.unknown_gap == counters.unknown_gap
}

/// The children read give one inventory only.
proof fn lemma_read_inventory_unique(a: Seq<EntryView>, b: Seq<EntryView>, children: Seq<ScannedChild>)
    requires
        read_inventory(a, children),
        read_inventory(b, children),
    ensures
        a == b,
{
    assert forall|i: int| 0 <= i < a.len() implies a[i] == b[i] by {
        assert(entry_wf(a[i]) && entry_from_child(a[i], children[i]));
        assert(entry_wf(b[i]) && entry_from_child(b[i], children[i]));
        match (a[i].spool, b[i].spool) {
            (Some(x), Some(y)) => {
                super::names::lemma_spool_filename_injective(x, y);
            },
            (Some(x), None) => {
                assert(spool_name_wf(x));
            },
            (None, Some(y)) => {
                assert(spool_name_wf(y));
            },
            (None, None) => {},
        }
    }
    assert(a =~= b);
}

/// Law: a snapshot is repeatable: the same children read and the same
/// counters give the same status.
pub proof fn lemma_snapshot_repeatable(
    children: Seq<ScannedChild>,
    counters: StoreCounters,
    first: RecoveryStatus,
    second: RecoveryStatus,
)
    requires
        snapshot_status(children, counters, first),
        snapshot_status(children, counters, second),
    ensures
        first == second,
{
    let a = choose|es: Seq<EntryView>|
        {
            &&& #[trigger] read_inventory(es, children)
            &&& first.spool_bytes == min_u64(counted_bytes(es))
            &&& first.protected_files == unrecognized_files(es)
            &&& first.log_bytes == min_u64(log_bytes(es))
        };
    let b = choose|es: Seq<EntryView>|
        {
            &&& #[trigger] read_inventory(es, children)
            &&& second.spool_bytes == min_u64(counted_bytes(es))
            &&& second.protected_files == unrecognized_files(es)
            &&& second.log_bytes == min_u64(log_bytes(es))
        };
    lemma_read_inventory_unique(a, b, children);
}

/// The status of the store's directory from the children read: the scan's
/// checks and bound decide as for `scan`, and the counts are those of
/// `summarize` over the inventory. Nothing is modified.
pub fn snapshot(children: &Vec<ScannedChild>, uid: u32, counters: &StoreCounters) -> (r: Result<
    RecoveryStatus,
    RecoveryError,
>)
    ensures
        r is Ok <==> (scan_failure(children@, uid, children@.len() as int) is None
            && counted_children(children@) <= MAX_SPOOL_FILES),
        match r {
            Ok(status) => snapshot_status(children@, *counters, status),
            Err(e) => scan_failure(children@, uid, children@.len() as int) == Some(e) || (
            scan_failure(children@, uid, children@.len() as int) is None && e
                == RecoveryError::BoundExceeded && counted_children(children@) > MAX_SPOOL_FILES),
        },
{
    let entries = inventory(children, uid)?;
    let ghost es = views(entries@);
    assert(read_inventory(es, children@)) by {
        assert forall|i: int| 0 <= i < es.len() implies entry_wf(#[trigger] es[i])
            && entry_from_child(es[i], children@[i]) by {
            assert(es[i] == entries@[i]@);
        }
    }
    proof {
        lemma_counted_matches(es, children@);
    }
    let status = summarize(&entries, counters);
    if status.spool_files > MAX_SPOOL_FILES {
        return Err(RecoveryError::BoundExceeded);
    }
    Ok(status)
}

/// Bytes of the fixed log files among the entries.
pub open spec fn log_bytes(s: Seq<EntryView>) -> nat
    decreases s.len(),
{
    if s.len() == 0 {
        0
    } else {
        log_bytes(s.drop_last()) + if is_log_name(s.last().name) {
            s.last().identity.bytes as nat
        } else {
            0nat
        }
    }
}

/// Counted entries whose name is not a generated spool name.
pub open spec fn unrecognized_files(s: Seq<EntryView>) -> nat
    decreases s.len(),
{
    if s.len() == 0 {
        0
    } else {
        unrecognized_files(s.drop_last()) + if counted(s.last()) && s.last().spool is None {
            1nat
        } else {
            0nat
        }
    }
}

/// The status of an inventory: spool and log usage, protected (unrecognized)
/// files, and the store's volatile loss accounting.
pub fn summarize(entries: &Vec<Entry>, counters: &StoreCounters) -> (r: RecoveryStatus)
    ensures
        ({
            let s = views(entries@);
            &&& r.spool_bytes == min_u64(counted_bytes(s))
            &&& r.spool_files == counted_files(s)
            &&& r.protected_files == unrecognized_files(s)
            &&& r.log_bytes == min_u64(log_bytes(s))
            &&& r.rejected_attempts == counters.rejected_attempts
            &&& r.discarded_artifacts == counters.discarded_artifacts
            &&& r.unknown_gap == counters.unknown_gap
        }),
{
    let ghost s = views(entries@);
    let mut status = RecoveryStatus {
        spool_bytes: 0,
        spool_files: 0,
        protected_files: 0,
        log_bytes: 0,
        rejected_attempts: counters.rejected_attempts,
        discarded_artifacts: counters.discarded_artifacts,
        unknown_gap: counters.unknown_gap,
    };
    let mut i: usize = 0;
    while i < entries.len()
        invariant
            i <= entries@.len(),
            s == views(entries@),
            status.spool_bytes == min_u64(counted_bytes(s.take(i as int))),
            status.spool_files == counted_files(s.take(i as int)),
            status.protected_files == unrecognized_files(s.take(i as int)),
            status.log_bytes == min_u64(log_bytes(s.take(i as int))),
            status.spool_files <= i,
            status.protected_files <= status.spool_files,
            status.rejected_attempts == counters.rejected_attempts,
            status.discarded_artifacts == counters.discarded_artifacts,
            status.unknown_gap == counters.unknown_gap,
        decreases entries.len() - i,
    {
        let entry = &entries[i];
        proof {
            assert(s.take(i + 1).drop_last() =~= s.take(i as int));
            assert(s.take(i + 1).last() == entry@);
        }
        if super::logs::is_log(entry.name.as_str()) {
            status.log_bytes = status.log_bytes.saturating_add(entry.bytes());
        } else if !super::files::is_lock(entry.name.as_str()) {
            status.spool_files = status.spool_files + 1;
            status.spool_bytes = status.spool_bytes.saturating_add(entry.bytes());
            if entry.spool.is_none() {
                status.protected_files = status.protected_files + 1;
            }
        }
        i = i + 1;
    }
    assert(s.take(entries@.len() as int) =~= s);
    status
}

} // verus!
