//! Decisions of the run catalog and of the runtime control store.
use super::StorageError;
use crate::runtime::control::{ControlState, ProcessIdentity, ProcessView, control_valid, transition_conflicts};
use crate::runtime::{ManagedRun, RunRecord, MAX_MANAGED_RUNS};
use vstd::prelude::*;

verus! {

/// Identifying a run's server: the run must exist, and a recorded server
/// may only be confirmed, never replaced. The run with its server recorded.
pub open spec fn identified(run: Option<RunRecord>, server: ProcessView) -> Result<RunRecord, StorageError> {
    match run {
        None => Err(StorageError::InvalidRequest),
        Some(r) => if r.server matches Some(saved) && saved != server {
            Err(StorageError::Conflict)
        } else {
            Ok(RunRecord { server: Some(server), ..r })
        },
    }
}

/// Decides `identified` for the stored run.
pub fn identify(run: Option<ManagedRun>, server: ProcessIdentity) -> (r: Result<ManagedRun, StorageError>)
    ensures
        match r {
            Ok(v) => identified(
                match run {
                    Some(x) => Some(x@),
                    None => None,
                },
                server@,
            ) == Ok::<RunRecord, StorageError>(v@),
            Err(e) => identified(
                match run {
                    Some(x) => Some(x@),
                    None => None,
                },
                server@,
            ) == Err::<RunRecord, StorageError>(e),
        },
{
    let mut run = match run {
        Some(r) => r,
        None => return Err(StorageError::InvalidRequest),
    };
    let differs = match &run.server {
        Some(saved) => !saved.same(&server),
        None => false,
    };
    if differs {
        return Err(StorageError::Conflict);
    }
    run.server = Some(server);
    Ok(run)
}

/// Law: a run's recorded server never changes once recorded: identifying
/// it again succeeds only with the same server and leaves the record as it
/// was.
pub proof fn lemma_server_recorded_once(run: RunRecord, first: ProcessView, second: ProcessView)
    requires
        identified(Some(run), first) is Ok,
    ensures
        identified(Some(identified(Some(run), first)->Ok_0), second) is Ok <==> second == first,
        identified(Some(identified(Some(run), first)->Ok_0), first) == identified(Some(run), first),
{
}

/// What reserving a run for a task does: an existing run of the task is
/// returned as is; otherwise the task must exist and the catalog have room.
#[derive(Clone, Copy, Debug, PartialEq, Eq, Structural)]
pub enum Reservation {
    Existing,
    Create,
}

/// A reservation given whether the task already has a run, whether the
/// task exists and how many runs are stored.
pub open spec fn reservation(has_run: bool, task_exists: bool, runs: u64) -> Result<
    Reservation,
    StorageError,
> {
    if has_run {
        Ok(Reservation::Existing)
    } else if !task_exists {
        Err(StorageError::InvalidRequest)
    } else if runs + 1 > MAX_MANAGED_RUNS {
        Err(StorageError::ResourceExhausted)
    } else {
        Ok(Reservation::Create)
    }
}

/// Decides a reservation from the stored run of the task, whether the task
/// exists and how many runs are stored.
pub fn reserve(has_run: bool, task_exists: bool, runs: u64) -> (r: Result<Reservation, StorageError>)
    ensures
        r == reservation(has_run, task_exists, runs),
{
    if has_run {
        return Ok(Reservation::Existing);
    }
    if !task_exists {
        return Err(StorageError::InvalidRequest);
    }
    super::sequencing::capacity(runs, MAX_MANAGED_RUNS as u64, 1)?;
    Ok(Reservation::Create)
}

/// A new run of `task_id` in `project_id`, with no server recorded yet.
pub fn new_run(id: String, task_id: String, project_id: String, runtime_root: String) -> (r: ManagedRun)
    ensures
        r@ == (RunRecord {
            id: id@,
            task_id: task_id@,
            project_id: project_id@,
            runtime_root: runtime_root@,
            server: None,
        }),
{
    ManagedRun { id, task_id, project_id, runtime_root, server: None }
}

/// The run a reservation answers with and whether it was created: the
/// stored run of the task as it is, or the `fresh` run.
pub open spec fn reserved(stored: Option<RunRecord>, task_exists: bool, runs: u64, fresh: RunRecord) -> Result<
    (RunRecord, bool),
    StorageError,
> {
    match reservation(stored is Some, task_exists, runs) {
        Err(e) => Err(e),
        Ok(Reservation::Existing) => Ok((stored.unwrap(), false)),
        Ok(Reservation::Create) => Ok((fresh, true)),
    }
}

/// Reserves a run for a task: its stored run, or the `fresh` run, built by
/// `new_run`, which is then inserted at the next revision.
pub fn reserve_run(stored: Option<ManagedRun>, task_exists: bool, runs: u64, fresh: ManagedRun) -> (r:
    Result<(ManagedRun, bool), StorageError>)
    ensures
        match r {
            Ok((run, created)) => reserved(
                match stored {
                    Some(x) => Some(x@),
                    None => None,
                },
                task_exists,
                runs,
                fresh@,
            ) == Ok::<(RunRecord, bool), StorageError>((run@, created)),
            Err(e) => reserved(
                match stored {
                    Some(x) => Some(x@),
                    None => None,
                },
                task_exists,
                runs,
                fresh@,
            ) == Err::<(RunRecord, bool), StorageError>(e),
        },
{
    match reserve(stored.is_some(), task_exists, runs)? {
        Reservation::Existing => Ok((stored.unwrap(), false)),
        Reservation::Create => Ok((fresh, true)),
    }
}

/// The store revision after a reservation at revision `current`: a
/// returned existing run leaves it, a created run advances it by one.
pub open spec fn revision_after_reserve(created: bool, current: u64) -> Result<u64, StorageError> {
    if created {
        super::sequencing::next_revision(current, current)
    } else {
        Ok(current)
    }
}

/// The revision a reservation leaves the store at.
pub fn reserved_revision(created: bool, current: u64) -> (r: Result<u64, StorageError>)
    ensures
        r == revision_after_reserve(created, current),
{
    if created {
        super::sequencing::require_revision(current, current)
    } else {
        Ok(current)
    }
}

/// Law: reserving is idempotent. A first reservation of an existing task
/// with room creates the fresh run, with no server; once stored, every
/// later reservation of the task returns that same run, not created,
/// whatever its runtime root, the catalog's count or the fresh run offered;
/// only a created run advances the store revision, by one.
pub proof fn lemma_reserve_idempotent(
    task_exists: bool,
    runs: u64,
    fresh: RunRecord,
    later_exists: bool,
    later_runs: u64,
    later_fresh: RunRecord,
    current: u64,
)
    requires
        task_exists,
        runs + 1 <= MAX_MANAGED_RUNS,
    ensures
        reserved(None, task_exists, runs, fresh) == Ok::<(RunRecord, bool), StorageError>((fresh, true)),
        reserved(Some(fresh), later_exists, later_runs, later_fresh) == Ok::<
            (RunRecord, bool),
            StorageError,
        >((fresh, false)),
        reserved(None, false, runs, fresh) == Err::<(RunRecord, bool), StorageError>(
            StorageError::InvalidRequest,
        ),
        fresh.server is None ==> reserved(None, task_exists, runs, fresh)->Ok_0.0.server is None,
        current < u64::MAX ==> revision_after_reserve(true, current) == Ok::<u64, StorageError>(
            (current + 1) as u64,
        ),
        revision_after_reserve(false, current) == Ok::<u64, StorageError>(current),
{
}

/// What saving a control record does.
#[derive(Clone, Copy, Debug, PartialEq, Eq, Structural)]
pub enum ControlSave {
    /// The stored record is already this one.
    Unchanged,
    /// Store the record at the next revision.
    Write,
}

/// Saving a control record: an invalid record is refused; the same record
/// again changes nothing; a record that conflicts with the stored one is
/// refused; otherwise it is written.
pub open spec fn control_save(
    stored: Option<crate::runtime::control::ControlView>,
    state: crate::runtime::control::ControlView,
    encoded_len: nat,
) -> Result<ControlSave, StorageError> {
    if !control_valid(state, encoded_len) {
        Err(StorageError::InvalidRequest)
    } else {
        match stored {
            Some(old) => if old == state {
                Ok(ControlSave::Unchanged)
            } else if transition_conflicts(old, state) {
                Err(StorageError::Conflict)
            } else {
                Ok(ControlSave::Write)
            },
            None => Ok(ControlSave::Write),
        }
    }
}

/// Decides `control_save` against the stored record.
pub fn save(stored: Option<&ControlState>, state: &ControlState, encoded_len: usize) -> (r: Result<ControlSave, StorageError>)
    ensures
        r == control_save(
            match stored {
                Some(s) => Some(s@),
                None => None,
            },
            state@,
            encoded_len as nat,
        ),
{
    if state.validate(encoded_len).is_err() {
        return Err(StorageError::InvalidRequest);
    }
    match stored {
        Some(old) => if old.same(state) {
            Ok(ControlSave::Unchanged)
        } else if old.conflicts_with(state) {
            Err(StorageError::Conflict)
        } else {
            Ok(ControlSave::Write)
        },
        None => Ok(ControlSave::Write),
    }
}

/// The store revision after a save decision at revision `current`: an
/// unchanged record leaves it, a written one advances it by one.
pub open spec fn revision_after_save(save: ControlSave, current: u64) -> Result<u64, StorageError> {
    match save {
        ControlSave::Unchanged => Ok(current),
        ControlSave::Write => super::sequencing::next_revision(current, current),
    }
}

/// The revision a save decision leaves the store at.
pub fn saved_revision(save: ControlSave, current: u64) -> (r: Result<u64, StorageError>)
    ensures
        r == revision_after_save(save, current),
{
    match save {
        ControlSave::Unchanged => Ok(current),
        ControlSave::Write => super::sequencing::require_revision(current, current),
    }
}

/// Law: saving settles. A valid record saved over the same stored record is
/// unchanged and leaves the revision; over no record or a different one it
/// is written at the next revision unless it conflicts with the stored one;
/// and saving it again after that is unchanged.
pub proof fn lemma_save_settles(
    stored: Option<crate::runtime::control::ControlView>,
    state: crate::runtime::control::ControlView,
    encoded_len: nat,
    current: u64,
)
    requires
        control_valid(state, encoded_len),
        current < u64::MAX,
    ensures
        stored == Some(state) ==> control_save(stored, state, encoded_len) == Ok::<
            ControlSave,
            StorageError,
        >(ControlSave::Unchanged) && revision_after_save(ControlSave::Unchanged, current) == Ok::<
            u64,
            StorageError,
        >(current),
        stored != Some(state) ==> (control_save(stored, state, encoded_len) == Err::<
            ControlSave,
            StorageError,
        >(StorageError::Conflict) || control_save(stored, state, encoded_len) == Ok::<
            ControlSave,
            StorageError,
        >(ControlSave::Write)),
        stored is None ==> control_save(stored, state, encoded_len) == Ok::<ControlSave, StorageError>(
            ControlSave::Write,
        ),
        revision_after_save(ControlSave::Write, current) == Ok::<u64, StorageError>((current + 1) as u64),
        control_save(Some(state), state, encoded_len) == Ok::<ControlSave, StorageError>(
            ControlSave::Unchanged,
        ),
        control_save(stored, state, encoded_len) == Err::<ControlSave, StorageError>(
            StorageError::Conflict,
        ) ==> (stored matches Some(old) && transition_conflicts(old, state)),
{
}

/// One other run's row for the writer check: whether its project has the
/// same identity as the asking one, and whether its control record says
/// it stopped (none when it has no record).
pub open spec fn writes_same_project(row: (bool, Option<bool>)) -> bool {
    row.0 && !(row.1 == Some(true))
}

/// Whether another run may write the same project: one among the first
/// catalog-bound rows that shares the project identity and has not
/// stopped; past the bound without one, resources are exhausted.
pub open spec fn other_writer(rows: Seq<(bool, Option<bool>)>) -> Result<bool, StorageError> {
    let limit = if rows.len() < MAX_MANAGED_RUNS {
        rows.len()
    } else {
        MAX_MANAGED_RUNS as nat
    };
    if exists|i: int| 0 <= i < limit && #[trigger] writes_same_project(rows[i]) {
        Ok(true)
    } else if rows.len() > MAX_MANAGED_RUNS {
        Err(StorageError::ResourceExhausted)
    } else {
        Ok(false)
    }
}

/// Decides `other_writer` over the other runs' rows, in query order.
pub fn other_writers(rows: &Vec<(bool, Option<bool>)>) -> (r: Result<bool, StorageError>)
    ensures
        r == other_writer(rows@),
{
    let mut i: usize = 0;
    while i < rows.len()
        invariant
            i <= rows@.len(),
            i <= MAX_MANAGED_RUNS,
            forall|k: int| 0 <= k < i ==> !writes_same_project(#[trigger] rows@[k]),
        decreases rows@.len() - i,
    {
        if i + 1 > MAX_MANAGED_RUNS {
            return Err(StorageError::ResourceExhausted);
        }
        let (same, stopped) = rows[i];
        let halted = match stopped {
            Some(s) => s,
            None => false,
        };
        if same && !halted {
            assert(writes_same_project(rows@[i as int]));
            return Ok(true);
        }
        i = i + 1;
    }
    Ok(false)
}

} // verus!
