//! Decisions of the runtime service between its subprocess and file steps:
//! launch identity, pane state, terminal ownership and the launch handoff.
use super::argv::terminal_description_of;
use super::control::{ControlState, ProcessIdentity, TerminalIntent, TerminalView};
use super::ownership::{lookup, pair_views, property, property_is};
use super::{ManagedRun, RunRecord};
use crate::decimal::{parse_u32, parsed_unsigned};
use crate::manager::ManagerError;
use crate::text::{lines, lines_of, split, split_on, split_once, split_once_at, str_eq, trim, trimmed};
use vstd::prelude::*;

verus! {

/// The value of the last pair with `key`.
pub open spec fn lookup_last(pairs: Seq<(Seq<char>, Seq<char>)>, key: Seq<char>) -> Option<Seq<char>>
    decreases pairs.len(),
{
    if pairs.len() == 0 {
        None
    } else if pairs.last().0 == key {
        Some(pairs.last().1)
    } else {
        lookup_last(pairs.drop_last(), key)
    }
}

/// The `key=value` lines of a text, split at their first `=`; other lines
/// are skipped.
pub open spec fn loose_pairs(ls: Seq<Seq<char>>) -> Seq<(Seq<char>, Seq<char>)>
    decreases ls.len(),
{
    if ls.len() == 0 {
        Seq::empty()
    } else {
        let rest = loose_pairs(ls.drop_last());
        match split_once_at(ls.last(), '=') {
            Some(p) => rest.push(p),
            None => rest,
        }
    }
}

/// The main pid a started runtime unit reports: its properties (the last
/// value of a key counting) show it part of and bound to nothing and killed
/// as a control group, and its main pid fits a u32.
pub open spec fn launched_pid(text: Seq<char>) -> Option<nat> {
    let values = loose_pairs(lines_of(text));
    if lookup_last(values, "PartOf"@) == Some(Seq::<char>::empty()) && lookup_last(
        values,
        "BindsTo"@,
    ) == Some(Seq::<char>::empty()) && lookup_last(values, "KillMode"@) == Some(
        "control-group"@,
    ) && (lookup_last(values, "MainPID"@) matches Some(p) && (parsed_unsigned(p) matches Some(v)
        && v <= u32::MAX)) {
        parsed_unsigned(lookup_last(values, "MainPID"@).unwrap())
    } else {
        None
    }
}

fn loose_properties(text: &str) -> (r: Vec<(String, String)>)
    ensures
        pair_views(r@) == loose_pairs(lines_of(text@)),
{
    let ls = lines(text);
    let ghost lv = lines_of(text@);
    let mut out: Vec<(String, String)> = Vec::new();
    let mut i: usize = 0;
    while i < ls.len()
        invariant
            i <= ls@.len(),
            ls@.map_values(|s: String| s@) == lv,
            lv == lines_of(text@),
            pair_views(out@) == loose_pairs(lv.take(i as int)),
        decreases ls@.len() - i,
    {
        assert(ls@.map_values(|s: String| s@)[i as int] == ls@[i as int]@);
        assert(lv.take(i + 1).drop_last() =~= lv.take(i as int));
        let ghost before = out@;
        match split_once(ls[i].as_str(), '=') {
            Some(p) => {
                out.push(p);
                assert(pair_views(out@) =~= pair_views(before).push((out@.last().0@, out@.last().1@)));
            },
            None => {},
        }
        i = i + 1;
    }
    assert(lv.take(i as int) =~= lv);
    out
}

fn value_last<'a>(values: &'a Vec<(String, String)>, key: &str) -> (r: Option<&'a String>)
    ensures
        match r {
            Some(v) => lookup_last(pair_views(values@), key@) == Some(v@),
            None => lookup_last(pair_views(values@), key@) is None,
        },
{
    let ghost all = pair_views(values@);
    let mut i: usize = values.len();
    assert(all.take(i as int) =~= all);
    while i > 0
        invariant
            i <= values@.len(),
            all == pair_views(values@),
            lookup_last(all, key@) == lookup_last(all.take(i as int), key@),
        decreases i,
    {
        let ghost pre = all.take(i as int);
        assert(pre.last() == (values@[i - 1].0@, values@[i - 1].1@));
        assert(pre.drop_last() =~= all.take(i - 1));
        if str_eq(values[i - 1].0.as_str(), key) {
            return Some(&values[i - 1].1);
        }
        i = i - 1;
    }
    None
}

fn value_last_is(values: &Vec<(String, String)>, key: &str, expected: &str) -> (r: bool)
    ensures
        r == (lookup_last(pair_views(values@), key@) == Some(expected@)),
{
    match value_last(values, key) {
        Some(v) => str_eq(v.as_str(), expected),
        None => false,
    }
}

/// The main pid of a just started runtime unit, from `systemctl show`
/// output; otherwise the runtime is unavailable.
pub fn launched_server(text: &str) -> (r: Result<u32, ManagerError>)
    ensures
        match r {
            Ok(p) => launched_pid(text@) == Some(p as nat),
            Err(e) => e == ManagerError::RuntimeUnavailable && launched_pid(text@) is None,
        },
{
    proof {
        reveal_strlit("");
        assert(""@ =~= Seq::<char>::empty());
    }
    let values = loose_properties(text);
    if !value_last_is(&values, "PartOf", "") || !value_last_is(&values, "BindsTo", "")
        || !value_last_is(&values, "KillMode", "control-group") {
        return Err(ManagerError::RuntimeUnavailable);
    }
    match value_last(&values, "MainPID") {
        Some(p) => match parse_u32(p.as_str()) {
            Some(pid) => Ok(pid),
            None => Err(ManagerError::RuntimeUnavailable),
        },
        None => Err(ManagerError::RuntimeUnavailable),
    }
}

/// What a run's pane reports of its process.
#[derive(Clone, Copy, Debug, PartialEq, Eq, Structural)]
pub enum PaneStatus {
    Exited,
    Alive { pid: u32 },
}

/// `display-message -p #{pid}:#{pane_dead}:#{pane_pid}` on a run's server:
/// three fields of the trimmed text, the first the server's pid, the second
/// `1` for an exited pane or `0` for a live one whose pid fits a u32.
pub open spec fn pane_status_of(text: Seq<char>, server_pid: u32) -> Option<PaneStatus> {
    let f = split_on(trimmed(text), ':');
    if f.len() == 3 && parsed_unsigned(f[0]) == Some(server_pid as nat) {
        if f[1] == "1"@ {
            Some(PaneStatus::Exited)
        } else if f[1] == "0"@ && (parsed_unsigned(f[2]) matches Some(v) && v <= u32::MAX) {
            Some(PaneStatus::Alive { pid: parsed_unsigned(f[2]).unwrap() as u32 })
        } else {
            None
        }
    } else {
        None
    }
}

/// Reads the state of a run's pane; anything else leaves the runtime
/// unavailable.
pub fn pane_status(text: &str, server_pid: u32) -> (r: Result<PaneStatus, ManagerError>)
    ensures
        match r {
            Ok(s) => pane_status_of(text@, server_pid) == Some(s),
            Err(e) => e == ManagerError::RuntimeUnavailable && pane_status_of(text@, server_pid) is None,
        },
{
    let t = trim(text);
    let f = split(t.as_str(), ':');
    if f.len() != 3 {
        return Err(ManagerError::RuntimeUnavailable);
    }
    let ghost fv = f@.map_values(|s: String| s@);
    assert(fv[0] == f@[0]@ && fv[1] == f@[1]@ && fv[2] == f@[2]@);
    let server_ok = match parse_u32(f[0].as_str()) {
        Some(p) => p == server_pid,
        None => false,
    };
    if !server_ok {
        return Err(ManagerError::RuntimeUnavailable);
    }
    if str_eq(f[1].as_str(), "1") {
        return Ok(PaneStatus::Exited);
    }
    if !str_eq(f[1].as_str(), "0") {
        return Err(ManagerError::RuntimeUnavailable);
    }
    match parse_u32(f[2].as_str()) {
        Some(pid) => Ok(PaneStatus::Alive { pid }),
        None => Err(ManagerError::RuntimeUnavailable),
    }
}

/// What the properties of a terminal unit claim: described by the run and
/// the terminal nonce, part of and bound to nothing, killed as a control
/// group, active, with a main pid that fits a u32. The claim is that pid.
pub open spec fn terminal_claim(
    values: Seq<(Seq<char>, Seq<char>)>,
    run: RunRecord,
    intent: TerminalView,
) -> Option<nat> {
    let pid = lookup(values, "MainPID"@);
    if lookup(values, "Description"@) == Some(terminal_description_of(run.id, intent.nonce))
        && lookup(values, "PartOf"@) == Some(Seq::<char>::empty()) && lookup(values, "BindsTo"@)
        == Some(Seq::<char>::empty()) && lookup(values, "KillMode"@) == Some("control-group"@)
        && lookup(values, "ActiveState"@) == Some("active"@) && (pid matches Some(p) && (
    parsed_unsigned(p) matches Some(v) && v <= u32::MAX)) {
        parsed_unsigned(pid.unwrap())
    } else {
        None
    }
}

/// Checks what the unit properties of a run's terminal claim; the main pid
/// claimed, or unverified ownership.
pub fn terminal_claimed(values: &Vec<(String, String)>, run: &ManagedRun, intent: &TerminalIntent) -> (r: Result<u32, ManagerError>)
    ensures
        match r {
            Ok(p) => terminal_claim(pair_views(values@), run@, intent@) == Some(p as nat),
            Err(e) => e == ManagerError::OwnershipUnverified && terminal_claim(
                pair_views(values@),
                run@,
                intent@,
            ) is None,
        },
{
    proof {
        reveal_strlit("");
        assert(""@ =~= Seq::<char>::empty());
    }
    let describe = super::argv::terminal_description(run, intent);
    if !property_is(values, "Description", describe.as_str()) || !property_is(values, "PartOf", "")
        || !property_is(values, "BindsTo", "") || !property_is(values, "KillMode", "control-group")
        || !property_is(values, "ActiveState", "active") {
        return Err(ManagerError::OwnershipUnverified);
    }
    let pid_text = property(values, "MainPID")?;
    match parse_u32(pid_text.as_str()) {
        Some(pid) => Ok(pid),
        None => Err(ManagerError::OwnershipUnverified),
    }
}

/// The process read at the terminal's claimed pid is its recorded process
/// if one is recorded, in the unit's control group.
pub fn confirm_terminal(
    values: &Vec<(String, String)>,
    intent: &TerminalIntent,
    process: &ProcessIdentity,
    cgroup: &str,
) -> (r: Result<(), ManagerError>)
    ensures
        r == if (intent@.process matches Some(p) ==> p == process@) && lookup(
            pair_views(values@),
            "ControlGroup"@,
        ) == Some(cgroup@) {
            Ok::<(), ManagerError>(())
        } else {
            Err(ManagerError::OwnershipUnverified)
        },
{
    let differs = match &intent.process {
        Some(p) => !p.same(process),
        None => false,
    };
    if differs || !property_is(values, "ControlGroup", cgroup) {
        return Err(ManagerError::OwnershipUnverified);
    }
    Ok(())
}

/// Largest launch handoff record, in bytes.
pub const MAX_LAUNCH_BYTES: usize = 32768;

/// What to do with the launch handoff of a run.
#[derive(Clone, Copy, Debug, PartialEq, Eq, Structural)]
pub enum Handoff {
    /// The same launch is already written.
    Keep,
    /// Write the launch, refusing to replace anything.
    Write,
}

/// The handoff step for the encoded launch `data`: a record over the bound
/// is refused; once claimed, the outcome of the earlier launch is unknown; a
/// pending launch is kept when it is byte for byte the same and otherwise
/// belongs to someone else; with none, it is written.
pub open spec fn handoff_step(data: Seq<u8>, claimed: bool, existing: Option<Seq<u8>>) -> Result<Handoff, ManagerError> {
    if data.len() > MAX_LAUNCH_BYTES {
        Err(ManagerError::InvalidRequest)
    } else if claimed {
        Err(ManagerError::UnknownOutcome)
    } else {
        match existing {
            Some(e) => if e == data {
                Ok(Handoff::Keep)
            } else {
                Err(ManagerError::OwnershipUnverified)
            },
            None => Ok(Handoff::Write),
        }
    }
}

/// Decides `handoff_step` from the claim marker and the pending launch's
/// re-encoded bytes, when one exists.
pub fn handoff(data: &[u8], claimed: bool, existing: Option<&[u8]>) -> (r: Result<Handoff, ManagerError>)
    ensures
        r == handoff_step(data@, claimed, match existing {
            Some(e) => Some(e@),
            None => None,
        }),
{
    if data.len() > MAX_LAUNCH_BYTES {
        return Err(ManagerError::InvalidRequest);
    }
    if claimed {
        return Err(ManagerError::UnknownOutcome);
    }
    match existing {
        Some(e) => {
            if crate::text::same_bytes(e, data) {
                Ok(Handoff::Keep)
            } else {
                Err(ManagerError::OwnershipUnverified)
            }
        },
        None => Ok(Handoff::Write),
    }
}

/// Law: a launch runs at most once: once its handoff is claimed, no later
/// request (a retry or a delayed earlier one) writes or keeps a launch
/// record; its outcome is unknown.
pub proof fn lemma_claimed_launch_is_final(data: Seq<u8>, existing: Option<Seq<u8>>)
    requires
        data.len() <= MAX_LAUNCH_BYTES,
    ensures
        handoff_step(data, true, existing) == Err::<Handoff, ManagerError>(
            ManagerError::UnknownOutcome,
        ),
{
}

/// A launch is pending when it was written and not yet claimed.
pub fn pending(claimed: bool, launch: bool) -> (r: bool)
    ensures
        r == (!claimed && launch),
{
    !claimed && launch
}

/// Whether a missing pane may be started: only for a launch with a nonce
/// whose handoff is still pending; otherwise its outcome is unknown.
pub fn may_start_pane(state: &ControlState, pending: bool) -> (r: Result<(), ManagerError>)
    ensures
        r == if state@.launch_nonce is Some && pending {
            Ok::<(), ManagerError>(())
        } else {
            Err(ManagerError::UnknownOutcome)
        },
{
    if state.launch_nonce.is_none() || !pending {
        return Err(ManagerError::UnknownOutcome);
    }
    Ok(())
}

/// Unix socket paths of the runtime (the root, then at most 67 bytes of
/// fixed components and ids) must fit the 104-byte address limit.
pub fn socket_root_fits(root: &str) -> (r: bool)
    ensures
        r == (crate::runtime::control::bytes(root@).len() + 67 < 104),
{
    root.as_bytes().len() < 37
}

/// Most bytes of subprocess output read.
pub const MAX_OUTPUT: usize = 8192;

/// The next step of collecting a subprocess's output.
#[derive(Clone, Copy, Debug, PartialEq, Eq, Structural)]
pub enum Collect {
    /// Keep reading.
    Wait,
    /// The process succeeded and its output is complete.
    Finish,
}

/// After each read: output over the bound or a passed deadline leaves the
/// outcome unknown; a failed exit makes the runtime unavailable; a
/// successful exit with all output read finishes; otherwise keep reading.
pub open spec fn collect_step(read: nat, past_deadline: bool, exited: Option<bool>, eof: bool) -> Result<Collect, ManagerError> {
    if read > MAX_OUTPUT || past_deadline {
        Err(ManagerError::UnknownOutcome)
    } else {
        match exited {
            Some(false) => Err(ManagerError::RuntimeUnavailable),
            Some(true) => if eof {
                Ok(Collect::Finish)
            } else {
                Ok(Collect::Wait)
            },
            None => Ok(Collect::Wait),
        }
    }
}

/// Decides `collect_step` from the bytes read so far, the deadline, the
/// exit status when the process has exited, and whether output ended.
pub fn collect(read: usize, past_deadline: bool, exited: Option<bool>, eof: bool) -> (r: Result<Collect, ManagerError>)
    ensures
        r == collect_step(read as nat, past_deadline, exited, eof),
{
    if read > MAX_OUTPUT || past_deadline {
        return Err(ManagerError::UnknownOutcome);
    }
    match exited {
        Some(false) => Err(ManagerError::RuntimeUnavailable),
        Some(true) => if eof {
            Ok(Collect::Finish)
        } else {
            Ok(Collect::Wait)
        },
        None => Ok(Collect::Wait),
    }
}

} // verus!
