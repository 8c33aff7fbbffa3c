//! Revalidation of a recorded runtime from unit properties and tmux rows,
//! before any attachment or destructive operation.
use super::argv::runtime_description;
use super::control::{ControlState, ControlView, PaneIdentity, PaneView, ProcessIdentity, ProcessView, bytes};
use super::text_checks::{hex, is_hex, is_target, target};
use super::{ManagedRun, RunRecord, run_unit};
use crate::decimal::{parse_u32, parsed_unsigned};
use crate::manager::ManagerError;
use crate::text::{after_last, last_of, lines, lines_of, split, split_on, split_once, split_once_at, str_eq, trim, trimmed};
use vstd::prelude::*;

verus! {

/// The text of each key and value.
pub open spec fn pair_views(v: Seq<(String, String)>) -> Seq<(Seq<char>, Seq<char>)> {
    v.map_values(|p: (String, String)| (p.0@, p.1@))
}

/// The key and value of one `key=value` line.
pub open spec fn property_of(line: Seq<char>) -> (Seq<char>, Seq<char>) {
    split_once_at(line, '=').unwrap()
}

/// Unit properties as `systemctl show` prints them: every line is
/// `key=value` (split at the first `=`) and no key occurs twice.
pub open spec fn parsed_properties(text: Seq<char>) -> Option<Seq<(Seq<char>, Seq<char>)>> {
    let ls = lines_of(text);
    if (forall|i: int| 0 <= i < ls.len() ==> #[trigger] split_once_at(ls[i], '=') is Some) && (
    forall|i: int, j: int|
        0 <= i < j < ls.len() ==> #[trigger] property_of(ls[i]).0 != #[trigger] property_of(
            ls[j],
        ).0) {
        Some(ls.map_values(|l: Seq<char>| property_of(l)))
    } else {
        None
    }
}

/// The value of the first pair with `key`.
pub open spec fn lookup(pairs: Seq<(Seq<char>, Seq<char>)>, key: Seq<char>) -> Option<Seq<char>>
    decreases pairs.len(),
{
    if pairs.len() == 0 {
        None
    } else if pairs[0].0 == key {
        Some(pairs[0].1)
    } else {
        lookup(pairs.drop_first(), key)
    }
}

/// Reads unit properties; a line without `=` or a repeated key leaves the
/// unit's ownership unverified.
pub fn properties(text: &str) -> (r: Result<Vec<(String, String)>, ManagerError>)
    ensures
        match r {
            Ok(v) => parsed_properties(text@) == Some(pair_views(v@)),
            Err(e) => e == ManagerError::OwnershipUnverified && parsed_properties(text@) is None,
        },
{
    let ls = lines(text);
    let ghost lv = lines_of(text@);
    assert(ls@.map_values(|s: String| s@) == lv);
    let mut out: Vec<(String, String)> = Vec::new();
    let mut i: usize = 0;
    while i < ls.len()
        invariant
            i <= ls@.len(),
            out@.len() == i,
            lv.len() == ls@.len(),
            ls@.map_values(|s: String| s@) == lv,
            lv == lines_of(text@),
            forall|k: int| 0 <= k < i ==> #[trigger] split_once_at(lv[k], '=') is Some,
            forall|a: int, b: int|
                0 <= a < b < i ==> #[trigger] property_of(lv[a]).0 != #[trigger] property_of(
                    lv[b],
                ).0,
            pair_views(out@) == lv.take(i as int).map_values(|l: Seq<char>| property_of(l)),
        decreases ls@.len() - i,
    {
        assert(ls@[i as int]@ == lv[i as int]);
        let pair = match split_once(ls[i].as_str(), '=') {
            Some(p) => p,
            None => {
                assert(!(split_once_at(lv[i as int], '=') is Some));
                return Err(ManagerError::OwnershipUnverified);
            },
        };
        let mut k: usize = 0;
        while k < out.len()
            invariant
                k <= out@.len(),
                out@.len() == i,
                i < lv.len(),
                lv == lines_of(text@),
                forall|a: int| 0 <= a < i ==> #[trigger] split_once_at(lv[a], '=') is Some,
                pair_views(out@) == lv.take(i as int).map_values(|l: Seq<char>| property_of(l)),
                property_of(lv[i as int]) == (pair.0@, pair.1@),
                forall|a: int| 0 <= a < k ==> property_of(lv[a]).0 != pair.0@,
            decreases out@.len() - k,
        {
            assert(pair_views(out@)[k as int] == property_of(lv[k as int]));
            if out[k].0 == pair.0 {
                assert(property_of(lv[k as int]).0 == property_of(lv[i as int]).0);
                return Err(ManagerError::OwnershipUnverified);
            }
            k = k + 1;
        }
        let ghost before = out@;
        out.push(pair);
        assert(pair_views(out@) =~= lv.take(i + 1).map_values(|l: Seq<char>| property_of(l))) by {
            assert(pair_views(out@) =~= pair_views(before).push(property_of(lv[i as int])));
        }
        i = i + 1;
    }
    assert(lv.take(i as int) =~= lv);
    Ok(out)
}

/// The value of the property `key`; a missing property leaves the unit's
/// ownership unverified.
pub fn property<'a>(values: &'a Vec<(String, String)>, key: &str) -> (r: Result<&'a String, ManagerError>)
    ensures
        match r {
            Ok(v) => lookup(pair_views(values@), key@) == Some(v@),
            Err(e) => e == ManagerError::OwnershipUnverified && lookup(pair_views(values@), key@) is None,
        },
{
    let ghost all = pair_views(values@);
    let mut i: usize = 0;
    assert(all.skip(0) =~= all);
    while i < values.len()
        invariant
            i <= values@.len(),
            all == pair_views(values@),
            lookup(all, key@) == lookup(all.skip(i as int), key@),
        decreases values@.len() - i,
    {
        let ghost rest = all.skip(i as int);
        assert(rest[0] == (values@[i as int].0@, values@[i as int].1@));
        assert(rest.drop_first() =~= all.skip(i + 1));
        if crate::text::str_eq(values[i].0.as_str(), key) {
            return Ok(&values[i].1);
        }
        i = i + 1;
    }
    assert(all.skip(i as int).len() == 0);
    Err(ManagerError::OwnershipUnverified)
}

/// Whether property `key` is present with exactly `expected`.
pub fn property_is(values: &Vec<(String, String)>, key: &str, expected: &str) -> (r: bool)
    ensures
        r == (lookup(pair_views(values@), key@) == Some(expected@)),
{
    match property(values, key) {
        Ok(v) => crate::text::str_eq(v.as_str(), expected),
        Err(_) => false,
    }
}

/// What the properties of a run's unit claim of its server: the unit is
/// part of and bound to nothing, killed as a control group and active; its
/// invocation id is 32 hexadecimal digits and the recorded one if any; a
/// launch with a nonce is described by the run and that nonce (without a
/// nonce, a server must already be recorded); and its main pid fits a u32.
/// The claim is the invocation id and the pid.
pub open spec fn server_claim(
    values: Seq<(Seq<char>, Seq<char>)>,
    run: RunRecord,
    state: ControlView,
) -> Option<(Seq<char>, nat)> {
    let inv = lookup(values, "InvocationID"@);
    let pid = lookup(values, "MainPID"@);
    if {
        &&& lookup(values, "PartOf"@) == Some(Seq::<char>::empty())
        &&& lookup(values, "BindsTo"@) == Some(Seq::<char>::empty())
        &&& lookup(values, "KillMode"@) == Some("control-group"@)
        &&& lookup(values, "ActiveState"@) == Some("active"@)
        &&& inv matches Some(i) && is_hex(bytes(i), 32)
        &&& (state.invocation is Some ==> state.invocation == inv)
        &&& match state.launch_nonce {
            Some(n) => lookup(values, "Description"@) == Some(runtime_description(run.id, n)),
            None => run.server is Some,
        }
        &&& pid matches Some(p) && parsed_unsigned(p) matches Some(v) && v <= u32::MAX
    } {
        Some((inv.unwrap(), parsed_unsigned(pid.unwrap()).unwrap()))
    } else {
        None
    }
}

/// Checks what the unit properties of `run` claim of its server; the
/// invocation id and main pid it claims, or unverified ownership.
pub fn server_claimed(values: &Vec<(String, String)>, run: &ManagedRun, state: &ControlState) -> (r: Result<(String, u32), ManagerError>)
    ensures
        match r {
            Ok(c) => server_claim(pair_views(values@), run@, state@) == Some((c.0@, c.1 as nat)),
            Err(e) => e == ManagerError::OwnershipUnverified && server_claim(
                pair_views(values@),
                run@,
                state@,
            ) is None,
        },
{
    proof {
        reveal_strlit("");
        assert(""@ =~= Seq::<char>::empty());
    }
    if !property_is(values, "PartOf", "") || !property_is(values, "BindsTo", "") || !property_is(
        values,
        "KillMode",
        "control-group",
    ) || !property_is(values, "ActiveState", "active") {
        return Err(ManagerError::OwnershipUnverified);
    }
    let invocation = property(values, "InvocationID")?;
    let recorded_differs = match &state.invocation {
        Some(v) => *v != *invocation,
        None => false,
    };
    if !hex(invocation.as_str(), 32) || recorded_differs {
        return Err(ManagerError::OwnershipUnverified);
    }
    match &state.launch_nonce {
        Some(nonce) => {
            let expected = super::argv::description(run, nonce.as_str());
            if !property_is(values, "Description", expected.as_str()) {
                return Err(ManagerError::OwnershipUnverified);
            }
        },
        None => {
            if run.server.is_none() {
                return Err(ManagerError::OwnershipUnverified);
            }
        },
    }
    let pid_text = property(values, "MainPID")?;
    match parse_u32(pid_text.as_str()) {
        Some(pid) => Ok((invocation.clone(), pid)),
        None => Err(ManagerError::OwnershipUnverified),
    }
}

/// The process read at the claimed pid is the run's server: the recorded
/// server if one is recorded, in the unit's control group.
pub open spec fn server_confirmed(
    values: Seq<(Seq<char>, Seq<char>)>,
    run: RunRecord,
    identity: super::control::ProcessView,
    cgroup: Seq<char>,
) -> bool {
    &&& (run.server matches Some(saved) ==> saved == identity)
    &&& lookup(values, "ControlGroup"@) == Some(cgroup)
}

/// Checks the process read at the claimed pid against the run and the
/// cgroup it was found in.
pub fn confirm_server(
    values: &Vec<(String, String)>,
    run: &ManagedRun,
    identity: &ProcessIdentity,
    cgroup: &str,
) -> (r: Result<(), ManagerError>)
    ensures
        r == if server_confirmed(pair_views(values@), run@, identity@, cgroup@) {
            Ok::<(), ManagerError>(())
        } else {
            Err(ManagerError::OwnershipUnverified)
        },
{
    let differs = match &run.server {
        Some(saved) => !saved.same(identity),
        None => false,
    };
    if differs || !property_is(values, "ControlGroup", cgroup) {
        return Err(ManagerError::OwnershipUnverified);
    }
    Ok(())
}

/// A tmux pane as listed: its identity and whether its process exited.
#[derive(Debug)]
pub struct Pane {
    pub identity: PaneIdentity,
    pub dead: bool,
}

/// The one row that `list-panes -a -F
/// #{pid}:#{session_name}:#{session_id}:#{pane_id}:#{pane_dead}:#{pane_pid}`
/// prints for a run's server.
#[derive(Debug)]
pub struct PaneRow {
    pub pid: u32,
    pub session: String,
    pub pane: String,
    pub dead: bool,
}

pub ghost struct PaneRowView {
    pub pid: nat,
    pub session: Seq<char>,
    pub pane: Seq<char>,
    pub dead: bool,
}

impl View for PaneRow {
    type V = PaneRowView;

    open spec fn view(&self) -> PaneRowView {
        PaneRowView { pid: self.pid as nat, session: self.session@, pane: self.pane@, dead: self.dead }
    }
}

/// The pane listing of a run's server holds exactly one row of six fields:
/// the server pid, the session `managed`, a `$` session id, a `%` pane id, a
/// dead flag `0` or `1`, and a pane pid that fits a u32.
pub open spec fn pane_row_of(text: Seq<char>, server_pid: u32) -> Option<PaneRowView> {
    let rows = lines_of(text);
    let f = split_on(rows[0], ':');
    if rows.len() == 1 && f.len() == 6 && parsed_unsigned(f[0]) == Some(server_pid as nat) && f[1]
        == "managed"@ && is_target(bytes(f[2]), 36u8) && is_target(bytes(f[3]), 37u8) && (f[4]
        == "0"@ || f[4] == "1"@) && (parsed_unsigned(f[5]) matches Some(p) && p <= u32::MAX) {
        Some(
            PaneRowView {
                pid: parsed_unsigned(f[5]).unwrap(),
                session: f[2],
                pane: f[3],
                dead: f[4] == "1"@,
            },
        )
    } else {
        None
    }
}

/// Reads the pane listing of a run's server whose pid is `server_pid`.
#[verifier::rlimit(30)]
pub fn pane_row(text: &str, server_pid: u32) -> (r: Result<PaneRow, ManagerError>)
    ensures
        match r {
            Ok(row) => pane_row_of(text@, server_pid) == Some(row@),
            Err(e) => e == ManagerError::OwnershipUnverified && pane_row_of(text@, server_pid) is None,
        },
{
    let rows = lines(text);
    if rows.len() != 1 {
        return Err(ManagerError::OwnershipUnverified);
    }
    assert(rows@.map_values(|s: String| s@)[0] == rows@[0]@);
    let f = split(rows[0].as_str(), ':');
    let ghost fv = f@.map_values(|s: String| s@);
    if f.len() != 6 {
        return Err(ManagerError::OwnershipUnverified);
    }
    assert(fv[0] == f@[0]@ && fv[1] == f@[1]@ && fv[2] == f@[2]@ && fv[3] == f@[3]@ && fv[4]
        == f@[4]@ && fv[5] == f@[5]@);
    let server_ok = match parse_u32(f[0].as_str()) {
        Some(p) => p == server_pid,
        None => false,
    };
    let dead_flag = str_eq(f[4].as_str(), "1");
    let alive_flag = str_eq(f[4].as_str(), "0");
    if !server_ok || !str_eq(f[1].as_str(), "managed") || !target(f[2].as_str(), 36) || !target(
        f[3].as_str(),
        37,
    ) || !(alive_flag || dead_flag) {
        return Err(ManagerError::OwnershipUnverified);
    }
    let pid = match parse_u32(f[5].as_str()) {
        Some(p) => p,
        None => return Err(ManagerError::OwnershipUnverified),
    };
    Ok(PaneRow { pid, session: f[2].clone(), pane: f[3].clone(), dead: dead_flag })
}

/// The pane a listed row names. tmux keeps only the pid of an exited pane's
/// process, so a dead row gets that pid with no start time and no boot; a
/// live row gets the identity read from the process table, `live`.
pub fn pane_from_row(row: PaneRow, live: Option<ProcessIdentity>) -> (r: Pane)
    requires
        row@.dead || live is Some,
    ensures
        r.dead == row@.dead,
        r.identity.pane@ == row@.pane,
        r.identity.session@ == row@.session,
        row@.dead ==> r.identity.process@ == (ProcessView {
            pid: row.pid,
            start_ticks: 0,
            boot_id: Seq::empty(),
        }),
        !row@.dead ==> r.identity.process == live.unwrap(),
{
    let process = if row.dead {
        ProcessIdentity { pid: row.pid, start_ticks: 0, boot_id: String::new() }
    } else {
        live.unwrap()
    };
    Pane { identity: PaneIdentity { process, pane: row.pane, session: row.session }, dead: row.dead }
}

/// A listed pane is the saved pane finished: its process exited, with the
/// saved pane id, session id and pid (tmux keeps only the pid of an exited
/// process, not its start time or boot).
pub open spec fn is_matching_dead_pane(pane: PaneView, dead: bool, saved: PaneView) -> bool {
    dead && pane.pane == saved.pane && pane.session == saved.session && pane.process.pid
        == saved.process.pid
}

/// Checks that `pane` is the saved pane, finished.
pub fn matching_dead_pane(pane: &Pane, saved: &PaneIdentity) -> (r: Result<(), ManagerError>)
    ensures
        r == if is_matching_dead_pane(pane.identity@, pane.dead, saved@) {
            Ok::<(), ManagerError>(())
        } else {
            Err(ManagerError::OwnershipUnverified)
        },
{
    if !pane.dead || pane.identity.pane != saved.pane || pane.identity.session != saved.session
        || pane.identity.process.pid != saved.process.pid {
        return Err(ManagerError::OwnershipUnverified);
    }
    Ok(())
}

/// A listed pane may be taken as the run's own: it is alive and is the
/// saved pane when one is saved.
pub fn pane_claimable(pane: &Pane, state: &ControlState) -> (r: Result<(), ManagerError>)
    ensures
        r == if !pane.dead && (state@.pane matches Some(saved) ==> saved == pane.identity@) {
            Ok::<(), ManagerError>(())
        } else {
            Err(ManagerError::OwnershipUnverified)
        },
{
    let differs = match &state.pane {
        Some(saved) => !saved.same(&pane.identity),
        None => false,
    };
    if pane.dead || differs {
        return Err(ManagerError::OwnershipUnverified);
    }
    Ok(())
}

/// The last component of a cgroup path (all of it without a `/`).
pub open spec fn last_component(group: Seq<char>) -> Seq<char> {
    let k = last_of(group, '/');
    if k >= 0 {
        group.skip(k + 1)
    } else {
        group
    }
}

/// The scope a pane process runs in is tmux's own spawn scope:
/// `tmux-spawn-{id}.scope` with a well-formed id.
pub open spec fn is_spawn_scope(scope: Seq<char>) -> bool {
    let head = "tmux-spawn-"@;
    let tail = ".scope"@;
    scope.len() >= head.len() + tail.len() && scope.take(head.len() as int) == head && scope.skip(
        scope.len() - tail.len(),
    ) == tail && crate::protocol::is_uuid(
        scope.subrange(head.len() as int, scope.len() - tail.len()),
    )
}

/// The spawn scope named by the last component of a pane's cgroup.
pub fn spawn_scope(group: &str) -> (r: Result<String, ManagerError>)
    ensures
        match r {
            Ok(s) => s@ == last_component(group@) && is_spawn_scope(s@),
            Err(e) => e == ManagerError::OwnershipUnverified && !is_spawn_scope(last_component(group@)),
        },
{
    proof {
        reveal_strlit("tmux-spawn-");
        reveal_strlit(".scope");
    }
    let scope = match after_last(group, '/') {
        Some(s) => s,
        None => String::from_str(group),
    };
    let cs = crate::text::chars_of(scope.as_str());
    let n = cs.len();
    if n < 17 {
        return Err(ManagerError::OwnershipUnverified);
    }
    let head_ok = cs[0] == 't' && cs[1] == 'm' && cs[2] == 'u' && cs[3] == 'x' && cs[4] == '-'
        && cs[5] == 's' && cs[6] == 'p' && cs[7] == 'a' && cs[8] == 'w' && cs[9] == 'n' && cs[10]
        == '-';
    let tail_ok = cs[n - 6] == '.' && cs[n - 5] == 's' && cs[n - 4] == 'c' && cs[n - 3] == 'o'
        && cs[n - 2] == 'p' && cs[n - 1] == 'e';
    proof {
        let head = "tmux-spawn-"@;
        let tail = ".scope"@;
        if head_ok {
            assert(cs@.take(11) =~= head);
        } else {
            if cs@.take(11) == head {
                assert(cs@.take(11)[0] == cs@[0]);
                assert(cs@.take(11)[1] == cs@[1]);
                assert(cs@.take(11)[2] == cs@[2]);
                assert(cs@.take(11)[3] == cs@[3]);
                assert(cs@.take(11)[4] == cs@[4]);
                assert(cs@.take(11)[5] == cs@[5]);
                assert(cs@.take(11)[6] == cs@[6]);
                assert(cs@.take(11)[7] == cs@[7]);
                assert(cs@.take(11)[8] == cs@[8]);
                assert(cs@.take(11)[9] == cs@[9]);
                assert(cs@.take(11)[10] == cs@[10]);
            }
        }
        if tail_ok {
            assert(cs@.skip(n - 6) =~= tail);
        } else {
            if cs@.skip(n - 6) == tail {
                assert(cs@.skip(n - 6)[0] == cs@[n - 6]);
                assert(cs@.skip(n - 6)[1] == cs@[n - 5]);
                assert(cs@.skip(n - 6)[2] == cs@[n - 4]);
                assert(cs@.skip(n - 6)[3] == cs@[n - 3]);
                assert(cs@.skip(n - 6)[4] == cs@[n - 2]);
                assert(cs@.skip(n - 6)[5] == cs@[n - 1]);
            }
        }
    }
    if !head_ok || !tail_ok {
        return Err(ManagerError::OwnershipUnverified);
    }
    let nonce = crate::text::string_from(&cs, 11, n - 6);
    if !crate::protocol::is_uuid_str(nonce.as_str()) {
        return Err(ManagerError::OwnershipUnverified);
    }
    Ok(scope)
}

/// The spawn scope belongs to the run's unit and is the pane's cgroup.
pub fn scope_owned(values: &Vec<(String, String)>, run: &ManagedRun, group: &str) -> (r: Result<(), ManagerError>)
    ensures
        r == if lookup(pair_views(values@), "PartOf"@) == Some(run_unit(run.id@)) && lookup(
            pair_views(values@),
            "ControlGroup"@,
        ) == Some(group@) {
            Ok::<(), ManagerError>(())
        } else {
            Err(ManagerError::OwnershipUnverified)
        },
{
    let unit = run.unit();
    if !property_is(values, "PartOf", unit.as_str()) || !property_is(values, "ControlGroup", group) {
        return Err(ManagerError::OwnershipUnverified);
    }
    Ok(())
}

/// The unified cgroup of a process, from its `/proc/{pid}/cgroup` text:
/// the trimmed text is `0::/` and a path on one line.
pub open spec fn cgroup_of(text: Seq<char>) -> Option<Seq<char>> {
    let t = trimmed(text);
    if t.len() >= 4 && t.take(4) == "0::/"@ && !t.skip(4).contains('\n') && !t.skip(4).contains(
        '\r',
    ) {
        Some(t.skip(3))
    } else {
        None
    }
}

/// Reads the unified cgroup path of a process.
pub fn cgroup(text: &str) -> (r: Result<String, ManagerError>)
    ensures
        match r {
            Ok(g) => cgroup_of(text@) == Some(g@),
            Err(e) => e == ManagerError::OwnershipUnverified && cgroup_of(text@) is None,
        },
{
    proof {
        reveal_strlit("0::/");
    }
    let t = trim(text);
    let cs = crate::text::chars_of(t.as_str());
    if cs.len() < 4 || !(cs[0] == '0' && cs[1] == ':' && cs[2] == ':' && cs[3] == '/') {
        proof {
            if cs@.len() >= 4 && cs@.take(4) == "0::/"@ {
                assert(cs@.take(4)[0] == cs@[0]);
                assert(cs@.take(4)[1] == cs@[1]);
                assert(cs@.take(4)[2] == cs@[2]);
                assert(cs@.take(4)[3] == cs@[3]);
            }
        }
        return Err(ManagerError::OwnershipUnverified);
    }
    assert(cs@.take(4) =~= "0::/"@);
    let mut i: usize = 4;
    while i < cs.len()
        invariant
            4 <= i <= cs@.len(),
            cs@ == trimmed(text@),
            cs@.take(4) == "0::/"@,
            forall|k: int| 4 <= k < i ==> cs@[k] != '\n' && cs@[k] != '\r',
        decreases cs.len() - i,
    {
        if cs[i] == '\n' || cs[i] == '\r' {
            proof {
                assert(cs@.skip(4)[i - 4] == cs@[i as int]);
            }
            return Err(ManagerError::OwnershipUnverified);
        }
        i = i + 1;
    }
    proof {
        let rest = cs@.skip(4);
        assert forall|k: int| 0 <= k < rest.len() implies rest[k] != '\n' && rest[k] != '\r' by {
            assert(rest[k] == cs@[k + 4]);
        }
    }
    let g = crate::text::string_from(&cs, 3, cs.len());
    assert(g@ =~= cs@.skip(3));
    Ok(g)
}

/// An ending run whose server and pane processes are gone and whose unit
/// is inactive or failed has already ended; nothing is left to stop.
pub open spec fn has_ended(
    state: ControlView,
    run: RunRecord,
    server_current: bool,
    pane_current: bool,
    active_state: Option<Seq<char>>,
) -> bool {
    &&& state.ending
    &&& run.server is Some && !server_current
    &&& state.pane is Some && !pane_current
    &&& (active_state matches Some(s) && (s == "inactive"@ || s == "failed"@))
}

/// Decides `has_ended` from what was observed: whether the recorded server
/// and pane processes are still current, and the unit's active state when
/// its properties could be read.
pub fn already_ended(
    state: &ControlState,
    run: &ManagedRun,
    server_current: bool,
    pane_current: bool,
    active_state: Option<&String>,
) -> (r: bool)
    ensures
        r == has_ended(state@, run@, server_current, pane_current, match active_state {
            Some(s) => Some(s@),
            None => None,
        }),
{
    let inactive = match active_state {
        Some(s) => str_eq(s.as_str(), "inactive") || str_eq(s.as_str(), "failed"),
        None => false,
    };
    state.ending && run.server.is_some() && !server_current && state.pane.is_some() && !pane_current
        && inactive
}

/// Law: an ending run whose recorded server and pane processes are both
/// gone has already ended exactly when its unit's active state is
/// `inactive` or `failed`, each on its own; a still-current server or pane,
/// an unread or other active state, or a run not ending, has not ended.
pub proof fn lemma_already_ended_states(
    state: ControlView,
    run: RunRecord,
    server_current: bool,
    pane_current: bool,
    active: Option<Seq<char>>,
)
    ensures
        state.ending && run.server is Some && state.pane is Some ==> has_ended(
            state,
            run,
            false,
            false,
            Some("inactive"@),
        ) && has_ended(state, run, false, false, Some("failed"@)),
        has_ended(state, run, server_current, pane_current, active) ==> state.ending && !server_current
            && !pane_current && run.server is Some && state.pane is Some && (active == Some("inactive"@)
            || active == Some("failed"@)),
{
}

/// Records a verified server invocation, and pane when one was verified.
pub fn record_ownership(state: &mut ControlState, invocation: String, pane: Option<PaneIdentity>)
    ensures
        final(state)@ == (ControlView {
            invocation: Some(invocation@),
            pane: match pane {
                Some(p) => Some(p@),
                None => old(state)@.pane,
            },
            ..old(state)@
        }),
{
    state.invocation = Some(invocation);
    if let Some(p) = pane {
        state.pane = Some(p);
    }
}

} // verus!
