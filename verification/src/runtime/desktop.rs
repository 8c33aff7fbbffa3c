//! Compositor windows and tmux clients: exact association of a standalone
//! terminal with its window and its tmux client.
use super::control::{ProcessIdentity, ProcessView, TerminalIntent, TerminalView, WindowIdentity, WindowView, bytes};
use super::text_checks::{address, component, is_address, is_component};
use crate::decimal::{parse_u32, parsed_unsigned};
use crate::manager::ManagerError;
use crate::text::{split, split_on, str_eq};
use vstd::prelude::*;

verus! {

/// Most windows a compositor listing may hold.
pub const MAX_WINDOWS: usize = 128;

/// A compositor window as listed: its address, owning pid and app id.
#[derive(Debug)]
pub struct Window {
    pub address: String,
    pub pid: u32,
    pub app_id: String,
}

/// The active window is the associated window of the terminal's process:
/// a well-formed address equal to the association's, the process's pid and
/// the terminal's app id.
pub open spec fn window_matches(
    address_text: Seq<char>,
    pid: u32,
    app: Seq<char>,
    expected: WindowView,
    process: ProcessView,
    app_id: Seq<char>,
) -> bool {
    is_address(bytes(address_text)) && address_text == expected.address && pid == process.pid && app
        == app_id
}

/// Checks `window_matches` for `window`.
pub fn matches_window(
    window: &Window,
    expected: &WindowIdentity,
    process: &ProcessIdentity,
    app_id: &str,
) -> (r: bool)
    ensures
        r == window_matches(
            window.address@,
            window.pid,
            window.app_id@,
            expected@,
            process@,
            app_id@,
        ),
{
    address(window.address.as_str()) && window.address == expected.address && window.pid
        == process.pid && str_eq(window.app_id.as_str(), app_id)
}

/// A window of process `pid` with app id `app_id`.
pub open spec fn is_terminal_window(w: Window, pid: u32, app_id: Seq<char>) -> bool {
    w.pid == pid && w.app_id@ == app_id
}

/// The terminal's window among a listing: at most the listing bound of
/// windows, exactly one window of the terminal's process and app id, and
/// that window's address well formed. The result is that address.
pub open spec fn terminal_window(windows: Seq<Window>, pid: u32, app_id: Seq<char>) -> Result<
    Seq<char>,
    ManagerError,
> {
    if windows.len() > MAX_WINDOWS {
        Err(ManagerError::ActionUnavailable)
    } else if exists|i: int|
        0 <= i < windows.len() && is_terminal_window(windows[i], pid, app_id) && (forall|j: int|
            0 <= j < windows.len() && is_terminal_window(windows[j], pid, app_id) ==> j == i)
            && is_address(bytes(windows[i].address@)) {
        let i = choose|i: int|
            0 <= i < windows.len() && is_terminal_window(windows[i], pid, app_id) && (forall|j: int|
                0 <= j < windows.len() && is_terminal_window(windows[j], pid, app_id) ==> j == i)
                && is_address(bytes(windows[i].address@));
        Ok(windows[i].address@)
    } else {
        Err(ManagerError::OwnershipUnverified)
    }
}

/// Finds the address of the terminal's window.
pub fn select_window(windows: &Vec<Window>, pid: u32, app_id: &str) -> (r: Result<String, ManagerError>)
    ensures
        match r {
            Ok(a) => terminal_window(windows@, pid, app_id@) == Ok::<Seq<char>, ManagerError>(a@),
            Err(e) => terminal_window(windows@, pid, app_id@) == Err::<Seq<char>, ManagerError>(e),
        },
{
    if windows.len() > MAX_WINDOWS {
        return Err(ManagerError::ActionUnavailable);
    }
    let mut found: Option<usize> = None;
    let mut i: usize = 0;
    while i < windows.len()
        invariant
            i <= windows@.len(),
            windows@.len() <= MAX_WINDOWS,
            match found {
                Some(f) => f < i && is_terminal_window(windows@[f as int], pid, app_id@) && (forall|
                    j: int,
                | 0 <= j < i && is_terminal_window(windows@[j], pid, app_id@) ==> j == f),
                None => forall|j: int|
                    0 <= j < i ==> !is_terminal_window(#[trigger] windows@[j], pid, app_id@),
            },
        decreases windows@.len() - i,
    {
        if windows[i].pid == pid && str_eq(windows[i].app_id.as_str(), app_id) {
            if found.is_some() {
                proof {
                    let f = found.unwrap();
                    assert(is_terminal_window(windows@[i as int], pid, app_id@));
                    assert forall|k: int|
                        0 <= k < windows@.len() && is_terminal_window(windows@[k], pid, app_id@) && (
                        forall|j: int|
                            0 <= j < windows@.len() && is_terminal_window(
                                windows@[j],
                                pid,
                                app_id@,
                            ) ==> j == k) implies false by {
                        assert(f == k);
                        assert(i == k);
                    }
                }
                return Err(ManagerError::OwnershipUnverified);
            }
            found = Some(i);
        }
        i = i + 1;
    }
    match found {
        None => Err(ManagerError::OwnershipUnverified),
        Some(f) => {
            proof {
                assert forall|j: int|
                    0 <= j < windows@.len() && is_terminal_window(windows@[j], pid, app_id@) implies j
                    == f by {}
            }
            if !address(windows[f].address.as_str()) {
                proof {
                    assert forall|k: int|
                        0 <= k < windows@.len() && is_terminal_window(windows@[k], pid, app_id@)
                            && (forall|j: int|
                            0 <= j < windows@.len() && is_terminal_window(
                                windows@[j],
                                pid,
                                app_id@,
                            ) ==> j == k) implies !is_address(bytes(windows@[k].address@)) by {
                        assert(f == k);
                    }
                }
                return Err(ManagerError::OwnershipUnverified);
            }
            Ok(windows[f].address.clone())
        },
    }
}

/// A line of `list-clients -F #{client_pid}:#{session_id}:#{client_tty}`
/// names a candidate client of `session`: three fields, the session, and a
/// pid that fits a u32. The candidate is that pid and tty.
pub open spec fn client_candidate(line: Seq<char>, session: Seq<char>) -> Option<(nat, Seq<char>)> {
    let f = split_on(line, ':');
    if f.len() == 3 && f[1] == session && (parsed_unsigned(f[0]) matches Some(p) && p <= u32::MAX) {
        Some((parsed_unsigned(f[0]).unwrap(), f[2]))
    } else {
        None
    }
}

/// Reads one client line; lines of other sessions and malformed lines are
/// skipped.
pub fn client_line(line: &str, session: &str) -> (r: Option<(u32, String)>)
    ensures
        match r {
            Some(c) => client_candidate(line@, session@) == Some((c.0 as nat, c.1@)),
            None => client_candidate(line@, session@) is None,
        },
{
    let f = split(line, ':');
    if f.len() != 3 {
        return None;
    }
    assert(f@.map_values(|s: String| s@)[0] == f@[0]@);
    assert(f@.map_values(|s: String| s@)[1] == f@[1]@);
    assert(f@.map_values(|s: String| s@)[2] == f@[2]@);
    if !str_eq(f[1].as_str(), session) {
        return None;
    }
    match parse_u32(f[0].as_str()) {
        Some(pid) => Some((pid, f[2].clone())),
        None => None,
    }
}

/// The desktop session is usable: its Wayland display and compositor
/// instance are plain names (letters, digits, `_`, `.`, `-`).
pub fn desktop_names(display: &str, compositor: &str) -> (r: Result<(), ManagerError>)
    ensures
        r == if is_component(bytes(display@)) && is_component(bytes(compositor@)) {
            Ok::<(), ManagerError>(())
        } else {
            Err(ManagerError::ActionUnavailable)
        },
{
    if !component(display) || !component(compositor) {
        return Err(ManagerError::ActionUnavailable);
    }
    Ok(())
}

/// The association of a terminal found now: its window address on this
/// compositor, and its tmux client and tty; a saved association must be
/// exactly this one.
pub open spec fn association_of(
    intent: TerminalView,
    found: WindowView,
) -> Result<WindowView, ManagerError> {
    if intent.window matches Some(saved) && saved != found {
        Err(ManagerError::OwnershipUnverified)
    } else {
        Ok(found)
    }
}

/// Builds the association found now and checks it against the saved one.
pub fn associate(
    intent: &TerminalIntent,
    address_text: String,
    compositor: String,
    client: ProcessIdentity,
    tty: String,
) -> (r: Result<WindowIdentity, ManagerError>)
    ensures
        match r {
            Ok(w) => association_of(
                intent@,
                WindowView {
                    address: address_text@,
                    compositor: compositor@,
                    client: client@,
                    tty: tty@,
                },
            ) == Ok::<WindowView, ManagerError>(w@),
            Err(e) => association_of(
                intent@,
                WindowView {
                    address: address_text@,
                    compositor: compositor@,
                    client: client@,
                    tty: tty@,
                },
            ) == Err::<WindowView, ManagerError>(e),
        },
{
    let found = WindowIdentity { address: address_text, compositor, client, tty };
    if let Some(saved) = &intent.window {
        if !saved.same(&found) {
            return Err(ManagerError::OwnershipUnverified);
        }
    }
    Ok(found)
}

/// A terminal may be focused only through its saved window association,
/// which the association found now must equal.
pub fn focus_target(intent: Option<&TerminalIntent>, found: &WindowIdentity) -> (r: Result<(), ManagerError>)
    ensures
        r == match intent {
            Some(t) => match t@.window {
                Some(saved) => if saved == found@ {
                    Ok::<(), ManagerError>(())
                } else {
                    Err(ManagerError::OwnershipUnverified)
                },
                None => Err(ManagerError::ActionUnavailable),
            },
            None => Err(ManagerError::ActionUnavailable),
        },
{
    let saved = match intent {
        Some(t) => match &t.window {
            Some(w) => w,
            None => return Err(ManagerError::ActionUnavailable),
        },
        None => return Err(ManagerError::ActionUnavailable),
    };
    if !saved.same(found) {
        return Err(ManagerError::OwnershipUnverified);
    }
    Ok(())
}

/// After focusing: the active window is the associated one and the
/// association still holds.
pub fn focus_confirmed(
    active: &Window,
    association: &WindowIdentity,
    process: &ProcessIdentity,
    app_id: &str,
    reassociated: &WindowIdentity,
) -> (r: Result<(), ManagerError>)
    ensures
        r == if window_matches(
            active.address@,
            active.pid,
            active.app_id@,
            association@,
            process@,
            app_id@,
        ) && reassociated@ == association@ {
            Ok::<(), ManagerError>(())
        } else {
            Err(ManagerError::OwnershipUnverified)
        },
{
    if !matches_window(active, association, process, app_id) || !reassociated.same(association) {
        return Err(ManagerError::OwnershipUnverified);
    }
    Ok(())
}

} // verus!
