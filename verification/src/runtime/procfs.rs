//! Process identity from `/proc` text: pid, kernel start time and boot.
use super::control::{ProcessIdentity, ProcessView};
use crate::decimal::{parse_u32, parse_u64, parsed_unsigned};
use crate::manager::ManagerError;
use crate::protocol::{is_uuid, is_uuid_str};
use crate::text::{after_last, last_of, split_whitespace, str_eq, trim, trimmed, words};
use vstd::prelude::*;

verus! {

/// The fields of a `/proc/{pid}/stat` line after the command name: the text
/// after the last `)`, split at white space.
pub open spec fn stat_fields(stat: Seq<char>) -> Option<Seq<Seq<char>>> {
    let k = last_of(stat, ')');
    if k >= 0 {
        Some(words(stat.skip(k + 1)))
    } else {
        None
    }
}

/// The start time of a process that is neither a zombie nor dead: the
/// twentieth field after the command name, the first being the state.
pub open spec fn live_start_ticks(stat: Seq<char>) -> Option<nat> {
    match stat_fields(stat) {
        Some(f) => if f.len() > 19 && f[0] != "Z"@ && f[0] != "X"@ && f[0] != "x"@ && (
        parsed_unsigned(f[19]) matches Some(v) && v <= u64::MAX) {
            parsed_unsigned(f[19])
        } else {
            None
        },
        None => None,
    }
}

fn fields_after_name(stat: &str) -> (r: Option<Vec<String>>)
    ensures
        match r {
            Some(v) => stat_fields(stat@) == Some(v@.map_values(|s: String| s@)),
            None => stat_fields(stat@) is None,
        },
{
    match after_last(stat, ')') {
        Some(tail) => Some(split_whitespace(tail.as_str())),
        None => None,
    }
}

/// The start time in a stat line of a live process; a zombie, a dead
/// process or an unreadable line makes the runtime unavailable.
pub fn start_ticks(stat: &str) -> (r: Result<u64, ManagerError>)
    ensures
        match r {
            Ok(v) => live_start_ticks(stat@) == Some(v as nat),
            Err(e) => e == ManagerError::RuntimeUnavailable && live_start_ticks(stat@) is None,
        },
{
    let fields = match fields_after_name(stat) {
        Some(f) => f,
        None => return Err(ManagerError::RuntimeUnavailable),
    };
    let ghost fv = fields@.map_values(|s: String| s@);
    if fields.len() <= 19 {
        return Err(ManagerError::RuntimeUnavailable);
    }
    assert(fv[0] == fields@[0]@ && fv[19] == fields@[19]@);
    if str_eq(fields[0].as_str(), "Z") || str_eq(fields[0].as_str(), "X") || str_eq(
        fields[0].as_str(),
        "x",
    ) {
        return Err(ManagerError::RuntimeUnavailable);
    }
    match parse_u64(fields[19].as_str()) {
        Some(v) => Ok(v),
        None => Err(ManagerError::RuntimeUnavailable),
    }
}

/// The parent pid in a stat line: the second field after the command name.
pub open spec fn stat_parent(stat: Seq<char>) -> Option<nat> {
    match stat_fields(stat) {
        Some(f) => if f.len() > 1 && (parsed_unsigned(f[1]) matches Some(v) && v <= u32::MAX) {
            parsed_unsigned(f[1])
        } else {
            None
        },
        None => None,
    }
}

/// Reads the parent pid of a stat line.
pub fn parent_pid(stat: &str) -> (r: Option<u32>)
    ensures
        match r {
            Some(v) => stat_parent(stat@) == Some(v as nat),
            None => stat_parent(stat@) is None,
        },
{
    let fields = match fields_after_name(stat) {
        Some(f) => f,
        None => return None,
    };
    if fields.len() <= 1 {
        return None;
    }
    assert(fields@.map_values(|s: String| s@)[1] == fields@[1]@);
    parse_u32(fields[1].as_str())
}

/// The boot id in the kernel's boot id text: the trimmed text, which must
/// be a well-formed id.
pub fn boot_id(text: &str) -> (r: Result<String, ManagerError>)
    ensures
        match r {
            Ok(s) => s@ == trimmed(text@) && is_uuid(s@),
            Err(e) => e == ManagerError::RuntimeUnavailable && !is_uuid(trimmed(text@)),
        },
{
    let id = trim(text);
    if !is_uuid_str(id.as_str()) {
        return Err(ManagerError::RuntimeUnavailable);
    }
    Ok(id)
}

/// The identity of process `pid` read from its stat line and the boot id
/// text: no identity for pid 0, a zombie, a dead process or unreadable text.
pub open spec fn identity_of(pid: u32, stat: Seq<char>, boot: Seq<char>) -> Option<ProcessView> {
    if pid != 0 && live_start_ticks(stat) is Some && is_uuid(trimmed(boot)) {
        Some(
            ProcessView {
                pid,
                start_ticks: live_start_ticks(stat).unwrap() as u64,
                boot_id: trimmed(boot),
            },
        )
    } else {
        None
    }
}

/// The identity of process `pid`, from the text of its stat file and of
/// the kernel boot id.
pub fn process_identity(pid: u32, stat: &str, boot: &str) -> (r: Result<ProcessIdentity, ManagerError>)
    ensures
        match r {
            Ok(p) => identity_of(pid, stat@, boot@) == Some(p@),
            Err(e) => e == ManagerError::RuntimeUnavailable && identity_of(pid, stat@, boot@) is None,
        },
{
    if pid == 0 {
        return Err(ManagerError::RuntimeUnavailable);
    }
    let start = start_ticks(stat)?;
    let boot_id = boot_id(boot)?;
    Ok(ProcessIdentity { pid, start_ticks: start, boot_id })
}

} // verus!
