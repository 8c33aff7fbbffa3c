//! Fixed argv and environment of every subprocess the runtime starts.
use super::control::TerminalIntent;
use super::{ManagedRun, path_join, run_directory, run_unit};
use crate::manager::ManagerError;
use vstd::prelude::*;
use vstd::string::StringExecFns;

verus! {

/// The text of each string of a sequence.
pub open spec fn views(v: Seq<String>) -> Seq<Seq<char>> {
    v.map_values(|s: String| s@)
}

/// A subprocess to run: its program, its arguments, and the whole of its
/// environment (nothing is inherited).
#[derive(Debug)]
pub struct CommandLine {
    pub program: String,
    pub args: Vec<String>,
    pub env: Vec<(String, String)>,
}

/// The text of each pair of an environment.
pub open spec fn env_views(v: Seq<(String, String)>) -> Seq<(Seq<char>, Seq<char>)> {
    v.map_values(|p: (String, String)| (p.0@, p.1@))
}

/// The environment of every subprocess: home, a fixed search path and
/// locale, and the session runtime directory when there is one.
pub open spec fn base_env(home: Seq<char>, runtime: Option<Seq<char>>) -> Seq<(Seq<char>, Seq<char>)> {
    let fixed = seq![("HOME"@, home), ("PATH"@, "/usr/bin:/bin"@), ("LC_ALL"@, "C"@)];
    match runtime {
        Some(r) => fixed.push(("XDG_RUNTIME_DIR"@, r)),
        None => fixed,
    }
}

fn push_text(args: &mut Vec<String>, text: &str)
    ensures
        views(final(args)@) == views(old(args)@).push(text@),
{
    let ghost before = args@;
    args.push(String::from_str(text));
    assert(views(args@) =~= views(before).push(text@));
}

fn push_owned(args: &mut Vec<String>, text: String)
    ensures
        views(final(args)@) == views(old(args)@).push(text@),
{
    let ghost before = args@;
    args.push(text);
    assert(views(args@) =~= views(before).push(text@));
}

fn push_env(env: &mut Vec<(String, String)>, key: &str, value: &str)
    ensures
        env_views(final(env)@) == env_views(old(env)@).push((key@, value@)),
{
    let ghost before = env@;
    env.push((String::from_str(key), String::from_str(value)));
    assert(env_views(env@) =~= env_views(before).push((key@, value@)));
}

/// `prefix` followed by `value`.
fn prefixed(prefix: &str, value: &str) -> (r: String)
    ensures
        r@ == prefix@ + value@,
{
    let mut out = String::from_str(prefix);
    out.append(value);
    out
}

/// A command for `program` with the fixed environment.
pub fn base_command(program: &str, home: &str, runtime: Option<&str>) -> (c: CommandLine)
    ensures
        c.program@ == program@,
        c.args@.len() == 0,
        env_views(c.env@) == base_env(home@, match runtime {
            Some(r) => Some(r@),
            None => None,
        }),
{
    let mut env: Vec<(String, String)> = Vec::new();
    push_env(&mut env, "HOME", home);
    push_env(&mut env, "PATH", "/usr/bin:/bin");
    push_env(&mut env, "LC_ALL", "C");
    if let Some(r) = runtime {
        push_env(&mut env, "XDG_RUNTIME_DIR", r);
    }
    CommandLine { program: String::from_str(program), args: Vec::new(), env }
}

/// `Harbormaster runtime {run id} {launch nonce}`: the unit description a
/// recorded launch is recognized by.
pub open spec fn runtime_description(id: Seq<char>, nonce: Seq<char>) -> Seq<char> {
    "Harbormaster runtime "@ + id + " "@ + nonce
}

/// `Harbormaster terminal {run id} {terminal nonce}`.
pub open spec fn terminal_description_of(id: Seq<char>, nonce: Seq<char>) -> Seq<char> {
    "Harbormaster terminal "@ + id + " "@ + nonce
}

/// The unit description of the runtime of `run` launched under `nonce`.
pub fn description(run: &ManagedRun, nonce: &str) -> (r: String)
    ensures
        r@ == runtime_description(run.id@, nonce@),
{
    let mut out = String::from_str("Harbormaster runtime ");
    out.append(run.id.as_str());
    out.append(" ");
    out.append(nonce);
    out
}

/// The unit description of the standalone terminal of `run`.
pub fn terminal_description(run: &ManagedRun, intent: &TerminalIntent) -> (r: String)
    ensures
        r@ == terminal_description_of(run.id@, intent.nonce@),
{
    let mut out = String::from_str("Harbormaster terminal ");
    out.append(run.id.as_str());
    out.append(" ");
    out.append(intent.nonce.as_str());
    out
}

/// The private tmux socket of a run.
pub open spec fn run_socket(root: Seq<char>, id: Seq<char>) -> Seq<char> {
    path_join(run_directory(root, id), "tmux.sock"@)
}

/// The argv after `systemd-run` that starts the runtime of a run: a
/// collected transient user service named for the run, described by the run
/// and its launch nonce, killed as a control group, with no standard
/// streams, running a private-socket tmux server under an empty environment
/// of home, session runtime directory, search path and locale.
pub open spec fn start_args(
    unit: Seq<char>,
    description: Seq<char>,
    home: Seq<char>,
    runtime: Seq<char>,
    socket: Seq<char>,
) -> Seq<Seq<char>> {
    seq![
        "--user"@,
        "--no-ask-password"@,
        "--quiet"@,
        "--collect"@,
        "--service-type=exec"@,
        "--expand-environment=no"@,
        "--unit="@ + unit,
        "--description="@ + description,
        "--property=KillMode=control-group"@,
        "--property=Restart=no"@,
        "--property=TimeoutStopSec=5"@,
        "--property=UMask=0077"@,
        "--property=StandardInput=null"@,
        "--property=StandardOutput=null"@,
        "--property=StandardError=null"@,
        "--"@,
        "/usr/bin/env"@,
        "-i"@,
        "HOME="@ + home,
        "XDG_RUNTIME_DIR="@ + runtime,
        "PATH=/usr/bin:/bin"@,
        "LC_ALL=C"@,
        "/usr/bin/tmux"@,
        "-D"@,
        "-f"@,
        "/dev/null"@,
        "-S"@,
        socket,
    ]
}

/// The `systemd-run` command that starts the tmux server of `run`. Without
/// a session runtime directory the runtime is unavailable.
#[verifier::rlimit(40)]
pub fn start_command(run: &ManagedRun, nonce: &str, home: &str, runtime: Option<&str>) -> (r: Result<CommandLine, ManagerError>)
    ensures
        match r {
            Ok(c) => {
                &&& runtime is Some
                &&& c.program@ == "/usr/bin/systemd-run"@
                &&& views(c.args@) == start_args(
                    run_unit(run.id@),
                    runtime_description(run.id@, nonce@),
                    home@,
                    runtime.unwrap()@,
                    run_socket(run.runtime_root@, run.id@),
                )
                &&& env_views(c.env@) == base_env(home@, Some(runtime.unwrap()@))
            },
            Err(e) => runtime is None && e == ManagerError::RuntimeUnavailable,
        },
{
    let session = match runtime {
        Some(s) => s,
        None => return Err(ManagerError::RuntimeUnavailable),
    };
    let mut command = base_command("/usr/bin/systemd-run", home, runtime);
    let mut args: Vec<String> = Vec::new();
    let unit = run.unit();
    let describe = description(run, nonce);
    let directory = run.directory();
    let socket = super::join_path(directory.as_str(), "tmux.sock");
    push_text(&mut args, "--user");
    push_text(&mut args, "--no-ask-password");
    push_text(&mut args, "--quiet");
    push_text(&mut args, "--collect");
    push_text(&mut args, "--service-type=exec");
    push_text(&mut args, "--expand-environment=no");
    push_owned(&mut args, prefixed("--unit=", unit.as_str()));
    push_owned(&mut args, prefixed("--description=", describe.as_str()));
    push_text(&mut args, "--property=KillMode=control-group");
    push_text(&mut args, "--property=Restart=no");
    push_text(&mut args, "--property=TimeoutStopSec=5");
    push_text(&mut args, "--property=UMask=0077");
    push_text(&mut args, "--property=StandardInput=null");
    push_text(&mut args, "--property=StandardOutput=null");
    push_text(&mut args, "--property=StandardError=null");
    push_text(&mut args, "--");
    push_text(&mut args, "/usr/bin/env");
    push_text(&mut args, "-i");
    push_owned(&mut args, prefixed("HOME=", home));
    push_owned(&mut args, prefixed("XDG_RUNTIME_DIR=", session));
    push_text(&mut args, "PATH=/usr/bin:/bin");
    push_text(&mut args, "LC_ALL=C");
    push_text(&mut args, "/usr/bin/tmux");
    push_text(&mut args, "-D");
    push_text(&mut args, "-f");
    push_text(&mut args, "/dev/null");
    push_text(&mut args, "-S");
    push_owned(&mut args, socket);
    command.args = args;
    Ok(command)
}

/// The argv after `systemd-run` that starts the standalone terminal of a
/// run: a collected transient user service named for the terminal,
/// described by the run and the terminal nonce, killed as a control group,
/// with no standard streams, running foot under an empty environment of
/// home, session runtime directory, display, search path and locale, with
/// no configuration or logging, the terminal's app id and a fixed title,
/// attached to the run's private tmux session.
pub open spec fn terminal_args(
    unit: Seq<char>,
    description: Seq<char>,
    home: Seq<char>,
    runtime: Seq<char>,
    display: Seq<char>,
    app_id: Seq<char>,
    socket: Seq<char>,
) -> Seq<Seq<char>> {
    seq![
        "--user"@,
        "--quiet"@,
        "--collect"@,
        "--no-ask-password"@,
        "--service-type=exec"@,
        "--expand-environment=no"@,
        "--unit="@ + unit,
        "--description="@ + description,
        "--property=KillMode=control-group"@,
        "--property=TimeoutStopSec=5"@,
        "--property=UMask=0077"@,
        "--property=StandardInput=null"@,
        "--property=StandardOutput=null"@,
        "--property=StandardError=null"@,
        "--"@,
        "/usr/bin/env"@,
        "-i"@,
        "HOME="@ + home,
        "XDG_RUNTIME_DIR="@ + runtime,
        "WAYLAND_DISPLAY="@ + display,
        "PATH=/usr/bin:/bin"@,
        "LC_ALL=C"@,
        "/usr/bin/foot"@,
        "--config=/dev/null"@,
        "--log-level=none"@,
        "--log-no-syslog"@,
        "--app-id="@ + app_id,
        "--title=Harbormaster"@,
        "/usr/bin/tmux"@,
        "-S"@,
        socket,
        "attach-session"@,
        "-t"@,
        "=managed"@,
    ]
}

/// The `systemd-run` command that starts the standalone terminal of `run`
/// on the Wayland display `display`. Without a session runtime directory
/// the action is unavailable.
#[verifier::rlimit(40)]
pub fn terminal_command(
    run: &ManagedRun,
    intent: &TerminalIntent,
    home: &str,
    runtime: Option<&str>,
    display: &str,
) -> (r: Result<CommandLine, ManagerError>)
    ensures
        match r {
            Ok(c) => {
                &&& runtime is Some
                &&& c.program@ == "/usr/bin/systemd-run"@
                &&& views(c.args@) == terminal_args(
                    "harbormaster-terminal-"@ + intent.nonce@ + ".service"@,
                    terminal_description_of(run.id@, intent.nonce@),
                    home@,
                    runtime.unwrap()@,
                    display@,
                    "harbormaster."@ + intent.nonce@,
                    run_socket(run.runtime_root@, run.id@),
                )
                &&& env_views(c.env@) == base_env(home@, Some(runtime.unwrap()@))
            },
            Err(e) => runtime is None && e == ManagerError::ActionUnavailable,
        },
{
    let session = match runtime {
        Some(s) => s,
        None => return Err(ManagerError::ActionUnavailable),
    };
    let mut command = base_command("/usr/bin/systemd-run", home, runtime);
    let mut args: Vec<String> = Vec::new();
    let unit = intent.unit();
    let describe = terminal_description(run, intent);
    let app_id = intent.app_id();
    let directory = run.directory();
    let socket = super::join_path(directory.as_str(), "tmux.sock");
    push_text(&mut args, "--user");
    push_text(&mut args, "--quiet");
    push_text(&mut args, "--collect");
    push_text(&mut args, "--no-ask-password");
    push_text(&mut args, "--service-type=exec");
    push_text(&mut args, "--expand-environment=no");
    push_owned(&mut args, prefixed("--unit=", unit.as_str()));
    push_owned(&mut args, prefixed("--description=", describe.as_str()));
    push_text(&mut args, "--property=KillMode=control-group");
    push_text(&mut args, "--property=TimeoutStopSec=5");
    push_text(&mut args, "--property=UMask=0077");
    push_text(&mut args, "--property=StandardInput=null");
    push_text(&mut args, "--property=StandardOutput=null");
    push_text(&mut args, "--property=StandardError=null");
    push_text(&mut args, "--");
    push_text(&mut args, "/usr/bin/env");
    push_text(&mut args, "-i");
    push_owned(&mut args, prefixed("HOME=", home));
    push_owned(&mut args, prefixed("XDG_RUNTIME_DIR=", session));
    push_owned(&mut args, prefixed("WAYLAND_DISPLAY=", display));
    push_text(&mut args, "PATH=/usr/bin:/bin");
    push_text(&mut args, "LC_ALL=C");
    push_text(&mut args, "/usr/bin/foot");
    push_text(&mut args, "--config=/dev/null");
    push_text(&mut args, "--log-level=none");
    push_text(&mut args, "--log-no-syslog");
    push_owned(&mut args, prefixed("--app-id=", app_id.as_str()));
    push_text(&mut args, "--title=Harbormaster");
    push_text(&mut args, "/usr/bin/tmux");
    push_text(&mut args, "-S");
    push_owned(&mut args, socket);
    push_text(&mut args, "attach-session");
    push_text(&mut args, "-t");
    push_text(&mut args, "=managed");
    command.args = args;
    Ok(command)
}

/// A tmux command on the private socket of a run: `tmux -S {socket}`.
pub fn tmux_command(run: &ManagedRun, home: &str, runtime: Option<&str>) -> (c: CommandLine)
    ensures
        c.program@ == "/usr/bin/tmux"@,
        views(c.args@) == seq!["-S"@, run_socket(run.runtime_root@, run.id@)],
        env_views(c.env@) == base_env(home@, match runtime {
            Some(r) => Some(r@),
            None => None,
        }),
{
    let mut command = base_command("/usr/bin/tmux", home, runtime);
    let mut args: Vec<String> = Vec::new();
    let directory = run.directory();
    push_text(&mut args, "-S");
    push_owned(&mut args, super::join_path(directory.as_str(), "tmux.sock"));
    command.args = args;
    command
}

/// The two tmux commands that start the run's pane: keep exited panes, then
/// one detached session named `managed` in the run directory running
/// `{executable} runtime-worker {directory}`.
pub fn start_pane_commands(run: &ManagedRun, executable: &str, home: &str, runtime: Option<&str>) -> (r: (CommandLine, CommandLine))
    ensures
        r.0.program@ == "/usr/bin/tmux"@,
        r.1.program@ == "/usr/bin/tmux"@,
        views(r.0.args@) == seq![
            "-S"@,
            run_socket(run.runtime_root@, run.id@),
            "set-option"@,
            "-g"@,
            "remain-on-exit"@,
            "on"@,
        ],
        views(r.1.args@) == seq![
            "-S"@,
            run_socket(run.runtime_root@, run.id@),
            "new-session"@,
            "-d"@,
            "-s"@,
            "managed"@,
            "-c"@,
            run_directory(run.runtime_root@, run.id@),
            executable@,
            "runtime-worker"@,
            run_directory(run.runtime_root@, run.id@),
        ],
{
    let mut configure = tmux_command(run, home, runtime);
    let mut args = configure.args;
    push_text(&mut args, "set-option");
    push_text(&mut args, "-g");
    push_text(&mut args, "remain-on-exit");
    push_text(&mut args, "on");
    configure.args = args;
    let mut start = tmux_command(run, home, runtime);
    let mut args = start.args;
    let directory = run.directory();
    push_text(&mut args, "new-session");
    push_text(&mut args, "-d");
    push_text(&mut args, "-s");
    push_text(&mut args, "managed");
    push_text(&mut args, "-c");
    push_text(&mut args, directory.as_str());
    push_text(&mut args, executable);
    push_text(&mut args, "runtime-worker");
    push_text(&mut args, directory.as_str());
    start.args = args;
    (configure, start)
}

/// The systemctl query for the ownership properties of `unit`.
pub fn properties_query(unit: &str, home: &str, runtime: Option<&str>) -> (c: CommandLine)
    ensures
        c.program@ == "/usr/bin/systemctl"@,
        views(c.args@) == seq![
            "--user"@,
            "show"@,
            "--no-pager"@,
            "--property=MainPID,InvocationID,ControlGroup,PartOf,BindsTo,KillMode,Description,ActiveState"@,
            unit@,
        ],
{
    let mut command = base_command("/usr/bin/systemctl", home, runtime);
    let mut args: Vec<String> = Vec::new();
    push_text(&mut args, "--user");
    push_text(&mut args, "show");
    push_text(&mut args, "--no-pager");
    push_text(
        &mut args,
        "--property=MainPID,InvocationID,ControlGroup,PartOf,BindsTo,KillMode,Description,ActiveState",
    );
    push_text(&mut args, unit);
    command.args = args;
    command
}

/// The compositor expression that focuses the window at `address`. Callers
/// pass only an address of a verified association, which `address` has
/// checked to be `0x` and hexadecimal digits.
pub fn focus_expression(address: &str) -> (r: String)
    ensures
        r@ == "hl.dsp.focus({window=\"address:"@ + address@ + "\"})"@,
{
    let mut out = String::from_str("hl.dsp.focus({window=\"address:");
    out.append(address);
    out.append("\"})");
    out
}

} // verus!
