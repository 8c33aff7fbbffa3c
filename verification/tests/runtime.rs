use harbormaster::manager::ManagerError;
use harbormaster::runtime::argv::{
    description, focus_expression, properties_query, start_command, start_pane_commands,
    terminal_command, terminal_description,
};
use harbormaster::runtime::control::{
    ControlState, PaneIdentity, ProcessIdentity, TerminalIntent, WindowIdentity,
};
use harbormaster::runtime::desktop::{
    associate, client_line, desktop_names, focus_confirmed, focus_target, matches_window,
    select_window, Window,
};
use harbormaster::runtime::ownership::{
    already_ended, cgroup, matching_dead_pane, pane_claimable, pane_from_row, pane_row, properties,
    property,
    record_ownership, scope_owned, server_claimed, spawn_scope, Pane,
};
use harbormaster::runtime::procfs::{boot_id, parent_pid, process_identity, start_ticks};
use harbormaster::runtime::service::{
    collect, handoff, launched_server, may_start_pane, pane_status, pending, socket_root_fits,
    terminal_claimed, Collect, Handoff, PaneStatus,
};
use harbormaster::runtime::text_checks::{address, component, target};
use harbormaster::runtime::{join_path, observe, ManagedRun, RuntimeState};

const BOOT: &str = "00000000-0000-4000-8000-000000000000";
const RUN: &str = "00000000-0000-4000-8000-0000000000aa";
const NONCE: &str = "00000000-0000-4000-8000-0000000000bb";

/// A process identity as the manager reads it from `/proc`.
fn current_process() -> ProcessIdentity {
    let mut fields = vec!["S".to_string()];
    for i in 1..25 {
        fields.push((i * 100).to_string());
    }
    let stat = format!("4321 (harbormaster) {}\n", fields.join(" "));
    process_identity(4321, &stat, &format!("{BOOT}\n")).unwrap()
}

fn process(pid: u32) -> ProcessIdentity {
    ProcessIdentity { pid, start_ticks: 77, boot_id: BOOT.to_string() }
}

fn run(server: Option<ProcessIdentity>) -> ManagedRun {
    ManagedRun {
        id: RUN.to_string(),
        task_id: "00000000-0000-4000-8000-0000000000cc".to_string(),
        project_id: "00000000-0000-4000-8000-0000000000dd".to_string(),
        runtime_root: "/run/user/1000".to_string(),
        server,
    }
}

#[test]
fn focus_binding_and_persisted_metadata_reject_wrong_targets_and_expressions() {
    let process = current_process();
    let expected = WindowIdentity {
        address: "0x1234".into(),
        compositor: "instance_1".into(),
        client: process.duplicate(),
        tty: "/dev/pts/1".into(),
    };
    let mut window = Window {
        address: expected.address.clone(),
        pid: process.pid,
        app_id: "harbormaster.test".into(),
    };
    assert!(matches_window(&window, &expected, &process, "harbormaster.test"));
    window.pid += 1;
    assert!(!matches_window(&window, &expected, &process, "harbormaster.test"));
    window.pid = process.pid;
    window.app_id = "unrelated".into();
    assert!(!matches_window(&window, &expected, &process, "harbormaster.test"));
    for address_text in ["", "0x", "activewindow", "0x123\"}); hl.dsp.exit()", "0x123\n"] {
        assert!(!address(address_text));
    }
    assert!(!component("../other-instance"));
    assert!(!target("$0\n", b'$'));
}

#[test]
fn finished_pane_requires_saved_exact_session_pane_and_pid() {
    let saved = PaneIdentity {
        process: current_process(),
        pane: "%0".into(),
        session: "$0".into(),
    };
    let mut pane = Pane {
        identity: PaneIdentity {
            process: saved.process.duplicate(),
            pane: saved.pane.clone(),
            session: saved.session.clone(),
        },
        dead: true,
    };
    // tmux retains the PID but cannot supply a dead worker's boot/start identity.
    pane.identity.process.start_ticks = 0;
    pane.identity.process.boot_id.clear();
    assert!(matching_dead_pane(&pane, &saved).is_ok());
    pane.dead = false;
    assert!(matching_dead_pane(&pane, &saved).is_err());
    pane.dead = true;
    let copy = |p: &PaneIdentity| PaneIdentity {
        process: p.process.duplicate(),
        pane: p.pane.clone(),
        session: p.session.clone(),
    };
    let mut wrong = copy(&saved);
    wrong.pane = "%1".into();
    assert!(matching_dead_pane(&pane, &wrong).is_err());
    wrong = copy(&saved);
    wrong.session = "$1".into();
    assert!(matching_dead_pane(&pane, &wrong).is_err());
    wrong = copy(&saved);
    wrong.process.pid += 1;
    assert!(matching_dead_pane(&pane, &wrong).is_err());
}

#[test]
fn run_unit_and_directory_follow_path_join() {
    let r = run(None);
    assert_eq!(r.unit(), format!("harbormaster-runtime-{RUN}.service"));
    assert_eq!(r.directory(), format!("/run/user/1000/harbormaster/runners/{RUN}"));
    assert_eq!(join_path("/a/", "b"), "/a/b");
    assert_eq!(join_path("/a", "b"), "/a/b");
    assert_eq!(join_path("", "b"), "b");
    assert_eq!(join_path("/a", "/b"), "/b");
    assert_eq!(join_path("/a", ""), "/a/");
}

#[test]
fn start_command_is_the_fixed_systemd_run_argv() {
    let r = run(None);
    let command = start_command(&r, NONCE, "/home/u", Some("/run/user/1000")).unwrap();
    assert_eq!(command.program, "/usr/bin/systemd-run");
    assert_eq!(command.args.len(), 28);
    assert_eq!(command.args[6], format!("--unit=harbormaster-runtime-{RUN}.service"));
    assert_eq!(command.args[7], format!("--description=Harbormaster runtime {RUN} {NONCE}"));
    assert_eq!(command.args[18], "HOME=/home/u");
    assert_eq!(command.args[19], "XDG_RUNTIME_DIR=/run/user/1000");
    assert_eq!(
        command.args[27],
        format!("/run/user/1000/harbormaster/runners/{RUN}/tmux.sock")
    );
    let env: Vec<(String, String)> = command.env.clone();
    assert_eq!(env.len(), 4);
    assert_eq!(env[3], ("XDG_RUNTIME_DIR".to_string(), "/run/user/1000".to_string()));
    assert_eq!(
        start_command(&r, NONCE, "/home/u", None).unwrap_err(),
        ManagerError::RuntimeUnavailable
    );
    assert_eq!(description(&r, NONCE), format!("Harbormaster runtime {RUN} {NONCE}"));
}

#[test]
fn terminal_command_attaches_foot_to_the_private_socket() {
    let r = run(None);
    let intent = TerminalIntent { nonce: NONCE.to_string(), process: None, window: None };
    let command = terminal_command(&r, &intent, "/home/u", Some("/run/user/1000"), "wayland-1")
        .unwrap();
    assert_eq!(command.args.len(), 34);
    assert_eq!(command.args[6], format!("--unit=harbormaster-terminal-{NONCE}.service"));
    assert_eq!(command.args[19], "WAYLAND_DISPLAY=wayland-1");
    assert_eq!(command.args[26], format!("--app-id=harbormaster.{NONCE}"));
    assert_eq!(command.args[33], "=managed");
    assert_eq!(
        terminal_command(&r, &intent, "/home/u", None, "wayland-1").unwrap_err(),
        ManagerError::ActionUnavailable
    );
    assert_eq!(
        terminal_description(&r, &intent),
        format!("Harbormaster terminal {RUN} {NONCE}")
    );
    let (configure, start) = start_pane_commands(&r, "/usr/bin/harbormaster", "/home/u", None);
    assert_eq!(configure.args[2..], ["set-option", "-g", "remain-on-exit", "on"]);
    assert_eq!(start.args[8], "/usr/bin/harbormaster");
    assert_eq!(start.args[9], "runtime-worker");
    assert_eq!(properties_query("x.service", "/h", None).args[4], "x.service");
    assert_eq!(focus_expression("0xab"), "hl.dsp.focus({window=\"address:0xab\"})");
}

fn server_properties(description_text: &str) -> String {
    format!(
        "MainPID=4242\nInvocationID=0123456789abcdef0123456789abcdef\nControlGroup=/user.slice/x.service\nPartOf=\nBindsTo=\nKillMode=control-group\nDescription={description_text}\nActiveState=active\n"
    )
}

#[test]
fn properties_are_exact_lines_with_unique_keys() {
    let values = properties("A=1\r\nB=x=y\nC=").unwrap();
    assert_eq!(values.len(), 3);
    assert_eq!(property(&values, "B").unwrap(), "x=y");
    assert_eq!(property(&values, "C").unwrap(), "");
    assert_eq!(property(&values, "D").unwrap_err(), ManagerError::OwnershipUnverified);
    assert_eq!(properties("A=1\nA=2").unwrap_err(), ManagerError::OwnershipUnverified);
    assert_eq!(properties("A=1\nnoequals").unwrap_err(), ManagerError::OwnershipUnverified);
    assert!(properties("").unwrap().is_empty());
}

#[test]
fn owned_server_requires_every_property() {
    let r = run(None);
    let mut state = ControlState::new(RUN.to_string(), Some(NONCE.to_string()));
    let text = server_properties(&format!("Harbormaster runtime {RUN} {NONCE}"));
    let values = properties(&text).unwrap();
    let (invocation, pid) = server_claimed(&values, &r, &state).unwrap();
    assert_eq!(invocation, "0123456789abcdef0123456789abcdef");
    assert_eq!(pid, 4242);
    let other = properties(&server_properties("Harbormaster runtime other")).unwrap();
    assert!(server_claimed(&other, &r, &state).is_err());
    state.invocation = Some("ffffffffffffffffffffffffffffffff".to_string());
    assert!(server_claimed(&values, &r, &state).is_err());
    let no_nonce = ControlState::new(RUN.to_string(), None);
    assert!(server_claimed(&values, &r, &no_nonce).is_err());
    assert!(server_claimed(&values, &run(Some(process(4242))), &no_nonce).is_ok());
    let intent = TerminalIntent { nonce: NONCE.to_string(), process: None, window: None };
    let terminal = properties(&server_properties(&format!("Harbormaster terminal {RUN} {NONCE}")))
        .unwrap();
    assert_eq!(terminal_claimed(&terminal, &r, &intent).unwrap(), 4242);
    assert!(terminal_claimed(&values, &r, &intent).is_err());
}

#[test]
fn pane_listing_and_status_are_exact() {
    let row = pane_row("100:managed:$3:%7:0:200\n", 100).unwrap();
    assert_eq!((row.pid, row.session.as_str(), row.pane.as_str(), row.dead), (200, "$3", "%7", false));
    assert!(pane_row("100:managed:$3:%7:1:200", 100).unwrap().dead);
    assert!(pane_row("101:managed:$3:%7:0:200", 100).is_err());
    assert!(pane_row("100:other:$3:%7:0:200", 100).is_err());
    assert!(pane_row("100:managed:$3:%7:2:200", 100).is_err());
    assert!(pane_row("100:managed:$3:%7:0:200\n100:managed:$3:%7:0:200", 100).is_err());
    assert!(pane_row("100:managed:3:%7:0:200", 100).is_err());
    assert_eq!(pane_status(" 100:1:0 \n", 100).unwrap(), PaneStatus::Exited);
    assert_eq!(pane_status("100:0:55", 100).unwrap(), PaneStatus::Alive { pid: 55 });
    assert_eq!(pane_status("100:0:x", 100).unwrap_err(), ManagerError::RuntimeUnavailable);
    assert_eq!(pane_status("99:1:0", 100).unwrap_err(), ManagerError::RuntimeUnavailable);
}

#[test]
fn panes_from_rows_keep_the_listed_fields() {
    let dead = pane_from_row(pane_row("100:managed:$3:%7:1:200", 100).unwrap(), None);
    assert!(dead.dead);
    assert_eq!((dead.identity.pane.as_str(), dead.identity.session.as_str()), ("%7", "$3"));
    assert_eq!(
        (dead.identity.process.pid, dead.identity.process.start_ticks, dead.identity.process.boot_id.as_str()),
        (200, 0, "")
    );
    let read = current_process();
    let live = pane_from_row(pane_row("100:managed:$3:%7:0:200", 100).unwrap(), Some(current_process()));
    assert!(!live.dead);
    assert_eq!((live.identity.pane.as_str(), live.identity.session.as_str()), ("%7", "$3"));
    assert!(live.identity.process.same(&read));
}

#[test]
fn owned_pane_scope_and_cgroup() {
    let scope = spawn_scope(&format!("/user.slice/app.slice/tmux-spawn-{NONCE}.scope")).unwrap();
    assert_eq!(scope, format!("tmux-spawn-{NONCE}.scope"));
    assert!(spawn_scope("/user.slice/tmux-spawn-nope.scope").is_err());
    assert!(spawn_scope(&format!("/x/tmux-{NONCE}.scope")).is_err());
    assert_eq!(cgroup("0::/user.slice/a.scope\n").unwrap(), "/user.slice/a.scope");
    assert!(cgroup("1:name=x:/a").is_err());
    assert!(cgroup("0::/a\rb").is_err());
    let r = run(None);
    let text = format!("PartOf=harbormaster-runtime-{RUN}.service\nControlGroup=/g");
    let values = properties(&text).unwrap();
    assert!(scope_owned(&values, &r, "/g").is_ok());
    assert!(scope_owned(&values, &r, "/h").is_err());
}

#[test]
fn pane_claims_and_recorded_ownership() {
    let mut state = ControlState::new(RUN.to_string(), None);
    let pane = Pane {
        identity: PaneIdentity { process: process(9), pane: "%1".into(), session: "$1".into() },
        dead: false,
    };
    assert!(pane_claimable(&pane, &state).is_ok());
    record_ownership(
        &mut state,
        "0123456789abcdef0123456789abcdef".to_string(),
        Some(PaneIdentity { process: process(9), pane: "%1".into(), session: "$1".into() }),
    );
    assert!(pane_claimable(&pane, &state).is_ok());
    let other = Pane {
        identity: PaneIdentity { process: process(10), pane: "%1".into(), session: "$1".into() },
        dead: false,
    };
    assert!(pane_claimable(&other, &state).is_err());
    state.ending = true;
    let ended = run(Some(process(1)));
    let inactive = "inactive".to_string();
    assert!(already_ended(&state, &ended, false, false, Some(&inactive)));
    assert!(!already_ended(&state, &ended, true, false, Some(&inactive)));
    assert!(!already_ended(&state, &ended, false, false, None));
}

#[test]
fn proc_stat_and_boot_id_are_read_exactly() {
    let mut fields = vec!["S".to_string()];
    for i in 1..25 {
        fields.push(i.to_string());
    }
    let stat = format!("42 (a) b) {}\n", fields.join(" "));
    assert_eq!(start_ticks(&stat).unwrap(), 19);
    assert_eq!(parent_pid(&stat), Some(1));
    let zombie = stat.replacen(") S ", ") Z ", 1);
    assert_eq!(start_ticks(&zombie).unwrap_err(), ManagerError::RuntimeUnavailable);
    assert!(start_ticks("no parenthesis").is_err());
    assert_eq!(boot_id(&format!(" {BOOT}\n")).unwrap(), BOOT);
    assert!(boot_id("not-a-boot-id").is_err());
    assert!(process_identity(0, &stat, BOOT).is_err());
    let identity = process_identity(42, &stat, BOOT).unwrap();
    assert_eq!((identity.pid, identity.start_ticks), (42, 19));
    let me = current_process();
    assert_eq!((me.pid, me.start_ticks, me.boot_id.as_str()), (4321, 1900, BOOT));
}

#[test]
fn windows_and_clients_are_selected_exactly() {
    let w = |address: &str, pid: u32, app: &str| Window {
        address: address.into(),
        pid,
        app_id: app.into(),
    };
    let windows = vec![w("0x1", 5, "other"), w("0xab", 5, "harbormaster.t"), w("0x2", 6, "harbormaster.t")];
    assert_eq!(select_window(&windows, 5, "harbormaster.t").unwrap(), "0xab");
    let twice = vec![w("0xab", 5, "harbormaster.t"), w("0xac", 5, "harbormaster.t")];
    assert_eq!(
        select_window(&twice, 5, "harbormaster.t").unwrap_err(),
        ManagerError::OwnershipUnverified
    );
    let bad = vec![w("ab", 5, "harbormaster.t")];
    assert!(select_window(&bad, 5, "harbormaster.t").is_err());
    let many: Vec<Window> = (0..129).map(|i| w("0x1", i, "x")).collect();
    assert_eq!(
        select_window(&many, 5, "harbormaster.t").unwrap_err(),
        ManagerError::ActionUnavailable
    );
    assert_eq!(client_line("12:$1:/dev/pts/3", "$1"), Some((12, "/dev/pts/3".to_string())));
    assert_eq!(client_line("12:$2:/dev/pts/3", "$1"), None);
    assert_eq!(client_line("x:$1:/dev/pts/3", "$1"), None);
}

#[test]
fn launch_handoff_and_subprocess_steps() {
    assert_eq!(handoff(b"abc", false, None).unwrap(), Handoff::Write);
    assert_eq!(handoff(b"abc", false, Some(b"abc")).unwrap(), Handoff::Keep);
    assert_eq!(
        handoff(b"abc", false, Some(b"abd")).unwrap_err(),
        ManagerError::OwnershipUnverified
    );
    assert_eq!(handoff(b"abc", true, None).unwrap_err(), ManagerError::UnknownOutcome);
    assert_eq!(handoff(&vec![0u8; 32769], false, None).unwrap_err(), ManagerError::InvalidRequest);
    assert!(pending(false, true));
    assert!(!pending(true, true));
    let with_nonce = ControlState::new(RUN.to_string(), Some(NONCE.to_string()));
    assert!(may_start_pane(&with_nonce, true).is_ok());
    assert_eq!(may_start_pane(&with_nonce, false).unwrap_err(), ManagerError::UnknownOutcome);
    assert_eq!(collect(10, false, Some(true), true).unwrap(), Collect::Finish);
    assert_eq!(collect(10, false, None, false).unwrap(), Collect::Wait);
    assert_eq!(collect(8193, false, None, false).unwrap_err(), ManagerError::UnknownOutcome);
    assert_eq!(collect(1, false, Some(false), true).unwrap_err(), ManagerError::RuntimeUnavailable);
    assert!(socket_root_fits("/run/user/1000"));
    assert!(!socket_root_fits(&"/r".repeat(20)));
    assert_eq!(
        launched_server("MainPID=7\nPartOf=\nBindsTo=\nKillMode=control-group\nnoise").unwrap(),
        7
    );
    assert_eq!(
        launched_server("MainPID=7\nPartOf=x\nBindsTo=\nKillMode=control-group").unwrap_err(),
        ManagerError::RuntimeUnavailable
    );
    assert_eq!(
        launched_server("PartOf=x\nPartOf=\nMainPID=8\nBindsTo=\nKillMode=control-group").unwrap(),
        8
    );
}

#[test]
fn observe_reports_liveness_only() {
    let view = observe(run(None), true, Ok(RuntimeState::Running));
    assert_eq!(view.state, RuntimeState::Uncertain);
    assert!(view.limited_visibility);
    assert_eq!(view.unit, format!("harbormaster-runtime-{RUN}.service"));
    let view = observe(run(Some(process(3))), false, Ok(RuntimeState::Running));
    assert_eq!(view.state, RuntimeState::Unavailable);
    let view = observe(run(Some(process(3))), true, Err(ManagerError::RuntimeUnavailable));
    assert_eq!(view.state, RuntimeState::Uncertain);
    let view = observe(run(Some(process(3))), true, Ok(RuntimeState::Exited));
    assert_eq!(view.state, RuntimeState::Exited);
}

#[test]
fn associations_and_focus_are_exact() {
    assert!(desktop_names("wayland-1", "abc_123").is_ok());
    assert_eq!(desktop_names("../x", "abc").unwrap_err(), ManagerError::ActionUnavailable);
    let window = |address: &str| WindowIdentity {
        address: address.to_string(),
        compositor: "c".to_string(),
        client: process(3),
        tty: "/dev/pts/1".to_string(),
    };
    let fresh = TerminalIntent { nonce: NONCE.to_string(), process: Some(process(2)), window: None };
    let found = associate(&fresh, "0x1".into(), "c".into(), process(3), "/dev/pts/1".into()).unwrap();
    assert_eq!(found.address, "0x1");
    let saved = TerminalIntent { nonce: NONCE.to_string(), process: Some(process(2)), window: Some(window("0x1")) };
    assert!(associate(&saved, "0x2".into(), "c".into(), process(3), "/dev/pts/1".into()).is_err());
    assert!(focus_target(Some(&saved), &window("0x1")).is_ok());
    assert_eq!(focus_target(Some(&saved), &window("0x2")).unwrap_err(), ManagerError::OwnershipUnverified);
    assert_eq!(focus_target(Some(&fresh), &window("0x1")).unwrap_err(), ManagerError::ActionUnavailable);
    assert_eq!(focus_target(None, &window("0x1")).unwrap_err(), ManagerError::ActionUnavailable);
    let active = Window { address: "0x1".into(), pid: 2, app_id: "harbormaster.a".into() };
    assert!(focus_confirmed(&active, &window("0x1"), &process(2), "harbormaster.a", &window("0x1")).is_ok());
    assert!(focus_confirmed(&active, &window("0x1"), &process(2), "harbormaster.a", &window("0x2")).is_err());
    assert!(focus_confirmed(&active, &window("0x1"), &process(5), "harbormaster.a", &window("0x1")).is_err());
}
