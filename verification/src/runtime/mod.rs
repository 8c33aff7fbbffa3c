//! Independent, explicitly owned terminal runtimes. No harness content capture.
pub mod argv;
pub mod control;
pub mod desktop;
pub mod ownership;
pub mod procfs;
pub mod service;
pub mod text_checks;

use self::control::{ControlState, ProcessIdentity, ProcessView, opt_process_view};
use crate::manager::ManagerError;
use crate::page::Page;
use crate::text::chars_of;
use vstd::prelude::*;
use vstd::string::StringExecFns;

verus! {

/// Most managed runs the catalog holds.
pub const MAX_MANAGED_RUNS: usize = 1000;

/// Managed runs listed per page.
pub const RUN_PAGE_SIZE: usize = 10;

/// `Path::join` on text paths: an absolute part replaces the base; otherwise
/// the part follows the base, with one `/` between them unless the base is
/// empty or already ends in `/`.
pub open spec fn path_join(base: Seq<char>, part: Seq<char>) -> Seq<char> {
    if part.len() > 0 && part[0] == '/' {
        part
    } else if base.len() == 0 || base.last() == '/' {
        base + part
    } else {
        base + seq!['/'] + part
    }
}

/// Joins `part` onto `base` as `Path::join` does.
pub fn join_path(base: &str, part: &str) -> (r: String)
    ensures
        r@ == path_join(base@, part@),
{
    let b = chars_of(base);
    let p = chars_of(part);
    if p.len() > 0 && p[0] == '/' {
        return String::from_str(part);
    }
    let mut out = String::from_str(base);
    if b.len() > 0 && b[b.len() - 1] != '/' {
        out.append("/");
        proof {
            reveal_strlit("/");
        }
    }
    out.append(part);
    out
}

/// A durable launch attempt for one task.
#[derive(Debug)]
pub struct ManagedRun {
    pub id: String,
    pub task_id: String,
    pub project_id: String,
    pub runtime_root: String,
    pub server: Option<ProcessIdentity>,
}

pub ghost struct RunRecord {
    pub id: Seq<char>,
    pub task_id: Seq<char>,
    pub project_id: Seq<char>,
    pub runtime_root: Seq<char>,
    pub server: Option<ProcessView>,
}

impl View for ManagedRun {
    type V = RunRecord;

    open spec fn view(&self) -> RunRecord {
        RunRecord {
            id: self.id@,
            task_id: self.task_id@,
            project_id: self.project_id@,
            runtime_root: self.runtime_root@,
            server: opt_process_view(self.server),
        }
    }
}

/// The systemd unit of a run.
pub open spec fn run_unit(id: Seq<char>) -> Seq<char> {
    "harbormaster-runtime-"@ + id + ".service"@
}

/// The private directory of a run under its runtime root.
pub open spec fn run_directory(root: Seq<char>, id: Seq<char>) -> Seq<char> {
    path_join(path_join(root, "harbormaster/runners"@), id)
}

impl ManagedRun {
    /// `harbormaster-runtime-{id}.service`.
    pub fn unit(&self) -> (r: String)
        ensures
            r@ == run_unit(self.id@),
    {
        let mut out = String::from_str("harbormaster-runtime-");
        out.append(self.id.as_str());
        out.append(".service");
        out
    }

    /// `{runtime_root}/harbormaster/runners/{id}`, joined as paths join.
    pub fn directory(&self) -> (r: String)
        ensures
            r@ == run_directory(self.runtime_root@, self.id@),
    {
        let runners = join_path(self.runtime_root.as_str(), "harbormaster/runners");
        join_path(runners.as_str(), self.id.as_str())
    }

    /// A field-by-field copy.
    pub fn duplicate(&self) -> (r: Self)
        ensures
            r@ == self@,
    {
        ManagedRun {
            id: self.id.clone(),
            task_id: self.task_id.clone(),
            project_id: self.project_id.clone(),
            runtime_root: self.runtime_root.clone(),
            server: match &self.server {
                Some(p) => Some(p.duplicate()),
                None => None,
            },
        }
    }
}

/// What is known of a runtime's liveness; not of task progress.
#[derive(Clone, Copy, Debug, PartialEq, Eq, Structural)]
pub enum RuntimeState {
    Uncertain,
    Running,
    Exited,
    Unavailable,
}

/// A run with its unit and observed runtime state.
#[derive(Debug)]
pub struct RunView {
    pub run: ManagedRun,
    pub unit: String,
    pub state: RuntimeState,
    /// No harness observer exists yet; runtime liveness is not task progress.
    pub limited_visibility: bool,
}

/// The observed state of a run: uncertain before a server is recorded,
/// unavailable when the recorded server is no longer the same process, else
/// what the pane reports, or uncertain when the pane cannot be read.
pub open spec fn observed_state(
    has_server: bool,
    server_current: bool,
    pane: Result<RuntimeState, ManagerError>,
) -> RuntimeState {
    if !has_server {
        RuntimeState::Uncertain
    } else if !server_current {
        RuntimeState::Unavailable
    } else {
        match pane {
            Ok(s) => s,
            Err(_) => RuntimeState::Uncertain,
        }
    }
}

/// Builds the view of `run` from what was observed: whether its recorded
/// server is still current, and the pane state read from its tmux server.
pub fn observe(run: ManagedRun, server_current: bool, pane: Result<RuntimeState, ManagerError>) -> (v: RunView)
    ensures
        v.run@ == run@,
        v.unit@ == run_unit(run.id@),
        v.state == observed_state(run.server is Some, server_current, pane),
        v.limited_visibility,
{
    let state = match &run.server {
        None => RuntimeState::Uncertain,
        Some(_) => if !server_current {
            RuntimeState::Unavailable
        } else {
            match pane {
                Ok(s) => s,
                Err(_) => RuntimeState::Uncertain,
            }
        },
    };
    let unit = run.unit();
    RunView { unit, run, state, limited_visibility: true }
}

/// Requests of the run catalog.
#[derive(Debug)]
pub enum RunnerRequest {
    Get { id: String },
    ByTask { task_id: String },
    Reserve { task_id: String, runtime_root: String },
    Identify { id: String, server: ProcessIdentity },
    List { project_id: String, after: Option<String> },
}

/// Answers of the run catalog.
#[derive(Debug)]
pub enum RunnerResponse {
    Found(Option<ManagedRun>),
    Reserved { run: ManagedRun, created: bool },
    Identified(ManagedRun),
    Listed(Page<ManagedRun>),
}

/// Requests of the runtime control store.
#[derive(Debug)]
pub enum ControlRequest {
    Get(String),
    Save(Box<ControlState>),
    OtherWriters { project_id: String, task_id: String },
}

/// Answers of the runtime control store.
#[derive(Debug)]
pub enum ControlResponse {
    State(Option<Box<ControlState>>),
    Saved,
    OtherWriters(bool),
}

} // verus!
