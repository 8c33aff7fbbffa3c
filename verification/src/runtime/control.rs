//! Persisted runtime intent and observed ownership, separate from harness facts.
use super::text_checks::{address, component, hex, is_address, is_component, is_decimal, is_hex, is_target, target};
use crate::manager::ManagerError;
use crate::protocol::is_uuid;
use vstd::prelude::*;
use vstd::string::StringSliceAdditionalSpecFns;
use vstd::utf8::encode_utf8;

verus! {

/// Largest encoded control record, in bytes.
pub const MAX_CONTROL_RECORD: usize = 8192;

/// A process named by pid, kernel start time and boot.
#[derive(Debug)]
pub struct ProcessIdentity {
    pub pid: u32,
    pub start_ticks: u64,
    pub boot_id: String,
}

pub ghost struct ProcessView {
    pub pid: u32,
    pub start_ticks: u64,
    pub boot_id: Seq<char>,
}

impl View for ProcessIdentity {
    type V = ProcessView;

    open spec fn view(&self) -> ProcessView {
        ProcessView { pid: self.pid, start_ticks: self.start_ticks, boot_id: self.boot_id@ }
    }
}

/// A recorded process identity names a real process of a known boot.
pub open spec fn process_valid(p: ProcessView) -> bool {
    p.pid != 0 && is_uuid(p.boot_id)
}

impl ProcessIdentity {
    /// Checks `process_valid`.
    pub fn validate(&self) -> (r: Result<(), ManagerError>)
        ensures
            r == if process_valid(self@) {
                Ok::<(), ManagerError>(())
            } else {
                Err(ManagerError::InvalidRequest)
            },
    {
        if self.pid == 0 || !crate::protocol::is_uuid_str(self.boot_id.as_str()) {
            return Err(ManagerError::InvalidRequest);
        }
        Ok(())
    }

    /// Field-by-field equality.
    pub fn same(&self, other: &ProcessIdentity) -> (r: bool)
        ensures
            r == (self@ == other@),
    {
        self.pid == other.pid && self.start_ticks == other.start_ticks && self.boot_id
            == other.boot_id
    }

    /// A field-by-field copy.
    pub fn duplicate(&self) -> (r: Self)
        ensures
            r@ == self@,
    {
        ProcessIdentity { pid: self.pid, start_ticks: self.start_ticks, boot_id: self.boot_id.clone() }
    }
}

pub open spec fn opt_process_view(p: Option<ProcessIdentity>) -> Option<ProcessView> {
    match p {
        Some(x) => Some(x@),
        None => None,
    }
}

pub fn same_opt_process(a: &Option<ProcessIdentity>, b: &Option<ProcessIdentity>) -> (r: bool)
    ensures
        r == (opt_process_view(*a) == opt_process_view(*b)),
{
    match (a, b) {
        (Some(x), Some(y)) => x.same(y),
        (None, None) => true,
        _ => false,
    }
}

fn same_opt_string(a: &Option<String>, b: &Option<String>) -> (r: bool)
    ensures
        r == (crate::protocol::opt_view(*a) == crate::protocol::opt_view(*b)),
{
    match (a, b) {
        (Some(x), Some(y)) => *x == *y,
        (None, None) => true,
        _ => false,
    }
}

/// The tmux pane a runtime runs in.
#[derive(Debug)]
pub struct PaneIdentity {
    pub process: ProcessIdentity,
    pub pane: String,
    pub session: String,
}

pub ghost struct PaneView {
    pub process: ProcessView,
    pub pane: Seq<char>,
    pub session: Seq<char>,
}

impl View for PaneIdentity {
    type V = PaneView;

    open spec fn view(&self) -> PaneView {
        PaneView { process: self.process@, pane: self.pane@, session: self.session@ }
    }
}

impl PaneIdentity {
    pub fn same(&self, other: &PaneIdentity) -> (r: bool)
        ensures
            r == (self@ == other@),
    {
        self.process.same(&other.process) && self.pane == other.pane && self.session == other.session
    }
}

/// The compositor window of an attached terminal.
#[derive(Debug)]
pub struct WindowIdentity {
    pub address: String,
    pub compositor: String,
    pub client: ProcessIdentity,
    pub tty: String,
}

pub ghost struct WindowView {
    pub address: Seq<char>,
    pub compositor: Seq<char>,
    pub client: ProcessView,
    pub tty: Seq<char>,
}

impl View for WindowIdentity {
    type V = WindowView;

    open spec fn view(&self) -> WindowView {
        WindowView {
            address: self.address@,
            compositor: self.compositor@,
            client: self.client@,
            tty: self.tty@,
        }
    }
}

impl WindowIdentity {
    pub fn same(&self, other: &WindowIdentity) -> (r: bool)
        ensures
            r == (self@ == other@),
    {
        self.address == other.address && self.compositor == other.compositor && self.client.same(
            &other.client,
        ) && self.tty == other.tty
    }
}

/// A requested standalone terminal for a runtime.
#[derive(Debug)]
pub struct TerminalIntent {
    pub nonce: String,
    pub process: Option<ProcessIdentity>,
    pub window: Option<WindowIdentity>,
}

pub ghost struct TerminalView {
    pub nonce: Seq<char>,
    pub process: Option<ProcessView>,
    pub window: Option<WindowView>,
}

impl View for TerminalIntent {
    type V = TerminalView;

    open spec fn view(&self) -> TerminalView {
        TerminalView {
            nonce: self.nonce@,
            process: opt_process_view(self.process),
            window: match self.window {
                Some(w) => Some(w@),
                None => None,
            },
        }
    }
}

/// The bytes of `/dev/pts/`.
pub open spec fn pts_prefix() -> Seq<u8> {
    seq![47u8, 100u8, 101u8, 118u8, 47u8, 112u8, 116u8, 115u8, 47u8]
}

/// A pseudo-terminal path: `/dev/pts/` and a decimal number.
pub open spec fn is_pts(b: Seq<u8>) -> bool {
    b.len() >= 9 && b.subrange(0, 9) == pts_prefix() && is_decimal(b.subrange(9, b.len() as int))
}

/// Checks `is_pts` on the bytes of `value`.
pub fn pts(value: &str) -> (r: bool)
    ensures
        r == is_pts(value.spec_bytes()),
{
    let b = value.as_bytes();
    if b.len() < 9 || b.len() > 19 {
        proof {
            if b@.len() > 19 {
                assert(b@.subrange(9, b@.len() as int).len() > 10);
            }
        }
        return false;
    }
    let prefix = b[0] == 47 && b[1] == 100 && b[2] == 101 && b[3] == 118 && b[4] == 47 && b[5] == 112
        && b[6] == 116 && b[7] == 115 && b[8] == 47;
    assert(prefix == (b@.subrange(0, 9) == pts_prefix())) by {
        if b@.subrange(0, 9) == pts_prefix() {
            assert(b@.subrange(0, 9)[4] == b@[4]);
        }
        if prefix {
            assert(b@.subrange(0, 9) =~= pts_prefix());
        }
    }
    if !prefix {
        return false;
    }
    let mut i: usize = 9;
    while i < b.len()
        invariant
            9 <= i <= b@.len(),
            b@.len() <= 19,
            b@ == value.spec_bytes(),
            b@.subrange(0, 9) == pts_prefix(),
            forall|k: int| 9 <= k < i ==> #[trigger] super::text_checks::is_ascii_digit(b@[k]),
        decreases b.len() - i,
    {
        if !(b[i] >= 48 && b[i] <= 57) {
            proof {
                let d = b@.subrange(9, b@.len() as int);
                assert(d[i - 9] == b@[i as int]);
                assert(!super::text_checks::is_ascii_digit(d[i - 9]));
                assert(!is_decimal(d));
            }
            return false;
        }
        i = i + 1;
    }
    let r = b.len() > 9;
    proof {
        let d = b@.subrange(9, b@.len() as int);
        assert forall|k: int| 0 <= k < d.len() implies #[trigger] super::text_checks::is_ascii_digit(
            d[k],
        ) by {
            assert(d[k] == b@[k + 9]);
        }
    }
    r
}

/// UTF-8 bytes of a text view.
pub open spec fn bytes(s: Seq<char>) -> Seq<u8> {
    encode_utf8(s)
}

/// A terminal intent is consistent: a window only with a process, each
/// recorded identity valid, the window's address, compositor and tty exact.
pub open spec fn terminal_valid(t: TerminalView) -> bool {
    &&& !(t.window is Some && t.process is None)
    &&& (t.process matches Some(p) ==> process_valid(p))
    &&& (t.window matches Some(w) ==> {
        &&& process_valid(w.client)
        &&& is_address(bytes(w.address))
        &&& is_component(bytes(w.compositor))
        &&& is_pts(bytes(w.tty))
    })
}

impl TerminalIntent {
    /// Checks `terminal_valid`.
    pub fn validate(&self) -> (r: Result<(), ManagerError>)
        ensures
            r == if terminal_valid(self@) {
                Ok::<(), ManagerError>(())
            } else {
                Err(ManagerError::InvalidRequest)
            },
    {
        if self.window.is_some() && self.process.is_none() {
            return Err(ManagerError::InvalidRequest);
        }
        if let Some(process) = &self.process {
            process.validate()?;
        }
        if let Some(window) = &self.window {
            window.client.validate()?;
            if !address(window.address.as_str()) || !component(window.compositor.as_str()) || !pts(
                window.tty.as_str(),
            ) {
                return Err(ManagerError::InvalidRequest);
            }
        }
        Ok(())
    }

    pub fn same(&self, other: &TerminalIntent) -> (r: bool)
        ensures
            r == (self@ == other@),
    {
        let windows = match (&self.window, &other.window) {
            (Some(a), Some(b)) => a.same(b),
            (None, None) => true,
            _ => false,
        };
        self.nonce == other.nonce && same_opt_process(&self.process, &other.process) && windows
    }

    /// The systemd unit of the terminal: `harbormaster-terminal-{nonce}.service`.
    pub fn unit(&self) -> (r: String)
        ensures
            r@ == "harbormaster-terminal-"@ + self.nonce@ + ".service"@,
    {
        let mut out = String::new();
        out.append("harbormaster-terminal-");
        out.append(self.nonce.as_str());
        out.append(".service");
        out
    }

    /// The compositor app id of the terminal: `harbormaster.{nonce}`.
    pub fn app_id(&self) -> (r: String)
        ensures
            r@ == "harbormaster."@ + self.nonce@,
    {
        let mut out = String::new();
        out.append("harbormaster.");
        out.append(self.nonce.as_str());
        out
    }
}

/// Persisted intent for one managed run.
#[derive(Debug)]
pub struct ControlState {
    pub id: String,
    pub launch_nonce: Option<String>,
    pub invocation: Option<String>,
    pub pane: Option<PaneIdentity>,
    pub terminal: Option<TerminalIntent>,
    pub stopped: bool,
    pub ending: bool,
}

pub ghost struct ControlView {
    pub id: Seq<char>,
    pub launch_nonce: Option<Seq<char>>,
    pub invocation: Option<Seq<char>>,
    pub pane: Option<PaneView>,
    pub terminal: Option<TerminalView>,
    pub stopped: bool,
    pub ending: bool,
}

impl View for ControlState {
    type V = ControlView;

    open spec fn view(&self) -> ControlView {
        ControlView {
            id: self.id@,
            launch_nonce: crate::protocol::opt_view(self.launch_nonce),
            invocation: crate::protocol::opt_view(self.invocation),
            pane: match self.pane {
                Some(p) => Some(p@),
                None => None,
            },
            terminal: match self.terminal {
                Some(t) => Some(t@),
                None => None,
            },
            stopped: self.stopped,
            ending: self.ending,
        }
    }
}

/// A control record is well formed: bounded, with a 32-digit hex invocation,
/// a pane only after an invocation, a terminal only after a pane, a stop
/// only while ending, and each recorded identity exact.
pub open spec fn control_valid(c: ControlView, encoded_len: nat) -> bool {
    &&& encoded_len <= MAX_CONTROL_RECORD
    &&& (c.invocation matches Some(s) ==> is_hex(bytes(s), 32))
    &&& !(c.pane is Some && c.invocation is None)
    &&& !(c.terminal is Some && c.pane is None)
    &&& !(c.stopped && !c.ending)
    &&& (c.pane matches Some(p) ==> {
        &&& process_valid(p.process)
        &&& is_target(bytes(p.pane), 37u8)
        &&& is_target(bytes(p.session), 36u8)
    })
    &&& (c.terminal matches Some(t) ==> terminal_valid(t))
}

/// A stored record cannot be replaced by one that changes the launch
/// nonce, a recorded invocation or pane, undoes a stop or an ending, or
/// drops or renames a terminal that has no process yet.
pub open spec fn transition_conflicts(old: ControlView, new: ControlView) -> bool {
    ||| old.launch_nonce != new.launch_nonce
    ||| (old.invocation is Some && old.invocation != new.invocation)
    ||| (old.pane is Some && old.pane != new.pane)
    ||| (old.stopped && !new.stopped)
    ||| (old.ending && !new.ending)
    ||| (old.terminal matches Some(t) && t.process is None && !(new.terminal matches Some(n)
        && n.nonce == t.nonce))
}

/// Law: along any sequence of accepted saves, a stop or an ending is never
/// undone, and the launch nonce, a recorded invocation and a recorded pane
/// never change.
pub proof fn lemma_control_saves_monotone(chain: Seq<ControlView>, i: int, j: int)
    requires
        0 <= i <= j < chain.len(),
        forall|k: int| 0 <= k < chain.len() - 1 ==> !transition_conflicts(#[trigger] chain[k], chain[k + 1]),
    ensures
        chain[i].stopped ==> chain[j].stopped,
        chain[i].ending ==> chain[j].ending,
        chain[j].launch_nonce == chain[i].launch_nonce,
        chain[i].invocation is Some ==> chain[j].invocation == chain[i].invocation,
        chain[i].pane is Some ==> chain[j].pane == chain[i].pane,
    decreases j - i,
{
    if i < j {
        lemma_control_saves_monotone(chain, i, j - 1);
        assert(!transition_conflicts(chain[j - 1], chain[j]));
    }
}

impl ControlState {
    /// A fresh record for run `id`, launched under `launch_nonce`.
    pub fn new(id: String, launch_nonce: Option<String>) -> (r: Self)
        ensures
            r@ == (ControlView {
                id: id@,
                launch_nonce: crate::protocol::opt_view(launch_nonce),
                invocation: None,
                pane: None,
                terminal: None,
                stopped: false,
                ending: false,
            }),
    {
        ControlState {
            id,
            launch_nonce,
            invocation: None,
            pane: None,
            terminal: None,
            stopped: false,
            ending: false,
        }
    }

    /// Checks `control_valid`, given the length of the record's encoding.
    pub fn validate(&self, encoded_len: usize) -> (r: Result<(), ManagerError>)
        ensures
            r == if control_valid(self@, encoded_len as nat) {
                Ok::<(), ManagerError>(())
            } else {
                Err(ManagerError::InvalidRequest)
            },
    {
        let bad_invocation = match &self.invocation {
            Some(s) => !hex(s.as_str(), 32),
            None => false,
        };
        if encoded_len > MAX_CONTROL_RECORD || bad_invocation {
            return Err(ManagerError::InvalidRequest);
        }
        if self.pane.is_some() && self.invocation.is_none() || self.terminal.is_some()
            && self.pane.is_none() || self.stopped && !self.ending {
            return Err(ManagerError::InvalidRequest);
        }
        if let Some(pane) = &self.pane {
            pane.process.validate()?;
            if !target(pane.pane.as_str(), 37) || !target(pane.session.as_str(), 36) {
                return Err(ManagerError::InvalidRequest);
            }
        }
        if let Some(terminal) = &self.terminal {
            terminal.validate()?;
        }
        Ok(())
    }

    /// Field-by-field equality.
    pub fn same(&self, other: &ControlState) -> (r: bool)
        ensures
            r == (self@ == other@),
    {
        let panes = match (&self.pane, &other.pane) {
            (Some(a), Some(b)) => a.same(b),
            (None, None) => true,
            _ => false,
        };
        let terminals = match (&self.terminal, &other.terminal) {
            (Some(a), Some(b)) => a.same(b),
            (None, None) => true,
            _ => false,
        };
        self.id == other.id && same_opt_string(&self.launch_nonce, &other.launch_nonce)
            && same_opt_string(&self.invocation, &other.invocation) && panes && terminals
            && self.stopped == other.stopped && self.ending == other.ending
    }

    /// Checks `transition_conflicts` from this stored record to `next`.
    pub fn conflicts_with(&self, next: &ControlState) -> (r: bool)
        ensures
            r == transition_conflicts(self@, next@),
    {
        let invocation_changed = self.invocation.is_some() && !same_opt_string(
            &self.invocation,
            &next.invocation,
        );
        let pane_changed = match (&self.pane, &next.pane) {
            (Some(a), Some(b)) => !a.same(b),
            (Some(_), None) => true,
            _ => false,
        };
        let terminal_dropped = match &self.terminal {
            Some(t) => t.process.is_none() && match &next.terminal {
                Some(n) => n.nonce != t.nonce,
                None => true,
            },
            None => false,
        };
        !same_opt_string(&self.launch_nonce, &next.launch_nonce) || invocation_changed
            || pane_changed || (self.stopped && !next.stopped) || (self.ending && !next.ending)
            || terminal_dropped
    }
}

} // verus!
