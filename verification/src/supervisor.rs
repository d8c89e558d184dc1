//! The startup sequencer and teardown handler, as one event-driven state
//! machine.  The machine only decides: each step consumes one outcome event
//! and emits the commands the shell must perform next (create the data
//! directory, launch a process, sleep the settle delay, kill a process) plus
//! report lines for the log.  No failure aborts the sequence — the machine
//! always reaches the running phase, possibly with zero, one or both
//! dependents alive — and the window-destroyed event drains the registry and
//! kills whatever is still held, each role independently.

use vstd::prelude::*;

use crate::paths::{data_dir, resolve_module_path, spec_data_dir, spec_module_path};
use crate::platform::{Platform, spec_supports_database, supports_database};
use crate::process::{
    backend_launch_spec, database_launch_spec, spec_backend_launch, spec_database_launch,
    Handle, LaunchError, LaunchSpec, LaunchSpecModel, Role,
};
use crate::registry::Registry;

verus! {

/// Settle delay, in milliseconds, between the database launch attempt and
/// the backend launch: a fixed pause, not a readiness poll.
pub const SETTLE_DELAY_MS: u64 = 500;

/// Where the supervisor stands in its life.
#[derive(Clone, Copy, PartialEq, Eq, Structural, Debug)]
pub enum Phase {
    /// Nothing has happened yet.
    Boot,
    /// The shell was asked to create the data directory.
    DirPending,
    /// The shell was asked to launch the database.
    DatabasePending,
    /// The shell was asked to sleep the settle delay.
    Settling,
    /// The shell was asked to launch the backend.
    BackendPending,
    /// Startup is complete; the window is open.
    Running,
    /// The window was destroyed and the registry drained.
    Closed,
}

/// An outcome the shell feeds back into the machine.
#[derive(Clone, Copy, PartialEq, Eq, Debug)]
pub enum Event {
    /// The application is booting.
    Start,
    /// Directory creation finished; the flag says whether it succeeded.
    /// The machine ignores the flag: a failure here is logged by the shell
    /// and never stops the sequence.
    DirDone(bool),
    /// The database launch attempt finished.
    DatabaseLaunched(Result<Handle, LaunchError>),
    /// The settle delay elapsed.
    SettleElapsed,
    /// The backend launch attempt finished.
    BackendLaunched(Result<Handle, LaunchError>),
    /// The application window was destroyed.  Fired once, at close.
    WindowDestroyed,
}

/// A log line the machine asks the shell to emit.
#[derive(Clone, Copy, PartialEq, Eq, Structural, Debug)]
pub enum Report {
    LaunchSucceeded(Role, u32),
    LaunchFailed(Role, LaunchError),
    TerminationIssued(Role, u32),
}

/// Mathematical value of an [`Action`].
#[verifier::ext_equal]
pub enum ActionModel {
    CreateDataDir(Seq<char>),
    LaunchDatabase(LaunchSpecModel),
    Sleep(u64),
    LaunchBackend(LaunchSpecModel),
    Kill(u32),
    Report(Report),
}

/// A command the shell must perform on the machine's behalf.
#[derive(Debug, PartialEq, Eq)]
pub enum Action {
    /// Create this directory and every missing parent (idempotent).
    CreateDataDir(String),
    /// Spawn the database process as specified.
    LaunchDatabase(LaunchSpec),
    /// Sleep this many milliseconds.
    Sleep(u64),
    /// Spawn the backend process as specified.
    LaunchBackend(LaunchSpec),
    /// Send one termination signal to this process; fire-and-forget.
    Kill(u32),
    /// Emit this log line.
    Report(Report),
}

impl View for Action {
    type V = ActionModel;

    open spec fn view(&self) -> ActionModel {
        match self {
            Action::CreateDataDir(d) => ActionModel::CreateDataDir(d@),
            Action::LaunchDatabase(s) => ActionModel::LaunchDatabase(s@),
            Action::Sleep(ms) => ActionModel::Sleep(*ms),
            Action::LaunchBackend(s) => ActionModel::LaunchBackend(s@),
            Action::Kill(pid) => ActionModel::Kill(*pid),
            Action::Report(r) => ActionModel::Report(*r),
        }
    }
}

impl DeepView for Action {
    type V = ActionModel;

    open spec fn deep_view(&self) -> ActionModel {
        self.view()
    }
}

/// Mathematical value of a [`Supervisor`].
#[verifier::ext_equal]
pub struct SupervisorModel {
    pub platform: Platform,
    pub phase: Phase,
    pub registry: Registry,
    pub engine_module: Seq<char>,
    pub data_dir: Seq<char>,
}

/// The supervisor: platform, current phase, the lifecycle registry, and the
/// two paths resolved at construction (empty on the excluded platform,
/// where no resolution is attempted and the database phases are skipped).
#[derive(Debug)]
pub struct Supervisor {
    platform: Platform,
    phase: Phase,
    registry: Registry,
    engine_module: String,
    data_dir: String,
}

impl View for Supervisor {
    type V = SupervisorModel;

    closed spec fn view(&self) -> SupervisorModel {
        SupervisorModel {
            platform: self.platform,
            phase: self.phase,
            registry: self.registry,
            engine_module: self.engine_module@,
            data_dir: self.data_dir@,
        }
    }
}

/// The machine's initial state: phase `Boot`, empty registry, and — on
/// platforms that support the database — the two resolved paths.
pub open spec fn spec_new(platform: Platform, resource_dir: Seq<char>, local_data_root: Seq<char>) -> SupervisorModel {
    SupervisorModel {
        platform,
        phase: Phase::Boot,
        registry: Registry { database: None, backend: None },
        engine_module: if spec_supports_database(platform) {
            spec_module_path(resource_dir, platform)
        } else {
            Seq::empty()
        },
        data_dir: if spec_supports_database(platform) {
            spec_data_dir(local_data_root)
        } else {
            Seq::empty()
        },
    }
}

/// The teardown commands for one role: a termination report and a kill for
/// the held handle, or nothing when the slot is empty.
pub open spec fn spec_kills_for(slot: Option<Handle>, role: Role) -> Seq<ActionModel> {
    match slot {
        Some(h) => seq![
            ActionModel::Report(Report::TerminationIssued(role, h.pid)),
            ActionModel::Kill(h.pid),
        ],
        None => Seq::empty(),
    }
}

/// One transition of the supervisor: from state `s` under event `e` to the
/// successor state and the commands emitted.  Events that make no sense in
/// the current phase are ignored.
pub open spec fn spec_step(s: SupervisorModel, e: Event) -> (SupervisorModel, Seq<ActionModel>) {
    match (s.phase, e) {
        (Phase::Boot, Event::Start) => {
            if spec_supports_database(s.platform) {
                (
                    SupervisorModel { phase: Phase::DirPending, ..s },
                    seq![ActionModel::CreateDataDir(s.data_dir)],
                )
            } else {
                (
                    SupervisorModel { phase: Phase::Settling, ..s },
                    seq![ActionModel::Sleep(SETTLE_DELAY_MS)],
                )
            }
        },
        (Phase::DirPending, Event::DirDone(_)) => {
            (
                SupervisorModel { phase: Phase::DatabasePending, ..s },
                seq![ActionModel::LaunchDatabase(spec_database_launch(s.engine_module, s.data_dir))],
            )
        },
        (Phase::DatabasePending, Event::DatabaseLaunched(r)) => {
            match r {
                Ok(h) => (
                    SupervisorModel {
                        phase: Phase::Settling,
                        registry: Registry { database: Some(h), ..s.registry },
                        ..s
                    },
                    seq![
                        ActionModel::Report(Report::LaunchSucceeded(Role::Database, h.pid)),
                        ActionModel::Sleep(SETTLE_DELAY_MS),
                    ],
                ),
                Err(err) => (
                    SupervisorModel { phase: Phase::Settling, ..s },
                    seq![
                        ActionModel::Report(Report::LaunchFailed(Role::Database, err)),
                        ActionModel::Sleep(SETTLE_DELAY_MS),
                    ],
                ),
            }
        },
        (Phase::Settling, Event::SettleElapsed) => {
            (
                SupervisorModel { phase: Phase::BackendPending, ..s },
                seq![ActionModel::LaunchBackend(spec_backend_launch())],
            )
        },
        (Phase::BackendPending, Event::BackendLaunched(r)) => {
            match r {
                Ok(h) => (
                    SupervisorModel {
                        phase: Phase::Running,
                        registry: Registry { backend: Some(h), ..s.registry },
                        ..s
                    },
                    seq![ActionModel::Report(Report::LaunchSucceeded(Role::Backend, h.pid))],
                ),
                Err(err) => (
                    SupervisorModel { phase: Phase::Running, ..s },
                    seq![ActionModel::Report(Report::LaunchFailed(Role::Backend, err))],
                ),
            }
        },
        (_, Event::WindowDestroyed) => {
            (
                SupervisorModel {
                    phase: Phase::Closed,
                    registry: Registry { database: None, backend: None },
                    ..s
                },
                spec_kills_for(s.registry.database, Role::Database)
                    + spec_kills_for(s.registry.backend, Role::Backend),
            )
        },
        _ => (s, Seq::empty()),
    }
}

impl Supervisor {
    /// Builds the supervisor for `platform`.  On platforms that support the
    /// database the two paths are resolved here, once; on the excluded
    /// platform no resolution is attempted at all.
    pub fn new(platform: Platform, resource_dir: &str, local_data_root: &str) -> (s: Supervisor)
        ensures
            s@ == spec_new(platform, resource_dir@, local_data_root@),
    {
        let s = if supports_database(platform) {
            Supervisor {
                platform,
                phase: Phase::Boot,
                registry: Registry::new(),
                engine_module: resolve_module_path(resource_dir, platform),
                data_dir: data_dir(local_data_root),
            }
        } else {
            Supervisor {
                platform,
                phase: Phase::Boot,
                registry: Registry::new(),
                engine_module: String::new(),
                data_dir: String::new(),
            }
        };
        proof {
            assert(s@ =~= spec_new(platform, resource_dir@, local_data_root@));
        }
        s
    }

    /// The current phase.
    pub fn phase(&self) -> (p: Phase)
        ensures
            p == self@.phase,
    {
        self.phase
    }

    /// The handle currently registered for `role`, if any.
    pub fn handle(&self, role: Role) -> (h: Option<Handle>)
        ensures
            h == self@.registry.spec_slot(role),
    {
        self.registry.slot(role)
    }

    /// Whether both registry slots are empty.
    pub fn registry_is_empty(&self) -> (b: bool)
        ensures
            b == self@.registry.spec_is_empty(),
    {
        self.registry.is_empty()
    }

    /// Performs one transition: consumes `event` and returns the commands
    /// the shell must perform next, exactly as `spec_step` describes.
    pub fn step(&mut self, event: Event) -> (actions: Vec<Action>)
        ensures
            final(self)@ == spec_step(old(self)@, event).0,
            actions.deep_view() == spec_step(old(self)@, event).1,
    {
        let ghost goal = spec_step(old(self)@, event);
        let mut actions: Vec<Action> = Vec::new();
        match (self.phase, event) {
            (Phase::Boot, Event::Start) => {
                if supports_database(self.platform) {
                    self.phase = Phase::DirPending;
                    actions.push(Action::CreateDataDir(self.data_dir.clone()));
                } else {
                    self.phase = Phase::Settling;
                    actions.push(Action::Sleep(SETTLE_DELAY_MS));
                }
            },
            (Phase::DirPending, Event::DirDone(_)) => {
                self.phase = Phase::DatabasePending;
                let launch = database_launch_spec(self.engine_module.clone(), self.data_dir.clone());
                actions.push(Action::LaunchDatabase(launch));
            },
            (Phase::DatabasePending, Event::DatabaseLaunched(r)) => {
                self.phase = Phase::Settling;
                match r {
                    Ok(h) => {
                        self.registry.store(Role::Database, h);
                        actions.push(Action::Report(Report::LaunchSucceeded(Role::Database, h.pid)));
                    },
                    Err(err) => {
                        actions.push(Action::Report(Report::LaunchFailed(Role::Database, err)));
                    },
                }
                actions.push(Action::Sleep(SETTLE_DELAY_MS));
            },
            (Phase::Settling, Event::SettleElapsed) => {
                self.phase = Phase::BackendPending;
                actions.push(Action::LaunchBackend(backend_launch_spec()));
            },
            (Phase::BackendPending, Event::BackendLaunched(r)) => {
                self.phase = Phase::Running;
                match r {
                    Ok(h) => {
                        self.registry.store(Role::Backend, h);
                        actions.push(Action::Report(Report::LaunchSucceeded(Role::Backend, h.pid)));
                    },
                    Err(err) => {
                        actions.push(Action::Report(Report::LaunchFailed(Role::Backend, err)));
                    },
                }
            },
            (_, Event::WindowDestroyed) => {
                self.phase = Phase::Closed;
                if let Some(h) = self.registry.take(Role::Database) {
                    actions.push(Action::Report(Report::TerminationIssued(Role::Database, h.pid)));
                    actions.push(Action::Kill(h.pid));
                }
                if let Some(h) = self.registry.take(Role::Backend) {
                    actions.push(Action::Report(Report::TerminationIssued(Role::Backend, h.pid)));
                    actions.push(Action::Kill(h.pid));
                }
            },
            _ => {},
        }
        proof {
            assert(self@ =~= goal.0);
            assert(actions.deep_view() =~= goal.1);
        }
        actions
    }
}

} // verus!
