//! The startup state machine: one spawn attempt, optional logging
//! registration, then hand-off to the host's event loop.

use vstd::prelude::*;

verus! {

/// The build configuration the application was compiled under. Diagnostic
/// logging is registered only under `Debug`.
#[derive(Clone, Copy, Debug, PartialEq, Eq, Structural)]
pub enum BuildConfig {
    Debug,
    Release,
}

/// Why an attempt to start the backend executable failed.
#[derive(Clone, Copy, Debug, PartialEq, Eq, Structural)]
pub enum SpawnError {
    /// The executable was absent from the application bundle.
    ExecutableMissing,
    /// The executable was present but may not be executed.
    PermissionDenied,
    /// The operating system refused to create the process.
    LaunchFailed,
}

/// Why startup as a whole was aborted.
#[derive(Clone, Copy, Debug, PartialEq, Eq, Structural)]
pub enum SetupError {
    SpawnFailed(SpawnError),
    LoggingFailed,
}

/// Where the supervisor stands. `Starting` and `LoggingSetup` await a host
/// report; `Running` and `Aborted` are terminal.
#[derive(Clone, Copy, Debug, PartialEq, Eq, Structural)]
pub enum Phase {
    /// Nothing has happened yet: the backend must be spawned.
    Starting,
    /// The backend is running; a debug logging sink must be registered.
    LoggingSetup,
    /// Setup completed: the host may start its event loop.
    Running,
    /// Setup failed; the application must not launch.
    Aborted(SetupError),
}

/// What the supervisor asks the host to do next.
#[derive(Clone, Copy, Debug, PartialEq, Eq, Structural)]
pub enum Action {
    /// Start the bundled backend executable as a child process, with no
    /// arguments and the inherited environment.
    SpawnBackend,
    /// Register a logging sink at informational severity.
    RegisterLogging,
}

/// The host's report on a spawn attempt. A successful spawn hands the host a
/// process handle and an event channel; neither is reported here, so the
/// supervisor never holds them.
#[derive(Clone, Copy, Debug, PartialEq, Eq, Structural)]
pub enum SpawnOutcome {
    Spawned,
    Failed(SpawnError),
}

/// The host's report on registering the logging sink.
#[derive(Clone, Copy, Debug, PartialEq, Eq, Structural)]
pub enum LoggingOutcome {
    Registered,
    Failed,
}

/// The supervisor's whole state. It records the configuration, the phase,
/// how many child processes have been created on its behalf, and whether a
/// logging sink is active — and nothing else: in particular no process
/// handle and no channel, so once setup completes nothing here can observe
/// or stop the backend.
#[derive(Clone, Copy, Debug, PartialEq, Eq, Structural)]
pub struct Supervisor {
    pub config: BuildConfig,
    pub phase: Phase,
    pub children_spawned: u64,
    pub logging_active: bool,
}

impl Supervisor {
    /// The state a supervisor is born in: nothing spawned, nothing logged.
    pub open spec fn initial(config: BuildConfig) -> Supervisor {
        Supervisor {
            config,
            phase: Phase::Starting,
            children_spawned: 0,
            logging_active: false,
        }
    }

    /// Well-formedness: what is true of every state reachable from
    /// `initial`. At most one child is ever created; the logging sink is
    /// active only in debug builds; and each phase pins down the counters.
    pub open spec fn wf(self) -> bool {
        &&& self.children_spawned <= 1
        &&& (self.logging_active ==> self.config is Debug)
        &&& match self.phase {
            Phase::Starting => self.children_spawned == 0 && !self.logging_active,
            Phase::LoggingSetup => self.config is Debug && self.children_spawned == 1
                && !self.logging_active,
            Phase::Running => self.children_spawned == 1
                && (self.logging_active <==> self.config is Debug),
            Phase::Aborted(SetupError::SpawnFailed(_)) => self.children_spawned == 0
                && !self.logging_active,
            Phase::Aborted(SetupError::LoggingFailed) => self.config is Debug
                && self.children_spawned == 1 && !self.logging_active,
        }
    }

    /// A terminal supervisor asks for nothing more.
    pub open spec fn is_terminal(self) -> bool {
        self.phase is Running || self.phase is Aborted
    }

    /// The action owed by the host in the current phase, if any.
    pub open spec fn spec_pending(self) -> Option<Action> {
        match self.phase {
            Phase::Starting => Some(Action::SpawnBackend),
            Phase::LoggingSetup => Some(Action::RegisterLogging),
            Phase::Running => None,
            Phase::Aborted(_) => None,
        }
    }

    /// The state after the host reports on a spawn attempt. Success creates
    /// exactly one child and moves on to logging setup (debug) or straight
    /// to running (release); any failure aborts startup. Reports in other
    /// phases change nothing.
    pub open spec fn after_spawn(self, outcome: SpawnOutcome) -> Supervisor {
        if self.phase is Starting {
            match outcome {
                SpawnOutcome::Spawned => Supervisor {
                    config: self.config,
                    phase: if self.config is Debug {
                        Phase::LoggingSetup
                    } else {
                        Phase::Running
                    },
                    children_spawned: (self.children_spawned + 1) as u64,
                    logging_active: self.logging_active,
                },
                SpawnOutcome::Failed(e) => Supervisor {
                    config: self.config,
                    phase: Phase::Aborted(SetupError::SpawnFailed(e)),
                    children_spawned: self.children_spawned,
                    logging_active: self.logging_active,
                },
            }
        } else {
            self
        }
    }

    /// The state after the host reports on logging registration. Success
    /// completes setup with an active sink; failure aborts startup. Reports
    /// in other phases change nothing.
    pub open spec fn after_logging(self, outcome: LoggingOutcome) -> Supervisor {
        if self.phase is LoggingSetup {
            match outcome {
                LoggingOutcome::Registered => Supervisor {
                    config: self.config,
                    phase: Phase::Running,
                    children_spawned: self.children_spawned,
                    logging_active: true,
                },
                LoggingOutcome::Failed => Supervisor {
                    config: self.config,
                    phase: Phase::Aborted(SetupError::LoggingFailed),
                    children_spawned: self.children_spawned,
                    logging_active: false,
                },
            }
        } else {
            self
        }
    }

    /// A fresh supervisor for one application startup.
    pub fn new(config: BuildConfig) -> (s: Supervisor)
        ensures
            s == Supervisor::initial(config),
            s.wf(),
    {
        Supervisor {
            config,
            phase: Phase::Starting,
            children_spawned: 0,
            logging_active: false,
        }
    }

    /// What the host must do next: `None` once the supervisor is terminal.
    pub fn pending_action(&self) -> (a: Option<Action>)
        ensures
            a == self.spec_pending(),
            a is None <==> self.is_terminal(),
    {
        match self.phase {
            Phase::Starting => Some(Action::SpawnBackend),
            Phase::LoggingSetup => Some(Action::RegisterLogging),
            Phase::Running => None,
            Phase::Aborted(_) => None,
        }
    }

    /// Record the host's report on the spawn attempt it was asked to make.
    pub fn on_spawn_outcome(&mut self, outcome: SpawnOutcome)
        requires
            old(self).wf(),
            old(self).phase is Starting,
        ensures
            *final(self) == old(self).after_spawn(outcome),
            final(self).wf(),
            outcome is Spawned ==> final(self).children_spawned == 1,
            outcome matches SpawnOutcome::Failed(e) ==> final(self).phase
                == Phase::Aborted(SetupError::SpawnFailed(e)),
    {
        match outcome {
            SpawnOutcome::Spawned => {
                self.children_spawned = self.children_spawned + 1;
                self.phase = match self.config {
                    BuildConfig::Debug => Phase::LoggingSetup,
                    BuildConfig::Release => Phase::Running,
                };
            },
            SpawnOutcome::Failed(e) => {
                self.phase = Phase::Aborted(SetupError::SpawnFailed(e));
            },
        }
    }

    /// Record the host's report on the logging registration it was asked to
    /// make.
    pub fn on_logging_outcome(&mut self, outcome: LoggingOutcome)
        requires
            old(self).wf(),
            old(self).phase is LoggingSetup,
        ensures
            *final(self) == old(self).after_logging(outcome),
            final(self).wf(),
            outcome is Registered ==> final(self).phase is Running
                && final(self).logging_active,
            outcome is Failed ==> final(self).phase
                == Phase::Aborted(SetupError::LoggingFailed),
    {
        match outcome {
            LoggingOutcome::Registered => {
                self.logging_active = true;
                self.phase = Phase::Running;
            },
            LoggingOutcome::Failed => {
                self.phase = Phase::Aborted(SetupError::LoggingFailed);
            },
        }
    }

    /// Whether this value satisfies `wf`, decidable by an unverified host
    /// before it hands the value back to a method with a `wf` precondition.
    pub fn check_well_formed(&self) -> (r: bool)
        ensures
            r == self.wf(),
    {
        let debug = matches!(self.config, BuildConfig::Debug);
        let phase_ok = match self.phase {
            Phase::Starting => self.children_spawned == 0 && !self.logging_active,
            Phase::LoggingSetup => debug && self.children_spawned == 1
                && !self.logging_active,
            Phase::Running => self.children_spawned == 1 && self.logging_active == debug,
            Phase::Aborted(SetupError::SpawnFailed(_)) => self.children_spawned == 0
                && !self.logging_active,
            Phase::Aborted(SetupError::LoggingFailed) => debug
                && self.children_spawned == 1 && !self.logging_active,
        };
        self.children_spawned <= 1 && (!self.logging_active || debug) && phase_ok
    }
}

impl SpawnError {
    /// The text `describe` returns for each variant, for use in contracts.
    pub open spec fn describe_text(self) -> Seq<char> {
        match self {
            SpawnError::ExecutableMissing => "backend executable is missing from the application bundle"@,
            SpawnError::PermissionDenied => "backend executable may not be executed"@,
            SpawnError::LaunchFailed => "operating system failed to start the backend process"@,
        }
    }

    /// A short diagnostic line for the user-visible abort report.
    pub fn describe(&self) -> (r: &'static str)
        ensures
            r@ == self.describe_text(),
    {
        match self {
            SpawnError::ExecutableMissing => "backend executable is missing from the application bundle",
            SpawnError::PermissionDenied => "backend executable may not be executed",
            SpawnError::LaunchFailed => "operating system failed to start the backend process",
        }
    }
}

impl SetupError {
    /// The text `describe` returns for each variant, for use in contracts.
    pub open spec fn describe_text(self) -> Seq<char> {
        match self {
            SetupError::SpawnFailed(e) => e.describe_text(),
            SetupError::LoggingFailed => "failed to register the debug logging sink"@,
        }
    }

    /// A short diagnostic line for the user-visible abort report.
    pub fn describe(&self) -> (r: &'static str)
        ensures
            r@ == self.describe_text(),
    {
        match self {
            SetupError::SpawnFailed(e) => e.describe(),
            SetupError::LoggingFailed => "failed to register the debug logging sink",
        }
    }
}

/// Law: when setup has completed, the logging sink is active exactly in
/// debug builds — in a release build its absence is no error.
pub proof fn lemma_conditional_logging(s: Supervisor)
    requires
        s.wf(),
        s.phase is Running,
    ensures
        s.logging_active <==> s.config is Debug,
{
}

/// Law: once setup has completed, the supervisor's whole state is determined
/// by its build configuration — it is the configuration, the running phase,
/// the count of one created child, and the logging flag, and nothing more.
/// No process handle, channel, or other capability over the backend
/// survives setup.
pub proof fn lemma_no_post_spawn_supervision(s: Supervisor)
    requires
        s.wf(),
        s.phase is Running,
    ensures
        s == (Supervisor {
            config: s.config,
            phase: Phase::Running,
            children_spawned: 1,
            logging_active: s.config is Debug,
        }),
{
}

/// Law: logging registration happens only after a successful spawn — a
/// supervisor that asks the host to register logging has already had exactly
/// one child created, and is a debug build.
pub proof fn lemma_logging_after_spawn(s: Supervisor)
    requires
        s.wf(),
        s.spec_pending() == Some(Action::RegisterLogging),
    ensures
        s.children_spawned == 1,
        s.config is Debug,
{
}

} // verus!
