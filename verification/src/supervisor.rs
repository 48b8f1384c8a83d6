//! The supervision protocol of a run with a bus proxy, as a state machine.
//!
//! The machine decides; its caller acts. Each step takes the event that the
//! last action produced and gives the next state and the next action. The
//! caller starts processes, probes, sleeps and removes files; the machine
//! never does, so every ordering and cleanup rule of the protocol is a
//! statement about its transitions.

use crate::error::{LaunchError, Outcome};
use vstd::prelude::*;

verus! {

/// The time between two probes for the socket of the proxy, in
/// milliseconds.
pub const POLL_INTERVAL_MS: u64 = 100;

/// What a liveness check of the proxy process found.
#[derive(Clone, Copy, Debug, PartialEq, Eq, Structural)]
pub enum ProxyStatus {
    /// The process is still running.
    Running,
    /// The process has ended, with this exit code.
    Exited(i32),
    /// The state of the process could not be determined.
    Unknown,
}

/// What the caller reports back to the machine.
#[derive(Clone, Copy, Debug, PartialEq, Eq, Structural)]
pub enum Event {
    /// The run begins.
    Start,
    /// The proxy process was started.
    ProxySpawned,
    /// The proxy process could not be started.
    ProxySpawnFailed,
    /// A probe checked the proxy process and looked for its socket.
    ProxyProbed { status: ProxyStatus, socket_present: bool },
    /// The sandbox launcher was started.
    SandboxSpawned,
    /// The sandbox launcher could not be started.
    SandboxSpawnFailed,
    /// The sandboxed process ended, with this exit code.
    SandboxExited(i32),
    /// The proxy process was signalled to terminate.
    ProxyStopped,
    /// Removal of the proxy socket was attempted; `removed` tells whether
    /// it succeeded.
    SocketRemoved { removed: bool },
}

/// What the machine asks of the caller.
#[derive(Clone, Copy, Debug, PartialEq, Eq, Structural)]
pub enum Action {
    /// Start the proxy process.
    SpawnProxy,
    /// Wait for `delay_ms` milliseconds, then check whether the proxy
    /// process is alive and whether its socket exists.
    ProbeProxy { delay_ms: u64 },
    /// Start the sandbox launcher.
    SpawnSandbox,
    /// Block until the sandboxed process ends.
    AwaitSandbox,
    /// Signal the proxy process to terminate.
    StopProxy,
    /// Remove the socket of the proxy, ignoring failure.
    RemoveSocket,
    /// End the run with this outcome.
    Finish(Outcome),
}

/// The state of a run.
#[derive(Clone, Copy, Debug, PartialEq, Eq, Structural)]
pub enum Supervisor {
    /// Nothing has been started.
    Idle,
    /// The proxy was asked for; `spawned` tells whether its process runs.
    /// Its socket has not been seen.
    ProxyStarting { spawned: bool },
    /// The proxy listens; the sandbox launcher was asked for.
    ProxyReady,
    /// The sandboxed process runs.
    SandboxRunning,
    /// The run is over with this outcome and cleanup is under way;
    /// `proxy_alive` tells whether the proxy still has to be stopped.
    Teardown { outcome: Outcome, proxy_alive: bool },
    /// Cleanup is complete.
    Done { outcome: Outcome },
}

impl Event {
    /// The failure that an event reports about the start of the proxy, if it
    /// reports one: the process could not be started, could not be checked,
    /// or ended before its socket was seen.
    pub open spec fn startup_failure(self) -> Option<LaunchError> {
        match self {
            Event::ProxySpawnFailed => Some(LaunchError::ProxyLaunchFailed),
            Event::ProxyProbed { status: ProxyStatus::Exited(code), .. } => Some(
                LaunchError::ProxyExitedEarly(code),
            ),
            Event::ProxyProbed { status: ProxyStatus::Unknown, .. } => Some(
                LaunchError::ProxyLaunchFailed,
            ),
            _ => None,
        }
    }
}

impl Supervisor {
    /// The transition of the machine: the next state and the action to
    /// perform, or `None` when the event cannot occur in the state.
    pub open spec fn spec_step(self, event: Event) -> Option<(Supervisor, Action)> {
        match (self, event) {
            (Supervisor::Idle, Event::Start) => Some(
                (Supervisor::ProxyStarting { spawned: false }, Action::SpawnProxy),
            ),
            (Supervisor::ProxyStarting { spawned: false }, Event::ProxySpawned) => Some(
                (Supervisor::ProxyStarting { spawned: true }, Action::ProbeProxy { delay_ms: 0 }),
            ),
            (Supervisor::ProxyStarting { spawned: false }, Event::ProxySpawnFailed) => Some(
                (
                    Supervisor::Teardown {
                        outcome: Outcome::Failed(LaunchError::ProxyLaunchFailed),
                        proxy_alive: false,
                    },
                    Action::RemoveSocket,
                ),
            ),
            (
                Supervisor::ProxyStarting { spawned: true },
                Event::ProxyProbed { status, socket_present },
            ) => match status {
                ProxyStatus::Exited(code) => Some(
                    (
                        Supervisor::Teardown {
                            outcome: Outcome::Failed(LaunchError::ProxyExitedEarly(code)),
                            proxy_alive: false,
                        },
                        Action::RemoveSocket,
                    ),
                ),
                ProxyStatus::Unknown => Some(
                    (
                        Supervisor::Teardown {
                            outcome: Outcome::Failed(LaunchError::ProxyLaunchFailed),
                            proxy_alive: true,
                        },
                        Action::StopProxy,
                    ),
                ),
                ProxyStatus::Running => if socket_present {
                    Some((Supervisor::ProxyReady, Action::SpawnSandbox))
                } else {
                    Some(
                        (
                            Supervisor::ProxyStarting { spawned: true },
                            Action::ProbeProxy { delay_ms: POLL_INTERVAL_MS },
                        ),
                    )
                },
            },
            (Supervisor::ProxyReady, Event::SandboxSpawned) => Some(
                (Supervisor::SandboxRunning, Action::AwaitSandbox),
            ),
            (Supervisor::ProxyReady, Event::SandboxSpawnFailed) => Some(
                (
                    Supervisor::Teardown {
                        outcome: Outcome::Failed(LaunchError::LaunchFailed),
                        proxy_alive: true,
                    },
                    Action::StopProxy,
                ),
            ),
            (Supervisor::SandboxRunning, Event::SandboxExited(code)) => Some(
                (
                    Supervisor::Teardown { outcome: Outcome::SandboxExit(code), proxy_alive: true },
                    Action::StopProxy,
                ),
            ),
            (Supervisor::Teardown { outcome, proxy_alive: true }, Event::ProxyStopped) => Some(
                (Supervisor::Teardown { outcome, proxy_alive: false }, Action::RemoveSocket),
            ),
            (
                Supervisor::Teardown { outcome, proxy_alive: false },
                Event::SocketRemoved { .. },
            ) => Some((Supervisor::Done { outcome }, Action::Finish(outcome))),
            _ => None,
        }
    }

    /// The outcome of the run, once it is decided.
    pub open spec fn spec_outcome(self) -> Option<Outcome> {
        match self {
            Supervisor::Teardown { outcome, .. } => Some(outcome),
            Supervisor::Done { outcome } => Some(outcome),
            _ => None,
        }
    }

    /// The state before anything has happened.
    pub fn new() -> (state: Supervisor)
        ensures
            state == Supervisor::Idle,
    {
        Supervisor::Idle
    }

    /// Takes one step: the next state and the action to perform, or `None`
    /// when the event cannot occur in this state, in which case the state
    /// stands.
    pub fn step(self, event: Event) -> (next: Option<(Supervisor, Action)>)
        ensures
            next == self.spec_step(event),
    {
        match (self, event) {
            (Supervisor::Idle, Event::Start) => Some(
                (Supervisor::ProxyStarting { spawned: false }, Action::SpawnProxy),
            ),
            (Supervisor::ProxyStarting { spawned: false }, Event::ProxySpawned) => Some(
                (Supervisor::ProxyStarting { spawned: true }, Action::ProbeProxy { delay_ms: 0 }),
            ),
            (Supervisor::ProxyStarting { spawned: false }, Event::ProxySpawnFailed) => Some(
                (
                    Supervisor::Teardown {
                        outcome: Outcome::Failed(LaunchError::ProxyLaunchFailed),
                        proxy_alive: false,
                    },
                    Action::RemoveSocket,
                ),
            ),
            (
                Supervisor::ProxyStarting { spawned: true },
                Event::ProxyProbed { status, socket_present },
            ) => match status {
                ProxyStatus::Exited(code) => Some(
                    (
                        Supervisor::Teardown {
                            outcome: Outcome::Failed(LaunchError::ProxyExitedEarly(code)),
                            proxy_alive: false,
                        },
                        Action::RemoveSocket,
                    ),
                ),
                ProxyStatus::Unknown => Some(
                    (
                        Supervisor::Teardown {
                            outcome: Outcome::Failed(LaunchError::ProxyLaunchFailed),
                            proxy_alive: true,
                        },
                        Action::StopProxy,
                    ),
                ),
                ProxyStatus::Running => if socket_present {
                    Some((Supervisor::ProxyReady, Action::SpawnSandbox))
                } else {
                    Some(
                        (
                            Supervisor::ProxyStarting { spawned: true },
                            Action::ProbeProxy { delay_ms: POLL_INTERVAL_MS },
                        ),
                    )
                },
            },
            (Supervisor::ProxyReady, Event::SandboxSpawned) => Some(
                (Supervisor::SandboxRunning, Action::AwaitSandbox),
            ),
            (Supervisor::ProxyReady, Event::SandboxSpawnFailed) => Some(
                (
                    Supervisor::Teardown {
                        outcome: Outcome::Failed(LaunchError::LaunchFailed),
                        proxy_alive: true,
                    },
                    Action::StopProxy,
                ),
            ),
            (Supervisor::SandboxRunning, Event::SandboxExited(code)) => Some(
                (
                    Supervisor::Teardown { outcome: Outcome::SandboxExit(code), proxy_alive: true },
                    Action::StopProxy,
                ),
            ),
            (Supervisor::Teardown { outcome, proxy_alive: true }, Event::ProxyStopped) => Some(
                (Supervisor::Teardown { outcome, proxy_alive: false }, Action::RemoveSocket),
            ),
            (
                Supervisor::Teardown { outcome, proxy_alive: false },
                Event::SocketRemoved { .. },
            ) => Some((Supervisor::Done { outcome }, Action::Finish(outcome))),
            _ => None,
        }
    }

    /// The outcome of the run, once it is decided: from teardown on.
    pub fn outcome(&self) -> (outcome: Option<Outcome>)
        ensures
            outcome == self.spec_outcome(),
    {
        match self {
            Supervisor::Teardown { outcome, .. } => Some(*outcome),
            Supervisor::Done { outcome } => Some(*outcome),
            _ => None,
        }
    }

    /// Whether cleanup is complete and the run has ended.
    pub fn is_done(&self) -> (done: bool)
        ensures
            done == (*self is Done),
    {
        match self {
            Supervisor::Done { .. } => true,
            _ => false,
        }
    }
}

} // verus!
