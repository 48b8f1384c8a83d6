use sandbox_launcher::error::{LaunchError, Outcome, FAILURE_EXIT_CODE};
use sandbox_launcher::supervisor::{Action, Event, ProxyStatus, Supervisor, POLL_INTERVAL_MS};

fn drive(events: &[Event]) -> Option<(Supervisor, Vec<Action>)> {
    let mut state = Supervisor::new();
    let mut actions = Vec::new();
    for event in events {
        let (next, action) = state.step(*event)?;
        state = next;
        actions.push(action);
    }
    Some((state, actions))
}

fn probe(status: ProxyStatus, socket_present: bool) -> Event {
    Event::ProxyProbed { status, socket_present }
}

#[test]
fn a_run_starts_idle() {
    assert_eq!(Supervisor::new(), Supervisor::Idle);
    assert_eq!(Supervisor::new().outcome(), None);
    assert!(!Supervisor::new().is_done());
}

#[test]
fn full_run_with_a_ready_proxy() {
    let (state, actions) = drive(&[
        Event::Start,
        Event::ProxySpawned,
        probe(ProxyStatus::Running, false),
        probe(ProxyStatus::Running, false),
        probe(ProxyStatus::Running, true),
        Event::SandboxSpawned,
        Event::SandboxExited(0),
        Event::ProxyStopped,
        Event::SocketRemoved { removed: true },
    ])
    .unwrap();
    assert_eq!(state, Supervisor::Done { outcome: Outcome::SandboxExit(0) });
    assert_eq!(
        actions,
        vec![
            Action::SpawnProxy,
            Action::ProbeProxy { delay_ms: 0 },
            Action::ProbeProxy { delay_ms: 100 },
            Action::ProbeProxy { delay_ms: 100 },
            Action::SpawnSandbox,
            Action::AwaitSandbox,
            Action::StopProxy,
            Action::RemoveSocket,
            Action::Finish(Outcome::SandboxExit(0)),
        ]
    );
    assert!(state.is_done());
    assert_eq!(state.outcome(), Some(Outcome::SandboxExit(0)));
}

#[test]
fn states_follow_the_protocol_in_order() {
    let mut state = Supervisor::new();
    let expected = [
        (Event::Start, Supervisor::ProxyStarting { spawned: false }),
        (Event::ProxySpawned, Supervisor::ProxyStarting { spawned: true }),
        (probe(ProxyStatus::Running, true), Supervisor::ProxyReady),
        (Event::SandboxSpawned, Supervisor::SandboxRunning),
        (
            Event::SandboxExited(9),
            Supervisor::Teardown { outcome: Outcome::SandboxExit(9), proxy_alive: true },
        ),
        (
            Event::ProxyStopped,
            Supervisor::Teardown { outcome: Outcome::SandboxExit(9), proxy_alive: false },
        ),
        (
            Event::SocketRemoved { removed: true },
            Supervisor::Done { outcome: Outcome::SandboxExit(9) },
        ),
    ];
    for (event, want) in expected {
        state = state.step(event).unwrap().0;
        assert_eq!(state, want);
    }
}

#[test]
fn polling_interval_is_a_tenth_of_a_second() {
    assert_eq!(POLL_INTERVAL_MS, 100);
    let state = Supervisor::ProxyStarting { spawned: true };
    assert_eq!(
        state.step(probe(ProxyStatus::Running, false)),
        Some((state, Action::ProbeProxy { delay_ms: 100 }))
    );
}

#[test]
fn proxy_exit_before_socket_never_launches_the_sandbox() {
    let (state, actions) = drive(&[
        Event::Start,
        Event::ProxySpawned,
        probe(ProxyStatus::Running, false),
        probe(ProxyStatus::Exited(42), false),
        Event::SocketRemoved { removed: false },
    ])
    .unwrap();
    assert_eq!(
        state,
        Supervisor::Done { outcome: Outcome::Failed(LaunchError::ProxyExitedEarly(42)) }
    );
    assert!(!actions.contains(&Action::SpawnSandbox));
    assert!(!actions.contains(&Action::AwaitSandbox));
    assert_eq!(
        actions,
        vec![
            Action::SpawnProxy,
            Action::ProbeProxy { delay_ms: 0 },
            Action::ProbeProxy { delay_ms: 100 },
            Action::RemoveSocket,
            Action::Finish(Outcome::Failed(LaunchError::ProxyExitedEarly(42))),
        ]
    );
}

#[test]
fn liveness_is_checked_before_the_socket() {
    let state = Supervisor::ProxyStarting { spawned: true };
    let (next, action) = state.step(probe(ProxyStatus::Exited(-1), true)).unwrap();
    assert_eq!(
        next,
        Supervisor::Teardown {
            outcome: Outcome::Failed(LaunchError::ProxyExitedEarly(-1)),
            proxy_alive: false
        }
    );
    assert_eq!(action, Action::RemoveSocket);
}

#[test]
fn proxy_that_cannot_start_fails_the_run() {
    let (state, actions) =
        drive(&[Event::Start, Event::ProxySpawnFailed, Event::SocketRemoved { removed: false }])
            .unwrap();
    assert_eq!(state, Supervisor::Done { outcome: Outcome::Failed(LaunchError::ProxyLaunchFailed) });
    assert_eq!(
        actions,
        vec![
            Action::SpawnProxy,
            Action::RemoveSocket,
            Action::Finish(Outcome::Failed(LaunchError::ProxyLaunchFailed)),
        ]
    );
}

#[test]
fn proxy_that_cannot_be_checked_is_stopped_and_fails_the_run() {
    let (state, actions) = drive(&[
        Event::Start,
        Event::ProxySpawned,
        probe(ProxyStatus::Unknown, true),
        Event::ProxyStopped,
        Event::SocketRemoved { removed: true },
    ])
    .unwrap();
    assert_eq!(state, Supervisor::Done { outcome: Outcome::Failed(LaunchError::ProxyLaunchFailed) });
    assert_eq!(
        actions,
        vec![
            Action::SpawnProxy,
            Action::ProbeProxy { delay_ms: 0 },
            Action::StopProxy,
            Action::RemoveSocket,
            Action::Finish(Outcome::Failed(LaunchError::ProxyLaunchFailed)),
        ]
    );
}

#[test]
fn launcher_that_cannot_start_still_tears_the_proxy_down() {
    let (state, actions) = drive(&[
        Event::Start,
        Event::ProxySpawned,
        probe(ProxyStatus::Running, true),
        Event::SandboxSpawnFailed,
        Event::ProxyStopped,
        Event::SocketRemoved { removed: true },
    ])
    .unwrap();
    assert_eq!(state, Supervisor::Done { outcome: Outcome::Failed(LaunchError::LaunchFailed) });
    assert_eq!(
        &actions[3..],
        &[
            Action::StopProxy,
            Action::RemoveSocket,
            Action::Finish(Outcome::Failed(LaunchError::LaunchFailed))
        ]
    );
}

#[test]
fn teardown_runs_whatever_the_exit_code() {
    for code in [0, 1, 77, 255, -1, i32::MAX, i32::MIN] {
        for removed in [true, false] {
            let (state, actions) = drive(&[
                Event::Start,
                Event::ProxySpawned,
                probe(ProxyStatus::Running, true),
                Event::SandboxSpawned,
                Event::SandboxExited(code),
                Event::ProxyStopped,
                Event::SocketRemoved { removed },
            ])
            .unwrap();
            assert_eq!(state, Supervisor::Done { outcome: Outcome::SandboxExit(code) });
            assert_eq!(
                &actions[4..],
                &[Action::StopProxy, Action::RemoveSocket, Action::Finish(Outcome::SandboxExit(code))]
            );
            assert_eq!(state.outcome().unwrap().exit_code(), code);
        }
    }
}

#[test]
fn events_out_of_turn_are_rejected() {
    assert_eq!(Supervisor::Idle.step(Event::ProxySpawned), None);
    assert_eq!(Supervisor::Idle.step(Event::SandboxExited(0)), None);
    assert_eq!(
        Supervisor::ProxyStarting { spawned: false }.step(probe(ProxyStatus::Running, true)),
        None
    );
    assert_eq!(Supervisor::ProxyStarting { spawned: true }.step(Event::ProxySpawned), None);
    assert_eq!(Supervisor::ProxyStarting { spawned: true }.step(Event::SandboxSpawned), None);
    assert_eq!(Supervisor::ProxyReady.step(Event::SandboxExited(0)), None);
    assert_eq!(Supervisor::ProxyReady.step(Event::Start), None);
    assert_eq!(Supervisor::SandboxRunning.step(Event::SandboxSpawned), None);
    assert_eq!(Supervisor::SandboxRunning.step(Event::ProxyStopped), None);
    let tearing = Supervisor::Teardown { outcome: Outcome::SandboxExit(0), proxy_alive: true };
    assert_eq!(tearing.step(Event::SocketRemoved { removed: true }), None);
    let removing = Supervisor::Teardown { outcome: Outcome::SandboxExit(0), proxy_alive: false };
    assert_eq!(removing.step(Event::ProxyStopped), None);
    let done = Supervisor::Done { outcome: Outcome::SandboxExit(0) };
    for event in [
        Event::Start,
        Event::ProxySpawned,
        Event::ProxySpawnFailed,
        probe(ProxyStatus::Running, true),
        Event::SandboxSpawned,
        Event::SandboxSpawnFailed,
        Event::SandboxExited(0),
        Event::ProxyStopped,
        Event::SocketRemoved { removed: true },
    ] {
        assert_eq!(done.step(event), None);
    }
    assert!(drive(&[Event::Start, Event::Start]).is_none());
}

#[test]
fn outcome_is_known_from_teardown_on() {
    assert_eq!(Supervisor::ProxyStarting { spawned: true }.outcome(), None);
    assert_eq!(Supervisor::ProxyReady.outcome(), None);
    assert_eq!(Supervisor::SandboxRunning.outcome(), None);
    let outcome = Outcome::Failed(LaunchError::LaunchFailed);
    assert_eq!(Supervisor::Teardown { outcome, proxy_alive: true }.outcome(), Some(outcome));
    assert_eq!(Supervisor::Done { outcome }.outcome(), Some(outcome));
    assert!(Supervisor::Done { outcome }.is_done());
    assert!(!Supervisor::Teardown { outcome, proxy_alive: false }.is_done());
}

#[test]
fn exit_codes() {
    assert_eq!(FAILURE_EXIT_CODE, 1);
    assert_eq!(Outcome::SandboxExit(0).exit_code(), 0);
    assert_eq!(Outcome::SandboxExit(3).exit_code(), 3);
    assert_eq!(Outcome::SandboxExit(-7).exit_code(), -7);
    for error in [
        LaunchError::ConfigParseError,
        LaunchError::MissingEnvironment(sandbox_launcher::ambient::AmbientVar::RuntimeDir),
        LaunchError::ProxyLaunchFailed,
        LaunchError::ProxyExitedEarly(0),
        LaunchError::LaunchFailed,
    ] {
        assert_eq!(Outcome::Failed(error).exit_code(), 1);
    }
}
