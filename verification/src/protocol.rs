//! What holds of every run of the supervision protocol: statements about
//! all sequences of events that the machine accepts from its initial state.

use crate::error::{LaunchError, Outcome};
use crate::supervisor::{Action, Event, ProxyStatus, Supervisor, POLL_INTERVAL_MS};
use vstd::prelude::*;

verus! {

/// The state reached and the actions asked for when the machine, started
/// in `start`, is fed `events` in order; `None` when it rejects one.
pub open spec fn run(start: Supervisor, events: Seq<Event>) -> Option<(Supervisor, Seq<Action>)>
    decreases events.len(),
{
    if events.len() == 0 {
        Some((start, Seq::empty()))
    } else {
        match run(start, events.drop_last()) {
            Some((state, actions)) => match state.spec_step(events.last()) {
                Some((next, action)) => Some((next, actions.push(action))),
                None => None,
            },
            None => None,
        }
    }
}

/// Whether `events` is a run: the machine accepts it from the initial
/// state, ends in `state` and has asked for `actions`, one per event.
pub open spec fn is_run(events: Seq<Event>, state: Supervisor, actions: Seq<Action>) -> bool {
    run(Supervisor::Idle, events) == Some((state, actions))
}

/// Whether no action asks for the sandbox launcher.
pub open spec fn never_launches(actions: Seq<Action>) -> bool {
    forall|i: int| 0 <= i < actions.len() ==> actions[i] != Action::SpawnSandbox
}

/// Whether no event reports a failure of the proxy to start.
pub open spec fn proxy_started_cleanly(events: Seq<Event>) -> bool {
    forall|i: int| 0 <= i < events.len() ==> (#[trigger] events[i]).startup_failure() is None
}

/// Whether no event reports on the sandbox launcher or its process.
pub open spec fn sandbox_untouched(events: Seq<Event>) -> bool {
    forall|i: int|
        0 <= i < events.len() ==> #[trigger] events[i] != Event::SandboxSpawnFailed
            && events[i] !is SandboxExited
}

/// Whether the outcome is the one that the events call for: a failure of
/// the proxy to start gives that failure, a failure to start the launcher
/// gives `LaunchFailed`, and an exit of the sandboxed process gives its exit
/// code.
pub open spec fn outcome_follows(events: Seq<Event>, outcome: Outcome) -> bool {
    &&& forall|i: int|
        0 <= i < events.len() ==> ((#[trigger] events[i]).startup_failure() matches Some(error)
            ==> outcome == Outcome::Failed(error))
    &&& forall|i: int|
        0 <= i < events.len() ==> (#[trigger] events[i] == Event::SandboxSpawnFailed ==> outcome
            == Outcome::Failed(LaunchError::LaunchFailed))
    &&& forall|i: int|
        0 <= i < events.len() ==> (#[trigger] events[i] matches Event::SandboxExited(code)
            ==> outcome == Outcome::SandboxExit(code))
}

/// Whether the outcome is a failure other than that of the sandbox
/// launcher to start: the run ended before the launcher was asked for.
pub open spec fn ended_before_launch(outcome: Outcome) -> bool {
    outcome is Failed && outcome != Outcome::Failed(LaunchError::LaunchFailed)
}

/// Whether some event accounts for the outcome: an exit code comes from an
/// exit of the sandboxed process, and each failure from an event that
/// reports it.
pub open spec fn outcome_explained(events: Seq<Event>, outcome: Outcome) -> bool {
    match outcome {
        Outcome::SandboxExit(code) => events.contains(Event::SandboxExited(code)),
        Outcome::Failed(LaunchError::LaunchFailed) => events.contains(Event::SandboxSpawnFailed),
        Outcome::Failed(error) => exists|i: int|
            0 <= i < events.len() && (#[trigger] events[i]).startup_failure() == Some(error),
    }
}

/// Whether the sandbox launcher, if it was asked for, was asked for before
/// position `limit`.
pub open spec fn launched_before(actions: Seq<Action>, limit: int) -> bool {
    forall|i: int| 0 <= i < actions.len() && actions[i] == Action::SpawnSandbox ==> i < limit
}

/// What holds of the state and the actions after any run.
pub open spec fn consistent(events: Seq<Event>, state: Supervisor, actions: Seq<Action>) -> bool {
    let n = actions.len() as int;
    &&& actions.len() == events.len()
    &&& forall|i: int|
        0 <= i < n && actions[i] == Action::SpawnSandbox ==> events[i] == (Event::ProxyProbed {
            status: ProxyStatus::Running,
            socket_present: true,
        })
    &&& forall|i: int|
        0 <= i < n ==> (#[trigger] actions[i] matches Action::ProbeProxy { delay_ms } ==> delay_ms
            == 0 || delay_ms == POLL_INTERVAL_MS)
    &&& forall|i: int|
        0 <= i < n && #[trigger] events[i] is SandboxExited ==> actions[i] == Action::StopProxy
    &&& match state {
        Supervisor::Idle => n == 0,
        Supervisor::ProxyStarting { .. } => {
            &&& never_launches(actions)
            &&& proxy_started_cleanly(events)
            &&& sandbox_untouched(events)
        },
        Supervisor::ProxyReady => {
            &&& proxy_started_cleanly(events)
            &&& sandbox_untouched(events)
        },
        Supervisor::SandboxRunning => {
            &&& proxy_started_cleanly(events)
            &&& sandbox_untouched(events)
        },
        Supervisor::Teardown { outcome, proxy_alive } => {
            &&& n >= 1
            &&& outcome_follows(events, outcome)
            &&& outcome_explained(events, outcome)
            &&& ended_before_launch(outcome) ==> never_launches(actions)
            &&& if proxy_alive {
                actions[n - 1] == Action::StopProxy && launched_before(actions, n - 1)
            } else {
                &&& actions[n - 1] == Action::RemoveSocket
                &&& never_launches(actions) || (n >= 2 && actions[n - 2] == Action::StopProxy
                    && launched_before(actions, n - 2))
            }
        },
        Supervisor::Done { outcome } => {
            &&& n >= 2
            &&& outcome_follows(events, outcome)
            &&& outcome_explained(events, outcome)
            &&& ended_before_launch(outcome) ==> never_launches(actions)
            &&& actions[n - 1] == Action::Finish(outcome)
            &&& actions[n - 2] == Action::RemoveSocket
            &&& never_launches(actions) || (n >= 3 && actions[n - 3] == Action::StopProxy
                && launched_before(actions, n - 3))
        },
    }
}

/// Every run is consistent.
pub proof fn lemma_run_consistent(events: Seq<Event>, state: Supervisor, actions: Seq<Action>)
    requires
        is_run(events, state, actions),
    ensures
        consistent(events, state, actions),
    decreases events.len(),
{
    if events.len() > 0 {
        let earlier = events.drop_last();
        let (before, asked) = run(Supervisor::Idle, earlier)->0;
        let event = events.last();
        lemma_run_consistent(earlier, before, asked);
        let stepped = before.spec_step(event)->0;
        let action = stepped.1;
        assert(actions == asked.push(action));
        assert(events =~= earlier.push(event));
        assert forall|i: int| 0 <= i < events.len() - 1 implies #[trigger] events[i]
            == earlier[i] by {}
        assert forall|i: int| 0 <= i < actions.len() - 1 implies #[trigger] actions[i]
            == asked[i] by {}
        match state.spec_outcome() {
            Some(outcome) => {
                if before.spec_outcome() is Some {
                    assert(outcome_explained(earlier, outcome));
                    match outcome {
                        Outcome::SandboxExit(code) => {
                            let i = choose|i: int|
                                0 <= i < earlier.len() && earlier[i] == Event::SandboxExited(code);
                            assert(events[i] == Event::SandboxExited(code));
                        },
                        Outcome::Failed(LaunchError::LaunchFailed) => {
                            let i = choose|i: int|
                                0 <= i < earlier.len() && earlier[i] == Event::SandboxSpawnFailed;
                            assert(events[i] == Event::SandboxSpawnFailed);
                        },
                        Outcome::Failed(error) => {
                            let i = choose|i: int|
                                0 <= i < earlier.len() && (#[trigger] earlier[i]).startup_failure()
                                    == Some(error);
                            assert(events[i].startup_failure() == Some(error));
                        },
                    }
                } else {
                    assert(events[events.len() - 1] == event);
                }
                assert(outcome_explained(events, outcome));
            },
            None => {},
        }
    }
}

/// The place of a state in the order of the protocol: idle, proxy
/// starting, proxy ready, sandbox running, teardown, done.
pub open spec fn phase(state: Supervisor) -> nat {
    match state {
        Supervisor::Idle => 0,
        Supervisor::ProxyStarting { .. } => 1,
        Supervisor::ProxyReady => 2,
        Supervisor::SandboxRunning => 3,
        Supervisor::Teardown { .. } => 4,
        Supervisor::Done { .. } => 5,
    }
}

/// A step never goes back in the order of the protocol. It stays in a
/// phase only while the proxy is starting, where it waits for the process
/// and then for the socket, and once in teardown, between stopping the
/// proxy and removing its socket. A phase is skipped only on the way to
/// teardown.
pub proof fn lemma_phases_advance(state: Supervisor, event: Event)
    requires
        state.spec_step(event) is Some,
    ensures
        ({
            let stepped = state.spec_step(event)->0;
            let next = stepped.0;
            &&& phase(state) <= phase(next)
            &&& phase(next) == phase(state) ==> state is ProxyStarting || state
                == (Supervisor::Teardown { outcome: state->Teardown_outcome, proxy_alive: true })
            &&& phase(next) > phase(state) + 1 ==> next is Teardown
            &&& next is Teardown && state is Teardown ==> next.spec_outcome()
                == state.spec_outcome()
            &&& next is Done ==> state is Teardown && next.spec_outcome() == state.spec_outcome()
        }),
{
}

/// Which events may answer an action: what the caller can report after it
/// has done what the machine asked.
pub open spec fn answers(action: Action, event: Event) -> bool {
    match action {
        Action::SpawnProxy => event == Event::ProxySpawned || event == Event::ProxySpawnFailed,
        Action::ProbeProxy { .. } => event is ProxyProbed,
        Action::SpawnSandbox => event == Event::SandboxSpawned || event
            == Event::SandboxSpawnFailed,
        Action::AwaitSandbox => event is SandboxExited,
        Action::StopProxy => event == Event::ProxyStopped,
        Action::RemoveSocket => event is SocketRemoved,
        Action::Finish(_) => false,
    }
}

/// The machine never refuses an answer: after any step, every event that
/// may answer the action it asked for is accepted in the state it reached.
/// A run therefore goes on until the machine asks to finish.
pub proof fn lemma_answer_accepted(state: Supervisor, event: Event, answer: Event)
    requires
        state.spec_step(event) matches Some((_, action)) && answers(action, answer),
    ensures
        state.spec_step(event) matches Some((next, _)) && next.spec_step(answer) is Some,
{
}

/// The machine asks to finish exactly when it reaches its final state, and
/// in that state accepts nothing more.
pub proof fn lemma_finish_is_final(state: Supervisor, event: Event)
    ensures
        state.spec_step(event) matches Some((next, action)) ==> (action is Finish <==> next
            is Done),
        state is Done ==> state.spec_step(event) is None,
{
}

/// The sandbox launcher is asked for only in answer to a probe that found
/// the proxy running and its socket present: the proxy listens before the
/// sandboxed process starts.
pub proof fn lemma_launch_only_when_ready(
    events: Seq<Event>,
    state: Supervisor,
    actions: Seq<Action>,
    i: int,
)
    requires
        is_run(events, state, actions),
        0 <= i < actions.len(),
        actions[i] == Action::SpawnSandbox,
    ensures
        i < events.len(),
        events[i] == (Event::ProxyProbed { status: ProxyStatus::Running, socket_present: true }),
{
    lemma_run_consistent(events, state, actions);
}

/// If the proxy fails to start, the sandbox launcher is never asked for and
/// the run ends with that failure: when the proxy could not be started,
/// could not be checked, or ended before its socket appeared.
pub proof fn lemma_proxy_failure_prevents_launch(
    events: Seq<Event>,
    state: Supervisor,
    actions: Seq<Action>,
    k: int,
)
    requires
        is_run(events, state, actions),
        0 <= k < events.len(),
        events[k].startup_failure() is Some,
    ensures
        never_launches(actions),
        state.spec_outcome() == Some(Outcome::Failed(events[k].startup_failure()->0)),
        state is Done ==> actions.last() == Action::Finish(
            Outcome::Failed(events[k].startup_failure()->0),
        ),
{
    lemma_run_consistent(events, state, actions);
}

/// If the proxy process ends before its socket appears, the sandbox
/// launcher is never asked for, and the failure that the run reports carries
/// the exit code of the proxy.
pub proof fn lemma_early_exit_prevents_launch(
    events: Seq<Event>,
    state: Supervisor,
    actions: Seq<Action>,
    k: int,
    code: i32,
    socket_present: bool,
)
    requires
        is_run(events, state, actions),
        0 <= k < events.len(),
        events[k] == (Event::ProxyProbed { status: ProxyStatus::Exited(code), socket_present }),
    ensures
        never_launches(actions),
        state.spec_outcome() == Some(Outcome::Failed(LaunchError::ProxyExitedEarly(code))),
        state is Done ==> actions.last() == Action::Finish(
            Outcome::Failed(LaunchError::ProxyExitedEarly(code)),
        ),
{
    lemma_proxy_failure_prevents_launch(events, state, actions, k);
}

/// Once the sandboxed process has ended, the proxy is asked to stop at
/// once, whatever the exit code, and the outcome of the run is that exit
/// code, whatever happens during cleanup.
pub proof fn lemma_exit_code_passes_through(
    events: Seq<Event>,
    state: Supervisor,
    actions: Seq<Action>,
    k: int,
    code: i32,
)
    requires
        is_run(events, state, actions),
        0 <= k < events.len(),
        events[k] == Event::SandboxExited(code),
    ensures
        k < actions.len(),
        actions[k] == Action::StopProxy,
        state.spec_outcome() == Some(Outcome::SandboxExit(code)),
        state.spec_outcome()->0.spec_exit_code() == code,
{
    lemma_run_consistent(events, state, actions);
}

/// Every run that ends has cleaned up: the last action but one removes the
/// socket of the proxy, and if the sandbox launcher was ever asked for, the
/// proxy was asked to stop after that and just before the removal. The
/// outcome it finishes with is accounted for by an event of the run.
pub proof fn lemma_teardown_always_runs(
    events: Seq<Event>,
    outcome: Outcome,
    actions: Seq<Action>,
)
    requires
        is_run(events, Supervisor::Done { outcome }, actions),
    ensures
        actions.len() >= 2,
        actions[actions.len() - 1] == Action::Finish(outcome),
        actions[actions.len() - 2] == Action::RemoveSocket,
        !never_launches(actions) ==> actions.len() >= 3 && actions[actions.len() - 3]
            == Action::StopProxy && launched_before(actions, actions.len() - 3),
        outcome_explained(events, outcome),
{
    lemma_run_consistent(events, Supervisor::Done { outcome }, actions);
}

/// Probes follow the start of the proxy at once and each other at the
/// fixed interval.
pub proof fn lemma_probe_interval(
    events: Seq<Event>,
    state: Supervisor,
    actions: Seq<Action>,
    i: int,
)
    requires
        is_run(events, state, actions),
        0 <= i < actions.len(),
        actions[i] is ProbeProxy,
    ensures
        actions[i]->delay_ms == 0 || actions[i]->delay_ms == POLL_INTERVAL_MS,
{
    lemma_run_consistent(events, state, actions);
}

} // verus!
