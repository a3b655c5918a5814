//! The connection lifecycle as a small state machine: the bootstrap runs
//! linearly through configuration, TLS construction and connect, and only a
//! successfully connected client may hand its driver to the background task.
//! The driver task is fire-and-forget: the spawner never joins it.

use vstd::prelude::*;

verus! {

/// Where the bootstrap sequence stands.
#[derive(Debug, Clone, Copy, PartialEq, Eq, Structural)]
pub enum Phase {
    /// Nothing has happened yet.
    Start,
    /// The configuration was loaded (or defaulted).
    ConfigReady,
    /// The TLS context and connector were built.
    TlsReady,
    /// The client handle was obtained; the driver is not yet running.
    Connected,
    /// The connection driver was handed to the background task.
    DriverRunning,
    /// A fatal step failed, or a step was taken out of order.
    Failed,
}

/// What the bootstrap observed at one step.
#[derive(Debug, Clone, Copy, PartialEq, Eq, Structural)]
pub enum Event {
    ConfigLoaded,
    ConfigLoadFailed,
    TlsBuilt,
    TlsBuildFailed,
    ConnectSucceeded,
    ConnectFailed,
    DriverSpawned,
}

/// The transition relation of the bootstrap: strictly linear, each phase
/// accepting exactly the success and failure of its own step. Any event out
/// of order is a failure; in particular, spawning the driver is accepted
/// only from `Connected`.
pub open spec fn spec_next(phase: Phase, event: Event) -> Phase {
    match (phase, event) {
        (Phase::Start, Event::ConfigLoaded) => Phase::ConfigReady,
        (Phase::ConfigReady, Event::TlsBuilt) => Phase::TlsReady,
        (Phase::TlsReady, Event::ConnectSucceeded) => Phase::Connected,
        (Phase::Connected, Event::DriverSpawned) => Phase::DriverRunning,
        _ => Phase::Failed,
    }
}

/// Advances the bootstrap by one observed event.
pub fn step(phase: Phase, event: Event) -> (r: Phase)
    ensures
        r == spec_next(phase, event),
{
    match (phase, event) {
        (Phase::Start, Event::ConfigLoaded) => Phase::ConfigReady,
        (Phase::ConfigReady, Event::TlsBuilt) => Phase::TlsReady,
        (Phase::TlsReady, Event::ConnectSucceeded) => Phase::Connected,
        (Phase::Connected, Event::DriverSpawned) => Phase::DriverRunning,
        _ => Phase::Failed,
    }
}

/// Whether the driver task may be submitted now: only once a client handle
/// has been obtained and the driver has not been handed off yet.
pub fn spawn_permitted(phase: Phase) -> (r: bool)
    ensures
        r == (phase is Connected),
{
    match phase {
        Phase::Connected => true,
        _ => false,
    }
}

/// The phase reached from `Start` after a sequence of observed events.
pub open spec fn spec_run(events: Seq<Event>) -> Phase
    decreases events.len(),
{
    if events.len() == 0 {
        Phase::Start
    } else {
        spec_next(spec_run(events.drop_last()), events.last())
    }
}

/// The driver may be spawned only from `Connected`, and only by the
/// spawn event itself: no transition from any other phase, or on any other
/// event, reaches `DriverRunning`.
pub proof fn lemma_spawn_only_when_connected(phase: Phase, event: Event)
    ensures
        spec_next(phase, event) is DriverRunning ==> phase is Connected && event
            is DriverSpawned,
{
}

/// A run stands in `Connected` only immediately after a successful connect.
pub proof fn lemma_connected_ends_with_connect(events: Seq<Event>)
    ensures
        spec_run(events) is Connected ==> events.len() > 0 && events.last()
            is ConnectSucceeded,
{
}

/// Connect-before-spawn ordering: in any run from `Start`, the driver task
/// is never submitted until a client handle has been obtained — whenever a
/// run stands in `DriverRunning`, a successful connect occurred strictly
/// before the spawn event, and the spawn event is the run's last.
pub proof fn lemma_connect_before_spawn(events: Seq<Event>)
    ensures
        spec_run(events) is DriverRunning ==> {
            &&& events.len() >= 2
            &&& events.last() is DriverSpawned
            &&& events[events.len() - 2] is ConnectSucceeded
        },
    decreases events.len(),
{
    if spec_run(events) is DriverRunning {
        lemma_spawn_only_when_connected(spec_run(events.drop_last()), events.last());
        lemma_connected_ends_with_connect(events.drop_last());
        assert(events.drop_last().last() == events[events.len() - 2]);
    }
}

} // verus!
