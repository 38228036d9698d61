//! The lifecycle controller: when to spawn the sidecar, how long to wait for
//! it, when to give up, and what to stop on shutdown.
use vstd::prelude::*;

verus! {

/// How long a spawned sidecar has to start accepting connections.
pub const SERVER_TIMEOUT_MS: u64 = 10000;

/// The pause between two readiness probes.
pub const POLL_INTERVAL_MS: u64 = 50;

/// The pause after the first successful probe, before the interface starts.
pub const WARM_UP_MS: u64 = 50;

/// Why a run failed.
#[derive(Clone, Copy, PartialEq, Eq, Structural, Debug)]
pub enum Failure {
    /// The sidecar could not be started.
    SpawnFailed,
    /// The sidecar started but never answered within the time budget.
    ReadinessTimeout,
    /// The interface could not be created.
    InterfaceFailed,
}

#[derive(Clone, Copy, PartialEq, Eq, Structural, Debug)]
pub enum LifecycleState {
    Probing,
    Spawning,
    AwaitingReady,
    Ready,
    Failed(Failure),
    ShuttingDown,
    Terminated,
}

/// What the host is to do next on behalf of the controller.
#[derive(Clone, Copy, PartialEq, Eq, Structural, Debug)]
pub enum Action {
    /// Start the sidecar, then report with `on_spawn_result`.
    Spawn,
    /// Report the time elapsed since the spawn to `poll`.
    Poll,
    /// Probe the endpoint once, then report with `on_ready_probe`.
    Probe,
    /// Sleep this many milliseconds, then `Poll`.
    Sleep(u64),
    /// Sleep this many milliseconds, then present the interface.
    WarmUp(u64),
    /// Present the interface, then report with `on_interface_result`.
    Present,
    /// Exit the application with this status.
    Exit(i32),
    /// Terminate the tracked sidecar, then call `finish_shutdown`.
    Terminate,
    /// Nothing is left to do.
    Done,
}

/// The controller's state and whether it started a sidecar that it tracks.
#[derive(Clone, Copy, PartialEq, Eq, Structural, Debug)]
pub struct Model {
    pub state: LifecycleState,
    pub spawned: bool,
}

pub open spec fn initial_model() -> Model {
    Model { state: LifecycleState::Probing, spawned: false }
}

/// The first probe: a sidecar that already answers is reused, else one is spawned.
pub open spec fn initial_probe_step(m: Model, reachable: bool) -> (Model, Action) {
    if reachable {
        (Model { state: LifecycleState::Ready, ..m }, Action::Present)
    } else {
        (Model { state: LifecycleState::Spawning, ..m }, Action::Spawn)
    }
}

pub open spec fn spawn_step(m: Model, ok: bool) -> (Model, Action) {
    if ok {
        (Model { state: LifecycleState::AwaitingReady, spawned: true }, Action::Poll)
    } else {
        (Model { state: LifecycleState::Failed(Failure::SpawnFailed), ..m }, Action::Exit(1))
    }
}

/// Whether a poll this many milliseconds after the spawn gives up.
pub open spec fn deadline_passed(elapsed_ms: u64) -> bool {
    elapsed_ms > SERVER_TIMEOUT_MS
}

pub open spec fn poll_step(m: Model, elapsed_ms: u64) -> (Model, Action) {
    if deadline_passed(elapsed_ms) {
        (Model { state: LifecycleState::Failed(Failure::ReadinessTimeout), ..m }, Action::Exit(1))
    } else {
        (m, Action::Probe)
    }
}

pub open spec fn ready_probe_step(m: Model, reachable: bool) -> (Model, Action) {
    if reachable {
        (Model { state: LifecycleState::Ready, ..m }, Action::WarmUp(WARM_UP_MS))
    } else {
        (m, Action::Sleep(POLL_INTERVAL_MS))
    }
}

pub open spec fn interface_step(m: Model, ok: bool) -> (Model, Action) {
    if ok {
        (m, Action::Done)
    } else {
        (Model { state: LifecycleState::Failed(Failure::InterfaceFailed), ..m }, Action::Exit(1))
    }
}

pub open spec fn shutdown_step(m: Model) -> (Model, Action) {
    (
        Model { state: LifecycleState::ShuttingDown, ..m },
        if m.spawned {
            Action::Terminate
        } else {
            Action::Done
        },
    )
}

pub open spec fn finish_step(m: Model) -> Model {
    Model { state: LifecycleState::Terminated, spawned: false }
}

/// Drives one run of the sidecar from the first probe to its termination.
pub struct Controller {
    model: Model,
}

impl View for Controller {
    type V = Model;

    closed spec fn view(&self) -> Model {
        self.model
    }
}

impl Controller {
    pub fn new() -> (r: Controller)
        ensures
            r@ == initial_model(),
    {
        Controller { model: Model { state: LifecycleState::Probing, spawned: false } }
    }

    pub fn state(&self) -> (r: LifecycleState)
        ensures
            r == self@.state,
    {
        self.model.state
    }

    /// Whether the controller started a sidecar that it still tracks.
    pub fn has_handle(&self) -> (r: bool)
        ensures
            r == self@.spawned,
    {
        self.model.spawned
    }

    /// Takes the result of the probe made before anything is spawned.
    pub fn on_initial_probe(&mut self, reachable: bool) -> (r: Action)
        requires
            old(self)@.state == LifecycleState::Probing,
        ensures
            (final(self)@, r) == initial_probe_step(old(self)@, reachable),
    {
        if reachable {
            self.model.state = LifecycleState::Ready;
            Action::Present
        } else {
            self.model.state = LifecycleState::Spawning;
            Action::Spawn
        }
    }

    /// Takes whether the sidecar could be started.
    pub fn on_spawn_result(&mut self, ok: bool) -> (r: Action)
        requires
            old(self)@.state == LifecycleState::Spawning,
        ensures
            (final(self)@, r) == spawn_step(old(self)@, ok),
    {
        if ok {
            self.model = Model { state: LifecycleState::AwaitingReady, spawned: true };
            Action::Poll
        } else {
            self.model.state = LifecycleState::Failed(Failure::SpawnFailed);
            Action::Exit(1)
        }
    }

    /// Takes the time elapsed since the spawn: gives up once it exceeds the
    /// budget, else asks for a probe.
    pub fn poll(&mut self, elapsed_ms: u64) -> (r: Action)
        requires
            old(self)@.state == LifecycleState::AwaitingReady,
        ensures
            (final(self)@, r) == poll_step(old(self)@, elapsed_ms),
    {
        if elapsed_ms > SERVER_TIMEOUT_MS {
            self.model.state = LifecycleState::Failed(Failure::ReadinessTimeout);
            Action::Exit(1)
        } else {
            Action::Probe
        }
    }

    /// Takes the result of a probe made while waiting for the sidecar.
    pub fn on_ready_probe(&mut self, reachable: bool) -> (r: Action)
        requires
            old(self)@.state == LifecycleState::AwaitingReady,
        ensures
            (final(self)@, r) == ready_probe_step(old(self)@, reachable),
    {
        if reachable {
            self.model.state = LifecycleState::Ready;
            Action::WarmUp(WARM_UP_MS)
        } else {
            Action::Sleep(POLL_INTERVAL_MS)
        }
    }

    /// Takes whether the interface could be created.
    pub fn on_interface_result(&mut self, ok: bool) -> (r: Action)
        requires
            old(self)@.state == LifecycleState::Ready,
        ensures
            (final(self)@, r) == interface_step(old(self)@, ok),
    {
        if ok {
            Action::Done
        } else {
            self.model.state = LifecycleState::Failed(Failure::InterfaceFailed);
            Action::Exit(1)
        }
    }

    /// The host is shutting down: asks for termination of a tracked sidecar.
    pub fn begin_shutdown(&mut self) -> (r: Action)
        ensures
            (final(self)@, r) == shutdown_step(old(self)@),
    {
        self.model.state = LifecycleState::ShuttingDown;
        if self.model.spawned {
            Action::Terminate
        } else {
            Action::Done
        }
    }

    /// Shutdown is over, whatever termination gave.
    pub fn finish_shutdown(&mut self)
        ensures
            final(self)@ == finish_step(old(self)@),
    {
        self.model = Model { state: LifecycleState::Terminated, spawned: false };
    }
}

/// Taking a handle out of a slot that holds `h`: what comes out, and what stays.
pub open spec fn take_step<H>(h: Option<H>) -> (Option<H>, Option<H>) {
    (h, None)
}

/// Holds the handle of the sidecar that this run started, if any. The handle
/// leaves it exactly once, by `take`.
pub struct HandleSlot<H> {
    handle: Option<H>,
}

impl<H> View for HandleSlot<H> {
    type V = Option<H>;

    closed spec fn view(&self) -> Option<H> {
        self.handle
    }
}

impl<H> HandleSlot<H> {
    pub fn new(handle: Option<H>) -> (r: HandleSlot<H>)
        ensures
            r@ == handle,
    {
        HandleSlot { handle }
    }

    /// Whether a handle is held.
    pub fn is_tracked(&self) -> (r: bool)
        ensures
            r == self@ is Some,
    {
        self.handle.is_some()
    }

    /// Moves the handle out, leaving the slot empty; `None` when it was empty.
    pub fn take(&mut self) -> (r: Option<H>)
        ensures
            (r, final(self)@) == take_step(old(self)@),
    {
        let mut out = None;
        std::mem::swap(&mut out, &mut self.handle);
        out
    }
}

/// A sidecar that already answers the first probe is reused: the controller
/// is ready at once, spawns nothing and tracks no handle, so that shutdown
/// has nothing to terminate.
pub proof fn lemma_reuse_when_reachable()
    ensures
        ({
            let (m, a) = initial_probe_step(initial_model(), true);
            &&& m.state == LifecycleState::Ready
            &&& !m.spawned
            &&& a == Action::Present
            &&& shutdown_step(m).1 == Action::Done
        }),
{
}

/// While waiting for a spawned sidecar, a poll fails the run exactly when
/// the time since the spawn exceeds the budget, so never earlier. Where
/// successive polls are at most `gap` apart (one polling interval and the
/// probe's own time), the failing poll comes no later than the budget plus
/// `gap`.
pub proof fn lemma_timeout_bound(m: Model, elapsed_ms: u64, prev_ms: u64, next_ms: u64, gap: u64)
    requires
        m.state == LifecycleState::AwaitingReady,
    ensures
        poll_step(m, elapsed_ms).0.state == LifecycleState::Failed(Failure::ReadinessTimeout)
            <==> elapsed_ms > SERVER_TIMEOUT_MS,
        poll_step(m, elapsed_ms).0.state != LifecycleState::Failed(Failure::ReadinessTimeout)
            ==> poll_step(m, elapsed_ms) == (m, Action::Probe),
        (poll_step(m, prev_ms).1 == Action::Probe && poll_step(m, next_ms).1 == Action::Exit(1)
            && prev_ms <= next_ms <= prev_ms + gap) ==> SERVER_TIMEOUT_MS < next_ms
            <= SERVER_TIMEOUT_MS + gap,
{
}

/// Terminating twice is harmless: the first take empties the slot, and the
/// second finds nothing and leaves it empty. A controller that finished one
/// shutdown asks for no second termination.
pub proof fn lemma_shutdown_idempotent<H>(h: Option<H>, m: Model)
    ensures
        ({
            let (first, after_first) = take_step(h);
            let (second, after_second) = take_step(after_first);
            &&& first == h
            &&& after_first is None
            &&& second is None
            &&& after_second is None
        }),
        shutdown_step(finish_step(shutdown_step(m).0)).1 == Action::Done,
        finish_step(shutdown_step(finish_step(shutdown_step(m).0)).0).state
            == LifecycleState::Terminated,
{
}

} // verus!
