//! The Frame Pump: the per-session worker's lifecycle state machine.
//!
//! A worker moves through `Idle → Negotiating → Running → Draining →
//! Terminated`.  Each poll of the engine's event interface, each render
//! tick and the completion of the shutdown sequence is one [`PumpEvent`];
//! [`Pump::step`] consumes it and decides the next [`PumpAction`].  The
//! shell that owns the GPU context runs the loop: it performs the action,
//! gathers the next event and calls `step` again.

use vstd::prelude::*;

verus! {

/// Width and height of a video surface, in pixels.
#[derive(Clone, Copy, Debug, PartialEq, Eq, Structural)]
pub struct Dims {
    pub width: u32,
    pub height: u32,
}

impl Dims {
    /// Both sides of a usable surface are positive.
    pub open spec fn positive(self) -> bool {
        self.width > 0 && self.height > 0
    }
}

/// Consecutive failed render ticks after which the session aborts
/// (about half a second at the 60 Hz tick target).
pub const FAILURE_THRESHOLD: u32 = 30;

/// Negotiation polls before falling back to the requested size
/// (one poll every [`POLL_INTERVAL_MS`], so 30 s in all).
pub const MAX_POLL_ATTEMPTS: u32 = 300;

/// Milliseconds the worker sleeps between negotiation polls.
pub const POLL_INTERVAL_MS: u64 = 100;

/// Milliseconds the worker sleeps between render ticks (a soft 60 Hz
/// target; tick drift is not compensated).
pub const TICK_SLEEP_MS: u64 = 16;

/// Lifecycle of a session worker.
#[derive(Clone, Copy, Debug, PartialEq, Eq, Structural)]
pub enum Phase {
    /// Worker not started.
    Idle,
    /// Waiting for the stream's real resolution.
    Negotiating,
    /// Steady state: render, publish, preview.
    Running,
    /// Stop requested or failure threshold hit; teardown in progress.
    Draining,
    /// Teardown finished, worker exits.
    Terminated,
}

/// One observation handed to the state machine by the worker loop.
#[derive(Clone, Copy, Debug, PartialEq, Eq, Structural)]
pub enum PumpEvent {
    /// The GPU context came up; the worker starts negotiating.
    Start,
    /// One negotiation poll: whether a stop command is pending, whether a
    /// reconfiguration event arrived, and the engine's current width and
    /// height properties (zero or negative when not yet known).
    Poll { stop: bool, reconfig: bool, width: i64, height: i64 },
    /// One steady-state tick: whether a stop command is pending and whether
    /// the engine's render call succeeded.
    Tick { stop: bool, render_ok: bool },
    /// The shutdown sequence has run to completion.
    DrainComplete,
}

/// What the worker loop must do next.
#[derive(Clone, Copy, Debug, PartialEq, Eq, Structural)]
pub enum PumpAction {
    /// Sleep one interval and poll again.
    Wait,
    /// Negotiation settled on these dimensions: create the frame surface,
    /// the preview surface and the server binding at that size.
    CreateSurfaces(Dims),
    /// The rendered frame is good: publish it (and let the preview relay
    /// decide whether to emit).
    PublishFrame,
    /// The render call failed but the session survives: sleep one tick and
    /// try again.
    RetryTick,
    /// Run the shutdown sequence, then report `DrainComplete`.
    BeginShutdown,
}

/// An engine-reported size is usable when both sides are positive and fit
/// in a `u32`.
pub open spec fn spec_valid_dims(width: i64, height: i64) -> bool {
    0 < width <= u32::MAX && 0 < height <= u32::MAX
}

/// The state machine itself: lifecycle phase plus the counters that drive
/// its two bounded waits (negotiation attempts, consecutive render
/// failures).
#[derive(Clone, Copy, Debug)]
pub struct Pump {
    pub phase: Phase,
    /// Negotiation polls consumed so far.
    pub attempts: u32,
    /// Consecutive failed render ticks.
    pub failures: u32,
    /// A reconfiguration event has been observed; from then on the polled
    /// width/height properties are trusted once positive.
    pub reconfig_seen: bool,
    /// The caller's requested size, used when negotiation times out.
    pub fallback: Dims,
    /// The settled size; set exactly once, on leaving `Negotiating`.
    pub negotiated: Option<Dims>,
}

impl Pump {
    /// Internal consistency: counters within their bounds, sizes positive,
    /// and a running pump has a settled size.
    pub open spec fn wf(self) -> bool {
        &&& self.attempts <= MAX_POLL_ATTEMPTS
        &&& self.failures < FAILURE_THRESHOLD
        &&& self.fallback.positive()
        &&& match self.negotiated {
            Some(d) => d.positive(),
            None => true,
        }
        &&& (self.phase is Running ==> self.negotiated is Some)
    }

    /// The transition relation.  Every lifecycle rule of the worker is a
    /// case here; events that do not belong to the current phase leave the
    /// state unchanged.
    pub open spec fn spec_step(self, e: PumpEvent) -> (Pump, PumpAction) {
        match (self.phase, e) {
            (Phase::Idle, PumpEvent::Start) => (
                Pump { phase: Phase::Negotiating, attempts: 0, failures: 0, reconfig_seen: false, ..self },
                PumpAction::Wait,
            ),
            (Phase::Negotiating, PumpEvent::Poll { stop, reconfig, width, height }) => {
                if stop {
                    (Pump { phase: Phase::Draining, ..self }, PumpAction::BeginShutdown)
                } else if (self.reconfig_seen || reconfig) && spec_valid_dims(width, height) {
                    let d = Dims { width: width as u32, height: height as u32 };
                    (
                        Pump {
                            phase: Phase::Running,
                            reconfig_seen: true,
                            negotiated: Some(d),
                            failures: 0,
                            ..self
                        },
                        PumpAction::CreateSurfaces(d),
                    )
                } else if self.attempts + 1 >= MAX_POLL_ATTEMPTS {
                    (
                        Pump {
                            phase: Phase::Running,
                            reconfig_seen: self.reconfig_seen || reconfig,
                            negotiated: Some(self.fallback),
                            failures: 0,
                            attempts: MAX_POLL_ATTEMPTS,
                            ..self
                        },
                        PumpAction::CreateSurfaces(self.fallback),
                    )
                } else {
                    (
                        Pump {
                            attempts: (self.attempts + 1) as u32,
                            reconfig_seen: self.reconfig_seen || reconfig,
                            ..self
                        },
                        PumpAction::Wait,
                    )
                }
            },
            (Phase::Running, PumpEvent::Tick { stop, render_ok }) => {
                if stop {
                    (Pump { phase: Phase::Draining, ..self }, PumpAction::BeginShutdown)
                } else if render_ok {
                    (Pump { failures: 0, ..self }, PumpAction::PublishFrame)
                } else if self.failures + 1 >= FAILURE_THRESHOLD {
                    (Pump { phase: Phase::Draining, failures: 0, ..self }, PumpAction::BeginShutdown)
                } else {
                    (Pump { failures: (self.failures + 1) as u32, ..self }, PumpAction::RetryTick)
                }
            },
            (Phase::Draining, PumpEvent::DrainComplete) => (
                Pump { phase: Phase::Terminated, ..self },
                PumpAction::Wait,
            ),
            _ => (self, PumpAction::Wait),
        }
    }

    /// A fresh, not-yet-started pump for a session whose requested size is
    /// `fallback`.
    pub fn new(fallback: Dims) -> (p: Pump)
        requires
            fallback.positive(),
        ensures
            p.phase is Idle,
            p.attempts == 0,
            p.failures == 0,
            !p.reconfig_seen,
            p.fallback == fallback,
            p.negotiated is None,
            p.wf(),
    {
        Pump {
            phase: Phase::Idle,
            attempts: 0,
            failures: 0,
            reconfig_seen: false,
            fallback,
            negotiated: None,
        }
    }

    /// Advance the state machine by one event and return the action the
    /// worker loop must perform.
    pub fn step(&mut self, e: PumpEvent) -> (a: PumpAction)
        requires
            old(self).wf(),
        ensures
            (*final(self), a) == old(self).spec_step(e),
            final(self).wf(),
    {
        match (self.phase, e) {
            (Phase::Idle, PumpEvent::Start) => {
                self.phase = Phase::Negotiating;
                self.attempts = 0;
                self.failures = 0;
                self.reconfig_seen = false;
                PumpAction::Wait
            },
            (Phase::Negotiating, PumpEvent::Poll { stop, reconfig, width, height }) => {
                if stop {
                    self.phase = Phase::Draining;
                    PumpAction::BeginShutdown
                } else {
                    let seen = self.reconfig_seen || reconfig;
                    let valid = 0 < width && width <= u32::MAX as i64 && 0 < height
                        && height <= u32::MAX as i64;
                    if seen && valid {
                        let d = Dims { width: width as u32, height: height as u32 };
                        self.phase = Phase::Running;
                        self.reconfig_seen = true;
                        self.negotiated = Some(d);
                        self.failures = 0;
                        PumpAction::CreateSurfaces(d)
                    } else if self.attempts + 1 >= MAX_POLL_ATTEMPTS {
                        self.phase = Phase::Running;
                        self.reconfig_seen = seen;
                        self.negotiated = Some(self.fallback);
                        self.failures = 0;
                        self.attempts = MAX_POLL_ATTEMPTS;
                        PumpAction::CreateSurfaces(self.fallback)
                    } else {
                        self.attempts = self.attempts + 1;
                        self.reconfig_seen = seen;
                        PumpAction::Wait
                    }
                }
            },
            (Phase::Running, PumpEvent::Tick { stop, render_ok }) => {
                if stop {
                    self.phase = Phase::Draining;
                    PumpAction::BeginShutdown
                } else if render_ok {
                    self.failures = 0;
                    PumpAction::PublishFrame
                } else if self.failures + 1 >= FAILURE_THRESHOLD {
                    self.phase = Phase::Draining;
                    self.failures = 0;
                    PumpAction::BeginShutdown
                } else {
                    self.failures = self.failures + 1;
                    PumpAction::RetryTick
                }
            },
            (Phase::Draining, PumpEvent::DrainComplete) => {
                self.phase = Phase::Terminated;
                PumpAction::Wait
            },
            _ => PumpAction::Wait,
        }
    }
}

/// A whole recorded event sequence folded through the state machine: the
/// final state, and the action decided for each event in order.
pub open spec fn spec_drive(p: Pump, events: Seq<PumpEvent>) -> (Pump, Seq<PumpAction>)
    decreases events.len(),
{
    if events.len() == 0 {
        (p, Seq::empty())
    } else {
        let prev = spec_drive(p, events.drop_last());
        let st = prev.0.spec_step(events.last());
        (st.0, prev.1.push(st.1))
    }
}

/// Feed a recorded event sequence to the state machine, one step per
/// event, and return the decided actions in order.
pub fn drive(p: &mut Pump, events: &Vec<PumpEvent>) -> (actions: Vec<PumpAction>)
    requires
        old(p).wf(),
    ensures
        (*final(p), actions@) == spec_drive(*old(p), events@),
        final(p).wf(),
{
    let mut cur: Pump = *p;
    let mut actions: Vec<PumpAction> = Vec::new();
    let n = events.len();
    let mut i: usize = 0;
    while i < n
        invariant
            i <= n,
            n == events@.len(),
            cur.wf(),
            (cur, actions@) == spec_drive(*old(p), events@.take(i as int)),
        decreases n - i,
    {
        let a = cur.step(events[i]);
        actions.push(a);
        proof {
            let next = events@.take(i + 1 as int);
            assert(next.drop_last() =~= events@.take(i as int));
            assert(next.last() == events@[i as int]);
        }
        i = i + 1;
    }
    proof {
        assert(events@.take(n as int) =~= events@);
    }
    *p = cur;
    actions
}

/// A render tick on which the engine failed and no stop is pending.
pub open spec fn failing_tick() -> PumpEvent {
    PumpEvent::Tick { stop: false, render_ok: false }
}

/// A negotiation poll on which nothing happened: no stop, no
/// reconfiguration event, no usable dimensions.
pub open spec fn quiet_poll() -> PumpEvent {
    PumpEvent::Poll { stop: false, reconfig: false, width: 0, height: 0 }
}

/// The pump after `k` consecutive occurrences of `e`.
pub open spec fn iterate(p: Pump, e: PumpEvent, k: nat) -> Pump
    decreases k,
{
    if k == 0 {
        p
    } else {
        iterate(p, e, (k - 1) as nat).spec_step(e).0
    }
}

/// Threshold abort: a running pump fed only failing render ticks is still
/// running after any number of ticks short of [`FAILURE_THRESHOLD`], with
/// the failure count equal to the number of ticks, and is draining from
/// exactly the [`FAILURE_THRESHOLD`]-th consecutive failure on.
pub proof fn lemma_threshold_abort(p: Pump, k: nat)
    requires
        p.wf(),
        p.phase is Running,
        p.failures == 0,
    ensures
        k < FAILURE_THRESHOLD ==> {
            &&& iterate(p, failing_tick(), k).phase is Running
            &&& iterate(p, failing_tick(), k).failures == k
        },
        k >= FAILURE_THRESHOLD ==> iterate(p, failing_tick(), k).phase is Draining,
        iterate(p, failing_tick(), k).wf(),
    decreases k,
{
    if k > 0 {
        lemma_threshold_abort(p, (k - 1) as nat);
    }
}

/// A single successful render tick clears the consecutive-failure counter
/// and keeps the session running, whatever the counter stood at.
pub proof fn lemma_success_resets_failures(p: Pump)
    requires
        p.wf(),
        p.phase is Running,
    ensures
        ({
            let (q, a) = p.spec_step(PumpEvent::Tick { stop: false, render_ok: true });
            &&& q.phase is Running
            &&& q.failures == 0
            &&& a is PublishFrame
            &&& q.wf()
        }),
{
}

/// Resolution fallback: a pump that has just begun negotiating and never
/// hears a reconfiguration event is still negotiating after any number of
/// polls short of [`MAX_POLL_ATTEMPTS`], and from the
/// [`MAX_POLL_ATTEMPTS`]-th poll on it is running at the caller's
/// requested size.
pub proof fn lemma_resolution_fallback(p: Pump, k: nat)
    requires
        p.wf(),
        p.phase is Negotiating,
        p.attempts == 0,
    ensures
        iterate(p, quiet_poll(), k).fallback == p.fallback,
        k < MAX_POLL_ATTEMPTS ==> {
            &&& iterate(p, quiet_poll(), k).phase is Negotiating
            &&& iterate(p, quiet_poll(), k).attempts == k
        },
        k >= MAX_POLL_ATTEMPTS ==> {
            &&& iterate(p, quiet_poll(), k).phase is Running
            &&& iterate(p, quiet_poll(), k).negotiated == Some(p.fallback)
        },
        iterate(p, quiet_poll(), k).wf(),
    decreases k,
{
    if k > 0 {
        lemma_resolution_fallback(p, (k - 1) as nat);
    }
}

/// A stop request is honored within one negotiation poll: whatever else
/// the poll reports, the pump leaves the negotiation loop for `Draining`
/// at once, and completing the drain terminates the worker — no deadlock
/// waiting out the negotiation window.
pub proof fn lemma_stop_during_negotiation(p: Pump, reconfig: bool, width: i64, height: i64)
    requires
        p.wf(),
        p.phase is Negotiating,
    ensures
        ({
            let (q, a) = p.spec_step(
                PumpEvent::Poll { stop: true, reconfig, width, height },
            );
            &&& q.phase is Draining
            &&& a is BeginShutdown
            &&& q.spec_step(PumpEvent::DrainComplete).0.phase is Terminated
        }),
{
}

} // verus!
