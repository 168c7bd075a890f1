//! The capture-upload control loop as a pure state machine.
//!
//! The loop waits for the collector to become ready, then runs an adaptive
//! capture cadence that the server can retune through data piggybacked on
//! upload acknowledgements, and stops cleanly when cancellation is
//! observed. Every decision lives here; the I/O edge merely performs the
//! returned [`Action`] — probe, run one capture-upload cycle, arm the
//! timer, or exit — and feeds back what it observed as an [`Event`].
//!
//! A capture-upload cycle is one event: the edge runs capture and upload
//! strictly in sequence between [`Action::RunCycle`] and
//! [`Event::CycleDone`], so cancellation is only ever observed between
//! cycles and can never interrupt one already started.

use vstd::prelude::*;

verus! {

/// Phase of the loop. There is no way back to waiting once capturing has
/// begun, and `Stopped` is terminal.
#[derive(Clone, Copy, Debug, PartialEq, Eq, Structural)]
pub enum Phase {
    /// Probing the collector on a fixed short period until it answers or
    /// the startup deadline passes; `waited_ms` counts the waiting so far.
    WaitingForServer { waited_ms: u64 },
    /// Running the periodic capture-upload cadence.
    Capturing,
    /// Cancellation was observed or startup failed; no further cycle
    /// starts.
    Stopped,
}

/// How one capture-upload cycle went, as the I/O edge reports it.
#[derive(Clone, Copy, Debug)]
pub enum CycleOutcome {
    /// Capture and upload both succeeded. The acknowledgement may carry a
    /// server-pushed cadence, in milliseconds.
    Uploaded { new_interval_ms: Option<u64> },
    /// The capture failed; non-fatal, the loop goes on.
    CaptureFailed,
    /// The upload failed; non-fatal, and no cadence delta is available on
    /// failure.
    UploadFailed,
}

/// One observation the loop reacts to.
#[derive(Clone, Copy, Debug)]
pub enum Event {
    /// A readiness probe succeeded.
    ProbeOk,
    /// A readiness probe failed.
    ProbeFailed,
    /// The cadence timer fired.
    Tick,
    /// The capture-upload cycle begun by the last tick finished.
    CycleDone { outcome: CycleOutcome },
    /// External cancellation was observed.
    Cancelled,
}

/// What the I/O edge must do next.
#[derive(Clone, Copy, Debug, PartialEq, Eq, Structural)]
pub enum Action {
    /// Wait this long, then probe the collector once.
    Probe { delay_ms: u64 },
    /// Startup failed fatally: the deadline elapsed with no healthy
    /// answer. This is the loop's only fatal error path.
    FailServerTimeout,
    /// Run one capture-upload cycle for this frame id — capture, then
    /// upload, sequentially, never overlapping another cycle.
    RunCycle { frame_id: i64 },
    /// Arm the cadence timer with this period and wait for the tick or
    /// for cancellation, whichever comes first.
    ArmTimer { period_ms: u64 },
    /// The loop is over; exit cleanly.
    Exit,
}

/// The control loop's entire mutable state.
pub struct AgentLoop {
    /// Where the loop stands.
    pub phase: Phase,
    /// Current capture cadence in milliseconds; mirrors the server's value.
    pub interval_ms: u64,
    /// Id the next captured frame will carry; advances only after a fully
    /// successful cycle.
    pub frame_id: i64,
    /// Startup deadline in milliseconds of waiting.
    pub deadline_ms: u64,
    /// Fixed period between readiness probes, in milliseconds.
    pub probe_period_ms: u64,
}

/// Validity of the loop state: positive periods, a deadline that cannot
/// overflow the waited counter, and a waited counter that never passes
/// the deadline while still waiting.
pub open spec fn loop_wf(s: AgentLoop) -> bool {
    &&& s.interval_ms >= 1
    &&& s.probe_period_ms >= 1
    &&& s.deadline_ms <= u64::MAX - s.probe_period_ms
    &&& s.frame_id >= 0
    &&& (s.phase matches Phase::WaitingForServer { waited_ms } ==> waited_ms <= s.deadline_ms)
}

/// Validity of an event: a server-pushed cadence is a positive duration.
/// The server validates and clamps the value; the loop only mirrors it.
pub open spec fn event_wf(e: Event) -> bool {
    e matches Event::CycleDone { outcome } ==> (outcome matches CycleOutcome::Uploaded {
        new_interval_ms,
    } ==> (new_interval_ms matches Some(v) ==> v >= 1))
}

/// The frame id after a successful cycle: one more, saturating at the
/// top so the id stays monotone without overflowing.
pub open spec fn bump_id(id: i64) -> i64 {
    if id < i64::MAX {
        (id + 1) as i64
    } else {
        id
    }
}

/// The cadence after a cycle: the server-pushed value when the upload
/// acknowledged one, unchanged otherwise — in particular after any failed
/// cycle. The loop never clamps or validates the value itself.
pub open spec fn next_interval(current: u64, outcome: CycleOutcome) -> u64 {
    match outcome {
        CycleOutcome::Uploaded { new_interval_ms: Some(v) } => v,
        _ => current,
    }
}

/// The action the loop is waiting on in a given state, absent any event:
/// a probe while waiting, the armed timer while capturing, exit once
/// stopped.
pub open spec fn pending_action(s: AgentLoop) -> Action {
    match s.phase {
        Phase::WaitingForServer { .. } => Action::Probe { delay_ms: s.probe_period_ms },
        Phase::Capturing => Action::ArmTimer { period_ms: s.interval_ms },
        Phase::Stopped => Action::Exit,
    }
}

/// The whole transition relation of the loop, as a function: next state
/// and next action for every state and event.
pub open spec fn spec_step(s: AgentLoop, e: Event) -> (AgentLoop, Action) {
    if s.phase is Stopped {
        (s, Action::Exit)
    } else if e is Cancelled {
        // Honored in any phase, between cycles; never starts a new cycle.
        (AgentLoop { phase: Phase::Stopped, ..s }, Action::Exit)
    } else {
        match s.phase {
            Phase::WaitingForServer { waited_ms } => match e {
                Event::ProbeOk => {
                    let s2 = AgentLoop { phase: Phase::Capturing, ..s };
                    (s2, pending_action(s2))
                },
                Event::ProbeFailed => {
                    let w2 = (waited_ms + s.probe_period_ms) as u64;
                    if w2 > s.deadline_ms {
                        (AgentLoop { phase: Phase::Stopped, ..s }, Action::FailServerTimeout)
                    } else {
                        let s2 = AgentLoop {
                            phase: Phase::WaitingForServer { waited_ms: w2 },
                            ..s
                        };
                        (s2, pending_action(s2))
                    }
                },
                _ => (s, pending_action(s)),
            },
            Phase::Capturing => match e {
                Event::Tick => (s, Action::RunCycle { frame_id: s.frame_id }),
                Event::CycleDone { outcome } => {
                    let s2 = AgentLoop {
                        frame_id: if outcome is Uploaded {
                            bump_id(s.frame_id)
                        } else {
                            s.frame_id
                        },
                        interval_ms: next_interval(s.interval_ms, outcome),
                        ..s
                    };
                    (s2, pending_action(s2))
                },
                _ => (s, pending_action(s)),
            },
            Phase::Stopped => (s, Action::Exit),
        }
    }
}

impl AgentLoop {
    /// A fresh loop: waiting for the server with nothing waited yet, and
    /// the first frame id at zero.
    pub fn new(interval_ms: u64, deadline_ms: u64, probe_period_ms: u64) -> (r: AgentLoop)
        requires
            interval_ms >= 1,
            probe_period_ms >= 1,
            deadline_ms <= u64::MAX - probe_period_ms,
        ensures
            loop_wf(r),
            r.phase == (Phase::WaitingForServer { waited_ms: 0u64 }),
            r.interval_ms == interval_ms,
            r.frame_id == 0,
            r.deadline_ms == deadline_ms,
            r.probe_period_ms == probe_period_ms,
    {
        AgentLoop {
            phase: Phase::WaitingForServer { waited_ms: 0 },
            interval_ms,
            frame_id: 0,
            deadline_ms,
            probe_period_ms,
        }
    }

    /// The action the loop is currently waiting on.
    pub fn next_action(&self) -> (a: Action)
        ensures
            a == pending_action(*self),
    {
        match self.phase {
            Phase::WaitingForServer { .. } => Action::Probe { delay_ms: self.probe_period_ms },
            Phase::Capturing => Action::ArmTimer { period_ms: self.interval_ms },
            Phase::Stopped => Action::Exit,
        }
    }

    /// Feeds one observed event and returns what to do next — exactly the
    /// transition [`spec_step`] prescribes.
    pub fn step(&mut self, event: Event) -> (a: Action)
        requires
            loop_wf(*old(self)),
            event_wf(event),
        ensures
            loop_wf(*final(self)),
            (*final(self), a) == spec_step(*old(self), event),
    {
        match self.phase {
            Phase::Stopped => Action::Exit,
            Phase::WaitingForServer { waited_ms } => match event {
                Event::Cancelled => {
                    self.phase = Phase::Stopped;
                    Action::Exit
                },
                Event::ProbeOk => {
                    self.phase = Phase::Capturing;
                    Action::ArmTimer { period_ms: self.interval_ms }
                },
                Event::ProbeFailed => {
                    let w2 = waited_ms + self.probe_period_ms;
                    if w2 > self.deadline_ms {
                        self.phase = Phase::Stopped;
                        Action::FailServerTimeout
                    } else {
                        self.phase = Phase::WaitingForServer { waited_ms: w2 };
                        Action::Probe { delay_ms: self.probe_period_ms }
                    }
                },
                _ => Action::Probe { delay_ms: self.probe_period_ms },
            },
            Phase::Capturing => match event {
                Event::Cancelled => {
                    self.phase = Phase::Stopped;
                    Action::Exit
                },
                Event::Tick => Action::RunCycle { frame_id: self.frame_id },
                Event::CycleDone { outcome } => {
                    match outcome {
                        CycleOutcome::Uploaded { new_interval_ms } => {
                            if self.frame_id < i64::MAX {
                                self.frame_id = self.frame_id + 1;
                            }
                            if let Some(v) = new_interval_ms {
                                self.interval_ms = v;
                            }
                        },
                        CycleOutcome::CaptureFailed => {},
                        CycleOutcome::UploadFailed => {},
                    }
                    Action::ArmTimer { period_ms: self.interval_ms }
                },
                _ => Action::ArmTimer { period_ms: self.interval_ms },
            },
        }
    }
}

/// The state after feeding a whole trace of events, first event first.
pub open spec fn run(s: AgentLoop, es: Seq<Event>) -> AgentLoop
    decreases es.len(),
{
    if es.len() == 0 {
        s
    } else {
        spec_step(run(s, es.drop_last()), es.last()).0
    }
}

/// The action emitted for event `i` of a trace.
pub open spec fn action_at(s: AgentLoop, es: Seq<Event>, i: int) -> Action
    recommends
        0 <= i < es.len(),
{
    spec_step(run(s, es.take(i)), es[i]).1
}

/// Cancellation stops the loop at once: the very transition that observes
/// it ends in `Stopped` and does not start a capture cycle.
pub proof fn lemma_cancel_stops(s: AgentLoop, e: Event)
    requires
        loop_wf(s),
        e is Cancelled,
    ensures
        spec_step(s, e).0.phase is Stopped,
        !(spec_step(s, e).1 is RunCycle),
{
}

/// `Stopped` is terminal: whatever events still arrive, the state never
/// changes and every further action is `Exit` — so after cancellation no
/// new capture cycle ever starts, and no further tick fires.
pub proof fn lemma_stopped_terminal(s: AgentLoop, es: Seq<Event>)
    requires
        s.phase is Stopped,
    ensures
        run(s, es) == s,
        forall|i: int| 0 <= i < es.len() ==> action_at(s, es, i) == Action::Exit,
    decreases es.len(),
{
    if es.len() > 0 {
        lemma_stopped_terminal(s, es.drop_last());
        assert(es.take(es.len() - 1) =~= es.drop_last());
        assert forall|i: int| 0 <= i < es.len() implies action_at(s, es, i) == Action::Exit by {
            if i < es.len() - 1 {
                assert(es.take(i) =~= es.drop_last().take(i));
                assert(es[i] == es.drop_last()[i]);
                assert(action_at(s, es.drop_last(), i) == Action::Exit);
            } else {
                assert(run(s, es.take(i)) == s);
            }
        }
    }
}

/// A cadence delta observed in a cycle's acknowledgement takes effect for
/// the next arming of the timer, never for the tick that began the
/// cycle: the tick runs the cycle under the old cadence and changes
/// nothing, and only the cycle's completion rearms the timer — with the
/// new period.
pub proof fn lemma_cadence_applies_next_tick(s: AgentLoop, v: u64)
    requires
        loop_wf(s),
        s.phase is Capturing,
        v >= 1,
    ensures
        ({
            let tick = spec_step(s, Event::Tick);
            let done = spec_step(
                s,
                Event::CycleDone { outcome: CycleOutcome::Uploaded { new_interval_ms: Some(v) } },
            );
            // The tick scheduled under the old cadence fires as scheduled:
            &&& pending_action(s) == (Action::ArmTimer { period_ms: s.interval_ms })
            &&& tick.1 == (Action::RunCycle { frame_id: s.frame_id })
            &&& tick.0 == s
            // ... and only the completed cycle carries the new cadence in:
            &&& done.0.interval_ms == v
            &&& done.1 == (Action::ArmTimer { period_ms: v })
        }),
{
}

/// Helper shape of a trace of nothing but failed probes.
pub open spec fn all_probe_failures(es: Seq<Event>) -> bool {
    forall|i: int| 0 <= i < es.len() ==> #[trigger] es[i] is ProbeFailed
}

/// State reached after `n` failed probes from a fresh waiting state: the
/// loop is still waiting with `n` whole probe periods on the clock while
/// that total is within the deadline, and stopped otherwise.
pub proof fn lemma_failed_probes_state(s0: AgentLoop, es: Seq<Event>)
    requires
        loop_wf(s0),
        s0.phase == (Phase::WaitingForServer { waited_ms: 0u64 }),
        all_probe_failures(es),
    ensures
        ({
            let s = run(s0, es);
            &&& s.probe_period_ms == s0.probe_period_ms
            &&& s.deadline_ms == s0.deadline_ms
            &&& loop_wf(s)
            &&& (es.len() * s0.probe_period_ms <= s0.deadline_ms ==> s.phase
                == (Phase::WaitingForServer {
                    waited_ms: (es.len() * s0.probe_period_ms) as u64,
                }))
            &&& (es.len() * s0.probe_period_ms > s0.deadline_ms ==> s.phase is Stopped)
        }),
    decreases es.len(),
{
    let p = s0.probe_period_ms as int;
    let n = es.len() as int;
    if n > 0 {
        lemma_failed_probes_state(s0, es.drop_last());
        assert((n - 1) * p + p == n * p) by (nonlinear_arith);
        assert((n - 1) * p >= 0) by (nonlinear_arith)
            requires
                n >= 1,
                p >= 1,
        ;
        if (n - 1) * p > s0.deadline_ms {
            assert(n * p > s0.deadline_ms) by (nonlinear_arith)
                requires
                    (n - 1) * p > s0.deadline_ms,
                    p >= 1,
                    n >= 1,
            ;
        }
    }
}

/// With a probe that always fails and a startup deadline of `D`
/// milliseconds, the loop fails with the server-timeout action exactly at
/// the first failed probe whose accumulated waiting passes `D`: never
/// with `D` or less on the clock, and at most one probe period past `D`.
pub proof fn lemma_deadline_observed(s0: AgentLoop, es: Seq<Event>, i: int)
    requires
        loop_wf(s0),
        s0.phase == (Phase::WaitingForServer { waited_ms: 0u64 }),
        all_probe_failures(es),
        0 <= i < es.len(),
    ensures
        action_at(s0, es, i) == Action::FailServerTimeout <==> (i * s0.probe_period_ms
            <= s0.deadline_ms && (i + 1) * s0.probe_period_ms > s0.deadline_ms),
        action_at(s0, es, i) == Action::FailServerTimeout ==> s0.deadline_ms < (i + 1)
            * s0.probe_period_ms <= s0.deadline_ms + s0.probe_period_ms,
{
    let p = s0.probe_period_ms as int;
    let d = s0.deadline_ms as int;
    assert(all_probe_failures(es.take(i))) by {
        assert(forall|j: int| 0 <= j < i ==> es.take(i)[j] == es[j]);
    }
    lemma_failed_probes_state(s0, es.take(i));
    assert(i * p + p == (i + 1) * p) by (nonlinear_arith);
    assert(i * p >= 0) by (nonlinear_arith)
        requires
            i >= 0,
            p >= 1,
    ;
    let s = run(s0, es.take(i));
    if i * p <= d {
        assert(s.phase == (Phase::WaitingForServer { waited_ms: (i * p) as u64 }));
    } else {
        assert(s.phase is Stopped);
    }
}

} // verus!
