use eye_core::agent::{Action, AgentLoop, CycleOutcome, Event, Phase};

fn capturing_loop(interval_ms: u64) -> AgentLoop {
    let mut lp = AgentLoop::new(interval_ms, 30_000, 2_000);
    let action = lp.step(Event::ProbeOk);
    assert_eq!(action, Action::ArmTimer { period_ms: interval_ms });
    lp
}

#[test]
fn test_agent_creation() {
    let agent = AgentLoop::new(1_000, 30_000, 2_000);
    assert_eq!(agent.frame_id, 0);
    assert_eq!(agent.phase, Phase::WaitingForServer { waited_ms: 0 });
}

#[test]
fn test_cadence_applies_next_tick() {
    // A cadence pushed in an upload acknowledgement rearms the timer only
    // after the cycle that observed it; the tick that began that cycle was
    // armed at the old cadence.
    let mut lp = capturing_loop(1_500);
    assert_eq!(lp.step(Event::Tick), Action::RunCycle { frame_id: 0 });
    let rearm = lp.step(Event::CycleDone {
        outcome: CycleOutcome::Uploaded { new_interval_ms: Some(700) },
    });
    assert_eq!(rearm, Action::ArmTimer { period_ms: 700 });
    assert_eq!(lp.interval_ms, 700);
    assert_eq!(lp.step(Event::Tick), Action::RunCycle { frame_id: 1 });
}

#[test]
fn test_unchanged_cadence_keeps_timer() {
    let mut lp = capturing_loop(1_500);
    lp.step(Event::Tick);
    let rearm = lp.step(Event::CycleDone {
        outcome: CycleOutcome::Uploaded { new_interval_ms: Some(1_500) },
    });
    assert_eq!(rearm, Action::ArmTimer { period_ms: 1_500 });
}

#[test]
fn test_cycle_failures_are_not_fatal() {
    let mut lp = capturing_loop(1_000);
    lp.step(Event::Tick);
    // A failed capture keeps the cadence, does not advance the id, and
    // the loop simply waits for the next tick.
    assert_eq!(
        lp.step(Event::CycleDone { outcome: CycleOutcome::CaptureFailed }),
        Action::ArmTimer { period_ms: 1_000 }
    );
    assert_eq!(lp.frame_id, 0);
    lp.step(Event::Tick);
    assert_eq!(
        lp.step(Event::CycleDone { outcome: CycleOutcome::UploadFailed }),
        Action::ArmTimer { period_ms: 1_000 }
    );
    assert_eq!(lp.frame_id, 0);
    // A successful cycle advances the id.
    lp.step(Event::Tick);
    lp.step(Event::CycleDone { outcome: CycleOutcome::Uploaded { new_interval_ms: None } });
    assert_eq!(lp.frame_id, 1);
}

#[test]
fn test_cancel_while_waiting() {
    let mut lp = AgentLoop::new(1_000, 30_000, 2_000);
    assert_eq!(lp.step(Event::Cancelled), Action::Exit);
    assert_eq!(lp.phase, Phase::Stopped);
    // Terminal: later events change nothing and start no cycle.
    assert_eq!(lp.step(Event::Tick), Action::Exit);
    assert_eq!(lp.step(Event::ProbeOk), Action::Exit);
}

#[test]
fn test_cancel_between_ticks() {
    let mut lp = capturing_loop(1_000);
    lp.step(Event::Tick);
    lp.step(Event::CycleDone { outcome: CycleOutcome::Uploaded { new_interval_ms: None } });
    assert_eq!(lp.step(Event::Cancelled), Action::Exit);
    assert_eq!(lp.phase, Phase::Stopped);
    assert_eq!(lp.step(Event::Tick), Action::Exit);
}

#[test]
fn test_server_timeout_at_deadline() {
    // Deadline 5000 ms, probe period 2000 ms: the probes at 2000 and 4000
    // ms keep waiting, the one carrying the clock to 6000 ms fails the
    // startup — after the deadline, never before it.
    let mut lp = AgentLoop::new(1_000, 5_000, 2_000);
    assert_eq!(lp.step(Event::ProbeFailed), Action::Probe { delay_ms: 2_000 });
    assert_eq!(lp.step(Event::ProbeFailed), Action::Probe { delay_ms: 2_000 });
    assert_eq!(lp.step(Event::ProbeFailed), Action::FailServerTimeout);
    assert_eq!(lp.phase, Phase::Stopped);
}

#[test]
fn test_probe_success_starts_capturing() {
    let mut lp = AgentLoop::new(1_000, 30_000, 2_000);
    assert_eq!(lp.next_action(), Action::Probe { delay_ms: 2_000 });
    assert_eq!(lp.step(Event::ProbeFailed), Action::Probe { delay_ms: 2_000 });
    assert_eq!(lp.step(Event::ProbeOk), Action::ArmTimer { period_ms: 1_000 });
    assert_eq!(lp.phase, Phase::Capturing);
}
