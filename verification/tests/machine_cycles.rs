use race_probe::events::LifecycleEvent;
use race_probe::machine::{poll_verdict, Action, Event, Phase, RaceScheduler, SchedulerConfig};
use race_probe::schedule::DelaySchedule;
use race_probe::window::{FatalKind, ObservationWindow};

fn fresh_machine() -> RaceScheduler {
    RaceScheduler::new(DelaySchedule::new(0, 2000, 10), SchedulerConfig::default())
}

fn window(prompt: bool, mounted: bool, disconnected: bool) -> ObservationWindow {
    ObservationWindow {
        prompt_resolved: prompt,
        device_mounted: mounted,
        device_disconnected: disconnected,
    }
}

/// Drives one full probe cycle in which the prompt appears and the
/// outcome check sees the given window.
fn run_cycle(m: &mut RaceScheduler, outcome: ObservationWindow) {
    assert_eq!(m.action(), Action::IssueMount);
    m.step(Event::MountAccepted);
    assert_eq!(
        m.action(),
        Action::AwaitEvent { event: LifecycleEvent::PromptResolved, timeout_ms: 15000 }
    );
    m.step(Event::EventSeen);
    assert_eq!(m.action(), Action::Sleep { ms: m.schedule.current });
    m.step(Event::SleepDone);
    assert_eq!(m.action(), Action::ObserveOutcome);
    m.step(Event::Observed(outcome));
    assert_eq!(m.action(), Action::UnmountAndAwait { timeout_ms: 10000 });
    m.step(Event::EventSeen);
    // Healthcheck: a second mount with long waits, then resync again.
    assert_eq!(m.action(), Action::IssueMount);
    m.step(Event::MountAccepted);
    assert_eq!(
        m.action(),
        Action::AwaitEvent { event: LifecycleEvent::PromptResolved, timeout_ms: 15000 }
    );
    m.step(Event::EventSeen);
    assert_eq!(
        m.action(),
        Action::AwaitEvent { event: LifecycleEvent::DeviceMounted, timeout_ms: 15000 }
    );
    m.step(Event::EventSeen);
    assert_eq!(m.action(), Action::UnmountAndAwait { timeout_ms: 10000 });
    m.step(Event::EventSeen);
    assert_eq!(m.phase, Phase::Mounting);
}

#[test]
fn first_cycle_probes_at_zero_then_climbs_to_ten() {
    let mut m = fresh_machine();
    assert_eq!(m.schedule.current, 0);
    // Cycle 1: the mount is observed only after the unmount was issued
    // (the outcome check sees no DeviceMounted yet).
    run_cycle(&mut m, window(false, false, false));
    assert_eq!(m.schedule.current, 10);
}

#[test]
fn mounted_during_check_outcome_resets_to_the_floor() {
    let mut m = fresh_machine();
    // Climb a few cycles first.
    run_cycle(&mut m, window(false, false, false));
    run_cycle(&mut m, window(false, false, false));
    run_cycle(&mut m, window(false, false, false));
    assert_eq!(m.schedule.current, 30);
    // DeviceMounted shows up during the outcome check, before the
    // unmount was issued: the probe was too late.
    run_cycle(&mut m, window(false, true, false));
    // The following cycle starts at the floor again.
    assert_eq!(m.schedule.current, 0);
    // And an ordinary cycle climbs from there.
    run_cycle(&mut m, window(false, false, false));
    assert_eq!(m.schedule.current, 10);
}

#[test]
fn no_prompt_settles_with_the_ceiling_delay() {
    let mut m = fresh_machine();
    run_cycle(&mut m, window(false, false, false));
    let candidate = m.schedule.current;
    assert_eq!(candidate, 10);
    m.step(Event::MountAccepted);
    // 15 s pass without PromptResolved.
    m.step(Event::AwaitTimedOut);
    // The race is not attempted: the sleep is the ceiling, not the
    // (small) candidate delay, and no outcome check follows.
    assert_eq!(m.phase, Phase::SettleSleep);
    assert_eq!(m.action(), Action::Sleep { ms: 2000 });
    assert_ne!(m.action(), Action::Sleep { ms: candidate });
    m.step(Event::SleepDone);
    assert_eq!(m.phase, Phase::ForceResync);
    m.step(Event::AwaitTimedOut);
    m.step(Event::MountAccepted);
    m.step(Event::AwaitTimedOut);
    assert_eq!(m.phase, Phase::HealthResync);
    m.step(Event::EventSeen);
    // The ramp still advanced: "no signal" is informative, not failure.
    assert_eq!(m.schedule.current, 20);
}

#[test]
fn conflict_halts_the_machine_for_good() {
    let mut m = fresh_machine();
    m.step(Event::MountAccepted);
    m.step(Event::ConflictObserved);
    assert_eq!(m.phase, Phase::Halted(FatalKind::Conflict));
    assert_eq!(m.action(), Action::Stop { reason: FatalKind::Conflict });
    // No event revives it; it never asks for another mount or unmount.
    m.step(Event::MountAccepted);
    m.step(Event::EventSeen);
    m.step(Event::EventSeen);
    assert_eq!(m.action(), Action::Stop { reason: FatalKind::Conflict });
}

#[test]
fn transport_failure_halts_the_machine() {
    let mut m = fresh_machine();
    m.step(Event::TransportFailed);
    assert_eq!(m.phase, Phase::Halted(FatalKind::Transport));
    assert_eq!(m.action(), Action::Stop { reason: FatalKind::Transport });
}

#[test]
fn resync_timeout_is_soft() {
    // A missed disconnect within the bound does not halt the search.
    let mut m = fresh_machine();
    m.step(Event::MountAccepted);
    m.step(Event::EventSeen);
    m.step(Event::SleepDone);
    m.step(Event::Observed(window(false, false, false)));
    m.step(Event::AwaitTimedOut);
    assert_eq!(m.phase, Phase::HealthMount);
}

#[test]
fn out_of_protocol_events_change_nothing() {
    let mut m = fresh_machine();
    let before = m;
    m.step(Event::SleepDone);
    assert_eq!(m, before);
    m.step(Event::EventSeen);
    assert_eq!(m, before);
}

#[test]
fn poll_verdict_orders_its_outcomes() {
    let target = LifecycleEvent::PromptResolved;
    // The conflict ends the wait whatever the clock says.
    assert_eq!(
        poll_verdict(&Err(FatalKind::Conflict), target, 0, 15000),
        Some(Event::ConflictObserved)
    );
    // The awaited event wins even at the deadline.
    assert_eq!(
        poll_verdict(&Ok(window(true, false, false)), target, 20000, 15000),
        Some(Event::EventSeen)
    );
    // Another event is not the awaited one.
    assert_eq!(poll_verdict(&Ok(window(false, true, false)), target, 100, 15000), None);
    // An empty window within the bound: keep polling.
    assert_eq!(poll_verdict(&Ok(window(false, false, false)), target, 14990, 15000), None);
    // The bound elapsed without the event.
    assert_eq!(
        poll_verdict(&Ok(window(false, false, false)), target, 15000, 15000),
        Some(Event::AwaitTimedOut)
    );
}

#[test]
fn default_config_matches_the_documented_bounds() {
    let c = SchedulerConfig::default();
    assert_eq!(c.await_connect_timeout_ms, 15000);
    assert_eq!(c.health_timeout_ms, 15000);
    assert_eq!(c.resync_timeout_ms, 10000);
    assert_eq!(c.poll_quantum_ms, 10);
}
