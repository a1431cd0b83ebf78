//! The race scheduler: the control loop's decisions as a state
//! machine.
//!
//! One probe cycle runs mount → await connect → race sleep → check
//! outcome → force resync → healthcheck → (next cycle). The machine
//! holds the current phase, the adaptive delay schedule and the
//! too-late flag; each phase names one action for the surrounding
//! application to perform (issue a request, sleep, observe), and the
//! application reports back what happened as an event. Every decision —
//! which phase follows which event, when the delay ramp resets and when
//! it advances — is taken here; the application only performs I/O and
//! keeps time.

use vstd::prelude::*;

use crate::events::LifecycleEvent;
use crate::schedule::DelaySchedule;
use crate::window::{FatalKind, ObservationWindow};

verus! {

/// The phases of one probe cycle.
#[derive(Clone, Copy, Debug, PartialEq, Eq, Structural)]
pub enum Phase {
    /// Issue the probe mount.
    Mounting,
    /// Poll for `PromptResolved`, bounded by the connect timeout.
    AwaitConnect,
    /// Sleep for the current candidate delay: the race probe itself.
    RaceSleep,
    /// No connection was observed: sleep for the ceiling instead and
    /// skip the outcome check — the race is not attempted this cycle.
    SettleSleep,
    /// One observation: did the mount already confirm (probe too
    /// late)?
    CheckOutcome,
    /// Issue the unmount — the actual race target — and poll for the
    /// disconnect to restore a clean baseline.
    ForceResync,
    /// Issue the healthcheck mount, independent of the adaptive delay.
    HealthMount,
    /// Healthcheck: poll for `PromptResolved` with a long bound.
    HealthAwaitPrompt,
    /// Healthcheck: poll for `DeviceMounted` with a long bound.
    HealthAwaitMounted,
    /// Unmount and resynchronise once more; the cycle ends here.
    HealthResync,
    /// A fatal condition: the search is over.
    Halted(FatalKind),
}

/// What the application is to do next.
#[derive(Clone, Copy, Debug, PartialEq, Eq, Structural)]
pub enum Action {
    /// Issue the mount request; report `MountAccepted` or
    /// `TransportFailed`.
    IssueMount,
    /// Poll the oracle until `event` appears or `timeout_ms` elapses;
    /// report `EventSeen`, `AwaitTimedOut`, or what went wrong.
    AwaitEvent { event: LifecycleEvent, timeout_ms: u64 },
    /// Sleep for `ms`; report `SleepDone`.
    Sleep { ms: u64 },
    /// One observation pass; report `Observed` or `ConflictObserved`.
    ObserveOutcome,
    /// Issue the unmount, then poll for `DeviceDisconnected` until
    /// `timeout_ms` elapses; report `EventSeen`, `AwaitTimedOut` (a
    /// timeout here is soft), `ConflictObserved` or `TransportFailed`.
    UnmountAndAwait { timeout_ms: u64 },
    /// Stop the process: a fatal condition was met.
    Stop { reason: FatalKind },
}

/// What the application observed while performing the last action.
#[derive(Clone, Copy, Debug, PartialEq, Eq, Structural)]
pub enum Event {
    /// The transport accepted the mount request.
    MountAccepted,
    /// The awaited event appeared within the bound.
    EventSeen,
    /// The bound elapsed without the awaited event.
    AwaitTimedOut,
    /// The outcome observation yielded this window.
    Observed(ObservationWindow),
    /// The sleep completed.
    SleepDone,
    /// The conflict marker was observed in the log.
    ConflictObserved,
    /// A transport call could not be completed.
    TransportFailed,
}

/// The waiting bounds and the polling quantum, in milliseconds.
#[derive(Clone, Copy, Debug, PartialEq, Eq, Structural)]
pub struct SchedulerConfig {
    /// Bound on waiting for the connect prompt each cycle.
    pub await_connect_timeout_ms: u64,
    /// Bound on each healthcheck wait.
    pub health_timeout_ms: u64,
    /// Bound on waiting for the disconnect after an unmount.
    pub resync_timeout_ms: u64,
    /// Fixed pause between observation passes while polling,
    /// independent of the adaptive delay.
    pub poll_quantum_ms: u64,
}

impl Default for SchedulerConfig {
    /// The documented defaults: 15 s to connect, 15 s per healthcheck
    /// wait, 10 s to resynchronise, polling every 10 ms.
    fn default() -> (c: SchedulerConfig)
        ensures
            c == (SchedulerConfig {
                await_connect_timeout_ms: 15000u64,
                health_timeout_ms: 15000u64,
                resync_timeout_ms: 10000u64,
                poll_quantum_ms: 10u64,
            }),
    {
        SchedulerConfig {
            await_connect_timeout_ms: 15000,
            health_timeout_ms: 15000,
            resync_timeout_ms: 10000,
            poll_quantum_ms: 10,
        }
    }
}

/// The race scheduler's state.
#[derive(Clone, Copy, Debug, PartialEq, Eq, Structural)]
pub struct RaceScheduler {
    /// Where in the probe cycle the machine stands.
    pub phase: Phase,
    /// The adaptive delay ramp.
    pub schedule: DelaySchedule,
    /// Set when the outcome check saw the mount already confirmed —
    /// the probe was too late. The schedule was then reset to its
    /// floor, and the end-of-cycle advance is suppressed so the next
    /// cycle starts there.
    pub raced_late: bool,
    /// The waiting bounds.
    pub config: SchedulerConfig,
}

impl RaceScheduler {
    /// The too-late flag is only ever set between the outcome check
    /// that raised it and the end of that same cycle.
    pub open spec fn flag_in_cycle(self) -> bool {
        self.raced_late ==> match self.phase {
            Phase::ForceResync => true,
            Phase::HealthMount => true,
            Phase::HealthAwaitPrompt => true,
            Phase::HealthAwaitMounted => true,
            Phase::HealthResync => true,
            Phase::Halted(_) => true,
            _ => false,
        }
    }

    /// Well-formedness: the ramp is inside its bounds; after a
    /// too-late probe the ramp stands at its floor, and the flag lives
    /// only in the rest of the cycle that raised it.
    pub open spec fn wf(self) -> bool {
        &&& self.schedule.wf()
        &&& (self.raced_late ==> self.schedule.current == self.schedule.floor)
        &&& self.flag_in_cycle()
    }

    /// A scheduler about to issue its first mount.
    pub fn new(schedule: DelaySchedule, config: SchedulerConfig) -> (m: RaceScheduler)
        requires
            schedule.wf(),
        ensures
            m.wf(),
            m == (RaceScheduler { phase: Phase::Mounting, schedule, raced_late: false, config }),
    {
        RaceScheduler { phase: Phase::Mounting, schedule, raced_late: false, config }
    }

    /// The action each phase calls for.
    pub open spec fn action_spec(self) -> Action {
        match self.phase {
            Phase::Mounting => Action::IssueMount,
            Phase::AwaitConnect => Action::AwaitEvent {
                event: LifecycleEvent::PromptResolved,
                timeout_ms: self.config.await_connect_timeout_ms,
            },
            Phase::RaceSleep => Action::Sleep { ms: self.schedule.current },
            Phase::SettleSleep => Action::Sleep { ms: self.schedule.ceiling },
            Phase::CheckOutcome => Action::ObserveOutcome,
            Phase::ForceResync => Action::UnmountAndAwait {
                timeout_ms: self.config.resync_timeout_ms,
            },
            Phase::HealthMount => Action::IssueMount,
            Phase::HealthAwaitPrompt => Action::AwaitEvent {
                event: LifecycleEvent::PromptResolved,
                timeout_ms: self.config.health_timeout_ms,
            },
            Phase::HealthAwaitMounted => Action::AwaitEvent {
                event: LifecycleEvent::DeviceMounted,
                timeout_ms: self.config.health_timeout_ms,
            },
            Phase::HealthResync => Action::UnmountAndAwait {
                timeout_ms: self.config.resync_timeout_ms,
            },
            Phase::Halted(reason) => Action::Stop { reason },
        }
    }

    /// What to do next.
    pub fn action(&self) -> (a: Action)
        ensures
            a == self.action_spec(),
    {
        match self.phase {
            Phase::Mounting => Action::IssueMount,
            Phase::AwaitConnect => Action::AwaitEvent {
                event: LifecycleEvent::PromptResolved,
                timeout_ms: self.config.await_connect_timeout_ms,
            },
            Phase::RaceSleep => Action::Sleep { ms: self.schedule.current },
            Phase::SettleSleep => Action::Sleep { ms: self.schedule.ceiling },
            Phase::CheckOutcome => Action::ObserveOutcome,
            Phase::ForceResync => Action::UnmountAndAwait {
                timeout_ms: self.config.resync_timeout_ms,
            },
            Phase::HealthMount => Action::IssueMount,
            Phase::HealthAwaitPrompt => Action::AwaitEvent {
                event: LifecycleEvent::PromptResolved,
                timeout_ms: self.config.health_timeout_ms,
            },
            Phase::HealthAwaitMounted => Action::AwaitEvent {
                event: LifecycleEvent::DeviceMounted,
                timeout_ms: self.config.health_timeout_ms,
            },
            Phase::HealthResync => Action::UnmountAndAwait {
                timeout_ms: self.config.resync_timeout_ms,
            },
            Phase::Halted(reason) => Action::Stop { reason },
        }
    }

    /// The machine at the end of a cycle, about to mount again: the
    /// ramp advances one step, unless this cycle's probe was too late —
    /// then the ramp stays at the floor it was reset to, so the next
    /// cycle searches the smallest delay.
    pub open spec fn cycle_done(self) -> RaceScheduler {
        RaceScheduler {
            phase: Phase::Mounting,
            schedule: if self.raced_late {
                self.schedule
            } else {
                self.schedule.advanced()
            },
            raced_late: false,
            ..self
        }
    }

    /// The machine after consuming one event. A halted machine absorbs
    /// everything; the conflict marker or a transport failure halts
    /// from any phase; an event that does not belong to the current
    /// phase changes nothing.
    pub open spec fn step_spec(self, ev: Event) -> RaceScheduler {
        if self.phase is Halted {
            self
        } else if ev is ConflictObserved {
            RaceScheduler { phase: Phase::Halted(FatalKind::Conflict), ..self }
        } else if ev is TransportFailed {
            RaceScheduler { phase: Phase::Halted(FatalKind::Transport), ..self }
        } else {
            match (self.phase, ev) {
                (Phase::Mounting, Event::MountAccepted) => RaceScheduler {
                    phase: Phase::AwaitConnect,
                    ..self
                },
                (Phase::AwaitConnect, Event::EventSeen) => RaceScheduler {
                    phase: Phase::RaceSleep,
                    ..self
                },
                (Phase::AwaitConnect, Event::AwaitTimedOut) => RaceScheduler {
                    phase: Phase::SettleSleep,
                    ..self
                },
                (Phase::RaceSleep, Event::SleepDone) => RaceScheduler {
                    phase: Phase::CheckOutcome,
                    ..self
                },
                (Phase::SettleSleep, Event::SleepDone) => RaceScheduler {
                    phase: Phase::ForceResync,
                    ..self
                },
                (Phase::CheckOutcome, Event::Observed(w)) => if w.device_mounted {
                    RaceScheduler {
                        phase: Phase::ForceResync,
                        schedule: DelaySchedule { current: self.schedule.floor, ..self.schedule },
                        raced_late: true,
                        ..self
                    }
                } else {
                    RaceScheduler { phase: Phase::ForceResync, ..self }
                },
                (Phase::ForceResync, Event::EventSeen) => RaceScheduler {
                    phase: Phase::HealthMount,
                    ..self
                },
                (Phase::ForceResync, Event::AwaitTimedOut) => RaceScheduler {
                    phase: Phase::HealthMount,
                    ..self
                },
                (Phase::HealthMount, Event::MountAccepted) => RaceScheduler {
                    phase: Phase::HealthAwaitPrompt,
                    ..self
                },
                (Phase::HealthAwaitPrompt, Event::EventSeen) => RaceScheduler {
                    phase: Phase::HealthAwaitMounted,
                    ..self
                },
                (Phase::HealthAwaitPrompt, Event::AwaitTimedOut) => RaceScheduler {
                    phase: Phase::HealthResync,
                    ..self
                },
                (Phase::HealthAwaitMounted, Event::EventSeen) => RaceScheduler {
                    phase: Phase::HealthResync,
                    ..self
                },
                (Phase::HealthAwaitMounted, Event::AwaitTimedOut) => RaceScheduler {
                    phase: Phase::HealthResync,
                    ..self
                },
                (Phase::HealthResync, Event::EventSeen) => self.cycle_done(),
                (Phase::HealthResync, Event::AwaitTimedOut) => self.cycle_done(),
                _ => self,
            }
        }
    }

    /// Consumes one event.
    pub fn step(&mut self, ev: Event)
        requires
            old(self).wf(),
        ensures
            *final(self) == old(self).step_spec(ev),
            final(self).wf(),
    {
        if let Phase::Halted(_) = self.phase {
            return ;
        }
        match ev {
            Event::ConflictObserved => {
                self.phase = Phase::Halted(FatalKind::Conflict);
                return ;
            },
            Event::TransportFailed => {
                self.phase = Phase::Halted(FatalKind::Transport);
                return ;
            },
            _ => {},
        }
        match (self.phase, ev) {
            (Phase::Mounting, Event::MountAccepted) => {
                self.phase = Phase::AwaitConnect;
            },
            (Phase::AwaitConnect, Event::EventSeen) => {
                self.phase = Phase::RaceSleep;
            },
            (Phase::AwaitConnect, Event::AwaitTimedOut) => {
                self.phase = Phase::SettleSleep;
            },
            (Phase::RaceSleep, Event::SleepDone) => {
                self.phase = Phase::CheckOutcome;
            },
            (Phase::SettleSleep, Event::SleepDone) => {
                self.phase = Phase::ForceResync;
            },
            (Phase::CheckOutcome, Event::Observed(w)) => {
                if w.device_mounted {
                    self.schedule.reset();
                    self.raced_late = true;
                }
                self.phase = Phase::ForceResync;
            },
            (Phase::ForceResync, Event::EventSeen) => {
                self.phase = Phase::HealthMount;
            },
            (Phase::ForceResync, Event::AwaitTimedOut) => {
                self.phase = Phase::HealthMount;
            },
            (Phase::HealthMount, Event::MountAccepted) => {
                self.phase = Phase::HealthAwaitPrompt;
            },
            (Phase::HealthAwaitPrompt, Event::EventSeen) => {
                self.phase = Phase::HealthAwaitMounted;
            },
            (Phase::HealthAwaitPrompt, Event::AwaitTimedOut) => {
                self.phase = Phase::HealthResync;
            },
            (Phase::HealthAwaitMounted, Event::EventSeen) => {
                self.phase = Phase::HealthResync;
            },
            (Phase::HealthAwaitMounted, Event::AwaitTimedOut) => {
                self.phase = Phase::HealthResync;
            },
            (Phase::HealthResync, Event::EventSeen) => {
                if !self.raced_late {
                    self.schedule.advance();
                }
                self.raced_late = false;
                self.phase = Phase::Mounting;
            },
            (Phase::HealthResync, Event::AwaitTimedOut) => {
                if !self.raced_late {
                    self.schedule.advance();
                }
                self.raced_late = false;
                self.phase = Phase::Mounting;
            },
            _ => {},
        }
    }
}

/// The decision of one polling pass while awaiting `target`: the event
/// to report, or `None` to observe again after one quantum. Polling
/// stops on the fatal conflict, when the awaited event has appeared,
/// and when the bound has elapsed, in that order.
pub open spec fn poll_verdict_spec(
    observed: Result<ObservationWindow, FatalKind>,
    target: LifecycleEvent,
    elapsed_ms: u64,
    timeout_ms: u64,
) -> Option<Event> {
    match observed {
        Result::Err(_) => Some(Event::ConflictObserved),
        Result::Ok(w) => if w.contains_spec(target) {
            Some(Event::EventSeen)
        } else if elapsed_ms >= timeout_ms {
            Some(Event::AwaitTimedOut)
        } else {
            None
        },
    }
}

/// Decides one polling pass from an observation and the time already
/// spent waiting.
pub fn poll_verdict(
    observed: &Result<ObservationWindow, FatalKind>,
    target: LifecycleEvent,
    elapsed_ms: u64,
    timeout_ms: u64,
) -> (e: Option<Event>)
    ensures
        e == poll_verdict_spec(*observed, target, elapsed_ms, timeout_ms),
{
    match observed {
        Err(_) => Some(Event::ConflictObserved),
        Ok(w) => {
            if w.contains(target) {
                Some(Event::EventSeen)
            } else if elapsed_ms >= timeout_ms {
                Some(Event::AwaitTimedOut)
            } else {
                None
            }
        },
    }
}

/// Every step keeps the machine well-formed; in particular the
/// current delay never leaves `[floor, ceiling)`.
pub proof fn lemma_step_preserves_wf(m: RaceScheduler, ev: Event)
    requires
        m.wf(),
    ensures
        m.step_spec(ev).wf(),
        m.schedule.floor <= m.step_spec(ev).schedule.current < m.schedule.ceiling,
{
}

/// The ramp resets exactly on a too-late probe: at the outcome check,
/// the delay drops to the floor if and only if the mount was already
/// observed confirmed — that is, `DeviceMounted` appeared before the
/// unmount was issued in this cycle. Otherwise the schedule is left
/// untouched.
pub proof fn lemma_reset_iff_mounted_early(m: RaceScheduler, w: ObservationWindow)
    requires
        m.wf(),
        m.phase == Phase::CheckOutcome,
    ensures
        m.step_spec(Event::Observed(w)).raced_late == w.device_mounted,
        m.step_spec(Event::Observed(w)).phase == Phase::ForceResync,
        w.device_mounted ==> m.step_spec(Event::Observed(w)).schedule.current
            == m.schedule.floor,
        !w.device_mounted ==> m.step_spec(Event::Observed(w)).schedule == m.schedule,
{
}

/// After a too-late probe the next cycle starts at the floor: the
/// end-of-cycle advance is suppressed. Otherwise the ramp advances by
/// one step, restarting at the floor when it would reach the ceiling.
/// This holds whether or not the final resynchronisation saw the
/// disconnect in time: its timeout is soft.
pub proof fn lemma_cycle_end(m: RaceScheduler, ev: Event)
    requires
        m.wf(),
        m.phase == Phase::HealthResync,
        ev == Event::EventSeen || ev == Event::AwaitTimedOut,
    ensures
        m.step_spec(ev).phase == Phase::Mounting,
        !m.step_spec(ev).raced_late,
        m.raced_late ==> m.step_spec(ev).schedule.current == m.schedule.floor,
        !m.raced_late ==> m.step_spec(ev).schedule == m.schedule.advanced(),
{
}

/// When no connection is observed within the bound, the cycle skips
/// straight to settling with the ceiling delay: the next sleep is the
/// ceiling, not the current candidate delay, and the candidate is
/// strictly smaller than the ceiling — the race is not attempted this
/// cycle.
pub proof fn lemma_no_connection_settles_at_ceiling(m: RaceScheduler)
    requires
        m.wf(),
        m.phase == Phase::AwaitConnect,
    ensures
        m.step_spec(Event::AwaitTimedOut).phase == Phase::SettleSleep,
        m.step_spec(Event::AwaitTimedOut).action_spec() == (Action::Sleep {
            ms: m.schedule.ceiling,
        }),
        m.schedule.current < m.schedule.ceiling,
{
}

/// The conflict marker halts the machine from any phase, and a halted
/// machine stays halted under every event, asking only to stop: once
/// the fatal condition is raised, no further mount or unmount is ever
/// requested.
pub proof fn lemma_fatal_is_final(m: RaceScheduler, ev: Event)
    requires
        m.wf(),
    ensures
        !(m.phase is Halted) ==> m.step_spec(Event::ConflictObserved).phase == Phase::Halted(
            FatalKind::Conflict,
        ),
        m.phase is Halted ==> m.step_spec(ev) == m,
        m.phase is Halted ==> m.action_spec() matches Action::Stop { .. },
{
}

} // verus!
