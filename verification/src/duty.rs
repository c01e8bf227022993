//! Duty-cycle orchestrator.
//!
//! One wake cycle runs: read the sensor once (best effort), wait for
//! link-layer attachment with a bounded poll loop, wait for an address the
//! same way, attempt one telemetry transmission, set the stop signals for the
//! background tasks, sit out a non-suspending grace period, and enter the
//! low-power transition. The sequencing decisions live here as a state
//! machine over plain events; the surrounding program performs each returned
//! action and reports what happened.

use vstd::prelude::*;
use crate::sensor::Reading;
use crate::sensor::SensorError;

verus! {

/// Poll ceiling while waiting for link-layer attachment.
pub const LINK_POLL_LIMIT: u32 = 60;

/// Poll ceiling while waiting for an address assignment.
pub const ADDRESS_POLL_LIMIT: u32 = 120;

/// Pause between attachment and address polls, in milliseconds.
pub const POLL_PAUSE_MILLIS: u64 = 500;

/// Non-suspending grace period between the stop signals and the low-power
/// transition, in milliseconds.
pub const GRACE_MILLIS: u64 = 1500;

/// Timer wake interval for the low-power transition, in seconds.
pub const WAKE_SECONDS: u64 = 5;

/// The reading sent when the sensor read failed: the cycle proceeds with
/// degraded data rather than aborting.
pub open spec fn placeholder_reading() -> Reading {
    Reading { humidity: 8, temperature: 8 }
}

/// Where the wake cycle stands.
#[derive(Debug, Clone, Copy, PartialEq, Eq, Structural)]
pub enum DutyPhase {
    /// Reading the sensor, before the background tasks are spawned.
    SensorRead,
    /// Polling for link-layer attachment; `polls` completed so far.
    LinkWait { polls: u32 },
    /// Polling for an address assignment; `polls` completed so far.
    AddressWait { polls: u32 },
    /// Attempting the one telemetry transmission.
    Transmit,
    /// Stop signals are set; the grace period is running.
    GraceWait,
    /// Entering the low-power transition. Terminal.
    Sleep,
}

/// One outcome the surrounding program reports back.
#[derive(Debug, Clone, Copy)]
pub enum DutyEvent {
    /// The single sensor attempt resolved.
    SensorDone(Result<Reading, SensorError>),
    /// One attachment poll: whether the link is up.
    LinkPolled(bool),
    /// One address poll: whether an address is assigned.
    AddressPolled(bool),
    /// The transmission attempt finished; failure is absorbed, not fatal.
    TransmitDone(bool),
    /// The grace period elapsed.
    GraceElapsed,
}

/// What the surrounding program must do next.
#[derive(Debug, Clone, Copy, PartialEq, Eq, Structural)]
pub enum DutyAction {
    /// Run the single-attempt sensor read.
    ReadSensor,
    /// Pause, then ask the network stack whether the link is up.
    PollLink { pause_millis: u64 },
    /// Pause, then ask the network stack whether an address is assigned.
    PollAddress { pause_millis: u64 },
    /// Attempt the telemetry transmission with the cycle's reading; skip the
    /// wire work when no address was obtained, and report the outcome.
    SendTelemetry,
    /// Set every stop signal, then hold a non-suspending pause.
    SetStopSignals { grace_millis: u64 },
    /// Enter the low-power transition; it does not return.
    EnterDeepSleep { wake_seconds: u64 },
}

/// The orchestrator's state across one wake cycle.
#[derive(Debug, Clone, Copy, PartialEq, Eq, Structural)]
pub struct DutyCycle {
    pub phase: DutyPhase,
    /// The reading to send: the placeholder until a successful sensor read
    /// replaces it.
    pub reading: Reading,
    /// Whether link-layer attachment was observed.
    pub link_up: bool,
    /// Whether an address assignment was observed.
    pub have_address: bool,
    /// Whether the stop signals have been set.
    pub stop_signalled: bool,
}

/// A cycle at its start, about to read the sensor.
pub open spec fn duty_init() -> DutyCycle {
    DutyCycle {
        phase: DutyPhase::SensorRead,
        reading: placeholder_reading(),
        link_up: false,
        have_address: false,
        stop_signalled: false,
    }
}

/// The action a phase is waiting on.
pub open spec fn duty_awaited(phase: DutyPhase) -> DutyAction {
    match phase {
        DutyPhase::SensorRead => DutyAction::ReadSensor,
        DutyPhase::LinkWait { .. } => DutyAction::PollLink { pause_millis: POLL_PAUSE_MILLIS },
        DutyPhase::AddressWait { .. } => DutyAction::PollAddress {
            pause_millis: POLL_PAUSE_MILLIS,
        },
        DutyPhase::Transmit => DutyAction::SendTelemetry,
        DutyPhase::GraceWait => DutyAction::SetStopSignals { grace_millis: GRACE_MILLIS },
        DutyPhase::Sleep => DutyAction::EnterDeepSleep { wake_seconds: WAKE_SECONDS },
    }
}

/// The cycle after one event. A failed sensor read keeps the placeholder;
/// both wait loops move on when their poll succeeds or their ceiling is
/// reached; the transmission's outcome, success or failure, leads to the stop
/// signals; events a phase is not waiting on change nothing.
pub open spec fn duty_next(d: DutyCycle, ev: DutyEvent) -> DutyCycle {
    match ev {
        DutyEvent::SensorDone(outcome) => if d.phase is SensorRead {
            DutyCycle {
                phase: DutyPhase::LinkWait { polls: 0 },
                reading: match outcome {
                    Ok(m) => m,
                    Err(_) => placeholder_reading(),
                },
                ..d
            }
        } else {
            d
        },
        DutyEvent::LinkPolled(up) => match d.phase {
            DutyPhase::LinkWait { polls } => {
                if up {
                    DutyCycle { phase: DutyPhase::AddressWait { polls: 0 }, link_up: true, ..d }
                } else if polls >= LINK_POLL_LIMIT {
                    DutyCycle { phase: DutyPhase::AddressWait { polls: 0 }, ..d }
                } else {
                    DutyCycle { phase: DutyPhase::LinkWait { polls: (polls + 1) as u32 }, ..d }
                }
            },
            _ => d,
        },
        DutyEvent::AddressPolled(have) => match d.phase {
            DutyPhase::AddressWait { polls } => {
                if have {
                    DutyCycle { phase: DutyPhase::Transmit, have_address: true, ..d }
                } else if polls >= ADDRESS_POLL_LIMIT {
                    DutyCycle { phase: DutyPhase::Transmit, ..d }
                } else {
                    DutyCycle { phase: DutyPhase::AddressWait { polls: (polls + 1) as u32 }, ..d }
                }
            },
            _ => d,
        },
        DutyEvent::TransmitDone(_) => if d.phase is Transmit {
            DutyCycle { phase: DutyPhase::GraceWait, stop_signalled: true, ..d }
        } else {
            d
        },
        DutyEvent::GraceElapsed => if d.phase is GraceWait {
            DutyCycle { phase: DutyPhase::Sleep, ..d }
        } else {
            d
        },
    }
}

/// Well-formedness across a cycle: the poll counters respect their ceilings,
/// and once the grace period has begun the stop signals are set — so the
/// low-power transition can only ever follow the stop signals.
pub open spec fn duty_wf(d: DutyCycle) -> bool {
    &&& match d.phase {
        DutyPhase::LinkWait { polls } => polls <= LINK_POLL_LIMIT,
        DutyPhase::AddressWait { polls } => polls <= ADDRESS_POLL_LIMIT,
        _ => true,
    }
    &&& (d.phase is GraceWait || d.phase is Sleep) ==> d.stop_signalled
}

impl DutyCycle {
    /// Starts one wake cycle; the first action is the sensor read.
    pub fn new() -> (d: Self)
        ensures
            d == duty_init(),
            duty_wf(d),
    {
        DutyCycle {
            phase: DutyPhase::SensorRead,
            reading: Reading { humidity: 8, temperature: 8 },
            link_up: false,
            have_address: false,
            stop_signalled: false,
        }
    }

    /// Feeds one reported outcome through the cycle and returns the next
    /// action to perform.
    pub fn step(&mut self, ev: DutyEvent) -> (a: DutyAction)
        ensures
            *final(self) == duty_next(*old(self), ev),
            a == duty_awaited(duty_next(*old(self), ev).phase),
            duty_wf(*old(self)) ==> duty_wf(*final(self)),
    {
        match ev {
            DutyEvent::SensorDone(outcome) => {
                if matches!(self.phase, DutyPhase::SensorRead) {
                    self.phase = DutyPhase::LinkWait { polls: 0 };
                    self.reading = match outcome {
                        Ok(m) => m,
                        Err(_) => Reading { humidity: 8, temperature: 8 },
                    };
                }
            },
            DutyEvent::LinkPolled(up) => {
                if let DutyPhase::LinkWait { polls } = self.phase {
                    if up {
                        self.phase = DutyPhase::AddressWait { polls: 0 };
                        self.link_up = true;
                    } else if polls >= LINK_POLL_LIMIT {
                        self.phase = DutyPhase::AddressWait { polls: 0 };
                    } else {
                        self.phase = DutyPhase::LinkWait { polls: polls + 1 };
                    }
                }
            },
            DutyEvent::AddressPolled(have) => {
                if let DutyPhase::AddressWait { polls } = self.phase {
                    if have {
                        self.phase = DutyPhase::Transmit;
                        self.have_address = true;
                    } else if polls >= ADDRESS_POLL_LIMIT {
                        self.phase = DutyPhase::Transmit;
                    } else {
                        self.phase = DutyPhase::AddressWait { polls: polls + 1 };
                    }
                }
            },
            DutyEvent::TransmitDone(_) => {
                if matches!(self.phase, DutyPhase::Transmit) {
                    self.phase = DutyPhase::GraceWait;
                    self.stop_signalled = true;
                }
            },
            DutyEvent::GraceElapsed => {
                if matches!(self.phase, DutyPhase::GraceWait) {
                    self.phase = DutyPhase::Sleep;
                }
            },
        }
        self.awaited()
    }

    /// The action the current phase waits on, as executable code.
    fn awaited(&self) -> (a: DutyAction)
        ensures
            a == duty_awaited(self.phase),
    {
        match self.phase {
            DutyPhase::SensorRead => DutyAction::ReadSensor,
            DutyPhase::LinkWait { .. } => DutyAction::PollLink {
                pause_millis: POLL_PAUSE_MILLIS,
            },
            DutyPhase::AddressWait { .. } => DutyAction::PollAddress {
                pause_millis: POLL_PAUSE_MILLIS,
            },
            DutyPhase::Transmit => DutyAction::SendTelemetry,
            DutyPhase::GraceWait => DutyAction::SetStopSignals { grace_millis: GRACE_MILLIS },
            DutyPhase::Sleep => DutyAction::EnterDeepSleep { wake_seconds: WAKE_SECONDS },
        }
    }
}

/// A failed sensor read degrades to the placeholder reading, a successful one
/// is carried as-is; either way the cycle proceeds.
pub proof fn lemma_sensor_failure_degrades(d: DutyCycle, outcome: Result<Reading, SensorError>)
    requires
        d.phase is SensorRead,
    ensures
        duty_next(d, DutyEvent::SensorDone(outcome)).phase is LinkWait,
        outcome matches Ok(m) ==> duty_next(d, DutyEvent::SensorDone(outcome)).reading == m,
        outcome is Err ==> duty_next(d, DutyEvent::SensorDone(outcome)).reading
            == placeholder_reading(),
{
}

/// The low-power transition is sequenced strictly after the stop signals: a
/// well-formed cycle reaches the sleep phase only with the signals set, and
/// the only way into the grace period sets them.
pub proof fn lemma_sleep_only_after_stop(d: DutyCycle, ev: DutyEvent)
    requires
        duty_wf(d),
    ensures
        duty_wf(duty_next(d, ev)),
        duty_next(d, ev).phase is Sleep ==> duty_next(d, ev).stop_signalled,
        duty_next(d, ev).phase is GraceWait ==> duty_next(d, ev).stop_signalled,
{
}

} // verus!
