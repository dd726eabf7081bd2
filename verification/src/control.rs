//! The periodic control loop as a state machine.
//!
//! The machine decides; a driver acts. The driver performs the action the
//! machine is waiting for (wait for the timer, command the fan, hold, read
//! the sensor) and reports the outcome as an event. One tick runs, in this
//! order: a clear-air purge where one is due, a temperature sample, and a
//! speed command where the computed speed differs from the last one applied.
//!
//! Time is a reading of a monotonic clock in nanoseconds.

use vstd::prelude::*;
use crate::args::Auto;
use crate::curve::{calc_speed, curve, lemma_curve_bounded};
use crate::validate::{accepted, normalized, validate};

verus! {

/// Clock units per second.
pub const NANOS_PER_SECOND: u64 = 1_000_000_000;

/// What the loop remembers from tick to tick.
#[derive(Clone, Copy, Debug, PartialEq, Eq)]
pub struct LoopState {
    /// The speed of the last regular command that succeeded; `None` until
    /// one has.
    pub last_applied_speed: Option<u16>,
    /// The clock, in nanoseconds, when the last purge began, or when the
    /// loop started if none has.
    pub last_purge_time: u64,
}

/// Where the loop stands within a tick.
#[derive(Clone, Copy, Debug, PartialEq, Eq)]
pub enum Phase {
    /// Between ticks, waiting for the timer.
    Idle,
    /// A purge has begun: the command to full speed is out.
    PurgeRaise,
    /// A purge holds full speed.
    PurgeHold,
    /// A purge ends: the command back to zero is out.
    PurgeLower,
    /// A temperature reading is awaited.
    Sampling,
    /// The command to a newly computed speed is out.
    Applying {
        /// The speed commanded.
        speed: u16,
    },
}

/// What the driver reports.
#[derive(Clone, Copy, Debug, PartialEq, Eq)]
pub enum Event {
    /// The timer fired.
    Tick {
        /// The clock at the tick, in nanoseconds.
        now: u64,
    },
    /// A speed command came back.
    CommandDone {
        /// Whether the actuator took it.
        ok: bool,
    },
    /// The hold of a purge is over.
    HoldDone,
    /// The sensor gave a reading, in whole degrees.
    Temperature(u16),
    /// The sensor gave no reading.
    SensorFailed,
}

/// What the driver is to do next.
#[derive(Clone, Copy, Debug, PartialEq, Eq)]
pub enum Action {
    /// Wait for the next tick of the timer.
    AwaitTick,
    /// Command the fan to this speed.
    SetFanSpeed(u16),
    /// Do nothing for this long.
    Hold {
        /// Length of the hold.
        seconds: u64,
    },
    /// Read the temperature.
    ReadTemperature,
}

/// An event that the phase does not wait for. The machine ignores it.
#[derive(Clone, Copy, Debug, PartialEq, Eq)]
pub struct UnexpectedEvent {
    /// The phase the machine was in, and stays in.
    pub phase: Phase,
    /// The event reported.
    pub event: Event,
}

/// The control loop: its parameters, its memory and its phase.
#[derive(Clone, Copy, Debug, PartialEq, Eq)]
pub struct ControlLoop {
    /// The parameters the loop works with.
    pub parameters: Auto,
    /// What the loop remembers.
    pub state: LoopState,
    /// Where the loop stands.
    pub phase: Phase,
}

/// Clock units gone by from `since` to `now`; none if the clock reads
/// earlier than `since`.
pub open spec fn elapsed(now: u64, since: u64) -> nat {
    if now >= since {
        (now - since) as nat
    } else {
        0
    }
}

/// Whether a purge is due at `now`: purging is on and at least
/// `clear_air_interval` seconds have gone by since the last one.
pub open spec fn purge_due(parameters: Auto, state: LoopState, now: u64) -> bool {
    parameters.clear_air_interval > 0 && elapsed(now, state.last_purge_time)
        >= parameters.clear_air_interval * NANOS_PER_SECOND
}

/// The speed the parameters give a temperature reading: the curve's value,
/// which never exceeds `max_fan_speed` and so fits the machine integer.
pub open spec fn target_speed(parameters: Auto, temperature: u16) -> u16 {
    curve(
        temperature as nat,
        parameters.target_temperature as nat,
        parameters.threshold as nat,
        parameters.max_fan_speed as nat,
    ) as u16
}

/// `target_speed` is the curve's value itself: the conversion to a machine
/// integer loses nothing.
pub proof fn lemma_target_speed_exact(parameters: Auto, temperature: u16)
    ensures
        target_speed(parameters, temperature) as nat == curve(
            temperature as nat,
            parameters.target_temperature as nat,
            parameters.threshold as nat,
            parameters.max_fan_speed as nat,
        ),
        target_speed(parameters, temperature) <= parameters.max_fan_speed,
{
    lemma_curve_bounded(
        temperature as nat,
        parameters.target_temperature as nat,
        parameters.threshold as nat,
        parameters.max_fan_speed as nat,
    );
}

/// Whether a phase waits for an event.
pub open spec fn expects(phase: Phase, event: Event) -> bool {
    match phase {
        Phase::Idle => event is Tick,
        Phase::PurgeRaise | Phase::PurgeLower | Phase::Applying { .. } => event is CommandDone,
        Phase::PurgeHold => event is HoldDone,
        Phase::Sampling => event is Temperature || event is SensorFailed,
    }
}

/// The action a phase waits on.
pub open spec fn pending(parameters: Auto, phase: Phase) -> Action {
    match phase {
        Phase::Idle => Action::AwaitTick,
        Phase::PurgeRaise => Action::SetFanSpeed(parameters.max_fan_speed),
        Phase::PurgeHold => Action::Hold { seconds: parameters.clear_air_duration },
        Phase::PurgeLower => Action::SetFanSpeed(0),
        Phase::Sampling => Action::ReadTemperature,
        Phase::Applying { speed } => Action::SetFanSpeed(speed),
    }
}

/// The loop after an event. An event the phase does not wait for changes
/// nothing.
///
/// - A tick begins a purge where one is due, and records its time; else it
///   goes on to sample.
/// - A purge raises the fan, holds, lowers the fan and goes on to sample,
///   whether or not its commands succeed.
/// - A reading whose speed differs from the last one applied is commanded;
///   one whose speed is the same ends the tick, as does a failed reading.
/// - A command that succeeded is remembered; one that failed is not, so the
///   next tick tries again.
pub open spec fn advance(control: ControlLoop, event: Event) -> ControlLoop {
    match (control.phase, event) {
        (Phase::Idle, Event::Tick { now }) => {
            if purge_due(control.parameters, control.state, now) {
                ControlLoop {
                    state: LoopState { last_purge_time: now, ..control.state },
                    phase: Phase::PurgeRaise,
                    ..control
                }
            } else {
                ControlLoop { phase: Phase::Sampling, ..control }
            }
        },
        (Phase::PurgeRaise, Event::CommandDone { .. }) => ControlLoop {
            phase: Phase::PurgeHold,
            ..control
        },
        (Phase::PurgeHold, Event::HoldDone) => ControlLoop { phase: Phase::PurgeLower, ..control },
        (Phase::PurgeLower, Event::CommandDone { .. }) => ControlLoop {
            phase: Phase::Sampling,
            ..control
        },
        (Phase::Sampling, Event::Temperature(temperature)) => {
            let speed = target_speed(control.parameters, temperature);
            if control.state.last_applied_speed == Some(speed) {
                ControlLoop { phase: Phase::Idle, ..control }
            } else {
                ControlLoop { phase: Phase::Applying { speed }, ..control }
            }
        },
        (Phase::Sampling, Event::SensorFailed) => ControlLoop { phase: Phase::Idle, ..control },
        (Phase::Applying { speed }, Event::CommandDone { ok }) => {
            if ok {
                ControlLoop {
                    state: LoopState { last_applied_speed: Some(speed), ..control.state },
                    phase: Phase::Idle,
                    ..control
                }
            } else {
                ControlLoop { phase: Phase::Idle, ..control }
            }
        },
        _ => control,
    }
}

impl ControlLoop {
    /// Whether the loop works with accepted parameters.
    pub open spec fn wf(self) -> bool {
        accepted(self.parameters)
    }

    /// A loop that starts at `now`: idle, with no speed applied yet and the
    /// purge clock started. Interval and threshold are normalised.
    pub fn new(parameters: Auto, now: u64) -> (control: ControlLoop)
        ensures
            control.parameters == normalized(parameters),
            control.state == (LoopState { last_applied_speed: None, last_purge_time: now }),
            control.phase == Phase::Idle,
            control.wf(),
    {
        ControlLoop {
            parameters: validate(parameters).parameters,
            state: LoopState { last_applied_speed: None, last_purge_time: now },
            phase: Phase::Idle,
        }
    }

    /// Whether a purge is due at `now`.
    pub fn purge_is_due(&self, now: u64) -> (due: bool)
        ensures
            due == purge_due(self.parameters, self.state, now),
    {
        if self.parameters.clear_air_interval == 0 {
            false
        } else {
            let gone: u64 = if now >= self.state.last_purge_time {
                now - self.state.last_purge_time
            } else {
                0
            };
            gone / NANOS_PER_SECOND >= self.parameters.clear_air_interval
        }
    }

    /// The action the loop is waiting on.
    pub fn pending_action(&self) -> (action: Action)
        ensures
            action == pending(self.parameters, self.phase),
    {
        match self.phase {
            Phase::Idle => Action::AwaitTick,
            Phase::PurgeRaise => Action::SetFanSpeed(self.parameters.max_fan_speed),
            Phase::PurgeHold => Action::Hold { seconds: self.parameters.clear_air_duration },
            Phase::PurgeLower => Action::SetFanSpeed(0),
            Phase::Sampling => Action::ReadTemperature,
            Phase::Applying { speed } => Action::SetFanSpeed(speed),
        }
    }

    /// Takes an event and says what to do next.
    ///
    /// An event the phase waits for moves the loop on as `advance` says, and
    /// the result is the action the new phase waits on. Any other event is
    /// handed back in the error and the loop stays as it was.
    pub fn step(&mut self, event: Event) -> (outcome: Result<Action, UnexpectedEvent>)
        ensures
            *final(self) == advance(*old(self), event),
            expects(old(self).phase, event) ==> outcome == Ok::<Action, UnexpectedEvent>(
                pending(final(self).parameters, final(self).phase),
            ),
            !expects(old(self).phase, event) ==> outcome == Err::<Action, UnexpectedEvent>(
                UnexpectedEvent { phase: old(self).phase, event },
            ) && *final(self) == *old(self),
            final(self).parameters == old(self).parameters,
            final(self).wf() == old(self).wf(),
    {
        match (self.phase, event) {
            (Phase::Idle, Event::Tick { now }) => {
                if self.purge_is_due(now) {
                    self.state.last_purge_time = now;
                    self.phase = Phase::PurgeRaise;
                } else {
                    self.phase = Phase::Sampling;
                }
            },
            (Phase::PurgeRaise, Event::CommandDone { .. }) => {
                self.phase = Phase::PurgeHold;
            },
            (Phase::PurgeHold, Event::HoldDone) => {
                self.phase = Phase::PurgeLower;
            },
            (Phase::PurgeLower, Event::CommandDone { .. }) => {
                self.phase = Phase::Sampling;
            },
            (Phase::Sampling, Event::Temperature(temperature)) => {
                let speed: u16 = calc_speed(
                    temperature,
                    self.parameters.target_temperature,
                    self.parameters.threshold,
                    self.parameters.max_fan_speed,
                );
                let unchanged: bool = match self.state.last_applied_speed {
                    Some(last) => last == speed,
                    None => false,
                };
                if unchanged {
                    self.phase = Phase::Idle;
                } else {
                    self.phase = Phase::Applying { speed };
                }
            },
            (Phase::Sampling, Event::SensorFailed) => {
                self.phase = Phase::Idle;
            },
            (Phase::Applying { speed }, Event::CommandDone { ok }) => {
                if ok {
                    self.state.last_applied_speed = Some(speed);
                }
                self.phase = Phase::Idle;
            },
            (phase, _) => {
                return Err(UnexpectedEvent { phase, event });
            },
        }
        Ok(self.pending_action())
    }
}

} // verus!
