//! Runs of the control loop over sequences of events, and what holds of
//! every run.

use vstd::prelude::*;
use crate::control::{
    advance, elapsed, expects, pending, purge_due, target_speed, Action, ControlLoop, Event,
    LoopState, Phase, NANOS_PER_SECOND,
};

verus! {

/// The loop after a sequence of events, taken in order.
pub open spec fn run(control: ControlLoop, events: Seq<Event>) -> ControlLoop
    decreases events.len(),
{
    if events.len() == 0 {
        control
    } else {
        advance(run(control, events.drop_last()), events.last())
    }
}

/// The actions the loop hands out over a sequence of events, in order. An
/// event that the loop ignores gives none.
pub open spec fn actions(control: ControlLoop, events: Seq<Event>) -> Seq<Action>
    decreases events.len(),
{
    if events.len() == 0 {
        Seq::<Action>::empty()
    } else {
        let before = run(control, events.drop_last());
        let earlier = actions(control, events.drop_last());
        if expects(before.phase, events.last()) {
            let after = advance(before, events.last());
            earlier.push(pending(after.parameters, after.phase))
        } else {
            earlier
        }
    }
}

/// How many speed commands a sequence of actions holds.
pub open spec fn writes(actions: Seq<Action>) -> nat
    decreases actions.len(),
{
    if actions.len() == 0 {
        0
    } else {
        writes(actions.drop_last()) + if actions.last() is SetFanSpeed {
            1nat
        } else {
            0nat
        }
    }
}

/// How many holds a sequence of actions holds: one for each purge.
pub open spec fn holds(actions: Seq<Action>) -> nat
    decreases actions.len(),
{
    if actions.len() == 0 {
        0
    } else {
        holds(actions.drop_last()) + if actions.last() is Hold {
            1nat
        } else {
            0nat
        }
    }
}

/// Whether a phase is part of a purge.
pub open spec fn purging(phase: Phase) -> bool {
    phase is PurgeRaise || phase is PurgeHold || phase is PurgeLower
}

/// One more event: the run goes one step further, and the action of that
/// step, if the event was waited for, is added.
pub proof fn lemma_run_push(control: ControlLoop, events: Seq<Event>, event: Event)
    ensures
        run(control, events.push(event)) == advance(run(control, events), event),
        actions(control, events.push(event)) == if expects(run(control, events).phase, event) {
            actions(control, events).push(
                pending(
                    run(control, events.push(event)).parameters,
                    run(control, events.push(event)).phase,
                ),
            )
        } else {
            actions(control, events)
        },
{
    assert(events.push(event).drop_last() =~= events);
    assert(events.push(event).last() == event);
}

/// One more action: the counts go up by what it is.
pub proof fn lemma_count_push(earlier: Seq<Action>, action: Action)
    ensures
        writes(earlier.push(action)) == writes(earlier) + if action is SetFanSpeed {
            1nat
        } else {
            0nat
        },
        holds(earlier.push(action)) == holds(earlier) + if action is Hold {
            1nat
        } else {
            0nat
        },
{
    assert(earlier.push(action).drop_last() =~= earlier);
    assert(earlier.push(action).last() == action);
}

/// No event changes the parameters, so a loop that works with accepted
/// parameters goes on doing so.
pub proof fn lemma_run_keeps_parameters(control: ControlLoop, events: Seq<Event>)
    ensures
        run(control, events).parameters == control.parameters,
        control.wf() ==> run(control, events).wf(),
    decreases events.len(),
{
    if events.len() > 0 {
        lemma_run_keeps_parameters(control, events.drop_last());
    }
}

/// Hysteresis. Two ticks in a row, neither with a purge due, whose readings
/// give the same speed, the first command taken by the actuator if one is
/// made: the two ticks make one speed command where that speed differs from
/// the last one applied, and none where it does not. The second tick never
/// commands.
pub proof fn lemma_hysteresis(
    control: ControlLoop,
    first_tick: u64,
    first_reading: u16,
    second_tick: u64,
    second_reading: u16,
)
    requires
        control.phase is Idle,
        !purge_due(control.parameters, control.state, first_tick),
        !purge_due(control.parameters, control.state, second_tick),
        target_speed(control.parameters, first_reading) == target_speed(
            control.parameters,
            second_reading,
        ),
    ensures
        ({
            let speed = target_speed(control.parameters, first_reading);
            let events = seq![
                Event::Tick { now: first_tick },
                Event::Temperature(first_reading),
                Event::CommandDone { ok: true },
                Event::Tick { now: second_tick },
                Event::Temperature(second_reading),
            ];
            let changed = control.state.last_applied_speed != Some(speed);
            &&& writes(actions(control, events)) == if changed {
                1nat
            } else {
                0nat
            }
            &&& actions(control, events) == if changed {
                seq![
                    Action::ReadTemperature,
                    Action::SetFanSpeed(speed),
                    Action::AwaitTick,
                    Action::ReadTemperature,
                    Action::AwaitTick,
                ]
            } else {
                seq![
                    Action::ReadTemperature,
                    Action::AwaitTick,
                    Action::ReadTemperature,
                    Action::AwaitTick,
                ]
            }
            &&& run(control, events).phase is Idle
            &&& run(control, events).state.last_applied_speed == Some(speed)
            &&& run(control, events).state.last_purge_time == control.state.last_purge_time
        }),
{
    let e0 = Seq::<Event>::empty();
    let e1 = e0.push(Event::Tick { now: first_tick });
    let e2 = e1.push(Event::Temperature(first_reading));
    let e3 = e2.push(Event::CommandDone { ok: true });
    let e4 = e3.push(Event::Tick { now: second_tick });
    let e5 = e4.push(Event::Temperature(second_reading));
    lemma_run_push(control, e0, Event::Tick { now: first_tick });
    lemma_run_push(control, e1, Event::Temperature(first_reading));
    lemma_run_push(control, e2, Event::CommandDone { ok: true });
    lemma_run_push(control, e3, Event::Tick { now: second_tick });
    lemma_run_push(control, e4, Event::Temperature(second_reading));
    assert(e5 =~= seq![
        Event::Tick { now: first_tick },
        Event::Temperature(first_reading),
        Event::CommandDone { ok: true },
        Event::Tick { now: second_tick },
        Event::Temperature(second_reading),
    ]);
    let a0 = Seq::<Action>::empty();
    lemma_count_push(a0, Action::ReadTemperature);
    let speed = target_speed(control.parameters, first_reading);
    if control.state.last_applied_speed != Some(speed) {
        let a1 = a0.push(Action::ReadTemperature);
        let a2 = a1.push(Action::SetFanSpeed(speed));
        let a3 = a2.push(Action::AwaitTick);
        let a4 = a3.push(Action::ReadTemperature);
        let a5 = a4.push(Action::AwaitTick);
        lemma_count_push(a1, Action::SetFanSpeed(speed));
        lemma_count_push(a2, Action::AwaitTick);
        lemma_count_push(a3, Action::ReadTemperature);
        lemma_count_push(a4, Action::AwaitTick);
        assert(a5 =~= seq![
            Action::ReadTemperature,
            Action::SetFanSpeed(speed),
            Action::AwaitTick,
            Action::ReadTemperature,
            Action::AwaitTick,
        ]);
    } else {
        let a1 = a0.push(Action::ReadTemperature);
        let a2 = a1.push(Action::AwaitTick);
        let a3 = a2.push(Action::ReadTemperature);
        let a4 = a3.push(Action::AwaitTick);
        lemma_count_push(a1, Action::AwaitTick);
        lemma_count_push(a2, Action::ReadTemperature);
        lemma_count_push(a3, Action::AwaitTick);
        assert(a4 =~= seq![
            Action::ReadTemperature,
            Action::AwaitTick,
            Action::ReadTemperature,
            Action::AwaitTick,
        ]);
    }
}

/// A command that the actuator refuses is not remembered: where the next
/// tick computes the same speed again, it commands it again.
pub proof fn lemma_retry_after_failure(
    control: ControlLoop,
    first_reading: u16,
    second_tick: u64,
    second_reading: u16,
)
    requires
        control.phase is Sampling,
        !purge_due(control.parameters, control.state, second_tick),
        target_speed(control.parameters, first_reading) == target_speed(
            control.parameters,
            second_reading,
        ),
        control.state.last_applied_speed != Some(
            target_speed(control.parameters, first_reading)
        ),
    ensures
        ({
            let speed = target_speed(control.parameters, first_reading);
            let events = seq![
                Event::Temperature(first_reading),
                Event::CommandDone { ok: false },
                Event::Tick { now: second_tick },
                Event::Temperature(second_reading),
            ];
            &&& actions(control, events) == seq![
                Action::SetFanSpeed(speed),
                Action::AwaitTick,
                Action::ReadTemperature,
                Action::SetFanSpeed(speed),
            ]
            &&& run(control, events).state == control.state
        }),
{
    let e0 = Seq::<Event>::empty();
    let e1 = e0.push(Event::Temperature(first_reading));
    let e2 = e1.push(Event::CommandDone { ok: false });
    let e3 = e2.push(Event::Tick { now: second_tick });
    lemma_run_push(control, e0, Event::Temperature(first_reading));
    lemma_run_push(control, e1, Event::CommandDone { ok: false });
    lemma_run_push(control, e2, Event::Tick { now: second_tick });
    lemma_run_push(control, e3, Event::Temperature(second_reading));
    let speed = target_speed(control.parameters, first_reading);
    assert(e3.push(Event::Temperature(second_reading)) =~= seq![
        Event::Temperature(first_reading),
        Event::CommandDone { ok: false },
        Event::Tick { now: second_tick },
        Event::Temperature(second_reading),
    ]);
    assert(Seq::<Action>::empty().push(Action::SetFanSpeed(speed)).push(Action::AwaitTick).push(
        Action::ReadTemperature,
    ).push(Action::SetFanSpeed(speed)) =~= seq![
        Action::SetFanSpeed(speed),
        Action::AwaitTick,
        Action::ReadTemperature,
        Action::SetFanSpeed(speed),
    ]);
}

/// A failed reading ends the tick with nothing commanded and nothing
/// changed in what the loop remembers.
pub proof fn lemma_sensor_failure_skips(control: ControlLoop)
    requires
        control.phase is Sampling,
    ensures
        advance(control, Event::SensorFailed).state == control.state,
        advance(control, Event::SensorFailed).phase is Idle,
        pending(control.parameters, advance(control, Event::SensorFailed).phase)
            == Action::AwaitTick,
{
}

/// With purging switched off no purge ever begins, whatever the clock says:
/// from outside a purge, no run enters one, hands out a hold, or moves the
/// purge clock.
pub proof fn lemma_purge_disabled(control: ControlLoop, events: Seq<Event>)
    requires
        control.parameters.clear_air_interval == 0,
        !purging(control.phase),
    ensures
        !purging(run(control, events).phase),
        run(control, events).state.last_purge_time == control.state.last_purge_time,
        holds(actions(control, events)) == 0,
        forall|i: int|
            0 <= i < actions(control, events).len() ==> !(#[trigger] actions(control, events)[i]
                is Hold),
    decreases events.len(),
{
    if events.len() > 0 {
        let shorter = events.drop_last();
        lemma_purge_disabled(control, shorter);
        lemma_run_keeps_parameters(control, shorter);
        let before = run(control, shorter);
        if expects(before.phase, events.last()) {
            let after = advance(before, events.last());
            lemma_count_push(actions(control, shorter), pending(after.parameters, after.phase));
        }
    }
}

/// A purge that is due runs whole before the next sample. The tick records
/// its time and raises the fan to full speed; whether or not that command
/// succeeds, the hold follows, the fan is lowered to zero, and, again
/// whatever came of that command, the reading is asked for. The speed last
/// applied is not touched.
pub proof fn lemma_purge_cycle(control: ControlLoop, now: u64, raised: bool, lowered: bool)
    requires
        control.phase is Idle,
        purge_due(control.parameters, control.state, now),
    ensures
        ({
            let events = seq![
                Event::Tick { now },
                Event::CommandDone { ok: raised },
                Event::HoldDone,
                Event::CommandDone { ok: lowered },
            ];
            &&& actions(control, events) == seq![
                Action::SetFanSpeed(control.parameters.max_fan_speed),
                Action::Hold { seconds: control.parameters.clear_air_duration },
                Action::SetFanSpeed(0),
                Action::ReadTemperature,
            ]
            &&& holds(actions(control, events)) == 1
            &&& run(control, events).phase is Sampling
            &&& run(control, events).state == (LoopState {
                last_applied_speed: control.state.last_applied_speed,
                last_purge_time: now,
            })
            &&& run(control, events).parameters == control.parameters
        }),
{
    let e0 = Seq::<Event>::empty();
    let e1 = e0.push(Event::Tick { now });
    let e2 = e1.push(Event::CommandDone { ok: raised });
    let e3 = e2.push(Event::HoldDone);
    lemma_run_push(control, e0, Event::Tick { now });
    lemma_run_push(control, e1, Event::CommandDone { ok: raised });
    lemma_run_push(control, e2, Event::HoldDone);
    lemma_run_push(control, e3, Event::CommandDone { ok: lowered });
    let a0 = Seq::<Action>::empty();
    let a1 = a0.push(Action::SetFanSpeed(control.parameters.max_fan_speed));
    let a2 = a1.push(Action::Hold { seconds: control.parameters.clear_air_duration });
    let a3 = a2.push(Action::SetFanSpeed(0));
    lemma_count_push(a0, Action::SetFanSpeed(control.parameters.max_fan_speed));
    lemma_count_push(a1, Action::Hold { seconds: control.parameters.clear_air_duration });
    lemma_count_push(a2, Action::SetFanSpeed(0));
    lemma_count_push(a3, Action::ReadTemperature);
    assert(e3.push(Event::CommandDone { ok: lowered }) =~= seq![
        Event::Tick { now },
        Event::CommandDone { ok: raised },
        Event::HoldDone,
        Event::CommandDone { ok: lowered },
    ]);
    assert(a3.push(Action::ReadTemperature) =~= seq![
        Action::SetFanSpeed(control.parameters.max_fan_speed),
        Action::Hold { seconds: control.parameters.clear_air_duration },
        Action::SetFanSpeed(0),
        Action::ReadTemperature,
    ]);
}

/// Once a purge has begun at `now`, none is due again before
/// `clear_air_interval` seconds have gone by.
pub proof fn lemma_purge_not_repeated(control: ControlLoop, now: u64, later: u64)
    requires
        control.phase is Idle,
        purge_due(control.parameters, control.state, now),
        elapsed(later, now) < control.parameters.clear_air_interval * NANOS_PER_SECOND,
    ensures
        !purge_due(control.parameters, advance(control, Event::Tick { now }).state, later),
{
}

} // verus!
