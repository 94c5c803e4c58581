//! What holds of the motor controller over any number of calls.
use crate::motor_control::{
    approach, bemf_max_for, lemma_speed_table, speed_curve, target_for, Direction, MotorOutputs,
    MotorState, MotorView, BEMF_LUT, BEMF_MAX, BEMF_MIN, BEMF_OFF, PI_MAX, SPEED_MAX,
};
use crate::outputs::{Level, OutputPin, PwmRegister};
use vstd::prelude::*;

verus! {

/// Anything that can be asked of an initialised motor controller.
pub enum MotorEvent {
    Tick { bemf: u16 },
    Speed { speed: u8 },
    Direction { dir: bool },
    Config { acc: u16, vmax: u16 },
    RampBypass { bypass: bool },
}

/// The controller after one event.
pub open spec fn after_event(motor: MotorView, event: MotorEvent) -> MotorView {
    match event {
        MotorEvent::Tick { bemf } => motor.ticked(bemf),
        MotorEvent::Speed { speed } => motor.with_speed(speed),
        MotorEvent::Direction { dir } => motor.with_direction(dir),
        MotorEvent::Config { acc, vmax } => motor.with_config(acc, vmax),
        MotorEvent::RampBypass { bypass } => motor.with_ramp_bypass(bypass),
    }
}

/// The controller after some events in turn.
pub open spec fn after_events(motor: MotorView, events: Seq<MotorEvent>) -> MotorView
    decreases events.len(),
{
    if events.len() == 0 {
        motor
    } else {
        after_event(after_events(motor, events.drop_last()), events.last())
    }
}

/// Only the H-bridge line of `direction` is high.
pub open spec fn drives_only(outputs: MotorOutputs, direction: Direction) -> bool {
    match direction {
        Direction::Forward => outputs.fw.level == Level::High && outputs.rv.level == Level::Low,
        Direction::Reverse => outputs.fw.level == Level::Low && outputs.rv.level == Level::High,
    }
}

/// The outputs suit the state: nothing is driven when idle, only the line of the running
/// direction is on otherwise, and there is duty only when running, within the PWM range.
pub open spec fn drive_safe(motor: MotorView) -> bool {
    &&& motor.outputs matches Some(outputs)
    &&& outputs.pwm.value <= PI_MAX
    &&& match motor.state {
        MotorState::Idle => {
            &&& outputs.fw.level == Level::Low
            &&& outputs.rv.level == Level::Low
            &&& outputs.pwm.value == 0
        },
        MotorState::Run => drives_only(outputs, motor.direction),
        MotorState::Brake => drives_only(outputs, motor.direction) && outputs.pwm.value == 0,
    }
}

/// A controller that starts with both lines low and no duty never turns both lines of the
/// H-bridge on together, whatever is asked of it and whatever is measured. It has duty only while
/// running, never above the PWM range.
pub proof fn lemma_never_shoots_through(events: Seq<MotorEvent>)
    ensures
        ({
            let low = OutputPin { level: Level::Low };
            let started = MotorView::initial().with_outputs(low, low, PwmRegister { value: 0 });
            let motor = after_events(started, events);
            &&& motor.wf()
            &&& drive_safe(motor)
            &&& !(motor.outputs->0.fw.level == Level::High && motor.outputs->0.rv.level
                == Level::High)
            &&& motor.outputs->0.pwm.value > 0 ==> motor.state == MotorState::Run
        }),
    decreases events.len(),
{
    if events.len() > 0 {
        lemma_never_shoots_through(events.drop_last());
        let low = OutputPin { level: Level::Low };
        let started = MotorView::initial().with_outputs(low, low, PwmRegister { value: 0 });
        lemma_event_keeps_drive_safe(after_events(started, events.drop_last()), events.last());
    }
}

/// No event makes a safe drive unsafe.
pub proof fn lemma_event_keeps_drive_safe(motor: MotorView, event: MotorEvent)
    requires
        motor.wf(),
        drive_safe(motor),
    ensures
        after_event(motor, event).wf(),
        drive_safe(after_event(motor, event)),
{
}

/// The motor is not reversed under way: while it runs or brakes its direction stays, it can only
/// come to idle when the measured BEMF says that it has stopped, and it cannot run again
/// straight from braking.
pub proof fn lemma_no_reversal_under_way(motor: MotorView, bemf: u16)
    ensures
        motor.state != MotorState::Idle ==> motor.ticked(bemf).direction == motor.direction,
        motor.state != MotorState::Idle && motor.ticked(bemf).state == MotorState::Idle ==> bemf
            < BEMF_OFF,
        motor.state == MotorState::Brake ==> motor.ticked(bemf).state != MotorState::Run,
        motor.state == MotorState::Idle && motor.ticked(bemf).state == MotorState::Run
            ==> motor.ticked(bemf).direction == motor.pending_direction,
{
}

/// A direction change under way takes the duty away at the very next tick.
pub proof fn lemma_direction_change_cuts_duty(motor: MotorView, dir: bool, bemf: u16)
    requires
        motor.state == MotorState::Run,
        motor.with_direction(dir).pending_direction != motor.direction,
    ensures
        motor.with_direction(dir).ticked(bemf).outputs->0.pwm.value == 0,
        motor.with_direction(dir).ticked(bemf).state != MotorState::Run,
{
}

/// The setpoint after `ticks` ramp steps towards an unchanged target.
pub open spec fn ramped_for(from: int, to: int, step: int, ticks: nat) -> int
    decreases ticks,
{
    if ticks == 0 {
        from
    } else {
        approach(ramped_for(from, to, step, (ticks - 1) as nat), to, step)
    }
}

/// The ramp does not overshoot, moves at most one step per tick, and arrives: after `ticks` steps
/// the distance to the target has shrunk by `ticks` times the step, or to nothing.
pub proof fn lemma_ramp_arrives(from: int, to: int, step: int, ticks: nat)
    requires
        step > 0,
    ensures
        from <= to ==> ramped_for(from, to, step, ticks) == (if to - from <= ticks * step {
            to
        } else {
            from + ticks * step
        }),
        from >= to ==> ramped_for(from, to, step, ticks) == (if from - to <= ticks * step {
            to
        } else {
            from - ticks * step
        }),
    decreases ticks,
{
    if ticks > 0 {
        lemma_ramp_arrives(from, to, step, (ticks - 1) as nat);
        assert(ticks * step == (ticks - 1) * step + step) by (nonlinear_arith);
        assert((ticks - 1) * step >= 0) by (nonlinear_arith)
            requires
                ticks > 0,
                step > 0,
        ;
    } else {
        assert(ticks * step == 0) by (nonlinear_arith)
            requires
                ticks == 0,
        ;
    }
}

/// A tick of a motor that keeps running moves its setpoint by one ramp step of 1 to 64 BEMF units
/// (for a potentiometer reading of at most 4095), and the bypass makes the step 64.
pub proof fn lemma_running_setpoint_ramps(motor: MotorView, bemf: u16)
    requires
        motor.state == MotorState::Run,
    ensures
        motor.ticked(bemf).bemf_setpoint == ramped_for(
            motor.bemf_setpoint as int,
            motor.bemf_target as int,
            motor.ramp_step(),
            1,
        ),
        motor.pot_acc <= 4095 ==> 1 <= motor.ramp_step() <= 64,
        motor.with_ramp_bypass(true).ramp_step() == 64,
{
    reveal_with_fuel(ramped_for, 2);
}

/// The controller after a tick for each of `bemfs` in turn.
pub open spec fn after_ticks(motor: MotorView, bemfs: Seq<u16>) -> MotorView
    decreases bemfs.len(),
{
    if bemfs.len() == 0 {
        motor
    } else {
        after_ticks(motor, bemfs.drop_last()).ticked(bemfs.last())
    }
}

/// A motor that is to stand still comes to rest: with a target of 0 it is idle as soon as the
/// setpoint has had the ticks to ramp down and the measured BEMF says that the motor has stopped.
pub proof fn lemma_comes_to_rest(motor: MotorView, bemfs: Seq<u16>)
    requires
        motor.bemf_target == 0,
        bemfs.len() > 0,
        bemfs.last() < BEMF_OFF,
        bemfs.len() * motor.ramp_step() >= motor.bemf_setpoint,
    ensures
        after_ticks(motor, bemfs).state == MotorState::Idle,
{
    lemma_ramps_down(motor, bemfs.drop_last());
    lemma_ramp_arrives(motor.bemf_setpoint as int, 0, motor.ramp_step(), bemfs.len());
}

/// A motor that was turned under way and is to stand still is only taken down: from the first tick
/// on it has no duty and does not run, neither line goes from low to high, and once idle it stays
/// idle. The same holds of one that is braking or idle without duty.
pub proof fn lemma_turned_motor_stays_down(motor: MotorView, bemfs: Seq<u16>)
    requires
        motor.bemf_target == 0,
        motor.outputs is Some,
        motor.state == MotorState::Run ==> motor.pending_direction != motor.direction,
        motor.state != MotorState::Run ==> motor.outputs->0.pwm.value == 0,
        bemfs.len() > 0,
    ensures
        ({
            let before = after_ticks(motor, bemfs.drop_last());
            let after = after_ticks(motor, bemfs);
            &&& after.outputs is Some
            &&& after.outputs->0.pwm.value == 0
            &&& after.state != MotorState::Run
            &&& after.outputs->0.fw.level == Level::High ==> before.outputs->0.fw.level
                == Level::High
            &&& after.outputs->0.rv.level == Level::High ==> before.outputs->0.rv.level
                == Level::High
            &&& before.state == MotorState::Idle ==> after.state == MotorState::Idle
            &&& after.bemf_target == 0
        }),
    decreases bemfs.len(),
{
    if bemfs.len() > 1 {
        lemma_turned_motor_stays_down(motor, bemfs.drop_last());
    } else {
        assert(after_ticks(motor, bemfs.drop_last()) == motor);
    }
}

/// A motor that is to stand still is never started, whatever it is doing and whichever way it is
/// to go: at no tick does a line go from low to high, an idle motor stays idle, and a motor that
/// runs was running the same way before, and at first.
pub proof fn lemma_no_target_starts_nothing(motor: MotorView, bemfs: Seq<u16>)
    requires
        motor.bemf_target == 0,
        motor.outputs is Some,
        bemfs.len() > 0,
    ensures
        ({
            let before = after_ticks(motor, bemfs.drop_last());
            let after = after_ticks(motor, bemfs);
            &&& after.bemf_target == 0
            &&& starts_nothing(before, after)
            &&& starts_nothing(motor, after)
        }),
    decreases bemfs.len(),
{
    if bemfs.len() > 1 {
        lemma_no_target_starts_nothing(motor, bemfs.drop_last());
    } else {
        assert(after_ticks(motor, bemfs.drop_last()) == motor);
    }
}

/// From `before` to `after` neither line has gone from low to high, an idle motor has stayed idle,
/// and a motor that runs was running the same way.
pub open spec fn starts_nothing(before: MotorView, after: MotorView) -> bool {
    &&& before.outputs is Some
    &&& after.outputs is Some
    &&& after.outputs->0.fw.level == Level::High ==> before.outputs->0.fw.level == Level::High
    &&& after.outputs->0.rv.level == Level::High ==> before.outputs->0.rv.level == Level::High
    &&& before.state == MotorState::Idle ==> after.state == MotorState::Idle
    &&& after.state == MotorState::Run ==> before.state == MotorState::Run && after.direction
        == before.direction
}

/// With a target of 0 the setpoint ramps down in every state.
proof fn lemma_ramps_down(motor: MotorView, bemfs: Seq<u16>)
    requires
        motor.bemf_target == 0,
    ensures
        after_ticks(motor, bemfs).bemf_target == 0,
        after_ticks(motor, bemfs).ramp_step() == motor.ramp_step(),
        after_ticks(motor, bemfs).bemf_setpoint == ramped_for(
            motor.bemf_setpoint as int,
            0,
            motor.ramp_step(),
            bemfs.len(),
        ),
    decreases bemfs.len(),
{
    if bemfs.len() > 0 {
        lemma_ramps_down(motor, bemfs.drop_last());
    }
}

/// The speed curve runs from 0 to 65535 and rises with every step.
pub proof fn lemma_speed_curve_rises(i: nat, j: nat)
    requires
        i <= j < BEMF_LUT.len(),
    ensures
        speed_curve(0) == 0,
        speed_curve(13) == 65535,
        speed_curve(i) <= speed_curve(j) <= 65535,
        i < j ==> speed_curve(i) < speed_curve(j),
    decreases j,
{
    lemma_speed_table(0);
    lemma_speed_table(13);
    lemma_speed_table(i);
    lemma_speed_table(j);
    if i < j {
        lemma_speed_curve_rises(i, (j - 1) as nat);
        lemma_speed_table((j - 1) as nat);
    }
}

/// A speed of 0, and no other, stands for no BEMF; a higher speed or a higher full speed never
/// means a lower target; every target of a moving loco lies between `BEMF_MIN` and the full speed;
/// the slowest setting is `BEMF_MIN`; the settings from the highest on are the full speed; and a
/// full speed below `BEMF_MIN` makes every target `BEMF_MIN`.
pub proof fn lemma_target_follows_speed(slow: u8, fast: u8, low: u16, high: u16)
    requires
        slow <= fast,
        low <= high,
    ensures
        target_for(slow, low) == 0 <==> slow == 0,
        target_for(slow, low) <= target_for(fast, low),
        target_for(slow, low) <= target_for(slow, high),
        slow > 0 && low >= BEMF_MIN ==> BEMF_MIN <= target_for(slow, low) <= low,
        target_for(1, low) == BEMF_MIN,
        slow >= SPEED_MAX && low >= BEMF_MIN ==> target_for(slow, low) == low,
        slow > 0 && low <= BEMF_MIN ==> target_for(slow, low) == BEMF_MIN,
{
    let range = if low > BEMF_MIN {
        low - BEMF_MIN
    } else {
        0
    };
    let wide = if high > BEMF_MIN {
        high - BEMF_MIN
    } else {
        0
    };
    lemma_speed_curve_rises(0, 13);
    if slow > 0 {
        let i = if slow < SPEED_MAX {
            slow - 1
        } else {
            SPEED_MAX - 1
        };
        let j = if fast < SPEED_MAX {
            fast - 1
        } else {
            SPEED_MAX - 1
        };
        lemma_speed_curve_rises(i as nat, j as nat);
        let a = speed_curve(i as nat) as int;
        let b = speed_curve(j as nat) as int;
        assert(a * range <= b * range && 0 <= a * range <= 65535 * range && a * range <= a * wide)
            by (nonlinear_arith)
            requires
                0 <= a <= b <= 65535,
                0 <= range <= wide,
        ;
    }
    assert(speed_curve(0) * range == 0) by (nonlinear_arith)
        requires
            speed_curve(0) == 0,
    ;
}

/// Readings of the speed potentiometer from 0 to 4095 give full speeds from 784, a fifth of the
/// range above `BEMF_MIN`, to `BEMF_MAX`, and a higher reading never gives a lower one.
pub proof fn lemma_full_speed_follows_potentiometer(vmax: u16, higher: u16)
    requires
        vmax <= higher <= 4095,
    ensures
        bemf_max_for(0) == BEMF_MIN + (BEMF_MAX - BEMF_MIN) / 5 == 784,
        bemf_max_for(4095) == BEMF_MAX,
        784 <= bemf_max_for(vmax) <= bemf_max_for(higher) <= BEMF_MAX,
{
}

/// The speed of the latest speed event, or `speed` if there is none.
pub open spec fn latest_speed(speed: u8, events: Seq<MotorEvent>) -> u8
    decreases events.len(),
{
    if events.len() == 0 {
        speed
    } else {
        match events.last() {
            MotorEvent::Speed { speed } => speed,
            _ => latest_speed(speed, events.drop_last()),
        }
    }
}

/// The full speed of the latest configuration event, or `bemf_max` if there is none.
pub open spec fn latest_full_speed(bemf_max: u16, events: Seq<MotorEvent>) -> int
    decreases events.len(),
{
    if events.len() == 0 {
        bemf_max as int
    } else {
        match events.last() {
            MotorEvent::Config { vmax, .. } => bemf_max_for(vmax),
            _ => latest_full_speed(bemf_max, events.drop_last()),
        }
    }
}

/// The target belongs to the speed and the full speed.
pub open spec fn target_current(motor: MotorView) -> bool {
    motor.bemf_target == target_for(motor.speed, motor.bemf_max)
}

/// The target always belongs to the latest speed and the latest configuration: that holds of a new
/// controller, with outputs or without, and no event changes it.
pub proof fn lemma_target_always_current(events: Seq<MotorEvent>, outputs: MotorOutputs)
    ensures
        target_current(after_events(MotorView::initial(), events)),
        ({
            let started = MotorView::initial().with_outputs(outputs.fw, outputs.rv, outputs.pwm);
            let motor = after_events(started, events);
            &&& target_current(motor)
            &&& motor.speed == latest_speed(0, events)
            &&& motor.bemf_max == latest_full_speed(0, events)
        }),
{
    let started = MotorView::initial().with_outputs(outputs.fw, outputs.rv, outputs.pwm);
    lemma_target_stays_current(MotorView::initial(), events);
    lemma_target_stays_current(started, events);
}

/// A target that belongs to the speed and the full speed stays so, whatever happens.
pub proof fn lemma_target_stays_current(motor: MotorView, events: Seq<MotorEvent>)
    requires
        target_current(motor),
    ensures
        target_current(after_events(motor, events)),
        after_events(motor, events).speed == latest_speed(motor.speed, events),
        after_events(motor, events).bemf_max == latest_full_speed(motor.bemf_max, events),
    decreases events.len(),
{
    if events.len() > 0 {
        lemma_target_stays_current(motor, events.drop_last());
        let after = after_events(motor, events);
        lemma_target_follows_speed(after.speed, after.speed, after.bemf_max, after.bemf_max);
    }
}

/// Speed and configuration can come in either order.
pub proof fn lemma_speed_and_config_commute(motor: MotorView, speed: u8, acc: u16, vmax: u16)
    ensures
        motor.with_speed(speed).with_config(acc, vmax) == motor.with_config(acc, vmax).with_speed(
            speed,
        ),
{
}

/// The feedback is negative: a running motor that is measured to be faster never gets more duty.
pub proof fn lemma_feedback_is_negative(motor: MotorView, slower: u16, faster: u16)
    requires
        motor.wf(),
        slower <= faster,
    ensures
        motor.regulated(faster).outputs->0.pwm.value <= motor.regulated(
            slower,
        ).outputs->0.pwm.value,
        motor.regulated(faster).pi_integral <= motor.regulated(slower).pi_integral,
{
}

} // verus!
