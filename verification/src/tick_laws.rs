//! What one tick, one speed and one configuration do to the motor controller, setting by setting.
use crate::motor_control::{
    bemf_max_for, direction_of, lemma_speed_table, speed_curve, target_for, Direction,
    MotorOutputs, MotorState, MotorView, BEMF_LUT,
};
use crate::motor_laws::{after_ticks, lemma_target_follows_speed};
use crate::outputs::{Level, OutputPin, PwmRegister};
use vstd::prelude::*;

verus! {

/// A new controller stands still: idle, to go forward, with no speed, no duty to build on and no
/// ramp bypass, and without outputs.
pub proof fn lemma_new_motor_stands_still()
    ensures
        ({
            let motor = MotorView::initial();
            &&& motor.state == MotorState::Idle
            &&& motor.direction == Direction::Forward
            &&& motor.pending_direction == Direction::Forward
            &&& motor.speed == 0
            &&& motor.bemf_max == 0
            &&& motor.bemf_target == 0
            &&& motor.bemf_setpoint == 0
            &&& motor.pot_acc == 0
            &&& motor.pi_integral == 0
            &&& !motor.ramp_bypass
            &&& motor.outputs is None
        }),
{
}

/// Each instruction sets what it is about and nothing else: the outputs are taken as they are, the
/// direction waits as the pending one, and the bypass is switched.
pub proof fn lemma_instructions_set_one_thing(
    motor: MotorView,
    fw: OutputPin,
    rv: OutputPin,
    pwm: PwmRegister,
    dir: bool,
    bypass: bool,
)
    ensures
        motor.with_outputs(fw, rv, pwm) == (MotorView {
            outputs: Some(MotorOutputs { fw, rv, pwm }),
            ..motor
        }),
        motor.with_direction(dir).pending_direction == Direction::Forward <==> dir,
        motor.with_direction(dir).pending_direction == Direction::Reverse <==> !dir,
        motor.with_direction(dir) == (MotorView {
            pending_direction: motor.with_direction(dir).pending_direction,
            ..motor
        }),
        motor.with_ramp_bypass(bypass) == (MotorView { ramp_bypass: bypass, ..motor }),
        direction_of(true) == Direction::Forward,
        direction_of(false) == Direction::Reverse,
        motor.wf() <==> 0 <= motor.pi_integral <= 2_620_416,
{
}

/// What a speed setting asks of the motor: nothing for 0, and otherwise 40 plus the share of the
/// range above 40 that the table gives to the setting, in 65535ths and rounded down. Settings
/// above 14 count as 14.
pub proof fn lemma_target_is_share_of_range(speed: u8, bemf_max: u16)
    ensures
        speed == 0 ==> target_for(speed, bemf_max) == 0,
        speed > 0 ==> ({
            let shares = seq![
                0int,
                1907,
                4101,
                6624,
                9526,
                12862,
                16699,
                21112,
                26187,
                32023,
                38734,
                46452,
                55328,
                65535,
            ];
            let share = shares[if speed <= 14 { speed - 1 } else { 13 }];
            let range = if bemf_max > 40 { bemf_max - 40 } else { 0 };
            let above = target_for(speed, bemf_max) - 40;
            above * 65535 <= share * range < above * 65535 + 65535
        }),
{
    if speed > 0 {
        let i: int = if speed <= 14 {
            speed - 1
        } else {
            13
        };
        lemma_speed_table(i as nat);
        lemma_table_entries(i);
    }
}

/// The table, entry by entry.
proof fn lemma_table_entries(i: int)
    requires
        0 <= i < 14,
    ensures
        BEMF_LUT[i] == seq![
            0int,
            1907,
            4101,
            6624,
            9526,
            12862,
            16699,
            21112,
            26187,
            32023,
            38734,
            46452,
            55328,
            65535,
        ][i],
{
    assert(BEMF_LUT[0] == 0 && BEMF_LUT[1] == 1907 && BEMF_LUT[2] == 4101 && BEMF_LUT[3] == 6624);
    assert(BEMF_LUT[4] == 9526 && BEMF_LUT[5] == 12862 && BEMF_LUT[6] == 16699);
    assert(BEMF_LUT[7] == 21112 && BEMF_LUT[8] == 26187 && BEMF_LUT[9] == 32023);
    assert(BEMF_LUT[10] == 38734 && BEMF_LUT[11] == 46452 && BEMF_LUT[12] == 55328);
    assert(BEMF_LUT[13] == 65535);
}

/// The speed curve is exponential: each of its steps is 1.15 times the one before, but for the
/// rounding of the three values.
pub proof fn lemma_speed_curve_is_exponential(i: nat)
    requires
        1 <= i <= 12,
    ensures
        ({
            let below = speed_curve(i) - speed_curve((i - 1) as nat);
            let above = speed_curve(i + 1) - speed_curve(i);
            -2150 <= 1000 * above - 1150 * below <= 2150
        }),
{
    lemma_speed_table((i - 1) as nat);
    lemma_speed_table(i);
    lemma_speed_table(i + 1);
    lemma_table_entries(i - 1);
    lemma_table_entries(i as int);
    lemma_table_entries((i + 1) as int);
}

/// A speed sets the speed and the target that belongs to it, and nothing else. A speed of 0 leaves
/// a target of 0, and any other a target of 40 or more.
pub proof fn lemma_speed_sets_target(motor: MotorView, speed: u8)
    ensures
        motor.with_speed(speed).speed == speed,
        motor.with_speed(speed).bemf_target == target_for(speed, motor.bemf_max),
        speed == 0 ==> motor.with_speed(speed).bemf_target == 0,
        speed > 0 ==> motor.with_speed(speed).bemf_target >= 40,
        motor.with_speed(speed) == (MotorView {
            speed,
            bemf_target: motor.with_speed(speed).bemf_target,
            ..motor
        }),
{
    lemma_target_follows_speed(speed, speed, motor.bemf_max, motor.bemf_max);
}

/// A configuration sets the acceleration, the full speed, and the target that the speed has with
/// it, and nothing else. The full speed lies as far above 40 as `vmax`, brought from 0..4095 to
/// 819..4095, lies in 4095 parts of 3720.
pub proof fn lemma_config_sets_range(motor: MotorView, acc: u16, vmax: u16)
    ensures
        ({
            let after = motor.with_config(acc, vmax);
            let above = after.bemf_max - 40;
            let scaled = (4 * vmax + 4095) / 5;
            &&& after.pot_acc == acc
            &&& above * 4095 <= scaled * 3720 < above * 4095 + 4095
            &&& after.bemf_max == bemf_max_for(vmax)
            &&& after.bemf_target == target_for(motor.speed, after.bemf_max)
            &&& motor.speed == 0 ==> after.bemf_target == 0
            &&& after == (MotorView {
                pot_acc: acc,
                bemf_max: after.bemf_max,
                bemf_target: after.bemf_target,
                ..motor
            })
        }),
{
    let after = motor.with_config(acc, vmax);
    lemma_target_follows_speed(motor.speed, motor.speed, after.bemf_max, after.bemf_max);
}

/// A tick leaves alone what the instructions have set, and keeps the outputs.
pub proof fn lemma_tick_keeps_settings(motor: MotorView, bemf: u16)
    ensures
        ({
            let after = motor.ticked(bemf);
            &&& after.speed == motor.speed
            &&& after.bemf_max == motor.bemf_max
            &&& after.bemf_target == motor.bemf_target
            &&& after.pot_acc == motor.pot_acc
            &&& after.pending_direction == motor.pending_direction
            &&& after.ramp_bypass == motor.ramp_bypass
            &&& motor.outputs is Some ==> after.outputs is Some
        }),
{
}

/// Unless it starts the motor, a tick moves the setpoint towards the target: by 64 with the bypass,
/// otherwise by 1 more than a 64th of the acceleration reading, and never past the target.
pub proof fn lemma_tick_moves_setpoint(motor: MotorView, bemf: u16)
    requires
        motor.state != MotorState::Idle || motor.bemf_target == 0,
    ensures
        ({
            let from = motor.bemf_setpoint as int;
            let to = motor.bemf_target as int;
            let now = motor.ticked(bemf).bemf_setpoint as int;
            let step = if motor.ramp_bypass { 64 } else { 1 + motor.pot_acc as int / 64 };
            &&& from <= to ==> from <= now <= to && (now == to || now - from == step) && now - from
                <= step
            &&& from >= to ==> to <= now <= from && (now == to || from - now == step) && from - now
                <= step
        }),
{
}

/// An idle motor with a target starts at any tick: it runs in the pending direction, with the line
/// of that direction high, a setpoint of 40 and an integral of 128000. The other line and the duty
/// stay.
pub proof fn lemma_idle_motor_starts(motor: MotorView, bemf: u16)
    requires
        motor.state == MotorState::Idle,
        motor.bemf_target > 0,
        motor.outputs is Some,
    ensures
        ({
            let after = motor.ticked(bemf);
            let was = motor.outputs->0;
            let now = after.outputs->0;
            &&& after.state == MotorState::Run
            &&& after.direction == motor.pending_direction
            &&& after.bemf_setpoint == 40
            &&& after.pi_integral == 128_000
            &&& motor.pending_direction == Direction::Forward ==> now.fw.level == Level::High
                && now.rv == was.rv
            &&& motor.pending_direction == Direction::Reverse ==> now.rv.level == Level::High
                && now.fw == was.fw
            &&& now.pwm == was.pwm
        }),
{
}

/// An idle motor without a target stays as it is, but for the setpoint.
pub proof fn lemma_idle_motor_waits(motor: MotorView, bemf: u16)
    requires
        motor.state == MotorState::Idle,
        motor.bemf_target == 0,
    ensures
        motor.ticked(bemf) == (MotorView {
            bemf_setpoint: motor.ticked(bemf).bemf_setpoint,
            ..motor
        }),
{
}

/// A running motor comes to idle exactly when the setpoint has come to 0 and the measured BEMF is
/// below 20. It then has both lines low, no duty and an empty integral.
pub proof fn lemma_running_motor_stops(motor: MotorView, bemf: u16)
    requires
        motor.state == MotorState::Run,
    ensures
        ({
            let after = motor.ticked(bemf);
            let now = after.outputs->0;
            &&& after.state == MotorState::Idle <==> after.bemf_setpoint == 0 && bemf < 20
            &&& after.state == MotorState::Idle ==> {
                &&& after.outputs is Some
                &&& now.fw.level == Level::Low
                &&& now.rv.level == Level::Low
                &&& now.pwm.value == 0
                &&& after.pi_integral == 0
            }
            &&& after.direction == motor.direction
        }),
{
}

/// A running motor that is to go the other way, and does not come to idle, brakes: no duty, an
/// empty integral, and the lines as they are. One that is to go on the way it goes never brakes.
pub proof fn lemma_turned_motor_brakes(motor: MotorView, bemf: u16)
    requires
        motor.state == MotorState::Run,
        motor.outputs is Some,
    ensures
        ({
            let after = motor.ticked(bemf);
            &&& after.state == MotorState::Brake <==> motor.pending_direction != motor.direction
                && !(after.bemf_setpoint == 0 && bemf < 20)
            &&& after.state == MotorState::Brake ==> {
                &&& after.outputs->0.pwm.value == 0
                &&& after.outputs->0.fw == motor.outputs->0.fw
                &&& after.outputs->0.rv == motor.outputs->0.rv
                &&& after.pi_integral == 0
            }
        }),
{
}

/// A running motor that goes the way it is to go, and does not come to idle, is regulated, in
/// either direction. The integral takes up 64 times the error between the new setpoint and the
/// measured BEMF, within 0 and 2559 * 1024. The duty is the error plus a 1024th of the integral,
/// rounded down, within 0 and 2559: so a motor that is too slow always has duty, and at least as
/// much as it is too slow.
pub proof fn lemma_running_motor_is_regulated(motor: MotorView, bemf: u16)
    requires
        motor.state == MotorState::Run,
        motor.outputs is Some,
        motor.pending_direction == motor.direction,
        motor.ticked(bemf).bemf_setpoint > 0 || bemf >= 20,
    ensures
        ({
            let after = motor.ticked(bemf);
            let error = after.bemf_setpoint - bemf;
            let taken_up = motor.pi_integral + 64 * error;
            let sum = 1024 * error + after.pi_integral;
            let duty = after.outputs->0.pwm.value as int;
            &&& after.state == MotorState::Run
            &&& after.direction == motor.direction
            &&& after.outputs->0.fw == motor.outputs->0.fw
            &&& after.outputs->0.rv == motor.outputs->0.rv
            &&& 0 <= after.pi_integral <= 2_620_416
            &&& 0 <= taken_up <= 2_620_416 ==> after.pi_integral == taken_up
            &&& taken_up < 0 ==> after.pi_integral == 0
            &&& taken_up > 2_620_416 ==> after.pi_integral == 2_620_416
            &&& 0 <= duty <= 2559
            &&& 0 <= sum < 2560 * 1024 ==> duty * 1024 <= sum < duty * 1024 + 1024
            &&& sum < 0 ==> duty == 0
            &&& sum >= 2560 * 1024 ==> duty == 2559
            &&& error > 0 ==> duty > 0 && (duty >= error || duty == 2559)
        }),
{
}

/// A braking motor is idle with both lines low after any tick that measures a BEMF below 20,
/// whatever its target and its direction. Until then it stays as it is, but for the setpoint. The
/// duty and the integral stay in any case.
pub proof fn lemma_braking_motor_is_released(motor: MotorView, bemf: u16)
    requires
        motor.state == MotorState::Brake,
        motor.outputs is Some,
    ensures
        ({
            let after = motor.ticked(bemf);
            &&& bemf < 20 ==> {
                &&& after.state == MotorState::Idle
                &&& after.outputs->0.fw.level == Level::Low
                &&& after.outputs->0.rv.level == Level::Low
            }
            &&& bemf >= 20 ==> after.state == MotorState::Brake && after.outputs == motor.outputs
            &&& after.outputs->0.pwm == motor.outputs->0.pwm
            &&& after.pi_integral == motor.pi_integral
            &&& after.direction == motor.direction
        }),
{
}

/// A motor that is turned under way, with a target above 0, brakes for as long as the BEMF says
/// that it turns. It is let go with both lines low at the first tick that measures below 20, and
/// runs the new way at the tick after that.
pub proof fn lemma_turned_motor_runs_the_new_way(
    motor: MotorView,
    turning: Seq<u16>,
    stopped: u16,
    next: u16,
)
    requires
        motor.state == MotorState::Run,
        motor.outputs is Some,
        motor.pending_direction != motor.direction,
        motor.bemf_target > 0,
        turning.len() > 0,
        forall|i: int| 1 <= i < turning.len() ==> turning[i] >= 20,
        stopped < 20,
    ensures
        ({
            let braking = after_ticks(motor, turning);
            let idle = braking.ticked(stopped);
            let running = idle.ticked(next);
            &&& braking.state == MotorState::Brake
            &&& braking.outputs->0.pwm.value == 0
            &&& idle.state == MotorState::Idle
            &&& idle.outputs->0.fw.level == Level::Low
            &&& idle.outputs->0.rv.level == Level::Low
            &&& idle.outputs->0.pwm.value == 0
            &&& running.state == MotorState::Run
            &&& running.direction == motor.pending_direction
            &&& running.direction != motor.direction
            &&& (running.outputs->0.fw.level == Level::High) == (motor.pending_direction
                == Direction::Forward)
            &&& (running.outputs->0.rv.level == Level::High) == (motor.pending_direction
                == Direction::Reverse)
        }),
{
    lemma_turned_motor_keeps_braking(motor, turning);
}

proof fn lemma_turned_motor_keeps_braking(motor: MotorView, turning: Seq<u16>)
    requires
        motor.state == MotorState::Run,
        motor.outputs is Some,
        motor.pending_direction != motor.direction,
        motor.bemf_target > 0,
        turning.len() > 0,
        forall|i: int| 1 <= i < turning.len() ==> turning[i] >= 20,
    ensures
        ({
            let braking = after_ticks(motor, turning);
            &&& braking.state == MotorState::Brake
            &&& braking.outputs is Some
            &&& braking.outputs->0.pwm.value == 0
            &&& braking.bemf_target == motor.bemf_target
            &&& braking.pending_direction == motor.pending_direction
        }),
    decreases turning.len(),
{
    let earlier = turning.drop_last();
    if turning.len() > 1 {
        lemma_turned_motor_keeps_braking(motor, earlier);
        assert(turning.last() >= 20);
    } else {
        assert(after_ticks(motor, earlier) == motor);
    }
}

/// The other of the two directions.
pub open spec fn opposite(direction: Direction) -> Direction {
    match direction {
        Direction::Forward => Direction::Reverse,
        Direction::Reverse => Direction::Forward,
    }
}

/// A motor with everything about the two directions exchanged: the directions and the lines.
pub open spec fn mirrored(motor: MotorView) -> MotorView {
    MotorView {
        direction: opposite(motor.direction),
        pending_direction: opposite(motor.pending_direction),
        outputs: match motor.outputs {
            Some(outputs) => Some(
                MotorOutputs { fw: outputs.rv, rv: outputs.fw, pwm: outputs.pwm },
            ),
            None => None,
        },
        ..motor
    }
}

/// The two directions are alike: what a tick does to a motor, it does to its mirror image with the
/// lines exchanged.
pub proof fn lemma_directions_are_alike(motor: MotorView, bemf: u16)
    requires
        motor.outputs is Some,
    ensures
        mirrored(motor).ticked(bemf) == mirrored(motor.ticked(bemf)),
        mirrored(mirrored(motor)) == motor,
{
}

/// Two motors that run the way they are to run, be it the same way or not, get the same duty and
/// the same integral from the same setpoint, target, ramp and measurement.
pub proof fn lemma_duty_ignores_direction(motor: MotorView, other: MotorView, bemf: u16)
    requires
        motor.state == MotorState::Run,
        other.state == MotorState::Run,
        motor.outputs is Some,
        other.outputs is Some,
        motor.pending_direction == motor.direction,
        other.pending_direction == other.direction,
        motor.bemf_setpoint == other.bemf_setpoint,
        motor.bemf_target == other.bemf_target,
        motor.pot_acc == other.pot_acc,
        motor.ramp_bypass == other.ramp_bypass,
        motor.pi_integral == other.pi_integral,
    ensures
        motor.ticked(bemf).outputs->0.pwm == other.ticked(bemf).outputs->0.pwm,
        motor.ticked(bemf).pi_integral == other.ticked(bemf).pi_integral,
        motor.ticked(bemf).state == other.ticked(bemf).state,
        motor.ticked(bemf).bemf_setpoint == other.ticked(bemf).bemf_setpoint,
{
}

} // verus!
