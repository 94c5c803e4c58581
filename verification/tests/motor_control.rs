use c92_decoder::bemf::N_SAMPLE;
use c92_decoder::motor_control::{
    Direction, MotorControl, MotorOutputs, BEMF_LUT, BEMF_MAX, BEMF_MIN, PI_MAX,
};
use c92_decoder::outputs::{Level, OutputPin, PwmRegister};

fn ready() -> MotorControl {
    let mut motor = MotorControl::new();
    motor.init(OutputPin::new(Level::Low), OutputPin::new(Level::Low), PwmRegister::new(0));
    motor
}

fn outputs(motor: &MotorControl) -> (Level, Level, u32) {
    let outputs: MotorOutputs = motor.outputs().unwrap();
    (outputs.fw.level, outputs.rv.level, outputs.pwm.value)
}

#[test]
fn direction_bit() {
    assert_eq!(Direction::from(true), Direction::Forward);
    assert_eq!(Direction::from(false), Direction::Reverse);
}

#[test]
fn outputs_are_unknown_before_init() {
    assert!(MotorControl::new().outputs().is_none());
    assert_eq!(outputs(&ready()), (Level::Low, Level::Low, 0));
}

#[test]
fn speed_table_is_the_exponential_curve() {
    let mut raw = [1_000_000u64; 14];
    for i in 1..14 {
        raw[i] = raw[i - 1] * 1150 / 1000;
    }
    for i in 0..14 {
        let scaled = (raw[i] - raw[0]) * 65535 / (raw[13] - raw[0]);
        assert_eq!(BEMF_LUT[i] as u64, scaled);
    }
}

#[test]
fn targets_of_speeds() {
    assert_eq!(MotorControl::new_target(0, BEMF_MAX), 0);
    assert_eq!(MotorControl::new_target(1, BEMF_MAX), BEMF_MIN);
    // 40 + 16699 * 3720 / 65535
    assert_eq!(MotorControl::new_target(7, BEMF_MAX), 987);
    assert_eq!(MotorControl::new_target(14, BEMF_MAX), BEMF_MAX);
    assert_eq!(MotorControl::new_target(255, BEMF_MAX), BEMF_MAX);
    // a full speed below the minimum leaves the minimum
    assert_eq!(MotorControl::new_target(14, 0), BEMF_MIN);
    assert_eq!(MotorControl::new_target(14, u16::MAX), u16::MAX);
}

#[test]
fn targets_never_fall_with_speed() {
    for speed in 0..20 {
        assert!(
            MotorControl::new_target(speed, 2000) <= MotorControl::new_target(speed + 1, 2000)
        );
    }
}

#[test]
fn starts_with_kick_start_and_minimum_setpoint() {
    let mut motor = ready();
    motor.new_config(0, 4095);
    motor.new_speed(14);
    motor.tick(0);
    assert_eq!(outputs(&motor), (Level::High, Level::Low, 0));
    // setpoint 41, error -59, integral 128000 - 59 * 64 = 124224, duty -59 + 121
    motor.tick(100);
    assert_eq!(outputs(&motor), (Level::High, Level::Low, 62));
}

#[test]
fn a_negative_sum_rounds_down_and_is_cut_off() {
    let mut motor = ready();
    motor.new_config(0, 4095);
    motor.new_speed(14);
    motor.tick(0);
    // setpoint 41, error -159, integral 128000 - 159 * 64 = 117824, duty -159 + 115
    motor.tick(200);
    assert_eq!(outputs(&motor).2, 0);
    // setpoint 42, error 42, integral 117824 + 42 * 64 = 120512, duty 42 + 117
    motor.tick(0);
    assert_eq!(outputs(&motor).2, 159);
}

#[test]
fn the_duty_never_leaves_the_pwm_range() {
    let mut motor = ready();
    motor.new_config(4095, u16::MAX);
    motor.new_speed(14);
    for _ in 0..2000 {
        motor.tick(0);
        assert!(outputs(&motor).2 <= PI_MAX as u32);
    }
    assert_eq!(outputs(&motor).2, PI_MAX as u32);
    for _ in 0..2000 {
        motor.tick(u16::MAX);
    }
    assert_eq!(outputs(&motor).2, 0);
}

#[test]
fn reverse_drives_the_other_line() {
    let mut motor = ready();
    motor.new_config(0, 4095);
    motor.new_direction(false);
    motor.new_speed(1);
    motor.tick(0);
    assert_eq!(outputs(&motor), (Level::Low, Level::High, 0));
}

#[test]
fn a_direction_change_under_way_brakes_first() {
    let mut motor = ready();
    motor.new_config(0, 4095);
    motor.new_speed(14);
    motor.tick(0);
    motor.tick(0);
    assert!(outputs(&motor).2 > 0);
    motor.new_direction(false);
    motor.tick(500);
    assert_eq!(outputs(&motor), (Level::High, Level::Low, 0));
    // still turning: keeps braking
    motor.tick(20);
    assert_eq!(outputs(&motor), (Level::High, Level::Low, 0));
    // at rest: both lines off, and only then the other way
    motor.tick(19);
    assert_eq!(outputs(&motor), (Level::Low, Level::Low, 0));
    motor.tick(0);
    assert_eq!(outputs(&motor), (Level::Low, Level::High, 0));
}

#[test]
fn ramps_down_to_standstill() {
    let mut motor = ready();
    motor.new_config(0, 4095);
    motor.new_speed(1);
    motor.tick(0);
    motor.new_speed(0);
    // 40 steps of 1 from the minimum setpoint
    for _ in 0..39 {
        motor.tick(0);
        assert_eq!(outputs(&motor).0, Level::High);
    }
    // the setpoint is 0, but the motor still turns
    motor.tick(20);
    assert_eq!(outputs(&motor).0, Level::High);
    motor.tick(19);
    assert_eq!(outputs(&motor), (Level::Low, Level::Low, 0));
}

#[test]
fn the_ramp_bypass_takes_the_largest_step() {
    let mut motor = ready();
    motor.new_config(0, 4095);
    motor.new_speed(1);
    motor.tick(0);
    motor.new_speed(0);
    motor.ramp_bypass(true);
    motor.tick(0);
    assert_eq!(outputs(&motor), (Level::Low, Level::Low, 0));
}

#[test]
fn the_acceleration_potentiometer_sets_the_step() {
    let mut motor = ready();
    motor.new_config(64 * 9, 4095);
    motor.new_speed(1);
    motor.tick(0);
    motor.new_speed(0);
    // four steps of 10
    for _ in 0..3 {
        motor.tick(0);
        assert_eq!(outputs(&motor).0, Level::High);
    }
    motor.tick(0);
    assert_eq!(outputs(&motor).0, Level::Low);
}

#[test]
fn the_speed_potentiometer_scales_the_full_speed() {
    // the duty for a setpoint ramped up to the target, with the integral at its kick-start value
    // plus what the errors add, tells the targets apart
    let duty = |vmax: u16| {
        let mut motor = ready();
        motor.new_speed(14);
        motor.new_config(u16::MAX, vmax);
        motor.tick(0);
        motor.tick(0);
        motor.tick(0);
        outputs(&motor).2
    };
    // full speed 784: setpoints 784 twice, integral 128000 + 2 * 784 * 64 = 228352, duty 784 + 223
    assert_eq!(duty(0), 1007);
    // full speed 3760, from 40 in steps of 1024: setpoints 1064 and 2088,
    // integral 128000 + (1064 + 2088) * 64 = 329728, duty 2088 + 322
    assert_eq!(duty(4095), 2410);
    // full speed 40 + (8000 + 4095) / 5 * 3720 / 4095 = 2237 is beyond the second setpoint too
    assert_eq!(duty(2000), 2410);
    // full speed 40 + (4000 + 4095) / 5 * 3720 / 4095 = 1510: setpoints 1064 and 1510,
    // integral 128000 + (1064 + 1510) * 64 = 292736, duty 1510 + 285
    assert_eq!(duty(1000), 1795);
}

#[test]
fn speed_and_configuration_in_either_order() {
    let mut first = ready();
    first.new_speed(9);
    first.new_config(100, 3000);
    let mut second = ready();
    second.new_config(100, 3000);
    second.new_speed(9);
    for bemf in 0..200 {
        first.tick(bemf);
        second.tick(bemf);
        assert_eq!(first.outputs(), second.outputs());
    }
}

#[test]
fn both_lines_are_never_on_together() {
    let mut motor = ready();
    let mut seed: u32 = 1;
    for _ in 0..20_000 {
        seed = seed.wrapping_mul(1_664_525).wrapping_add(1_013_904_223);
        let value = (seed >> 16) as u16;
        match value % 7 {
            0 => motor.new_speed((value >> 8) as u8 % 16),
            1 => motor.new_direction(value & 256 != 0),
            2 => motor.new_config(value >> 4, value >> 3),
            3 => motor.ramp_bypass(value & 256 != 0),
            _ => motor.tick(value % 64),
        }
        let (fw, rv, pwm) = outputs(&motor);
        assert!(!(fw == Level::High && rv == Level::High));
        assert!(pwm == 0 || fw != rv);
    }
}

#[test]
fn a_faster_motor_gets_no_more_duty() {
    let duty = |bemf: u16| {
        let mut motor = ready();
        motor.new_config(0, 4095);
        motor.new_speed(14);
        motor.tick(0);
        motor.tick(bemf);
        outputs(&motor).2
    };
    for bemf in 0..400 {
        assert!(duty(bemf + 1) <= duty(bemf));
    }
    // setpoint 41: 41 + (128000 + 41 * 64) / 1024
    assert_eq!(duty(0), 168);
    assert_eq!(duty(400), 0);
}

#[test]
fn a_motor_without_speed_comes_to_rest_from_braking_too() {
    let mut motor = ready();
    motor.new_config(0, 4095);
    motor.new_speed(1);
    motor.tick(0);
    motor.new_direction(false);
    motor.new_speed(0);
    for _ in 0..40 {
        motor.tick(300);
    }
    assert_eq!(outputs(&motor), (Level::High, Level::Low, 0));
    motor.tick(0);
    for _ in 0..5 {
        assert_eq!(outputs(&motor), (Level::Low, Level::Low, 0));
        motor.tick(0);
    }
}

#[test]
fn a_turned_motor_without_speed_is_only_taken_down() {
    for first in [0, 19, 20, 500] {
        let mut motor = ready();
        motor.new_config(0, 4095);
        motor.new_speed(14);
        motor.tick(0);
        motor.tick(0);
        assert!(outputs(&motor).2 > 0);
        motor.new_direction(false);
        motor.new_speed(0);
        let mut before = outputs(&motor);
        for bemf in [first, 300, 100, 20, 19, 500, 0, 0, 700] {
            motor.tick(bemf);
            let after = outputs(&motor);
            assert_eq!(after.2, 0);
            assert!(after.0 == Level::Low || before.0 == Level::High);
            assert!(after.1 == Level::Low || before.1 == Level::High);
            before = after;
        }
        assert_eq!(before, (Level::Low, Level::Low, 0));
    }
}

#[test]
fn a_window_is_one_tick_with_its_mean() {
    let mut window = [100u16; N_SAMPLE];
    window[3] = 4095;
    window[11] = 4000;
    window[0] = 116;
    let mut by_window = ready();
    let mut by_mean = ready();
    for motor in [&mut by_window, &mut by_mean] {
        motor.new_config(1000, 4095);
        motor.new_speed(10);
    }
    for _ in 0..20 {
        by_window.on_window(window);
        by_mean.tick(101);
        assert_eq!(outputs(&by_window), outputs(&by_mean));
    }
    assert!(outputs(&by_window).2 > 0);
}

#[test]
fn a_full_speed_below_the_minimum_makes_every_target_the_minimum() {
    for speed in 1..20 {
        for bemf_max in [0, 1, 39, 40] {
            assert_eq!(MotorControl::new_target(speed, bemf_max), 40);
        }
        assert!(MotorControl::new_target(speed, 41) <= 41);
    }
}

#[test]
fn the_speed_table_rises_with_every_step() {
    for i in 1..BEMF_LUT.len() {
        assert!(BEMF_LUT[i - 1] < BEMF_LUT[i]);
    }
}

#[test]
fn the_target_is_that_of_the_latest_speed_and_configuration() {
    // with the ramp bypassed the setpoint reaches the target, and duty and integral follow it
    let settle = |motor: &mut MotorControl| {
        motor.ramp_bypass(true);
        for _ in 0..200 {
            motor.tick(900);
        }
        outputs(motor)
    };
    let mut direct = ready();
    direct.new_config(0, 2000);
    direct.new_speed(9);
    let mut winding = ready();
    winding.new_speed(3);
    winding.new_config(7, 4095);
    winding.new_speed(9);
    winding.new_config(0, 100);
    winding.new_config(0, 2000);
    let (_, _, duty) = settle(&mut direct);
    assert!(0 < duty && duty < PI_MAX as u32);
    assert_eq!(settle(&mut winding), (Level::High, Level::Low, duty));
    // another target gives another duty
    let mut slower = ready();
    slower.new_config(0, 1900);
    slower.new_speed(9);
    assert!(settle(&mut slower).2 < duty);
}

#[test]
fn a_turn_that_is_taken_back_starts_nothing() {
    let mut motor = ready();
    motor.new_config(0, 4095);
    motor.new_speed(14);
    motor.tick(0);
    motor.tick(0);
    // turned and turned back before a tick, then no speed: still runs the same way, ramping down
    motor.new_direction(false);
    motor.new_direction(true);
    motor.new_speed(0);
    motor.tick(0);
    assert!(outputs(&motor).2 > 0);
    let mut before = outputs(&motor);
    for _ in 0..100 {
        motor.tick(0);
        let after = outputs(&motor);
        assert_eq!(after.1, Level::Low);
        assert!(after.0 == Level::Low || before.0 == Level::High);
        before = after;
    }
    assert_eq!(before, (Level::Low, Level::Low, 0));
}
