//! The motor controller: a PI controller on the back-EMF (BEMF) of the motor, with a ramped
//! setpoint, inside a state machine that keeps the H-bridge from being reversed under way.
//!
//! These constants tune the controller:
//! - `PI_KI`: integrator coefficient.
//! - `PI_KP`: proportion coefficient.
//! - `I_PRELOAD`: integrator kick-start for starting from standstill. It must be adjusted after
//!   `PI_KI` and `PI_KP` for a smooth start.
use crate::bemf::{average_bemf, mean_without_peaks, N_SAMPLE};
use crate::outputs::{Level, OutputPin, PwmRegister};
use vstd::prelude::*;

verus! {

/// BEMF value below which the loco counts as stopped.
pub const BEMF_OFF: u16 = 20;

/// Minimum speed value.
pub const BEMF_MIN: u16 = 40;

/// Maximum speed value (12V BEMF from the divider is 3.03V).
pub const BEMF_MAX: u16 = 3760;

/// BEMF targets of the speed settings 1 to 14, scaled to the full `u16` range: see
/// [`speed_curve`].
pub const BEMF_LUT: [u16; 14] = [
    0, 1907, 4101, 6624, 9526, 12862, 16699, 21112, 26187, 32023, 38734, 46452, 55328, 65535,
];

/// Proportion coefficient.
pub const PI_KP: i32 = 1024;

/// Integrator coefficient.
pub const PI_KI: i32 = 64;

/// Fixed-point scaling factor of the controller, in bits.
pub const PI_SHIFT: u8 = 10;

/// Maximum PWM compare value.
pub const PI_MAX: i32 = 2559;

/// Minimum PWM compare value.
pub const PI_MIN: i32 = 0;

/// Kick-start value of the integrator, from standstill.
pub const I_PRELOAD: i32 = 128_000;

/// Highest speed setting.
pub const SPEED_MAX: u8 = 14;

/// What the motor is doing.
#[derive(Clone, Copy, Debug, PartialEq, Eq, Structural)]
pub enum MotorState {
    Idle,
    Run,
    Brake,
}

/// Which way the motor turns.
#[derive(Clone, Copy, Debug, PartialEq, Eq, Structural)]
pub enum Direction {
    Forward,
    Reverse,
}

/// The direction that a packet's direction bit stands for.
pub open spec fn direction_of(value: bool) -> Direction {
    if value {
        Direction::Forward
    } else {
        Direction::Reverse
    }
}

impl From<bool> for Direction {
    fn from(value: bool) -> (direction: Self) {
        match value {
            false => Direction::Reverse,
            true => Direction::Forward,
        }
    }
}

impl vstd::std_specs::convert::FromSpecImpl<bool> for Direction {
    open spec fn obeys_from_spec() -> bool {
        true
    }

    open spec fn from_spec(value: bool) -> Self {
        direction_of(value)
    }
}

/// What the motor controller drives: the two lines of the H-bridge, and the PWM compare value.
#[derive(Clone, Copy, Debug, PartialEq, Eq, Structural)]
pub struct MotorOutputs {
    pub fw: OutputPin,
    pub rv: OutputPin,
    pub pwm: PwmRegister,
}

/// The state of a [`MotorControl`].
pub struct MotorView {
    pub speed: u8,
    pub bemf_max: u16,
    pub bemf_target: u16,
    pub bemf_setpoint: u16,
    pub pot_acc: u16,
    pub pi_integral: int,
    pub state: MotorState,
    pub direction: Direction,
    pub pending_direction: Direction,
    pub ramp_bypass: bool,
    pub outputs: Option<MotorOutputs>,
}

/// `value` if it lies between `low` and `high`, and otherwise the nearer of the two.
pub open spec fn clamped(value: int, low: int, high: int) -> int {
    if value < low {
        low
    } else if value > high {
        high
    } else {
        value
    }
}

/// The value one step of at most `step` away from `from` that is nearest to `to`.
pub open spec fn approach(from: int, to: int, step: int) -> int {
    clamped(to, from - step, from + step)
}

/// The exponential speed curve: 1.15 to the power of `i`, in millionths, rounded down at each
/// multiplication.
pub open spec fn exponential(i: nat) -> nat
    decreases i,
{
    if i == 0 {
        1_000_000
    } else {
        exponential((i - 1) as nat) * 1150 / 1000
    }
}

/// The speed curve scaled to run from 0 at index 0 to 65535 at index 13.
pub open spec fn speed_curve(i: nat) -> nat {
    ((exponential(i) - exponential(0)) * 65535 / (exponential(13) - exponential(0))) as nat
}

/// The BEMF target of a speed setting: 0 for standstill; otherwise the speed curve, spread over
/// the range from `BEMF_MIN` to `bemf_max`, with settings above the highest taken for the highest.
pub open spec fn target_for(speed: u8, bemf_max: u16) -> int {
    if speed == 0 {
        0
    } else {
        let step = if speed < SPEED_MAX {
            speed - 1
        } else {
            SPEED_MAX - 1
        };
        let range = if bemf_max > BEMF_MIN {
            bemf_max - BEMF_MIN
        } else {
            0
        };
        BEMF_MIN + (speed_curve(step as nat) * range) / 65535
    }
}

/// The BEMF value of full speed for a reading of the speed potentiometer, whose range 0 to 4095
/// stands for 20% to 100% of the range between `BEMF_MIN` and `BEMF_MAX`.
pub open spec fn bemf_max_for(vmax: u16) -> int {
    BEMF_MIN + ((vmax * 4 + 4095) / 5) * (BEMF_MAX - BEMF_MIN) / 4095
}

impl MotorView {
    /// A controller at standstill that has no outputs yet.
    pub open spec fn initial() -> Self {
        MotorView {
            speed: 0,
            bemf_max: 0,
            bemf_target: 0,
            bemf_setpoint: 0,
            pot_acc: 0,
            pi_integral: 0,
            state: MotorState::Idle,
            direction: Direction::Forward,
            pending_direction: Direction::Forward,
            ramp_bypass: false,
            outputs: None,
        }
    }

    /// The integrator stays within what the PWM range needs of it.
    pub open spec fn wf(self) -> bool {
        0 <= self.pi_integral <= PI_MAX * 1024
    }

    pub open spec fn with_speed(self, speed: u8) -> Self {
        MotorView { speed, bemf_target: target_for(speed, self.bemf_max) as u16, ..self }
    }

    pub open spec fn with_direction(self, dir: bool) -> Self {
        MotorView { pending_direction: direction_of(dir), ..self }
    }

    pub open spec fn with_config(self, acc: u16, vmax: u16) -> Self {
        let bemf_max = bemf_max_for(vmax) as u16;
        MotorView {
            pot_acc: acc,
            bemf_max,
            bemf_target: target_for(self.speed, bemf_max) as u16,
            ..self
        }
    }

    pub open spec fn with_ramp_bypass(self, bypass: bool) -> Self {
        MotorView { ramp_bypass: bypass, ..self }
    }

    pub open spec fn with_outputs(self, fw: OutputPin, rv: OutputPin, pwm: PwmRegister) -> Self {
        MotorView { outputs: Some(MotorOutputs { fw, rv, pwm }), ..self }
    }

    /// How far the setpoint may move in one tick.
    pub open spec fn ramp_step(self) -> int {
        if self.ramp_bypass {
            64
        } else {
            1 + self.pot_acc as int / 64
        }
    }

    /// The setpoint moved towards the target by at most one ramp step.
    pub open spec fn ramped(self) -> Self {
        MotorView {
            bemf_setpoint: approach(
                self.bemf_setpoint as int,
                self.bemf_target as int,
                self.ramp_step(),
            ) as u16,
            ..self
        }
    }

    /// Idle to run: the line of the pending direction goes high, and the integrator and the
    /// setpoint are preloaded.
    pub open spec fn started(self) -> Self {
        let outputs = self.outputs->0;
        MotorView {
            outputs: Some(
                match self.pending_direction {
                    Direction::Forward => MotorOutputs {
                        fw: OutputPin { level: Level::High },
                        ..outputs
                    },
                    Direction::Reverse => MotorOutputs {
                        rv: OutputPin { level: Level::High },
                        ..outputs
                    },
                },
            ),
            pi_integral: I_PRELOAD as int,
            bemf_setpoint: BEMF_MIN,
            direction: self.pending_direction,
            state: MotorState::Run,
            ..self
        }
    }

    /// Run to idle: both lines low, no duty.
    pub open spec fn stopped(self) -> Self {
        MotorView {
            outputs: Some(
                MotorOutputs {
                    fw: OutputPin { level: Level::Low },
                    rv: OutputPin { level: Level::Low },
                    pwm: PwmRegister { value: 0 },
                },
            ),
            pi_integral: 0,
            state: MotorState::Idle,
            ..self
        }
    }

    /// Run to brake: no duty, with the lines as they are.
    pub open spec fn braked(self) -> Self {
        MotorView {
            outputs: Some(MotorOutputs { pwm: PwmRegister { value: 0 }, ..self.outputs->0 }),
            pi_integral: 0,
            state: MotorState::Brake,
            ..self
        }
    }

    /// Brake to idle: both lines low.
    pub open spec fn released(self) -> Self {
        MotorView {
            outputs: Some(
                MotorOutputs {
                    fw: OutputPin { level: Level::Low },
                    rv: OutputPin { level: Level::Low },
                    ..self.outputs->0
                },
            ),
            state: MotorState::Idle,
            ..self
        }
    }

    /// One step of the PI controller: the error is integrated within the PWM range, and the duty
    /// is the weighted error plus the integral, within the PWM range.
    pub open spec fn regulated(self, bemf: u16) -> Self {
        let error = self.bemf_setpoint - bemf;
        let integral = clamped(self.pi_integral + error * PI_KI, PI_MIN * 1024, PI_MAX * 1024);
        let duty = clamped((error * PI_KP + integral) / 1024, PI_MIN as int, PI_MAX as int);
        MotorView {
            outputs: Some(MotorOutputs { pwm: PwmRegister { value: duty as u32 }, ..self.outputs->0 }),
            pi_integral: integral,
            ..self
        }
    }

    /// One tick, with `bemf` measured.
    pub open spec fn ticked(self, bemf: u16) -> Self {
        let ramped = self.ramped();
        match self.state {
            MotorState::Idle => if self.bemf_target > 0 {
                ramped.started()
            } else {
                ramped
            },
            MotorState::Run => if ramped.bemf_setpoint == 0 && bemf < BEMF_OFF {
                ramped.stopped()
            } else if self.pending_direction != self.direction {
                ramped.braked()
            } else {
                ramped.regulated(bemf)
            },
            MotorState::Brake => if bemf < BEMF_OFF {
                ramped.released()
            } else {
                ramped
            },
        }
    }
}

/// The motor controller.
pub struct MotorControl {
    // target BEMF calculation variables
    speed: u8,
    bemf_max: u16,
    // target value for BEMF to reach
    bemf_target: u16,
    // ramped value approaching bemf_target to simulate acceleration
    bemf_setpoint: u16,
    pot_acc: u16,
    // PI controller variables
    pi_integral: i32,
    // state machine variables
    state: MotorState,
    direction: Direction,
    pending_direction: Direction,
    ramp_bypass: bool,
    // controllable outputs
    outputs: Option<MotorOutputs>,
}

/// `value` brought into the range from `low` to `high`.
fn clamp_u16(value: u16, low: u16, high: u16) -> (result: u16)
    requires
        low <= high,
    ensures
        result == clamped(value as int, low as int, high as int),
{
    if value < low {
        low
    } else if value > high {
        high
    } else {
        value
    }
}

/// `value` brought into the range from `low` to `high`.
fn clamp_i32(value: i32, low: i32, high: i32) -> (result: i32)
    requires
        low <= high,
    ensures
        result == clamped(value as int, low as int, high as int),
{
    if value < low {
        low
    } else if value > high {
        high
    } else {
        value
    }
}

impl View for MotorControl {
    type V = MotorView;

    closed spec fn view(&self) -> MotorView {
        MotorView {
            speed: self.speed,
            bemf_max: self.bemf_max,
            bemf_target: self.bemf_target,
            bemf_setpoint: self.bemf_setpoint,
            pot_acc: self.pot_acc,
            pi_integral: self.pi_integral as int,
            state: self.state,
            direction: self.direction,
            pending_direction: self.pending_direction,
            ramp_bypass: self.ramp_bypass,
            outputs: self.outputs,
        }
    }
}

impl MotorControl {
    /// A controller at standstill. It needs [`MotorControl::init`] before it can run.
    pub fn new() -> (motor: Self)
        ensures
            motor@ == MotorView::initial(),
            motor@.wf(),
    {
        MotorControl {
            speed: 0,
            bemf_max: 0,
            bemf_target: 0,
            bemf_setpoint: 0,
            pot_acc: 0,
            pi_integral: 0,
            state: MotorState::Idle,
            direction: Direction::Forward,
            pending_direction: Direction::Forward,
            ramp_bypass: false,
            outputs: None,
        }
    }

    /// Sets the outputs that the controller drives. Must be called before [`MotorControl::tick`].
    pub fn init(&mut self, motor_fw: OutputPin, motor_rv: OutputPin, motor_pwm: PwmRegister)
        ensures
            final(self)@ == old(self)@.with_outputs(motor_fw, motor_rv, motor_pwm),
    {
        self.outputs = Some(MotorOutputs { fw: motor_fw, rv: motor_rv, pwm: motor_pwm });
    }

    /// What is to be driven; nothing before [`MotorControl::init`].
    pub fn outputs(&self) -> (outputs: Option<MotorOutputs>)
        ensures
            outputs == self@.outputs,
    {
        self.outputs
    }

    /// Advances the state machine, and the PI controller if the motor runs.
    /// [`MotorControl::init`] must have been called.
    pub fn tick(&mut self, bemf: u16)
        requires
            old(self)@.wf(),
            old(self)@.outputs is Some,
        ensures
            final(self)@ == old(self)@.ticked(bemf),
            final(self)@.wf(),
            final(self)@.outputs is Some,
    {
        let mut outputs: MotorOutputs = self.outputs.unwrap();

        // setpoint ramping - pot_acc (0-4095) controls the ramp rate per tick
        let ramp_step: u16 = match self.ramp_bypass {
            false => 1 + self.pot_acc / 64,
            true => 64,
        };
        self.bemf_setpoint = clamp_u16(
            self.bemf_target,
            self.bemf_setpoint.saturating_sub(ramp_step),
            self.bemf_setpoint.saturating_add(ramp_step),
        );

        match self.state {
            MotorState::Idle => {
                if self.bemf_target > 0 {
                    match self.pending_direction {
                        Direction::Forward => outputs.fw.set_high(),
                        Direction::Reverse => outputs.rv.set_high(),
                    }
                    // preload the integrator for kick-start from zero speed, and the setpoint to
                    // be the minimum: ramping from zero would counter the kick-start
                    self.pi_integral = I_PRELOAD;
                    self.bemf_setpoint = BEMF_MIN;
                    self.direction = self.pending_direction;
                    self.state = MotorState::Run;
                }
            },
            MotorState::Run => {
                if self.bemf_setpoint == 0 && bemf < BEMF_OFF {
                    // both lines off, which saves checking which one is on
                    outputs.fw.set_low();
                    outputs.rv.set_low();
                    outputs.pwm.write(0);
                    self.pi_integral = 0;
                    self.state = MotorState::Idle;
                } else if self.pending_direction != self.direction {
                    // the direction has changed under way: emergency brake
                    outputs.pwm.write(0);
                    self.pi_integral = 0;
                    self.state = MotorState::Brake;
                } else {
                    outputs.pwm.write(self.regulate(bemf));
                }
            },
            MotorState::Brake => {
                // waiting for the motor to come to rest; the duty is 0 already
                if bemf < BEMF_OFF {
                    outputs.fw.set_low();
                    outputs.rv.set_low();
                    self.state = MotorState::Idle;
                }
            },
        }
        self.outputs = Some(outputs);
    }

    /// Takes over a complete window of BEMF samples: one tick, with the mean of the samples but
    /// for the peaks. [`MotorControl::init`] must have been called.
    pub fn on_window(&mut self, window: [u16; N_SAMPLE])
        requires
            old(self)@.wf(),
            old(self)@.outputs is Some,
        ensures
            0 <= mean_without_peaks(window@) <= u16::MAX,
            final(self)@ == old(self)@.ticked(mean_without_peaks(window@) as u16),
            final(self)@.wf(),
            final(self)@.outputs is Some,
    {
        let bemf: u16 = average_bemf(window);
        self.tick(bemf);
    }

    /// Integrates the control error and returns the duty.
    fn regulate(&mut self, bemf: u16) -> (duty: u32)
        requires
            old(self)@.wf(),
            old(self)@.outputs is Some,
        ensures
            final(self)@ == (MotorView {
                pi_integral: old(self)@.regulated(bemf).pi_integral,
                ..old(self)@
            }),
            old(self)@.regulated(bemf).outputs->0.pwm.value == duty,
            final(self)@.wf(),
    {
        let error: i32 = self.bemf_setpoint as i32 - bemf as i32;
        assert(PI_MIN << PI_SHIFT == 0) by (bit_vector);
        assert(PI_MAX << PI_SHIFT == 2_620_416) by (bit_vector);
        // integrate with direct clamp anti-windup
        self.pi_integral = clamp_i32(
            self.pi_integral + error * PI_KI,
            PI_MIN << PI_SHIFT,
            PI_MAX << PI_SHIFT,
        );
        let sum: i32 = error * PI_KP + self.pi_integral;
        assert(sum >> PI_SHIFT == sum as int / 1024) by (bit_vector);
        clamp_i32(sum >> PI_SHIFT, PI_MIN, PI_MAX) as u32
    }

    /// Takes over the speed of a new speed packet: a new speed means a new BEMF target.
    pub fn new_speed(&mut self, speed: u8)
        ensures
            final(self)@ == old(self)@.with_speed(speed),
    {
        self.speed = speed;
        self.bemf_target = Self::new_target(self.speed, self.bemf_max);
    }

    /// Sets a new pending direction.
    pub fn new_direction(&mut self, dir: bool)
        ensures
            final(self)@ == old(self)@.with_direction(dir),
    {
        self.pending_direction = Direction::from(dir);
    }

    /// Takes over the potentiometer readings for acceleration and full speed.
    pub fn new_config(&mut self, acc: u16, vmax: u16)
        ensures
            final(self)@ == old(self)@.with_config(acc, vmax),
    {
        self.pot_acc = acc;
        // 20%-100% of the potentiometer range
        let vmax_scaled: u32 = (vmax as u32 * 4 + 4095) / 5;
        let span: u32 = (BEMF_MAX - BEMF_MIN) as u32;
        assert(vmax_scaled * span <= 53247 * 3720) by (nonlinear_arith)
            requires
                vmax_scaled <= 53247,
                span == 3720,
        ;
        self.bemf_max = BEMF_MIN + ((vmax_scaled * span) / 4095) as u16;
        // the BEMF scale may have changed
        self.bemf_target = Self::new_target(self.speed, self.bemf_max);
    }

    /// The BEMF target of a speed setting, scaled to `bemf_max`.
    pub fn new_target(speed: u8, bemf_max: u16) -> (target: u16)
        ensures
            target == target_for(speed, bemf_max),
    {
        // 0 speed must always be 0 BEMF - no table entry needed
        if speed == 0 {
            return 0;
        }
        let index: usize = (speed.min(SPEED_MAX) - 1) as usize;
        let range: u32 = bemf_max.saturating_sub(BEMF_MIN) as u32;
        proof {
            lemma_speed_table(index as nat);
        }
        let entry: u32 = BEMF_LUT[index] as u32;
        assert(entry * range <= 65535 * 65495 && (entry * range) / 65535 <= 65495)
            by (nonlinear_arith)
            requires
                0 <= entry <= 65535,
                0 <= range <= 65495,
        ;
        BEMF_MIN + ((entry * range) / 65535) as u16
    }

    /// Switches the slow ramp for acceleration and braking off or on.
    pub fn ramp_bypass(&mut self, bypass: bool)
        ensures
            final(self)@ == old(self)@.with_ramp_bypass(bypass),
    {
        self.ramp_bypass = bypass;
    }
}

/// The table of BEMF targets is the scaled exponential curve.
pub proof fn lemma_speed_table(i: nat)
    requires
        i < BEMF_LUT.len(),
    ensures
        BEMF_LUT[i as int] == speed_curve(i),
{
    assert(exponential(0) == 1_000_000);
    assert(exponential(1) == 1_150_000);
    assert(exponential(2) == 1_322_500);
    assert(exponential(3) == 1_520_875);
    assert(exponential(4) == 1_749_006);
    assert(exponential(5) == 2_011_356);
    assert(exponential(6) == 2_313_059);
    assert(exponential(7) == 2_660_017);
    assert(exponential(8) == 3_059_019);
    assert(exponential(9) == 3_517_871);
    assert(exponential(10) == 4_045_551);
    assert(exponential(11) == 4_652_383);
    assert(exponential(12) == 5_350_240);
    assert(exponential(13) == 6_152_776);
    assert(speed_curve(0) == 0 && BEMF_LUT[0] == 0);
    assert(speed_curve(1) == 1907 && BEMF_LUT[1] == 1907);
    assert(speed_curve(2) == 4101 && BEMF_LUT[2] == 4101);
    assert(speed_curve(3) == 6624 && BEMF_LUT[3] == 6624);
    assert(speed_curve(4) == 9526 && BEMF_LUT[4] == 9526);
    assert(speed_curve(5) == 12862 && BEMF_LUT[5] == 12862);
    assert(speed_curve(6) == 16699 && BEMF_LUT[6] == 16699);
    assert(speed_curve(7) == 21112 && BEMF_LUT[7] == 21112);
    assert(speed_curve(8) == 26187 && BEMF_LUT[8] == 26187);
    assert(speed_curve(9) == 32023 && BEMF_LUT[9] == 32023);
    assert(speed_curve(10) == 38734 && BEMF_LUT[10] == 38734);
    assert(speed_curve(11) == 46452 && BEMF_LUT[11] == 46452);
    assert(speed_curve(12) == 55328 && BEMF_LUT[12] == 55328);
    assert(speed_curve(13) == 65535 && BEMF_LUT[13] == 65535);
}

} // verus!
