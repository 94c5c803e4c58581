//! What a packet does to the loco: the decoder state, the motor controller and the functions.
use crate::decoder_state::{DecoderState, DecoderView, Headlights};
use crate::functions::{FunctionPins, Functions};
use crate::lenz::{LenzMessage, SpeedStep};
use crate::mm::{MmCommand, MmFunctionMessage, MmLocoMessage, SpeedOrReverse};
use crate::motor_control::{MotorControl, MotorView};
use crate::outputs::OutputPin;
use vstd::prelude::*;

verus! {

/// Everything that packets act on: the decoder state, the motor controller and the functions.
pub struct LocoView {
    pub state: DecoderView,
    pub motor: MotorView,
    pub functions: FunctionPins,
}

impl LocoView {
    pub open spec fn with_f0(self, f0: bool) -> Self {
        LocoView { state: self.state.with_f0(f0), ..self }
    }

    /// The motor controller hears of a direction only when it has changed.
    pub open spec fn with_direction(self, direction: bool) -> Self {
        LocoView {
            state: self.state.with_direction(direction),
            motor: if self.state.direction != direction {
                self.motor.with_direction(direction)
            } else {
                self.motor
            },
            ..self
        }
    }

    /// The motor controller hears of a speed only when it has changed.
    pub open spec fn with_speed(self, speed: u8) -> Self {
        LocoView {
            state: self.state.with_speed(speed),
            motor: if self.state.speed != speed {
                self.motor.with_speed(speed)
            } else {
                self.motor
            },
            ..self
        }
    }

    /// A reverse that is let through also stops the motor, which would otherwise start again in
    /// the new direction.
    pub open spec fn reversed(self) -> Self {
        if self.state.reverse_gate {
            LocoView {
                state: self.state.reversed(),
                motor: self.motor.with_direction(!self.state.direction).with_speed(0),
                ..self
            }
        } else {
            self
        }
    }

    /// F4 also switches the ramp of the motor controller off.
    pub open spec fn with_functions(self, states: Functions) -> Self {
        LocoView {
            motor: self.motor.with_ramp_bypass(states.f4),
            functions: FunctionPins::for_states(states),
            ..self
        }
    }

    pub open spec fn with_function(self, function: u8, state: bool) -> Self {
        LocoView {
            motor: if function == 4 {
                self.motor.with_ramp_bypass(state)
            } else {
                self.motor
            },
            functions: self.functions.with_function(function, state),
            ..self
        }
    }

    /// After a Lenz packet, for a decoder at `address`.
    pub open spec fn after_lenz(self, address: u8, message: LenzMessage) -> Self {
        match message {
            LenzMessage::Speed { address: to, direction, f0, speed } => if to == address {
                let turned = self.with_f0(f0).with_direction(direction);
                match speed {
                    SpeedStep::Speed(speed) => turned.with_speed(speed),
                    SpeedStep::EmergencyStop => turned,
                }
            } else {
                self
            },
            LenzMessage::Function { address: to, states } => if to == address {
                self.with_functions(states)
            } else {
                self
            },
            LenzMessage::Accessory => self,
        }
    }

    /// After the instruction of an MM loco packet. MM2 packets that say to reverse are ignored:
    /// MM2 has absolute direction.
    pub open spec fn after_command(self, command: MmCommand) -> Self {
        match command {
            MmCommand::OldSpeed { speed: SpeedOrReverse::Speed(speed) } => self.with_speed(speed),
            MmCommand::OldSpeed { speed: SpeedOrReverse::Reverse } => self.reversed(),
            MmCommand::NewSpeed {
                speed: SpeedOrReverse::Speed(speed),
                direction,
            } => self.with_direction(direction).with_speed(speed),
            MmCommand::Function {
                speed: SpeedOrReverse::Speed(speed),
                function,
                state,
            } => self.with_speed(speed).with_function(function, state),
            _ => self,
        }
    }

    /// After an MM loco packet, for a decoder at `address`. The headlight setting is in every
    /// packet.
    pub open spec fn after_mm_loco(self, address: u8, message: MmLocoMessage) -> Self {
        if message.address == address {
            self.with_f0(message.f0).after_command(message.command)
        } else {
            self
        }
    }

    /// After an MM1 function packet, for a decoder at `address`.
    pub open spec fn after_mm_function(self, address: u8, message: MmFunctionMessage) -> Self {
        if message.address == address {
            self.with_functions(message.states)
        } else {
            self
        }
    }
}

/// The part of the loco that the packets alone act on.
pub struct Loco {
    address: u8,
    state: DecoderState,
    functions: FunctionPins,
}

/// The state of a [`Loco`].
pub struct LocoSettings {
    pub address: u8,
    pub state: DecoderView,
    pub functions: FunctionPins,
}

impl LocoSettings {
    /// These settings together with a motor controller.
    pub open spec fn with_motor(self, motor: MotorView) -> LocoView {
        LocoView { state: self.state, motor, functions: self.functions }
    }
}

impl View for Loco {
    type V = LocoSettings;

    closed spec fn view(&self) -> LocoSettings {
        LocoSettings { address: self.address, state: self.state@, functions: self.functions }
    }
}

impl Loco {
    /// The headlight lines are set.
    pub open spec fn wf(&self) -> bool {
        self@.state.lights is Some
    }

    /// A loco that answers to `address` and drives the given lines, at the levels that they have.
    pub fn new(
        address: u8,
        f0_fw: OutputPin,
        f0_rv: OutputPin,
        functions: FunctionPins,
    ) -> (loco: Self)
        ensures
            loco.wf(),
            loco@ == (LocoSettings {
                address,
                state: DecoderView::initial().with_lights(f0_fw, f0_rv),
                functions,
            }),
    {
        let mut state: DecoderState = DecoderState::new();
        state.init(f0_fw, f0_rv);
        Loco { address, state, functions }
    }

    /// What the headlight lines are to be driven to.
    pub fn lights(&self) -> (lights: Headlights)
        requires
            self.wf(),
        ensures
            self@.state.lights == Some(lights),
    {
        self.state.lights().unwrap()
    }

    /// What the function lines are to be driven to.
    pub fn functions(&self) -> (functions: FunctionPins)
        ensures
            functions == self@.functions,
    {
        self.functions
    }

    /// Acts on a Lenz packet.
    pub fn on_lenz(&mut self, motor: &mut MotorControl, message: LenzMessage)
        requires
            old(self).wf(),
        ensures
            final(self).wf(),
            final(self)@.address == old(self)@.address,
            final(self)@.with_motor(final(motor)@) == old(self)@.with_motor(
                old(motor)@,
            ).after_lenz(old(self)@.address, message),
    {
        match message {
            LenzMessage::Speed { address, direction, f0, speed } => {
                if address == self.address {
                    self.state.update_f0(f0);
                    self.set_direction(motor, direction);
                    if let SpeedStep::Speed(speed) = speed {
                        self.set_speed(motor, speed);
                    }
                }
            },
            LenzMessage::Function { address, states } => {
                if address == self.address {
                    self.set_functions(motor, states);
                }
            },
            LenzMessage::Accessory => {},
        }
    }

    /// Acts on an MM loco packet.
    pub fn on_mm_loco(&mut self, motor: &mut MotorControl, message: MmLocoMessage)
        requires
            old(self).wf(),
        ensures
            final(self).wf(),
            final(self)@.address == old(self)@.address,
            final(self)@.with_motor(final(motor)@) == old(self)@.with_motor(
                old(motor)@,
            ).after_mm_loco(old(self)@.address, message),
    {
        // ignore packets for foreign addresses
        if message.address == self.address {
            self.state.update_f0(message.f0);
            self.on_command(motor, message.command);
        }
    }

    /// Acts on the instruction of an MM loco packet.
    fn on_command(&mut self, motor: &mut MotorControl, command: MmCommand)
        requires
            old(self).wf(),
        ensures
            final(self).wf(),
            final(self)@.address == old(self)@.address,
            final(self)@.with_motor(final(motor)@) == old(self)@.with_motor(
                old(motor)@,
            ).after_command(command),
    {
        match command {
            MmCommand::OldSpeed { speed: SpeedOrReverse::Speed(speed) } => {
                self.set_speed(motor, speed);
            },
            MmCommand::OldSpeed { speed: SpeedOrReverse::Reverse } => {
                if let Some(direction) = self.state.update_reverse() {
                    motor.new_direction(direction);
                    // the direction change comes without a speed: stop, rather than start again
                    // in the new direction
                    motor.new_speed(0);
                }
            },
            MmCommand::NewSpeed { speed: SpeedOrReverse::Speed(speed), direction } => {
                self.set_direction(motor, direction);
                self.set_speed(motor, speed);
            },
            MmCommand::Function { speed: SpeedOrReverse::Speed(speed), function, state } => {
                self.set_speed(motor, speed);
                self.functions.set_function(function, state);
                if function == 4 {
                    motor.ramp_bypass(state);
                }
            },
            _ => {},
        }
    }

    /// Acts on an MM1 function packet.
    pub fn on_mm_function(&mut self, motor: &mut MotorControl, message: MmFunctionMessage)
        requires
            old(self).wf(),
        ensures
            final(self).wf(),
            final(self)@.address == old(self)@.address,
            final(self)@.with_motor(final(motor)@) == old(self)@.with_motor(
                old(motor)@,
            ).after_mm_function(old(self)@.address, message),
    {
        if message.address == self.address {
            self.set_functions(motor, message.states);
        }
    }

    /// Takes over a direction, and tells the motor controller of a change.
    fn set_direction(&mut self, motor: &mut MotorControl, direction: bool)
        requires
            old(self).wf(),
        ensures
            final(self).wf(),
            final(self)@.address == old(self)@.address,
            final(self)@.with_motor(final(motor)@) == old(self)@.with_motor(
                old(motor)@,
            ).with_direction(direction),
    {
        if self.state.update_direction(direction) {
            motor.new_direction(direction);
        }
    }

    /// Takes over a speed, and tells the motor controller of a change.
    fn set_speed(&mut self, motor: &mut MotorControl, speed: u8)
        requires
            old(self).wf(),
        ensures
            final(self).wf(),
            final(self)@.address == old(self)@.address,
            final(self)@.with_motor(final(motor)@) == old(self)@.with_motor(
                old(motor)@,
            ).with_speed(speed),
    {
        if self.state.update_speed(speed) {
            motor.new_speed(speed);
        }
    }

    /// Switches all functions.
    fn set_functions(&mut self, motor: &mut MotorControl, states: Functions)
        requires
            old(self).wf(),
        ensures
            final(self).wf(),
            final(self)@.address == old(self)@.address,
            final(self)@.with_motor(final(motor)@) == old(self)@.with_motor(
                old(motor)@,
            ).with_functions(states),
    {
        self.functions.set_all(states);
        motor.ramp_bypass(states.f4);
    }
}

} // verus!
