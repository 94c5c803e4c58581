//! What each kind of packet does to the loco, setting by setting.
use crate::decoder::{after_packets, Protocols};
use crate::decoder_state::DecoderView;
use crate::functions::{FunctionPins, Functions};
use crate::lenz::{lenz_meaning, LenzMessage, SpeedStep};
use crate::loco::{LocoSettings, LocoView};
use crate::mm::{
    mm_acc_meaning, mm_loco_meaning, MmCommand, MmFrame, MmFunctionMessage, MmLocoMessage,
    SpeedOrReverse,
};
use crate::motor_control::{target_for, Direction, MotorView};
use crate::motor_laws::lemma_target_follows_speed;
use crate::outputs::Level;
use vstd::prelude::*;

verus! {

/// The speed is taken over, with the reverse gate opened by it. The motor controller has the speed
/// and its target, if it was new to the decoder state, and is left alone otherwise. So it has them
/// in any case if the two agreed before, and a speed of 0 then leaves it with nothing to drive for.
pub open spec fn took_speed(before: LocoView, after: LocoView, speed: u8) -> bool {
    let agreed = {
        &&& before.motor.speed == before.state.speed
        &&& before.motor.bemf_target == target_for(before.state.speed, before.motor.bemf_max)
    };
    &&& after.state.speed == speed
    &&& after.state.reverse_gate
    &&& before.state.speed != speed || agreed ==> {
        &&& after.motor.speed == speed
        &&& after.motor.bemf_target == target_for(speed, before.motor.bemf_max)
        &&& speed == 0 ==> after.motor.bemf_target == 0
        &&& speed > 0 ==> after.motor.bemf_target >= 40
    }
    &&& before.state.speed == speed ==> {
        &&& after.motor.speed == before.motor.speed
        &&& after.motor.bemf_target == before.motor.bemf_target
    }
}

/// Speed and reverse gate are as they were.
pub open spec fn kept_speed(before: LocoView, after: LocoView) -> bool {
    &&& after.state.speed == before.state.speed
    &&& after.state.reverse_gate == before.state.reverse_gate
    &&& after.motor.speed == before.motor.speed
    &&& after.motor.bemf_target == before.motor.bemf_target
}

/// The direction is taken over. The motor controller is to go that way if the direction was new to
/// the decoder state, and is left alone otherwise. So it is to go that way in any case if the two
/// agreed before.
pub open spec fn took_direction(before: LocoView, after: LocoView, direction: bool) -> bool {
    let agreed = (before.motor.pending_direction == Direction::Forward) == before.state.direction;
    &&& after.state.direction == direction
    &&& before.state.direction != direction || agreed ==> {
        (after.motor.pending_direction == Direction::Forward) == direction
    }
    &&& before.state.direction == direction ==> after.motor.pending_direction
        == before.motor.pending_direction
}

/// The direction is as it was.
pub open spec fn kept_direction(before: LocoView, after: LocoView) -> bool {
    &&& after.state.direction == before.state.direction
    &&& after.motor.pending_direction == before.motor.pending_direction
}

/// The headlight setting is taken over. Where it or the direction has changed, the line of the
/// headlight that faces the way the loco goes is low exactly when the setting is on, and the other
/// line is high. Otherwise the lines are as they were.
pub open spec fn took_f0(before: DecoderView, after: DecoderView, f0: bool) -> bool {
    &&& after.f0 == f0
    &&& if after.f0 != before.f0 || after.direction != before.direction {
        &&& after.lights matches Some(lights)
        &&& lights.fw.level == Level::Low <==> f0 && after.direction
        &&& lights.rv.level == Level::Low <==> f0 && !after.direction
    } else {
        after.lights == before.lights
    }
}

/// Each function line is high exactly when its function is on.
pub open spec fn took_functions(after: FunctionPins, states: Functions) -> bool {
    &&& after.f1.level == Level::High <==> states.f1
    &&& after.f2.level == Level::High <==> states.f2
    &&& after.f3.level == Level::High <==> states.f3
    &&& after.f4.level == Level::High <==> states.f4
}

/// The line of one function is high exactly when the function is on, and the other lines are as
/// they were.
pub open spec fn took_function(
    before: FunctionPins,
    after: FunctionPins,
    function: u8,
    state: bool,
) -> bool {
    &&& if function == 1 {
        after.f1.level == Level::High <==> state
    } else {
        after.f1 == before.f1
    }
    &&& if function == 2 {
        after.f2.level == Level::High <==> state
    } else {
        after.f2 == before.f2
    }
    &&& if function == 3 {
        after.f3.level == Level::High <==> state
    } else {
        after.f3 == before.f3
    }
    &&& if function == 4 {
        after.f4.level == Level::High <==> state
    } else {
        after.f4 == before.f4
    }
}

/// Of the motor controller, only what packets speak of may differ: speed and target, the pending
/// direction, and the ramp bypass. What the motor does and what is driven stays until a tick.
pub open spec fn only_told(before: MotorView, after: MotorView) -> bool {
    &&& after.state == before.state
    &&& after.direction == before.direction
    &&& after.outputs == before.outputs
    &&& after.bemf_setpoint == before.bemf_setpoint
    &&& after.pi_integral == before.pi_integral
    &&& after.bemf_max == before.bemf_max
    &&& after.pot_acc == before.pot_acc
}

/// The functions and the ramp bypass are as they were.
pub open spec fn kept_functions(before: LocoView, after: LocoView) -> bool {
    &&& after.functions == before.functions
    &&& after.motor.ramp_bypass == before.motor.ramp_bypass
}

proof fn lemma_took_speed(before: LocoView, speed: u8)
    ensures
        took_speed(before, before.with_speed(speed), speed),
{
    let full = before.motor.bemf_max;
    lemma_target_follows_speed(speed, speed, full, full);
}

/// A Lenz speed packet for the own address takes over the headlight setting, the direction and the
/// speed, 0 included, and touches no function.
pub proof fn lemma_lenz_speed_is_taken_over(
    loco: LocoView,
    address: u8,
    direction: bool,
    f0: bool,
    speed: u8,
)
    ensures
        ({
            let message = LenzMessage::Speed {
                address,
                direction,
                f0,
                speed: SpeedStep::Speed(speed),
            };
            let after = loco.after_lenz(address, message);
            &&& took_speed(loco, after, speed)
            &&& took_direction(loco, after, direction)
            &&& took_f0(loco.state, after.state, f0)
            &&& kept_functions(loco, after)
            &&& only_told(loco.motor, after.motor)
        }),
{
    let turned = loco.with_f0(f0).with_direction(direction);
    lemma_took_speed(turned, speed);
}

/// A Lenz emergency stop for the own address takes over the headlight setting and the direction,
/// and touches neither the speed nor a function.
pub proof fn lemma_lenz_emergency_stop_keeps_speed(
    loco: LocoView,
    address: u8,
    direction: bool,
    f0: bool,
)
    ensures
        ({
            let message = LenzMessage::Speed {
                address,
                direction,
                f0,
                speed: SpeedStep::EmergencyStop,
            };
            let after = loco.after_lenz(address, message);
            &&& kept_speed(loco, after)
            &&& took_direction(loco, after, direction)
            &&& took_f0(loco.state, after.state, f0)
            &&& kept_functions(loco, after)
            &&& only_told(loco.motor, after.motor)
        }),
{
}

/// A Lenz or MM1 function packet for the own address switches each of the four lines as it says,
/// with the ramp bypassed exactly when F4 is on. Speed, direction and headlight are left alone.
pub proof fn lemma_function_packets_switch_functions(
    loco: LocoView,
    address: u8,
    states: Functions,
)
    ensures
        ({
            let after = loco.after_lenz(address, LenzMessage::Function { address, states });
            &&& took_functions(after.functions, states)
            &&& after.motor.ramp_bypass == states.f4
            &&& kept_speed(loco, after)
            &&& kept_direction(loco, after)
            &&& took_f0(loco.state, after.state, loco.state.f0)
            &&& only_told(loco.motor, after.motor)
        }),
        ({
            let after = loco.after_mm_function(address, MmFunctionMessage { address, states });
            &&& took_functions(after.functions, states)
            &&& after.motor.ramp_bypass == states.f4
            &&& kept_speed(loco, after)
            &&& kept_direction(loco, after)
            &&& took_f0(loco.state, after.state, loco.state.f0)
            &&& only_told(loco.motor, after.motor)
        }),
{
}

/// An MM1 speed packet for the own address takes over the headlight setting and the speed, 0
/// included, and touches neither the direction nor a function.
pub proof fn lemma_mm1_speed_is_taken_over(loco: LocoView, address: u8, f0: bool, speed: u8)
    ensures
        ({
            let command = MmCommand::OldSpeed { speed: SpeedOrReverse::Speed(speed) };
            let after = loco.after_mm_loco(address, MmLocoMessage { address, f0, command });
            &&& took_speed(loco, after, speed)
            &&& kept_direction(loco, after)
            &&& took_f0(loco.state, after.state, f0)
            &&& kept_functions(loco, after)
            &&& only_told(loco.motor, after.motor)
        }),
{
    lemma_took_speed(loco.with_f0(f0), speed);
}

/// An MM1 reverse for the own address, with `reverse_gate` on, turns the direction and takes
/// `reverse_gate` off. The motor controller is told to go the new way, at a speed of 0 and so with
/// no target; the speed of the decoder state stays. With `reverse_gate` off, the packet only takes
/// over the headlight setting. It touches no function.
pub proof fn lemma_mm1_reverse_turns_once(loco: LocoView, address: u8, f0: bool)
    ensures
        ({
            let command = MmCommand::OldSpeed { speed: SpeedOrReverse::Reverse };
            let after = loco.after_mm_loco(address, MmLocoMessage { address, f0, command });
            &&& !after.state.reverse_gate
            &&& after.state.speed == loco.state.speed
            &&& loco.state.reverse_gate ==> {
                &&& after.state.direction == !loco.state.direction
                &&& (after.motor.pending_direction == Direction::Forward) == after.state.direction
                &&& after.motor.speed == 0
                &&& after.motor.bemf_target == 0
            }
            &&& !loco.state.reverse_gate ==> kept_direction(loco, after) && kept_speed(loco, after)
            &&& took_f0(loco.state, after.state, f0)
            &&& kept_functions(loco, after)
            &&& only_told(loco.motor, after.motor)
        }),
{
}

/// An MM2 speed packet for the own address takes over the headlight setting, the direction and the
/// speed, 0 included, and touches no function.
pub proof fn lemma_mm2_speed_is_taken_over(
    loco: LocoView,
    address: u8,
    f0: bool,
    speed: u8,
    direction: bool,
)
    ensures
        ({
            let command = MmCommand::NewSpeed { speed: SpeedOrReverse::Speed(speed), direction };
            let after = loco.after_mm_loco(address, MmLocoMessage { address, f0, command });
            &&& took_speed(loco, after, speed)
            &&& took_direction(loco, after, direction)
            &&& took_f0(loco.state, after.state, f0)
            &&& kept_functions(loco, after)
            &&& only_told(loco.motor, after.motor)
        }),
{
    lemma_took_speed(loco.with_f0(f0).with_direction(direction), speed);
}

/// An MM2 function packet for the own address takes over the headlight setting, the speed, 0
/// included, and the state of the one function, with the ramp bypass if that is F4. It touches
/// neither the direction nor another function.
pub proof fn lemma_mm2_function_is_taken_over(
    loco: LocoView,
    address: u8,
    f0: bool,
    speed: u8,
    function: u8,
    state: bool,
)
    ensures
        ({
            let command = MmCommand::Function {
                speed: SpeedOrReverse::Speed(speed),
                function,
                state,
            };
            let after = loco.after_mm_loco(address, MmLocoMessage { address, f0, command });
            &&& took_speed(loco, after, speed)
            &&& kept_direction(loco, after)
            &&& took_f0(loco.state, after.state, f0)
            &&& took_function(loco.functions, after.functions, function, state)
            &&& after.motor.ramp_bypass == (if function == 4 {
                state
            } else {
                loco.motor.ramp_bypass
            })
            &&& only_told(loco.motor, after.motor)
        }),
{
    lemma_took_speed(loco.with_f0(f0), speed);
}

/// An MM2 packet for the own address that says to reverse only takes over the headlight setting.
pub proof fn lemma_mm2_reverse_sets_headlight_only(
    loco: LocoView,
    address: u8,
    f0: bool,
    direction: bool,
    function: u8,
    state: bool,
)
    ensures
        ({
            let command = MmCommand::NewSpeed { speed: SpeedOrReverse::Reverse, direction };
            let after = loco.after_mm_loco(address, MmLocoMessage { address, f0, command });
            &&& kept_speed(loco, after)
            &&& kept_direction(loco, after)
            &&& took_f0(loco.state, after.state, f0)
            &&& kept_functions(loco, after)
            &&& only_told(loco.motor, after.motor)
        }),
        ({
            let command = MmCommand::Function { speed: SpeedOrReverse::Reverse, function, state };
            let after = loco.after_mm_loco(address, MmLocoMessage { address, f0, command });
            &&& kept_speed(loco, after)
            &&& kept_direction(loco, after)
            &&& took_f0(loco.state, after.state, f0)
            &&& kept_functions(loco, after)
            &&& only_told(loco.motor, after.motor)
        }),
{
}

/// The settings of a loco stay what they are beside a motor controller, which stays what it is.
pub proof fn lemma_settings_stand_beside_motor(settings: LocoSettings, motor: MotorView)
    ensures
        settings.with_motor(motor).state == settings.state,
        settings.with_motor(motor).functions == settings.functions,
        settings.with_motor(motor).motor == motor,
{
}

/// Both protocols are listened to unless only the other one is.
pub proof fn lemma_protocols_listened_to()
    ensures
        Protocols::Lenz.has_lenz() && !Protocols::Lenz.has_mm(),
        !Protocols::Mm.has_lenz() && Protocols::Mm.has_mm(),
        Protocols::Both.has_lenz() && Protocols::Both.has_mm(),
{
}

/// Every packet that a pulse completes acts once: without a packet, or with one that says nothing,
/// nothing changes; one packet does what it says; and several act one after the other, first the
/// Lenz packet, then the MM loco packet, then the MM function packet.
pub proof fn lemma_packets_act_in_turn(
    loco: LocoView,
    address: u8,
    lenz: Option<Seq<u8>>,
    mm_loco: Option<MmFrame>,
    mm_acc: Option<MmFrame>,
)
    ensures
        after_packets(loco, address, None, None, None) == loco,
        lenz matches Some(bytes) ==> after_packets(loco, address, lenz, None, None) == (
        match lenz_meaning(bytes) {
            Some(message) => loco.after_lenz(address, message),
            None => loco,
        }),
        mm_loco matches Some(frame) ==> after_packets(loco, address, None, mm_loco, None)
            == loco.after_mm_loco(address, mm_loco_meaning(frame)),
        mm_acc matches Some(frame) ==> after_packets(loco, address, None, None, mm_acc) == (
        match mm_acc_meaning(frame) {
            Some(message) => loco.after_mm_function(address, message),
            None => loco,
        }),
        after_packets(loco, address, lenz, mm_loco, mm_acc) == after_packets(
            after_packets(
                after_packets(loco, address, lenz, None, None),
                address,
                None,
                mm_loco,
                None,
            ),
            address,
            None,
            None,
            mm_acc,
        ),
{
}

} // verus!
