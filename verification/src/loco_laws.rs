//! What holds of the loco over any number of packets and ticks.
use crate::decoder::after_packets;
use crate::decoder_state::{headlights_for, DecoderView};
use crate::functions::{FunctionPins, Functions};
use crate::lenz::{lenz_meaning, LenzMessage, SpeedStep};
use crate::loco::LocoView;
use crate::mm::{
    mm_acc_meaning, mm_loco_meaning, MmCommand, MmFrame, MmFunctionMessage, MmLocoMessage,
    SpeedOrReverse,
};
use crate::motor_control::{direction_of, MotorState, MotorView};
use crate::motor_laws::{
    after_ticks, drive_safe, lemma_event_keeps_drive_safe, lemma_no_target_starts_nothing,
    lemma_turned_motor_stays_down, starts_nothing, MotorEvent,
};
use crate::outputs::{Level, OutputPin, PwmRegister};
use crate::packet_laws::lemma_packets_act_in_turn;
use vstd::prelude::*;

verus! {

/// Anything that happens to a loco: a packet, a motor tick, or new potentiometer readings.
pub enum LocoEvent {
    Lenz(LenzMessage),
    MmLoco(MmLocoMessage),
    MmFunction(MmFunctionMessage),
    Tick { bemf: u16 },
    Config { acc: u16, vmax: u16 },
}

/// The loco at `address` after one event.
pub open spec fn after_event(loco: LocoView, address: u8, event: LocoEvent) -> LocoView {
    match event {
        LocoEvent::Lenz(message) => loco.after_lenz(address, message),
        LocoEvent::MmLoco(message) => loco.after_mm_loco(address, message),
        LocoEvent::MmFunction(message) => loco.after_mm_function(address, message),
        LocoEvent::Tick { bemf } => LocoView { motor: loco.motor.ticked(bemf), ..loco },
        LocoEvent::Config { acc, vmax } => LocoView {
            motor: loco.motor.with_config(acc, vmax),
            ..loco
        },
    }
}

/// The loco at `address` after some events in turn.
pub open spec fn after_events(loco: LocoView, address: u8, events: Seq<LocoEvent>) -> LocoView
    decreases events.len(),
{
    if events.len() == 0 {
        loco
    } else {
        after_event(after_events(loco, address, events.drop_last()), address, events.last())
    }
}

/// The motor controller is to go the way that the decoder state says.
pub open spec fn directions_agree(loco: LocoView) -> bool {
    loco.motor.pending_direction == direction_of(loco.state.direction)
}

/// The ramp is bypassed exactly when F4 is on.
pub open spec fn bypass_follows_f4(loco: LocoView) -> bool {
    loco.motor.ramp_bypass == (loco.functions.f4.level == Level::High)
}

/// The headlights suit the direction and the headlight setting.
pub open spec fn lights_follow(loco: LocoView) -> bool {
    loco.state.lights == Some(headlights_for(loco.state.direction, loco.state.f0))
}

/// What holds of a loco once it has held is not lost from `before` to `after`.
pub open spec fn keeps_consistent(before: LocoView, after: LocoView) -> bool {
    &&& directions_agree(before) ==> directions_agree(after)
    &&& bypass_follows_f4(before) ==> bypass_follows_f4(after)
    &&& lights_follow(before) ==> lights_follow(after)
    &&& before.motor.wf() && drive_safe(before.motor) ==> after.motor.wf() && drive_safe(
        after.motor,
    )
}

/// Whatever happens: decoder state and motor controller never get out of step on the direction,
/// the ramp bypass stays with F4, the headlights stay with the direction, and the motor outputs
/// stay safe.
pub proof fn lemma_loco_stays_consistent(loco: LocoView, address: u8, events: Seq<LocoEvent>)
    ensures
        keeps_consistent(loco, after_events(loco, address, events)),
    decreases events.len(),
{
    if events.len() > 0 {
        lemma_loco_stays_consistent(loco, address, events.drop_last());
        lemma_event_keeps_consistent(
            after_events(loco, address, events.drop_last()),
            address,
            events.last(),
        );
    }
}

proof fn lemma_event_keeps_consistent(loco: LocoView, address: u8, event: LocoEvent)
    ensures
        keeps_consistent(loco, after_event(loco, address, event)),
{
    match event {
        LocoEvent::Lenz(message) => {
            lemma_lenz_keeps_consistent(loco, address, message);
        },
        LocoEvent::MmLoco(message) => {
            lemma_mm_loco_keeps_consistent(loco, address, message);
        },
        LocoEvent::MmFunction(message) => {
            lemma_functions_keep_consistent(loco, message.states);
        },
        LocoEvent::Tick { bemf } => {
            if loco.motor.wf() && drive_safe(loco.motor) {
                lemma_event_keeps_drive_safe(loco.motor, MotorEvent::Tick { bemf });
            }
        },
        LocoEvent::Config { acc, vmax } => {},
    }
}

proof fn lemma_lenz_keeps_consistent(loco: LocoView, address: u8, message: LenzMessage)
    ensures
        keeps_consistent(loco, loco.after_lenz(address, message)),
{
    match message {
        LenzMessage::Speed { direction, f0, speed, .. } => {
            let lit = loco.with_f0(f0);
            lemma_f0_keeps_consistent(loco, f0);
            lemma_direction_keeps_consistent(lit, direction);
            if let SpeedStep::Speed(speed) = speed {
                lemma_speed_keeps_consistent(lit.with_direction(direction), speed);
            }
        },
        LenzMessage::Function { states, .. } => {
            lemma_functions_keep_consistent(loco, states);
        },
        LenzMessage::Accessory => {},
    }
}

proof fn lemma_mm_loco_keeps_consistent(loco: LocoView, address: u8, message: MmLocoMessage)
    ensures
        keeps_consistent(loco, loco.after_mm_loco(address, message)),
{
    let lit = loco.with_f0(message.f0);
    lemma_f0_keeps_consistent(loco, message.f0);
    lemma_command_keeps_consistent(lit, message.command);
    lemma_keeping_adds_up(loco, lit, lit.after_command(message.command));
}

/// What is not lost in one step and not in the next is not lost in both.
proof fn lemma_keeping_adds_up(before: LocoView, between: LocoView, after: LocoView)
    requires
        keeps_consistent(before, between),
        keeps_consistent(between, after),
    ensures
        keeps_consistent(before, after),
{
}

proof fn lemma_command_keeps_consistent(loco: LocoView, command: MmCommand)
    ensures
        keeps_consistent(loco, loco.after_command(command)),
{
    match command {
        MmCommand::OldSpeed { speed: SpeedOrReverse::Speed(speed) } => {
            lemma_speed_keeps_consistent(loco, speed);
        },
        MmCommand::OldSpeed { speed: SpeedOrReverse::Reverse } => {
            lemma_reverse_keeps_consistent(loco);
        },
        MmCommand::NewSpeed { speed: SpeedOrReverse::Speed(speed), direction } => {
            lemma_direction_keeps_consistent(loco, direction);
            lemma_speed_keeps_consistent(loco.with_direction(direction), speed);
        },
        MmCommand::Function { speed: SpeedOrReverse::Speed(speed), function, state } => {
            lemma_speed_keeps_consistent(loco, speed);
            lemma_function_keeps_consistent(loco.with_speed(speed), function, state);
        },
        _ => {},
    }
}

proof fn lemma_f0_keeps_consistent(loco: LocoView, f0: bool)
    ensures
        keeps_consistent(loco, loco.with_f0(f0)),
{
}

proof fn lemma_direction_keeps_consistent(loco: LocoView, direction: bool)
    ensures
        keeps_consistent(loco, loco.with_direction(direction)),
{
}

proof fn lemma_speed_keeps_consistent(loco: LocoView, speed: u8)
    ensures
        keeps_consistent(loco, loco.with_speed(speed)),
{
}

proof fn lemma_reverse_keeps_consistent(loco: LocoView)
    ensures
        keeps_consistent(loco, loco.reversed()),
{
}

proof fn lemma_functions_keep_consistent(loco: LocoView, states: Functions)
    ensures
        keeps_consistent(loco, loco.with_functions(states)),
{
}

proof fn lemma_function_keeps_consistent(loco: LocoView, function: u8, state: bool)
    ensures
        keeps_consistent(loco, loco.with_function(function, state)),
{
}

/// Packets for another address change nothing.
pub proof fn lemma_foreign_packets_change_nothing(
    loco: LocoView,
    address: u8,
    lenz: LenzMessage,
    mm_loco: MmLocoMessage,
    mm_function: MmFunctionMessage,
)
    ensures
        (match lenz {
            LenzMessage::Speed { address: to, .. } => to != address,
            LenzMessage::Function { address: to, .. } => to != address,
            LenzMessage::Accessory => true,
        }) ==> loco.after_lenz(address, lenz) == loco,
        mm_loco.address != address ==> loco.after_mm_loco(address, mm_loco) == loco,
        mm_function.address != address ==> loco.after_mm_function(address, mm_function) == loco,
{
}

/// A Lenz packet that is repeated, as controllers repeat them, acts once.
pub proof fn lemma_repeated_lenz_acts_once(loco: LocoView, address: u8, message: LenzMessage)
    ensures
        loco.after_lenz(address, message).after_lenz(address, message) == loco.after_lenz(
            address,
            message,
        ),
{
    let once = loco.after_lenz(address, message);
    match message {
        LenzMessage::Speed { address: to, direction, f0, speed } => {
            if to == address {
                assert(once.with_f0(f0) == once);
                assert(once.with_direction(direction) == once);
                if let SpeedStep::Speed(speed) = speed {
                    assert(once.with_speed(speed) == once);
                }
            }
        },
        _ => {},
    }
}

/// An MM loco packet that is repeated, as controllers repeat them, acts once. That holds of the
/// MM1 reverse instruction too.
pub proof fn lemma_repeated_mm_loco_acts_once(loco: LocoView, address: u8, message: MmLocoMessage)
    ensures
        loco.after_mm_loco(address, message).after_mm_loco(address, message) == loco.after_mm_loco(
            address,
            message,
        ),
{
    if message.address == address {
        let once = loco.after_mm_loco(address, message);
        assert(once.with_f0(message.f0) == once);
        lemma_repeated_command_acts_once(loco.with_f0(message.f0), message.command);
    }
}

proof fn lemma_repeated_command_acts_once(loco: LocoView, command: MmCommand)
    ensures
        loco.after_command(command).after_command(command) == loco.after_command(command),
{
    let once = loco.after_command(command);
    match command {
        MmCommand::OldSpeed { speed: SpeedOrReverse::Speed(speed) } => {
            assert(once.with_speed(speed) == once);
        },
        MmCommand::OldSpeed { speed: SpeedOrReverse::Reverse } => {
            assert(once.reversed() == once);
        },
        MmCommand::NewSpeed { speed: SpeedOrReverse::Speed(speed), direction } => {
            assert(once.with_direction(direction) == once);
            assert(once.with_speed(speed) == once);
        },
        MmCommand::Function { speed: SpeedOrReverse::Speed(speed), function, state } => {
            assert(once.with_speed(speed) == once);
            assert(once.with_function(function, state) == once);
        },
        _ => {},
    }
}

/// An MM1 function packet that is repeated, as controllers repeat them, acts once.
pub proof fn lemma_repeated_mm_function_acts_once(
    loco: LocoView,
    address: u8,
    message: MmFunctionMessage,
)
    ensures
        loco.after_mm_function(address, message).after_mm_function(address, message)
            == loco.after_mm_function(address, message),
{
}

/// The packets that one pulse completes keep the loco consistent, whatever they say.
pub proof fn lemma_packets_keep_consistent(
    loco: LocoView,
    address: u8,
    lenz: Option<Seq<u8>>,
    mm_loco: Option<MmFrame>,
    mm_acc: Option<MmFrame>,
)
    ensures
        keeps_consistent(loco, after_packets(loco, address, lenz, mm_loco, mm_acc)),
{
    let first = after_packets(loco, address, lenz, None, None);
    let second = after_packets(first, address, None, mm_loco, None);
    lemma_packets_act_in_turn(loco, address, lenz, mm_loco, mm_acc);
    lemma_lenz_bytes_keep_consistent(loco, address, lenz);
    lemma_mm_loco_frame_keeps_consistent(first, address, mm_loco);
    lemma_mm_acc_frame_keeps_consistent(second, address, mm_acc);
    lemma_keeping_adds_up(loco, first, second);
    lemma_keeping_adds_up(loco, second, after_packets(second, address, None, None, mm_acc));
}

proof fn lemma_lenz_bytes_keep_consistent(loco: LocoView, address: u8, lenz: Option<Seq<u8>>)
    ensures
        keeps_consistent(loco, after_packets(loco, address, lenz, None, None)),
{
    if let Some(bytes) = lenz {
        if let Some(message) = lenz_meaning(bytes) {
            lemma_lenz_keeps_consistent(loco, address, message);
        }
    }
}

proof fn lemma_mm_loco_frame_keeps_consistent(
    loco: LocoView,
    address: u8,
    mm_loco: Option<MmFrame>,
)
    ensures
        keeps_consistent(loco, after_packets(loco, address, None, mm_loco, None)),
{
    if let Some(frame) = mm_loco {
        lemma_mm_loco_keeps_consistent(loco, address, mm_loco_meaning(frame));
    }
}

proof fn lemma_mm_acc_frame_keeps_consistent(
    loco: LocoView,
    address: u8,
    mm_acc: Option<MmFrame>,
)
    ensures
        keeps_consistent(loco, after_packets(loco, address, None, None, mm_acc)),
{
    if let Some(frame) = mm_acc {
        if let Some(message) = mm_acc_meaning(frame) {
            lemma_functions_keep_consistent(loco, message.states);
        }
    }
}

/// A new loco with F4 low, together with a new motor controller with both lines low and no duty,
/// has agreeing directions, the ramp bypass with F4 and a safe drive, and keeps them whatever
/// happens. With both headlight lines high at first, the headlights agree too.
pub proof fn lemma_new_loco_is_consistent(
    address: u8,
    f0_fw: OutputPin,
    f0_rv: OutputPin,
    functions: FunctionPins,
    events: Seq<LocoEvent>,
)
    requires
        functions.f4.level == Level::Low,
    ensures
        ({
            let low = OutputPin { level: Level::Low };
            let loco = after_events(
                LocoView {
                    state: DecoderView::initial().with_lights(f0_fw, f0_rv),
                    motor: MotorView::initial().with_outputs(low, low, PwmRegister { value: 0 }),
                    functions,
                },
                address,
                events,
            );
            &&& directions_agree(loco)
            &&& bypass_follows_f4(loco)
            &&& loco.motor.wf()
            &&& drive_safe(loco.motor)
            &&& f0_fw.level == Level::High && f0_rv.level == Level::High ==> lights_follow(loco)
        }),
{
    let low = OutputPin { level: Level::Low };
    let start = LocoView {
        state: DecoderView::initial().with_lights(f0_fw, f0_rv),
        motor: MotorView::initial().with_outputs(low, low, PwmRegister { value: 0 }),
        functions,
    };
    lemma_loco_stays_consistent(start, address, events);
}

/// A reverse that is let through turns the pending direction and leaves the motor controller with
/// nothing to drive for. From the first tick on the motor has no duty and does not run, neither
/// line goes from low to high, and once idle it stays idle. That holds of an idle and of a braking
/// motor, and of a running one that was going the way that it was told.
pub proof fn lemma_reverse_does_not_restart(loco: LocoView, bemfs: Seq<u16>)
    requires
        loco.state.reverse_gate,
        directions_agree(loco),
        drive_safe(loco.motor),
        loco.motor.state == MotorState::Run ==> loco.motor.direction
            == loco.motor.pending_direction,
        bemfs.len() > 0,
    ensures
        loco.reversed().motor.bemf_target == 0,
        loco.reversed().motor.pending_direction == direction_of(!loco.state.direction),
        loco.reversed().state.direction == !loco.state.direction,
        ({
            let before = after_ticks(loco.reversed().motor, bemfs.drop_last());
            let after = after_ticks(loco.reversed().motor, bemfs);
            &&& after.outputs->0.pwm.value == 0
            &&& after.state != MotorState::Run
            &&& after.outputs->0.fw.level == Level::High ==> before.outputs->0.fw.level
                == Level::High
            &&& after.outputs->0.rv.level == Level::High ==> before.outputs->0.rv.level
                == Level::High
            &&& before.state == MotorState::Idle ==> after.state == MotorState::Idle
        }),
{
    lemma_turned_motor_stays_down(loco.reversed().motor, bemfs);
}

/// Whatever the motor is doing and whichever way it was told to go: after a reverse that is let
/// through, no tick starts anything. Neither line goes from low to high, an idle motor stays idle,
/// and a motor that still runs was running the same way before.
pub proof fn lemma_reverse_starts_nothing(loco: LocoView, bemfs: Seq<u16>)
    requires
        loco.state.reverse_gate,
        loco.motor.outputs is Some,
        bemfs.len() > 0,
    ensures
        starts_nothing(
            after_ticks(loco.reversed().motor, bemfs.drop_last()),
            after_ticks(loco.reversed().motor, bemfs),
        ),
        starts_nothing(loco.motor, after_ticks(loco.reversed().motor, bemfs)),
{
    lemma_no_target_starts_nothing(loco.reversed().motor, bemfs);
}

} // verus!
