//! Lenz packets, as the `lenz_decoder` crate finds them in the track signal.
use crate::functions::Functions;
use lenz_decoder::{
    LenzCommand, LenzFunctionCommand, LenzMachine, LenzPacket, LenzSpeed, LenzSpeedCommand,
};
use vstd::prelude::*;

verus! {

/// The Lenz protocol decoder, `lenz_decoder::LenzMachine`.
#[verifier::external_type_specification]
#[verifier::external_body]
pub struct ExLenzMachine(LenzMachine);

/// A checked packet of unknown subtype, `lenz_decoder::LenzPacket`.
#[verifier::external_type_specification]
#[verifier::external_body]
pub struct ExLenzPacket(LenzPacket);

/// A speed packet, `lenz_decoder::LenzSpeedCommand`.
#[verifier::external_type_specification]
#[verifier::external_body]
pub struct ExLenzSpeedCommand(LenzSpeedCommand);

/// A function packet, `lenz_decoder::LenzFunctionCommand`.
#[verifier::external_type_specification]
#[verifier::external_body]
pub struct ExLenzFunctionCommand(LenzFunctionCommand);

/// The pulses that a Lenz machine has been given since it was made.
pub uninterp spec fn lenz_pulses(machine: LenzMachine) -> Seq<u16>;

/// The two payload bytes of the packet that a new Lenz machine returns for the last of `pulses`,
/// when given them in turn.
pub uninterp spec fn lenz_payload(pulses: Seq<u16>) -> Option<Seq<u8>>;

/// The two payload bytes that a packet holds.
pub uninterp spec fn lenz_packet_bytes(packet: LenzPacket) -> Seq<u8>;

/// The two payload bytes that a speed packet holds.
pub uninterp spec fn lenz_speed_bytes(command: LenzSpeedCommand) -> Seq<u8>;

/// The two payload bytes that a function packet holds.
pub uninterp spec fn lenz_function_bytes(command: LenzFunctionCommand) -> Seq<u8>;

/// `LenzMachine::new` makes a machine that has been given no pulse.
pub assume_specification[ LenzMachine::new ]() -> (machine: LenzMachine)
    ensures
        lenz_pulses(machine) == Seq::<u16>::empty(),
;

/// `LenzMachine::advance` gives the machine one more pulse. What it returns depends on the pulses
/// given so far and on nothing else: a packet of two payload bytes where the pulse completes one.
/// A pulse of 0 is no Lenz pulse: it never completes a packet, and it makes the machine start over,
/// so that what comes later does not depend on what came before.
pub assume_specification[ LenzMachine::advance ](machine: &mut LenzMachine, pulse: u16) -> (packet:
    Option<LenzPacket>)
    ensures
        lenz_pulses(*final(machine)) == lenz_pulses(*old(machine)).push(pulse),
        packet is Some <==> lenz_payload(lenz_pulses(*final(machine))) is Some,
        packet matches Some(p) ==> lenz_payload(lenz_pulses(*final(machine))) == Some(
            lenz_packet_bytes(p),
        ),
        pulse == 0 ==> packet is None,
        pulse == 0 ==> forall|later: Seq<u16>|
            #[trigger] lenz_payload(lenz_pulses(*final(machine)) + later) == lenz_payload(
                seq![0u16] + later,
            ),
;

/// What kind of packet a Lenz packet is.
enum LenzSubtype {
    Speed(LenzSpeedCommand),
    Function(LenzFunctionCommand),
    Accessory,
}

/// A loco packet: its first byte is an address from 1 to 127.
pub open spec fn is_loco(bytes: Seq<u8>) -> bool {
    1 <= bytes[0] <= 127
}

/// Calls `LenzPacket::get_type`, which tells the subtype of a packet: with an address from 1 to
/// 127, a speed or a function packet where the two high bits of the second byte are 01 or 10; an
/// accessory packet with a first byte from 128 to 191; and none otherwise. The bytes stay.
#[verifier::external_body]
fn lenz_subtype(packet: LenzPacket) -> (subtype: Option<LenzSubtype>)
    ensures
        ({
            let bytes = lenz_packet_bytes(packet);
            let kind = bytes[1] & 0b1100_0000;
            match subtype {
                Some(LenzSubtype::Speed(command)) => {
                    &&& is_loco(bytes)
                    &&& kind == 0b0100_0000
                    &&& lenz_speed_bytes(command) == bytes
                },
                Some(LenzSubtype::Function(command)) => {
                    &&& is_loco(bytes)
                    &&& kind == 0b1000_0000
                    &&& lenz_function_bytes(command) == bytes
                },
                Some(LenzSubtype::Accessory) => 128 <= bytes[0] <= 191,
                None => {
                    &&& !(is_loco(bytes) && (kind == 0b0100_0000 || kind == 0b1000_0000))
                    &&& !(128 <= bytes[0] <= 191)
                },
            }
        }),
{
    match packet.get_type() {
        Some(LenzCommand::Speed(command)) => Some(LenzSubtype::Speed(command)),
        Some(LenzCommand::Function(command)) => Some(LenzSubtype::Function(command)),
        Some(LenzCommand::Accessory(_)) => Some(LenzSubtype::Accessory),
        None => None,
    }
}

/// `LenzSpeedCommand::address` returns the low seven bits of the first byte.
pub assume_specification[ LenzSpeedCommand::address ](command: &LenzSpeedCommand) -> (address: u8)
    ensures
        address == lenz_speed_bytes(*command)[0] & 0b0111_1111,
;

/// `LenzSpeedCommand::direction` returns bit 5 of the second byte.
pub assume_specification[ LenzSpeedCommand::direction ](command: &LenzSpeedCommand) -> (direction:
    bool)
    ensures
        direction == (lenz_speed_bytes(*command)[1] & 0b0010_0000 != 0),
;

/// `LenzSpeedCommand::f0` returns bit 4 of the second byte.
pub assume_specification[ LenzSpeedCommand::f0 ](command: &LenzSpeedCommand) -> (f0: bool)
    ensures
        f0 == (lenz_speed_bytes(*command)[1] & 0b0001_0000 != 0),
;

/// The speed part of a speed packet.
#[derive(Clone, Copy, Debug, PartialEq, Eq, Structural)]
pub enum SpeedStep {
    EmergencyStop,
    Speed(u8),
}

/// The speed that four bits stand for: 1 is the emergency stop, and the settings above it are
/// shifted down by one.
pub open spec fn speed_step(code: u8) -> SpeedStep {
    if code == 0 {
        SpeedStep::Speed(0)
    } else if code == 1 {
        SpeedStep::EmergencyStop
    } else {
        SpeedStep::Speed((code - 1) as u8)
    }
}

/// Calls `LenzSpeedCommand::speed`, which returns the speed that the low four bits of the second
/// byte stand for.
#[verifier::external_body]
fn lenz_speed(command: &LenzSpeedCommand) -> (speed: SpeedStep)
    ensures
        speed == speed_step(lenz_speed_bytes(*command)[1] & 0b0000_1111),
{
    match command.speed() {
        LenzSpeed::EmergencyStop => SpeedStep::EmergencyStop,
        LenzSpeed::Speed(speed) => SpeedStep::Speed(speed),
    }
}

/// `LenzFunctionCommand::address` returns the low seven bits of the first byte.
pub assume_specification[ LenzFunctionCommand::address ](command: &LenzFunctionCommand) -> (address:
    u8)
    ensures
        address == lenz_function_bytes(*command)[0] & 0b0111_1111,
;

/// `LenzFunctionCommand::states` returns the low four bits of the second byte, lowest first.
pub assume_specification[ LenzFunctionCommand::states ](command: &LenzFunctionCommand) -> (states:
    [bool; 4])
    ensures
        states@ == seq![
            lenz_function_bytes(*command)[1] & 0b0001 != 0,
            lenz_function_bytes(*command)[1] & 0b0010 != 0,
            lenz_function_bytes(*command)[1] & 0b0100 != 0,
            lenz_function_bytes(*command)[1] & 0b1000 != 0,
        ],
;

/// What a Lenz packet says.
#[derive(Clone, Copy, Debug, PartialEq, Eq, Structural)]
pub enum LenzMessage {
    Speed { address: u8, direction: bool, f0: bool, speed: SpeedStep },
    Function { address: u8, states: Functions },
    Accessory,
}

/// What the two payload bytes of a Lenz packet say, if anything.
pub open spec fn lenz_meaning(bytes: Seq<u8>) -> Option<LenzMessage> {
    let kind = bytes[1] & 0b1100_0000;
    if is_loco(bytes) && kind == 0b0100_0000 {
        Some(
            LenzMessage::Speed {
                address: bytes[0] & 0b0111_1111,
                direction: bytes[1] & 0b0010_0000 != 0,
                f0: bytes[1] & 0b0001_0000 != 0,
                speed: speed_step(bytes[1] & 0b0000_1111),
            },
        )
    } else if is_loco(bytes) && kind == 0b1000_0000 {
        Some(
            LenzMessage::Function {
                address: bytes[0] & 0b0111_1111,
                states: Functions {
                    f1: bytes[1] & 0b0001 != 0,
                    f2: bytes[1] & 0b0010 != 0,
                    f3: bytes[1] & 0b0100 != 0,
                    f4: bytes[1] & 0b1000 != 0,
                },
            },
        )
    } else if 128 <= bytes[0] <= 191 {
        Some(LenzMessage::Accessory)
    } else {
        None
    }
}

/// Reads a Lenz packet.
pub fn read_lenz(packet: LenzPacket) -> (message: Option<LenzMessage>)
    ensures
        message == lenz_meaning(lenz_packet_bytes(packet)),
{
    match lenz_subtype(packet) {
        Some(LenzSubtype::Speed(command)) => {
            Some(
                LenzMessage::Speed {
                    address: command.address(),
                    direction: command.direction(),
                    f0: command.f0(),
                    speed: lenz_speed(&command),
                },
            )
        },
        Some(LenzSubtype::Function(command)) => {
            let states: [bool; 4] = command.states();
            Some(
                LenzMessage::Function {
                    address: command.address(),
                    states: Functions {
                        f1: states[0],
                        f2: states[1],
                        f3: states[2],
                        f4: states[3],
                    },
                },
            )
        },
        Some(LenzSubtype::Accessory) => Some(LenzMessage::Accessory),
        None => None,
    }
}

/// What a Lenz packet says, by its two payload bytes as numbers. With a first byte from 1 to 127,
/// which is the address, a second byte from 64 to 127 makes a speed packet and one from 128 to 191
/// a function packet. A first byte from 128 to 191 makes an accessory packet. Nothing else says
/// anything.
pub proof fn lemma_lenz_packet_kinds(bytes: Seq<u8>)
    ensures
        ({
            let loco = 1 <= bytes[0] <= 127;
            let message = lenz_meaning(bytes);
            &&& (message matches Some(LenzMessage::Speed { .. })) <==> loco && 64 <= bytes[1] < 128
            &&& (message matches Some(LenzMessage::Function { .. })) <==> loco && 128 <= bytes[1]
                < 192
            &&& (message matches Some(LenzMessage::Accessory)) <==> 128 <= bytes[0] <= 191
        }),
{
    let b = bytes[1];
    assert(b & 0b1100_0000 == 0b0100_0000 <==> 64 <= b < 128) by (bit_vector);
    assert(b & 0b1100_0000 == 0b1000_0000 <==> 128 <= b < 192) by (bit_vector);
}

/// What a Lenz speed packet says: the low four bits are 0 for a speed of 0, 1 for the emergency
/// stop, and otherwise one more than the speed; above them lie the headlight setting and the
/// direction. The address is the first byte.
pub proof fn lemma_lenz_speed_packet_says(bytes: Seq<u8>)
    requires
        1 <= bytes[0] <= 127,
        64 <= bytes[1] < 128,
    ensures
        lenz_meaning(bytes) matches Some(LenzMessage::Speed { address, direction, f0, speed }) && {
            let code = bytes[1] as int % 16;
            &&& address == bytes[0]
            &&& direction <==> bytes[1] as int / 32 % 2 == 1
            &&& f0 <==> bytes[1] as int / 16 % 2 == 1
            &&& code == 0 ==> speed == SpeedStep::Speed(0)
            &&& code == 1 ==> speed == SpeedStep::EmergencyStop
            &&& code > 1 ==> (speed matches SpeedStep::Speed(step) && step == code - 1)
        },
{
    let a = bytes[0];
    let b = bytes[1];
    lemma_lenz_packet_kinds(bytes);
    assert(1 <= a <= 127 ==> a & 0b0111_1111 == a) by (bit_vector);
    assert(b & 0b0010_0000 != 0 <==> b / 32 % 2 == 1) by (bit_vector);
    assert(b & 0b0001_0000 != 0 <==> b / 16 % 2 == 1) by (bit_vector);
    assert(b & 0b0000_1111 == b % 16) by (bit_vector);
}

/// What a Lenz function packet says: the four low bits are the functions F1 to F4, F1 the lowest.
/// The address is the first byte.
pub proof fn lemma_lenz_function_packet_says(bytes: Seq<u8>)
    requires
        1 <= bytes[0] <= 127,
        128 <= bytes[1] < 192,
    ensures
        lenz_meaning(bytes) matches Some(LenzMessage::Function { address, states }) && {
            &&& address == bytes[0]
            &&& states.f1 <==> bytes[1] as int % 2 == 1
            &&& states.f2 <==> bytes[1] as int / 2 % 2 == 1
            &&& states.f3 <==> bytes[1] as int / 4 % 2 == 1
            &&& states.f4 <==> bytes[1] as int / 8 % 2 == 1
        },
{
    let a = bytes[0];
    let b = bytes[1];
    lemma_lenz_packet_kinds(bytes);
    assert(1 <= a <= 127 ==> a & 0b0111_1111 == a) by (bit_vector);
    assert(b & 0b0001 != 0 <==> b % 2 == 1) by (bit_vector);
    assert(b & 0b0010 != 0 <==> b / 2 % 2 == 1) by (bit_vector);
    assert(b & 0b0100 != 0 <==> b / 4 % 2 == 1) by (bit_vector);
    assert(b & 0b1000 != 0 <==> b / 8 % 2 == 1) by (bit_vector);
}

} // verus!
