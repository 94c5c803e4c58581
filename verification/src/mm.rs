//! Maerklin-Motorola (MM) packets, as the `mm_decoder` crate finds them in the track signal.
use crate::functions::Functions;
use mm_decoder::{
    MmAccCommand, MmAccMachine, MmFuncPacket, MmLocoCommand, MmLocoMachine, MmLocoPacket,
    MmRawAccPacket, MmSpeed,
};
use vstd::prelude::*;

verus! {

/// The MM decoder for loco packets. Holds a `mm_decoder::MmLocoMachine`.
#[verifier::external_body]
pub struct MmLocoReceiver {
    machine: MmLocoMachine,
}

/// The MM decoder for packets at the double frequency of accessories. Holds a
/// `mm_decoder::MmAccMachine`.
#[verifier::external_body]
pub struct MmAccReceiver {
    machine: MmAccMachine,
}

/// A loco packet, `mm_decoder::MmLocoPacket`.
#[verifier::external_type_specification]
#[verifier::external_body]
pub struct ExMmLocoPacket(MmLocoPacket);

/// A double-frequency packet of unknown subtype, `mm_decoder::MmRawAccPacket`.
#[verifier::external_type_specification]
#[verifier::external_body]
pub struct ExMmRawAccPacket(MmRawAccPacket);

/// An MM1 function packet, `mm_decoder::MmFuncPacket`.
#[verifier::external_type_specification]
#[verifier::external_body]
pub struct ExMmFuncPacket(MmFuncPacket);

/// Number of pulses of an MM packet: two for each of its 18 bits but the last, whose second half
/// is not waited for.
pub const MM_PACKET_PULSES: usize = 35;

/// The bits of an MM packet: eight address bits, a middle bit, and eight data bits.
pub struct MmFrame {
    pub address: u8,
    pub middle: bool,
    pub data: u8,
}

/// The pulses that a loco machine has been given since it was made.
pub uninterp spec fn mm_loco_pulses(receiver: MmLocoReceiver) -> Seq<u16>;

/// The pulses that an accessory machine has been given since it was made.
pub uninterp spec fn mm_acc_pulses(receiver: MmAccReceiver) -> Seq<u16>;

/// The bits of the packet that a new loco machine returns for the last of `pulses`, when given
/// them in turn.
pub uninterp spec fn mm_loco_received(pulses: Seq<u16>) -> Option<MmFrame>;

/// The bits of the packet that a new accessory machine returns for the last of `pulses`, when
/// given them in turn.
pub uninterp spec fn mm_acc_received(pulses: Seq<u16>) -> Option<MmFrame>;

/// The bits that a loco packet holds.
pub uninterp spec fn mm_loco_frame(packet: MmLocoPacket) -> MmFrame;

/// The bits that a double-frequency packet holds.
pub uninterp spec fn mm_acc_frame(packet: MmRawAccPacket) -> MmFrame;

/// The address byte and the data byte that a function packet holds.
pub uninterp spec fn mm_func_bytes(packet: MmFuncPacket) -> Seq<u8>;

/// The loco address that eight transmitted address bits of a loco packet stand for.
pub uninterp spec fn mm_loco_address(bits: u8) -> u8;

/// The loco address that eight transmitted address bits of a function packet stand for.
pub uninterp spec fn mm_func_address(bits: u8) -> u8;

/// What the eight data bits of a loco packet say.
pub uninterp spec fn mm_loco_command(data: u8) -> MmCommand;

/// Calls `MmLocoMachine::new`, which makes a machine that has been given no pulse.
#[verifier::external_body]
pub(crate) fn new_loco_receiver() -> (receiver: MmLocoReceiver)
    ensures
        mm_loco_pulses(receiver) == Seq::<u16>::empty(),
{
    MmLocoReceiver { machine: MmLocoMachine::new() }
}

/// Calls `MmAccMachine::new`, which makes a machine that has been given no pulse.
#[verifier::external_body]
pub(crate) fn new_acc_receiver() -> (receiver: MmAccReceiver)
    ensures
        mm_acc_pulses(receiver) == Seq::<u16>::empty(),
{
    MmAccReceiver { machine: MmAccMachine::new() }
}

/// Calls `MmLocoMachine::advance`, which gives the machine one more pulse. What it returns depends
/// on the pulses given so far and on nothing else: a packet where the pulse completes the second
/// of two equal ones. A pulse of 0 is no MM pulse: it never completes a packet, and it drops the
/// bits of a packet under way, so that the next packet takes all the pulses of a packet after it.
#[verifier::external_body]
pub(crate) fn advance_loco(receiver: &mut MmLocoReceiver, pulse: u16) -> (packet: Option<
    MmLocoPacket,
>)
    ensures
        mm_loco_pulses(*final(receiver)) == mm_loco_pulses(*old(receiver)).push(pulse),
        packet is Some <==> mm_loco_received(mm_loco_pulses(*final(receiver))) is Some,
        packet matches Some(p) ==> mm_loco_received(mm_loco_pulses(*final(receiver))) == Some(
            mm_loco_frame(p),
        ),
        pulse == 0 ==> packet is None,
        pulse == 0 ==> forall|later: Seq<u16>|
            later.len() < MM_PACKET_PULSES ==> (#[trigger] mm_loco_received(
                mm_loco_pulses(*final(receiver)) + later,
            )) is None,
{
    receiver.machine.advance(pulse)
}

/// Calls `MmAccMachine::advance`, which gives the machine one more pulse. What it returns depends
/// on the pulses given so far and on nothing else: a packet where the pulse completes the second
/// of two equal ones. A pulse of 0 is no MM pulse: it never completes a packet, and it drops the
/// bits of a packet under way, so that the next packet takes all the pulses of a packet after it.
#[verifier::external_body]
pub(crate) fn advance_acc(receiver: &mut MmAccReceiver, pulse: u16) -> (packet: Option<
    MmRawAccPacket,
>)
    ensures
        mm_acc_pulses(*final(receiver)) == mm_acc_pulses(*old(receiver)).push(pulse),
        packet is Some <==> mm_acc_received(mm_acc_pulses(*final(receiver))) is Some,
        packet matches Some(p) ==> mm_acc_received(mm_acc_pulses(*final(receiver))) == Some(
            mm_acc_frame(p),
        ),
        pulse == 0 ==> packet is None,
        pulse == 0 ==> forall|later: Seq<u16>|
            later.len() < MM_PACKET_PULSES ==> (#[trigger] mm_acc_received(
                mm_acc_pulses(*final(receiver)) + later,
            )) is None,
{
    receiver.machine.advance(pulse)
}

/// The speed part of an MM packet: a speed, or the instruction to change direction.
#[derive(Clone, Copy, Debug, PartialEq, Eq, Structural)]
pub enum SpeedOrReverse {
    Reverse,
    Speed(u8),
}

/// The instruction of an MM loco packet.
#[derive(Clone, Copy, Debug, PartialEq, Eq, Structural)]
pub enum MmCommand {
    /// MM1 speed.
    OldSpeed { speed: SpeedOrReverse },
    /// MM2 speed with absolute direction.
    NewSpeed { speed: SpeedOrReverse, direction: bool },
    /// MM2 speed with the state of one function.
    Function { speed: SpeedOrReverse, function: u8, state: bool },
}

/// `MmLocoPacket::ext_address` looks the eight address bits up in a fixed table.
pub assume_specification[ MmLocoPacket::ext_address ](packet: &MmLocoPacket) -> (address: u8)
    ensures
        address == mm_loco_address(mm_loco_frame(*packet).address),
;

/// `MmLocoPacket::f0` returns the middle bit.
pub assume_specification[ MmLocoPacket::f0 ](packet: &MmLocoPacket) -> (f0: bool)
    ensures
        f0 == mm_loco_frame(*packet).middle,
;

/// Calls `MmLocoPacket::command`, which reads the instruction from the eight data bits.
#[verifier::external_body]
fn loco_command(packet: &MmLocoPacket) -> (command: MmCommand)
    ensures
        command == mm_loco_command(mm_loco_frame(*packet).data),
{
    match packet.command() {
        MmLocoCommand::OldSpeed(MmSpeed::Reverse) => MmCommand::OldSpeed { speed: SpeedOrReverse::Reverse },
        MmLocoCommand::OldSpeed(MmSpeed::Speed(s)) => MmCommand::OldSpeed { speed: SpeedOrReverse::Speed(s) },
        MmLocoCommand::NewSpeed { speed: MmSpeed::Reverse, direction } =>
            MmCommand::NewSpeed { speed: SpeedOrReverse::Reverse, direction },
        MmLocoCommand::NewSpeed { speed: MmSpeed::Speed(s), direction } =>
            MmCommand::NewSpeed { speed: SpeedOrReverse::Speed(s), direction },
        MmLocoCommand::Function { speed: MmSpeed::Reverse, function, state } =>
            MmCommand::Function { speed: SpeedOrReverse::Reverse, function, state },
        MmLocoCommand::Function { speed: MmSpeed::Speed(s), function, state } =>
            MmCommand::Function { speed: SpeedOrReverse::Speed(s), function, state },
    }
}

/// What kind of packet a double-frequency packet is.
enum MmAccSubtype {
    Accessory,
    Function(MmFuncPacket),
}

/// Calls `MmRawAccPacket::get_type`, which tells a loco function packet from an accessory packet
/// by the middle bit. The address and data bits stay.
#[verifier::external_body]
fn acc_subtype(packet: MmRawAccPacket) -> (subtype: MmAccSubtype)
    ensures
        match subtype {
            MmAccSubtype::Accessory => !mm_acc_frame(packet).middle,
            MmAccSubtype::Function(function) => {
                &&& mm_acc_frame(packet).middle
                &&& mm_func_bytes(function) == seq![
                    mm_acc_frame(packet).address,
                    mm_acc_frame(packet).data,
                ]
            },
        },
{
    match packet.get_type() {
        MmAccCommand::Acc(_) => MmAccSubtype::Accessory,
        MmAccCommand::Func(function) => MmAccSubtype::Function(function),
    }
}

/// `MmFuncPacket::ext_address` looks the eight address bits up in a fixed table.
pub assume_specification[ MmFuncPacket::ext_address ](packet: &MmFuncPacket) -> (address: u8)
    ensures
        address == mm_func_address(mm_func_bytes(*packet)[0]),
;

/// `MmFuncPacket::states` returns, for each pair of data bits from the highest down, whether one
/// of the two is set.
pub assume_specification[ MmFuncPacket::states ](packet: &MmFuncPacket) -> (states: [bool; 4])
    ensures
        states@ == seq![
            mm_func_bytes(*packet)[1] & 0b1100_0000 != 0,
            mm_func_bytes(*packet)[1] & 0b0011_0000 != 0,
            mm_func_bytes(*packet)[1] & 0b0000_1100 != 0,
            mm_func_bytes(*packet)[1] & 0b0000_0011 != 0,
        ],
;

/// What an MM loco packet says.
#[derive(Clone, Copy, Debug, PartialEq, Eq, Structural)]
pub struct MmLocoMessage {
    pub address: u8,
    pub f0: bool,
    pub command: MmCommand,
}

/// What the bits of an MM loco packet say.
pub open spec fn mm_loco_meaning(frame: MmFrame) -> MmLocoMessage {
    MmLocoMessage {
        address: mm_loco_address(frame.address),
        f0: frame.middle,
        command: mm_loco_command(frame.data),
    }
}

/// Reads an MM loco packet.
pub fn read_mm_loco(packet: &MmLocoPacket) -> (message: MmLocoMessage)
    ensures
        message == mm_loco_meaning(mm_loco_frame(*packet)),
{
    MmLocoMessage {
        address: packet.ext_address(),
        f0: packet.f0(),
        command: loco_command(packet),
    }
}

/// What an MM1 function packet says.
#[derive(Clone, Copy, Debug, PartialEq, Eq, Structural)]
pub struct MmFunctionMessage {
    pub address: u8,
    pub states: Functions,
}

/// What the bits of a double-frequency packet say, if it is a function packet.
pub open spec fn mm_acc_meaning(frame: MmFrame) -> Option<MmFunctionMessage> {
    if frame.middle {
        Some(
            MmFunctionMessage {
                address: mm_func_address(frame.address),
                states: Functions {
                    f1: frame.data & 0b1100_0000 != 0,
                    f2: frame.data & 0b0011_0000 != 0,
                    f3: frame.data & 0b0000_1100 != 0,
                    f4: frame.data & 0b0000_0011 != 0,
                },
            },
        )
    } else {
        None
    }
}

/// Reads a double-frequency packet.
pub fn read_mm_acc(packet: MmRawAccPacket) -> (message: Option<MmFunctionMessage>)
    ensures
        message == mm_acc_meaning(mm_acc_frame(packet)),
{
    match acc_subtype(packet) {
        MmAccSubtype::Accessory => None,
        MmAccSubtype::Function(function) => {
            let states: [bool; 4] = function.states();
            Some(
                MmFunctionMessage {
                    address: function.ext_address(),
                    states: Functions {
                        f1: states[0],
                        f2: states[1],
                        f3: states[2],
                        f4: states[3],
                    },
                },
            )
        },
    }
}

/// What an MM loco packet says: the headlight setting is its middle bit, the address is that of
/// its address bits alone, and the instruction that of its data bits alone.
pub proof fn lemma_mm_loco_packet_says(frame: MmFrame)
    ensures
        mm_loco_meaning(frame).f0 == frame.middle,
        mm_loco_meaning(frame).address == mm_loco_address(frame.address),
        mm_loco_meaning(frame).command == mm_loco_command(frame.data),
        MM_PACKET_PULSES == 35,
{
}

/// What a double-frequency packet says: something exactly when its middle bit is set. Each of the
/// functions F1 to F4, in this order, has a pair of data bits from the highest down, and is on
/// unless both are 0.
pub proof fn lemma_mm_function_packet_says(frame: MmFrame)
    ensures
        mm_acc_meaning(frame) is Some <==> frame.middle,
        mm_acc_meaning(frame) matches Some(message) ==> {
            &&& message.address == mm_func_address(frame.address)
            &&& message.states.f1 <==> frame.data as int / 64 != 0
            &&& message.states.f2 <==> frame.data as int / 16 % 4 != 0
            &&& message.states.f3 <==> frame.data as int / 4 % 4 != 0
            &&& message.states.f4 <==> frame.data as int % 4 != 0
        },
{
    let data = frame.data;
    assert(data & 0b1100_0000 != 0 <==> data / 64 != 0) by (bit_vector);
    assert(data & 0b0011_0000 != 0 <==> data / 16 % 4 != 0) by (bit_vector);
    assert(data & 0b0000_1100 != 0 <==> data / 4 % 4 != 0) by (bit_vector);
    assert(data & 0b0000_0011 != 0 <==> data % 4 != 0) by (bit_vector);
}

} // verus!
