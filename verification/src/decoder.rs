//! The decoder: gives the pulses of the track signal to the protocol decoders, and lets the loco act
//! on the packets that they find.
use crate::lenz::{lenz_meaning, lenz_payload, lenz_pulses, read_lenz};
use crate::loco::{Loco, LocoSettings, LocoView};
use crate::mm::{
    advance_acc, advance_loco, mm_acc_meaning, mm_acc_pulses, mm_acc_received, mm_loco_meaning,
    mm_loco_pulses, mm_loco_received, new_acc_receiver, new_loco_receiver, read_mm_acc,
    read_mm_loco, MmAccReceiver, MmFrame, MmLocoReceiver, MM_PACKET_PULSES,
};
use crate::motor_control::MotorControl;
use lenz_decoder::LenzMachine;
use vstd::prelude::*;

verus! {

/// Which protocols are listened to: at least one.
#[derive(Clone, Copy, Debug, PartialEq, Eq, Structural)]
pub enum Protocols {
    Lenz,
    Mm,
    Both,
}

impl Protocols {
    pub open spec fn has_lenz(self) -> bool {
        self != Protocols::Mm
    }

    pub open spec fn has_mm(self) -> bool {
        self != Protocols::Lenz
    }
}

/// The loco after a pulse, for a decoder at `address`: the packets that the pulse completes act in
/// the order Lenz, MM loco, MM function.
pub open spec fn after_packets(
    loco: LocoView,
    address: u8,
    lenz: Option<Seq<u8>>,
    mm_loco: Option<MmFrame>,
    mm_acc: Option<MmFrame>,
) -> LocoView {
    let first = match lenz {
        Some(bytes) => match lenz_meaning(bytes) {
            Some(message) => loco.after_lenz(address, message),
            None => loco,
        },
        None => loco,
    };
    let second = match mm_loco {
        Some(frame) => first.after_mm_loco(address, mm_loco_meaning(frame)),
        None => first,
    };
    match mm_acc {
        Some(frame) => match mm_acc_meaning(frame) {
            Some(message) => second.after_mm_function(address, message),
            None => second,
        },
        None => second,
    }
}

/// The decoder.
pub struct Decoder {
    protocols: Protocols,
    loco: Loco,
    lenz_machine: LenzMachine,
    mm_loco_receiver: MmLocoReceiver,
    mm_acc_receiver: MmAccReceiver,
}

impl Decoder {
    /// The protocols that are listened to.
    pub closed spec fn protocols(&self) -> Protocols {
        self.protocols
    }

    /// The settings of the loco that the packets act on.
    pub closed spec fn settings(&self) -> LocoSettings {
        self.loco@
    }

    /// The pulses that the protocol decoders have been given.
    pub closed spec fn pulses(&self) -> Seq<u16> {
        if self.protocols.has_lenz() {
            lenz_pulses(self.lenz_machine)
        } else {
            mm_loco_pulses(self.mm_loco_receiver)
        }
    }

    /// All protocol decoders that are listened to have been given the same pulses.
    pub closed spec fn wf(&self) -> bool {
        &&& self.loco.wf()
        &&& self.protocols.has_lenz() ==> lenz_pulses(self.lenz_machine) == self.pulses()
        &&& self.protocols.has_mm() ==> {
            &&& mm_loco_pulses(self.mm_loco_receiver) == self.pulses()
            &&& mm_acc_pulses(self.mm_acc_receiver) == self.pulses()
        }
    }

    /// A decoder for `loco` that listens to `protocols`.
    pub fn new(protocols: Protocols, loco: Loco) -> (decoder: Self)
        requires
            loco.wf(),
        ensures
            decoder.wf(),
            decoder.protocols() == protocols,
            decoder.settings() == loco@,
            decoder.pulses() == Seq::<u16>::empty(),
    {
        Decoder {
            protocols,
            loco,
            lenz_machine: LenzMachine::new(),
            mm_loco_receiver: new_loco_receiver(),
            mm_acc_receiver: new_acc_receiver(),
        }
    }

    /// The loco that the packets act on.
    pub fn loco(&self) -> (loco: &Loco)
        requires
            self.wf(),
        ensures
            loco@ == self.settings(),
            loco.wf(),
    {
        &self.loco
    }

    /// Gives a pulse of the track signal to the protocol decoders, and acts on the packets that it
    /// completes. A pulse of 0 completes none and makes the protocol decoders start over: what the
    /// Lenz decoder finds after it does not depend on what came before, and the MM decoders find
    /// nothing until all the pulses of a packet have come.
    pub fn process_pulse(&mut self, motor: &mut MotorControl, pulse: u16)
        requires
            old(self).wf(),
        ensures
            final(self).wf(),
            final(self).protocols() == old(self).protocols(),
            final(self).pulses() == old(self).pulses().push(pulse),
            final(self).settings().address == old(self).settings().address,
            final(self).settings().with_motor(final(motor)@) == after_packets(
                old(self).settings().with_motor(old(motor)@),
                old(self).settings().address,
                if old(self).protocols().has_lenz() {
                    lenz_payload(final(self).pulses())
                } else {
                    None
                },
                if old(self).protocols().has_mm() {
                    mm_loco_received(final(self).pulses())
                } else {
                    None
                },
                if old(self).protocols().has_mm() {
                    mm_acc_received(final(self).pulses())
                } else {
                    None
                },
            ),
            pulse == 0 ==> {
                &&& final(self).settings() == old(self).settings()
                &&& *final(motor) == *old(motor)
            },
            pulse == 0 && old(self).protocols().has_lenz() ==> forall|later: Seq<u16>|
                #[trigger] lenz_payload(final(self).pulses() + later) == lenz_payload(
                    seq![0u16] + later,
                ),
            pulse == 0 && old(self).protocols().has_mm() ==> {
                &&& forall|later: Seq<u16>|
                    later.len() < MM_PACKET_PULSES ==> (#[trigger] mm_loco_received(
                        final(self).pulses() + later,
                    )) is None
                &&& forall|later: Seq<u16>|
                    later.len() < MM_PACKET_PULSES ==> (#[trigger] mm_acc_received(
                        final(self).pulses() + later,
                    )) is None
            },
    {
        if self.protocols != Protocols::Mm {
            if let Some(packet) = self.lenz_machine.advance(pulse) {
                if let Some(message) = read_lenz(packet) {
                    self.loco.on_lenz(motor, message);
                }
            }
        }
        if self.protocols != Protocols::Lenz {
            if let Some(packet) = advance_loco(&mut self.mm_loco_receiver, pulse) {
                self.loco.on_mm_loco(motor, read_mm_loco(&packet));
            }
            if let Some(packet) = advance_acc(&mut self.mm_acc_receiver, pulse) {
                if let Some(message) = read_mm_acc(packet) {
                    self.loco.on_mm_function(motor, message);
                }
            }
        }
    }
}

} // verus!
