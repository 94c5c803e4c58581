//! From the edges of the track signal to the pulse widths that the protocol decoders read.
use crate::mm::MM_PACKET_PULSES;
use crate::ring_buffer::{RingBuffer, RingProducer};
use vstd::prelude::*;

verus! {

/// Number of slots of the pulse ring.
pub const N_PULSE_BUF: usize = 64;

/// Asymmetry of the level shifter, in microseconds.
pub const ASYM_COMP_US: u16 = 5;

/// The pulse that tells the protocol decoders to start over.
pub const RESET_PULSE: u16 = 0;

/// The time between two readings of a timer that counts microseconds in 16 bits.
pub open spec fn elapsed(from: u16, to: u16) -> int {
    (to - from) % 0x1_0000
}

/// The width of the pulse that ends at an edge captured at `ccr1`: the reset pulse if an edge was
/// missed or no time has passed; otherwise the elapsed time, corrected for the level shifter and
/// kept within 16 bits.
pub open spec fn pulse_width(last_ccr1: u16, ccr1: u16, overcapture: bool, high: bool) -> int {
    let raw = if overcapture {
        RESET_PULSE as int
    } else {
        elapsed(last_ccr1, ccr1)
    };
    if raw == 0 {
        RESET_PULSE as int
    } else if high {
        if raw >= ASYM_COMP_US {
            raw - ASYM_COMP_US
        } else {
            0
        }
    } else {
        if raw + ASYM_COMP_US <= u16::MAX {
            raw + ASYM_COMP_US
        } else {
            u16::MAX as int
        }
    }
}

/// The edge detector: remembers when the last edge was.
pub struct EdgeCapture {
    last_ccr1: u16,
}

impl View for EdgeCapture {
    type V = u16;

    /// The timer reading at the last edge.
    closed spec fn view(&self) -> u16 {
        self.last_ccr1
    }
}

impl EdgeCapture {
    pub fn new() -> (capture: Self)
        ensures
            capture@ == 0,
    {
        EdgeCapture { last_ccr1: 0 }
    }

    /// The width of the pulse that ends at the edge captured at `ccr1`. `overcapture` says that
    /// an edge before it was missed, and `high` is the level of the line after the edge.
    pub fn pulse(&self, ccr1: u16, overcapture: bool, high: bool) -> (pulse: u16)
        ensures
            pulse == pulse_width(self@, ccr1, overcapture, high),
    {
        let raw_pulse: u16 = if overcapture {
            RESET_PULSE
        } else {
            ccr1.wrapping_sub(self.last_ccr1)
        };
        if raw_pulse == 0 {
            RESET_PULSE
        } else if high {
            raw_pulse.saturating_sub(ASYM_COMP_US)
        } else {
            raw_pulse.saturating_add(ASYM_COMP_US)
        }
    }

    /// Takes an edge: the pulse that it ends goes into the ring. A full ring is emptied first and
    /// gets the reset pulse in place of it, as its pulses no longer join up. Returns whether that
    /// was so.
    pub fn on_edge<const N: usize>(
        &mut self,
        producer: &mut RingProducer<u16, N>,
        ring: &mut RingBuffer<u16, N>,
        ccr1: u16,
        overcapture: bool,
        high: bool,
    ) -> (overflow: bool)
        requires
            old(ring).wf(),
            old(producer).acts_on(*old(ring)),
            N > 0,
        ensures
            final(self)@ == ccr1,
            final(ring).wf(),
            final(ring).origin() == old(ring).origin(),
            *final(producer) == *old(producer),
            overflow == (old(ring)@.len() + 1 == N),
            !overflow ==> final(ring)@ == old(ring)@.push(
                pulse_width(old(self)@, ccr1, overcapture, high) as u16,
            ),
            overflow && N > 1 ==> final(ring)@ == seq![RESET_PULSE],
            overflow && N == 1 ==> final(ring)@ == Seq::<u16>::empty(),
    {
        let pulse: u16 = self.pulse(ccr1, overcapture, high);
        let overflow: bool = producer.put(ring, pulse).is_err();
        if overflow {
            producer.reset(ring);
            let _ = producer.put(ring, RESET_PULSE);
        }
        self.last_ccr1 = ccr1;
        overflow
    }
}

/// A wait of up to 65535 microseconds is measured as it is, also where the timer wraps meanwhile.
pub proof fn lemma_elapsed_across_wrap(from: u16, to: u16, wait: u16)
    requires
        to == (from + wait) % 0x1_0000,
    ensures
        elapsed(from, to) == wait,
{
}

/// The elapsed time does not depend on where the timer stands: shifting both readings by the same
/// amount changes nothing.
pub proof fn lemma_elapsed_is_relative(from: u16, to: u16, shift: u16)
    ensures
        elapsed(((from + shift) % 0x1_0000) as u16, ((to + shift) % 0x1_0000) as u16) == elapsed(
            from,
            to,
        ),
{
}

/// A missed edge always gives the reset pulse.
pub proof fn lemma_missed_edge_resets(last_ccr1: u16, ccr1: u16, high: bool)
    ensures
        pulse_width(last_ccr1, ccr1, true, high) == RESET_PULSE,
{
}

/// Where nothing saturates, the correction takes from the high pulse what it gives to the low one,
/// so that a period keeps its length.
pub proof fn lemma_correction_keeps_period(start: u16, middle: u16, end: u16)
    requires
        ASYM_COMP_US <= elapsed(start, middle),
        0 < elapsed(middle, end) <= u16::MAX - ASYM_COMP_US,
    ensures
        pulse_width(start, middle, false, true) + pulse_width(middle, end, false, false)
            == elapsed(start, middle) + elapsed(middle, end),
{
}

/// The pulse that ends at an edge, `wait` microseconds after the one before: the reset pulse, 0, if
/// an edge was missed or no time has passed; otherwise 5 us less than the wait where the line is
/// high after the edge, but not below 0, and 5 us more where it is low, but not above 65535.
pub proof fn lemma_pulse_is_corrected_wait(
    last_ccr1: u16,
    ccr1: u16,
    wait: u16,
    overcapture: bool,
    high: bool,
)
    requires
        ccr1 == last_ccr1 + wait || ccr1 + 65_536 == last_ccr1 + wait,
    ensures
        RESET_PULSE == 0,
        ({
            let pulse = pulse_width(last_ccr1, ccr1, overcapture, high);
            &&& overcapture || wait == 0 ==> pulse == 0
            &&& !overcapture && wait > 0 && high ==> pulse == (if wait >= 5 { wait - 5 } else { 0 })
            &&& !overcapture && wait > 0 && !high ==> pulse == (if wait <= 65_530 {
                wait + 5
            } else {
                65_535
            })
        }),
{
}

/// The pulse ring has 64 slots, and so room for all the pulses of an MM packet.
pub proof fn lemma_pulse_ring_holds_a_packet()
    ensures
        N_PULSE_BUF == 64,
        N_PULSE_BUF > MM_PACKET_PULSES,
{
}

} // verus!
