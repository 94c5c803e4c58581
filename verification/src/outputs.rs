//! Output lines and registers as plain values: what the logic has asked the hardware to drive.
use vstd::prelude::*;

verus! {

/// The level of a digital line.
#[derive(Clone, Copy, Debug, PartialEq, Eq, Structural)]
pub enum Level {
    Low,
    High,
}

/// A digital output line, by the level that it is to be driven to.
#[derive(Clone, Copy, Debug, PartialEq, Eq, Structural)]
pub struct OutputPin {
    pub level: Level,
}

impl OutputPin {
    /// A line at the level that it has now.
    pub fn new(level: Level) -> (pin: Self)
        ensures
            pin.level == level,
    {
        OutputPin { level }
    }

    pub fn set_high(&mut self)
        ensures
            final(self).level == Level::High,
    {
        self.level = Level::High;
    }

    pub fn set_low(&mut self)
        ensures
            final(self).level == Level::Low,
    {
        self.level = Level::Low;
    }

    /// Drives the line high or low.
    pub fn set_state(&mut self, high: bool)
        ensures
            final(self).level == level_of(high),
    {
        if high {
            self.set_high();
        } else {
            self.set_low();
        }
    }
}

/// The level that stands for a switched-on (`true`) or switched-off (`false`) push-pull line.
pub open spec fn level_of(high: bool) -> Level {
    if high {
        Level::High
    } else {
        Level::Low
    }
}

/// A timer compare register that sets a PWM duty cycle.
#[derive(Clone, Copy, Debug, PartialEq, Eq, Structural)]
pub struct PwmRegister {
    pub value: u32,
}

impl PwmRegister {
    /// A register that holds `value` now.
    pub fn new(value: u32) -> (register: Self)
        ensures
            register.value == value,
    {
        PwmRegister { value }
    }

    pub fn write(&mut self, value: u32)
        ensures
            final(self).value == value,
    {
        self.value = value;
    }
}

/// A line that is switched on is high, and one that is switched off is low.
pub proof fn lemma_high_is_on(high: bool)
    ensures
        level_of(high) == Level::High <==> high,
        level_of(high) == Level::Low <==> !high,
{
}

} // verus!
