//! The functions F1 to F4 and the lines that they switch.
use crate::outputs::{level_of, Level, OutputPin};
use vstd::prelude::*;

verus! {

/// The states of the functions F1 to F4.
#[derive(Clone, Copy, Debug, PartialEq, Eq, Structural)]
pub struct Functions {
    pub f1: bool,
    pub f2: bool,
    pub f3: bool,
    pub f4: bool,
}

/// The lines of the functions F1 to F4.
#[derive(Clone, Copy, Debug, PartialEq, Eq, Structural)]
pub struct FunctionPins {
    pub f1: OutputPin,
    pub f2: OutputPin,
    pub f3: OutputPin,
    pub f4: OutputPin,
}

impl FunctionPins {
    /// The lines with the state of one function taken over; there is none beside F1 to F4.
    pub open spec fn with_function(self, function: u8, state: bool) -> Self {
        let pin = OutputPin { level: level_of(state) };
        match function {
            1 => FunctionPins { f1: pin, ..self },
            2 => FunctionPins { f2: pin, ..self },
            3 => FunctionPins { f3: pin, ..self },
            4 => FunctionPins { f4: pin, ..self },
            _ => self,
        }
    }

    /// The lines for the states of all functions.
    pub open spec fn for_states(states: Functions) -> Self {
        FunctionPins {
            f1: OutputPin { level: level_of(states.f1) },
            f2: OutputPin { level: level_of(states.f2) },
            f3: OutputPin { level: level_of(states.f3) },
            f4: OutputPin { level: level_of(states.f4) },
        }
    }

    /// Switches one function.
    pub fn set_function(&mut self, function: u8, state: bool)
        ensures
            *final(self) == old(self).with_function(function, state),
    {
        match function {
            1 => self.f1.set_state(state),
            2 => self.f2.set_state(state),
            3 => self.f3.set_state(state),
            4 => self.f4.set_state(state),
            _ => {},
        }
    }

    /// Switches all functions.
    pub fn set_all(&mut self, states: Functions)
        ensures
            *final(self) == FunctionPins::for_states(states),
    {
        self.f1.set_state(states.f1);
        self.f2.set_state(states.f2);
        self.f3.set_state(states.f3);
        self.f4.set_state(states.f4);
    }
}

/// Switching all functions makes each line high exactly when its function is on.
pub proof fn lemma_all_lines_follow_states(states: Functions)
    ensures
        ({
            let pins = FunctionPins::for_states(states);
            &&& pins.f1.level == Level::High <==> states.f1
            &&& pins.f2.level == Level::High <==> states.f2
            &&& pins.f3.level == Level::High <==> states.f3
            &&& pins.f4.level == Level::High <==> states.f4
        }),
{
}

/// Switching one function makes its line high exactly when the function is on, and leaves the
/// others alone. Switching a function other than F1 to F4 changes nothing.
pub proof fn lemma_one_line_follows_state(pins: FunctionPins, function: u8, state: bool)
    ensures
        ({
            let after = pins.with_function(function, state);
            &&& function == 1 ==> (after.f1.level == Level::High <==> state)
            &&& function == 2 ==> (after.f2.level == Level::High <==> state)
            &&& function == 3 ==> (after.f3.level == Level::High <==> state)
            &&& function == 4 ==> (after.f4.level == Level::High <==> state)
            &&& function != 1 ==> after.f1 == pins.f1
            &&& function != 2 ==> after.f2 == pins.f2
            &&& function != 3 ==> after.f3 == pins.f3
            &&& function != 4 ==> after.f4 == pins.f4
        }),
{
}

/// Switching all functions at once is switching them one by one, in any order.
pub proof fn lemma_all_is_one_by_one(pins: FunctionPins, states: Functions)
    ensures
        FunctionPins::for_states(states) == pins.with_function(1, states.f1).with_function(
            2,
            states.f2,
        ).with_function(3, states.f3).with_function(4, states.f4),
        FunctionPins::for_states(states) == pins.with_function(4, states.f4).with_function(
            3,
            states.f3,
        ).with_function(2, states.f2).with_function(1, states.f1),
{
}

} // verus!
