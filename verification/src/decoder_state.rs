//! What the packets have set so far: speed, direction and headlight. It tells changes from
//! repetitions, and drives the headlights.
use crate::outputs::{Level, OutputPin};
use vstd::prelude::*;

verus! {

/// The two headlight lines. They are open-drain: low is on.
#[derive(Clone, Copy, Debug, PartialEq, Eq, Structural)]
pub struct Headlights {
    pub fw: OutputPin,
    pub rv: OutputPin,
}

/// The headlights for a direction and a headlight setting: the one that faces the way the loco
/// goes is on if the setting is.
pub open spec fn headlights_for(direction: bool, f0: bool) -> Headlights {
    Headlights {
        fw: OutputPin {
            level: if direction && f0 {
                Level::Low
            } else {
                Level::High
            },
        },
        rv: OutputPin {
            level: if !direction && f0 {
                Level::Low
            } else {
                Level::High
            },
        },
    }
}

/// The state of a [`DecoderState`].
pub struct DecoderView {
    pub speed: u8,
    pub direction: bool,
    pub reverse_gate: bool,
    pub f0: bool,
    pub lights: Option<Headlights>,
}

impl DecoderView {
    /// At standstill, forward, with the headlight off, the reverse gate shut, and no lines yet.
    pub open spec fn initial() -> Self {
        DecoderView { speed: 0, direction: true, reverse_gate: false, f0: false, lights: None }
    }

    pub open spec fn with_lights(self, fw: OutputPin, rv: OutputPin) -> Self {
        DecoderView { lights: Some(Headlights { fw, rv }), ..self }
    }

    /// The speed taken over and the reverse gate open.
    pub open spec fn with_speed(self, speed: u8) -> Self {
        DecoderView { speed, reverse_gate: true, ..self }
    }

    /// The direction taken over; the headlights follow a change.
    pub open spec fn with_direction(self, direction: bool) -> Self {
        if self.direction != direction {
            DecoderView { direction, lights: Some(headlights_for(direction, self.f0)), ..self }
        } else {
            self
        }
    }

    /// The direction inverted if the reverse gate is open, which shuts it.
    pub open spec fn reversed(self) -> Self {
        if self.reverse_gate {
            DecoderView { reverse_gate: false, ..self.with_direction(!self.direction) }
        } else {
            self
        }
    }

    /// The headlights driven for the direction and the headlight setting.
    pub open spec fn relit(self) -> Self {
        DecoderView { lights: Some(headlights_for(self.direction, self.f0)), ..self }
    }

    /// The headlight setting taken over; the headlights follow a change.
    pub open spec fn with_f0(self, f0: bool) -> Self {
        if self.f0 != f0 {
            DecoderView { f0, lights: Some(headlights_for(self.direction, f0)), ..self }
        } else {
            self
        }
    }
}

/// The decoder state.
pub struct DecoderState {
    speed: u8,
    direction: bool,
    // used to prevent MM1 reverse spamming
    reverse_gate: bool,
    f0: bool,
    lights: Option<Headlights>,
}

impl View for DecoderState {
    type V = DecoderView;

    closed spec fn view(&self) -> DecoderView {
        DecoderView {
            speed: self.speed,
            direction: self.direction,
            reverse_gate: self.reverse_gate,
            f0: self.f0,
            lights: self.lights,
        }
    }
}

impl DecoderState {
    /// The reverse gate starts shut: a speed packet must come before a reverse can happen.
    pub fn new() -> (state: Self)
        ensures
            state@ == DecoderView::initial(),
    {
        DecoderState { speed: 0, direction: true, reverse_gate: false, f0: false, lights: None }
    }

    /// Sets the headlight lines, at the levels that they have.
    pub fn init(&mut self, f0_fw: OutputPin, f0_rv: OutputPin)
        ensures
            final(self)@ == old(self)@.with_lights(f0_fw, f0_rv),
    {
        self.lights = Some(Headlights { fw: f0_fw, rv: f0_rv });
    }

    /// What the headlight lines are to be driven to; nothing before [`DecoderState::init`].
    pub fn lights(&self) -> (lights: Option<Headlights>)
        ensures
            lights == self@.lights,
    {
        self.lights
    }

    /// Updates the speed setting and opens the reverse gate. Reports whether the setting has
    /// changed.
    pub fn update_speed(&mut self, speed: u8) -> (changed: bool)
        ensures
            final(self)@ == old(self)@.with_speed(speed),
            changed == (old(self)@.speed != speed),
    {
        self.reverse_gate = true;
        if self.speed != speed {
            self.speed = speed;
            true
        } else {
            false
        }
    }

    /// Updates the direction from an absolute direction, and the headlights with it. Reports
    /// whether it has changed.
    pub fn update_direction(&mut self, direction: bool) -> (changed: bool)
        requires
            old(self)@.direction != direction ==> old(self)@.lights is Some,
        ensures
            final(self)@ == old(self)@.with_direction(direction),
            changed == (old(self)@.direction != direction),
    {
        if self.direction != direction {
            self.direction = direction;
            self.apply_f0();
            true
        } else {
            false
        }
    }

    /// Updates the direction from a reverse instruction, if the reverse gate is open. Reports the
    /// new direction if it has changed.
    pub fn update_reverse(&mut self) -> (direction: Option<bool>)
        requires
            old(self)@.reverse_gate ==> old(self)@.lights is Some,
        ensures
            final(self)@ == old(self)@.reversed(),
            direction == (if old(self)@.reverse_gate {
                Some(!old(self)@.direction)
            } else {
                None
            }),
    {
        if self.reverse_gate {
            self.reverse_gate = false;
            self.direction = !self.direction;
            self.apply_f0();
            Some(self.direction)
        } else {
            None
        }
    }

    /// Updates the headlight setting, and the headlights with it.
    pub fn update_f0(&mut self, f0: bool)
        requires
            old(self)@.f0 != f0 ==> old(self)@.lights is Some,
        ensures
            final(self)@ == old(self)@.with_f0(f0),
    {
        if self.f0 != f0 {
            self.f0 = f0;
            self.apply_f0();
        }
    }

    /// Drives the headlights for the current direction and headlight setting.
    pub fn apply_f0(&mut self)
        requires
            old(self)@.lights is Some,
        ensures
            final(self)@ == old(self)@.relit(),
    {
        let mut lights: Headlights = self.lights.unwrap();
        match (self.direction, self.f0) {
            (false, true) => {
                lights.fw.set_high();
                lights.rv.set_low();
            },
            (true, true) => {
                lights.fw.set_low();
                lights.rv.set_high();
            },
            _ => {
                lights.fw.set_high();
                lights.rv.set_high();
            },
        }
        self.lights = Some(lights);
    }
}

/// Headlights that suit the direction and the headlight setting keep doing so, whatever is
/// updated.
pub proof fn lemma_headlights_follow(state: DecoderView, speed: u8, direction: bool, f0: bool)
    requires
        state.lights == Some(headlights_for(state.direction, state.f0)),
    ensures
        ({
            let after = state.with_speed(speed);
            after.lights == Some(headlights_for(after.direction, after.f0))
        }),
        ({
            let after = state.with_direction(direction);
            after.lights == Some(headlights_for(after.direction, after.f0))
        }),
        ({
            let after = state.reversed();
            after.lights == Some(headlights_for(after.direction, after.f0))
        }),
        ({
            let after = state.with_f0(f0);
            after.lights == Some(headlights_for(after.direction, after.f0))
        }),
{
}

/// Anything that can be asked of a decoder state that has its headlight lines.
pub enum StateEvent {
    Speed { speed: u8 },
    Direction { direction: bool },
    Reverse,
    F0 { f0: bool },
    ApplyF0,
}

/// The state after one event.
pub open spec fn after_event(state: DecoderView, event: StateEvent) -> DecoderView {
    match event {
        StateEvent::Speed { speed } => state.with_speed(speed),
        StateEvent::Direction { direction } => state.with_direction(direction),
        StateEvent::Reverse => state.reversed(),
        StateEvent::F0 { f0 } => state.with_f0(f0),
        StateEvent::ApplyF0 => state.relit(),
    }
}

/// The state after some events in turn.
pub open spec fn after_events(state: DecoderView, events: Seq<StateEvent>) -> DecoderView
    decreases events.len(),
{
    if events.len() == 0 {
        state
    } else {
        after_event(after_events(state, events.drop_last()), events.last())
    }
}

/// A decoder state that starts with both headlight lines high, and so off, always drives them for
/// its headlight setting and direction, whatever is updated: forward is on exactly when the
/// setting is and the loco goes forward, and reverse is on exactly when the setting is and the
/// loco goes in reverse.
pub proof fn lemma_headlights_always_agree(events: Seq<StateEvent>)
    ensures
        ({
            let high = OutputPin { level: Level::High };
            let state = after_events(DecoderView::initial().with_lights(high, high), events);
            &&& state.lights matches Some(lights)
            &&& (lights.fw.level == Level::Low) == (state.f0 && state.direction)
            &&& (lights.rv.level == Level::Low) == (state.f0 && !state.direction)
            &&& lights == headlights_for(state.direction, state.f0)
        }),
    decreases events.len(),
{
    if events.len() > 0 {
        lemma_headlights_always_agree(events.drop_last());
    }
}

/// Whatever levels the headlight lines start with: they suit the headlight setting and the
/// direction, or they have the levels that they started with and the loco is to go forward with
/// the headlight setting off. They suit them in any case once the setting has been applied.
pub proof fn lemma_headlights_agree_once_driven(
    f0_fw: OutputPin,
    f0_rv: OutputPin,
    events: Seq<StateEvent>,
)
    ensures
        ({
            let state = after_events(DecoderView::initial().with_lights(f0_fw, f0_rv), events);
            ||| state.lights == Some(headlights_for(state.direction, state.f0))
            ||| state.lights == Some(Headlights { fw: f0_fw, rv: f0_rv }) && state.direction
                && !state.f0
        }),
        forall|i: int|
            0 <= i < events.len() && #[trigger] events[i] is ApplyF0 ==> {
                let state = after_events(DecoderView::initial().with_lights(f0_fw, f0_rv), events);
                state.lights == Some(headlights_for(state.direction, state.f0))
            },
    decreases events.len(),
{
    if events.len() > 0 {
        let earlier = events.drop_last();
        lemma_headlights_agree_once_driven(f0_fw, f0_rv, earlier);
        assert forall|i: int|
            0 <= i < events.len() && #[trigger] events[i] is ApplyF0 implies {
            let state = after_events(DecoderView::initial().with_lights(f0_fw, f0_rv), events);
            state.lights == Some(headlights_for(state.direction, state.f0))
        } by {
            if i < earlier.len() {
                assert(earlier[i] == events[i]);
            }
        }
    }
}

/// The two headlights are never on together, and the one that is on faces the way the loco goes.
pub proof fn lemma_one_headlight(direction: bool, f0: bool)
    ensures
        ({
            let lights = headlights_for(direction, f0);
            &&& !(lights.fw.level == Level::Low && lights.rv.level == Level::Low)
            &&& (lights.fw.level == Level::Low) == (direction && f0)
            &&& (lights.rv.level == Level::Low) == (!direction && f0)
        }),
{
}

/// A reverse instruction that is repeated, with no speed in between, acts once: the repetition
/// changes nothing. With a speed in between it turns the loco round again.
pub proof fn lemma_repeated_reverse_acts_once(state: DecoderView, speed: u8)
    ensures
        state.reversed().reversed() == state.reversed(),
        state.with_speed(speed).reversed().direction == !state.direction,
        state.with_speed(speed).reversed().with_speed(speed).reversed().direction
            == state.direction,
{
}

/// Once a reverse instruction has come, no other takes effect before a speed does, whatever else
/// is updated in between: `reverse_gate` stays off, and a reverse changes nothing.
pub proof fn lemma_reverse_waits_for_speed(state: DecoderView, events: Seq<StateEvent>)
    requires
        forall|i: int| 0 <= i < events.len() ==> !(#[trigger] events[i] is Speed),
    ensures
        ({
            let after = after_events(state.reversed(), events);
            &&& !after.reverse_gate
            &&& after.reversed() == after
            &&& after_event(after, StateEvent::Reverse) == after
        }),
    decreases events.len(),
{
    if events.len() > 0 {
        let earlier = events.drop_last();
        assert forall|i: int| 0 <= i < earlier.len() implies !(#[trigger] earlier[i] is Speed) by {
            assert(earlier[i] == events[i]);
        }
        lemma_reverse_waits_for_speed(state, earlier);
        assert(!(events[events.len() - 1] is Speed));
    }
}

/// An update that repeats the one before changes nothing.
pub proof fn lemma_repeated_update_changes_nothing(
    state: DecoderView,
    speed: u8,
    direction: bool,
    f0: bool,
)
    ensures
        state.with_speed(speed).with_speed(speed) == state.with_speed(speed),
        state.with_direction(direction).with_direction(direction) == state.with_direction(
            direction,
        ),
        state.with_f0(f0).with_f0(f0) == state.with_f0(f0),
{
}

/// A new decoder state stands still, goes forward, and has the headlight setting off and the
/// reverse gate shut. It takes its headlight lines as they are.
pub proof fn lemma_new_state_stands_still(fw: OutputPin, rv: OutputPin)
    ensures
        ({
            let state = DecoderView::initial();
            let lit = state.with_lights(fw, rv);
            &&& state.speed == 0 && state.direction && !state.reverse_gate && !state.f0
            &&& state.lights is None
            &&& lit.lights == Some(Headlights { fw, rv })
            &&& lit.speed == 0 && lit.direction && !lit.reverse_gate && !lit.f0
        }),
{
}

/// The headlights are driven: the line of the one that faces the way the loco goes is low exactly
/// when the headlight setting is on, and the other line is high.
pub open spec fn driven(state: DecoderView) -> bool {
    &&& state.lights matches Some(lights)
    &&& lights.fw.level == Level::Low <==> state.f0 && state.direction
    &&& lights.rv.level == Level::Low <==> state.f0 && !state.direction
}

/// Each update sets what it is about, and leaves the rest alone: a speed opens the reverse gate; a
/// new direction and a new headlight setting drive the headlights, and one that is not new changes
/// nothing; a reverse with `reverse_gate` on turns the direction, drives the headlights and takes
/// `reverse_gate` off, and with it off already a reverse changes nothing.
pub proof fn lemma_updates_set_one_thing(
    state: DecoderView,
    speed: u8,
    direction: bool,
    f0: bool,
)
    ensures
        state.with_speed(speed) == (DecoderView { speed, reverse_gate: true, ..state }),
        ({
            let after = state.with_direction(direction);
            &&& after == (DecoderView { direction, lights: after.lights, ..state })
            &&& if direction != state.direction {
                driven(after)
            } else {
                after.lights == state.lights
            }
        }),
        ({
            let after = state.with_f0(f0);
            &&& after == (DecoderView { f0, lights: after.lights, ..state })
            &&& if f0 != state.f0 {
                driven(after)
            } else {
                after.lights == state.lights
            }
        }),
        ({
            let after = state.reversed();
            if state.reverse_gate {
                &&& after == (DecoderView {
                    direction: !state.direction,
                    reverse_gate: false,
                    lights: after.lights,
                    ..state
                })
                &&& driven(after)
            } else {
                after == state
            }
        }),
        ({
            let after = state.relit();
            &&& after == (DecoderView { lights: after.lights, ..state })
            &&& driven(after)
        }),
{
}

} // verus!
