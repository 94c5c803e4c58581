use c92_decoder::decoder_state::DecoderState;
use c92_decoder::outputs::{Level, OutputPin};

fn ready() -> DecoderState {
    let mut state = DecoderState::new();
    state.init(OutputPin::new(Level::High), OutputPin::new(Level::High));
    state
}

fn lights(state: &DecoderState) -> (Level, Level) {
    let lights = state.lights().unwrap();
    (lights.fw.level, lights.rv.level)
}

#[test]
fn lights_are_unknown_before_init() {
    assert!(DecoderState::new().lights().is_none());
}

#[test]
fn speed_changes_are_told_from_repetitions() {
    let mut state = ready();
    assert!(!state.update_speed(0));
    assert!(state.update_speed(5));
    assert!(!state.update_speed(5));
    assert!(state.update_speed(0));
}

#[test]
fn direction_changes_are_told_from_repetitions() {
    let mut state = ready();
    assert!(!state.update_direction(true));
    assert!(state.update_direction(false));
    assert!(!state.update_direction(false));
    assert!(state.update_direction(true));
}

#[test]
fn headlights_face_the_way_the_loco_goes() {
    let mut state = ready();
    assert_eq!(lights(&state), (Level::High, Level::High));
    state.update_f0(true);
    assert_eq!(lights(&state), (Level::Low, Level::High));
    state.update_direction(false);
    assert_eq!(lights(&state), (Level::High, Level::Low));
    state.update_f0(false);
    assert_eq!(lights(&state), (Level::High, Level::High));
    state.update_direction(true);
    assert_eq!(lights(&state), (Level::High, Level::High));
}

#[test]
fn lights_stay_as_they_are_until_something_changes() {
    let mut state = DecoderState::new();
    state.init(OutputPin::new(Level::Low), OutputPin::new(Level::Low));
    state.update_f0(false);
    state.update_direction(true);
    state.update_speed(3);
    assert_eq!(lights(&state), (Level::Low, Level::Low));
    state.update_direction(false);
    assert_eq!(lights(&state), (Level::High, Level::High));
}

#[test]
fn reverse_needs_a_speed_first() {
    let mut state = ready();
    assert_eq!(state.update_reverse(), None);
    state.update_speed(0);
    assert_eq!(state.update_reverse(), Some(false));
    assert_eq!(state.update_reverse(), None);
    state.update_speed(0);
    assert_eq!(state.update_reverse(), Some(true));
}

#[test]
fn reverse_turns_the_headlights() {
    let mut state = ready();
    state.update_f0(true);
    state.update_speed(4);
    state.update_reverse();
    assert_eq!(lights(&state), (Level::High, Level::Low));
}

#[test]
fn headlights_agree_after_any_update() {
    let mut state = ready();
    let mut forward = true;
    let mut f0 = false;
    let mut gate = false;
    let mut seed: u32 = 11;
    for _ in 0..2000 {
        seed = seed.wrapping_mul(1_664_525).wrapping_add(1_013_904_223);
        let value = (seed >> 16) as u16;
        match value % 5 {
            0 => {
                state.update_speed(value as u8 % 15);
                gate = true;
            }
            1 => {
                forward = value & 256 != 0;
                state.update_direction(forward);
            }
            2 => {
                if gate {
                    forward = !forward;
                }
                gate = false;
                state.update_reverse();
            }
            3 => {
                f0 = value & 256 != 0;
                state.update_f0(f0);
            }
            _ => state.apply_f0(),
        }
        let (fw, rv) = lights(&state);
        assert_eq!(fw == Level::Low, f0 && forward);
        assert_eq!(rv == Level::Low, f0 && !forward);
    }
}

#[test]
fn applying_the_setting_overwrites_what_init_found() {
    let mut state = DecoderState::new();
    state.init(OutputPin::new(Level::Low), OutputPin::new(Level::Low));
    state.apply_f0();
    assert_eq!(lights(&state), (Level::High, Level::High));
}

#[test]
fn no_reverse_takes_effect_before_the_next_speed() {
    let mut state = ready();
    state.update_speed(4);
    assert_eq!(state.update_reverse(), Some(false));
    state.update_direction(true);
    assert_eq!(state.update_reverse(), None);
    state.update_f0(true);
    assert_eq!(state.update_reverse(), None);
    state.apply_f0();
    state.update_direction(false);
    state.update_direction(true);
    assert_eq!(state.update_reverse(), None);
    assert_eq!(lights(&state), (Level::Low, Level::High));
    state.update_speed(4);
    assert_eq!(state.update_reverse(), Some(false));
    assert_eq!(lights(&state), (Level::High, Level::Low));
}
