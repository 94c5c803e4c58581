use c92_decoder::capture::{EdgeCapture, ASYM_COMP_US, N_PULSE_BUF, RESET_PULSE};
use c92_decoder::ring_buffer::RingBuffer;

#[test]
fn pulses_are_corrected_for_the_level_shifter() {
    let capture = EdgeCapture::new();
    assert_eq!(ASYM_COMP_US, 5);
    assert_eq!(capture.pulse(60, false, true), 55);
    assert_eq!(capture.pulse(50, false, false), 55);
}

#[test]
fn correction_saturates() {
    let capture = EdgeCapture::new();
    assert_eq!(capture.pulse(3, false, true), 0);
    assert_eq!(capture.pulse(5, false, true), 0);
    assert_eq!(capture.pulse(6, false, true), 1);
    assert_eq!(capture.pulse(65535, false, false), 65535);
    assert_eq!(capture.pulse(65530, false, false), 65535);
    assert_eq!(capture.pulse(65529, false, false), 65534);
}

#[test]
fn missed_edges_and_empty_pulses_reset() {
    let capture = EdgeCapture::new();
    assert_eq!(capture.pulse(60, true, true), RESET_PULSE);
    assert_eq!(capture.pulse(60, true, false), RESET_PULSE);
    assert_eq!(capture.pulse(0, false, false), RESET_PULSE);
}

#[test]
fn edges_are_measured_from_the_one_before_across_the_wrap() {
    let mut ring: RingBuffer<u16, N_PULSE_BUF> = RingBuffer::new();
    let (mut producer, mut consumer) = ring.split();
    let mut capture = EdgeCapture::new();
    assert!(!capture.on_edge(&mut producer, &mut ring, 65500, false, false));
    assert!(!capture.on_edge(&mut producer, &mut ring, 24, false, true));
    assert!(!capture.on_edge(&mut producer, &mut ring, 74, true, true));
    assert!(!capture.on_edge(&mut producer, &mut ring, 124, false, false));
    assert_eq!(consumer.get(&mut ring).unwrap(), 65505);
    assert_eq!(consumer.get(&mut ring).unwrap(), 55);
    assert_eq!(consumer.get(&mut ring).unwrap(), 0);
    assert_eq!(consumer.get(&mut ring).unwrap(), 55);
    assert!(consumer.get(&mut ring).is_err());
}

#[test]
fn a_full_ring_starts_over_with_the_reset_pulse() {
    let mut ring: RingBuffer<u16, 4> = RingBuffer::new();
    let (mut producer, mut consumer) = ring.split();
    let mut capture = EdgeCapture::new();
    for edge in 1..4 {
        assert!(!capture.on_edge(&mut producer, &mut ring, edge * 100, false, true));
    }
    assert!(capture.on_edge(&mut producer, &mut ring, 400, false, true));
    assert!(!capture.on_edge(&mut producer, &mut ring, 500, false, true));
    assert_eq!(consumer.get(&mut ring).unwrap(), RESET_PULSE);
    assert_eq!(consumer.get(&mut ring).unwrap(), 95);
    assert!(consumer.get(&mut ring).is_err());
}

#[test]
fn a_period_keeps_its_length() {
    let capture = EdgeCapture::new();
    assert_eq!(capture.pulse(61, false, true) + capture.pulse(49, false, false), 110);
}

#[test]
fn the_stand_of_the_timer_does_not_matter() {
    for shift in [0u16, 1, 535, 32768, 65436, 65535] {
        let mut ring: RingBuffer<u16, N_PULSE_BUF> = RingBuffer::new();
        let (mut producer, mut consumer) = ring.split();
        let mut capture = EdgeCapture::new();
        capture.on_edge(&mut producer, &mut ring, shift, false, true);
        capture.on_edge(&mut producer, &mut ring, shift.wrapping_add(65000), false, true);
        capture.on_edge(&mut producer, &mut ring, shift.wrapping_add(64), false, true);
        assert!(consumer.get(&mut ring).is_ok());
        assert_eq!(consumer.get(&mut ring).unwrap(), 64995);
        assert_eq!(consumer.get(&mut ring).unwrap(), 595);
    }
}
