use c92_decoder::ring_buffer::{RingBuffer, RingBufferError};

#[test]
fn values_come_out_in_the_order_they_went_in() {
    let mut ring: RingBuffer<u16, 4> = RingBuffer::new();
    let (mut producer, mut consumer) = ring.split();
    assert!(producer.put(&mut ring, 7).is_ok());
    assert!(producer.put(&mut ring, 8).is_ok());
    assert!(matches!(consumer.get(&mut ring), Ok(7)));
    assert!(producer.put(&mut ring, 9).is_ok());
    assert!(matches!(consumer.get(&mut ring), Ok(8)));
    assert!(matches!(consumer.get(&mut ring), Ok(9)));
    assert!(matches!(consumer.get(&mut ring), Err(RingBufferError::Underflow)));
}

#[test]
fn a_ring_of_four_slots_holds_three_values() {
    let mut ring: RingBuffer<u16, 4> = RingBuffer::new();
    let (mut producer, mut consumer) = ring.split();
    for value in 1..4 {
        assert!(producer.put(&mut ring, value).is_ok());
    }
    assert!(matches!(producer.put(&mut ring, 4), Err(RingBufferError::Overflow)));
    // the refused value has displaced nothing
    for value in 1..4 {
        assert_eq!(consumer.get(&mut ring).unwrap(), value);
    }
    assert!(consumer.get(&mut ring).is_err());
}

#[test]
fn the_indices_wrap_round_many_times() {
    let mut ring: RingBuffer<u32, 3> = RingBuffer::new();
    let (mut producer, mut consumer) = ring.split();
    for value in 0..100 {
        assert!(producer.put(&mut ring, value).is_ok());
        assert!(producer.put(&mut ring, value + 1000).is_ok());
        assert_eq!(consumer.get(&mut ring).unwrap(), value);
        assert_eq!(consumer.get(&mut ring).unwrap(), value + 1000);
    }
}

#[test]
fn reset_empties_the_ring() {
    let mut ring: RingBuffer<u16, 4> = RingBuffer::new();
    let (mut producer, mut consumer) = ring.split();
    for value in 1..4 {
        assert!(producer.put(&mut ring, value).is_ok());
    }
    producer.reset(&mut ring);
    assert!(matches!(consumer.get(&mut ring), Err(RingBufferError::Underflow)));
    for value in 5..8 {
        assert!(producer.put(&mut ring, value).is_ok());
    }
    assert!(matches!(consumer.get(&mut ring), Ok(5)));
}

#[test]
fn a_ring_of_one_slot_holds_nothing() {
    let mut ring: RingBuffer<u16, 1> = RingBuffer::new();
    let (mut producer, mut consumer) = ring.split();
    assert!(matches!(producer.put(&mut ring, 1), Err(RingBufferError::Overflow)));
    assert!(matches!(consumer.get(&mut ring), Err(RingBufferError::Underflow)));
}

#[test]
fn a_ring_without_slots_is_empty() {
    let mut ring: RingBuffer<u16, 0> = RingBuffer::new();
    let (_producer, mut consumer) = ring.split();
    assert!(matches!(consumer.get(&mut ring), Err(RingBufferError::Underflow)));
}

#[test]
fn values_need_not_be_copied() {
    let mut ring: RingBuffer<String, 2> = RingBuffer::new();
    let (mut producer, mut consumer) = ring.split();
    assert!(producer.put(&mut ring, String::from("first")).is_ok());
    assert_eq!(consumer.get(&mut ring).unwrap(), "first");
}

#[test]
fn order_is_kept_however_puts_and_gets_alternate() {
    let mut ring: RingBuffer<u32, 5> = RingBuffer::new();
    let (mut producer, mut consumer) = ring.split();
    let mut accepted: Vec<u32> = Vec::new();
    let mut taken: Vec<u32> = Vec::new();
    let mut refused = 0;
    let mut missed = 0;
    let mut seed: u32 = 3;
    for value in 0..1000 {
        seed = seed.wrapping_mul(1_664_525).wrapping_add(1_013_904_223);
        if seed >> 31 == 0 {
            match producer.put(&mut ring, value) {
                Ok(()) => accepted.push(value),
                Err(_) => refused += 1,
            }
        } else {
            match consumer.get(&mut ring) {
                Ok(value) => taken.push(value),
                Err(_) => missed += 1,
            }
        }
        assert!(accepted.len() - taken.len() <= 4);
        assert_eq!(taken[..], accepted[..taken.len()]);
    }
    assert!(refused > 0 && missed > 0);
    while let Ok(value) = consumer.get(&mut ring) {
        taken.push(value);
    }
    assert_eq!(taken, accepted);
}
