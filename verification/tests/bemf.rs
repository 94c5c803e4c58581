use c92_decoder::bemf::{average_bemf, N_REJECT, N_SAMPLE};

#[test]
fn mean_of_equal_samples() {
    assert_eq!(average_bemf([321; N_SAMPLE]), 321);
    assert_eq!(average_bemf([u16::MAX; N_SAMPLE]), u16::MAX);
    assert_eq!(average_bemf([0; N_SAMPLE]), 0);
}

#[test]
fn mean_of_rising_samples_is_without_the_two_highest() {
    let mut window = [0u16; N_SAMPLE];
    for i in 0..N_SAMPLE {
        window[i] = 100 * i as u16;
    }
    // 100 * (0 + .. + 15) / 16
    assert_eq!(N_REJECT, 2);
    assert_eq!(average_bemf(window), 750);
}

#[test]
fn mean_is_rounded_down() {
    let mut window = [10u16; N_SAMPLE];
    window[4] = 11;
    window[5] = 11;
    window[6] = 11;
    // one 11 is left: 161 / 16
    assert_eq!(average_bemf(window), 10);
    let mut window = [11u16; N_SAMPLE];
    window[0] = 10;
    assert_eq!(average_bemf(window), 10);
}

#[test]
fn peaks_do_not_count_wherever_they_are() {
    for i in 0..N_SAMPLE {
        for j in 0..N_SAMPLE {
            let mut window = [200u16; N_SAMPLE];
            window[i] = 4095;
            window[j] = 3000;
            assert_eq!(average_bemf(window), 200);
        }
    }
}

#[test]
fn a_third_peak_counts() {
    let mut window = [200u16; N_SAMPLE];
    window[0] = 4095;
    window[9] = 1800;
    window[17] = 4000;
    // (15 * 200 + 1800) / 16
    assert_eq!(average_bemf(window), 300);
}

#[test]
fn order_does_not_matter() {
    let mut window = [0u16; N_SAMPLE];
    for i in 0..N_SAMPLE {
        window[i] = ((i * 7919) % 4096) as u16;
    }
    let mean = average_bemf(window);
    for _ in 0..N_SAMPLE {
        window.rotate_left(1);
        assert_eq!(average_bemf(window), mean);
    }
    window.reverse();
    assert_eq!(average_bemf(window), mean);
}

#[test]
fn higher_samples_never_lower_the_mean() {
    let mut seed: u32 = 5;
    for _ in 0..500 {
        let mut low = [0u16; N_SAMPLE];
        let mut high = [0u16; N_SAMPLE];
        for i in 0..N_SAMPLE {
            seed = seed.wrapping_mul(1_664_525).wrapping_add(1_013_904_223);
            low[i] = (seed >> 20) as u16;
            high[i] = low[i] + (seed >> 12) as u16 % 64;
        }
        assert!(average_bemf(low) <= average_bemf(high));
    }
}
