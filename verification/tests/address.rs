use c92_decoder::address::read_address;

#[test]
fn switches_are_binary_digits() {
    assert_eq!(read_address([false; 8]), 0);
    assert_eq!(read_address([true; 8]), 255);
    assert_eq!(read_address([true, false, true, false, false, false, false, true]), 133);
}

#[test]
fn every_address_can_be_set() {
    for address in 0..=255u8 {
        let mut low = [false; 8];
        for i in 0..8 {
            low[i] = address & (1 << i) != 0;
        }
        assert_eq!(read_address(low), address);
    }
}
