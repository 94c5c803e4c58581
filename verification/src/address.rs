//! The decoder's own address, set by eight switches.
use vstd::prelude::*;

verus! {

/// What a switch adds to the address.
pub open spec fn worth(on: bool, value: int) -> int {
    if on {
        value
    } else {
        0
    }
}

/// The binary number that eight switches spell, least significant first.
pub open spec fn address_of(on: Seq<bool>) -> int {
    worth(on[0], 1) + worth(on[1], 2) + worth(on[2], 4) + worth(on[3], 8) + worth(on[4], 16)
        + worth(on[5], 32) + worth(on[6], 64) + worth(on[7], 128)
}

/// The address that eight switches spell, least significant first. A switch that is on pulls its
/// line low.
pub fn read_address(low: [bool; 8]) -> (address: u8)
    ensures
        address == address_of(low@),
{
    let a0: u8 = low[0] as u8;
    let a1: u8 = low[1] as u8;
    let a2: u8 = low[2] as u8;
    let a3: u8 = low[3] as u8;
    let a4: u8 = low[4] as u8;
    let a5: u8 = low[5] as u8;
    let a6: u8 = low[6] as u8;
    let a7: u8 = low[7] as u8;
    let address: u8 = a0 | a1 << 1 | a2 << 2 | a3 << 3 | a4 << 4 | a5 << 5 | a6 << 6 | a7 << 7;
    assert(address == a0 + a1 * 2 + a2 * 4 + a3 * 8 + a4 * 16 + a5 * 32 + a6 * 64 + a7 * 128)
        by (bit_vector)
        requires
            a0 <= 1 && a1 <= 1 && a2 <= 1 && a3 <= 1 && a4 <= 1 && a5 <= 1 && a6 <= 1 && a7 <= 1,
            address == a0 | a1 << 1 | a2 << 2 | a3 << 3 | a4 << 4 | a5 << 5 | a6 << 6 | a7 << 7,
    ;
    address
}

/// Every setting of the switches has an address of its own, from 0 to 255.
pub proof fn lemma_addresses_differ(on: Seq<bool>, other: Seq<bool>)
    requires
        on.len() == 8,
        other.len() == 8,
    ensures
        0 <= address_of(on) <= 255,
        address_of(on) == address_of(other) ==> on == other,
{
    if address_of(on) == address_of(other) {
        assert(on =~= other);
    }
}

/// Each switch is one binary digit of the address, the first one the lowest.
pub proof fn lemma_switches_are_digits(on: Seq<bool>)
    requires
        on.len() == 8,
    ensures
        0 <= address_of(on) < 256,
        address_of(on) % 2 == 1 <==> on[0],
        address_of(on) / 2 % 2 == 1 <==> on[1],
        address_of(on) / 4 % 2 == 1 <==> on[2],
        address_of(on) / 8 % 2 == 1 <==> on[3],
        address_of(on) / 16 % 2 == 1 <==> on[4],
        address_of(on) / 32 % 2 == 1 <==> on[5],
        address_of(on) / 64 % 2 == 1 <==> on[6],
        address_of(on) / 128 % 2 == 1 <==> on[7],
{
}

} // verus!
