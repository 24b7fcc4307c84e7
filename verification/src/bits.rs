//! The three byte transformations, stated as arithmetic on the value of a
//! byte, and the bitwise routines that compute them.

use vstd::prelude::*;

verus! {

/// `b` with every bit inverted. Over eight bits that is what `b` lacks to
/// make 255.
pub open spec fn flip_byte(b: u8) -> u8 {
    (255 - b) as u8
}

/// `b` with its bit order reversed: bit 0 trades places with bit 7, bit 1
/// with bit 6, and so on. Bit `i` of `b` is `b / 2^i % 2`, and it lands
/// where it weighs `2^(7 - i)`.
pub open spec fn reverse_byte(b: u8) -> u8 {
    (128 * (b % 2) + 64 * (b / 2 % 2) + 32 * (b / 4 % 2) + 16 * (b / 8 % 2) + 8 * (b / 16 % 2) + 4
        * (b / 32 % 2) + 2 * (b / 64 % 2) + b / 128) as u8
}

/// `b` with its high and low nibble exchanged: the low nibble `b % 16`
/// moves up and the high nibble `b / 16` moves down.
pub open spec fn swab_byte(b: u8) -> u8 {
    ((b % 16) * 16 + b / 16) as u8
}

/// Inverts every bit of `b`.
pub fn flip(b: u8) -> (r: u8)
    ensures
        r == flip_byte(b),
{
    let r: u8 = !b;
    assert(r == flip_byte(b)) by (bit_vector)
        requires
            r == !b,
    ;
    r
}

/// Reverses the bit order of `b` by three rounds of pairwise exchange:
/// nibbles, then bit pairs, then neighbouring bits.
pub fn reverse(b: u8) -> (r: u8)
    ensures
        r == reverse_byte(b),
{
    let t: u8 = (b & 0xF0) >> 4 | (b & 0x0F) << 4;
    let u: u8 = (t & 0xCC) >> 2 | (t & 0x33) << 2;
    let r: u8 = (u & 0xAA) >> 1 | (u & 0x55) << 1;
    assert(r == reverse_byte(b)) by (bit_vector)
        requires
            t == (b & 0xF0) >> 4 | (b & 0x0F) << 4,
            u == (t & 0xCC) >> 2 | (t & 0x33) << 2,
            r == (u & 0xAA) >> 1 | (u & 0x55) << 1,
    ;
    r
}

/// Exchanges the high and the low nibble of `b`.
pub fn swab(b: u8) -> (r: u8)
    ensures
        r == swab_byte(b),
{
    let r: u8 = (b & 0xF0) >> 4 | (b & 0x0F) << 4;
    assert(r == swab_byte(b)) by (bit_vector)
        requires
            r == (b & 0xF0) >> 4 | (b & 0x0F) << 4,
    ;
    r
}

} // verus!
