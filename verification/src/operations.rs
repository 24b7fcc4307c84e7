//! The set of operations that governs one processing run, and what it does
//! to a single byte.

use crate::bits::{flip, flip_byte, reverse, reverse_byte, swab, swab_byte};
use vstd::prelude::*;

verus! {

/// Operations to apply to every byte.
///
/// The three flags are independent; a set with none of them is a legal pass
/// that changes nothing.
#[derive(Debug, Clone, Copy, PartialEq, Eq, Structural)]
pub struct Operations {
    /// Flip the bytes, i.e. negate each bit.
    pub flip: bool,
    /// Reverse the bit order of each byte.
    pub reverse: bool,
    /// Swab the bytes, i.e. swap the first 4 and the last 4 bits.
    pub swab: bool,
}

/// What happens to the bit positions of a byte after the flip stage.
#[derive(Debug, Clone, Copy, PartialEq, Eq, Structural)]
pub enum Permutation {
    /// The bits stay where they are.
    Keep,
    /// The high and the low nibble trade places.
    SwapNibbles,
    /// The bit order is reversed.
    ReverseBits,
}

impl Default for Operations {
    /// The empty set: no operation selected.
    fn default() -> (ops: Self)
        ensures
            !ops.flip,
            !ops.reverse,
            !ops.swab,
    {
        Operations { flip: false, reverse: false, swab: false }
    }
}

impl Operations {
    /// The permutation that the `reverse` and `swab` flags select together.
    /// Reversal takes precedence: with both flags set the byte is reversed
    /// once and the nibbles are not swapped again.
    pub open spec fn permutation_spec(&self) -> Permutation {
        if self.reverse {
            Permutation::ReverseBits
        } else if self.swab {
            Permutation::SwapNibbles
        } else {
            Permutation::Keep
        }
    }

    /// The image of `b` under this set: `b` flipped if `flip` is set, and
    /// that permuted as `permutation_spec` says.
    pub open spec fn image(&self, b: u8) -> u8 {
        let flipped = if self.flip {
            flip_byte(b)
        } else {
            b
        };
        match self.permutation_spec() {
            Permutation::Keep => flipped,
            Permutation::SwapNibbles => swab_byte(flipped),
            Permutation::ReverseBits => reverse_byte(flipped),
        }
    }

    /// Looks the permutation up in the table of the four flag combinations.
    #[verifier::when_used_as_spec(permutation_spec)]
    pub fn permutation(&self) -> (p: Permutation)
        ensures
            p == self.permutation_spec(),
    {
        match (self.reverse, self.swab) {
            (false, false) => Permutation::Keep,
            (false, true) => Permutation::SwapNibbles,
            (true, false) => Permutation::ReverseBits,
            (true, true) => Permutation::ReverseBits,
        }
    }

    /// Transforms one byte.
    pub fn apply(&self, b: u8) -> (r: u8)
        ensures
            r == self.image(b),
    {
        let flipped = if self.flip {
            flip(b)
        } else {
            b
        };
        match self.permutation() {
            Permutation::Keep => flipped,
            Permutation::SwapNibbles => swab(flipped),
            Permutation::ReverseBits => reverse(flipped),
        }
    }
}

/// The set that a selection of flags stands for: the flags as given, or
/// `flip` alone where none of the three was selected.
pub fn operations(flip: bool, reverse: bool, swab: bool) -> (ops: Operations)
    ensures
        flip || reverse || swab ==> ops == (Operations { flip, reverse, swab }),
        !(flip || reverse || swab) ==> ops == (Operations {
            flip: true,
            reverse: false,
            swab: false,
        }),
{
    if !(flip || reverse || swab) {
        Operations { flip: true, reverse: false, swab: false }
    } else {
        Operations { flip, reverse, swab }
    }
}

/// Applying one set twice gives every byte back: each of the three
/// operations undoes itself, and flipping commutes with moving bits.
pub proof fn lemma_image_twice(ops: Operations, b: u8)
    ensures
        ops.image(ops.image(b)) == b,
{
    assert(flip_byte(flip_byte(b)) == b) by (bit_vector);
    assert(swab_byte(swab_byte(b)) == b) by (bit_vector);
    assert(reverse_byte(reverse_byte(b)) == b) by (bit_vector);
    assert(swab_byte(flip_byte(swab_byte(flip_byte(b)))) == b) by (bit_vector);
    assert(reverse_byte(flip_byte(reverse_byte(flip_byte(b)))) == b) by (bit_vector);
}

/// With `reverse` set, `swab` makes no difference: both flags together give
/// what `reverse` gives alone, whatever `flip` is.
pub proof fn lemma_reverse_subsumes_swab(flip: bool, b: u8)
    ensures
        (Operations { flip, reverse: true, swab: true }).image(b) == (Operations {
            flip,
            reverse: true,
            swab: false,
        }).image(b),
        (Operations { flip: false, reverse: true, swab: true }).image(b) == reverse_byte(b),
{
}

} // verus!
