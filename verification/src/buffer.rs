//! The buffer transformer: every byte of a region, in place.

use crate::operations::{lemma_image_twice, Operations};
use vstd::prelude::*;

verus! {

/// The bytes of `s`, each transformed under `ops`.
pub open spec fn transform_bytes(ops: Operations, s: Seq<u8>) -> Seq<u8> {
    Seq::new(s.len(), |i: int| ops.image(s[i]))
}

/// Transform each byte in `buffer` according to the operations specified in
/// `ops`.
///
/// The region keeps its length. An empty region and an empty set of
/// operations are both legal and leave everything as it was.
pub fn process_buffer(buffer: &mut [u8], ops: &Operations)
    ensures
        final(buffer)@ == transform_bytes(*ops, old(buffer)@),
        final(buffer)@.len() == old(buffer)@.len(),
{
    let n = buffer.len();
    let mut i: usize = 0;
    while i < n
        invariant
            i <= n,
            n == buffer@.len(),
            n == old(buffer)@.len(),
            forall|j: int| 0 <= j < i ==> buffer@[j] == ops.image(old(buffer)@[j]),
            forall|j: int| i <= j < n ==> buffer@[j] == old(buffer)@[j],
        decreases n - i,
    {
        buffer[i] = ops.apply(buffer[i]);
        i += 1;
    }
}

/// Transforms a whole region in one pass, as for a file mapped into memory,
/// and reports how many bytes that was.
pub fn process_mapped(region: &mut [u8], ops: &Operations) -> (count: u64)
    ensures
        final(region)@ == transform_bytes(*ops, old(region)@),
        final(region)@.len() == old(region)@.len(),
        count == old(region)@.len(),
{
    process_buffer(region, ops);
    region.len() as u64
}

/// Processing a region twice with one set of operations restores it.
pub proof fn lemma_twice_restores(ops: Operations, s: Seq<u8>)
    ensures
        transform_bytes(ops, transform_bytes(ops, s)) == s,
{
    assert forall|i: int| 0 <= i < s.len() implies ops.image(ops.image(s[i])) == s[i] by {
        lemma_image_twice(ops, s[i]);
    }
    assert(transform_bytes(ops, transform_bytes(ops, s)) =~= s);
}

/// Flipping alone, applied twice, gives the bytes back as they were.
pub proof fn lemma_flip_twice_restores(s: Seq<u8>)
    ensures
        ({
            let flip = Operations { flip: true, reverse: false, swab: false };
            transform_bytes(flip, transform_bytes(flip, s)) == s
        }),
{
    lemma_twice_restores(Operations { flip: true, reverse: false, swab: false }, s);
}

/// Reversing alone, applied twice, gives the bytes back as they were.
pub proof fn lemma_reverse_twice_restores(s: Seq<u8>)
    ensures
        ({
            let reverse = Operations { flip: false, reverse: true, swab: false };
            transform_bytes(reverse, transform_bytes(reverse, s)) == s
        }),
{
    lemma_twice_restores(Operations { flip: false, reverse: true, swab: false }, s);
}

/// Swapping nibbles alone, applied twice, gives the bytes back as they were.
pub proof fn lemma_swab_twice_restores(s: Seq<u8>)
    ensures
        ({
            let swab = Operations { flip: false, reverse: false, swab: true };
            transform_bytes(swab, transform_bytes(swab, s)) == s
        }),
{
    lemma_twice_restores(Operations { flip: false, reverse: false, swab: true }, s);
}

/// On a whole region too, `reverse` and `swab` together do what `reverse`
/// does alone.
pub proof fn lemma_region_reverse_subsumes_swab(flip: bool, s: Seq<u8>)
    ensures
        transform_bytes(Operations { flip, reverse: true, swab: true }, s) == transform_bytes(
            Operations { flip, reverse: true, swab: false },
            s,
        ),
{
    assert(transform_bytes(Operations { flip, reverse: true, swab: true }, s) =~= transform_bytes(
        Operations { flip, reverse: true, swab: false },
        s,
    ));
}

/// The empty set of operations leaves every byte unchanged.
pub proof fn lemma_empty_set_changes_nothing(s: Seq<u8>)
    ensures
        transform_bytes(Operations { flip: false, reverse: false, swab: false }, s) == s,
{
    assert(transform_bytes(Operations { flip: false, reverse: false, swab: false }, s) =~= s);
}

} // verus!
