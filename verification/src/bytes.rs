//! Byte strings read as natural numbers, in both byte orders.

use vstd::prelude::*;

verus! {

/// The number that `s` spells with its most significant byte first.
pub open spec fn be_nat(s: Seq<u8>) -> nat
    decreases s.len(),
{
    if s.len() == 0 {
        0
    } else {
        be_nat(s.drop_last()) * 256 + s.last() as nat
    }
}

/// The number that `s` spells with its least significant byte first.
pub open spec fn le_nat(s: Seq<u8>) -> nat
    decreases s.len(),
{
    if s.len() == 0 {
        0
    } else {
        s[0] as nat + 256 * le_nat(s.drop_first())
    }
}

/// Reading a string backwards swaps the two byte orders.
pub proof fn lemma_reverse_swaps_byte_order(s: Seq<u8>)
    ensures
        le_nat(s.reverse()) == be_nat(s),
    decreases s.len(),
{
    if s.len() > 0 {
        let r = s.reverse();
        assert(r[0] == s.last());
        assert(r.drop_first() =~= s.drop_last().reverse());
        lemma_reverse_swaps_byte_order(s.drop_last());
    }
}

/// The bytes of `bytes` in the opposite order.
pub fn reversed(bytes: &[u8; 32]) -> (out: [u8; 32])
    ensures
        out@ == bytes@.reverse(),
{
    let mut out = [0u8; 32];
    let mut i: usize = 0;
    while i < 32
        invariant
            i <= 32,
            forall|j: int| 0 <= j < i ==> out@[j] == bytes@[31 - j],
        decreases 32 - i,
    {
        out[i] = bytes[31 - i];
        i += 1;
    }
    assert(out@ =~= bytes@.reverse());
    out
}

} // verus!
