use vstd::prelude::*;

verus! {

/// At most one bit of `bits` is set.
pub open spec fn spec_has_zero_or_one_bits(bits: u32) -> bool {
    bits == 0 || bits & ((bits - 1) as u32) == 0
}

/// Whether at most one bit of `bits` is set.
pub fn has_zero_or_one_bits(bits: u32) -> (r: bool)
    ensures
        r == spec_has_zero_or_one_bits(bits),
{
    if bits == 0 {
        true
    } else {
        bits & (bits - 1) == 0
    }
}

/// A single bit passes the test and the union of two distinct single bits
/// does not.
pub proof fn lemma_single_bits(i: u32, j: u32)
    requires
        i < 32,
        j < 32,
        i != j,
    ensures
        spec_has_zero_or_one_bits(1u32 << i),
        !spec_has_zero_or_one_bits((1u32 << i) | (1u32 << j)),
{
    assert(spec_has_zero_or_one_bits(1u32 << i)) by (bit_vector)
        requires
            i < 32;
    assert(!spec_has_zero_or_one_bits((1u32 << i) | (1u32 << j))) by (bit_vector)
        requires
            i < 32,
            j < 32,
            i != j;
}

} // verus!
