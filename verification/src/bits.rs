use vstd::prelude::*;

verus! {

/// Masking never exceeds the mask or the masked value.
pub broadcast proof fn lemma_and_bound_u8(x: u8, m: u8)
    ensures
        #[trigger] (x & m) <= m,
        (x & m) <= x,
{
    assert((x & m) <= m && (x & m) <= x) by (bit_vector);
}

/// Masking never exceeds the mask or the masked value.
pub broadcast proof fn lemma_and_bound_u16(x: u16, m: u16)
    ensures
        #[trigger] (x & m) <= m,
        (x & m) <= x,
{
    assert((x & m) <= m && (x & m) <= x) by (bit_vector);
}

/// Small facts about one byte: or-ing in a bit, and its top nibble and top two bits.
pub proof fn lemma_u8_facts(f: u8)
    by (bit_vector)
    ensures
        f | 0u8 == f,
        f | (1u8 << 0u8) == f | 1u8,
        f | (1u8 << 1u8) == f | 2u8,
        f | (1u8 << 2u8) == f | 4u8,
        f | (1u8 << 4u8) == f | 0x10u8,
        f >> 4u8 < 16,
        f >> 6u8 < 4,
{
}

pub broadcast group group_and_bounds {
    lemma_and_bound_u8,
    lemma_and_bound_u16,
}

} // verus!
