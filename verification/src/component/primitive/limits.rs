use vstd::prelude::*;

verus! {

/// Maximum dimension size of an image (width or height): `2^32 - 1` where `usize` has
/// 64 bits and `2^16 - 1` where it has 32. It is less than `isize::MAX`, and the product
/// of two dimensions fits in `usize`.
pub const DIMENSION_MAX: usize = usize::MAX >> (usize::BITS / 2);

/// The value of [`DIMENSION_MAX`] on each platform, and the bounds that make
/// arithmetic on dimensions safe.
pub proof fn lemma_dimension_max()
    ensures
        DIMENSION_MAX == 0xFFFF_FFFF || DIMENSION_MAX == 0xFFFF,
        DIMENSION_MAX == 0xFFFF_FFFF ==> usize::MAX == 0xFFFF_FFFF_FFFF_FFFF && isize::MAX == 0x7FFF_FFFF_FFFF_FFFF,
        DIMENSION_MAX == 0xFFFF ==> usize::MAX == 0xFFFF_FFFF && isize::MAX == 0x7FFF_FFFF,
        DIMENSION_MAX < isize::MAX,
        (DIMENSION_MAX as int) * (DIMENSION_MAX as int) < usize::MAX,
{
    let m: usize = usize::MAX;
    assert(usize::BITS == 32 || usize::BITS == 64);
    if usize::BITS == 64 {
        assert(m == 0xFFFF_FFFF_FFFF_FFFF);
        assert(m >> 32u32 == 0xFFFF_FFFF) by (bit_vector)
            requires m == 0xFFFF_FFFF_FFFF_FFFF;
    } else {
        assert(m == 0xFFFF_FFFF);
        assert(m >> 16u32 == 0xFFFF) by (bit_vector)
            requires m == 0xFFFF_FFFF;
    }
}

} // verus!
