use vstd::prelude::*;

verus! {

/// The column and row of row-major position `idx` in rows of `width` elements.
pub fn idx_to_xy(idx: usize, width: usize) -> (r: (usize, usize))
    requires
        width > 0,
    ensures
        r == (idx % width, idx / width),
        r.1 * width + r.0 == idx,
        r.0 < width,
{
    proof {
        vstd::arithmetic::div_mod::lemma_fundamental_div_mod(idx as int, width as int);
        vstd::arithmetic::mul::lemma_mul_is_commutative(width as int, (idx / width) as int);
    }
    (idx % width, idx / width)
}

/// The row-major position of column `xy.0` of row `xy.1` in rows of `width` elements.
pub fn xy_to_idx(xy: (usize, usize), width: usize) -> (r: usize)
    requires
        width > 0,
        xy.1 * width + xy.0 <= usize::MAX,
    ensures
        r == xy.1 * width + xy.0,
{
    let (x, y) = xy;
    proof {
        vstd::arithmetic::mul::lemma_mul_nonnegative(y as int, width as int);
    }
    y * width + x
}

/// Converting a position to a column and row and back gives the position again.
pub proof fn law_idx_xy_roundtrip(idx: nat, width: nat)
    requires
        width > 0,
    ensures
        (idx / width) * width + idx % width == idx,
        idx % width < width,
{
    vstd::arithmetic::div_mod::lemma_fundamental_div_mod(idx as int, width as int);
    vstd::arithmetic::mul::lemma_mul_is_commutative(width as int, (idx / width) as int);
}

/// Converting a column within the row width and a row to a position and back gives them
/// again.
pub proof fn law_xy_idx_roundtrip(x: nat, y: nat, width: nat)
    requires
        x < width,
    ensures
        (y * width + x) % width == x,
        (y * width + x) / width == y,
{
    vstd::arithmetic::div_mod::lemma_fundamental_div_mod_converse((y * width + x) as int, width as int, y as int, x as int);
}

} // verus!
