//! Pixel bookkeeping: how a flat pixel index and 2D screen coordinates
//! correspond, for renderers that walk the image one pixel at a time.

use vstd::prelude::*;

verus! {

/// The 2D position of the pixel at a flat index, row-major: `x` runs along a
/// row, `y` counts rows.
pub fn pixel_coords(index: usize, width: usize) -> (r: (usize, usize))
    requires
        width > 0,
    ensures
        r.0 == index % width,
        r.1 == index / width,
        r.0 < width,
        index == r.1 * width + r.0,
{
    proof {
        vstd::arithmetic::div_mod::lemma_fundamental_div_mod(index as int, width as int);
        vstd::arithmetic::mul::lemma_mul_is_commutative(
            width as int,
            index as int / width as int,
        );
    }
    (index % width, index / width)
}

} // verus!
