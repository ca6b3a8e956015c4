use vstd::prelude::*;

verus! {

/// The row-major position of the cell `(x, y)` in a grid `width` cells wide.
pub open spec fn spec_coords_to_index(x: int, y: int, width: int) -> int {
    y * width + x
}

/// Converts grid coordinates into the index of the cell in a row-major array.
pub fn coords_to_index(x: usize, y: usize, width: usize) -> (index: usize)
    requires
        y * width + x <= usize::MAX,
    ensures
        index == spec_coords_to_index(x as int, y as int, width as int),
{
    assert(y * width <= y * width + x) by (nonlinear_arith)
        requires y * width + x <= usize::MAX, x >= 0;
    (y * width) + x
}

/// A cell inside the row (`x < width`) is recovered from its index:
/// the quotient by `width` is its row and the remainder its column.
pub proof fn lemma_coords_to_index_inverse(x: nat, y: nat, width: nat)
    requires
        x < width,
    ensures
        spec_coords_to_index(x as int, y as int, width as int) / (width as int) == y,
        spec_coords_to_index(x as int, y as int, width as int) % (width as int) == x,
{
    vstd::arithmetic::div_mod::lemma_fundamental_div_mod_converse(
        spec_coords_to_index(x as int, y as int, width as int),
        width as int,
        y as int,
        x as int,
    );
}

/// Two cells inside the row (`x1, x2 < width`) share an index only if they
/// are the same cell.
pub proof fn lemma_coords_to_index_injective(x1: nat, y1: nat, x2: nat, y2: nat, width: nat)
    requires
        x1 < width,
        x2 < width,
        spec_coords_to_index(x1 as int, y1 as int, width as int)
            == spec_coords_to_index(x2 as int, y2 as int, width as int),
    ensures
        x1 == x2,
        y1 == y2,
{
    lemma_coords_to_index_inverse(x1, y1, width);
    lemma_coords_to_index_inverse(x2, y2, width);
}

} // verus!
