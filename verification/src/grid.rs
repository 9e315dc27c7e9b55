//! Row-major indexing: the correspondence between a cell `(column, row)` of
//! a grid and its position in the flat buffer.

use vstd::prelude::*;
use vstd::arithmetic::div_mod::{
    lemma_fundamental_div_mod,
    lemma_fundamental_div_mod_converse,
    lemma_mod_pos_bound,
};

verus! {

/// A cell inside the grid has a position inside the buffer, and the
/// position gives the cell back.
pub proof fn lemma_cell_position(width: int, height: int, column: int, row: int)
    requires
        0 <= column < width,
        0 <= row < height,
    ensures
        0 <= row * width + column < width * height,
        (row * width + column) % width == column,
        (row * width + column) / width == row,
{
    assert(0 <= row * width && (row + 1) * width <= height * width
        && (row + 1) * width == row * width + width
        && height * width == width * height) by (nonlinear_arith)
        requires
            0 <= row < height,
            0 < width,
    ;
    lemma_fundamental_div_mod_converse(row * width + column, width, row, column);
}

/// A position inside the buffer names a cell inside the grid, and the cell
/// gives the position back.
pub proof fn lemma_position_cell(width: int, height: int, position: int)
    requires
        0 < width,
        0 <= position < width * height,
    ensures
        0 <= position % width < width,
        0 <= position / width < height,
        position == (position / width) * width + position % width,
{
    lemma_fundamental_div_mod(position, width);
    lemma_mod_pos_bound(position, width);
    let row = position / width;
    assert(width * row == row * width) by (nonlinear_arith);
    assert(0 <= row < height) by (nonlinear_arith)
        requires
            0 < width,
            0 <= position < width * height,
            position == row * width + position % width,
            0 <= position % width < width,
    ;
}

} // verus!
