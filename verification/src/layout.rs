//! Grid arithmetic for the episode picker.

use vstd::prelude::*;

verus! {

/// Width in cells of one episode tile.
pub const EPISODE_CELL_WIDTH: usize = 9;

/// Columns of episode tiles that fit a terminal `width` cells wide: the
/// episode area takes three fifths of the width, less a four-cell border, and
/// there is always at least one column.
pub open spec fn grid_cols(width: nat) -> nat {
    let area = width * 3 / 5;
    let inner: nat = if area >= 4 {
        (area - 4) as nat
    } else {
        0
    };
    if inner / 9 >= 1 {
        inner / 9
    } else {
        1
    }
}

/// The number of episode columns for a terminal of the given width.
pub fn calculate_grid_cols(available_width: u16) -> (r: usize)
    ensures
        r == grid_cols(available_width as nat),
        r >= 1,
{
    let w = available_width as usize;
    let area = w * 3 / 5;
    let inner = if area >= 4 {
        area - 4
    } else {
        0
    };
    let cols = inner / EPISODE_CELL_WIDTH;
    if cols >= 1 {
        cols
    } else {
        1
    }
}

} // verus!
