use vstd::prelude::*;

verus! {

/// Rows of the built-in grid.
pub const ROWS: usize = 100;

/// Columns of the built-in grid.
pub const COLS: usize = 100;

/// Indices of the two triangles that make up the quad of one cell.
pub const INDICES: [u16; 6] = [0, 1, 2, 2, 3, 0];

/// Colour the surface is cleared to behind the built-in grid, as red,
/// green, blue and alpha.
pub const BACKGROUND_COLOR: [u8; 4] = [26, 26, 26, 255];

} // verus!
