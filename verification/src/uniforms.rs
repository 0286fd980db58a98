use vstd::prelude::*;
use crate::constants::{COLS, ROWS};

verus! {

/// Uniform block of the compute stage for the built-in grid.
#[derive(Copy, Clone, Debug)]
pub struct ComputeUniforms {
    rows: u32,
    cols: u32,
}

impl ComputeUniforms {
    /// Rows the block announces to the compute stage.
    pub closed spec fn spec_rows(&self) -> u32 {
        self.rows
    }

    /// Columns the block announces to the compute stage.
    pub closed spec fn spec_cols(&self) -> u32 {
        self.cols
    }

    /// The block for the built-in grid of `ROWS` by `COLS` cells.
    pub fn new() -> (block: Self)
        ensures
            block.spec_rows() == ROWS,
            block.spec_cols() == COLS,
    {
        Self { rows: ROWS as u32, cols: COLS as u32 }
    }

    #[verifier::when_used_as_spec(spec_rows)]
    pub fn rows(&self) -> (rows: u32)
        ensures
            rows == self.spec_rows(),
    {
        self.rows
    }

    #[verifier::when_used_as_spec(spec_cols)]
    pub fn cols(&self) -> (cols: u32)
        ensures
            cols == self.spec_cols(),
    {
        self.cols
    }

    /// The block as the words the GPU reads, in field order.
    pub fn words(&self) -> (words: [u32; 2])
        ensures
            words@ == seq![self.spec_rows(), self.spec_cols()],
    {
        [self.rows, self.cols]
    }
}

} // verus!
