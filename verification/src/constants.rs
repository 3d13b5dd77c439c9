use vstd::prelude::*;

verus! {

/// Bytes in one block of the block cipher.
pub const BLOCK_SIZE: usize = 16;

/// Cipher blocks that make up one row of the generating matrix.
pub const BLOCK_PER_COLUMN: usize = 4;

/// Bytes in one row of the generating matrix.
pub const MATRIX_COLUMNS: usize = BLOCK_SIZE * BLOCK_PER_COLUMN;

/// Rows of the generating matrix: one for each byte value.
pub const MATRIX_ROWS: usize = 256;

/// Bytes in the whole generating matrix.
pub const MATRIX_SIZE: usize = MATRIX_COLUMNS * MATRIX_ROWS;

} // verus!
