//! RFSB-509: a syndrome-based hash over GF(2)[x] / (x^509 + 1), filtered
//! through the SHA-256 compression function.

pub mod column;
pub mod constants;
pub mod endian;
pub mod filter;
pub mod matrix;
pub mod mixer;
pub mod padding;
pub mod precomputed;
pub mod primitives;
pub mod rfsb;

pub use column::{column_add, column_load, column_modx509, column_mulx128, copy_into_array};
pub use endian::{digest_bytes, load_littleendian, store_littleendian};
pub use filter::output_filter;
pub use matrix::{copy_block_at, genmatrix, precomputed_matrix, reduce_row};
pub use mixer::{hash_block, hash_blocks};
pub use padding::padding;
pub use primitives::aesenc;
pub use rfsb::{hash, hash_with_matrix};
