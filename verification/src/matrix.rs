use vstd::prelude::*;
use crate::constants::{BLOCK_PER_COLUMN, BLOCK_SIZE, MATRIX_ROWS, MATRIX_SIZE};
use crate::column::{column_offset, lemma_column_offset, spec_column_load};
use crate::endian::{
    lemma_u128_to_from_le_bytes,
    lemma_u64_top_bits,
    u128_byte,
    u128_to_block,
    u128_to_le_bytes,
};
use crate::precomputed::{precomputed_rows, spec_precomputed_rows, PRECOMPUTED_PART_SIZE};
use crate::primitives::{aes128_encrypt, aesenc, spec_aesenc, zero_key};

verus! {

/// The counter of block `k` in row `j`: the row number moved up one byte, with
/// the block number in the lowest byte.
pub open spec fn spec_counter(j: int, k: int) -> u128 {
    ((j as u128) << 8) | (k as u128)
}

/// The sixteen bytes of the ciphertext of counter `k` in row `j`.
pub open spec fn spec_cipher_block(j: int, k: int) -> Seq<u8> {
    u128_to_le_bytes(spec_aesenc(spec_counter(j, k)))
}

/// The four cipher blocks of a row with the top three bits of the row's last
/// byte taken off it and added onto the row's first byte, so that the row
/// holds 509 bits.
pub open spec fn spec_reduce_row(blocks: Seq<Seq<u8>>) -> Seq<Seq<u8>> {
    seq![
        blocks[0].update(0, blocks[0][0] ^ (blocks[3][15] >> 5)),
        blocks[1],
        blocks[2],
        blocks[3].update(15, blocks[3][15] & 31),
    ]
}

/// Row `j` of the generating matrix, as its four blocks.
pub open spec fn spec_matrix_row(j: int) -> Seq<Seq<u8>> {
    spec_reduce_row(
        seq![
            spec_cipher_block(j, 0),
            spec_cipher_block(j, 1),
            spec_cipher_block(j, 2),
            spec_cipher_block(j, 3),
        ],
    )
}

/// The generating matrix: 256 rows of four blocks of sixteen bytes, one after
/// the other.
pub open spec fn spec_genmatrix() -> Seq<u8> {
    Seq::new(MATRIX_SIZE as nat, |n: int| spec_matrix_row(n / 64)[(n % 64) / 16][n % 16])
}

/// The counter of block `k` in row `j` as the cipher takes it: the block
/// number, the row number, and fourteen bytes of zero.
pub open spec fn spec_counter_block(j: int, k: int) -> Seq<u8> {
    Seq::new(
        16,
        |n: int|
            if n == 0 {
                k as u8
            } else if n == 1 {
                j as u8
            } else {
                0u8
            },
    )
}

proof fn lemma_counter_byte(j: u128, k: u128, from: u32)
    by (bit_vector)
    requires
        j < 256,
        k < 256,
        from < 128,
        from % 8 == 0,
    ensures
        (((j << 8) | k) >> from) & 0xff == if from == 0 {
            k
        } else if from == 8 {
            j
        } else {
            0
        },
{
}

/// The sixteen bytes of a counter are its block number, its row number and
/// zeros.
pub proof fn lemma_counter_block(j: int, k: int)
    requires
        0 <= j < 256,
        0 <= k < 4,
    ensures
        u128_to_le_bytes(spec_counter(j, k)) == spec_counter_block(j, k),
{
    assert forall|n: int| 0 <= n < 16 implies u128_byte(spec_counter(j, k), n)
        == spec_counter_block(j, k)[n] by {
        lemma_counter_byte(j as u128, k as u128, (8 * n) as u32);
    }
    assert(u128_to_le_bytes(spec_counter(j, k)) =~= spec_counter_block(j, k));
}

/// Each block of the matrix, before its row is reduced, is the AES-128
/// ciphertext, under the all-zero key, of the sixteen bytes of its counter.
pub proof fn lemma_cipher_block(j: int, k: int, n: int)
    requires
        0 <= j < 256,
        0 <= k < 4,
        0 <= n < 16,
    ensures
        spec_cipher_block(j, k)[n] == aes128_encrypt(zero_key(), spec_counter_block(j, k))[n],
{
    lemma_counter_block(j, k);
    lemma_u128_to_from_le_bytes(aes128_encrypt(zero_key(), spec_counter_block(j, k)), n);
}

/// Every row of the generating matrix holds 509 bits: the top three bits of
/// its last byte are clear.
pub proof fn lemma_matrix_row_reduced(j: int)
    requires
        0 <= j < 256,
    ensures
        spec_genmatrix()[64 * j + 63] >> 5 == 0,
{
    let last = spec_cipher_block(j, 3)[15];
    assert((last & 31) >> 5 == 0) by (bit_vector);
}

/// In every column that is loaded from the generating matrix the top three
/// bits of limb 7 are clear: its eight low limbs hold 509 bits.
pub proof fn lemma_matrix_column_reduced(pos: u8)
    ensures
        spec_column_load(pos, spec_genmatrix())[7] >> 61 == 0,
{
    lemma_column_offset(pos, 7);
    let at = column_offset(pos, 7);
    lemma_u64_top_bits(spec_genmatrix().subrange(at, at + 8));
    lemma_matrix_row_reduced(pos as int);
}

/// Writes the block `input` into `output`, starting at `offset`.
pub fn copy_block_at(input: [u8; BLOCK_SIZE], output: &mut [u8; MATRIX_SIZE], offset: usize)
    requires
        offset + BLOCK_SIZE <= MATRIX_SIZE,
    ensures
        final(output)@ == old(output)@.subrange(0, offset as int) + input@ + old(output)@.subrange(
            offset + BLOCK_SIZE,
            MATRIX_SIZE as int,
        ),
{
    let mut ctr: usize = 0;
    while ctr < BLOCK_SIZE
        invariant
            ctr <= BLOCK_SIZE,
            offset + BLOCK_SIZE <= MATRIX_SIZE,
            forall|n: int| 0 <= n < offset ==> output@[n] == old(output)@[n],
            forall|n: int| offset <= n < offset + ctr ==> output@[n] == input@[n - offset],
            forall|n: int| offset + ctr <= n < MATRIX_SIZE ==> output@[n] == old(output)@[n],
        decreases BLOCK_SIZE - ctr,
    {
        output[offset + ctr] = input[ctr];
        ctr += 1;
    }
    assert(output@ =~= old(output)@.subrange(0, offset as int) + input@ + old(output)@.subrange(
        offset + BLOCK_SIZE,
        MATRIX_SIZE as int,
    ));
}

/// The blocks of `blocks`, each as a sequence of bytes.
pub open spec fn blocks_view(blocks: [[u8; BLOCK_SIZE]; BLOCK_PER_COLUMN]) -> Seq<Seq<u8>> {
    Seq::new(4, |k: int| blocks@[k]@)
}

/// Folds the three excess bits of a row's last byte into its first byte.
pub fn reduce_row(blocks: &mut [[u8; BLOCK_SIZE]; BLOCK_PER_COLUMN])
    ensures
        blocks_view(*final(blocks)) == spec_reduce_row(blocks_view(*old(blocks))),
{
    let first = blocks[0][0] ^ (blocks[3][15] >> 5);
    let last = blocks[3][15] & 31;
    blocks[0][0] = first;
    blocks[3][15] = last;
    assert(blocks_view(*blocks) =~~= spec_reduce_row(blocks_view(*old(blocks))));
}

/// Generates the matrix: for each byte value a row of four blocks, the
/// ciphertexts of four counters, reduced to 509 bits.
pub fn genmatrix() -> (result: [u8; MATRIX_SIZE])
    ensures
        result@ == spec_genmatrix(),
{
    let mut result = [0u8; MATRIX_SIZE];
    let mut j: usize = 0;
    let mut k: usize = 0;
    while j < MATRIX_ROWS
        invariant
            j <= MATRIX_ROWS,
            k == 64 * j,
            forall|n: int| 0 <= n < k ==> result@[n] == spec_genmatrix()[n],
        decreases MATRIX_ROWS - j,
    {
        let offset = (j as u128) << 8;
        let mut blocks = [
            u128_to_block(aesenc(offset)),
            u128_to_block(aesenc(offset | 1)),
            u128_to_block(aesenc(offset | 2)),
            u128_to_block(aesenc(offset | 3)),
        ];
        proof {
            assert(offset | 0 == offset) by (bit_vector);
            assert(blocks_view(blocks) =~~= seq![
                spec_cipher_block(j as int, 0),
                spec_cipher_block(j as int, 1),
                spec_cipher_block(j as int, 2),
                spec_cipher_block(j as int, 3),
            ]);
        }
        reduce_row(&mut blocks);
        assert(blocks_view(blocks) == spec_matrix_row(j as int));
        for i in 0..4
            invariant
                j < MATRIX_ROWS,
                k == 64 * j + 16 * i,
                blocks_view(blocks) == spec_matrix_row(j as int),
                forall|n: int| 0 <= n < k ==> result@[n] == spec_genmatrix()[n],
        {
            copy_block_at(blocks[i], &mut result, k);
            assert forall|n: int| 0 <= n < k + 16 implies result@[n] == spec_genmatrix()[n] by {
                if n >= k {
                    assert(n / 64 == j);
                    assert((n % 64) / 16 == i);
                    assert(n % 16 == n - k);
                    assert(blocks_view(blocks)[i as int] == blocks@[i as int]@);
                }
            }
            k += BLOCK_SIZE;
        }
        j += 1;
    }
    assert(result@ =~= spec_genmatrix());
    result
}

/// The generating matrix as the precomputed tables hold it: the eight tables,
/// one after the other.
pub open spec fn spec_precomputed_matrix() -> Seq<u8> {
    Seq::new(
        MATRIX_SIZE as nat,
        |n: int| spec_precomputed_rows(n / 2048)[n % 2048],
    )
}

/// Puts the generating matrix together from the precomputed tables.
pub fn precomputed_matrix() -> (matrix: [u8; MATRIX_SIZE])
    ensures
        matrix@ == spec_precomputed_matrix(),
{
    let mut matrix = [0u8; MATRIX_SIZE];
    for p in 0..8
        invariant
            forall|n: int| 0 <= n < 2048 * p ==> matrix@[n] == spec_precomputed_matrix()[n],
    {
        let rows = precomputed_rows(p);
        let offset = PRECOMPUTED_PART_SIZE * p;
        for i in 0..PRECOMPUTED_PART_SIZE
            invariant
                p < 8,
                offset == 2048 * p,
                rows@ == spec_precomputed_rows(p as int),
                forall|n: int| 0 <= n < offset + i ==> matrix@[n] == spec_precomputed_matrix()[n],
        {
            matrix[offset + i] = rows[i];
        }
    }
    assert(matrix@ =~= spec_precomputed_matrix());
    matrix
}

} // verus!
