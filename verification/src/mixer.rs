use vstd::prelude::*;
use crate::column::{
    column_add,
    column_load,
    column_modx509,
    column_mulx128,
    is_reduced,
    lemma_modx509_reduced,
    spec_column_add,
    spec_column_load,
    spec_column_modx509,
    spec_column_mulx128,
};
use crate::constants::MATRIX_SIZE;
use crate::endian::{store_littleendian, u64_byte, u64_to_le_bytes};

verus! {

/// The column that stands after the first `n` bytes of `positions` have been
/// taken in. The first byte gives its own column; each further byte multiplies
/// what stands by x^128, adds its column and reduces.
pub open spec fn spec_accumulate(matrix: Seq<u8>, positions: Seq<u8>, n: nat) -> Seq<u64>
    decreases n,
{
    if n <= 1 {
        spec_column_load(positions[0], matrix)
    } else {
        spec_column_modx509(
            spec_column_add(
                spec_column_mulx128(spec_accumulate(matrix, positions, (n - 1) as nat)),
                spec_column_load(positions[n - 1], matrix),
            ),
        )
    }
}

/// The 64 bytes of the eight low limbs of `v`: limb `i` stands at byte `8 * i`,
/// least significant byte first.
pub open spec fn spec_column_bytes(v: Seq<u64>) -> Seq<u8> {
    Seq::new(64, |n: int| u64_byte(v[n / 8], n % 8))
}

/// The state that follows the 64-byte `state` once the 48-byte `chunk` has been
/// mixed in: the 112 bytes of state and chunk are taken in one after the
/// other, and the column that stands at the end is written out.
pub open spec fn spec_mix_chunk(matrix: Seq<u8>, state: Seq<u8>, chunk: Seq<u8>) -> Seq<u8> {
    spec_column_bytes(spec_accumulate(matrix, state + chunk, 112))
}

/// The state that follows `state` once every whole 48-byte chunk of `b` has
/// been mixed in, first chunk first. Fewer than 48 bytes at the end of `b` are
/// left alone.
pub open spec fn spec_hash_blocks(matrix: Seq<u8>, state: Seq<u8>, b: Seq<u8>) -> Seq<u8>
    decreases b.len(),
{
    if b.len() < 48 {
        state
    } else {
        spec_hash_blocks(matrix, spec_mix_chunk(matrix, state, b.subrange(0, 48)), b.skip(48))
    }
}

/// From the second position on, the column that stands is reduced: every
/// column that the multiplication by x^128 meets has limbs 8 and 9 at zero and
/// the top three bits of limb 7 clear.
pub proof fn lemma_accumulate_reduced(matrix: Seq<u8>, positions: Seq<u8>, n: nat)
    requires
        n >= 2,
    ensures
        is_reduced(spec_accumulate(matrix, positions, n)),
{
    lemma_modx509_reduced(
        spec_column_add(
            spec_column_mulx128(spec_accumulate(matrix, positions, (n - 1) as nat)),
            spec_column_load(positions[n - 1], matrix),
        ),
    );
}

/// A state that the mixer has written holds 509 bits: it is 64 bytes long and
/// the top three bits of its last byte are clear.
pub proof fn lemma_mix_chunk_reduced(matrix: Seq<u8>, state: Seq<u8>, chunk: Seq<u8>)
    ensures
        spec_mix_chunk(matrix, state, chunk).len() == 64,
        spec_mix_chunk(matrix, state, chunk)[63] >> 5 == 0,
{
    lemma_accumulate_reduced(matrix, state + chunk, 112);
    let top = spec_accumulate(matrix, state + chunk, 112)[7];
    assert(top >> 61 == 0 ==> (((top >> 56) & 0xff) as u8) >> 5 == 0) by (bit_vector);
}

/// Mixing keeps the state at 64 bytes.
pub proof fn lemma_hash_blocks_length(matrix: Seq<u8>, state: Seq<u8>, b: Seq<u8>)
    requires
        state.len() == 64,
    ensures
        spec_hash_blocks(matrix, state, b).len() == 64,
    decreases b.len(),
{
    if b.len() >= 48 {
        lemma_hash_blocks_length(
            matrix,
            spec_mix_chunk(matrix, state, b.subrange(0, 48)),
            b.skip(48),
        );
    }
}

/// Mixing in `first` and then `second` is mixing in the two joined, where
/// `first` is made of whole chunks.
pub proof fn lemma_hash_blocks_concat(
    matrix: Seq<u8>,
    state: Seq<u8>,
    first: Seq<u8>,
    second: Seq<u8>,
)
    requires
        first.len() % 48 == 0,
    ensures
        spec_hash_blocks(matrix, state, first + second) == spec_hash_blocks(
            matrix,
            spec_hash_blocks(matrix, state, first),
            second,
        ),
    decreases first.len(),
{
    if first.len() == 0 {
        assert(first + second =~= second);
    } else {
        let joined = first + second;
        assert(joined.subrange(0, 48) =~= first.subrange(0, 48));
        assert(joined.skip(48) =~= first.skip(48) + second);
        lemma_hash_blocks_concat(
            matrix,
            spec_mix_chunk(matrix, state, first.subrange(0, 48)),
            first.skip(48),
            second,
        );
    }
}

/// Lays the state and the 48 bytes of `b` from `at` on side by side.
fn gather_positions(state: &[u8; 64], b: &[u8], at: usize) -> (positions: [u8; 112])
    requires
        at + 48 <= b@.len() <= usize::MAX,
    ensures
        positions@ == state@ + b@.subrange(at as int, at + 48),
{
    let mut positions = [0u8; 112];
    for i in 0..64
        invariant
            forall|n: int| 0 <= n < i ==> positions@[n] == state@[n],
    {
        positions[i] = state[i];
    }
    for i in 64..112
        invariant
            at + 48 <= b@.len() <= usize::MAX,
            forall|n: int| 0 <= n < 64 ==> positions@[n] == state@[n],
            forall|n: int| 64 <= n < i ==> positions@[n] == b@[at + n - 64],
    {
        positions[i] = b[at + (i - 64)];
    }
    assert(positions@ =~= state@ + b@.subrange(at as int, at + 48));
    positions
}

/// Takes in the 112 positions one after the other.
fn accumulate(positions: &[u8; 112], matrix: &[u8; MATRIX_SIZE]) -> (v: [u64; 10])
    ensures
        v@ == spec_accumulate(matrix@, positions@, 112),
{
    let mut v = column_load(positions[0], matrix);
    for i in 1..112
        invariant
            v@ == spec_accumulate(matrix@, positions@, i as nat),
            i >= 2 ==> is_reduced(v@),
    {
        column_mulx128(&mut v);
        column_add(&mut v, column_load(positions[i], matrix));
        column_modx509(&mut v);
    }
    v
}

/// Writes the eight low limbs of `v` into the state.
fn store_column(v: &[u64; 10], state: &mut [u8; 64])
    ensures
        final(state)@ == spec_column_bytes(v@),
{
    for i in 0..8
        invariant
            forall|n: int| 0 <= n < 8 * i ==> state@[n] == u64_byte(v@[n / 8], n % 8),
    {
        let xi_bytes = store_littleendian(v[i]);
        let offset = 8 * i;
        for j in 0..8
            invariant
                i < 8,
                offset == 8 * i,
                xi_bytes@ == u64_to_le_bytes(v@[i as int]),
                forall|n: int| 0 <= n < offset + j ==> state@[n] == u64_byte(v@[n / 8], n % 8),
        {
            state[offset + j] = xi_bytes[j];
        }
    }
    assert(state@ =~= spec_column_bytes(v@));
}

/// Mixes every whole 48-byte chunk of `b` into the 64-byte state, and returns
/// how many bytes at the end of `b` were left over.
pub fn hash_block(cur_state: &mut [u8; 64], b: &[u8], matrix: &[u8; MATRIX_SIZE]) -> (remaining:
    usize)
    ensures
        remaining == b@.len() % 48,
        final(cur_state)@ == spec_hash_blocks(matrix@, old(cur_state)@, b@),
{
    let mut idx = b.len();
    let mut b_idx: usize = 0;
    assert(b@.skip(0) =~= b@);
    while idx >= 48
        invariant
            idx + b_idx == b@.len() <= usize::MAX,
            b_idx % 48 == 0,
            spec_hash_blocks(matrix@, cur_state@, b@.skip(b_idx as int)) == spec_hash_blocks(
                matrix@,
                old(cur_state)@,
                b@,
            ),
        decreases idx,
    {
        let positions = gather_positions(cur_state, b, b_idx);
        let v = accumulate(&positions, matrix);
        proof {
            let rest = b@.skip(b_idx as int);
            assert(rest.subrange(0, 48) =~= b@.subrange(b_idx as int, b_idx + 48));
            assert(rest.skip(48) =~= b@.skip(b_idx + 48));
        }
        store_column(&v, cur_state);
        b_idx += 48;
        idx -= 48;
    }
    idx
}

/// Mixes every whole 48-byte chunk of `b` into the first 64 bytes of the
/// state, and returns how many bytes at the end of `b` were left over. The
/// last 64 bytes of the state stay as they are.
pub fn hash_blocks(cur_state: &mut [u8; 128], b: &[u8], matrix: &[u8; MATRIX_SIZE]) -> (remaining:
    usize)
    ensures
        remaining == b@.len() % 48,
        final(cur_state)@ == spec_hash_blocks(matrix@, old(cur_state)@.subrange(0, 64), b@) + old(
            cur_state,
        )@.subrange(64, 128),
{
    let mut state = [0u8; 64];
    for i in 0..64
        invariant
            forall|n: int| 0 <= n < i ==> state@[n] == cur_state@[n],
            cur_state@ == old(cur_state)@,
    {
        state[i] = cur_state[i];
    }
    assert(state@ =~= old(cur_state)@.subrange(0, 64));
    let remaining = hash_block(&mut state, b, matrix);
    for i in 0..64
        invariant
            forall|n: int| 0 <= n < i ==> cur_state@[n] == state@[n],
            forall|n: int| 64 <= n < 128 ==> cur_state@[n] == old(cur_state)@[n],
    {
        cur_state[i] = state[i];
    }
    assert(cur_state@ =~= state@ + old(cur_state)@.subrange(64, 128));
    remaining
}

} // verus!
