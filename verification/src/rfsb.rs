use vstd::prelude::*;
use crate::constants::MATRIX_SIZE;
use crate::endian::{lemma_u64_from_to_le_bytes, u64_to_le_bytes};
use crate::filter::{output_filter, spec_output_filter};
use crate::matrix::{precomputed_matrix, spec_precomputed_matrix};
use crate::mixer::{hash_blocks, lemma_hash_blocks_concat, spec_hash_blocks};
use crate::padding::{padding, spec_pad_len, spec_padding, zeros};

verus! {

/// The padded message: the input, then zeros up to eight bytes before the end
/// of a 48-byte chunk, then the length of the input as eight little-endian
/// bytes. Where fewer than eight bytes are left in the input's last chunk, the
/// length goes to the end of one more chunk.
pub open spec fn spec_padded(input: Seq<u8>) -> Seq<u8> {
    let remaining = (input.len() % 48) as int;
    input + zeros(spec_pad_len(remaining) - 8 - remaining) + u64_to_le_bytes(input.len() as u64)
}

/// The 64-byte state that stands when the padded message has been mixed,
/// chunk by chunk, into a state of zeros.
pub open spec fn spec_state(matrix: Seq<u8>, input: Seq<u8>) -> Seq<u8> {
    spec_hash_blocks(matrix, zeros(64), spec_padded(input))
}

/// The RFSB-509 digest of `input` over the generating matrix `matrix`.
pub open spec fn spec_hash(matrix: Seq<u8>, input: Seq<u8>) -> Seq<u8> {
    spec_output_filter(spec_state(matrix, input) + zeros(64))
}

/// Mixing the input and then its closing data gives the state of the padded
/// message.
pub proof fn lemma_state_in_two_steps(matrix: Seq<u8>, input: Seq<u8>)
    ensures
        spec_hash_blocks(
            matrix,
            spec_hash_blocks(matrix, zeros(64), input),
            spec_padding(input, (input.len() % 48) as int),
        ) == spec_state(matrix, input),
{
    let remaining = (input.len() % 48) as int;
    let whole = input.subrange(0, input.len() - remaining);
    let tail = input.subrange(input.len() - remaining, input.len() as int);
    let closing = spec_padding(input, remaining);
    assert(input =~= whole + tail);
    assert(spec_padded(input) =~= whole + closing);
    lemma_hash_blocks_concat(matrix, zeros(64), whole, tail);
    lemma_hash_blocks_concat(matrix, zeros(64), whole, closing);
}

/// The padded message is made of whole chunks: the chunks of the input, and
/// one more where its last, partial chunk holds at most 40 bytes, else two
/// more.
pub proof fn lemma_padded_length(input: Seq<u8>)
    ensures
        spec_padded(input).len() % 48 == 0,
        input.len() % 48 <= 40 ==> spec_padded(input).len() == 48 * (input.len() / 48) + 48,
        input.len() % 48 > 40 ==> spec_padded(input).len() == 48 * (input.len() / 48) + 96,
{
}

/// The padded message begins with the input and ends with its length.
pub proof fn lemma_padded_ends(input: Seq<u8>)
    ensures
        spec_padded(input).len() >= input.len() + 8,
        spec_padded(input).subrange(0, input.len() as int) == input,
        spec_padded(input).subrange(spec_padded(input).len() - 8, spec_padded(input).len() as int)
            == u64_to_le_bytes(input.len() as u64),
{
    let padded = spec_padded(input);
    assert(padded.subrange(0, input.len() as int) =~= input);
    assert(padded.subrange(padded.len() - 8, padded.len() as int) =~= u64_to_le_bytes(
        input.len() as u64,
    ));
}

/// Padding loses nothing: two inputs with the same padded message are the same
/// input. So an input and the same input with bytes added or taken away at its
/// end, zeros too, never go into the mixer as the same message.
pub proof fn lemma_padded_injective(x: Seq<u8>, y: Seq<u8>)
    requires
        x.len() <= u64::MAX,
        y.len() <= u64::MAX,
        spec_padded(x) == spec_padded(y),
    ensures
        x == y,
{
    lemma_padded_ends(x);
    lemma_padded_ends(y);
    lemma_u64_from_to_le_bytes(x.len() as u64);
    lemma_u64_from_to_le_bytes(y.len() as u64);
    assert(x.len() == y.len());
}

/// The digest is a function of the matrix and the input: two digests of one
/// input are the same 32 bytes.
pub proof fn lemma_hash_deterministic(
    matrix: Seq<u8>,
    input: Seq<u8>,
    first: [u8; 32],
    second: [u8; 32],
)
    requires
        first@ == spec_hash(matrix, input),
        second@ == spec_hash(matrix, input),
    ensures
        first == second,
{
    assert(first =~= second);
}

/// Hashes `input` over the generating matrix `matrix`.
pub fn hash_with_matrix(input: &[u8], matrix: &[u8; MATRIX_SIZE]) -> (digest: [u8; 32])
    ensures
        digest@ == spec_hash(matrix@, input@),
{
    let mut state = [0u8; 128];
    assert(state@.subrange(0, 64) =~= zeros(64));
    assert(state@.subrange(64, 128) =~= zeros(64));
    let remaining = hash_blocks(&mut state, input, matrix);
    let ghost mixed = spec_hash_blocks(matrix@, zeros(64), input@);
    assert(state@.len() == mixed.len() + 64);
    assert(state@.subrange(0, 64) =~= mixed);
    assert(state@.subrange(64, 128) =~= zeros(64));
    let pad = padding(input, remaining);
    hash_blocks(&mut state, pad.as_slice(), matrix);
    proof {
        lemma_state_in_two_steps(matrix@, input@);
        let closed = spec_hash_blocks(matrix@, mixed, pad@);
        assert(state@.len() == closed.len() + 64);
        assert(state@ =~= spec_state(matrix@, input@) + zeros(64));
    }
    output_filter(&mut state)
}

/// The RFSB-509 digest of `input`.
pub fn hash(input: &[u8]) -> (digest: [u8; 32])
    ensures
        digest@ == spec_hash(spec_precomputed_matrix(), input@),
{
    let matrix = precomputed_matrix();
    hash_with_matrix(input, &matrix)
}

} // verus!
