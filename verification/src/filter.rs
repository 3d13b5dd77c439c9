use vstd::prelude::*;
use vstd::slice::slice_subrange;
use crate::endian::{digest_bytes, words_to_le_bytes};
use crate::precomputed::PRECOMPUTED_SHA256_IV;
use crate::primitives::{sha256_compress, sha256_compress_block};

verus! {

/// The 128-byte state with the two marker bytes set: `0x80` behind the mixed
/// half, and `0x02` in the last byte but one.
pub open spec fn spec_mark(state: Seq<u8>) -> Seq<u8> {
    state.update(64, 0x80u8).update(126, 0x02u8)
}

/// The digest that the 128-byte state gives: the markers are set, the two
/// halves are absorbed one after the other by the SHA-256 compression
/// function, which starts from its initial value, and the eight words that
/// stand at the end are written out, each least significant byte first.
pub open spec fn spec_output_filter(state: Seq<u8>) -> Seq<u8> {
    let marked = spec_mark(state);
    let first = sha256_compress(PRECOMPUTED_SHA256_IV@, marked.subrange(0, 64));
    let second = sha256_compress(first, marked.subrange(64, 128));
    words_to_le_bytes(second)
}

/// Sets the markers in the state and filters it down to the 32-byte digest.
pub fn output_filter(state: &mut [u8; 128]) -> (digest: [u8; 32])
    ensures
        final(state)@ == spec_mark(old(state)@),
        digest@ == spec_output_filter(old(state)@),
{
    state[64] = 0x80;
    state[126] = 0x02;
    let first = sha256_compress_block(
        &PRECOMPUTED_SHA256_IV,
        slice_subrange(state.as_slice(), 0, 64),
    );
    let second = sha256_compress_block(&first, slice_subrange(state.as_slice(), 64, 128));
    digest_bytes(&second)
}

} // verus!
