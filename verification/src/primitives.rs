use vstd::prelude::*;
use crypto::aessafe::AesSafe128Encryptor;
use crypto::symmetriccipher::BlockEncryptor;
use generic_array::GenericArray;
use crate::endian::{block_to_u128, u128_from_le_bytes, u128_to_block, u128_to_le_bytes};

verus! {

/// The AES-128 ciphertext of one 16-byte `block` under the 16-byte `key`.
pub uninterp spec fn aes128_encrypt(key: Seq<u8>, block: Seq<u8>) -> Seq<u8>;

/// The SHA-256 compression function: the chaining value that follows `state`
/// once the 64-byte `block` has been absorbed.
pub uninterp spec fn sha256_compress(state: Seq<u32>, block: Seq<u8>) -> Seq<u32>;

/// Calls `AesSafe128Encryptor::new` and its `BlockEncryptor::encrypt_block`
/// from the `crypto` crate: the result is the AES-128 encryption of `block`
/// under `key`. Both lengths are fixed at 16 bytes, so neither call can panic.
#[verifier::external_body]
pub(crate) fn aes128_encrypt_block(key: &[u8; 16], block: &[u8; 16]) -> (out: [u8; 16])
    ensures
        out@ == aes128_encrypt(key@, block@),
{
    let mut out = [0u8; 16];
    AesSafe128Encryptor::new(key).encrypt_block(block, &mut out);
    out
}

/// Calls `sha2::compress256` on the one block that `GenericArray::from_slice`
/// makes of `block`: the result is `state` advanced by one application of the
/// SHA-256 compression function to `block`. `from_slice` panics on a slice that
/// is not 64 bytes long, so the length is required.
#[verifier::external_body]
#[allow(deprecated)]
pub(crate) fn sha256_compress_block(state: &[u32; 8], block: &[u8]) -> (out: [u32; 8])
    requires
        block@.len() == 64,
    ensures
        out@ == sha256_compress(state@, block@),
{
    let mut out = *state;
    sha2::compress256(&mut out, &[*GenericArray::from_slice(block)]);
    out
}

/// The all-zero AES-128 key, under which the generating matrix is made.
pub open spec fn zero_key() -> Seq<u8> {
    Seq::new(16, |i: int| 0u8)
}

/// The block cipher of the generating matrix as a map on 128-bit numbers: the
/// sixteen little-endian bytes of `input` are one block, encrypted with
/// AES-128 under the all-zero key, and the ciphertext is read back the same
/// way.
pub open spec fn spec_aesenc(input: u128) -> u128 {
    u128_from_le_bytes(aes128_encrypt(zero_key(), u128_to_le_bytes(input)))
}

/// Encrypts one 128-bit block with AES-128 under the all-zero key.
pub fn aesenc(input: u128) -> (out: u128)
    ensures
        out == spec_aesenc(input),
{
    let key = [0u8; 16];
    assert(key@ =~= zero_key());
    let block = u128_to_block(input);
    let cipher = aes128_encrypt_block(&key, &block);
    block_to_u128(&cipher)
}

} // verus!
