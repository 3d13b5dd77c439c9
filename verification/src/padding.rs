use vstd::prelude::*;
use crate::endian::{store_littleendian, u64_to_le_bytes};

verus! {

/// Bytes of closing data after `remaining` unconsumed bytes: one chunk where
/// the eight bytes of the length still fit behind them, else two.
pub open spec fn spec_pad_len(remaining: int) -> int {
    if remaining <= 40 {
        48
    } else {
        96
    }
}

/// `n` bytes of zero.
pub open spec fn zeros(n: int) -> Seq<u8> {
    Seq::new(n as nat, |i: int| 0u8)
}

/// The closing data for `input`, of which the last `remaining` bytes have not
/// been mixed in yet: those bytes, then zeros, then the length of the whole
/// input as eight little-endian bytes.
pub open spec fn spec_padding(input: Seq<u8>, remaining: int) -> Seq<u8> {
    input.subrange(input.len() - remaining, input.len() as int) + zeros(
        spec_pad_len(remaining) - 8 - remaining,
    ) + u64_to_le_bytes(input.len() as u64)
}

/// Builds the closing data for `input`, of which the last `remaining` bytes
/// have not been mixed in yet.
pub fn padding(input: &[u8], remaining: usize) -> (pad: Vec<u8>)
    requires
        remaining <= 47,
        remaining <= input@.len(),
    ensures
        pad@ == spec_padding(input@, remaining as int),
        pad@.len() == spec_pad_len(remaining as int),
        remaining <= 40 <==> pad@.len() == 48,
{
    let padlen: usize = if remaining <= 40 {
        48
    } else {
        96
    };
    let mut pad = vec![0u8; padlen];
    let inlen = input.len();
    for i in 0..remaining
        invariant
            remaining <= 47,
            remaining <= inlen == input@.len(),
            pad@.len() == padlen,
            padlen == spec_pad_len(remaining as int),
            forall|n: int| 0 <= n < i ==> pad@[n] == input@[inlen - remaining + n],
            forall|n: int| i <= n < padlen ==> pad@[n] == 0,
    {
        pad[i] = input[inlen - remaining + i];
    }
    let length = store_littleendian(inlen as u64);
    for i in 0..8
        invariant
            remaining <= 47,
            remaining <= inlen == input@.len(),
            pad@.len() == padlen,
            padlen == spec_pad_len(remaining as int),
            length@ == u64_to_le_bytes(inlen as u64),
            forall|n: int| 0 <= n < remaining ==> pad@[n] == input@[inlen - remaining + n],
            forall|n: int| remaining <= n < padlen - 8 ==> pad@[n] == 0,
            forall|n: int| padlen - 8 <= n < padlen - 8 + i ==> pad@[n] == length@[n - (padlen - 8)],
    {
        pad[padlen - 8 + i] = length[i];
    }
    assert(pad@ =~= spec_padding(input@, remaining as int));
    pad
}

} // verus!
