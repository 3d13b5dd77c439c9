use vstd::prelude::*;

verus! {

/// Byte `k` of `v`, counted from the least significant byte.
pub open spec fn u64_byte(v: u64, k: int) -> u8 {
    ((v >> (8 * k)) & 0xff) as u8
}

/// The eight bytes of `v`, least significant first.
pub open spec fn u64_to_le_bytes(v: u64) -> Seq<u8> {
    Seq::new(8, |k: int| u64_byte(v, k))
}

/// The number that the first eight bytes of `b` spell, least significant first.
pub open spec fn u64_from_le_bytes(b: Seq<u8>) -> u64 {
    (b[0] as u64) | ((b[1] as u64) << 8) | ((b[2] as u64) << 16) | ((b[3] as u64) << 24) | ((
    b[4] as u64) << 32) | ((b[5] as u64) << 40) | ((b[6] as u64) << 48) | ((b[7] as u64) << 56)
}

/// Byte `k` of `v`, counted from the least significant byte.
pub open spec fn u32_byte(v: u32, k: int) -> u8 {
    ((v >> (8 * k)) & 0xff) as u8
}

/// The bytes of the words of `words` in order, each word least significant byte
/// first.
pub open spec fn words_to_le_bytes(words: Seq<u32>) -> Seq<u8> {
    Seq::new(4 * words.len(), |n: int| u32_byte(words[n / 4], n % 4))
}

/// Byte `k` of `v`, counted from the least significant byte.
pub open spec fn u128_byte(v: u128, k: int) -> u8 {
    ((v >> (8 * k)) & 0xff) as u8
}

/// The sixteen bytes of `v`, least significant first.
pub open spec fn u128_to_le_bytes(v: u128) -> Seq<u8> {
    Seq::new(16, |k: int| u128_byte(v, k))
}

/// The number that the first `n` bytes of `b` spell, least significant first.
pub open spec fn u128_from_le_prefix(b: Seq<u8>, n: nat) -> u128
    decreases n,
{
    if n == 0 {
        0
    } else {
        u128_from_le_prefix(b, (n - 1) as nat) | ((b[n - 1] as u128) << (8 * (n - 1)))
    }
}

/// The number that the first sixteen bytes of `b` spell, least significant first.
pub open spec fn u128_from_le_bytes(b: Seq<u8>) -> u128 {
    u128_from_le_prefix(b, 16)
}

proof fn lemma_u64_bytes_of_from(
    b0: u8,
    b1: u8,
    b2: u8,
    b3: u8,
    b4: u8,
    b5: u8,
    b6: u8,
    b7: u8,
)
    by (bit_vector)
    ensures
        ({
            let v = (b0 as u64) | ((b1 as u64) << 8) | ((b2 as u64) << 16) | ((b3 as u64) << 24)
                | ((b4 as u64) << 32) | ((b5 as u64) << 40) | ((b6 as u64) << 48) | ((b7 as u64)
                << 56);
            &&& v & 0xff == b0
            &&& (v >> 8) & 0xff == b1
            &&& (v >> 16) & 0xff == b2
            &&& (v >> 24) & 0xff == b3
            &&& (v >> 32) & 0xff == b4
            &&& (v >> 40) & 0xff == b5
            &&& (v >> 48) & 0xff == b6
            &&& (v >> 56) & 0xff == b7
        }),
{
}

proof fn lemma_u64_from_of_bytes(v: u64)
    by (bit_vector)
    ensures
        v == (v & 0xff) | (((v >> 8) & 0xff) << 8) | (((v >> 16) & 0xff) << 16) | (((v >> 24)
            & 0xff) << 24) | (((v >> 32) & 0xff) << 32) | (((v >> 40) & 0xff) << 40) | (((v >> 48)
            & 0xff) << 48) | (((v >> 56) & 0xff) << 56),
        v & 0xff < 256,
        (v >> 8) & 0xff < 256,
        (v >> 16) & 0xff < 256,
        (v >> 24) & 0xff < 256,
        (v >> 32) & 0xff < 256,
        (v >> 40) & 0xff < 256,
        (v >> 48) & 0xff < 256,
        (v >> 56) & 0xff < 256,
        v >> 0 == v,
{
}

/// Reading eight bytes as a little-endian number and writing that number out
/// again gives the same eight bytes.
pub proof fn lemma_u64_to_from_le_bytes(b: Seq<u8>)
    requires
        b.len() == 8,
    ensures
        u64_to_le_bytes(u64_from_le_bytes(b)) == b,
{
    let v = u64_from_le_bytes(b);
    lemma_u64_bytes_of_from(b[0], b[1], b[2], b[3], b[4], b[5], b[6], b[7]);
    lemma_u64_from_of_bytes(v);
    assert(u64_to_le_bytes(v) =~= b);
}

/// Writing a number out as eight little-endian bytes and reading them back
/// gives the same number.
pub proof fn lemma_u64_from_to_le_bytes(v: u64)
    ensures
        u64_to_le_bytes(v).len() == 8,
        u64_from_le_bytes(u64_to_le_bytes(v)) == v,
{
    lemma_u64_from_of_bytes(v);
    let b = u64_to_le_bytes(v);
    assert(b[0] == (v & 0xff) as u8);
    assert(b[1] == ((v >> 8) & 0xff) as u8);
    assert(b[2] == ((v >> 16) & 0xff) as u8);
    assert(b[3] == ((v >> 24) & 0xff) as u8);
    assert(b[4] == ((v >> 32) & 0xff) as u8);
    assert(b[5] == ((v >> 40) & 0xff) as u8);
    assert(b[6] == ((v >> 48) & 0xff) as u8);
    assert(b[7] == ((v >> 56) & 0xff) as u8);
}

proof fn lemma_or_byte(acc: u128, x: u8, at: u32, from: u32)
    by (bit_vector)
    requires
        at < 128,
        from < 128,
        at % 8 == 0,
        from % 8 == 0,
    ensures
        (acc >> from) & 0xff < 256,
        ((acc | ((x as u128) << at)) >> from) & 0xff < 256,
        from != at ==> ((acc | ((x as u128) << at)) >> from) & 0xff == (acc >> from) & 0xff,
        from == at && (acc >> from) & 0xff == 0 ==> ((acc | ((x as u128) << at)) >> from) & 0xff
            == x,
        (0u128 >> from) & 0xff == 0,
{
}

/// Byte `m` of the number that the first `n` bytes of `b` spell is byte `m` of
/// `b` below `n`, and zero from there up.
pub proof fn lemma_u128_prefix_byte(b: Seq<u8>, n: nat, m: int)
    requires
        n <= 16,
        0 <= m < 16,
    ensures
        u128_byte(u128_from_le_prefix(b, n), m) == if m < n {
            b[m]
        } else {
            0u8
        },
    decreases n,
{
    if n == 0 {
        lemma_or_byte(0, 0, 0, (8 * m) as u32);
    } else {
        let acc = u128_from_le_prefix(b, (n - 1) as nat);
        lemma_u128_prefix_byte(b, (n - 1) as nat, m);
        lemma_or_byte(acc, b[n - 1], (8 * (n - 1)) as u32, (8 * m) as u32);
    }
}

/// Reading sixteen bytes as a little-endian number and writing that number out
/// again gives the same sixteen bytes.
pub proof fn lemma_u128_to_from_le_bytes(b: Seq<u8>, m: int)
    requires
        0 <= m < 16,
    ensures
        u128_to_le_bytes(u128_from_le_bytes(b))[m] == b[m],
{
    lemma_u128_prefix_byte(b, 16, m);
}

/// The top three bits of a little-endian number are those of its last byte.
pub proof fn lemma_u64_top_bits(b: Seq<u8>)
    ensures
        u64_from_le_bytes(b) >> 61 == b[7] >> 5,
{
    lemma_u64_top_bits_of(b[0], b[1], b[2], b[3], b[4], b[5], b[6], b[7]);
}

proof fn lemma_u64_top_bits_of(
    b0: u8,
    b1: u8,
    b2: u8,
    b3: u8,
    b4: u8,
    b5: u8,
    b6: u8,
    b7: u8,
)
    by (bit_vector)
    ensures
        ((b0 as u64) | ((b1 as u64) << 8) | ((b2 as u64) << 16) | ((b3 as u64) << 24) | ((
        b4 as u64) << 32) | ((b5 as u64) << 40) | ((b6 as u64) << 48) | ((b7 as u64) << 56)) >> 61
            == b7 >> 5,
{
}

/// Reads `x` as a little-endian 64-bit number.
pub fn load_littleendian(x: [u8; 8]) -> (r: u64)
    ensures
        r == u64_from_le_bytes(x@),
        u64_to_le_bytes(r) == x@,
{
    proof {
        lemma_u64_to_from_le_bytes(x@);
    }
    (x[0] as u64) | ((x[1] as u64) << 8) | ((x[2] as u64) << 16) | ((x[3] as u64) << 24) | ((
    x[4] as u64) << 32) | ((x[5] as u64) << 40) | ((x[6] as u64) << 48) | ((x[7] as u64) << 56)
}

/// Writes `v` out as eight bytes, least significant first.
pub fn store_littleendian(v: u64) -> (x: [u8; 8])
    ensures
        x@ == u64_to_le_bytes(v),
        u64_from_le_bytes(x@) == v,
{
    proof {
        lemma_u64_from_of_bytes(v);
        lemma_u64_from_to_le_bytes(v);
    }
    let x = [
        (v & 0xff) as u8,
        ((v >> 8) & 0xff) as u8,
        ((v >> 16) & 0xff) as u8,
        ((v >> 24) & 0xff) as u8,
        ((v >> 32) & 0xff) as u8,
        ((v >> 40) & 0xff) as u8,
        ((v >> 48) & 0xff) as u8,
        ((v >> 56) & 0xff) as u8,
    ];
    assert(x@ =~= u64_to_le_bytes(v));
    x
}

/// Writes `v` out as sixteen bytes, least significant first.
pub fn u128_to_block(v: u128) -> (block: [u8; 16])
    ensures
        block@ == u128_to_le_bytes(v),
{
    let mut block = [0u8; 16];
    for k in 0..16
        invariant
            forall|n: int| 0 <= n < k ==> block@[n] == u128_byte(v, n),
    {
        let shift: u32 = 8 * (k as u32);
        assert((v >> shift) & 0xff < 256) by (bit_vector);
        block[k] = ((v >> shift) & 0xff) as u8;
    }
    assert(block@ =~= u128_to_le_bytes(v));
    block
}

/// Reads `block` as a little-endian 128-bit number.
pub fn block_to_u128(block: &[u8; 16]) -> (v: u128)
    ensures
        v == u128_from_le_bytes(block@),
{
    let mut v: u128 = 0;
    for k in 0..16
        invariant
            v == u128_from_le_prefix(block@, k as nat),
    {
        let shift: u32 = 8 * (k as u32);
        v = v | ((block[k] as u128) << shift);
    }
    v
}

/// Writes the eight words out in order, each least significant byte first.
pub fn digest_bytes(words: &[u32; 8]) -> (out: [u8; 32])
    ensures
        out@ == words_to_le_bytes(words@),
{
    let mut out = [0u8; 32];
    for n in 0..32
        invariant
            forall|m: int| 0 <= m < n ==> out@[m] == u32_byte(words@[m / 4], m % 4),
    {
        let word = words[n / 4];
        let shift: u32 = 8 * ((n % 4) as u32);
        assert((word >> shift) & 0xff < 256) by (bit_vector);
        out[n] = ((word >> shift) & 0xff) as u8;
    }
    assert(out@ =~= words_to_le_bytes(words@));
    out
}

} // verus!
