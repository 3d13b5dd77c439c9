use vstd::prelude::*;
use vstd::slice::slice_subrange;
use crate::constants::MATRIX_SIZE;
use crate::endian::{load_littleendian, u64_from_le_bytes};

verus! {

/// The low 61 bits of a limb: with limbs 0 to 6 they make up 509 bits.
pub const LIMB7_MASK: u64 = 0x1fff_ffff_ffff_ffff;

/// A column is reduced when it fits in 509 bits: limbs 8 and 9 are zero and
/// the top three bits of limb 7 are clear.
pub open spec fn is_reduced(c: Seq<u64>) -> bool {
    &&& c.len() == 10
    &&& c[7] <= LIMB7_MASK
    &&& c[7] >> 61 == 0
    &&& c[8] == 0
    &&& c[9] == 0
}

/// The column `c` times x^128: every limb moves up two places, the two lowest
/// become zero and the two highest are dropped.
pub open spec fn spec_column_mulx128(c: Seq<u64>) -> Seq<u64> {
    Seq::new(
        10,
        |i: int|
            if i < 2 {
                0u64
            } else {
                c[i - 2]
            },
    )
}

/// The sum of the columns `r` and `x` on limbs 0 to 8; limb 9 is that of `r`.
pub open spec fn spec_column_add(r: Seq<u64>, x: Seq<u64>) -> Seq<u64> {
    Seq::new(
        10,
        |i: int|
            if i < 9 {
                r[i] ^ x[i]
            } else {
                r[i]
            },
    )
}

/// The column `c` with every bit from position 509 up folded down by 509
/// places.
pub open spec fn spec_column_modx509(c: Seq<u64>) -> Seq<u64> {
    seq![
        (c[0] ^ (c[7] >> 61)) ^ (c[8] << 3),
        (c[1] ^ (c[8] >> 61)) ^ (c[9] << 3),
        c[2] ^ (c[9] >> 61),
        c[3],
        c[4],
        c[5],
        c[6],
        c[7] & LIMB7_MASK,
        0u64,
        0u64,
    ]
}

/// Bit `i` of the column `c`, read as one number of 640 bits: the coefficient
/// of x^i in the polynomial that the column stands for.
pub open spec fn column_bit(c: Seq<u64>, i: int) -> bool {
    limb_bit(c[i / 64], (i % 64) as u64)
}

/// Bit `k` of the limb `v`.
pub open spec fn limb_bit(v: u64, k: u64) -> bool {
    (v >> k) & 1 == 1
}

/// Where limb `i` of the column for the byte `pos` starts in the matrix.
pub open spec fn column_offset(pos: u8, i: int) -> int {
    (((pos as usize) << 6) | ((i as usize) << 3)) as int
}

/// The column that the matrix holds for the byte `pos`: ten little-endian
/// words, each read at its `column_offset`.
pub open spec fn spec_column_load(pos: u8, matrix: Seq<u8>) -> Seq<u64> {
    Seq::new(
        10,
        |i: int| u64_from_le_bytes(matrix.subrange(column_offset(pos, i), column_offset(pos, i) + 8)),
    )
}

proof fn lemma_offset_bits(pos: u8, i: usize)
    by (bit_vector)
    requires
        i < 10,
    ensures
        i < 8 ==> (((pos as usize) << 6) | (i << 3)) == 64 * (pos as usize) + 8 * i,
        i >= 8 ==> (((pos as usize) << 6) | (i << 3)) == 64 * ((pos | 1) as usize) + 8 * (i - 8),
        pos % 2 == 0 ==> (pos | 1) == pos + 1,
        pos % 2 == 1 ==> (pos | 1) == pos,
{
}

/// The first eight limbs of a column lie side by side in the row of `pos`.
/// Limbs 8 and 9 follow them where `pos` is even, in the first bytes of the
/// next row; where `pos` is odd they are the first two limbs of the same row
/// once more. No limb reaches past the end of the matrix.
pub proof fn lemma_column_offset(pos: u8, i: int)
    requires
        0 <= i < 10,
    ensures
        i < 8 ==> column_offset(pos, i) == 64 * pos + 8 * i,
        i >= 8 && pos % 2 == 0 ==> column_offset(pos, i) == 64 * (pos + 1) + 8 * (i - 8),
        i >= 8 && pos % 2 == 1 ==> column_offset(pos, i) == 64 * pos + 8 * (i - 8),
        0 <= column_offset(pos, i),
        column_offset(pos, i) + 8 <= MATRIX_SIZE,
{
    lemma_offset_bits(pos, i as usize);
}

proof fn lemma_limb_bits(a: u64, b: u64, d: u64, k: u64)
    by (bit_vector)
    requires
        k < 64,
    ensures
        ((0u64 >> k) & 1 == 1) == false,
        (((a ^ b) >> k) & 1 == 1) == (((a >> k) & 1 == 1) != ((b >> k) & 1 == 1)),
        k < 3 ==> (((((a ^ (b >> 61)) ^ (d << 3)) >> k) & 1 == 1) == (((a >> k) & 1 == 1) != ((b >> (
        (61 + k) as u64)) & 1 == 1))),
        k >= 3 ==> (((((a ^ (b >> 61)) ^ (d << 3)) >> k) & 1 == 1) == (((a >> k) & 1 == 1) != ((d
            >> ((k - 3) as u64)) & 1 == 1))),
        k < 3 ==> ((((a ^ (b >> 61)) >> k) & 1 == 1) == (((a >> k) & 1 == 1) != ((b >> ((61
            + k) as u64)) & 1 == 1))),
        k >= 3 ==> ((((a ^ (b >> 61)) >> k) & 1 == 1) == ((a >> k) & 1 == 1)),
        k < 61 ==> ((((a & 0x1fff_ffff_ffff_ffff) >> k) & 1 == 1) == ((a >> k) & 1 == 1)),
        k >= 61 ==> ((((a & 0x1fff_ffff_ffff_ffff) >> k) & 1 == 1) == false),
        (a & 0x1fff_ffff_ffff_ffff) <= 0x1fff_ffff_ffff_ffff,
        (a & 0x1fff_ffff_ffff_ffff) >> 61 == 0,
{
}

/// Multiplying by x^128 moves every bit up 128 places: bit `i` of the product
/// is bit `i - 128` of the column, and the lowest 128 bits are zero.
pub proof fn lemma_mulx128_bits(c: Seq<u64>, i: int)
    requires
        c.len() == 10,
        0 <= i < 640,
    ensures
        column_bit(spec_column_mulx128(c), i) == (i >= 128 && column_bit(c, i - 128)),
{
    lemma_limb_bits(0, 0, 0, (i % 64) as u64);
}

/// Of a reduced column the multiplication by x^128 drops nothing: the bits
/// that it pushes out at the top, from position 512 up, are all zero.
pub proof fn lemma_mulx128_of_reduced(c: Seq<u64>, i: int)
    requires
        is_reduced(c),
        512 <= i < 640,
    ensures
        !column_bit(c, i),
{
    lemma_limb_bits(0, 0, 0, (i % 64) as u64);
}

/// Adding two columns adds their bits modulo 2, below position 576; from there
/// up the bits of the first column stay.
pub proof fn lemma_add_bits(r: Seq<u64>, x: Seq<u64>, i: int)
    requires
        r.len() == 10,
        x.len() == 10,
        0 <= i < 640,
    ensures
        column_bit(spec_column_add(r, x), i) == if i < 576 {
            column_bit(r, i) != column_bit(x, i)
        } else {
            column_bit(r, i)
        },
{
    lemma_limb_bits(r[i / 64], x[i / 64], 0, (i % 64) as u64);
}

/// Reducing works modulo x^509 + 1: the bit at position `509 + i` is added
/// onto the bit at position `i` and then cleared. The 131 bits from position
/// 509 up land on the lowest 131 bits, the others below 509 stay as they are.
pub proof fn lemma_modx509_bits(c: Seq<u64>, i: int)
    requires
        c.len() == 10,
        0 <= i < 640,
    ensures
        column_bit(spec_column_modx509(c), i) == if i < 131 {
            column_bit(c, i) != column_bit(c, i + 509)
        } else if i < 509 {
            column_bit(c, i)
        } else {
            false
        },
{
    let k = (i % 64) as u64;
    if i < 64 {
        lemma_limb_bits(c[0], c[7], c[8], k);
    } else if i < 128 {
        lemma_limb_bits(c[1], c[8], c[9], k);
    } else if i < 192 {
        lemma_limb_bits(c[2], c[9], 0, k);
    } else if i < 448 {
    } else if i < 512 {
        lemma_limb_bits(c[7], 0, 0, k);
    } else {
        lemma_limb_bits(0, 0, 0, k);
    }
}

/// What reducing gives is reduced, whatever the column was.
pub proof fn lemma_modx509_reduced(c: Seq<u64>)
    ensures
        is_reduced(spec_column_modx509(c)),
{
    lemma_limb_bits(c[7], 0, 0, 0);
}

/// Copies the eight bytes of `slice` into an array.
pub fn copy_into_array(slice: &[u8]) -> (a: [u8; 8])
    requires
        slice@.len() == 8,
    ensures
        a@ == slice@,
{
    let mut a = [0u8; 8];
    for i in 0..8
        invariant
            slice@.len() == 8,
            forall|k: int| 0 <= k < i ==> a@[k] == slice@[k],
    {
        a[i] = slice[i];
    }
    assert(a@ =~= slice@);
    a
}

/// Multiplies the column by x^128.
pub fn column_mulx128(c: &mut [u64; 10])
    ensures
        final(c)@ == spec_column_mulx128(old(c)@),
{
    let mut i: usize = 9;
    while i >= 2
        invariant
            1 <= i <= 9,
            forall|k: int| 0 <= k <= i ==> c@[k] == old(c)@[k],
            forall|k: int| i < k < 10 ==> c@[k] == old(c)@[k - 2],
        decreases i,
    {
        c[i] = c[i - 2];
        i -= 1;
    }
    c[0] = 0;
    c[1] = 0;
    assert(c@ =~= spec_column_mulx128(old(c)@));
}

/// Adds limbs 0 to 8 of the column `x` to those of `r`.
pub fn column_add(r: &mut [u64; 10], x: [u64; 10])
    ensures
        final(r)@ == spec_column_add(old(r)@, x@),
{
    for j in 0..9
        invariant
            forall|k: int| 0 <= k < j ==> r@[k] == old(r)@[k] ^ x@[k],
            forall|k: int| j <= k < 10 ==> r@[k] == old(r)@[k],
    {
        r[j] ^= x[j];
    }
    assert(r@ =~= spec_column_add(old(r)@, x@));
}

/// Folds the bits of the column from position 509 up back onto its low bits.
/// What comes out is reduced, whatever went in.
pub fn column_modx509(c: &mut [u64; 10])
    ensures
        final(c)@ == spec_column_modx509(old(c)@),
        is_reduced(final(c)@),
{
    c[0] ^= c[7] >> 61;
    c[0] ^= c[8] << 3;
    c[1] ^= c[8] >> 61;
    c[1] ^= c[9] << 3;
    c[2] ^= c[9] >> 61;
    c[7] &= 0x1fff_ffff_ffff_ffff;
    c[8] = 0;
    c[9] = 0;
    proof {
        lemma_modx509_reduced(old(c)@);
        assert(c@ =~= spec_column_modx509(old(c)@));
    }
}

/// Loads the column of the byte `pos` from the generating matrix.
pub fn column_load(pos: u8, matrix: &[u8; MATRIX_SIZE]) -> (x: [u64; 10])
    ensures
        x@ == spec_column_load(pos, matrix@),
{
    let p = (pos as usize) << 6;
    let mut x = [0u64; 10];
    for i in 0..10
        invariant
            p == (pos as usize) << 6,
            forall|k: int| 0 <= k < i ==> x@[k] == spec_column_load(pos, matrix@)[k],
    {
        let idx = p | (i << 3);
        proof {
            lemma_column_offset(pos, i as int);
        }
        x[i] = load_littleendian(copy_into_array(slice_subrange(matrix.as_slice(), idx, idx + 8)));
    }
    assert(x@ =~= spec_column_load(pos, matrix@));
    x
}

} // verus!
