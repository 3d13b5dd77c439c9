use rfsb509::{
    column_add, column_load, column_modx509, column_mulx128, copy_into_array, precomputed_matrix,
};

#[test]
fn mulx128_shifts_two_limbs() {
    let mut c = [1u64, 2, 3, 4, 5, 6, 7, 8, 9, 10];
    column_mulx128(&mut c);
    assert_eq!(c, [0, 0, 1, 2, 3, 4, 5, 6, 7, 8]);
}

#[test]
fn add_leaves_limb_nine() {
    let mut r = [0xffu64, 0, 1, 2, 3, 4, 5, 6, 7, 0x1234];
    let x = [0x0fu64, 1, 1, 1, 1, 1, 1, 1, 0xf0, 0xffff];
    column_add(&mut r, x);
    assert_eq!(r, [0xf0, 1, 0, 3, 2, 5, 4, 7, 0xf7, 0x1234]);
}

#[test]
fn add_twice_gives_back() {
    let start = [11u64, 22, 33, 44, 55, 66, 77, 88, 99, 110];
    let x = [9u64, 8, 7, 6, 5, 4, 3, 2, 1, 0xdead];
    let mut r = start;
    column_add(&mut r, x);
    column_add(&mut r, x);
    assert_eq!(r, start);
}

#[test]
fn modx509_folds_high_bits() {
    let mut c = [0u64; 10];
    c[7] = 0xe000_0000_0000_0001;
    c[8] = 0x8000_0000_0000_0001;
    c[9] = 0x4000_0000_0000_0002;
    column_modx509(&mut c);
    assert_eq!(c[0], 0x7 ^ 0x8);
    assert_eq!(c[1], 0x4 ^ 0x10);
    assert_eq!(c[2], 0x2);
    assert_eq!(c[7], 1);
    assert_eq!(c[8], 0);
    assert_eq!(c[9], 0);
}

#[test]
fn modx509_leaves_a_reduced_column() {
    let before = [1u64, 2, 3, 4, 5, 6, 7, 0x1fff_ffff_ffff_ffff, 0, 0];
    let mut c = before;
    column_modx509(&mut c);
    assert_eq!(c, before);
}

#[test]
fn modx509_result_is_reduced() {
    let mut seed: u64 = 0x9e37_79b9_7f4a_7c15;
    for _ in 0..200 {
        let mut c = [0u64; 10];
        for limb in c.iter_mut() {
            seed = seed.wrapping_mul(6364136223846793005).wrapping_add(1442695040888963407);
            *limb = seed;
        }
        column_modx509(&mut c);
        assert_eq!(c[8], 0);
        assert_eq!(c[9], 0);
        assert_eq!(c[7] >> 61, 0);
    }
    let mut all = [u64::MAX; 10];
    column_modx509(&mut all);
    assert_eq!(all[8], 0);
    assert_eq!(all[9], 0);
    assert_eq!(all[7], 0x1fff_ffff_ffff_ffff);
}

#[test]
fn load_row_zero() {
    let matrix = precomputed_matrix();
    assert_eq!(
        column_load(0, &matrix),
        [
            0x3b2c8aefd44be966,
            0x2e2b34ca59fa4c88,
            0xf06f1de916187147,
            0xd30f8ef52bbfbb59,
            0x8580adeaa776f1bc,
            0x81a2622436eaaceb,
            0x36a3d52e7769fc4f,
            0x1448c303455b61f4,
            0x72fef58ef11c32f8,
            0x4151941e5c2ad87d,
        ]
    );
}

#[test]
fn load_odd_row_wraps_onto_itself() {
    let matrix = precomputed_matrix();
    let one = column_load(1, &matrix);
    assert_eq!(one[0], 0x72fef58ef11c32f8);
    assert_eq!(one[8], one[0]);
    assert_eq!(one[9], one[1]);
    let last = column_load(255, &matrix);
    assert_eq!(last[7], 0x1329ff4b6c8418c6);
    assert_eq!(last[8], 0xa1467b7513e2b19a);
    assert_eq!(last[9], 0x1af81214db9bb464);
}

#[test]
fn load_even_row_runs_into_the_next() {
    let matrix = precomputed_matrix();
    let zero = column_load(0, &matrix);
    let one = column_load(1, &matrix);
    assert_eq!(zero[8], one[0]);
    assert_eq!(zero[9], one[1]);
    let even = column_load(254, &matrix);
    let odd = column_load(255, &matrix);
    assert_eq!(even[0], 0x010ca7eccd283477);
    assert_eq!(even[8], odd[0]);
    assert_eq!(even[9], odd[1]);
}

#[test]
fn copy_into_array_copies() {
    let bytes = [9u8, 8, 7, 6, 5, 4, 3, 2];
    let copy: [u8; 8] = copy_into_array(&bytes[..]);
    assert_eq!(copy, bytes);
}

#[test]
fn modx509_folds_bit_by_bit() {
    for high in 509..640usize {
        let mut c = [0u64; 10];
        c[high / 64] = 1 << (high % 64);
        column_modx509(&mut c);
        let low = high - 509;
        let mut expected = [0u64; 10];
        expected[low / 64] = 1 << (low % 64);
        assert_eq!(c, expected);
    }
    for kept in 0..509usize {
        let mut c = [0u64; 10];
        c[kept / 64] = 1 << (kept % 64);
        let before = c;
        column_modx509(&mut c);
        assert_eq!(c, before);
    }
}

#[test]
fn mulx128_moves_bits_up_128_places() {
    for bit in 0..512usize {
        let mut c = [0u64; 10];
        c[bit / 64] = 1 << (bit % 64);
        column_mulx128(&mut c);
        let mut expected = [0u64; 10];
        expected[(bit + 128) / 64] = 1 << (bit % 64);
        assert_eq!(c, expected);
    }
    for bit in 512..640usize {
        let mut c = [0u64; 10];
        c[bit / 64] = 1 << (bit % 64);
        column_mulx128(&mut c);
        assert_eq!(c, [0u64; 10]);
    }
}
