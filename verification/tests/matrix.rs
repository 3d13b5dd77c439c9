use crypto::aessafe::AesSafe128Encryptor;
use crypto::symmetriccipher::BlockEncryptor;
use rfsb509::precomputed::{PRECOMPUTED_ROWS_0, PRECOMPUTED_ROWS_7};
use rfsb509::{aesenc, copy_block_at, genmatrix, precomputed_matrix, reduce_row};

#[test]
fn gen_matrix() {
    let matrix = genmatrix();

    assert_eq!(matrix, precomputed_matrix());
}

#[test]
fn matrix_first_and_last_row() {
    let matrix = genmatrix();
    let first: [u8; 64] = [
        0x66, 0xe9, 0x4b, 0xd4, 0xef, 0x8a, 0x2c, 0x3b, 0x88, 0x4c, 0xfa, 0x59, 0xca, 0x34, 0x2b,
        0x2e, 0x47, 0x71, 0x18, 0x16, 0xe9, 0x1d, 0x6f, 0xf0, 0x59, 0xbb, 0xbf, 0x2b, 0xf5, 0x8e,
        0x0f, 0xd3, 0xbc, 0xf1, 0x76, 0xa7, 0xea, 0xad, 0x80, 0x85, 0xeb, 0xac, 0xea, 0x36, 0x24,
        0x62, 0xa2, 0x81, 0x4f, 0xfc, 0x69, 0x77, 0x2e, 0xd5, 0xa3, 0x36, 0xf4, 0x61, 0x5b, 0x45,
        0x03, 0xc3, 0x48, 0x14,
    ];
    let last: [u8; 64] = [
        0x9a, 0xb1, 0xe2, 0x13, 0x75, 0x7b, 0x46, 0xa1, 0x64, 0xb4, 0x9b, 0xdb, 0x14, 0x12, 0xf8,
        0x1a, 0x7a, 0x04, 0x4e, 0x31, 0xe0, 0x1d, 0x34, 0xf7, 0x24, 0x58, 0x3a, 0x1b, 0x6e, 0xa2,
        0xa3, 0x64, 0xa2, 0x5a, 0xb3, 0x4c, 0x39, 0xfd, 0x99, 0xb9, 0xc1, 0x19, 0xd5, 0x03, 0x25,
        0xd4, 0x50, 0x34, 0xfe, 0xb5, 0x6a, 0xf8, 0x3d, 0xe5, 0x6e, 0x75, 0xc6, 0x18, 0x84, 0x6c,
        0x4b, 0xff, 0x29, 0x13,
    ];
    assert_eq!(matrix.len(), 16384);
    assert_eq!(&matrix[..64], &first[..]);
    assert_eq!(&matrix[16320..], &last[..]);
}

#[test]
fn every_row_holds_509_bits() {
    let matrix = genmatrix();
    for row in 0..256 {
        assert_eq!(matrix[64 * row + 63] & 0xe0, 0);
    }
}

#[test]
fn precomputed_matrix_is_the_tables_in_order() {
    let matrix = precomputed_matrix();
    assert_eq!(&matrix[..2048], &PRECOMPUTED_ROWS_0[..]);
    assert_eq!(&matrix[14336..], &PRECOMPUTED_ROWS_7[..]);
}

#[test]
fn aesenc_of_zero() {
    assert_eq!(aesenc(0), 0x2e2b34ca59fa4c883b2c8aefd44be966);
}

#[test]
fn aesenc_of_counters() {
    assert_eq!(aesenc(0x0102), 0x8c78dd2f5dcc93390bb17219b2d74597);
    assert_eq!(aesenc(0xff03), 0x3329ff4b6c8418c6756ee53df86ab5fe);
}

#[test]
fn aesenc_is_deterministic() {
    assert_eq!(aesenc(12345), aesenc(12345));
    assert_ne!(aesenc(12345), aesenc(12346));
}

#[test]
fn reduce_row_folds_three_bits() {
    let mut blocks = [[0u8; 16]; 4];
    blocks[0][0] = 0x66;
    blocks[1][5] = 0x11;
    blocks[3][15] = 0xf4;
    reduce_row(&mut blocks);
    assert_eq!(blocks[0][0], 0x66 ^ 0x07);
    assert_eq!(blocks[3][15], 0x14);
    assert_eq!(blocks[1][5], 0x11);
    let mut others = blocks;
    others[0][0] = 0;
    others[1][5] = 0;
    others[3][15] = 0;
    assert_eq!(others, [[0u8; 16]; 4]);
}

#[test]
fn reduce_row_leaves_a_reduced_row() {
    let mut blocks = [[0xaau8; 16]; 4];
    blocks[3][15] = 0x1f;
    let before = blocks;
    reduce_row(&mut blocks);
    assert_eq!(blocks, before);
}

#[test]
fn copy_block_at_writes_sixteen_bytes() {
    let mut table = [0xeeu8; 16384];
    let mut block = [0u8; 16];
    for i in 0..16 {
        block[i] = i as u8 + 1;
    }
    copy_block_at(block, &mut table, 32);
    assert_eq!(&table[32..48], &block[..]);
    assert!(table[..32].iter().all(|b| *b == 0xee));
    assert!(table[48..].iter().all(|b| *b == 0xee));
    copy_block_at(block, &mut table, 16368);
    assert_eq!(&table[16368..], &block[..]);
    copy_block_at(block, &mut table, 0);
    assert_eq!(&table[..16], &block[..]);
}

#[test]
fn blocks_are_ciphertexts_of_their_counters() {
    let matrix = genmatrix();
    let cipher = AesSafe128Encryptor::new(&[0u8; 16]);
    for row in 0..256usize {
        for block in 0..4usize {
            let mut counter = [0u8; 16];
            counter[0] = block as u8;
            counter[1] = row as u8;
            let mut expected = [0u8; 16];
            cipher.encrypt_block(&counter, &mut expected);
            let at = 64 * row + 16 * block;
            for byte in 0..16 {
                if (block, byte) != (0, 0) && (block, byte) != (3, 15) {
                    assert_eq!(matrix[at + byte], expected[byte]);
                }
            }
        }
    }
}

#[test]
fn aesenc_takes_its_block_low_byte_first() {
    let cipher = AesSafe128Encryptor::new(&[0u8; 16]);
    let mut counter = [0u8; 16];
    for i in 0..16 {
        counter[i] = 0x10 + i as u8;
    }
    let mut expected = [0u8; 16];
    cipher.encrypt_block(&counter, &mut expected);
    assert_eq!(aesenc(u128::from_le_bytes(counter)), u128::from_le_bytes(expected));
}
