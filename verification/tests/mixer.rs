use rfsb509::{hash_block, hash_blocks, precomputed_matrix};

fn hex(bytes: &[u8]) -> String {
    let mut out = String::new();
    for byte in bytes {
        out.push_str(&format!("{:02x}", byte));
    }
    out
}

fn counting(len: usize) -> Vec<u8> {
    let mut out = Vec::new();
    for i in 0..len {
        out.push(i as u8);
    }
    out
}

const AFTER_ONE: &str = "cba89e7f30e4add68e9660905d0ea0fc07b243ccd7c6bf0a1292b550e6c46d3916c62066eeda526f7cfb89503caa1aa192c17a1561088052640d2b5487056602";
const AFTER_TWO: &str = "8c33d651289f8db26391a6fc1fe65b67bd7255f2329fa2a238e78b4bf7a43afdc68e56f8424725ecd641c898f4c10131faea0845b42e8713549aa6130c540c0f";

#[test]
fn short_input_leaves_the_state() {
    let matrix = precomputed_matrix();
    let mut state = [7u8; 64];
    assert_eq!(hash_block(&mut state, b"abc", &matrix), 3);
    assert_eq!(state, [7u8; 64]);
    assert_eq!(hash_block(&mut state, b"", &matrix), 0);
    assert_eq!(state, [7u8; 64]);
    assert_eq!(hash_block(&mut state, &counting(47), &matrix), 47);
    assert_eq!(state, [7u8; 64]);
}

#[test]
fn one_chunk() {
    let matrix = precomputed_matrix();
    let mut state = [0u8; 64];
    assert_eq!(hash_block(&mut state, &counting(48), &matrix), 0);
    assert_eq!(hex(&state), AFTER_ONE);
}

#[test]
fn two_chunks_and_a_rest() {
    let matrix = precomputed_matrix();
    let mut state = [0u8; 64];
    assert_eq!(hash_block(&mut state, &counting(96), &matrix), 0);
    assert_eq!(hex(&state), AFTER_TWO);
    let mut state = [0u8; 64];
    assert_eq!(hash_block(&mut state, &counting(100), &matrix), 4);
    assert_eq!(hex(&state), AFTER_TWO);
}

#[test]
fn chunk_by_chunk_is_all_at_once() {
    let matrix = precomputed_matrix();
    let input = counting(96);
    let mut state = [0u8; 64];
    hash_block(&mut state, &input[..48], &matrix);
    assert_eq!(hex(&state), AFTER_ONE);
    hash_block(&mut state, &input[48..], &matrix);
    assert_eq!(hex(&state), AFTER_TWO);
}

#[test]
fn hash_blocks_keeps_the_upper_half() {
    let matrix = precomputed_matrix();
    let mut state = [0u8; 128];
    for i in 64..128 {
        state[i] = i as u8;
    }
    assert_eq!(hash_blocks(&mut state, &counting(100), &matrix), 4);
    assert_eq!(hex(&state[..64]), AFTER_TWO);
    for i in 64..128 {
        assert_eq!(state[i], i as u8);
    }
}

#[test]
fn closing_state_of_the_empty_input() {
    let matrix = precomputed_matrix();
    let mut state = [0u8; 128];
    let pad = [0u8; 48];
    assert_eq!(hash_blocks(&mut state, &pad, &matrix), 0);
    assert_eq!(
        hex(&state[..64]),
        "dac282b71e1d78b179cac3972d1244c455011969539fb20d93930ea85ffddac918f6f07b42896067800f298514e8d2965d5221c2c632807352740a2b4b4c9208"
    );
}

#[test]
fn mixed_state_holds_509_bits() {
    let matrix = precomputed_matrix();
    let mut state = [0xffu8; 64];
    for round in 0..20u8 {
        let chunk = [round.wrapping_mul(37); 48];
        hash_block(&mut state, &chunk, &matrix);
        assert_eq!(state[63] >> 5, 0);
    }
}
