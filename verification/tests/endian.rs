use rfsb509::{digest_bytes, load_littleendian, output_filter, store_littleendian};
use sha2::{Digest, Sha256};

fn hex(bytes: &[u8]) -> String {
    let mut out = String::new();
    for byte in bytes {
        out.push_str(&format!("{:02x}", byte));
    }
    out
}

#[test]
fn load_is_little_endian() {
    assert_eq!(
        load_littleendian([0x01, 0x02, 0x03, 0x04, 0x05, 0x06, 0x07, 0x08]),
        0x0807060504030201
    );
    assert_eq!(load_littleendian([0xff, 0, 0, 0, 0, 0, 0, 0]), 255);
    assert_eq!(load_littleendian([0, 0, 0, 0, 0, 0, 0, 0x80]), 1 << 63);
    assert_eq!(load_littleendian([0xff; 8]), u64::MAX);
}

#[test]
fn store_is_little_endian() {
    assert_eq!(
        store_littleendian(0x0807060504030201),
        [0x01, 0x02, 0x03, 0x04, 0x05, 0x06, 0x07, 0x08]
    );
    assert_eq!(store_littleendian(0), [0u8; 8]);
    assert_eq!(store_littleendian(u64::MAX), [0xffu8; 8]);
}

#[test]
fn store_and_load_go_round() {
    let mut value: u64 = 1;
    for _ in 0..100 {
        value = value.wrapping_mul(6364136223846793005).wrapping_add(1442695040888963407);
        assert_eq!(load_littleendian(store_littleendian(value)), value);
        assert_eq!(store_littleendian(value), value.to_le_bytes());
    }
}

#[test]
fn digest_bytes_writes_each_word_low_byte_first() {
    let words = [
        0x03020100u32,
        0x07060504,
        0x0b0a0908,
        0x0f0e0d0c,
        0x13121110,
        0x17161514,
        0x1b1a1918,
        0x1f1e1d1c,
    ];
    let bytes = digest_bytes(&words);
    for i in 0..32 {
        assert_eq!(bytes[i], i as u8);
    }
}

#[test]
fn filter_of_the_zero_state() {
    let mut state = [0u8; 128];
    let digest = output_filter(&mut state);
    assert_eq!(
        hex(&digest),
        "42fda5f530206ad16eef98279b9709d3233d0043e8f0d920a93198ea4bfb5927"
    );
    assert_eq!(state[64], 0x80);
    assert_eq!(state[126], 0x02);
    let mut others = state;
    others[64] = 0;
    others[126] = 0;
    assert_eq!(others, [0u8; 128]);
}

#[test]
fn filter_is_sha256_of_the_lower_half_with_words_turned() {
    let mut state = [0u8; 128];
    for i in 0..64 {
        state[i] = i as u8;
    }
    let digest = output_filter(&mut state);
    assert_eq!(
        hex(&digest),
        "acb9eafd620371f3cd5826bd8f9ea2c9cf7f759c3a601198d17c448c081115d9"
    );
    let mut hasher = Sha256::new();
    hasher.update(&state[..64]);
    let reference = hasher.finalize();
    for word in 0..8 {
        for byte in 0..4 {
            assert_eq!(digest[4 * word + byte], reference[4 * word + 3 - byte]);
        }
    }
}
