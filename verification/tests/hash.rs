use rfsb509::{hash, hash_with_matrix, precomputed_matrix};

fn hex(digest: &[u8]) -> String {
    let mut out = String::new();
    for byte in digest {
        out.push_str(&format!("{:02x}", byte));
    }
    out
}

fn pattern(len: usize) -> Vec<u8> {
    let mut out = Vec::new();
    for i in 0..len {
        out.push(((i * 7 + 3) & 0xff) as u8);
    }
    out
}

#[test]
fn test_hash() {
    let input1 = b"Hello world!";
    let input2 = b"Hello worlb!";
    let result1 = hash(input1);
    let result2 = hash(input2);

    assert_ne!(result1, result2);
}

#[test]
fn hello_world_digests() {
    assert_eq!(
        hex(&hash(b"Hello world!")),
        "b6087060a0d585ac57dbd342e6c9eb35d2863a63853188b5286d1d83137b41cf"
    );
    assert_eq!(
        hex(&hash(b"Hello worlb!")),
        "f971656d1e02cb964d2aa2e72259070214d00b3d3d10337b669c4de96c0ebd3b"
    );
}

#[test]
fn empty_input() {
    assert_eq!(
        hex(&hash(b"")),
        "92583b956e0a826d04e85c0d8f479067cab2843d991c84c482caf43134d84a27"
    );
}

#[test]
fn hash_is_deterministic() {
    let input = pattern(1000);
    let first = hash(&input);
    let second = hash(&input);
    assert_eq!(first, second);
    assert_eq!(
        hex(&first),
        "360811dbffffc5a46bb7a541d127336c43089fb92c5bfa6566d72d88d35769a7"
    );
}

#[test]
fn one_bit_changes_the_digest() {
    let input = pattern(60);
    let base = hash(&input);
    for byte in 0..input.len() {
        for bit in 0..8 {
            let mut flipped = input.clone();
            flipped[byte] ^= 1 << bit;
            assert_ne!(hash(&flipped), base);
        }
    }
}

#[test]
fn trailing_zero_changes_the_digest() {
    assert_eq!(
        hex(&hash(b"abc")),
        "60070edd66bef8233a193abaa0ee6a72ce0ee6a4af037d5082798d7a85fca296"
    );
    assert_eq!(
        hex(&hash(b"abc\0")),
        "06c2b406c36f95d8e0ef93efc8dc7d0b84285222971c7033b0f591c0b6afc9a6"
    );
    assert_ne!(hash(b""), hash(b"\0"));
    let zeros47 = vec![0u8; 47];
    let zeros48 = vec![0u8; 48];
    assert_ne!(hash(&zeros47), hash(&zeros48));
}

#[test]
fn length_0() {
    assert_eq!(
        hex(&hash(&pattern(0))),
        "92583b956e0a826d04e85c0d8f479067cab2843d991c84c482caf43134d84a27"
    );
}

#[test]
fn length_1() {
    assert_eq!(
        hex(&hash(&pattern(1))),
        "5450454eaadbe926b57f1d486409a171807a7139ca51355734483fc9eb0e4d72"
    );
}

#[test]
fn length_39() {
    assert_eq!(
        hex(&hash(&pattern(39))),
        "4585878f0b1dd79147e3af4790723146a16e91b27938fac78a2c483db38d09be"
    );
}

#[test]
fn length_40_uses_one_closing_chunk() {
    assert_eq!(
        hex(&hash(&pattern(40))),
        "f40ff472e84dbc90ad092fff581453f2853a476089b0be687d84c3b3989666d1"
    );
}

#[test]
fn length_41_uses_two_closing_chunks() {
    assert_eq!(
        hex(&hash(&pattern(41))),
        "4f88d79f149f4f965958d965967a56d83a23aedcf4c8241a07305eecb8bc1aea"
    );
}

#[test]
fn length_47() {
    assert_eq!(
        hex(&hash(&pattern(47))),
        "b5ad88528920b588f881c527b5199262023dde9a1432eca4f0f7cedd8ffd3cdd"
    );
}

#[test]
fn length_48() {
    assert_eq!(
        hex(&hash(&pattern(48))),
        "5e16e06976b7e458ef47e9e598c113792f20d4096df434858b799c5e5b7a5f4a"
    );
}

#[test]
fn length_49() {
    assert_eq!(
        hex(&hash(&pattern(49))),
        "a776bfd741a33a462904f6cfafdfe193537dbf0effe706b7af878abf12540341"
    );
}

#[test]
fn length_88_uses_one_closing_chunk() {
    assert_eq!(
        hex(&hash(&pattern(88))),
        "45b65dbb4271c7a11097841f2b85518903b25d340f4c3e72c15eca14e983832c"
    );
}

#[test]
fn length_89_uses_two_closing_chunks() {
    assert_eq!(
        hex(&hash(&pattern(89))),
        "7f8bf1927ff43256cd099d24799c99a469af0609fa8390774e3ed99885c78365"
    );
}

#[test]
fn length_95() {
    assert_eq!(
        hex(&hash(&pattern(95))),
        "8d43d5670f5f05ad2344210252959f07ea04b71c641d6e6df44eb0f4f26f2370"
    );
}

#[test]
fn length_96() {
    assert_eq!(
        hex(&hash(&pattern(96))),
        "704980e15d8981a3b3bd25a600bc5815fa19f4b0a99ae113d62d7174438a54f9"
    );
}

#[test]
fn length_97() {
    assert_eq!(
        hex(&hash(&pattern(97))),
        "abae3aac6bf0f2d1a4ed599aab5e618629d8ddbba041ed80f73cb6c63b93a40e"
    );
}

#[test]
fn one_kilobyte() {
    let input = vec![123u8; 1024];
    assert_eq!(
        hex(&hash(&input)),
        "ab1076113d3b78ced9d4b1f650e0d6fb31c2d73e4fa775b824a98e6c5fb35343"
    );
}

#[test]
fn hash_with_the_precomputed_matrix_is_hash() {
    let matrix = precomputed_matrix();
    for len in [0usize, 12, 48, 100] {
        let input = pattern(len);
        assert_eq!(hash_with_matrix(&input, &matrix), hash(&input));
    }
}

#[test]
fn another_matrix_gives_another_digest() {
    let mut matrix = precomputed_matrix();
    matrix[0] ^= 1;
    assert_ne!(hash_with_matrix(b"", &matrix), hash(b""));
}
