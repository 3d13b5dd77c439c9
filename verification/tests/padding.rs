use rfsb509::padding;

fn counting(len: usize) -> Vec<u8> {
    let mut out = Vec::new();
    for i in 0..len {
        out.push((i + 1) as u8);
    }
    out
}

#[test]
fn empty_input_pads_to_one_chunk_of_zeros() {
    assert_eq!(padding(b"", 0), vec![0u8; 48]);
}

#[test]
fn rest_of_forty_fits_in_one_chunk() {
    let input = counting(40);
    let pad = padding(&input, 40);
    assert_eq!(pad.len(), 48);
    assert_eq!(&pad[..40], &input[..]);
    assert_eq!(&pad[40..], &[40u8, 0, 0, 0, 0, 0, 0, 0][..]);
}

#[test]
fn rest_of_forty_one_takes_two_chunks() {
    let input = counting(41);
    let pad = padding(&input, 41);
    assert_eq!(pad.len(), 96);
    assert_eq!(&pad[..41], &input[..]);
    assert!(pad[41..88].iter().all(|b| *b == 0));
    assert_eq!(&pad[88..], &[41u8, 0, 0, 0, 0, 0, 0, 0][..]);
}

#[test]
fn rest_of_forty_seven() {
    let input = counting(47);
    let pad = padding(&input, 47);
    assert_eq!(pad.len(), 96);
    assert_eq!(&pad[..47], &input[..]);
    assert!(pad[47..88].iter().all(|b| *b == 0));
    assert_eq!(&pad[88..], &[47u8, 0, 0, 0, 0, 0, 0, 0][..]);
}

#[test]
fn rest_is_taken_from_the_tail() {
    let input = counting(50);
    let pad = padding(&input, 2);
    assert_eq!(pad.len(), 48);
    assert_eq!(&pad[..2], &[49u8, 50][..]);
    assert!(pad[2..40].iter().all(|b| *b == 0));
    assert_eq!(&pad[40..], &[50u8, 0, 0, 0, 0, 0, 0, 0][..]);
}

#[test]
fn whole_chunks_leave_no_rest() {
    let input = counting(96);
    let pad = padding(&input, 0);
    assert_eq!(pad.len(), 48);
    assert!(pad[..40].iter().all(|b| *b == 0));
    assert_eq!(&pad[40..], &[96u8, 0, 0, 0, 0, 0, 0, 0][..]);
}

#[test]
fn length_is_little_endian() {
    let input = vec![0u8; 0x012345];
    let rest = input.len() % 48;
    let pad = padding(&input, rest);
    let padlen = pad.len();
    assert_eq!(&pad[padlen - 8..], &[0x45u8, 0x23, 0x01, 0, 0, 0, 0, 0][..]);
}

#[test]
fn every_rest_up_to_forty_seven() {
    for rest in 0..48usize {
        let input = counting(rest);
        let pad = padding(&input, rest);
        assert_eq!(pad.len(), if rest <= 40 { 48 } else { 96 });
        assert_eq!(pad.len() % 48, 0);
        assert_eq!(&pad[..rest], &input[..]);
        assert_eq!(pad[pad.len() - 8], rest as u8);
    }
}

#[test]
fn closing_data_tells_inputs_of_zeros_apart() {
    for len in 0..100usize {
        let shorter = vec![0u8; len];
        let longer = vec![0u8; len + 1];
        assert_ne!(padding(&shorter, len % 48), padding(&longer, (len + 1) % 48));
    }
}
