use molcv::bytes::{decode_words, encode_words};

#[test]
fn words_are_written_least_significant_byte_first() {
    let bytes = encode_words(&[1, 0x0102_0304, u32::MAX]);
    assert_eq!(
        bytes,
        vec![1, 0, 0, 0, 4, 3, 2, 1, 255, 255, 255, 255]
    );
}

#[test]
fn decoding_inverts_encoding() {
    let words = vec![0, 7, 0x3f80_0000, 0xdead_beef];
    assert_eq!(decode_words(&encode_words(&words)), Some(words));
}

#[test]
fn partial_words_are_rejected() {
    assert_eq!(decode_words(&[1, 2, 3]), None);
    assert_eq!(decode_words(&[]), Some(vec![]));
}
