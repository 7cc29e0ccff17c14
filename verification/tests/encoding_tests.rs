use shapes::encoding::{encode_word, encode_words, push_le};

#[test]
fn encode_word_puts_the_low_byte_first() {
    assert_eq!(encode_word(0x1122_3344), vec![0x44, 0x33, 0x22, 0x11]);
    assert_eq!(encode_word(0), vec![0, 0, 0, 0]);
    assert_eq!(encode_word(u32::MAX), vec![255, 255, 255, 255]);
    assert_eq!(encode_word(1), vec![1, 0, 0, 0]);
}

#[test]
fn encode_word_of_one_is_the_float_one() {
    assert_eq!(encode_word(1.0f32.to_bits()), 1.0f32.to_le_bytes().to_vec());
    assert_eq!(encode_word(0x3f80_0000), vec![0x00, 0x00, 0x80, 0x3f]);
}

#[test]
fn encode_words_keeps_the_order_of_the_words() {
    let words: Vec<u32> = vec![0x0403_0201, 0x0807_0605, 0xdead_beef];
    assert_eq!(
        encode_words(&words),
        vec![1, 2, 3, 4, 5, 6, 7, 8, 0xef, 0xbe, 0xad, 0xde]
    );
}

#[test]
fn encode_words_of_nothing_is_empty() {
    let words: Vec<u32> = Vec::new();
    assert_eq!(encode_words(&words), Vec::<u8>::new());
}

#[test]
fn encode_words_agrees_with_to_le_bytes() {
    let words: Vec<u32> = (0..50u32).map(|i| i.wrapping_mul(0x9e37_79b9)).collect();
    let mut expected: Vec<u8> = Vec::new();
    for w in &words {
        expected.extend_from_slice(&w.to_le_bytes());
    }
    assert_eq!(encode_words(&words), expected);
}

#[test]
fn push_le_appends_four_bytes() {
    let mut out: Vec<u8> = vec![9];
    push_le(&mut out, 0xa1b2_c3d4);
    assert_eq!(out, vec![9, 0xd4, 0xc3, 0xb2, 0xa1]);
}

#[test]
fn different_words_have_different_bytes() {
    assert_ne!(encode_word(0x0000_0100), encode_word(0x0001_0000));
    assert_ne!(encode_word(0x8000_0000), encode_word(0x0000_0000));
}
