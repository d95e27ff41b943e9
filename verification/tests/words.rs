use brics::words::{halves_to_bytes, push_word, push_words, words_to_bytes};

#[test]
fn a_word_is_laid_out_least_significant_byte_first() {
    let mut bytes = vec![9u8];
    push_word(&mut bytes, 0x0403_0201);
    assert_eq!(bytes, vec![9, 1, 2, 3, 4]);
}

#[test]
fn words_are_laid_out_as_floats_are() {
    let values = [1.0f32, -2.5, 0.1, 0.0];
    let words: Vec<u32> = values.iter().map(|v| v.to_bits()).collect();
    let bytes = words_to_bytes(&words);
    let mut expected = Vec::new();
    for v in values {
        expected.extend_from_slice(&v.to_le_bytes());
    }
    assert_eq!(bytes, expected);
    assert_eq!(bytes.len(), 16);
}

#[test]
fn no_words_give_no_bytes() {
    assert_eq!(words_to_bytes(&[]), Vec::<u8>::new());
    assert_eq!(halves_to_bytes(&[]), Vec::<u8>::new());
}

#[test]
fn words_are_appended() {
    let mut bytes = vec![7u8, 8];
    push_words(&mut bytes, &[0xaabb_ccdd, 1]);
    assert_eq!(bytes, vec![7, 8, 0xdd, 0xcc, 0xbb, 0xaa, 1, 0, 0, 0]);
}

#[test]
fn half_words_are_laid_out_least_significant_byte_first() {
    assert_eq!(halves_to_bytes(&[0x0201, 3, 0xffee]), vec![1, 2, 3, 0, 0xee, 0xff]);
}
