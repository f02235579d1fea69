use altre::text::{char_is_alphanumeric, char_is_control, char_is_uppercase, char_is_whitespace};

#[test]
fn whitespace_and_control_agree_with_std_on_every_char() {
    for u in 0u32..0x110000 {
        if let Some(c) = char::from_u32(u) {
            assert_eq!(char_is_whitespace(c), c.is_whitespace(), "{:?}", c);
            assert_eq!(char_is_control(c), c.is_control(), "{:?}", c);
        }
    }
}

#[test]
fn ascii_letters_and_digits_classify_as_std_says() {
    for u in 0u32..0x80 {
        let c = char::from_u32(u).unwrap();
        assert_eq!(char_is_alphanumeric(c), c.is_ascii_alphanumeric(), "{:?}", c);
        assert_eq!(char_is_uppercase(c), c.is_ascii_uppercase(), "{:?}", c);
    }
}
