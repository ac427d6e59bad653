use twitter_client::text::{
    ascii_string, decimal_bytes, decimal_string, hex_encode, same_bytes, same_text,
    text_from_utf8, to_upper, unsigned_string,
};

#[test]
fn decimal_numerals() {
    assert_eq!(decimal_bytes(0), b"0".to_vec());
    assert_eq!(decimal_bytes(7), b"7".to_vec());
    assert_eq!(decimal_bytes(10), b"10".to_vec());
    assert_eq!(decimal_bytes(-3), b"-3".to_vec());
    assert_eq!(decimal_bytes(i32::MAX), b"2147483647".to_vec());
    assert_eq!(decimal_bytes(i32::MIN), b"-2147483648".to_vec());
    assert_eq!(decimal_string(401), "401");
    assert_eq!(unsigned_string(1700000000), "1700000000");
}

#[test]
fn upper_case_touches_ascii_letters_only() {
    assert_eq!(to_upper(b"delete"), b"DELETE".to_vec());
    assert_eq!(to_upper(b"GeT-1_z{`"), b"GET-1_Z{`".to_vec());
    assert_eq!(to_upper("é".as_bytes()), "é".as_bytes().to_vec());
}

#[test]
fn hex_text_has_two_digits_per_byte() {
    assert_eq!(hex_encode(&[0x01, 0xab, 0x9f]), b"01AB9F".to_vec());
    assert_eq!(hex_encode(&[]), Vec::<u8>::new());
}

#[test]
fn bytes_become_strings() {
    assert_eq!(ascii_string(b"OAuth x".to_vec()), "OAuth x");
    assert_eq!(text_from_utf8("naïve".as_bytes().to_vec()), Some("naïve".to_string()));
    assert_eq!(text_from_utf8(vec![0xff, 0x41]), None);
    assert_eq!(text_from_utf8(vec![0xc3]), None);
}

#[test]
fn texts_are_compared_whole() {
    assert!(same_text("help", "help"));
    assert!(!same_text("help", "hel"));
    assert!(!same_text("help", "helq"));
    assert!(same_text("", ""));
    assert!(same_bytes(b"ab", b"ab"));
    assert!(!same_bytes(b"ab", b"ba"));
}
