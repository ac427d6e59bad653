use twitter_client::params::{insert_encoded, insert_sorted, join_pairs, key_le, parameter_string};

fn pair(key: &str, value: &str) -> (Vec<u8>, Vec<u8>) {
    (key.as_bytes().to_vec(), value.as_bytes().to_vec())
}

fn strings(items: &[(&str, &str)]) -> Vec<(String, String)> {
    items.iter().map(|(k, v)| (k.to_string(), v.to_string())).collect()
}

#[test]
fn keys_are_ordered_byte_by_byte() {
    assert!(key_le(b"", b""));
    assert!(key_le(b"", b"a"));
    assert!(!key_le(b"a", b""));
    assert!(key_le(b"a", b"a"));
    assert!(key_le(b"a", b"ab"));
    assert!(!key_le(b"ab", b"a"));
    assert!(key_le(b"ab", b"b"));
    assert!(key_le(b"B", b"a"));
    assert!(!key_le(b"a", b"B"));
    assert!(key_le(&[0x7f], &[0x80]));
    assert!(!key_le(&[0xff], &[0x00, 0xff]));
}

#[test]
fn insertion_keeps_the_list_ordered_and_stable() {
    let mut sorted = vec![pair("a", "1"), pair("c", "1")];
    insert_sorted(&mut sorted, b"b".to_vec(), b"1".to_vec());
    assert_eq!(sorted, vec![pair("a", "1"), pair("b", "1"), pair("c", "1")]);
    insert_sorted(&mut sorted, b"b".to_vec(), b"0".to_vec());
    assert_eq!(sorted, vec![pair("a", "1"), pair("b", "1"), pair("b", "0"), pair("c", "1")]);
    insert_sorted(&mut sorted, b"".to_vec(), b"x".to_vec());
    assert_eq!(sorted[0], pair("", "x"));
    insert_sorted(&mut sorted, b"d".to_vec(), b"x".to_vec());
    assert_eq!(sorted[5], pair("d", "x"));
    let mut empty = Vec::new();
    insert_sorted(&mut empty, b"k".to_vec(), b"v".to_vec());
    assert_eq!(empty, vec![pair("k", "v")]);
}

#[test]
fn parameters_are_encoded_before_they_are_ordered() {
    let mut sorted = Vec::new();
    insert_encoded(&mut sorted, &strings(&[("b c", "x y"), ("a", "1&2")]));
    assert_eq!(sorted, vec![pair("a", "1%262"), pair("b%20c", "x%20y")]);
}

#[test]
fn joining_renders_each_parameter() {
    let pairs = vec![pair("a", "1"), pair("b", "2")];
    assert_eq!(join_pairs(&pairs, b"&", false), b"a=1&b=2".to_vec());
    assert_eq!(join_pairs(&pairs, b",", true), b"a=\"1\",b=\"2\"".to_vec());
    assert_eq!(join_pairs(&pairs, b", ", true), b"a=\"1\", b=\"2\"".to_vec());
    assert_eq!(join_pairs(&pairs[..1].to_vec(), b"&", false), b"a=1".to_vec());
    assert_eq!(join_pairs(&Vec::new(), b"&", false), Vec::<u8>::new());
}

#[test]
fn parameter_string_of_two_lists() {
    let oauth = strings(&[("test", "data"), ("is", "fun")]);
    assert_eq!(parameter_string(&oauth, &Vec::new(), b"&", false), b"is=fun&test=data".to_vec());
    assert_eq!(
        parameter_string(&oauth, &Vec::new(), b",", true),
        b"is=\"fun\",test=\"data\"".to_vec()
    );
    let request = strings(&[("test", "first"), ("a b", "c/d")]);
    assert_eq!(
        parameter_string(&oauth, &request, b"&", false),
        b"a%20b=c%2Fd&is=fun&test=first&test=data".to_vec()
    );
}
