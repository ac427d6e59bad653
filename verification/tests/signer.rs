use twitter_client::credentials::Credentials;
use twitter_client::error::TwitterError;
use twitter_client::signer::{
    authorization_header, build_authorization, nonce, oauth_parameters, oauth_signature,
    signature_base_string, signing_key, strip_query, timestamp,
};

fn credentials(key: &str, secret: &str, token: &str, token_secret: &str) -> Credentials {
    Credentials {
        api_key: key.to_string(),
        api_key_secret: secret.to_string(),
        access_token: token.to_string(),
        access_token_secret: token_secret.to_string(),
    }
}

fn pairs(items: &[(&str, &str)]) -> Vec<(String, String)> {
    items.iter().map(|(k, v)| (k.to_string(), v.to_string())).collect()
}

fn status_update() -> (Credentials, Vec<(String, String)>) {
    (
        credentials(
            "xvz1evFS4wEEPTGEFPHBog",
            "kAcSOqF21Fu85e7zjz7ZN2U4ZRhfV3WpwPAoE3Z7kBw",
            "370773112-GmHxMAgYyLbNEtIKZeRNFsMKPR9EyMZeS9weJAEb",
            "LswwdoUaIvS8ltyTt5jkRh4J50vUPVVHtR2YPi5kE",
        ),
        pairs(&[
            ("include_entities", "true"),
            ("status", "Hello Ladies + Gentlemen, a signed OAuth request!"),
        ]),
    )
}

#[test]
fn known_vector_status_update_base_string() {
    let (c, request) = status_update();
    let oauth = oauth_parameters(&c, "kYjzVBB8Y0ZFabxSWbWovY3uYSQ2pTgmZeNu2VS4cg", "1318622958");
    let base = signature_base_string(
        "POST",
        "https://api.twitter.com/1.1/statuses/update.json",
        &oauth,
        &request,
    );
    assert_eq!(
        String::from_utf8(base).unwrap(),
        "POST&https%3A%2F%2Fapi.twitter.com%2F1.1%2Fstatuses%2Fupdate.json&include_entities%3Dtrue%26oauth_consumer_key%3Dxvz1evFS4wEEPTGEFPHBog%26oauth_nonce%3DkYjzVBB8Y0ZFabxSWbWovY3uYSQ2pTgmZeNu2VS4cg%26oauth_signature_method%3DHMAC-SHA1%26oauth_timestamp%3D1318622958%26oauth_token%3D370773112-GmHxMAgYyLbNEtIKZeRNFsMKPR9EyMZeS9weJAEb%26oauth_version%3D1.0%26status%3DHello%2520Ladies%2520%252B%2520Gentlemen%252C%2520a%2520signed%2520OAuth%2520request%2521"
    );
}

#[test]
fn known_vector_status_update_signature() {
    let (c, request) = status_update();
    let oauth = oauth_parameters(&c, "kYjzVBB8Y0ZFabxSWbWovY3uYSQ2pTgmZeNu2VS4cg", "1318622958");
    let base = signature_base_string(
        "POST",
        "https://api.twitter.com/1.1/statuses/update.json",
        &oauth,
        &request,
    );
    let key = signing_key(&c);
    assert_eq!(
        String::from_utf8(key.clone()).unwrap(),
        "kAcSOqF21Fu85e7zjz7ZN2U4ZRhfV3WpwPAoE3Z7kBw&LswwdoUaIvS8ltyTt5jkRh4J50vUPVVHtR2YPi5kE"
    );
    assert_eq!(oauth_signature(&key, &base), "hCtSmYh+iHYCEqBWrE7C7hYmtUk=");
}

#[test]
fn known_vector_photos_signature() {
    let c = credentials("dpf43f3p2l4k3l03", "kd94hf93k423kf44", "nnch734d00sl2jdk", "pfkkdhi9sl3r4s00");
    let request = pairs(&[("file", "vacation.jpg"), ("size", "original")]);
    let oauth = oauth_parameters(&c, "kllo9940pd9333jh", "1191242096");
    let base = signature_base_string("GET", "http://photos.example.net/photos", &oauth, &request);
    assert_eq!(
        String::from_utf8(base.clone()).unwrap(),
        "GET&http%3A%2F%2Fphotos.example.net%2Fphotos&file%3Dvacation.jpg%26oauth_consumer_key%3Ddpf43f3p2l4k3l03%26oauth_nonce%3Dkllo9940pd9333jh%26oauth_signature_method%3DHMAC-SHA1%26oauth_timestamp%3D1191242096%26oauth_token%3Dnnch734d00sl2jdk%26oauth_version%3D1.0%26size%3Doriginal"
    );
    assert_eq!(oauth_signature(&signing_key(&c), &base), "tR3+Ty81lMeYAr/Fid0kMTYa/WM=");
}

#[test]
fn delete_request_header_fixture() {
    let c = credentials("consumer-key", "consumer-secret", "access-token", "token-secret");
    let header = build_authorization(
        &c,
        "DELETE",
        "https://api.example.com/2/tweets/12345",
        &Vec::new(),
        "abcdef0123456789",
        "1700000000",
    );
    assert_eq!(
        header,
        "OAuth oauth_consumer_key=\"consumer-key\",oauth_nonce=\"abcdef0123456789\",oauth_signature=\"fe3YrKs9LoIaZwZvAzZmoGqxasQ%3D\",oauth_signature_method=\"HMAC-SHA1\",oauth_timestamp=\"1700000000\",oauth_token=\"access-token\",oauth_version=\"1.0\""
    );
}

#[test]
fn build_authorization_is_deterministic() {
    let (c, request) = status_update();
    let url = "https://api.twitter.com/1.1/statuses/update.json";
    let first = build_authorization(&c, "POST", url, &request, "nonce", "1318622958");
    let second = build_authorization(&c, "POST", url, &request, "nonce", "1318622958");
    assert_eq!(first, second);
    let other = build_authorization(&c, "POST", url, &request, "nonce2", "1318622958");
    assert_ne!(first, other);
}

#[test]
fn base_string_ignores_insertion_order() {
    let c = credentials("k", "s", "t", "ts");
    let oauth = oauth_parameters(&c, "n", "1");
    let one = signature_base_string("GET", "https://e.com/x", &oauth, &pairs(&[("b", "2"), ("a", "1")]));
    let two = signature_base_string("GET", "https://e.com/x", &oauth, &pairs(&[("a", "1"), ("b", "2")]));
    assert_eq!(one, two);
    assert_eq!(
        String::from_utf8(one).unwrap(),
        "GET&https%3A%2F%2Fe.com%2Fx&a%3D1%26b%3D2%26oauth_consumer_key%3Dk%26oauth_nonce%3Dn%26oauth_signature_method%3DHMAC-SHA1%26oauth_timestamp%3D1%26oauth_token%3Dt%26oauth_version%3D1.0"
    );
}

#[test]
fn equal_keys_keep_their_order() {
    let c = credentials("k", "s", "t", "ts");
    let oauth = oauth_parameters(&c, "n", "1");
    let one = signature_base_string("GET", "https://e.com/x", &oauth, &pairs(&[("a", "2"), ("a", "1")]));
    let text = String::from_utf8(one).unwrap();
    assert!(text.starts_with("GET&https%3A%2F%2Fe.com%2Fx&a%3D2%26a%3D1%26oauth_consumer_key"));
}

#[test]
fn method_is_upper_cased_and_query_dropped() {
    let c = credentials("k", "s", "t", "ts");
    let oauth = oauth_parameters(&c, "n", "1");
    let lower = signature_base_string("delete", "https://e.com/x?y=1&z=2", &oauth, &Vec::new());
    let upper = signature_base_string("DELETE", "https://e.com/x", &oauth, &Vec::new());
    assert_eq!(lower, upper);
    assert_eq!(strip_query(b"https://e.com/x?y=1?z"), b"https://e.com/x");
    assert_eq!(strip_query(b"?"), b"");
    assert_eq!(strip_query(b"abc"), b"abc");
}

#[test]
fn header_encodes_the_signature() {
    let c = credentials("k", "s", "t", "ts");
    let oauth = oauth_parameters(&c, "n", "1");
    let header = authorization_header(&oauth, "a+b/c=");
    assert_eq!(
        header,
        "OAuth oauth_consumer_key=\"k\",oauth_nonce=\"n\",oauth_signature=\"a%2Bb%2Fc%3D\",oauth_signature_method=\"HMAC-SHA1\",oauth_timestamp=\"1\",oauth_token=\"t\",oauth_version=\"1.0\""
    );
}

#[test]
fn signing_key_encodes_both_secrets() {
    let c = credentials("k", "a&b", "t", "c d");
    assert_eq!(String::from_utf8(signing_key(&c)).unwrap(), "a%26b&c%20d");
}

#[test]
fn order_goes_by_the_encoded_key() {
    let c = credentials("k", "s", "t", "ts");
    let oauth = oauth_parameters(&c, "n", "1");
    let base = signature_base_string(
        "GET",
        "https://e.com/x",
        &oauth,
        &pairs(&[("a~", "1"), ("a\u{7f}", "2")]),
    );
    assert_eq!(
        String::from_utf8(base).unwrap(),
        "GET&https%3A%2F%2Fe.com%2Fx&a%257F%3D2%26a~%3D1%26oauth_consumer_key%3Dk%26oauth_nonce%3Dn%26oauth_signature_method%3DHMAC-SHA1%26oauth_timestamp%3D1%26oauth_token%3Dt%26oauth_version%3D1.0"
    );
}

#[test]
fn oauth_parameters_are_the_six_fields() {
    let c = credentials("k", "s", "t", "ts");
    assert_eq!(
        oauth_parameters(&c, "n", "1"),
        pairs(&[
            ("oauth_consumer_key", "k"),
            ("oauth_nonce", "n"),
            ("oauth_signature_method", "HMAC-SHA1"),
            ("oauth_timestamp", "1"),
            ("oauth_token", "t"),
            ("oauth_version", "1.0"),
        ])
    );
}

#[test]
fn nonce_is_upper_case_hex() {
    assert_eq!(nonce(&[0x00, 0x0f, 0xa5, 0xff]), "000FA5FF");
    assert_eq!(nonce(&[]), "");
    assert_ne!(nonce(&[1, 2]), nonce(&[2, 1]));
}

#[test]
fn timestamp_is_decimal_seconds() {
    assert_eq!(timestamp(Some(1318622958)), Ok("1318622958".to_string()));
    assert_eq!(timestamp(Some(0)), Ok("0".to_string()));
    assert_eq!(timestamp(Some(u64::MAX)), Ok("18446744073709551615".to_string()));
}

#[test]
fn timestamp_without_a_clock_is_an_error() {
    assert_eq!(timestamp(None), Err(TwitterError::ClockUnavailable));
}
