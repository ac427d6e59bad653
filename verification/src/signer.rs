//! The OAuth 1.0a signer: from credentials, method, URL, parameters, nonce
//! and timestamp to the value of the `Authorization` header.
//!
//! Everything here is a function of its arguments. The digest and its
//! base64 text come from outside crates and are named, not spelled out.

use vstd::prelude::*;
use vstd::string::*;
use vstd::utf8::*;
use crate::credentials::Credentials;
use crate::encoding::{percent_encode, percent_encoded, lemma_encoded_is_ascii};
use crate::params::{
    Pair, param_bytes, parameter_text, parameter_string, sorted_by_key, encoded_pairs, joined,
    inserted, inserted_all, rendered,
};
use crate::error::TwitterError;
use crate::sorting::{distinct_keys, lemma_parameter_text_order_independent};
use crate::text::{
    all_ascii, ascii_chars, ascii_string, decimal_digits, hex_encode, hex_text, to_upper,
    unsigned_string, uppercased, lemma_hex_text_injective,
};

verus! {

/// The HMAC-SHA1 digest of a message under a key, as `hmacsha1::hmac_sha1`
/// computes it.
pub uninterp spec fn hmac_sha1_digest(key: Seq<u8>, message: Seq<u8>) -> Seq<u8>;

/// The base64 text of a byte string, as `base64::encode` writes it.
pub uninterp spec fn base64_text(bytes: Seq<u8>) -> Seq<char>;

/// Calls `hmacsha1::hmac_sha1`, which returns the 20 bytes of the HMAC-SHA1
/// digest of the message under the key.
#[verifier::external_body]
fn hmac_sha1(key: &[u8], message: &[u8]) -> (digest: [u8; 20])
    ensures
        digest@ == hmac_sha1_digest(key@, message@),
{
    hmacsha1::hmac_sha1(key, message)
}

/// Calls `base64::encode`, which writes bytes in the standard alphabet with
/// padding.
#[verifier::external_body]
fn base64_encode(bytes: &[u8; 20]) -> (out: String)
    ensures
        out@ == base64_text(bytes@),
{
    base64::encode(bytes)
}

/// The six OAuth parameters of one request.
pub open spec fn oauth_pairs(c: Credentials, nonce: Seq<u8>, timestamp: Seq<u8>) -> Seq<Pair> {
    seq![
        ("oauth_consumer_key".spec_bytes(), encode_utf8(c.api_key@)),
        ("oauth_nonce".spec_bytes(), nonce),
        ("oauth_signature_method".spec_bytes(), "HMAC-SHA1".spec_bytes()),
        ("oauth_timestamp".spec_bytes(), timestamp),
        ("oauth_token".spec_bytes(), encode_utf8(c.access_token@)),
        ("oauth_version".spec_bytes(), "1.0".spec_bytes()),
    ]
}

/// The place of the first `?` in a URL, or its length where it has none.
pub open spec fn query_start(url: Seq<u8>) -> int
    decreases url.len(),
{
    if url.len() == 0 || url[0] == 0x3f {
        0
    } else {
        1 + query_start(url.skip(1))
    }
}

/// A URL without its query: what stands before the first `?`.
pub open spec fn without_query(url: Seq<u8>) -> Seq<u8> {
    url.take(query_start(url))
}

/// The signature base string: the method in upper case, the encoded URL
/// without its query and the encoded canonical parameters, joined by `&`.
pub open spec fn base_string_bytes(
    method: Seq<u8>,
    url: Seq<u8>,
    oauth: Seq<Pair>,
    request: Seq<Pair>,
) -> Seq<u8> {
    uppercased(method) + seq![0x26u8] + percent_encoded(without_query(url)) + seq![0x26u8]
        + percent_encoded(parameter_text(oauth, request, seq![0x26u8], false))
}

/// The signing key: the encoded consumer secret, `&`, the encoded token secret.
pub open spec fn signing_key_bytes(c: Credentials) -> Seq<u8> {
    percent_encoded(encode_utf8(c.api_key_secret@)) + seq![0x26u8] + percent_encoded(
        encode_utf8(c.access_token_secret@),
    )
}

/// The signature of a base string under a signing key: the base64 text of
/// the HMAC-SHA1 digest.
pub open spec fn signature_text(key: Seq<u8>, base: Seq<u8>) -> Seq<char> {
    base64_text(hmac_sha1_digest(key, base))
}

/// The header value for given OAuth parameters and a given signature:
/// `OAuth ` and then the parameters and `oauth_signature`, each as
/// `key="value"`, encoded, ordered by key and joined by commas.
pub open spec fn header_bytes(oauth: Seq<Pair>, signature: Seq<u8>) -> Seq<u8> {
    "OAuth ".spec_bytes() + parameter_text(
        oauth,
        seq![("oauth_signature".spec_bytes(), signature)],
        seq![0x2cu8],
        true,
    )
}

/// The value of the `Authorization` header of one request.
pub open spec fn authorization_bytes(
    c: Credentials,
    method: Seq<u8>,
    url: Seq<u8>,
    request: Seq<Pair>,
    nonce: Seq<u8>,
    timestamp: Seq<u8>,
) -> Seq<u8> {
    let oauth = oauth_pairs(c, nonce, timestamp);
    header_bytes(
        oauth,
        encode_utf8(
            signature_text(signing_key_bytes(c), base_string_bytes(method, url, oauth, request)),
        ),
    )
}

/// Whether every key and value of a list is ASCII.
pub open spec fn pairs_ascii(ps: Seq<Pair>) -> bool {
    forall|i: int| 0 <= i < ps.len() ==> all_ascii(#[trigger] ps[i].0) && all_ascii(ps[i].1)
}

proof fn lemma_inserted_ascii(s: Seq<Pair>, p: Pair)
    requires
        pairs_ascii(s),
        all_ascii(p.0),
        all_ascii(p.1),
    ensures
        pairs_ascii(inserted(s, p)),
    decreases s.len(),
{
    if s.len() > 0 && !crate::params::bytes_le(s.last().0, p.0) {
        assert(pairs_ascii(s.drop_last())) by {
            assert forall|i: int| 0 <= i < s.drop_last().len() implies all_ascii(
                #[trigger] s.drop_last()[i].0,
            ) && all_ascii(s.drop_last()[i].1) by {
                assert(s.drop_last()[i] == s[i]);
            }
        }
        lemma_inserted_ascii(s.drop_last(), p);
        assert(all_ascii(s[s.len() - 1].0));
    }
}

proof fn lemma_inserted_all_ascii(s: Seq<Pair>, ps: Seq<Pair>)
    requires
        pairs_ascii(s),
        pairs_ascii(ps),
    ensures
        pairs_ascii(inserted_all(s, ps)),
    decreases ps.len(),
{
    if ps.len() > 0 {
        assert(pairs_ascii(ps.drop_last())) by {
            assert forall|i: int| 0 <= i < ps.drop_last().len() implies all_ascii(
                #[trigger] ps.drop_last()[i].0,
            ) && all_ascii(ps.drop_last()[i].1) by {
                assert(ps.drop_last()[i] == ps[i]);
            }
        }
        lemma_inserted_all_ascii(s, ps.drop_last());
        assert(all_ascii(ps[ps.len() - 1].0));
        lemma_inserted_ascii(inserted_all(s, ps.drop_last()), ps.last());
    }
}

proof fn lemma_joined_ascii(ps: Seq<Pair>, separator: Seq<u8>, quoted: bool)
    requires
        pairs_ascii(ps),
        all_ascii(separator),
    ensures
        all_ascii(joined(ps, separator, quoted)),
    decreases ps.len(),
{
    if ps.len() > 0 {
        assert(all_ascii(ps[ps.len() - 1].0) && all_ascii(ps[ps.len() - 1].1));
        assert(all_ascii(rendered(ps.last(), quoted)));
        if ps.len() > 1 {
            assert(pairs_ascii(ps.drop_last())) by {
                assert forall|i: int| 0 <= i < ps.drop_last().len() implies all_ascii(
                    #[trigger] ps.drop_last()[i].0,
                ) && all_ascii(ps.drop_last()[i].1) by {
                    assert(ps.drop_last()[i] == ps[i]);
                }
            }
            lemma_joined_ascii(ps.drop_last(), separator, quoted);
        }
    }
}

/// The canonical text of any parameters is ASCII, given an ASCII separator.
pub proof fn lemma_parameter_text_ascii(
    oauth: Seq<Pair>,
    request: Seq<Pair>,
    separator: Seq<u8>,
    quoted: bool,
)
    requires
        all_ascii(separator),
    ensures
        all_ascii(parameter_text(oauth, request, separator, quoted)),
{
    let all = encoded_pairs(request + oauth);
    assert(pairs_ascii(all)) by {
        assert forall|i: int| 0 <= i < all.len() implies all_ascii(#[trigger] all[i].0)
            && all_ascii(all[i].1) by {
            lemma_encoded_is_ascii((request + oauth)[i].0);
            lemma_encoded_is_ascii((request + oauth)[i].1);
        }
    }
    lemma_inserted_all_ascii(Seq::<Pair>::empty(), all);
    lemma_joined_ascii(sorted_by_key(all), separator, quoted);
}

/// The six OAuth parameters of one request.
pub fn oauth_parameters(credentials: &Credentials, nonce: &str, timestamp: &str) -> (out: Vec<
    (String, String),
>)
    ensures
        param_bytes(out@) == oauth_pairs(*credentials, nonce.spec_bytes(), timestamp.spec_bytes()),
{
    let mut out: Vec<(String, String)> = Vec::new();
    out.push(("oauth_consumer_key".to_owned(), credentials.api_key.clone()));
    out.push(("oauth_nonce".to_owned(), nonce.to_owned()));
    out.push(("oauth_signature_method".to_owned(), "HMAC-SHA1".to_owned()));
    out.push(("oauth_timestamp".to_owned(), timestamp.to_owned()));
    out.push(("oauth_token".to_owned(), credentials.access_token.clone()));
    out.push(("oauth_version".to_owned(), "1.0".to_owned()));
    assert(param_bytes(out@) =~= oauth_pairs(
        *credentials,
        nonce.spec_bytes(),
        timestamp.spec_bytes(),
    ));
    out
}

/// Cuts a URL before its first `?`.
pub fn strip_query(url: &[u8]) -> (out: &[u8])
    ensures
        out@ == without_query(url@),
{
    let mut i: usize = 0;
    assert(url@.skip(0) =~= url@);
    while i < url.len() && url[i] != 0x3f
        invariant
            i <= url.len(),
            query_start(url@) == i + query_start(url@.skip(i as int)),
        decreases url.len() - i,
    {
        assert(url@.skip(i as int)[0] == url@[i as int]);
        assert(url@.skip(i as int).skip(1) =~= url@.skip(i + 1));
        i = i + 1;
    }
    proof {
        if i < url.len() {
            assert(url@.skip(i as int)[0] == url@[i as int]);
        }
    }
    let out = vstd::slice::slice_subrange(url, 0, i);
    assert(out@ =~= url@.take(i as int));
    out
}

/// The signing key for given credentials.
pub fn signing_key(credentials: &Credentials) -> (key: Vec<u8>)
    ensures
        key@ == signing_key_bytes(*credentials),
{
    let mut key = percent_encode(credentials.api_key_secret.as_str().as_bytes());
    let token_secret = percent_encode(credentials.access_token_secret.as_str().as_bytes());
    key.push(0x26);
    key.extend_from_slice(token_secret.as_slice());
    assert(key@ =~= signing_key_bytes(*credentials));
    key
}

/// The signature base string of one request.
pub fn signature_base_string(
    method: &str,
    url: &str,
    oauth_params: &Vec<(String, String)>,
    request_params: &Vec<(String, String)>,
) -> (base: Vec<u8>)
    ensures
        base@ == base_string_bytes(
            method.spec_bytes(),
            url.spec_bytes(),
            param_bytes(oauth_params@),
            param_bytes(request_params@),
        ),
{
    let separator: [u8; 1] = [0x26];
    assert(separator@ =~= seq![0x26u8]);
    let mut base = to_upper(method.as_bytes());
    let encoded_url = percent_encode(strip_query(url.as_bytes()));
    let parameters = parameter_string(oauth_params, request_params, separator.as_slice(), false);
    let encoded_parameters = percent_encode(parameters.as_slice());
    base.push(0x26);
    base.extend_from_slice(encoded_url.as_slice());
    base.push(0x26);
    base.extend_from_slice(encoded_parameters.as_slice());
    assert(base@ =~= base_string_bytes(
        method.spec_bytes(),
        url.spec_bytes(),
        param_bytes(oauth_params@),
        param_bytes(request_params@),
    ));
    base
}

/// Signs a base string with a signing key.
pub fn oauth_signature(key: &[u8], base: &[u8]) -> (signature: String)
    ensures
        signature@ == signature_text(key@, base@),
{
    let digest = hmac_sha1(key, base);
    base64_encode(&digest)
}

/// The header value for given OAuth parameters and a given signature.
pub fn authorization_header(oauth_params: &Vec<(String, String)>, signature: &str) -> (header:
    String)
    ensures
        encode_utf8(header@) == header_bytes(param_bytes(oauth_params@), signature.spec_bytes()),
{
    let separator: [u8; 1] = [0x2c];
    assert(separator@ =~= seq![0x2cu8]);
    let mut extra: Vec<(String, String)> = Vec::new();
    extra.push(("oauth_signature".to_owned(), signature.to_owned()));
    assert(param_bytes(extra@) =~= seq![("oauth_signature".spec_bytes(), signature.spec_bytes())]);
    let parameters = parameter_string(oauth_params, &extra, separator.as_slice(), true);
    let mut header: Vec<u8> = Vec::new();
    header.extend_from_slice("OAuth ".as_bytes());
    header.extend_from_slice(parameters.as_slice());
    proof {
        reveal_strlit("OAuth ");
        assert(is_ascii_chars("OAuth "@));
        is_ascii_chars_encode_utf8("OAuth "@);
        assert(all_ascii("OAuth ".spec_bytes()));
        lemma_parameter_text_ascii(
            param_bytes(oauth_params@),
            param_bytes(extra@),
            seq![0x2cu8],
            true,
        );
        assert(header@ =~= header_bytes(param_bytes(oauth_params@), signature.spec_bytes()));
    }
    ascii_string(header)
}

/// The value of the `Authorization` header of one request, for a given
/// nonce and timestamp.
pub fn build_authorization(
    credentials: &Credentials,
    method: &str,
    url: &str,
    request_params: &Vec<(String, String)>,
    nonce: &str,
    timestamp: &str,
) -> (header: String)
    ensures
        encode_utf8(header@) == authorization_bytes(
            *credentials,
            method.spec_bytes(),
            url.spec_bytes(),
            param_bytes(request_params@),
            nonce.spec_bytes(),
            timestamp.spec_bytes(),
        ),
{
    let oauth = oauth_parameters(credentials, nonce, timestamp);
    let base = signature_base_string(method, url, &oauth, request_params);
    let key = signing_key(credentials);
    let signature = oauth_signature(key.as_slice(), base.as_slice());
    authorization_header(&oauth, signature.as_str())
}

/// A nonce from entropy: two upper-case hexadecimal digits for every byte.
/// It is as unlikely to repeat as the entropy is.
pub fn nonce(entropy: &[u8]) -> (out: String)
    ensures
        out@ == ascii_chars(hex_text(entropy@)),
        encode_utf8(out@) == hex_text(entropy@),
{
    ascii_string(hex_encode(entropy))
}

/// The timestamp of a request: the seconds since the Unix epoch in decimal.
/// Without a reading of the clock there is no timestamp and no fallback.
pub fn timestamp(clock: Option<u64>) -> (out: Result<String, TwitterError>)
    ensures
        match clock {
            Some(seconds) => out matches Ok(t) && t@ == ascii_chars(
                decimal_digits(seconds as nat),
            ),
            None => out matches Err(TwitterError::ClockUnavailable),
        },
{
    match clock {
        Some(seconds) => Ok(unsigned_string(seconds)),
        None => Err(TwitterError::ClockUnavailable),
    }
}

/// Different entropy gives different nonces.
pub proof fn lemma_nonce_injective(first: Seq<u8>, second: Seq<u8>)
    requires
        ascii_chars(hex_text(first)) == ascii_chars(hex_text(second)),
    ensures
        first == second,
{
    let a = hex_text(first);
    let b = hex_text(second);
    assert(a.len() == b.len()) by {
        assert(ascii_chars(a).len() == a.len());
        assert(ascii_chars(b).len() == b.len());
    }
    assert forall|i: int| 0 <= i < a.len() implies a[i] == b[i] by {
        assert(ascii_chars(a)[i] == a[i] as char);
        assert(ascii_chars(b)[i] == b[i] as char);
        assert(a[i] as char as u8 == a[i]);
        assert(b[i] as char as u8 == b[i]);
    }
    assert(a =~= b);
    lemma_hex_text_injective(first, second);
}

/// The header is a function of what goes into it: two headers for
/// credentials with the same texts and the same method, URL, parameters,
/// nonce and timestamp are the same text.
pub proof fn lemma_authorization_deterministic(
    first: Credentials,
    second: Credentials,
    method: Seq<u8>,
    url: Seq<u8>,
    request: Seq<Pair>,
    nonce: Seq<u8>,
    timestamp: Seq<u8>,
    first_header: Seq<char>,
    second_header: Seq<char>,
)
    requires
        first.api_key@ == second.api_key@,
        first.api_key_secret@ == second.api_key_secret@,
        first.access_token@ == second.access_token@,
        first.access_token_secret@ == second.access_token_secret@,
        encode_utf8(first_header) == authorization_bytes(
            first,
            method,
            url,
            request,
            nonce,
            timestamp,
        ),
        encode_utf8(second_header) == authorization_bytes(
            second,
            method,
            url,
            request,
            nonce,
            timestamp,
        ),
    ensures
        first_header == second_header,
{
    assert(oauth_pairs(first, nonce, timestamp) =~= oauth_pairs(second, nonce, timestamp));
    assert(signing_key_bytes(first) == signing_key_bytes(second));
    encode_utf8_decode_utf8(first_header);
    encode_utf8_decode_utf8(second_header);
}

/// The signature base string does not depend on the order in which the
/// request's parameters are given, as long as no key occurs twice among the
/// request's and the OAuth parameters.
pub proof fn lemma_base_string_order_independent(
    method: Seq<u8>,
    url: Seq<u8>,
    oauth: Seq<Pair>,
    first: Seq<Pair>,
    second: Seq<Pair>,
)
    requires
        first.to_multiset() == second.to_multiset(),
        distinct_keys(first + oauth),
    ensures
        base_string_bytes(method, url, oauth, first) == base_string_bytes(
            method,
            url,
            oauth,
            second,
        ),
{
    lemma_parameter_text_order_independent(oauth, first, second, seq![0x26u8], false);
}

} // verus!
