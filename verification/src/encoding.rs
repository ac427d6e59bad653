//! Percent-encoding of byte strings with the RFC 3986 unreserved set.
//!
//! Every byte outside the unreserved set becomes `%` followed by two
//! uppercase hexadecimal digits. Decoding is strict: a `%` that is not
//! followed by two hexadecimal digits makes the whole input invalid.

use vstd::prelude::*;
use crate::text::{all_ascii, upper_hex};

verus! {

/// The bytes that percent-encoding leaves as they are: ASCII letters,
/// digits, `-`, `.`, `_` and `~`.
pub open spec fn is_unreserved(b: u8) -> bool {
    ||| 0x41 <= b <= 0x5a
    ||| 0x61 <= b <= 0x7a
    ||| 0x30 <= b <= 0x39
    ||| b == 0x2d
    ||| b == 0x2e
    ||| b == 0x5f
    ||| b == 0x7e
}

/// Whether a byte is a hexadecimal digit, of either case.
pub open spec fn is_hex_digit(b: u8) -> bool {
    ||| 0x30 <= b <= 0x39
    ||| 0x41 <= b <= 0x46
    ||| 0x61 <= b <= 0x66
}

/// The value of a hexadecimal digit, of either case.
pub open spec fn hex_value(b: u8) -> int {
    if 0x30 <= b <= 0x39 {
        b - 0x30
    } else if 0x41 <= b <= 0x46 {
        b - 0x41 + 10
    } else {
        b - 0x61 + 10
    }
}

/// What one byte becomes under percent-encoding.
pub open spec fn encoded_byte(b: u8) -> Seq<u8> {
    if is_unreserved(b) {
        seq![b]
    } else {
        seq![0x25u8, upper_hex(b as int / 16), upper_hex(b as int % 16)]
    }
}

/// The percent-encoding of a byte string: the encodings of its bytes, in order.
pub open spec fn percent_encoded(s: Seq<u8>) -> Seq<u8>
    decreases s.len(),
{
    if s.len() == 0 {
        Seq::<u8>::empty()
    } else {
        encoded_byte(s[0]) + percent_encoded(s.skip(1))
    }
}

/// The byte string that a percent-encoded text stands for, or `None` where a
/// `%` is not followed by two hexadecimal digits.
pub open spec fn percent_decoded(s: Seq<u8>) -> Option<Seq<u8>>
    decreases s.len(),
{
    if s.len() == 0 {
        Some(Seq::<u8>::empty())
    } else if s[0] == 0x25 {
        if s.len() >= 3 && is_hex_digit(s[1]) && is_hex_digit(s[2]) {
            match percent_decoded(s.skip(3)) {
                Some(rest) => Some(seq![(hex_value(s[1]) * 16 + hex_value(s[2])) as u8] + rest),
                None => None,
            }
        } else {
            None
        }
    } else {
        match percent_decoded(s.skip(1)) {
            Some(rest) => Some(seq![s[0]] + rest),
            None => None,
        }
    }
}

/// Tells whether a byte is left as it is by percent-encoding.
pub fn unreserved(b: u8) -> (r: bool)
    ensures
        r == is_unreserved(b),
{
    (0x41 <= b && b <= 0x5a) || (0x61 <= b && b <= 0x7a) || (0x30 <= b && b <= 0x39) || b == 0x2d
        || b == 0x2e || b == 0x5f || b == 0x7e
}

/// Calls `urlencoding::encode_binary`, which copies alphanumerics and
/// `-`, `_`, `.`, `~` and writes every other byte as `%` and two uppercase
/// hexadecimal digits.
#[verifier::external_body]
fn encode_binary(data: &[u8]) -> (out: Vec<u8>)
    ensures
        out@ == percent_encoded(data@),
{
    urlencoding::encode_binary(data).into_owned().into_bytes()
}

/// Percent-encodes a byte string.
pub fn percent_encode(data: &[u8]) -> (out: Vec<u8>)
    ensures
        out@ == percent_encoded(data@),
        all_ascii(out@),
{
    proof {
        lemma_encoded_is_ascii(data@);
    }
    encode_binary(data)
}

/// Reads one hexadecimal digit.
fn hex_digit_value(b: u8) -> (r: Option<u8>)
    ensures
        r is Some <==> is_hex_digit(b),
        r matches Some(v) ==> v == hex_value(b) && v < 16,
{
    if 0x30 <= b && b <= 0x39 {
        Some(b - 0x30)
    } else if 0x41 <= b && b <= 0x46 {
        Some(b - 0x41 + 10)
    } else if 0x61 <= b && b <= 0x66 {
        Some(b - 0x61 + 10)
    } else {
        None
    }
}

/// Decodes a percent-encoded text. Returns `None` exactly when some `%` is
/// not followed by two hexadecimal digits.
pub fn percent_decode(data: &[u8]) -> (out: Option<Vec<u8>>)
    ensures
        out is Some <==> percent_decoded(data@) is Some,
        out matches Some(v) ==> percent_decoded(data@) == Some(v@),
{
    let mut decoded: Vec<u8> = Vec::new();
    let mut i: usize = 0;
    assert(data@.skip(0) =~= data@);
    while i < data.len()
        invariant
            i <= data.len(),
            percent_decoded(data@) == (match percent_decoded(data@.skip(i as int)) {
                Some(rest) => Some(decoded@ + rest),
                None => None,
            }),
        decreases data.len() - i,
    {
        let ghost tail = data@.skip(i as int);
        let b: u8 = data[i];
        assert(tail[0] == b);
        if b == 0x25 {
            if data.len() - i < 3 {
                return None;
            }
            assert(tail[1] == data@[i + 1] && tail[2] == data@[i + 2]);
            let high = hex_digit_value(data[i + 1]);
            let low = hex_digit_value(data[i + 2]);
            match (high, low) {
                (Some(h), Some(l)) => {
                    let value: u8 = h * 16 + l;
                    assert(tail.skip(3) =~= data@.skip(i + 3));
                    proof {
                        if let Some(rest) = percent_decoded(tail.skip(3)) {
                            assert(decoded@ + (seq![value] + rest) =~= decoded@.push(value) + rest);
                        }
                    }
                    decoded.push(value);
                    i = i + 3;
                },
                _ => {
                    return None;
                },
            }
        } else {
            assert(tail.skip(1) =~= data@.skip(i + 1));
            proof {
                if let Some(rest) = percent_decoded(tail.skip(1)) {
                    assert(decoded@ + (seq![b] + rest) =~= decoded@.push(b) + rest);
                }
            }
            decoded.push(b);
            i = i + 1;
        }
    }
    assert(data@.skip(i as int) =~= Seq::<u8>::empty());
    assert(decoded@ + Seq::<u8>::empty() =~= decoded@);
    Some(decoded)
}

/// The encoding of one byte is one to three ASCII bytes, and it starts with
/// `%` exactly when the byte is not unreserved.
pub proof fn lemma_encoded_byte_shape(b: u8)
    ensures
        all_ascii(encoded_byte(b)),
        is_unreserved(b) ==> encoded_byte(b).len() == 1 && encoded_byte(b)[0] == b,
        !is_unreserved(b) ==> encoded_byte(b).len() == 3 && encoded_byte(b)[0] == 0x25
            && is_hex_digit(encoded_byte(b)[1]) && is_hex_digit(encoded_byte(b)[2]) && hex_value(
            encoded_byte(b)[1],
        ) * 16 + hex_value(encoded_byte(b)[2]) == b,
{
    let h = b as int / 16;
    let l = b as int % 16;
    assert(0 <= h < 16 && 0 <= l < 16 && h * 16 + l == b);
}

/// Percent-encoding yields ASCII bytes only.
pub proof fn lemma_encoded_is_ascii(s: Seq<u8>)
    ensures
        all_ascii(percent_encoded(s)),
    decreases s.len(),
{
    if s.len() > 0 {
        lemma_encoded_byte_shape(s[0]);
        lemma_encoded_is_ascii(s.skip(1));
    }
}

/// Decoding the encoding of any byte string gives that byte string back.
pub proof fn lemma_decode_encode(s: Seq<u8>)
    ensures
        percent_decoded(percent_encoded(s)) == Some(s),
    decreases s.len(),
{
    if s.len() > 0 {
        let b = s[0];
        let head = encoded_byte(b);
        let tail = percent_encoded(s.skip(1));
        let e = percent_encoded(s);
        lemma_decode_encode(s.skip(1));
        lemma_encoded_byte_shape(b);
        assert(e == head + tail);
        if is_unreserved(b) {
            assert(e[0] == b);
            assert(e.skip(1) =~= tail);
            assert(seq![b] + s.skip(1) =~= s);
        } else {
            assert(e[0] == 0x25 && e[1] == head[1] && e[2] == head[2]);
            assert(e.skip(3) =~= tail);
            assert(seq![b] + s.skip(1) =~= s);
        }
    }
}

/// Two byte strings with the same encoding are the same byte string.
pub proof fn lemma_encoding_injective(a: Seq<u8>, b: Seq<u8>)
    requires
        percent_encoded(a) == percent_encoded(b),
    ensures
        a == b,
{
    lemma_decode_encode(a);
    lemma_decode_encode(b);
}

} // verus!
