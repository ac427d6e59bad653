//! Byte strings as text: ASCII checks, conversion to `String`, decimal and
//! hexadecimal numerals, and ASCII upper case.

use vstd::prelude::*;
use vstd::string::*;
use vstd::utf8::*;

verus! {

/// Whether every byte of a byte string is below 128.
pub open spec fn all_ascii(s: Seq<u8>) -> bool {
    forall|i: int| 0 <= i < s.len() ==> s[i] < 128
}

/// The text whose code points are the bytes of an ASCII byte string.
pub open spec fn ascii_chars(b: Seq<u8>) -> Seq<char> {
    Seq::new(b.len(), |i: int| b[i] as char)
}

/// The decimal digits of a natural number, most significant first, without
/// leading zeros.
pub open spec fn decimal_digits(n: nat) -> Seq<u8>
    decreases n,
{
    if n < 10 {
        seq![(0x30 + n) as u8]
    } else {
        decimal_digits(n / 10).push((0x30 + n % 10) as u8)
    }
}

/// The decimal numeral of an integer, with a leading `-` where it is negative.
pub open spec fn decimal_text(n: int) -> Seq<u8> {
    if n < 0 {
        seq![0x2du8] + decimal_digits((-n) as nat)
    } else {
        decimal_digits(n as nat)
    }
}

/// The upper-case form of one ASCII letter; any other byte stays.
pub open spec fn upper_byte(b: u8) -> u8 {
    if 0x61 <= b <= 0x7a {
        (b - 0x20) as u8
    } else {
        b
    }
}

/// A byte string with its ASCII lower-case letters turned to upper case.
pub open spec fn uppercased(s: Seq<u8>) -> Seq<u8> {
    Seq::new(s.len(), |i: int| upper_byte(s[i]))
}

/// The upper-case hexadecimal digit for a value below 16.
pub open spec fn upper_hex(n: int) -> u8 {
    if n < 10 {
        (0x30 + n) as u8
    } else {
        (0x41 + n - 10) as u8
    }
}

/// Two upper-case hexadecimal digits for every byte, in order.
pub open spec fn hex_text(s: Seq<u8>) -> Seq<u8> {
    Seq::new(2 * s.len(), |i: int| if i % 2 == 0 {
        upper_hex(s[i / 2] as int / 16)
    } else {
        upper_hex(s[i / 2] as int % 16)
    })
}

/// Calls `String::from_utf8`, which succeeds exactly on valid UTF-8 and then
/// keeps the bytes as the string's contents.
#[verifier::external_body]
fn string_from_utf8(bytes: Vec<u8>) -> (out: Option<String>)
    ensures
        out is Some <==> valid_utf8(bytes@),
        out matches Some(s) ==> encode_utf8(s@) == bytes@,
{
    String::from_utf8(bytes).ok()
}

/// A byte string of ASCII bytes is valid UTF-8, and decodes to the same
/// code points.
pub proof fn lemma_ascii_is_utf8(b: Seq<u8>)
    requires
        all_ascii(b),
    ensures
        valid_utf8(b),
        decode_utf8(b) == ascii_chars(b),
        encode_utf8(ascii_chars(b)) == b,
{
    let chars = ascii_chars(b);
    assert(is_ascii_chars(chars));
    is_ascii_chars_encode_utf8(chars);
    assert(encode_utf8(chars) =~= b);
    encode_utf8_valid_utf8(chars);
    encode_utf8_decode_utf8(chars);
}

/// Turns bytes into a `String`. Returns `None` exactly when the bytes are
/// not valid UTF-8.
pub fn text_from_utf8(bytes: Vec<u8>) -> (out: Option<String>)
    ensures
        out is Some <==> valid_utf8(bytes@),
        out matches Some(s) ==> encode_utf8(s@) == bytes@ && s@ == decode_utf8(bytes@),
{
    let out = string_from_utf8(bytes);
    proof {
        if let Some(s) = &out {
            encode_utf8_decode_utf8(s@);
        }
    }
    out
}

/// Turns ASCII bytes into the `String` with the same code points.
pub fn ascii_string(bytes: Vec<u8>) -> (out: String)
    requires
        all_ascii(bytes@),
    ensures
        encode_utf8(out@) == bytes@,
        out@ == ascii_chars(bytes@),
{
    proof {
        lemma_ascii_is_utf8(bytes@);
    }
    match text_from_utf8(bytes) {
        Some(s) => s,
        None => String::new(),
    }
}

/// Appends the decimal digits of `n` to `out`.
pub fn push_decimal(n: u64, out: &mut Vec<u8>)
    ensures
        final(out)@ == old(out)@ + decimal_digits(n as nat),
    decreases n,
{
    if n >= 10 {
        push_decimal(n / 10, out);
    }
    let digit: u8 = 0x30 + (n % 10) as u8;
    out.push(digit);
    proof {
        if n < 10 {
            assert(old(out)@.push(digit) =~= old(out)@ + decimal_digits(n as nat));
        } else {
            assert((old(out)@ + decimal_digits((n / 10) as nat)).push(digit) =~= old(out)@
                + decimal_digits(n as nat));
        }
    }
}

/// The decimal numeral of an unsigned number, as a `String`.
pub fn unsigned_string(n: u64) -> (out: String)
    ensures
        out@ == ascii_chars(decimal_digits(n as nat)),
        encode_utf8(out@) == decimal_digits(n as nat),
{
    let mut bytes: Vec<u8> = Vec::new();
    push_decimal(n, &mut bytes);
    assert(bytes@ =~= decimal_digits(n as nat));
    proof {
        lemma_decimal_is_ascii(n as nat);
    }
    ascii_string(bytes)
}

/// The decimal numeral of a signed count, as a `String`.
pub fn decimal_string(n: i32) -> (out: String)
    ensures
        out@ == ascii_chars(decimal_text(n as int)),
        encode_utf8(out@) == decimal_text(n as int),
{
    ascii_string(decimal_bytes(n))
}

/// The decimal numeral of a signed count.
pub fn decimal_bytes(n: i32) -> (out: Vec<u8>)
    ensures
        out@ == decimal_text(n as int),
        all_ascii(out@),
{
    let mut out: Vec<u8> = Vec::new();
    if n < 0 {
        out.push(0x2d);
        let magnitude: u64 = (-(n as i64)) as u64;
        push_decimal(magnitude, &mut out);
    } else {
        push_decimal(n as u64, &mut out);
        assert(out@ =~= decimal_digits(n as nat));
    }
    proof {
        lemma_decimal_is_ascii(if n < 0 {
            (-n) as nat
        } else {
            n as nat
        });
    }
    out
}

/// Decimal digits are ASCII digits, and there is at least one.
pub proof fn lemma_decimal_is_ascii(n: nat)
    ensures
        decimal_digits(n).len() >= 1,
        forall|i: int| 0 <= i < decimal_digits(n).len() ==> 0x30 <= #[trigger] decimal_digits(n)[i] <= 0x39,
    decreases n,
{
    if n >= 10 {
        lemma_decimal_is_ascii(n / 10);
    }
}

/// Tells whether two byte strings are the same.
pub fn same_bytes(a: &[u8], b: &[u8]) -> (r: bool)
    ensures
        r == (a@ == b@),
{
    if a.len() != b.len() {
        return false;
    }
    let mut i: usize = 0;
    while i < a.len()
        invariant
            i <= a.len(),
            a.len() == b.len(),
            forall|j: int| 0 <= j < i ==> a@[j] == b@[j],
        decreases a.len() - i,
    {
        if a[i] != b[i] {
            return false;
        }
        i = i + 1;
    }
    assert(a@ =~= b@);
    true
}

/// Tells whether two texts are the same, code point by code point.
pub fn same_text(a: &str, b: &str) -> (r: bool)
    ensures
        r == (a@ == b@),
{
    proof {
        encode_utf8_decode_utf8(a@);
        encode_utf8_decode_utf8(b@);
    }
    same_bytes(a.as_bytes(), b.as_bytes())
}

/// Turns the ASCII lower-case letters of a byte string to upper case.
pub fn to_upper(s: &[u8]) -> (out: Vec<u8>)
    ensures
        out@ == uppercased(s@),
{
    let mut out: Vec<u8> = Vec::new();
    let mut i: usize = 0;
    while i < s.len()
        invariant
            i <= s.len(),
            out@.len() == i,
            forall|j: int| 0 <= j < i ==> out@[j] == upper_byte(s@[j]),
        decreases s.len() - i,
    {
        let b: u8 = s[i];
        if 0x61 <= b && b <= 0x7a {
            out.push(b - 0x20);
        } else {
            out.push(b);
        }
        i = i + 1;
    }
    assert(out@ =~= uppercased(s@));
    out
}

/// One upper-case hexadecimal digit.
fn upper_hex_digit(n: u8) -> (d: u8)
    requires
        n < 16,
    ensures
        d == upper_hex(n as int),
        d < 128,
{
    if n < 10 {
        0x30 + n
    } else {
        0x41 + (n - 10)
    }
}

/// Writes every byte as two upper-case hexadecimal digits.
pub fn hex_encode(s: &[u8]) -> (out: Vec<u8>)
    ensures
        out@ == hex_text(s@),
        all_ascii(out@),
{
    let mut out: Vec<u8> = Vec::new();
    let mut i: usize = 0;
    while i < s.len()
        invariant
            i <= s.len(),
            out@.len() == 2 * i,
            all_ascii(out@),
            forall|j: int| 0 <= j < 2 * i ==> out@[j] == hex_text(s@)[j],
        decreases s.len() - i,
    {
        let b: u8 = s[i];
        out.push(upper_hex_digit(b / 16));
        out.push(upper_hex_digit(b % 16));
        i = i + 1;
    }
    assert(out@ =~= hex_text(s@));
    out
}

/// Two byte strings with the same hexadecimal text are the same.
pub proof fn lemma_hex_text_injective(a: Seq<u8>, b: Seq<u8>)
    requires
        hex_text(a) == hex_text(b),
    ensures
        a == b,
{
    assert(hex_text(a).len() == 2 * a.len());
    assert(hex_text(b).len() == 2 * b.len());
    assert(a.len() == b.len());
    assert forall|i: int| 0 <= i < a.len() implies a[i] == b[i] by {
        let even = 2 * i;
        let odd = 2 * i + 1;
        assert(even / 2 == i && odd / 2 == i);
        assert(even % 2 == 0 && odd % 2 == 1);
        let x = a[i] as int;
        let y = b[i] as int;
        assert(hex_text(a)[even] == upper_hex(x / 16));
        assert(hex_text(b)[even] == upper_hex(y / 16));
        assert(hex_text(a)[odd] == upper_hex(x % 16));
        assert(hex_text(b)[odd] == upper_hex(y % 16));
        assert(x / 16 == y / 16);
        assert(x % 16 == y % 16);
    }
    assert(a =~= b);
}

} // verus!
