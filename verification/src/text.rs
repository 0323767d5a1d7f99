//! Building text: decimal and hexadecimal renderings of numbers and bytes,
//! and checked UTF-8 decoding.

use vstd::prelude::*;
use vstd::utf8::*;

verus! {

/// The ASCII digit for `d` in 0..10.
pub open spec fn digit_char(d: int) -> char {
    ((48 + d) as u8) as char
}

/// Decimal digits of a natural number, most significant first, no leading zeros.
pub open spec fn spec_digits(n: nat) -> Seq<char>
    decreases n,
{
    if n < 10 {
        seq![digit_char(n as int)]
    } else {
        spec_digits(n / 10).push(digit_char((n % 10) as int))
    }
}

/// The decimal rendering of an integer, with a leading `-` when negative.
pub open spec fn spec_decimal(n: int) -> Seq<char> {
    if n < 0 {
        seq!['-'] + spec_digits((-n) as nat)
    } else {
        spec_digits(n as nat)
    }
}

/// Appends one character to a string (`String::push`).
#[verifier::external_body]
pub(crate) fn push_char(s: &mut String, c: char)
    ensures
        final(s)@ == old(s)@.push(c),
{
    s.push(c);
}

fn push_digits(s: &mut String, n: u64)
    ensures
        final(s)@ == old(s)@ + spec_digits(n as nat),
    decreases n,
{
    if n >= 10 {
        push_digits(s, n / 10);
    }
    let d: u8 = (n % 10) as u8;
    let c: char = (48u8 + d) as char;
    push_char(s, c);
    proof {
        assert(c == digit_char((n % 10) as int));
    }
}

/// The decimal rendering of an unsigned integer.
pub fn decimal_u64(n: u64) -> (r: String)
    ensures
        r@ == spec_decimal(n as int),
{
    let mut s = String::new();
    push_digits(&mut s, n);
    s
}

/// The decimal rendering of a signed integer.
pub fn decimal_i64(n: i64) -> (r: String)
    ensures
        r@ == spec_decimal(n as int),
{
    let mut s = String::new();
    if n < 0 {
        push_char(&mut s, '-');
        let magnitude: u64 = if n == i64::MIN {
            0x8000_0000_0000_0000u64
        } else {
            (-n) as u64
        };
        push_digits(&mut s, magnitude);
    } else {
        push_digits(&mut s, n as u64);
    }
    s
}

/// The lower-case hexadecimal digit for `d` in 0..16.
pub open spec fn hex_digit(d: int) -> char {
    if d < 10 {
        digit_char(d)
    } else {
        ((87 + d) as u8) as char
    }
}

/// Lower-case hexadecimal rendering of bytes, two digits per byte, high nibble first.
pub open spec fn spec_hex(bytes: Seq<u8>) -> Seq<char>
    decreases bytes.len(),
{
    if bytes.len() == 0 {
        Seq::empty()
    } else {
        spec_hex(bytes.drop_last()) + seq![
            hex_digit((bytes.last() / 16) as int),
            hex_digit((bytes.last() % 16) as int),
        ]
    }
}

/// `hex::encode`: lower-case hexadecimal, two digits per byte, high nibble first.
#[verifier::external_body]
pub(crate) fn hex_encode(bytes: &[u8]) -> (r: String)
    ensures
        r@ == spec_hex(bytes@),
{
    hex::encode(bytes)
}

/// `b` is well-formed UTF-8 up to index `v` and not beyond: `v` is the
/// longest prefix of `b` that is well-formed.
pub open spec fn utf8_valid_up_to(b: Seq<u8>, v: int) -> bool {
    &&& 0 <= v <= b.len()
    &&& valid_utf8(b.take(v))
    &&& forall|i: int| v < i <= b.len() ==> !valid_utf8(#[trigger] b.take(i))
}

/// There is one longest well-formed prefix.
pub proof fn lemma_valid_up_to_unique(b: Seq<u8>, v: int)
    requires
        utf8_valid_up_to(b, v),
    ensures
        (choose|w: int| utf8_valid_up_to(b, w)) == v,
{
    let w = choose|w: int| utf8_valid_up_to(b, w);
    assert(utf8_valid_up_to(b, w));
    if w < v {
        assert(!valid_utf8(b.take(v)));
    }
    if v < w {
        assert(!valid_utf8(b.take(w)));
    }
}

/// What `Utf8Error::error_len` reports for ill-formed `bytes`: the length
/// of the invalid sequence after the longest well-formed prefix, or `None`
/// when the input ends inside a character.
pub uninterp spec fn utf8_error_len(bytes: Seq<u8>) -> Option<usize>;

/// `String::from_utf8`: the decoded text when `bytes` are well-formed UTF-8;
/// otherwise what its error reports, `Utf8Error::valid_up_to` (the longest
/// well-formed prefix, as its documentation says) and `Utf8Error::error_len`.
#[verifier::external_body]
pub(crate) fn utf8_to_string(bytes: Vec<u8>) -> (r: Result<String, (usize, Option<usize>)>)
    ensures
        r is Ok <==> valid_utf8(bytes@),
        r matches Ok(s) ==> s@ == decode_utf8(bytes@),
        r matches Err((v, l)) ==> utf8_valid_up_to(bytes@, v as int) && l == utf8_error_len(bytes@),
{
    match String::from_utf8(bytes) {
        Ok(s) => Ok(s),
        Err(e) => Err((e.utf8_error().valid_up_to(), e.utf8_error().error_len())),
    }
}

/// Appends `tail` to `s`.
pub fn push_str(s: &mut String, tail: &str)
    ensures
        final(s)@ == old(s)@ + tail@,
{
    s.append(tail);
}

/// An owned copy of a string slice.
pub fn owned(s: &str) -> (r: String)
    ensures
        r@ == s@,
{
    s.to_owned()
}

} // verus!
