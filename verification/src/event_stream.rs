//! The AWS event-stream framing of the service's streaming replies.

use vstd::prelude::*;
use vstd::utf8::*;
use crate::text::{
    spec_decimal, spec_hex, utf8_to_string, decimal_i64, hex_encode, owned, push_str, utf8_valid_up_to,
    utf8_error_len, lemma_valid_up_to_unique,
};

verus! {

/// One step of the reflected CRC-32C (Castagnoli) shift register.
pub open spec fn crc_shift(c: u32) -> u32 {
    if c & 1u32 != 0 {
        (c >> 1u32) ^ 0x82F63B78u32
    } else {
        c >> 1u32
    }
}

/// `k` register steps.
pub open spec fn crc_shifts(c: u32, k: nat) -> u32
    decreases k,
{
    if k == 0 {
        c
    } else {
        crc_shifts(crc_shift(c), (k - 1) as nat)
    }
}

/// The register after absorbing `data`, starting from all ones.
pub open spec fn crc_register(data: Seq<u8>) -> u32
    decreases data.len(),
{
    if data.len() == 0 {
        0xFFFF_FFFFu32
    } else {
        crc_shifts(crc_register(data.drop_last()) ^ (data.last() as u32), 8)
    }
}

/// CRC-32C of `data`: the final register, inverted.
pub open spec fn spec_crc32c(data: Seq<u8>) -> u32 {
    !crc_register(data)
}

/// CRC-32C checksum, as used by the prelude and message checksums of a frame.
pub fn crc32c(data: &[u8]) -> (r: u32)
    ensures
        r == spec_crc32c(data@),
{
    let mut crc: u32 = 0xFFFF_FFFF;
    let mut i: usize = 0;
    while i < data.len()
        invariant
            i <= data.len(),
            crc == crc_register(data@.take(i as int)),
        decreases data.len() - i,
    {
        let byte = data[i];
        crc = crc ^ (byte as u32);
        let ghost start = crc;
        let mut k: u32 = 0;
        while k < 8
            invariant
                k <= 8,
                crc_shifts(start, 8) == crc_shifts(crc, (8 - k) as nat),
            decreases 8 - k,
        {
            if crc & 1 != 0 {
                crc = (crc >> 1) ^ 0x82F63B78;
            } else {
                crc = crc >> 1;
            }
            k = k + 1;
        }
        proof {
            assert(data@.take(i + 1).drop_last() =~= data@.take(i as int));
        }
        i = i + 1;
    }
    proof {
        assert(data@.take(data@.len() as int) =~= data@);
    }
    !crc
}


/// Why a frame or one of its headers could not be decoded.
#[derive(Debug, Clone, Copy, PartialEq, Eq, Structural)]
pub enum EventStreamError {
    /// The total length in the prelude is below the minimum frame length.
    InvalidMessageLength { length: u32 },
    /// The checksum of the prelude does not match its bytes.
    PreludeCrcMismatch { expected: u32, computed: u32 },
    /// The checksum of the whole frame does not match its bytes.
    MessageCrcMismatch { expected: u32, computed: u32 },
    /// The header block ends inside a header.
    UnexpectedEof,
    /// A header name or string value is not UTF-8: it is well-formed up to
    /// `valid_up_to`; `error_len` is the length of the invalid sequence
    /// there, `None` when the bytes end inside a character.
    InvalidUtf8 { valid_up_to: usize, error_len: Option<usize> },
    /// A header value has a type tag outside 0..=9.
    UnknownHeaderType { value_type: u8 },
}

/// Big-endian unsigned value of a byte sequence.
pub open spec fn be_uint(s: Seq<u8>) -> nat
    decreases s.len(),
{
    if s.len() == 0 {
        0
    } else {
        be_uint(s.drop_last()) * 256 + s.last() as nat
    }
}

/// Two's-complement reading of an unsigned value `u` held in `nbytes` bytes.
pub open spec fn twos_complement(u: int, nbytes: nat) -> int {
    let half = vstd::arithmetic::power2::pow2((8 * nbytes - 1) as nat) as int;
    if u >= half {
        u - 2 * half
    } else {
        u
    }
}

proof fn lemma_be_uint_bound(s: Seq<u8>)
    ensures
        be_uint(s) < vstd::arithmetic::power2::pow2((8 * s.len()) as nat),
    decreases s.len(),
{
    vstd::arithmetic::power2::lemma_pow2_pos((8 * s.len()) as nat);
    if s.len() > 0 {
        lemma_be_uint_bound(s.drop_last());
        let k = (8 * (s.len() - 1)) as nat;
        vstd::arithmetic::power2::lemma_pow2_adds(k, 8);
        vstd::arithmetic::power2::lemma2_to64();
        vstd::arithmetic::power2::lemma2_to64_rest();
        let p = vstd::arithmetic::power2::pow2(k) as int;
        let v = be_uint(s.drop_last()) as int;
        assert(v * 256 + s.last() < p * 256) by (nonlinear_arith)
            requires
                v < p,
                s.last() < 256,
        ;
        assert((8 * s.len()) as nat == k + 8);
    }
}

/// A read position in a byte slice.
pub struct Cursor<'a> {
    pub data: &'a [u8],
    pub pos: usize,
}

impl<'a> Cursor<'a> {
    /// The position lies within the data.
    pub open spec fn wf(&self) -> bool {
        self.pos <= self.data@.len()
    }

    /// A cursor at the start of `data`.
    pub fn new(data: &'a [u8]) -> (c: Cursor<'a>)
        ensures
            c.data == data,
            c.pos == 0,
    {
        Cursor { data, pos: 0 }
    }
}

/// Reads exactly `n` bytes, or fails with `UnexpectedEof` and moves to the end.
fn read_exact<'a>(cursor: &mut Cursor<'a>, n: usize) -> (r: Result<&'a [u8], EventStreamError>)
    requires
        old(cursor).wf(),
    ensures
        final(cursor).wf(),
        final(cursor).data == old(cursor).data,
        old(cursor).pos + n <= old(cursor).data@.len() ==> {
            &&& (r matches Ok(b) && b@ == old(cursor).data@.subrange(
                old(cursor).pos as int,
                old(cursor).pos + n,
            ))
            &&& final(cursor).pos == old(cursor).pos + n
        },
        old(cursor).pos + n > old(cursor).data@.len() ==> r == Err::<&[u8], _>(
            EventStreamError::UnexpectedEof,
        ),
{
    let len = cursor.data.len();
    if n <= len - cursor.pos {
        let start = cursor.pos;
        let b = vstd::slice::slice_subrange(cursor.data, start, start + n);
        cursor.pos = start + n;
        Ok(b)
    } else {
        cursor.pos = len;
        Err(EventStreamError::UnexpectedEof)
    }
}

/// Big-endian value of a slice of at most eight bytes.
fn be_value(b: &[u8]) -> (v: u64)
    requires
        b@.len() <= 8,
    ensures
        v == be_uint(b@),
{
    let mut v: u64 = 0;
    let mut i: usize = 0;
    while i < b.len()
        invariant
            i <= b@.len() <= 8,
            v == be_uint(b@.take(i as int)),
        decreases b@.len() - i,
    {
        proof {
            lemma_be_uint_bound(b@.take(i as int));
            vstd::arithmetic::power2::lemma2_to64();
        vstd::arithmetic::power2::lemma2_to64_rest();
            if i < 7 {
                vstd::arithmetic::power2::lemma_pow2_strictly_increases((8 * i) as nat, 56);
            }
            assert(b@.take(i + 1).drop_last() =~= b@.take(i as int));
        }
        assert(v < 0x100_0000_0000_0000);
        v = v * 256 + b[i] as u64;
        i = i + 1;
    }
    proof {
        assert(b@.take(b@.len() as int) =~= b@);
    }
    v
}

/// The spec of the `n`-byte big-endian read at `pos`.
pub open spec fn bytes_at(d: Seq<u8>, pos: int, n: int) -> Seq<u8> {
    d.subrange(pos, pos + n)
}

/// Reads one byte.
pub fn read_u8(cursor: &mut Cursor) -> (r: Result<u8, EventStreamError>)
    requires
        old(cursor).wf(),
    ensures
        final(cursor).wf(),
        final(cursor).data == old(cursor).data,
        old(cursor).pos + 1 <= old(cursor).data@.len() ==> r == Ok::<u8, EventStreamError>(
            old(cursor).data@[old(cursor).pos as int],
        ) && final(cursor).pos == old(cursor).pos + 1,
        old(cursor).pos + 1 > old(cursor).data@.len() ==> r == Err::<u8, _>(
            EventStreamError::UnexpectedEof,
        ),
{
    let b = read_exact(cursor, 1)?;
    Ok(b[0])
}

/// Reads a big-endian unsigned 16-bit integer.
pub fn read_u16(cursor: &mut Cursor) -> (r: Result<u16, EventStreamError>)
    requires
        old(cursor).wf(),
    ensures
        final(cursor).wf(),
        final(cursor).data == old(cursor).data,
        old(cursor).pos + 2 <= old(cursor).data@.len() ==> (r matches Ok(v) && v == be_uint(
            bytes_at(old(cursor).data@, old(cursor).pos as int, 2),
        ) && final(cursor).pos == old(cursor).pos + 2),
        old(cursor).pos + 2 > old(cursor).data@.len() ==> r == Err::<u16, _>(
            EventStreamError::UnexpectedEof,
        ),
{
    let b = read_exact(cursor, 2)?;
    let v = be_value(b);
    proof {
        lemma_be_uint_bound(b@);
        vstd::arithmetic::power2::lemma2_to64();
        vstd::arithmetic::power2::lemma2_to64_rest();
    }
    Ok(v as u16)
}

/// Reads a big-endian two's-complement 16-bit integer.
pub fn read_i16(cursor: &mut Cursor) -> (r: Result<i16, EventStreamError>)
    requires
        old(cursor).wf(),
    ensures
        final(cursor).wf(),
        final(cursor).data == old(cursor).data,
        old(cursor).pos + 2 <= old(cursor).data@.len() ==> (r matches Ok(v) && v == twos_complement(
            be_uint(bytes_at(old(cursor).data@, old(cursor).pos as int, 2)) as int,
            2,
        ) && final(cursor).pos == old(cursor).pos + 2),
        old(cursor).pos + 2 > old(cursor).data@.len() ==> r == Err::<i16, _>(
            EventStreamError::UnexpectedEof,
        ),
{
    let b = read_exact(cursor, 2)?;
    let u = be_value(b);
    proof {
        lemma_be_uint_bound(b@);
        vstd::arithmetic::power2::lemma2_to64();
        vstd::arithmetic::power2::lemma2_to64_rest();
    }
    if u < 0x8000 {
        Ok(u as i16)
    } else {
        Ok(((u - 0x8000) as i16) - 0x7FFF - 1)
    }
}

/// Reads a big-endian two's-complement 32-bit integer.
pub fn read_i32(cursor: &mut Cursor) -> (r: Result<i32, EventStreamError>)
    requires
        old(cursor).wf(),
    ensures
        final(cursor).wf(),
        final(cursor).data == old(cursor).data,
        old(cursor).pos + 4 <= old(cursor).data@.len() ==> (r matches Ok(v) && v == twos_complement(
            be_uint(bytes_at(old(cursor).data@, old(cursor).pos as int, 4)) as int,
            4,
        ) && final(cursor).pos == old(cursor).pos + 4),
        old(cursor).pos + 4 > old(cursor).data@.len() ==> r == Err::<i32, _>(
            EventStreamError::UnexpectedEof,
        ),
{
    let b = read_exact(cursor, 4)?;
    let u = be_value(b);
    proof {
        lemma_be_uint_bound(b@);
        vstd::arithmetic::power2::lemma2_to64();
        vstd::arithmetic::power2::lemma2_to64_rest();
    }
    if u < 0x8000_0000 {
        Ok(u as i32)
    } else {
        Ok(((u - 0x8000_0000) as i32) - 0x7FFF_FFFF - 1)
    }
}

/// Reads a big-endian two's-complement 64-bit integer.
pub fn read_i64(cursor: &mut Cursor) -> (r: Result<i64, EventStreamError>)
    requires
        old(cursor).wf(),
    ensures
        final(cursor).wf(),
        final(cursor).data == old(cursor).data,
        old(cursor).pos + 8 <= old(cursor).data@.len() ==> (r matches Ok(v) && v == twos_complement(
            be_uint(bytes_at(old(cursor).data@, old(cursor).pos as int, 8)) as int,
            8,
        ) && final(cursor).pos == old(cursor).pos + 8),
        old(cursor).pos + 8 > old(cursor).data@.len() ==> r == Err::<i64, _>(
            EventStreamError::UnexpectedEof,
        ),
{
    let b = read_exact(cursor, 8)?;
    let u = be_value(b);
    proof {
        lemma_be_uint_bound(b@);
        vstd::arithmetic::power2::lemma2_to64();
        vstd::arithmetic::power2::lemma2_to64_rest();
    }
    assert(vstd::arithmetic::power2::pow2(63) == 0x8000_0000_0000_0000) by {
        vstd::arithmetic::power2::lemma2_to64();
        vstd::arithmetic::power2::lemma2_to64_rest();
    }
    if u < 0x8000_0000_0000_0000 {
        Ok(u as i64)
    } else {
        Ok(((u - 0x8000_0000_0000_0000) as i64) - 0x7FFF_FFFF_FFFF_FFFF - 1)
    }
}

/// The error that decoding ill-formed `b` as UTF-8 reports.
pub open spec fn spec_utf8_error(b: Seq<u8>) -> EventStreamError {
    EventStreamError::InvalidUtf8 {
        valid_up_to: (choose|v: int| utf8_valid_up_to(b, v)) as usize,
        error_len: utf8_error_len(b),
    }
}

/// Reads `len` bytes and decodes them as UTF-8.
pub fn read_string(cursor: &mut Cursor, len: usize) -> (r: Result<String, EventStreamError>)
    requires
        old(cursor).wf(),
    ensures
        final(cursor).wf(),
        final(cursor).data == old(cursor).data,
        old(cursor).pos + len > old(cursor).data@.len() ==> r == Err::<String, _>(
            EventStreamError::UnexpectedEof,
        ),
        old(cursor).pos + len <= old(cursor).data@.len() ==> {
            let b = bytes_at(old(cursor).data@, old(cursor).pos as int, len as int);
            &&& final(cursor).pos == old(cursor).pos + len
            &&& valid_utf8(b) ==> (r matches Ok(s) && s@ == decode_utf8(b))
            &&& !valid_utf8(b) ==> r == Err::<String, _>(spec_utf8_error(b))
        },
{
    let b = read_exact(cursor, len)?;
    let v = vstd::slice::slice_to_vec(b);
    match utf8_to_string(v) {
        Ok(s) => Ok(s),
        Err((valid_up_to, error_len)) => {
            proof {
                lemma_valid_up_to_unique(b@, valid_up_to as int);
            }
            Err(EventStreamError::InvalidUtf8 { valid_up_to, error_len })
        },
    }
}


/// The text of a UUID header value: five dash-separated groups of
/// lower-case hex digits (8-4-4-4-12).
pub open spec fn uuid_text(b: Seq<u8>) -> Seq<char> {
    spec_hex(b.subrange(0, 4)) + seq!['-'] + spec_hex(b.subrange(4, 6)) + seq!['-'] + spec_hex(
        b.subrange(6, 8),
    ) + seq!['-'] + spec_hex(b.subrange(8, 10)) + seq!['-'] + spec_hex(b.subrange(10, 16))
}

/// Header value type tags.
pub const HEADER_TYPE_BOOL_TRUE: u8 = 0;
pub const HEADER_TYPE_BOOL_FALSE: u8 = 1;
pub const HEADER_TYPE_BYTE: u8 = 2;
pub const HEADER_TYPE_SHORT: u8 = 3;
pub const HEADER_TYPE_INT: u8 = 4;
pub const HEADER_TYPE_LONG: u8 = 5;
pub const HEADER_TYPE_BYTES: u8 = 6;
pub const HEADER_TYPE_STRING: u8 = 7;
pub const HEADER_TYPE_TIMESTAMP: u8 = 8;
pub const HEADER_TYPE_UUID: u8 = 9;

/// The text of a header value of type `tag` whose encoding starts at `p`,
/// and the position just after it.
pub open spec fn spec_header_value(d: Seq<u8>, p: int, tag: u8) -> Result<(Seq<char>, int), EventStreamError> {
    let len = d.len() as int;
    if tag == HEADER_TYPE_BOOL_TRUE {
        Ok(("true"@, p))
    } else if tag == HEADER_TYPE_BOOL_FALSE {
        Ok(("false"@, p))
    } else if tag == HEADER_TYPE_BYTE {
        if p + 1 <= len {
            Ok((spec_decimal(d[p] as int), p + 1))
        } else {
            Err(EventStreamError::UnexpectedEof)
        }
    } else if tag == HEADER_TYPE_SHORT {
        if p + 2 <= len {
            Ok((spec_decimal(twos_complement(be_uint(bytes_at(d, p, 2)) as int, 2)), p + 2))
        } else {
            Err(EventStreamError::UnexpectedEof)
        }
    } else if tag == HEADER_TYPE_INT {
        if p + 4 <= len {
            Ok((spec_decimal(twos_complement(be_uint(bytes_at(d, p, 4)) as int, 4)), p + 4))
        } else {
            Err(EventStreamError::UnexpectedEof)
        }
    } else if tag == HEADER_TYPE_LONG || tag == HEADER_TYPE_TIMESTAMP {
        if p + 8 <= len {
            Ok((spec_decimal(twos_complement(be_uint(bytes_at(d, p, 8)) as int, 8)), p + 8))
        } else {
            Err(EventStreamError::UnexpectedEof)
        }
    } else if tag == HEADER_TYPE_BYTES || tag == HEADER_TYPE_STRING {
        if p + 2 > len {
            Err(EventStreamError::UnexpectedEof)
        } else {
            let n = be_uint(bytes_at(d, p, 2)) as int;
            if p + 2 + n > len {
                Err(EventStreamError::UnexpectedEof)
            } else {
                let b = bytes_at(d, p + 2, n);
                if tag == HEADER_TYPE_BYTES {
                    Ok((spec_hex(b), p + 2 + n))
                } else if valid_utf8(b) {
                    Ok((decode_utf8(b), p + 2 + n))
                } else {
                    Err(spec_utf8_error(b))
                }
            }
        }
    } else if tag == HEADER_TYPE_UUID {
        if p + 16 <= len {
            Ok((uuid_text(bytes_at(d, p, 16)), p + 16))
        } else {
            Err(EventStreamError::UnexpectedEof)
        }
    } else {
        Err(EventStreamError::UnknownHeaderType { value_type: tag })
    }
}

/// One header whose encoding starts at `p`: a one-byte name length, the
/// UTF-8 name, a one-byte type tag and the value; with the position after it.
pub open spec fn spec_header_at(d: Seq<u8>, p: int) -> Result<(Seq<char>, Seq<char>, int), EventStreamError> {
    let len = d.len() as int;
    if p + 1 > len {
        Err(EventStreamError::UnexpectedEof)
    } else {
        let n = d[p] as int;
        if p + 1 + n > len {
            Err(EventStreamError::UnexpectedEof)
        } else if !valid_utf8(bytes_at(d, p + 1, n)) {
            Err(spec_utf8_error(bytes_at(d, p + 1, n)))
        } else if p + 1 + n + 1 > len {
            Err(EventStreamError::UnexpectedEof)
        } else {
            match spec_header_value(d, p + 2 + n, d[p + 1 + n]) {
                Err(e) => Err(e),
                Ok((v, q)) => Ok((decode_utf8(bytes_at(d, p + 1, n)), v, q)),
            }
        }
    }
}

/// Prefixes the headers of `r` with `hs` when it holds headers.
pub open spec fn prepend_headers(
    hs: Seq<(Seq<char>, Seq<char>)>,
    r: Result<Seq<(Seq<char>, Seq<char>)>, EventStreamError>,
) -> Result<Seq<(Seq<char>, Seq<char>)>, EventStreamError> {
    match r {
        Ok(rest) => Ok(hs + rest),
        Err(e) => Err(e),
    }
}

/// The headers encoded in `d` from position `p` to its end.
pub open spec fn spec_headers_from(d: Seq<u8>, p: int) -> Result<Seq<(Seq<char>, Seq<char>)>, EventStreamError>
    decreases d.len() - p,
{
    if p < 0 || p >= d.len() {
        Ok(Seq::empty())
    } else {
        match spec_header_at(d, p) {
            Err(e) => Err(e),
            Ok((name, value, q)) => if p < q {
                prepend_headers(seq![(name, value)], spec_headers_from(d, q))
            } else {
                Err(EventStreamError::UnexpectedEof)
            },
        }
    }
}

/// The headers encoded in a header block: `(name, value text)` in order.
pub open spec fn spec_parse_headers(d: Seq<u8>) -> Result<Seq<(Seq<char>, Seq<char>)>, EventStreamError> {
    spec_headers_from(d, 0)
}

/// Views of decoded headers.
pub open spec fn headers_view(v: Seq<(String, String)>) -> Seq<(Seq<char>, Seq<char>)> {
    v.map_values(|h: (String, String)| (h.0@, h.1@))
}

/// View of a header-block decoding result.
pub open spec fn headers_result_view(r: Result<Vec<(String, String)>, EventStreamError>) -> Result<Seq<(Seq<char>, Seq<char>)>, EventStreamError> {
    match r {
        Ok(v) => Ok(headers_view(v@)),
        Err(e) => Err(e),
    }
}

fn uuid_string(b: &[u8]) -> (r: String)
    requires
        b@.len() == 16,
    ensures
        r@ == uuid_text(b@),
{
    let mut s = hex_encode(vstd::slice::slice_subrange(b, 0, 4));
    crate::text::push_char(&mut s, '-');
    push_str(&mut s, hex_encode(vstd::slice::slice_subrange(b, 4, 6)).as_str());
    crate::text::push_char(&mut s, '-');
    push_str(&mut s, hex_encode(vstd::slice::slice_subrange(b, 6, 8)).as_str());
    crate::text::push_char(&mut s, '-');
    push_str(&mut s, hex_encode(vstd::slice::slice_subrange(b, 8, 10)).as_str());
    crate::text::push_char(&mut s, '-');
    push_str(&mut s, hex_encode(vstd::slice::slice_subrange(b, 10, 16)).as_str());
    s
}

/// Reads a header value of type `tag`.
fn read_header_value(cursor: &mut Cursor, tag: u8) -> (r: Result<String, EventStreamError>)
    requires
        old(cursor).wf(),
    ensures
        final(cursor).wf(),
        final(cursor).data == old(cursor).data,
        match spec_header_value(old(cursor).data@, old(cursor).pos as int, tag) {
            Ok((v, q)) => r matches Ok(s) && s@ == v && final(cursor).pos == q,
            Err(e) => r == Err::<String, _>(e),
        },
{
    let ghost d = cursor.data@;
    let ghost p = cursor.pos as int;
    if tag == HEADER_TYPE_BOOL_TRUE {
        Ok(owned("true"))
    } else if tag == HEADER_TYPE_BOOL_FALSE {
        Ok(owned("false"))
    } else if tag == HEADER_TYPE_BYTE {
        let v = read_u8(cursor)?;
        Ok(crate::text::decimal_u64(v as u64))
    } else if tag == HEADER_TYPE_SHORT {
        let v = read_i16(cursor)?;
        Ok(decimal_i64(v as i64))
    } else if tag == HEADER_TYPE_INT {
        let v = read_i32(cursor)?;
        Ok(decimal_i64(v as i64))
    } else if tag == HEADER_TYPE_LONG || tag == HEADER_TYPE_TIMESTAMP {
        let v = read_i64(cursor)?;
        Ok(decimal_i64(v))
    } else if tag == HEADER_TYPE_BYTES {
        let n = read_u16(cursor)?;
        let b = read_exact(cursor, n as usize)?;
        Ok(hex_encode(b))
    } else if tag == HEADER_TYPE_STRING {
        let n = read_u16(cursor)?;
        read_string(cursor, n as usize)
    } else if tag == HEADER_TYPE_UUID {
        let b = read_exact(cursor, 16)?;
        Ok(uuid_string(b))
    } else {
        Err(EventStreamError::UnknownHeaderType { value_type: tag })
    }
}

/// Reads one header.
fn read_header(cursor: &mut Cursor) -> (r: Result<(String, String), EventStreamError>)
    requires
        old(cursor).wf(),
    ensures
        final(cursor).wf(),
        final(cursor).data == old(cursor).data,
        match spec_header_at(old(cursor).data@, old(cursor).pos as int) {
            Ok((n, v, q)) => r matches Ok(h) && h.0@ == n && h.1@ == v && final(cursor).pos == q
                && q >= old(cursor).pos + 2,
            Err(e) => r == Err::<(String, String), _>(e),
        },
{
    let name_length = read_u8(cursor)?;
    let name = read_string(cursor, name_length as usize)?;
    let value_type = read_u8(cursor)?;
    let value = read_header_value(cursor, value_type)?;
    Ok((name, value))
}

/// Decodes a header block into `(name, value text)` pairs, in order.
pub fn parse_headers(data: &[u8]) -> (r: Result<Vec<(String, String)>, EventStreamError>)
    ensures
        headers_result_view(r) == spec_parse_headers(data@),
{
    let mut headers: Vec<(String, String)> = Vec::new();
    let mut cursor = Cursor::new(data);
    while cursor.pos < data.len()
        invariant
            cursor.wf(),
            cursor.data == data,
            spec_parse_headers(data@) == prepend_headers(
                headers_view(headers@),
                spec_headers_from(data@, cursor.pos as int),
            ),
        decreases data@.len() - cursor.pos,
    {
        let ghost p = cursor.pos as int;
        let h = read_header(&mut cursor)?;
        let ghost hs = headers_view(headers@);
        headers.push(h);
        proof {
            assert(headers_view(headers@) =~= hs + seq![(h.0@, h.1@)]);
            let rest = spec_headers_from(data@, cursor.pos as int);
            match rest {
                Ok(r) => {
                    assert(hs + (seq![(h.0@, h.1@)] + r) =~= (hs + seq![(h.0@, h.1@)]) + r);
                },
                Err(_) => {},
            }
        }
    }
    proof {
        assert(headers_view(headers@) + Seq::<(Seq<char>, Seq<char>)>::empty() =~= headers_view(headers@));
    }
    Ok(headers)
}


/// Length of the prelude: total length and header-block length.
pub const PRELUDE_LENGTH: usize = 8;
/// Length of the prelude checksum.
pub const PRELUDE_CRC_LENGTH: usize = 4;
/// Length of the trailing message checksum.
pub const MESSAGE_CRC_LENGTH: usize = 4;
/// The shortest possible frame: prelude, its checksum and the message checksum.
pub const MIN_MESSAGE_LENGTH: usize = PRELUDE_LENGTH + PRELUDE_CRC_LENGTH + MESSAGE_CRC_LENGTH;

/// One decoded frame: the well-known headers and the payload.
#[derive(Debug, Clone)]
pub struct AwsEvent {
    pub message_type: String,
    pub content_type: Option<String>,
    pub event_type: Option<String>,
    pub exception_type: Option<String>,
    pub payload: Vec<u8>,
}

/// The mathematical content of an [`AwsEvent`].
pub struct AwsEventView {
    pub message_type: Seq<char>,
    pub content_type: Option<Seq<char>>,
    pub event_type: Option<Seq<char>>,
    pub exception_type: Option<Seq<char>>,
    pub payload: Seq<u8>,
}

/// View of an optional string.
pub open spec fn opt_view(o: Option<String>) -> Option<Seq<char>> {
    match o {
        Some(s) => Some(s@),
        None => None,
    }
}

impl View for AwsEvent {
    type V = AwsEventView;

    open spec fn view(&self) -> AwsEventView {
        AwsEventView {
            message_type: self.message_type@,
            content_type: opt_view(self.content_type),
            event_type: opt_view(self.event_type),
            exception_type: opt_view(self.exception_type),
            payload: self.payload@,
        }
    }
}

impl AwsEvent {
    /// The frame is an event (`:message-type` is `event`).
    pub fn is_event(&self) -> (r: bool)
        ensures
            r == (self.message_type@ == "event"@),
    {
        self.message_type == owned("event")
    }

    /// The frame is an exception (`:message-type` is `exception`).
    pub fn is_exception(&self) -> (r: bool)
        ensures
            r == (self.message_type@ == "exception"@),
    {
        self.message_type == owned("exception")
    }
}

/// The value of the first header named `key`.
pub open spec fn spec_find_header(hs: Seq<(Seq<char>, Seq<char>)>, key: Seq<char>) -> Option<Seq<char>>
    decreases hs.len(),
{
    if hs.len() == 0 {
        None
    } else if hs[0].0 == key {
        Some(hs[0].1)
    } else {
        spec_find_header(hs.drop_first(), key)
    }
}

/// The event that a frame with headers `hs` and payload `payload` decodes to.
pub open spec fn spec_event(hs: Seq<(Seq<char>, Seq<char>)>, payload: Seq<u8>) -> AwsEventView {
    AwsEventView {
        message_type: match spec_find_header(hs, ":message-type"@) {
            Some(v) => v,
            None => Seq::empty(),
        },
        content_type: spec_find_header(hs, ":content-type"@),
        event_type: spec_find_header(hs, ":event-type"@),
        exception_type: spec_find_header(hs, ":exception-type"@),
        payload,
    }
}

/// What the bytes at the start of a buffer hold.
pub enum FrameStep {
    /// Not yet a whole frame.
    Incomplete,
    /// A whole frame that is rejected.
    Failed(EventStreamError),
    /// A frame whose checksums match but that cannot be cut: its header block
    /// reaches past the bytes buffered, or its headers decode but end past
    /// the message checksum.
    HeadersOverrun,
    /// A frame of the given total length, decoded.
    Decoded(AwsEventView, nat),
}

/// The frame at the start of `buf`: an 8-byte prelude (big-endian total length
/// and header-block length), its CRC-32C, the header block, the payload and
/// the CRC-32C of everything before it.
pub open spec fn spec_frame(buf: Seq<u8>) -> FrameStep {
    if buf.len() < MIN_MESSAGE_LENGTH {
        FrameStep::Incomplete
    } else {
        let total = be_uint(bytes_at(buf, 0, 4));
        if total < MIN_MESSAGE_LENGTH {
            FrameStep::Failed(EventStreamError::InvalidMessageLength { length: total as u32 })
        } else if buf.len() < total {
            FrameStep::Incomplete
        } else {
            let headers_length = be_uint(bytes_at(buf, 4, 4));
            let prelude_crc = be_uint(bytes_at(buf, 8, 4)) as u32;
            let computed_prelude_crc = spec_crc32c(buf.take(8));
            if prelude_crc != computed_prelude_crc {
                FrameStep::Failed(
                    EventStreamError::PreludeCrcMismatch {
                        expected: prelude_crc,
                        computed: computed_prelude_crc,
                    },
                )
            } else {
                let crc_offset = total as int - MESSAGE_CRC_LENGTH;
                let message_crc = be_uint(bytes_at(buf, crc_offset, 4)) as u32;
                let computed_message_crc = spec_crc32c(buf.take(crc_offset));
                if message_crc != computed_message_crc {
                    FrameStep::Failed(
                        EventStreamError::MessageCrcMismatch {
                            expected: message_crc,
                            computed: computed_message_crc,
                        },
                    )
                } else {
                    let headers_end = 12 + headers_length as int;
                    if headers_end > buf.len() {
                        FrameStep::HeadersOverrun
                    } else {
                        match spec_parse_headers(buf.subrange(12, headers_end)) {
                            Err(e) => FrameStep::Failed(e),
                            Ok(hs) => if headers_end > crc_offset {
                                FrameStep::HeadersOverrun
                            } else {
                                FrameStep::Decoded(
                                    spec_event(hs, buf.subrange(headers_end, crc_offset)),
                                    total,
                                )
                            },
                        }
                    }
                }
            }
        }
    }
}

/// Cuts frames off the front of `buf` until one is incomplete or rejected:
/// the decoded events (a rejected frame ends them with its error) and the
/// bytes left. A rejected frame stays in what is left.
pub open spec fn spec_drain(buf: Seq<u8>) -> (Seq<Result<AwsEventView, EventStreamError>>, Seq<u8>)
    decreases buf.len(),
{
    match spec_frame(buf) {
        FrameStep::Decoded(ev, n) => if 0 < n <= buf.len() {
            let rest = spec_drain(buf.skip(n as int));
            (seq![Ok(ev)] + rest.0, rest.1)
        } else {
            (Seq::empty(), buf)
        },
        FrameStep::Failed(e) => (seq![Err(e)], buf),
        _ => (Seq::empty(), buf),
    }
}

/// Cutting frames off `buf` reaches a frame that cannot be cut: its header
/// block reaches past the bytes, or its headers decode but end past the
/// message checksum.
pub open spec fn spec_drain_overruns(buf: Seq<u8>) -> bool
    decreases buf.len(),
{
    match spec_frame(buf) {
        FrameStep::Decoded(ev, n) => if 0 < n <= buf.len() {
            spec_drain_overruns(buf.skip(n as int))
        } else {
            false
        },
        FrameStep::HeadersOverrun => true,
        _ => false,
    }
}

/// Views of decoding results.
pub open spec fn events_view(v: Seq<Result<AwsEvent, EventStreamError>>) -> Seq<Result<AwsEventView, EventStreamError>> {
    v.map_values(
        |r: Result<AwsEvent, EventStreamError>|
            match r {
                Ok(e) => Ok(e@),
                Err(x) => Err(x),
            },
    )
}

/// Exec form of [`FrameStep`].
pub enum Frame {
    Incomplete,
    Failed(EventStreamError),
    HeadersOverrun,
    Decoded(AwsEvent, usize),
}

impl View for Frame {
    type V = FrameStep;

    open spec fn view(&self) -> FrameStep {
        match self {
            Frame::Incomplete => FrameStep::Incomplete,
            Frame::Failed(e) => FrameStep::Failed(*e),
            Frame::HeadersOverrun => FrameStep::HeadersOverrun,
            Frame::Decoded(ev, n) => FrameStep::Decoded(ev@, *n as nat),
        }
    }
}

fn find_header(headers: &Vec<(String, String)>, key: &str) -> (r: Option<String>)
    ensures
        opt_view(r) == spec_find_header(headers_view(headers@), key@),
{
    let k = owned(key);
    let ghost hv = headers_view(headers@);
    let mut i: usize = 0;
    assert(hv.skip(0) =~= hv);
    while i < headers.len()
        invariant
            i <= headers@.len(),
            hv == headers_view(headers@),
            k@ == key@,
            spec_find_header(hv, key@) == spec_find_header(hv.skip(i as int), key@),
        decreases headers@.len() - i,
    {
        proof {
            assert(hv.skip(i as int)[0] == hv[i as int]);
            assert(hv.skip(i as int).drop_first() =~= hv.skip(i + 1));
        }
        if headers[i].0 == k {
            return Some(headers[i].1.clone());
        }
        i = i + 1;
    }
    None
}

fn be_u32_at(buf: &[u8], at: usize) -> (v: u32)
    requires
        at + 4 <= buf@.len(),
    ensures
        v == be_uint(bytes_at(buf@, at as int, 4)),
{
    let n = buf.len();
    assert(at + 4 <= n);
    let b = vstd::slice::slice_subrange(buf, at, at + 4);
    let v = be_value(b);
    proof {
        lemma_be_uint_bound(b@);
        vstd::arithmetic::power2::lemma2_to64();
    }
    v as u32
}

/// Decodes the frame at the start of `buf`.
pub fn decode_frame(buf: &[u8]) -> (r: Frame)
    ensures
        r@ == spec_frame(buf@),
{
    if buf.len() < MIN_MESSAGE_LENGTH {
        return Frame::Incomplete;
    }
    let total_length = be_u32_at(buf, 0) as usize;
    if total_length < MIN_MESSAGE_LENGTH {
        return Frame::Failed(EventStreamError::InvalidMessageLength { length: total_length as u32 });
    }
    if buf.len() < total_length {
        return Frame::Incomplete;
    }
    let headers_length = be_u32_at(buf, 4);
    let prelude_crc = be_u32_at(buf, 8);
    let computed_prelude_crc = crc32c(vstd::slice::slice_subrange(buf, 0, 8));
    if prelude_crc != computed_prelude_crc {
        return Frame::Failed(
            EventStreamError::PreludeCrcMismatch {
                expected: prelude_crc,
                computed: computed_prelude_crc,
            },
        );
    }
    let message_crc_offset = total_length - MESSAGE_CRC_LENGTH;
    let message_crc = be_u32_at(buf, message_crc_offset);
    let computed_message_crc = crc32c(vstd::slice::slice_subrange(buf, 0, message_crc_offset));
    if message_crc != computed_message_crc {
        return Frame::Failed(
            EventStreamError::MessageCrcMismatch {
                expected: message_crc,
                computed: computed_message_crc,
            },
        );
    }
    let headers_start = PRELUDE_LENGTH + PRELUDE_CRC_LENGTH;
    if headers_length as usize > buf.len() - headers_start {
        return Frame::HeadersOverrun;
    }
    let headers_end = headers_start + headers_length as usize;
    let headers = match parse_headers(vstd::slice::slice_subrange(buf, headers_start, headers_end)) {
        Ok(h) => h,
        Err(e) => return Frame::Failed(e),
    };
    if headers_end > message_crc_offset {
        return Frame::HeadersOverrun;
    }
    let payload = vstd::slice::slice_to_vec(
        vstd::slice::slice_subrange(buf, headers_end, message_crc_offset),
    );
    let message_type = match find_header(&headers, ":message-type") {
        Some(v) => v,
        None => String::new(),
    };
    let content_type = find_header(&headers, ":content-type");
    let event_type = find_header(&headers, ":event-type");
    let exception_type = find_header(&headers, ":exception-type");
    let event = AwsEvent { message_type, content_type, event_type, exception_type, payload };
    proof {
        assert(buf@.subrange(0, 8) =~= buf@.take(8));
        assert(buf@.subrange(0, message_crc_offset as int) =~= buf@.take(message_crc_offset as int));
    }
    Frame::Decoded(event, total_length)
}


proof fn lemma_decoded_length(buf: Seq<u8>)
    ensures
        spec_frame(buf) matches FrameStep::Decoded(_, n) ==> MIN_MESSAGE_LENGTH <= n <= buf.len(),
{
}

/// Only the last of the results of cutting frames can be an error.
proof fn lemma_drain_errors_last(buf: Seq<u8>)
    ensures
        forall|i: int| 0 <= i < spec_drain(buf).0.len() - 1 ==> #[trigger] spec_drain(buf).0[i] is Ok,
    decreases buf.len(),
{
    lemma_decoded_length(buf);
    if let FrameStep::Decoded(ev, n) = spec_frame(buf) {
        let rest = buf.skip(n as int);
        lemma_drain_errors_last(rest);
        assert forall|i: int| 0 <= i < spec_drain(buf).0.len() - 1 implies #[trigger] spec_drain(buf).0[i] is Ok by {
            if i > 0 {
                assert(spec_drain(buf).0[i] == spec_drain(rest).0[i - 1]);
            }
        }
    }
}

/// Incremental decoder for a stream of event-stream frames: bytes are
/// buffered until whole frames can be cut from them.
pub struct AwsEventStreamParser {
    buffer: Vec<u8>,
}

impl View for AwsEventStreamParser {
    type V = Seq<u8>;

    /// The bytes buffered and not yet cut into frames.
    closed spec fn view(&self) -> Seq<u8> {
        self.buffer@
    }
}

impl AwsEventStreamParser {
    /// A decoder with nothing buffered.
    pub fn new() -> (p: Self)
        ensures
            p@ == Seq::<u8>::empty(),
    {
        AwsEventStreamParser { buffer: Vec::new() }
    }

    /// Cuts the frame at the front of the buffer, if a whole frame is there:
    /// `Ok(None)` when it is not yet whole, the error (keeping the bytes) when
    /// it is rejected, the event (dropping its bytes) when it decodes.
    fn try_parse_message(&mut self) -> (r: Result<Option<AwsEvent>, EventStreamError>)
        requires
            !(spec_frame(old(self)@) is HeadersOverrun),
        ensures
            match spec_frame(old(self)@) {
                FrameStep::Incomplete => r == Ok::<Option<AwsEvent>, EventStreamError>(None)
                    && final(self)@ == old(self)@,
                FrameStep::Failed(e) => r == Err::<Option<AwsEvent>, _>(e) && final(self)@ == old(
                    self,
                )@,
                FrameStep::Decoded(ev, n) => (r matches Ok(Some(x)) && x@ == ev) && final(self)@
                    == old(self)@.skip(n as int),
                FrameStep::HeadersOverrun => false,
            },
    {
        proof {
            lemma_decoded_length(self.buffer@);
        }
        match decode_frame(self.buffer.as_slice()) {
            Frame::Incomplete => Ok(None),
            Frame::Failed(e) => Err(e),
            Frame::HeadersOverrun => Ok(None),
            Frame::Decoded(event, total_length) => {
                let rest = self.buffer.split_off(total_length);
                self.buffer = rest;
                Ok(Some(event))
            },
        }
    }

    /// Appends `chunk` to the buffer and cuts every whole frame from the
    /// front: the decoded events in order, ending with the error of the first
    /// rejected frame, whose bytes stay buffered.
    pub fn feed(&mut self, chunk: &[u8]) -> (events: Vec<Result<AwsEvent, EventStreamError>>)
        requires
            !spec_drain_overruns(old(self)@ + chunk@),
        ensures
            events_view(events@) == spec_drain(old(self)@ + chunk@).0,
            final(self)@ == spec_drain(old(self)@ + chunk@).1,
            forall|i: int| 0 <= i < events@.len() - 1 ==> #[trigger] events@[i] is Ok,
    {
        self.buffer.extend_from_slice(chunk);
        let ghost all = self.buffer@;
        proof {
            assert(all =~= old(self)@ + chunk@);
        }
        let mut events: Vec<Result<AwsEvent, EventStreamError>> = Vec::new();
        loop
            invariant_except_break
                !spec_drain_overruns(self.buffer@),
                spec_drain(all).0 == events_view(events@) + spec_drain(self.buffer@).0,
                spec_drain(all).1 == spec_drain(self.buffer@).1,
            ensures
                spec_drain(all).0 == events_view(events@),
                spec_drain(all).1 == self.buffer@,
            decreases self.buffer@.len(),
        {
            let ghost before = self.buffer@;
            let ghost ev = events_view(events@);
            proof {
                lemma_decoded_length(before);
            }
            match self.try_parse_message() {
                Ok(Some(event)) => {
                    events.push(Ok(event));
                    proof {
                        assert(events_view(events@) =~= ev + seq![Ok::<AwsEventView, EventStreamError>(event@)]);
                        assert(spec_drain(before).0 =~= seq![Ok::<AwsEventView, EventStreamError>(event@)] + spec_drain(self.buffer@).0);
                        assert(ev + spec_drain(before).0 =~= events_view(events@) + spec_drain(self.buffer@).0);
                    }
                },
                Ok(None) => {
                    proof {
                        assert(events_view(events@) + Seq::<Result<AwsEventView, EventStreamError>>::empty() =~= events_view(events@));
                    }
                    break;
                },
                Err(e) => {
                    events.push(Err(e));
                    proof {
                        assert(events_view(events@) =~= ev + seq![Err::<AwsEventView, EventStreamError>(e)]);
                        assert(spec_drain(before).0 =~= seq![Err::<AwsEventView, EventStreamError>(e)]);
                    }
                    break;
                },
            }
        }
        proof {
            lemma_drain_errors_last(all);
            assert forall|i: int| 0 <= i < events@.len() - 1 implies #[trigger] events@[i] is Ok by {
                assert(events_view(events@)[i] == spec_drain(all).0[i]);
            }
        }
        events
    }

    /// Drops everything buffered.
    pub fn reset(&mut self)
        ensures
            final(self)@ == Seq::<u8>::empty(),
    {
        self.buffer.clear();
    }

    /// Whether [`Self::feed`] can take `chunk`: cutting frames from the buffer
    /// followed by `chunk` meets no frame that cannot be cut.
    pub fn can_feed(&self, chunk: &[u8]) -> (r: bool)
        ensures
            r == !spec_drain_overruns(self@ + chunk@),
    {
        let mut rest = self.buffer.clone();
        rest.extend_from_slice(chunk);
        proof {
            assert(rest@ =~= self@ + chunk@);
        }
        loop
            invariant
                spec_drain_overruns(self@ + chunk@) == spec_drain_overruns(rest@),
            decreases rest@.len(),
        {
            proof {
                lemma_decoded_length(rest@);
            }
            match decode_frame(rest.as_slice()) {
                Frame::Decoded(_, total_length) => {
                    rest = rest.split_off(total_length);
                },
                Frame::HeadersOverrun => {
                    return false;
                },
                _ => {
                    return true;
                },
            }
        }
    }
}

impl Default for AwsEventStreamParser {
    fn default() -> (p: Self)
        ensures
            p@ == Seq::<u8>::empty(),
    {
        Self::new()
    }
}


/// No element of `es` is an error.
pub open spec fn all_decoded(es: Seq<Result<AwsEventView, EventStreamError>>) -> bool {
    forall|i: int| 0 <= i < es.len() ==> es[i] is Ok
}

proof fn lemma_frame_extends(s: Seq<u8>, t: Seq<u8>)
    ensures
        !(spec_frame(s) is Incomplete) && !(spec_frame(s) is HeadersOverrun) ==> spec_frame(s + t)
            == spec_frame(s),
{
    if !(spec_frame(s) is Incomplete) && !(spec_frame(s) is HeadersOverrun) {
        let st = s + t;
        assert(bytes_at(st, 0, 4) =~= bytes_at(s, 0, 4));
        let total = be_uint(bytes_at(s, 0, 4));
        if total >= MIN_MESSAGE_LENGTH {
            assert(s.len() >= total);
            assert(bytes_at(st, 4, 4) =~= bytes_at(s, 4, 4));
            assert(bytes_at(st, 8, 4) =~= bytes_at(s, 8, 4));
            assert(st.take(8) =~= s.take(8));
            let crc_offset = total as int - MESSAGE_CRC_LENGTH;
            assert(bytes_at(st, crc_offset, 4) =~= bytes_at(s, crc_offset, 4));
            assert(st.take(crc_offset) =~= s.take(crc_offset));
            let headers_end = 12 + be_uint(bytes_at(s, 4, 4)) as int;
            if headers_end <= s.len() {
                assert(st.subrange(12, headers_end) =~= s.subrange(12, headers_end));
            }
            if headers_end <= crc_offset {
                assert(st.subrange(headers_end, crc_offset) =~= s.subrange(headers_end, crc_offset));
            }
        }
    }
}

/// Frame decoding does not depend on how the byte stream is cut into chunks:
/// feeding `s` and then `t` yields, in order, the events that feeding `s + t`
/// at once yields, and leaves the same bytes buffered — provided no frame
/// of `s` was rejected and neither feed meets a frame that cannot be cut.
pub proof fn law_chunking_invariance(s: Seq<u8>, t: Seq<u8>)
    requires
        all_decoded(spec_drain(s).0),
        !spec_drain_overruns(s),
        !spec_drain_overruns(spec_drain(s).1 + t),
    ensures
        !spec_drain_overruns(s + t),
        spec_drain(s).0 + spec_drain(spec_drain(s).1 + t).0 == spec_drain(s + t).0,
        spec_drain(spec_drain(s).1 + t).1 == spec_drain(s + t).1,
    decreases s.len(),
{
    lemma_frame_extends(s, t);
    lemma_decoded_length(s);
    match spec_frame(s) {
        FrameStep::Decoded(ev, n) => {
            let rest = s.skip(n as int);
            assert((s + t).skip(n as int) =~= rest + t);
            assert(spec_drain(s).0 == seq![Ok::<AwsEventView, EventStreamError>(ev)] + spec_drain(rest).0);
            assert forall|i: int| 0 <= i < spec_drain(rest).0.len() implies spec_drain(rest).0[i] is Ok by {
                assert(spec_drain(s).0[i + 1] == spec_drain(rest).0[i]);
            }
            law_chunking_invariance(rest, t);
            assert(spec_drain(s).0 + spec_drain(spec_drain(s).1 + t).0 =~= seq![Ok::<AwsEventView, EventStreamError>(ev)] + (spec_drain(rest).0 + spec_drain(spec_drain(rest).1 + t).0));
        },
        FrameStep::Failed(e) => {
            assert(spec_drain(s).0[0] is Err);
        },
        FrameStep::Incomplete => {
            assert(spec_drain(s).0 + spec_drain(s + t).0 =~= spec_drain(s + t).0);
        },
        FrameStep::HeadersOverrun => {},
    }
}

/// A rejected frame is not dropped: once cutting frames stops at a rejected
/// frame, feeding any further bytes reports the same error again and nothing
/// after it.
pub proof fn law_rejected_frame_persists(s: Seq<u8>, t: Seq<u8>, e: EventStreamError)
    requires
        spec_drain(s).0.len() > 0,
        spec_drain(s).0.last() == Err::<AwsEventView, EventStreamError>(e),
    ensures
        spec_drain(spec_drain(s).1 + t).0 == seq![Err::<AwsEventView, EventStreamError>(e)],
        spec_drain(spec_drain(s).1 + t).1 == spec_drain(s).1 + t,
    decreases s.len(),
{
    lemma_decoded_length(s);
    match spec_frame(s) {
        FrameStep::Decoded(ev, n) => {
            let rest = s.skip(n as int);
            assert(spec_drain(s).0 == seq![Ok::<AwsEventView, EventStreamError>(ev)] + spec_drain(rest).0);
            law_rejected_frame_persists(rest, t, e);
        },
        FrameStep::Failed(e2) => {
            lemma_frame_extends(s, t);
        },
        _ => {},
    }
}

/// `hs[i]` is the first header named `key`.
pub open spec fn first_header_named(hs: Seq<(Seq<char>, Seq<char>)>, key: Seq<char>, i: int) -> bool {
    &&& 0 <= i < hs.len()
    &&& hs[i].0 == key
    &&& forall|j: int| 0 <= j < i ==> hs[j].0 != key
}

/// No header of `hs` is named `key`.
pub open spec fn no_header_named(hs: Seq<(Seq<char>, Seq<char>)>, key: Seq<char>) -> bool {
    forall|j: int| 0 <= j < hs.len() ==> hs[j].0 != key
}

/// Looking a header up finds the value of the first header of that name,
/// and nothing when there is none.
pub proof fn lemma_find_header(hs: Seq<(Seq<char>, Seq<char>)>, key: Seq<char>)
    ensures
        forall|i: int| first_header_named(hs, key, i) ==> spec_find_header(hs, key) == Some(hs[i].1),
        no_header_named(hs, key) ==> spec_find_header(hs, key) is None,
    decreases hs.len(),
{
    if hs.len() > 0 {
        let rest = hs.drop_first();
        lemma_find_header(rest, key);
        assert forall|i: int| first_header_named(hs, key, i) implies spec_find_header(hs, key) == Some(hs[i].1) by {
            if i > 0 {
                assert(hs[0].0 != key);
                assert(rest[i - 1] == hs[i]);
                assert(first_header_named(rest, key, i - 1)) by {
                    assert forall|j: int| 0 <= j < i - 1 implies rest[j].0 != key by {
                        assert(rest[j] == hs[j + 1]);
                    }
                }
            }
        }
        if no_header_named(hs, key) {
            assert(hs[0].0 != key);
            assert forall|j: int| 0 <= j < rest.len() implies rest[j].0 != key by {
                assert(rest[j] == hs[j + 1]);
            }
        }
    }
}

/// A decoded frame is what its bytes say: its total length is the first
/// prelude word; its header block (the `H` bytes after the 12-byte prelude,
/// `H` the second prelude word) decodes, and the event's payload is the
/// bytes between that block and the message checksum. Its message type,
/// content type, event type and exception type are the values of the first
/// headers named `:message-type`, `:content-type`, `:event-type` and
/// `:exception-type`; a type without such a header is absent (the message
/// type is then empty).
pub proof fn law_decoded_event(buf: Seq<u8>, ev: AwsEventView, n: nat)
    requires
        spec_frame(buf) == FrameStep::Decoded(ev, n),
    ensures
        n == be_uint(bytes_at(buf, 0, 4)),
        MIN_MESSAGE_LENGTH <= n <= buf.len(),
        ({
            let headers_end = 12 + be_uint(bytes_at(buf, 4, 4)) as int;
            &&& headers_end <= n - 4
            &&& ev.payload == buf.subrange(headers_end, n - 4)
            &&& spec_parse_headers(buf.subrange(12, headers_end)) matches Ok(hs)
                && (forall|i: int| first_header_named(hs, ":message-type"@, i) ==> ev.message_type == hs[i].1)
                && (no_header_named(hs, ":message-type"@) ==> ev.message_type == Seq::<char>::empty())
                && (forall|i: int| first_header_named(hs, ":content-type"@, i) ==> ev.content_type == Some(hs[i].1))
                && (no_header_named(hs, ":content-type"@) ==> ev.content_type is None)
                && (forall|i: int| first_header_named(hs, ":event-type"@, i) ==> ev.event_type == Some(hs[i].1))
                && (no_header_named(hs, ":event-type"@) ==> ev.event_type is None)
                && (forall|i: int| first_header_named(hs, ":exception-type"@, i) ==> ev.exception_type == Some(hs[i].1))
                && (no_header_named(hs, ":exception-type"@) ==> ev.exception_type is None)
        }),
{
    let headers_end = 12 + be_uint(bytes_at(buf, 4, 4)) as int;
    if let Ok(hs) = spec_parse_headers(buf.subrange(12, headers_end)) {
        lemma_find_header(hs, ":message-type"@);
        lemma_find_header(hs, ":content-type"@);
        lemma_find_header(hs, ":event-type"@);
        lemma_find_header(hs, ":exception-type"@);
    }
}

} // verus!
