//! Primitive wire encoders and decoders.
//!
//! Every multi-byte packet field is big-endian on the wire. A string is a
//! `u64` byte length followed by its UTF-8 bytes; an optional value is a
//! one-byte flag (0 or 1) followed, when the flag is 1, by the value; a
//! 128-bit identifier travels as a `u128`.
//!
//! Each encoder appends to a `Vec<u8>` and is specified by a spec function
//! giving the exact byte sequence; each decoder reads at a position and is
//! specified by a matching spec reader. Round-trip lemmas connect the two.

use vstd::prelude::*;
use vstd::utf8::{decode_utf8, encode_utf8, valid_utf8};
use vstd::utf8::{encode_utf8_decode_utf8, encode_utf8_valid_utf8};

verus! {

/// Why a decode failed: the buffer ended before the value did, or the bytes
/// do not form a valid value (bad UTF-8, bad discriminator, bad flag).
#[derive(Clone, Copy, PartialEq, Eq, Structural, Debug)]
pub enum WireError {
    Truncated,
    InvalidData,
}

// ---------------------------------------------------------------------------
// Unsigned integers, big-endian
// ---------------------------------------------------------------------------

pub open spec fn spec_u16_be(x: u16) -> Seq<u8> {
    seq![((x >> 8) & 0xff) as u8, (x & 0xff) as u8]
}

pub open spec fn spec_u16_from_be(s: Seq<u8>) -> u16
    recommends
        s.len() == 2,
{
    ((s[0] as u16) << 8) | (s[1] as u16)
}

pub open spec fn spec_u32_be(x: u32) -> Seq<u8> {
    seq![
        ((x >> 24) & 0xff) as u8,
        ((x >> 16) & 0xff) as u8,
        ((x >> 8) & 0xff) as u8,
        (x & 0xff) as u8,
    ]
}

pub open spec fn spec_u32_from_be(s: Seq<u8>) -> u32
    recommends
        s.len() == 4,
{
    ((s[0] as u32) << 24) | ((s[1] as u32) << 16) | ((s[2] as u32) << 8) | (s[3] as u32)
}

pub open spec fn spec_u64_be(x: u64) -> Seq<u8> {
    seq![
        ((x >> 56) & 0xff) as u8,
        ((x >> 48) & 0xff) as u8,
        ((x >> 40) & 0xff) as u8,
        ((x >> 32) & 0xff) as u8,
        ((x >> 24) & 0xff) as u8,
        ((x >> 16) & 0xff) as u8,
        ((x >> 8) & 0xff) as u8,
        (x & 0xff) as u8,
    ]
}

pub open spec fn spec_u64_from_be(s: Seq<u8>) -> u64
    recommends
        s.len() == 8,
{
    ((s[0] as u64) << 56) | ((s[1] as u64) << 48) | ((s[2] as u64) << 40) | ((s[3] as u64)
        << 32) | ((s[4] as u64) << 24) | ((s[5] as u64) << 16) | ((s[6] as u64) << 8) | (
    s[7] as u64)
}

pub open spec fn spec_u128_be(x: u128) -> Seq<u8> {
    spec_u64_be(((x >> 64) & 0xffff_ffff_ffff_ffff) as u64) + spec_u64_be(
        (x & 0xffff_ffff_ffff_ffff) as u64,
    )
}

pub open spec fn spec_u128_from_be(s: Seq<u8>) -> u128
    recommends
        s.len() == 16,
{
    ((spec_u64_from_be(s.subrange(0, 8)) as u128) << 64) | (spec_u64_from_be(
        s.subrange(8, 16),
    ) as u128)
}

pub proof fn lemma_u16_be_round_trip(x: u16)
    ensures
        spec_u16_be(x).len() == 2,
        spec_u16_from_be(spec_u16_be(x)) == x,
{
    assert(((x >> 8) & 0xff) < 256 && (x & 0xff) < 256) by (bit_vector);
    assert(x == ((((x >> 8) & 0xff) << 8) | (x & 0xff))) by (bit_vector);
}

pub proof fn lemma_u32_be_round_trip(x: u32)
    ensures
        spec_u32_be(x).len() == 4,
        spec_u32_from_be(spec_u32_be(x)) == x,
{
    assert(((x >> 24) & 0xff) < 256 && ((x >> 16) & 0xff) < 256 && ((x >> 8) & 0xff) < 256 && (
    x & 0xff) < 256) by (bit_vector);
    assert(x == ((((x >> 24) & 0xff) << 24) | (((x >> 16) & 0xff) << 16) | (((x >> 8) & 0xff)
        << 8) | (x & 0xff))) by (bit_vector);
}

pub proof fn lemma_u64_be_round_trip(x: u64)
    ensures
        spec_u64_be(x).len() == 8,
        spec_u64_from_be(spec_u64_be(x)) == x,
{
    assert(((x >> 56) & 0xff) < 256 && ((x >> 48) & 0xff) < 256 && ((x >> 40) & 0xff) < 256 && ((
    x >> 32) & 0xff) < 256 && ((x >> 24) & 0xff) < 256 && ((x >> 16) & 0xff) < 256 && ((x >> 8)
        & 0xff) < 256 && (x & 0xff) < 256) by (bit_vector);
    assert(x == ((((x >> 56) & 0xff) << 56) | (((x >> 48) & 0xff) << 48) | (((x >> 40) & 0xff)
        << 40) | (((x >> 32) & 0xff) << 32) | (((x >> 24) & 0xff) << 24) | (((x >> 16) & 0xff)
        << 16) | (((x >> 8) & 0xff) << 8) | (x & 0xff))) by (bit_vector);
}

pub proof fn lemma_u128_be_round_trip(x: u128)
    ensures
        spec_u128_be(x).len() == 16,
        spec_u128_from_be(spec_u128_be(x)) == x,
{
    let hi = ((x >> 64) & 0xffff_ffff_ffff_ffff) as u64;
    let lo = (x & 0xffff_ffff_ffff_ffff) as u64;
    lemma_u64_be_round_trip(hi);
    lemma_u64_be_round_trip(lo);
    assert(spec_u128_be(x).subrange(0, 8) =~= spec_u64_be(hi));
    assert(spec_u128_be(x).subrange(8, 16) =~= spec_u64_be(lo));
    assert(x == (((hi as u128) << 64) | (lo as u128))) by (bit_vector)
        requires
            hi == ((x >> 64) & 0xffff_ffff_ffff_ffff) as u64 && lo == (
            x & 0xffff_ffff_ffff_ffff) as u64,
    ;
}

// ---------------------------------------------------------------------------
// Spec readers: value plus position just past it, or None when the buffer is
// too short (or, for strings, not valid UTF-8).
// ---------------------------------------------------------------------------

pub open spec fn spec_read_u8(b: Seq<u8>, pos: int) -> Option<(u8, int)> {
    if 0 <= pos && pos + 1 <= b.len() {
        Some((b[pos], pos + 1))
    } else {
        None
    }
}

pub open spec fn spec_read_u16(b: Seq<u8>, pos: int) -> Option<(u16, int)> {
    if 0 <= pos && pos + 2 <= b.len() {
        Some((spec_u16_from_be(b.subrange(pos, pos + 2)), pos + 2))
    } else {
        None
    }
}

pub open spec fn spec_read_u32(b: Seq<u8>, pos: int) -> Option<(u32, int)> {
    if 0 <= pos && pos + 4 <= b.len() {
        Some((spec_u32_from_be(b.subrange(pos, pos + 4)), pos + 4))
    } else {
        None
    }
}

pub open spec fn spec_read_u64(b: Seq<u8>, pos: int) -> Option<(u64, int)> {
    if 0 <= pos && pos + 8 <= b.len() {
        Some((spec_u64_from_be(b.subrange(pos, pos + 8)), pos + 8))
    } else {
        None
    }
}

pub open spec fn spec_read_u128(b: Seq<u8>, pos: int) -> Option<(u128, int)> {
    if 0 <= pos && pos + 16 <= b.len() {
        Some((spec_u128_from_be(b.subrange(pos, pos + 16)), pos + 16))
    } else {
        None
    }
}

// ---------------------------------------------------------------------------
// Exec encoders
// ---------------------------------------------------------------------------

/// Append raw bytes to the buffer.
pub fn push_bytes(buf: &mut Vec<u8>, bytes: &[u8])
    ensures
        final(buf)@ == old(buf)@ + bytes@,
{
    let mut i: usize = 0;
    while i < bytes.len()
        invariant
            i <= bytes@.len(),
            buf@ == old(buf)@ + bytes@.subrange(0, i as int),
        decreases bytes@.len() - i,
    {
        buf.push(bytes[i]);
        i = i + 1;
        assert(buf@ =~= old(buf)@ + bytes@.subrange(0, i as int));
    }
    assert(bytes@.subrange(0, bytes@.len() as int) =~= bytes@);
}

/// Whether two byte runs hold the same bytes.
pub fn bytes_eq(a: &[u8], b: &[u8]) -> (r: bool)
    ensures
        r <==> a@ == b@,
{
    if a.len() != b.len() {
        return false;
    }
    let mut i: usize = 0;
    while i < a.len()
        invariant
            i <= a@.len(),
            a@.len() == b@.len(),
            forall|m: int| 0 <= m < i ==> a@[m] == b@[m],
        decreases a@.len() - i,
    {
        if a[i] != b[i] {
            return false;
        }
        i = i + 1;
    }
    proof {
        assert(a@ =~= b@);
    }
    true
}

pub fn write_u8(buf: &mut Vec<u8>, x: u8)
    ensures
        final(buf)@ == old(buf)@ + seq![x],
{
    buf.push(x);
    assert(buf@ =~= old(buf)@ + seq![x]);
}

pub fn write_u16(buf: &mut Vec<u8>, x: u16)
    ensures
        final(buf)@ == old(buf)@ + spec_u16_be(x),
{
    buf.push(#[verifier::truncate] (((x >> 8) & 0xff) as u8));
    buf.push(#[verifier::truncate] ((x & 0xff) as u8));
    assert(buf@ =~= old(buf)@ + spec_u16_be(x));
}

pub fn write_u32(buf: &mut Vec<u8>, x: u32)
    ensures
        final(buf)@ == old(buf)@ + spec_u32_be(x),
{
    buf.push(#[verifier::truncate] (((x >> 24) & 0xff) as u8));
    buf.push(#[verifier::truncate] (((x >> 16) & 0xff) as u8));
    buf.push(#[verifier::truncate] (((x >> 8) & 0xff) as u8));
    buf.push(#[verifier::truncate] ((x & 0xff) as u8));
    assert(buf@ =~= old(buf)@ + spec_u32_be(x));
}

pub fn write_u64(buf: &mut Vec<u8>, x: u64)
    ensures
        final(buf)@ == old(buf)@ + spec_u64_be(x),
{
    buf.push(#[verifier::truncate] (((x >> 56) & 0xff) as u8));
    buf.push(#[verifier::truncate] (((x >> 48) & 0xff) as u8));
    buf.push(#[verifier::truncate] (((x >> 40) & 0xff) as u8));
    buf.push(#[verifier::truncate] (((x >> 32) & 0xff) as u8));
    buf.push(#[verifier::truncate] (((x >> 24) & 0xff) as u8));
    buf.push(#[verifier::truncate] (((x >> 16) & 0xff) as u8));
    buf.push(#[verifier::truncate] (((x >> 8) & 0xff) as u8));
    buf.push(#[verifier::truncate] ((x & 0xff) as u8));
    assert(buf@ =~= old(buf)@ + spec_u64_be(x));
}

pub fn write_u128(buf: &mut Vec<u8>, x: u128)
    ensures
        final(buf)@ == old(buf)@ + spec_u128_be(x),
{
    let hi: u64 = #[verifier::truncate] (((x >> 64) & 0xffff_ffff_ffff_ffff) as u64);
    let lo: u64 = #[verifier::truncate] ((x & 0xffff_ffff_ffff_ffff) as u64);
    write_u64(buf, hi);
    write_u64(buf, lo);
    assert(buf@ =~= old(buf)@ + spec_u128_be(x));
}

// ---------------------------------------------------------------------------
// Exec decoders
// ---------------------------------------------------------------------------

pub fn read_u8(buf: &[u8], pos: usize) -> (r: Option<(u8, usize)>)
    ensures
        match r {
            Some((x, p)) => spec_read_u8(buf@, pos as int) == Some((x, p as int)),
            None => spec_read_u8(buf@, pos as int) is None,
        },
{
    if pos < buf.len() {
        Some((buf[pos], pos + 1))
    } else {
        None
    }
}

pub fn read_u16(buf: &[u8], pos: usize) -> (r: Option<(u16, usize)>)
    ensures
        match r {
            Some((x, p)) => spec_read_u16(buf@, pos as int) == Some((x, p as int)),
            None => spec_read_u16(buf@, pos as int) is None,
        },
{
    if pos < buf.len() && 2 <= buf.len() - pos {
        let x: u16 = ((buf[pos] as u16) << 8) | (buf[pos + 1] as u16);
        assert(buf@.subrange(pos as int, pos + 2)[0] == buf@[pos as int]);
        assert(buf@.subrange(pos as int, pos + 2)[1] == buf@[pos + 1]);
        Some((x, pos + 2))
    } else {
        None
    }
}

pub fn read_u32(buf: &[u8], pos: usize) -> (r: Option<(u32, usize)>)
    ensures
        match r {
            Some((x, p)) => spec_read_u32(buf@, pos as int) == Some((x, p as int)),
            None => spec_read_u32(buf@, pos as int) is None,
        },
{
    if pos < buf.len() && 4 <= buf.len() - pos {
        let x: u32 = ((buf[pos] as u32) << 24) | ((buf[pos + 1] as u32) << 16) | ((buf[pos
            + 2] as u32) << 8) | (buf[pos + 3] as u32);
        proof {
            let s = buf@.subrange(pos as int, pos + 4);
            assert(s[0] == buf@[pos as int] && s[1] == buf@[pos + 1] && s[2] == buf@[pos + 2]
                && s[3] == buf@[pos + 3]);
        }
        Some((x, pos + 4))
    } else {
        None
    }
}

pub fn read_u64(buf: &[u8], pos: usize) -> (r: Option<(u64, usize)>)
    ensures
        match r {
            Some((x, p)) => spec_read_u64(buf@, pos as int) == Some((x, p as int)),
            None => spec_read_u64(buf@, pos as int) is None,
        },
{
    if pos < buf.len() && 8 <= buf.len() - pos {
        let x: u64 = ((buf[pos] as u64) << 56) | ((buf[pos + 1] as u64) << 48) | ((buf[pos
            + 2] as u64) << 40) | ((buf[pos + 3] as u64) << 32) | ((buf[pos + 4] as u64) << 24)
            | ((buf[pos + 5] as u64) << 16) | ((buf[pos + 6] as u64) << 8) | (buf[pos
            + 7] as u64);
        proof {
            let s = buf@.subrange(pos as int, pos + 8);
            assert(s[0] == buf@[pos as int] && s[1] == buf@[pos + 1] && s[2] == buf@[pos + 2]
                && s[3] == buf@[pos + 3] && s[4] == buf@[pos + 4] && s[5] == buf@[pos + 5]
                && s[6] == buf@[pos + 6] && s[7] == buf@[pos + 7]);
        }
        Some((x, pos + 8))
    } else {
        None
    }
}

pub fn read_u128(buf: &[u8], pos: usize) -> (r: Option<(u128, usize)>)
    ensures
        match r {
            Some((x, p)) => spec_read_u128(buf@, pos as int) == Some((x, p as int)),
            None => spec_read_u128(buf@, pos as int) is None,
        },
{
    if pos < buf.len() && 16 <= buf.len() - pos {
        let hi_r = read_u64(buf, pos);
        let (hi, mid) = hi_r.unwrap();
        let lo_r = read_u64(buf, mid);
        let (lo, end) = lo_r.unwrap();
        let x: u128 = ((hi as u128) << 64) | (lo as u128);
        proof {
            let s = buf@.subrange(pos as int, pos + 16);
            assert(s.subrange(0, 8) =~= buf@.subrange(pos as int, pos + 8));
            assert(s.subrange(8, 16) =~= buf@.subrange(pos + 8, pos + 16));
        }
        Some((x, end))
    } else {
        None
    }
}

// ---------------------------------------------------------------------------
// Raw byte runs (length known from context)
// ---------------------------------------------------------------------------

pub open spec fn spec_read_bytes(b: Seq<u8>, pos: int, n: int) -> Option<(Seq<u8>, int)> {
    if 0 <= pos && 0 <= n && pos + n <= b.len() {
        Some((b.subrange(pos, pos + n), pos + n))
    } else {
        None
    }
}

/// Copy `n` raw bytes starting at `pos` out of the buffer.
pub fn read_bytes(buf: &[u8], pos: usize, n: usize) -> (r: Option<(Vec<u8>, usize)>)
    ensures
        match r {
            Some((v, p)) => spec_read_bytes(buf@, pos as int, n as int) == Some((v@, p as int)),
            None => spec_read_bytes(buf@, pos as int, n as int) is None,
        },
{
    if pos <= buf.len() && n <= buf.len() - pos {
        let end: usize = pos + n;
        let mut v: Vec<u8> = Vec::new();
        let mut j: usize = pos;
        while j < end
            invariant
                pos <= j <= end,
                end == pos + n,
                end <= buf@.len(),
                v@ == buf@.subrange(pos as int, j as int),
            decreases end - j,
        {
            v.push(buf[j]);
            j = j + 1;
            assert(v@ =~= buf@.subrange(pos as int, j as int));
        }
        Some((v, end))
    } else {
        None
    }
}

// ---------------------------------------------------------------------------
// Signed integers: two's complement over the unsigned encodings
// ---------------------------------------------------------------------------

pub open spec fn spec_i8_be(x: i8) -> Seq<u8> {
    seq![x as u8]
}

pub open spec fn spec_i16_be(x: i16) -> Seq<u8> {
    spec_u16_be(x as u16)
}

pub open spec fn spec_i32_be(x: i32) -> Seq<u8> {
    spec_u32_be(x as u32)
}

pub open spec fn spec_i64_be(x: i64) -> Seq<u8> {
    spec_u64_be(x as u64)
}

pub open spec fn spec_i128_be(x: i128) -> Seq<u8> {
    spec_u128_be(x as u128)
}

pub open spec fn spec_read_i8(b: Seq<u8>, pos: int) -> Option<(i8, int)> {
    match spec_read_u8(b, pos) {
        None => None,
        Some((v, p)) => Some((v as i8, p)),
    }
}

pub open spec fn spec_read_i16(b: Seq<u8>, pos: int) -> Option<(i16, int)> {
    match spec_read_u16(b, pos) {
        None => None,
        Some((v, p)) => Some((v as i16, p)),
    }
}

pub open spec fn spec_read_i32(b: Seq<u8>, pos: int) -> Option<(i32, int)> {
    match spec_read_u32(b, pos) {
        None => None,
        Some((v, p)) => Some((v as i32, p)),
    }
}

pub open spec fn spec_read_i64(b: Seq<u8>, pos: int) -> Option<(i64, int)> {
    match spec_read_u64(b, pos) {
        None => None,
        Some((v, p)) => Some((v as i64, p)),
    }
}

pub open spec fn spec_read_i128(b: Seq<u8>, pos: int) -> Option<(i128, int)> {
    match spec_read_u128(b, pos) {
        None => None,
        Some((v, p)) => Some((v as i128, p)),
    }
}

pub fn write_i8(buf: &mut Vec<u8>, x: i8)
    ensures
        final(buf)@ == old(buf)@ + spec_i8_be(x),
{
    write_u8(buf, #[verifier::truncate] (x as u8));
}

pub fn write_i16(buf: &mut Vec<u8>, x: i16)
    ensures
        final(buf)@ == old(buf)@ + spec_i16_be(x),
{
    write_u16(buf, #[verifier::truncate] (x as u16));
}

pub fn write_i32(buf: &mut Vec<u8>, x: i32)
    ensures
        final(buf)@ == old(buf)@ + spec_i32_be(x),
{
    write_u32(buf, #[verifier::truncate] (x as u32));
}

pub fn write_i64(buf: &mut Vec<u8>, x: i64)
    ensures
        final(buf)@ == old(buf)@ + spec_i64_be(x),
{
    write_u64(buf, #[verifier::truncate] (x as u64));
}

pub fn write_i128(buf: &mut Vec<u8>, x: i128)
    ensures
        final(buf)@ == old(buf)@ + spec_i128_be(x),
{
    write_u128(buf, #[verifier::truncate] (x as u128));
}

pub fn read_i8(buf: &[u8], pos: usize) -> (r: Option<(i8, usize)>)
    ensures
        match r {
            Some((x, p)) => spec_read_i8(buf@, pos as int) == Some((x, p as int)),
            None => spec_read_i8(buf@, pos as int) is None,
        },
{
    match read_u8(buf, pos) {
        None => None,
        Some((v, p)) => Some((#[verifier::truncate] (v as i8), p)),
    }
}

pub fn read_i16(buf: &[u8], pos: usize) -> (r: Option<(i16, usize)>)
    ensures
        match r {
            Some((x, p)) => spec_read_i16(buf@, pos as int) == Some((x, p as int)),
            None => spec_read_i16(buf@, pos as int) is None,
        },
{
    match read_u16(buf, pos) {
        None => None,
        Some((v, p)) => Some((#[verifier::truncate] (v as i16), p)),
    }
}

pub fn read_i32(buf: &[u8], pos: usize) -> (r: Option<(i32, usize)>)
    ensures
        match r {
            Some((x, p)) => spec_read_i32(buf@, pos as int) == Some((x, p as int)),
            None => spec_read_i32(buf@, pos as int) is None,
        },
{
    match read_u32(buf, pos) {
        None => None,
        Some((v, p)) => Some((#[verifier::truncate] (v as i32), p)),
    }
}

pub fn read_i64(buf: &[u8], pos: usize) -> (r: Option<(i64, usize)>)
    ensures
        match r {
            Some((x, p)) => spec_read_i64(buf@, pos as int) == Some((x, p as int)),
            None => spec_read_i64(buf@, pos as int) is None,
        },
{
    match read_u64(buf, pos) {
        None => None,
        Some((v, p)) => Some((#[verifier::truncate] (v as i64), p)),
    }
}

pub fn read_i128(buf: &[u8], pos: usize) -> (r: Option<(i128, usize)>)
    ensures
        match r {
            Some((x, p)) => spec_read_i128(buf@, pos as int) == Some((x, p as int)),
            None => spec_read_i128(buf@, pos as int) is None,
        },
{
    match read_u128(buf, pos) {
        None => None,
        Some((v, p)) => Some((#[verifier::truncate] (v as i128), p)),
    }
}

/// Round trip for the signed encodings: reading back a written value at the
/// front of its own bytes yields the value.
pub proof fn lemma_signed_round_trips(a: i8, b: i16, c: i32, d: i64, e: i128)
    ensures
        spec_read_i8(spec_i8_be(a), 0) == Some((a, 1int)),
        spec_read_i16(spec_i16_be(b), 0) == Some((b, 2int)),
        spec_read_i32(spec_i32_be(c), 0) == Some((c, 4int)),
        spec_read_i64(spec_i64_be(d), 0) == Some((d, 8int)),
        spec_read_i128(spec_i128_be(e), 0) == Some((e, 16int)),
{
    assert(((a as u8) as i8) == a) by (bit_vector);
    assert(spec_i8_be(a).subrange(0, 1) =~= spec_i8_be(a));
    assert(spec_i8_be(a)[0] == a as u8);

    lemma_u16_be_round_trip(b as u16);
    assert(spec_i16_be(b).subrange(0, 2) =~= spec_u16_be(b as u16));
    assert(((b as u16) as i16) == b) by (bit_vector);

    lemma_u32_be_round_trip(c as u32);
    assert(spec_i32_be(c).subrange(0, 4) =~= spec_u32_be(c as u32));
    assert(((c as u32) as i32) == c) by (bit_vector);

    lemma_u64_be_round_trip(d as u64);
    assert(spec_i64_be(d).subrange(0, 8) =~= spec_u64_be(d as u64));
    assert(((d as u64) as i64) == d) by (bit_vector);

    lemma_u128_be_round_trip(e as u128);
    assert(spec_i128_be(e).subrange(0, 16) =~= spec_u128_be(e as u128));
    assert(((e as u128) as i128) == e) by (bit_vector);
}

// ---------------------------------------------------------------------------
// Strings: u64 byte length, then UTF-8 bytes
// ---------------------------------------------------------------------------

/// Relies on std's str::from_utf8 (with str::to_owned): it succeeds exactly on
/// valid UTF-8 input and decodes it by the UTF-8 scheme that vstd models.
#[verifier::external_body]
fn bytes_to_string(b: &[u8]) -> (r: Option<String>)
    ensures
        r is Some <==> valid_utf8(b@),
        r is Some ==> r.unwrap()@ == decode_utf8(b@),
{
    match core::str::from_utf8(b) {
        Ok(s) => Some(s.to_owned()),
        Err(_) => None,
    }
}

pub open spec fn spec_write_string(s: Seq<char>) -> Seq<u8> {
    spec_u64_be(encode_utf8(s).len() as u64) + encode_utf8(s)
}

pub open spec fn spec_read_string(b: Seq<u8>, pos: int) -> Option<(Seq<char>, int)> {
    match spec_read_u64(b, pos) {
        None => None,
        Some((len, p)) => {
            if p + len <= b.len() && valid_utf8(b.subrange(p, p + len)) {
                Some((decode_utf8(b.subrange(p, p + len)), p + len))
            } else {
                None
            }
        },
    }
}

/// Write a string: its UTF-8 byte length as a `u64`, then the bytes.
/// Returns how many bytes were written.
pub fn write_string(buf: &mut Vec<u8>, s: &str) -> (n: usize)
    requires
        encode_utf8(s@).len() + 8 <= usize::MAX,
    ensures
        final(buf)@ == old(buf)@ + spec_write_string(s@),
        n == spec_write_string(s@).len(),
{
    let bytes: &[u8] = s.as_bytes();
    write_u64(buf, bytes.len() as u64);
    push_bytes(buf, bytes);
    8 + bytes.len()
}

/// Read a string written by [`write_string`]. Fails with `Truncated` when the
/// buffer ends before the announced length, and with `InvalidData` when the
/// bytes are not valid UTF-8.
pub fn read_string(buf: &[u8], pos: usize) -> (r: Result<(String, usize), WireError>)
    ensures
        match r {
            Ok((s, p)) => spec_read_string(buf@, pos as int) == Some((s@, p as int)),
            Err(_) => spec_read_string(buf@, pos as int) is None,
        },
{
    match read_u64(buf, pos) {
        None => Err(WireError::Truncated),
        Some((len, p)) => {
            if len > (buf.len() - p) as u64 {
                Err(WireError::Truncated)
            } else {
                let n: usize = len as usize;
                match read_bytes(buf, p, n) {
                    None => Err(WireError::Truncated),
                    Some((v, end)) => {
                        match bytes_to_string(v.as_slice()) {
                            Some(s) => Ok((s, end)),
                            None => Err(WireError::InvalidData),
                        }
                    },
                }
            }
        },
    }
}

// ---------------------------------------------------------------------------
// Optional strings: one-byte flag, then the string when the flag is nonzero
// ---------------------------------------------------------------------------

pub open spec fn spec_write_optional_string(o: Option<Seq<char>>) -> Seq<u8> {
    match o {
        None => seq![0u8],
        Some(s) => seq![1u8] + spec_write_string(s),
    }
}

pub open spec fn spec_read_optional_string(b: Seq<u8>, pos: int) -> Option<
    (Option<Seq<char>>, int),
> {
    match spec_read_u8(b, pos) {
        None => None,
        Some((flag, p)) => {
            if flag == 0 {
                Some((None, p))
            } else {
                match spec_read_string(b, p) {
                    None => None,
                    Some((s, p2)) => Some((Some(s), p2)),
                }
            }
        },
    }
}

/// Spec view of an optional string as an optional character sequence.
pub open spec fn opt_str_view(o: Option<String>) -> Option<Seq<char>> {
    match o {
        None => None,
        Some(s) => Some(s@),
    }
}

/// Write an optional string: flag byte 0 (absent) or 1 (present, followed by
/// the string). Returns how many bytes were written.
pub fn write_optional_string(buf: &mut Vec<u8>, s: &Option<String>) -> (n: usize)
    requires
        s is Some ==> encode_utf8(s.unwrap()@).len() + 9 <= usize::MAX,
    ensures
        final(buf)@ == old(buf)@ + spec_write_optional_string(opt_str_view(*s)),
        n == spec_write_optional_string(opt_str_view(*s)).len(),
{
    match s {
        None => {
            write_u8(buf, 0);
            1
        },
        Some(st) => {
            write_u8(buf, 1);
            let m: usize = write_string(buf, st.as_str());
            assert(final(buf)@ =~= old(buf)@ + spec_write_optional_string(opt_str_view(*s)));
            1 + m
        },
    }
}

/// Read an optional string written by [`write_optional_string`]. A zero flag
/// yields `None` without reading any further byte.
pub fn read_optional_string(buf: &[u8], pos: usize) -> (r: Result<
    (Option<String>, usize),
    WireError,
>)
    ensures
        match r {
            Ok((o, p)) => spec_read_optional_string(buf@, pos as int) == Some(
                (opt_str_view(o), p as int),
            ),
            Err(_) => spec_read_optional_string(buf@, pos as int) is None,
        },
{
    match read_u8(buf, pos) {
        None => Err(WireError::Truncated),
        Some((flag, p)) => {
            if flag == 0 {
                Ok((None, p))
            } else {
                match read_string(buf, p) {
                    Ok((s, p2)) => Ok((Some(s), p2)),
                    Err(e) => Err(e),
                }
            }
        },
    }
}

// ---------------------------------------------------------------------------
// 128-bit identifiers, and the optional form
// ---------------------------------------------------------------------------

/// Write a 128-bit identifier as a big-endian `u128` (16 bytes).
pub fn write_uuid(buf: &mut Vec<u8>, id: u128)
    ensures
        final(buf)@ == old(buf)@ + spec_u128_be(id),
{
    write_u128(buf, id);
}

/// Read a 128-bit identifier written by [`write_uuid`].
pub fn read_uuid(buf: &[u8], pos: usize) -> (r: Option<(u128, usize)>)
    ensures
        match r {
            Some((x, p)) => spec_read_u128(buf@, pos as int) == Some((x, p as int)),
            None => spec_read_u128(buf@, pos as int) is None,
        },
{
    read_u128(buf, pos)
}

pub open spec fn spec_write_optional_uuid(o: Option<u128>) -> Seq<u8> {
    match o {
        None => seq![0u8],
        Some(id) => seq![1u8] + spec_u128_be(id),
    }
}

pub open spec fn spec_read_optional_uuid(b: Seq<u8>, pos: int) -> Option<(Option<u128>, int)> {
    match spec_read_u8(b, pos) {
        None => None,
        Some((flag, p)) => {
            if flag == 0 {
                Some((None, p))
            } else {
                match spec_read_u128(b, p) {
                    None => None,
                    Some((id, p2)) => Some((Some(id), p2)),
                }
            }
        },
    }
}

/// Write an optional 128-bit identifier: flag byte, then the identifier when
/// present. Returns how many bytes were written.
pub fn write_optional_uuid(buf: &mut Vec<u8>, id: &Option<u128>) -> (n: usize)
    ensures
        final(buf)@ == old(buf)@ + spec_write_optional_uuid(*id),
        n == spec_write_optional_uuid(*id).len(),
{
    match id {
        None => {
            write_u8(buf, 0);
            1
        },
        Some(x) => {
            write_u8(buf, 1);
            write_uuid(buf, *x);
            assert(final(buf)@ =~= old(buf)@ + spec_write_optional_uuid(*id));
            17
        },
    }
}

/// Read an optional 128-bit identifier written by [`write_optional_uuid`].
pub fn read_optional_uuid(buf: &[u8], pos: usize) -> (r: Option<(Option<u128>, usize)>)
    ensures
        match r {
            Some((o, p)) => spec_read_optional_uuid(buf@, pos as int) == Some((o, p as int)),
            None => spec_read_optional_uuid(buf@, pos as int) is None,
        },
{
    match read_u8(buf, pos) {
        None => None,
        Some((flag, p)) => {
            if flag == 0 {
                Some((None, p))
            } else {
                match read_u128(buf, p) {
                    None => None,
                    Some((id, p2)) => Some((Some(id), p2)),
                }
            }
        },
    }
}

// ---------------------------------------------------------------------------
// Reading back what was written: lemmas used by the packet round trips
// ---------------------------------------------------------------------------

pub proof fn lemma_read_u8_at(b: Seq<u8>, pos: int, x: u8)
    requires
        0 <= pos,
        pos + 1 <= b.len(),
        b[pos] == x,
    ensures
        spec_read_u8(b, pos) == Some((x, pos + 1)),
{
}

pub proof fn lemma_read_u64_at(b: Seq<u8>, pos: int, x: u64)
    requires
        0 <= pos,
        pos + 8 <= b.len(),
        b.subrange(pos, pos + 8) == spec_u64_be(x),
    ensures
        spec_read_u64(b, pos) == Some((x, pos + 8)),
{
    lemma_u64_be_round_trip(x);
}

pub proof fn lemma_read_u128_at(b: Seq<u8>, pos: int, x: u128)
    requires
        0 <= pos,
        pos + 16 <= b.len(),
        b.subrange(pos, pos + 16) == spec_u128_be(x),
    ensures
        spec_read_u128(b, pos) == Some((x, pos + 16)),
{
    lemma_u128_be_round_trip(x);
}

pub proof fn lemma_read_bytes_at(b: Seq<u8>, pos: int, bytes: Seq<u8>)
    requires
        0 <= pos,
        pos + bytes.len() <= b.len(),
        b.subrange(pos, pos + bytes.len()) == bytes,
    ensures
        spec_read_bytes(b, pos, bytes.len() as int) == Some((bytes, pos + bytes.len())),
{
}

pub proof fn lemma_read_string_at(b: Seq<u8>, pos: int, s: Seq<char>)
    requires
        0 <= pos,
        encode_utf8(s).len() <= u64::MAX,
        pos + 8 + encode_utf8(s).len() <= b.len(),
        b.subrange(pos, pos + 8 + encode_utf8(s).len()) == spec_write_string(s),
    ensures
        spec_read_string(b, pos) == Some((s, pos + 8 + encode_utf8(s).len())),
{
    let bytes = encode_utf8(s);
    let l: u64 = bytes.len() as u64;
    let w = spec_write_string(s);
    assert(b.subrange(pos, pos + 8) =~= w.subrange(0, 8));
    assert(w.subrange(0, 8) =~= spec_u64_be(l));
    lemma_read_u64_at(b, pos, l);
    let bl = bytes.len() as int;
    assert(b.subrange(pos + 8, pos + 8 + bl) =~= w.subrange(8, 8 + bl));
    assert(w.subrange(8, 8 + bl) =~= bytes);
    encode_utf8_valid_utf8(s);
    encode_utf8_decode_utf8(s);
}

pub proof fn lemma_read_optional_string_at(b: Seq<u8>, pos: int, o: Option<Seq<char>>)
    requires
        0 <= pos,
        o is Some ==> encode_utf8(o.unwrap()).len() <= u64::MAX,
        pos + spec_write_optional_string(o).len() <= b.len(),
        b.subrange(pos, pos + spec_write_optional_string(o).len()) == spec_write_optional_string(
            o,
        ),
    ensures
        spec_read_optional_string(b, pos) == Some(
            (o, pos + spec_write_optional_string(o).len()),
        ),
{
    let w = spec_write_optional_string(o);
    match o {
        None => {
            assert(b[pos] == w[0]);
            lemma_read_u8_at(b, pos, 0);
        },
        Some(s) => {
            assert(b[pos] == w[0]);
            lemma_read_u8_at(b, pos, 1);
            let wl = spec_write_string(s).len() as int;
            assert(b.subrange(pos + 1, pos + 1 + wl) =~= w.subrange(1, 1 + wl));
            assert(w.subrange(1, 1 + wl) =~= spec_write_string(s));
            lemma_read_string_at(b, pos + 1, s);
        },
    }
}

pub proof fn lemma_read_optional_uuid_at(b: Seq<u8>, pos: int, o: Option<u128>)
    requires
        0 <= pos,
        pos + spec_write_optional_uuid(o).len() <= b.len(),
        b.subrange(pos, pos + spec_write_optional_uuid(o).len()) == spec_write_optional_uuid(o),
    ensures
        spec_read_optional_uuid(b, pos) == Some((o, pos + spec_write_optional_uuid(o).len())),
{
    let w = spec_write_optional_uuid(o);
    match o {
        None => {
            assert(b[pos] == w[0]);
            lemma_read_u8_at(b, pos, 0);
        },
        Some(id) => {
            assert(b[pos] == w[0]);
            lemma_read_u8_at(b, pos, 1);
            assert(b.subrange(pos + 1, pos + 17) =~= w.subrange(1, 17));
            assert(w.subrange(1, 17) =~= spec_u128_be(id));
            lemma_read_u128_at(b, pos + 1, id);
        },
    }
}

} // verus!
