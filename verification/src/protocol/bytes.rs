//! Little-endian integer codecs and saturating clamps, as used by the packed device structs.
use vstd::prelude::*;

verus! {

/// `v` limited to the closed range `[lo, hi]`.
pub open spec fn clamp(v: int, lo: int, hi: int) -> int {
    if v < lo {
        lo
    } else if v > hi {
        hi
    } else {
        v
    }
}

/// Limits `v` to `[lo, hi]`.
pub fn clamp_i64(v: i64, lo: i64, hi: i64) -> (r: i64)
    requires
        lo <= hi,
    ensures
        r == clamp(v as int, lo as int, hi as int),
        lo <= r <= hi,
{
    if v < lo {
        lo
    } else if v > hi {
        hi
    } else {
        v
    }
}

/// Limits `v` to `[lo, hi]`.
pub fn clamp_i16(v: i16, lo: i16, hi: i16) -> (r: i16)
    requires
        lo <= hi,
    ensures
        r == clamp(v as int, lo as int, hi as int),
        lo <= r <= hi,
{
    if v < lo {
        lo
    } else if v > hi {
        hi
    } else {
        v
    }
}

/// The byte `b` read as a two's-complement `i8`.
pub open spec fn byte_as_i8(b: u8) -> i8 {
    if b < 128 {
        b as i8
    } else {
        (b - 256) as i8
    }
}

/// The two's-complement byte of `v`.
pub open spec fn i8_as_byte(v: i8) -> u8 {
    if v >= 0 {
        v as u8
    } else {
        (v + 256) as u8
    }
}

/// The little-endian `u16` stored at `b[at]`, `b[at + 1]`.
pub open spec fn le_u16(b: Seq<u8>, at: int) -> u16 {
    (b[at] + 256 * b[at + 1]) as u16
}

/// The little-endian two's-complement `i16` stored at `b[at]`, `b[at + 1]`.
pub open spec fn le_i16(b: Seq<u8>, at: int) -> i16 {
    let u = le_u16(b, at);
    if u < 32768 {
        u as i16
    } else {
        (u - 65536) as i16
    }
}

/// The little-endian `u32` stored at `b[at]` .. `b[at + 3]`.
pub open spec fn le_u32(b: Seq<u8>, at: int) -> u32 {
    (b[at] + 256 * b[at + 1] + 65536 * b[at + 2] + 16777216 * b[at + 3]) as u32
}

/// The two little-endian bytes of `v`.
pub open spec fn u16_le_bytes(v: u16) -> Seq<u8> {
    seq![(v % 256) as u8, (v / 256) as u8]
}

/// The two little-endian two's-complement bytes of `v`.
pub open spec fn i16_le_bytes(v: i16) -> Seq<u8> {
    if v >= 0 {
        u16_le_bytes(v as u16)
    } else {
        u16_le_bytes((v + 65536) as u16)
    }
}

/// The four little-endian bytes of `v`.
pub open spec fn u32_le_bytes(v: u32) -> Seq<u8> {
    seq![(v % 256) as u8, ((v / 256) % 256) as u8, ((v / 65536) % 256) as u8, (v / 16777216) as u8]
}

/// The four little-endian two's-complement bytes of `v`.
pub open spec fn i32_le_bytes(v: i32) -> Seq<u8> {
    if v >= 0 {
        u32_le_bytes(v as u32)
    } else {
        u32_le_bytes((v + 0x1_0000_0000) as u32)
    }
}

/// Reinterprets a byte as an `i8`.
pub fn byte_to_i8(b: u8) -> (r: i8)
    ensures
        r == byte_as_i8(b),
{
    if b < 128 {
        b as i8
    } else {
        (b as i16 - 256) as i8
    }
}

/// The two's-complement byte of an `i8`.
pub fn i8_to_byte(v: i8) -> (r: u8)
    ensures
        r == i8_as_byte(v),
{
    if v >= 0 {
        v as u8
    } else {
        (v as i16 + 256) as u8
    }
}

/// Decodes the little-endian `u16` at `b[at]`.
pub fn read_le_u16(b: &[u8], at: usize) -> (r: u16)
    requires
        at + 2 <= b@.len(),
    ensures
        r == le_u16(b@, at as int),
{
    b[at] as u16 + 256 * (b[at + 1] as u16)
}

/// Decodes the little-endian `i16` at `b[at]`.
pub fn read_le_i16(b: &[u8], at: usize) -> (r: i16)
    requires
        at + 2 <= b@.len(),
    ensures
        r == le_i16(b@, at as int),
{
    let u = read_le_u16(b, at);
    if u < 32768 {
        u as i16
    } else {
        (u as i32 - 65536) as i16
    }
}

/// Decodes the little-endian `u32` at `b[at]`.
pub fn read_le_u32(b: &[u8], at: usize) -> (r: u32)
    requires
        at + 4 <= b@.len(),
    ensures
        r == le_u32(b@, at as int),
{
    b[at] as u32 + 256 * (b[at + 1] as u32) + 65536 * (b[at + 2] as u32) + 16777216 * (
    b[at + 3] as u32)
}

/// The little-endian bytes of a `u16`.
pub fn u16_to_le(v: u16) -> (r: [u8; 2])
    ensures
        r@ == u16_le_bytes(v),
{
    let r = [(v % 256) as u8, (v / 256) as u8];
    assert(r@ =~= u16_le_bytes(v));
    r
}

/// The little-endian two's-complement bytes of an `i16`.
pub fn i16_to_le(v: i16) -> (r: [u8; 2])
    ensures
        r@ == i16_le_bytes(v),
{
    if v >= 0 {
        u16_to_le(v as u16)
    } else {
        u16_to_le((v as i32 + 65536) as u16)
    }
}

/// The little-endian bytes of a `u32`.
pub fn u32_to_le(v: u32) -> (r: [u8; 4])
    ensures
        r@ == u32_le_bytes(v),
{
    let r = [(v % 256) as u8, ((v / 256) % 256) as u8, ((v / 65536) % 256) as u8, (v / 16777216) as u8];
    assert(r@ =~= u32_le_bytes(v));
    r
}

/// The little-endian two's-complement bytes of an `i32`.
pub fn i32_to_le(v: i32) -> (r: [u8; 4])
    ensures
        r@ == i32_le_bytes(v),
{
    if v >= 0 {
        u32_to_le(v as u32)
    } else {
        u32_to_le((v as i64 + 0x1_0000_0000) as u32)
    }
}

/// Decoding the bytes of an encoded `u16` gives the value back.
pub proof fn lemma_u16_round_trip(v: u16)
    ensures
        le_u16(u16_le_bytes(v), 0) == v,
{
}

/// Decoding the bytes of an encoded `i16` gives the value back.
pub proof fn lemma_i16_round_trip(v: i16)
    ensures
        le_i16(i16_le_bytes(v), 0) == v,
{
}

/// Decoding the bytes of an encoded `u32` gives the value back.
pub proof fn lemma_u32_round_trip(v: u32)
    ensures
        le_u32(u32_le_bytes(v), 0) == v,
{
}

/// Reading a byte as `i8` undoes writing an `i8` as a byte.
pub proof fn lemma_i8_round_trip(v: i8)
    ensures
        byte_as_i8(i8_as_byte(v)) == v,
{
}

/// What the little-endian bytes mean: the unsigned encodings are the base-256 digits of the
/// value, least significant first; the signed ones are those of the value modulo 2^16 (or 2^8);
/// the decoders read the digits back, subtracting 2^16 (or 2^8) when the top bit is set.
pub proof fn lemma_byte_order_meaning(v16: u16, s16: i16, v32: u32, s8: i8, b: Seq<u8>, at: int)
    ensures
        u16_le_bytes(v16).len() == 2,
        u16_le_bytes(v16)[0] + 256 * u16_le_bytes(v16)[1] == v16,
        i16_le_bytes(s16).len() == 2,
        i16_le_bytes(s16)[0] + 256 * i16_le_bytes(s16)[1] == (if s16 >= 0 {
            s16 as int
        } else {
            s16 + 65536int
        }),
        u32_le_bytes(v32).len() == 4,
        u32_le_bytes(v32)[0] + 256 * u32_le_bytes(v32)[1] + 65536 * u32_le_bytes(v32)[2]
            + 16777216 * u32_le_bytes(v32)[3] == v32,
        i8_as_byte(s8) == (if s8 >= 0 {
            s8 as int
        } else {
            s8 + 256int
        }),
        0 <= at && at + 4 <= b.len() ==> {
            &&& le_u16(b, at) == b[at] + 256 * b[at + 1]
            &&& le_i16(b, at) == b[at] + 256 * b[at + 1] - (if b[at + 1] >= 128 {
                65536int
            } else {
                0
            })
            &&& le_u32(b, at) == b[at] + 256 * b[at + 1] + 65536 * b[at + 2] + 16777216 * b[at + 3]
            &&& byte_as_i8(b[at]) == b[at] - (if b[at] >= 128 {
                256int
            } else {
                0
            })
        },
{
}

} // verus!
