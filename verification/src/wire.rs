//! Little-endian integer fields: what they are as bytes, and how they are
//! read from a byte slice and appended to a byte vector.
//!
//! Every multi-byte integer of the protocol is little-endian. The spec
//! functions below fix that layout in plain arithmetic; the readers and
//! writers hand the byte shuffling to the `byteorder` crate.

use byteorder::{LittleEndian, ReadBytesExt, WriteBytesExt};
use vstd::prelude::*;

verus! {

/// `std::io::Error`, carried through as an opaque value.
#[verifier::external_type_specification]
#[verifier::external_body]
pub struct ExIoError(std::io::Error);

/// The `u16` whose little-endian bytes are `b0`, `b1`.
pub open spec fn u16_le(b0: u8, b1: u8) -> u16 {
    (b0 as int + 256 * (b1 as int)) as u16
}

/// The `u32` whose little-endian bytes are `b0` to `b3`.
pub open spec fn u32_le(b0: u8, b1: u8, b2: u8, b3: u8) -> u32 {
    (b0 as int + 256 * (b1 as int) + 65536 * (b2 as int) + 16777216 * (b3 as int)) as u32
}

/// The `i16` whose little-endian two's complement bytes are `b0`, `b1`.
pub open spec fn i16_le(b0: u8, b1: u8) -> i16 {
    if (b1 as int) < 128 {
        (b0 as int + 256 * (b1 as int)) as i16
    } else {
        (b0 as int + 256 * (b1 as int) - 65536) as i16
    }
}

/// The two bytes that carry `v`, low byte first.
pub open spec fn u16_bytes(v: u16) -> Seq<u8> {
    seq![(v as int % 256) as u8, (v as int / 256) as u8]
}

/// The four bytes that carry `v`, low byte first.
pub open spec fn u32_bytes(v: u32) -> Seq<u8> {
    seq![
        (v as int % 256) as u8,
        (v as int / 256 % 256) as u8,
        (v as int / 65536 % 256) as u8,
        (v as int / 16777216) as u8,
    ]
}

/// The two bytes that carry `v` in two's complement, low byte first.
pub open spec fn i16_bytes(v: i16) -> Seq<u8> {
    if v >= 0 {
        u16_bytes(v as u16)
    } else {
        u16_bytes((v as int + 65536) as u16)
    }
}

/// Reading back the bytes of a `u16` gives the same `u16`.
pub proof fn lemma_u16_bytes_le(v: u16)
    ensures
        u16_bytes(v).len() == 2,
        u16_le(u16_bytes(v)[0], u16_bytes(v)[1]) == v,
{
}

/// Reading back the bytes of a `u32` gives the same `u32`.
pub proof fn lemma_u32_bytes_le(v: u32)
    ensures
        u32_bytes(v).len() == 4,
        u32_le(u32_bytes(v)[0], u32_bytes(v)[1], u32_bytes(v)[2], u32_bytes(v)[3]) == v,
{
}

/// Reading back the bytes of an `i16` gives the same `i16`.
pub proof fn lemma_i16_bytes_le(v: i16)
    ensures
        i16_bytes(v).len() == 2,
        i16_le(i16_bytes(v)[0], i16_bytes(v)[1]) == v,
{
}

/// Masking twice with the same mask is masking once, and masking nothing
/// gives nothing.
pub proof fn lemma_mask_u16(x: u16, m: u16)
    by (bit_vector)
    ensures
        (x & m) & m == x & m,
        0u16 & m == 0u16,
{
}

/// Masking twice with the same mask is masking once, and masking nothing
/// gives nothing.
pub proof fn lemma_mask_u32(x: u32, m: u32)
    by (bit_vector)
    ensures
        (x & m) & m == x & m,
        0u32 & m == 0u32,
{
}

/// `byteorder::ReadBytesExt::read_u16::<LittleEndian>` on a byte slice.
///
/// The call fills a two-byte buffer with `read_exact` and combines it low
/// byte first. On a slice, `read_exact` succeeds exactly when enough bytes
/// are left, and then moves the slice past what it copied. A slice that is
/// read from only ever loses bytes at its front, so whatever the outcome
/// `stream` ends as a suffix of what it was; after a failure no more than
/// that is claimed of it.
#[verifier::external_body]
pub(crate) fn read_u16_le(stream: &mut &[u8]) -> (r: Result<u16, std::io::Error>)
    ensures
        r is Ok <==> old(stream)@.len() >= 2,
        r is Ok ==> r->Ok_0 == u16_le(old(stream)@[0], old(stream)@[1]),
        r is Ok ==> final(stream)@ == old(stream)@.skip(2),
        final(stream)@.is_suffix_of(old(stream)@),
{
    stream.read_u16::<LittleEndian>()
}

/// `byteorder::ReadBytesExt::read_i16::<LittleEndian>` on a byte slice.
///
/// As for the unsigned read, with the two bytes taken as two's complement.
#[verifier::external_body]
pub(crate) fn read_i16_le(stream: &mut &[u8]) -> (r: Result<i16, std::io::Error>)
    ensures
        r is Ok <==> old(stream)@.len() >= 2,
        r is Ok ==> r->Ok_0 == i16_le(old(stream)@[0], old(stream)@[1]),
        r is Ok ==> final(stream)@ == old(stream)@.skip(2),
        final(stream)@.is_suffix_of(old(stream)@),
{
    stream.read_i16::<LittleEndian>()
}

/// `byteorder::ReadBytesExt::read_u32::<LittleEndian>` on a byte slice.
///
/// As for the 16-bit read, with four bytes.
#[verifier::external_body]
pub(crate) fn read_u32_le(stream: &mut &[u8]) -> (r: Result<u32, std::io::Error>)
    ensures
        r is Ok <==> old(stream)@.len() >= 4,
        r is Ok ==> r->Ok_0 == u32_le(
            old(stream)@[0],
            old(stream)@[1],
            old(stream)@[2],
            old(stream)@[3],
        ),
        r is Ok ==> final(stream)@ == old(stream)@.skip(4),
        final(stream)@.is_suffix_of(old(stream)@),
{
    stream.read_u32::<LittleEndian>()
}

/// `byteorder::WriteBytesExt::write_u16::<LittleEndian>` on a byte vector.
///
/// The call lays `value` out low byte first and hands the two bytes to
/// `write_all`. A vector takes a write by appending and growing, so the call
/// reports no error.
#[verifier::external_body]
pub(crate) fn write_u16_le(stream: &mut Vec<u8>, value: u16) -> (r: Result<(), std::io::Error>)
    ensures
        r is Ok,
        final(stream)@ == old(stream)@ + u16_bytes(value),
{
    stream.write_u16::<LittleEndian>(value)
}

/// `byteorder::WriteBytesExt::write_i16::<LittleEndian>` on a byte vector.
///
/// As for the unsigned write, with `value` in two's complement.
#[verifier::external_body]
pub(crate) fn write_i16_le(stream: &mut Vec<u8>, value: i16) -> (r: Result<(), std::io::Error>)
    ensures
        r is Ok,
        final(stream)@ == old(stream)@ + i16_bytes(value),
{
    stream.write_i16::<LittleEndian>(value)
}

/// `byteorder::WriteBytesExt::write_u32::<LittleEndian>` on a byte vector.
///
/// As for the 16-bit write, with four bytes.
#[verifier::external_body]
pub(crate) fn write_u32_le(stream: &mut Vec<u8>, value: u32) -> (r: Result<(), std::io::Error>)
    ensures
        r is Ok,
        final(stream)@ == old(stream)@ + u32_bytes(value),
{
    stream.write_u32::<LittleEndian>(value)
}

} // verus!
