//! Byte orders and the fixed-width integer layouts they define.

use byteorder::{BigEndian, ByteOrder, LittleEndian};
use vstd::prelude::*;

verus! {

/// The order in which the bytes of a multi-byte integer are laid out.
#[derive(Clone, Copy, Debug, PartialEq, Eq, Structural)]
pub enum Endian {
    /// Least significant byte first.
    Little,
    /// Most significant byte first.
    Big,
}

/// The two bytes of `v`, least significant first.
pub open spec fn le_bytes_u16(v: u16) -> Seq<u8> {
    seq![(v % 0x100) as u8, (v / 0x100) as u8]
}

/// The four bytes of `v`, least significant first.
pub open spec fn le_bytes_u32(v: u32) -> Seq<u8> {
    seq![
        (v % 0x100) as u8,
        (v / 0x100 % 0x100) as u8,
        (v / 0x1_0000 % 0x100) as u8,
        (v / 0x100_0000) as u8,
    ]
}

/// The eight bytes of `v`, least significant first.
pub open spec fn le_bytes_u64(v: u64) -> Seq<u8> {
    seq![
        (v % 0x100) as u8,
        (v / 0x100 % 0x100) as u8,
        (v / 0x1_0000 % 0x100) as u8,
        (v / 0x100_0000 % 0x100) as u8,
        (v / 0x1_0000_0000 % 0x100) as u8,
        (v / 0x100_0000_0000 % 0x100) as u8,
        (v / 0x1_0000_0000_0000 % 0x100) as u8,
        (v / 0x100_0000_0000_0000) as u8,
    ]
}

/// The number whose little-endian layout is the first four bytes of `b`.
pub open spec fn le_value_u32(b: Seq<u8>) -> u32 {
    (b[0] + b[1] * 0x100 + b[2] * 0x1_0000 + b[3] * 0x100_0000) as u32
}

/// The number whose little-endian layout is the first eight bytes of `b`.
pub open spec fn le_value_u64(b: Seq<u8>) -> u64 {
    (b[0] + b[1] * 0x100 + b[2] * 0x1_0000 + b[3] * 0x100_0000 + b[4] * 0x1_0000_0000 + b[5]
        * 0x100_0000_0000 + b[6] * 0x1_0000_0000_0000 + b[7] * 0x100_0000_0000_0000) as u64
}

/// The layout of a 16-bit integer in the given byte order.
pub open spec fn bytes_of_u16(v: u16, order: Endian) -> Seq<u8> {
    match order {
        Endian::Little => le_bytes_u16(v),
        Endian::Big => le_bytes_u16(v).reverse(),
    }
}

/// The layout of a 32-bit integer in the given byte order.
pub open spec fn bytes_of_u32(v: u32, order: Endian) -> Seq<u8> {
    match order {
        Endian::Little => le_bytes_u32(v),
        Endian::Big => le_bytes_u32(v).reverse(),
    }
}

/// The layout of a 64-bit integer in the given byte order.
pub open spec fn bytes_of_u64(v: u64, order: Endian) -> Seq<u8> {
    match order {
        Endian::Little => le_bytes_u64(v),
        Endian::Big => le_bytes_u64(v).reverse(),
    }
}

/// The 32-bit integer laid out in the first four bytes of `b`.
pub open spec fn u32_of_bytes(b: Seq<u8>, order: Endian) -> u32 {
    match order {
        Endian::Little => le_value_u32(b.subrange(0, 4)),
        Endian::Big => le_value_u32(b.subrange(0, 4).reverse()),
    }
}

/// The 64-bit integer laid out in the first eight bytes of `b`.
pub open spec fn u64_of_bytes(b: Seq<u8>, order: Endian) -> u64 {
    match order {
        Endian::Little => le_value_u64(b.subrange(0, 8)),
        Endian::Big => le_value_u64(b.subrange(0, 8).reverse()),
    }
}

/// Calls `byteorder::LittleEndian::read_u32`, which reads the first four
/// bytes of the slice as a little-endian number and panics on a shorter one.
#[verifier::external_body]
fn read_u32_le(buf: &[u8]) -> (v: u32)
    requires
        buf@.len() >= 4,
    ensures
        v == u32_of_bytes(buf@, Endian::Little),
{
    LittleEndian::read_u32(buf)
}

/// Calls `byteorder::BigEndian::read_u32`, which reads the first four bytes
/// of the slice as a big-endian number and panics on a shorter one.
#[verifier::external_body]
fn read_u32_be(buf: &[u8]) -> (v: u32)
    requires
        buf@.len() >= 4,
    ensures
        v == u32_of_bytes(buf@, Endian::Big),
{
    BigEndian::read_u32(buf)
}

/// Reads a 32-bit integer from the first four bytes of `buf`.
pub(crate) fn read_u32(buf: &[u8], order: Endian) -> (v: u32)
    requires
        buf@.len() >= 4,
    ensures
        v == u32_of_bytes(buf@, order),
{
    match order {
        Endian::Little => read_u32_le(buf),
        Endian::Big => read_u32_be(buf),
    }
}

/// Decoding undoes encoding, for 32-bit integers in either byte order.
pub proof fn lemma_u32_round_trip(v: u32, order: Endian)
    ensures
        bytes_of_u32(v, order).len() == 4,
        u32_of_bytes(bytes_of_u32(v, order), order) == v,
{
    let b = le_bytes_u32(v);
    assert(b.subrange(0, 4) =~= b);
    assert(b.reverse().subrange(0, 4) =~= b.reverse());
    assert(b.reverse().reverse() =~= b);
}

/// Calls `byteorder::LittleEndian::read_u64`, which reads the first eight
/// bytes of the slice as a little-endian number and panics on a shorter one.
#[verifier::external_body]
fn read_u64_le(buf: &[u8]) -> (v: u64)
    requires
        buf@.len() >= 8,
    ensures
        v == u64_of_bytes(buf@, Endian::Little),
{
    LittleEndian::read_u64(buf)
}

/// Calls `byteorder::BigEndian::read_u64`, which reads the first eight bytes
/// of the slice as a big-endian number and panics on a shorter one.
#[verifier::external_body]
fn read_u64_be(buf: &[u8]) -> (v: u64)
    requires
        buf@.len() >= 8,
    ensures
        v == u64_of_bytes(buf@, Endian::Big),
{
    BigEndian::read_u64(buf)
}

/// Reads a 64-bit integer from the first eight bytes of `buf`.
pub(crate) fn read_u64(buf: &[u8], order: Endian) -> (v: u64)
    requires
        buf@.len() >= 8,
    ensures
        v == u64_of_bytes(buf@, order),
{
    match order {
        Endian::Little => read_u64_le(buf),
        Endian::Big => read_u64_be(buf),
    }
}

/// Decoding undoes encoding, for 64-bit integers in either byte order.
pub proof fn lemma_u64_round_trip(v: u64, order: Endian)
    ensures
        bytes_of_u64(v, order).len() == 8,
        u64_of_bytes(bytes_of_u64(v, order), order) == v,
{
    let b = le_bytes_u64(v);
    assert(v % 0x100 + (v / 0x100 % 0x100) * 0x100 + (v / 0x1_0000 % 0x100) * 0x1_0000 + (v
        / 0x100_0000 % 0x100) * 0x100_0000 + (v / 0x1_0000_0000 % 0x100) * 0x1_0000_0000 + (v
        / 0x100_0000_0000 % 0x100) * 0x100_0000_0000 + (v / 0x1_0000_0000_0000 % 0x100)
        * 0x1_0000_0000_0000 + (v / 0x100_0000_0000_0000) * 0x100_0000_0000_0000 == v)
        by (bit_vector);
    assert(le_value_u64(b) == v);
    assert(b.subrange(0, 8) =~= b);
    assert(b.reverse().subrange(0, 8) =~= b.reverse());
    assert(b.reverse().reverse() =~= b);
}

/// Calls `byteorder::LittleEndian::write_u32` on a four-byte array, which
/// it fills with the little-endian layout of `v`.
#[verifier::external_body]
fn write_u32_le(v: u32) -> (out: [u8; 4])
    ensures
        out@ == bytes_of_u32(v, Endian::Little),
{
    let mut out = [0u8; 4];
    LittleEndian::write_u32(&mut out, v);
    out
}

/// Calls `byteorder::BigEndian::write_u32` on a four-byte array, which it
/// fills with the big-endian layout of `v`.
#[verifier::external_body]
fn write_u32_be(v: u32) -> (out: [u8; 4])
    ensures
        out@ == bytes_of_u32(v, Endian::Big),
{
    let mut out = [0u8; 4];
    BigEndian::write_u32(&mut out, v);
    out
}

/// Calls `byteorder::LittleEndian::write_u64` on an eight-byte array, which
/// it fills with the little-endian layout of `v`.
#[verifier::external_body]
fn write_u64_le(v: u64) -> (out: [u8; 8])
    ensures
        out@ == bytes_of_u64(v, Endian::Little),
{
    let mut out = [0u8; 8];
    LittleEndian::write_u64(&mut out, v);
    out
}

/// Calls `byteorder::BigEndian::write_u64` on an eight-byte array, which it
/// fills with the big-endian layout of `v`.
#[verifier::external_body]
fn write_u64_be(v: u64) -> (out: [u8; 8])
    ensures
        out@ == bytes_of_u64(v, Endian::Big),
{
    let mut out = [0u8; 8];
    BigEndian::write_u64(&mut out, v);
    out
}

/// The four bytes of `v` in the given byte order.
pub fn u32_to_bytes(v: u32, order: Endian) -> (out: [u8; 4])
    ensures
        out@ == bytes_of_u32(v, order),
{
    match order {
        Endian::Little => write_u32_le(v),
        Endian::Big => write_u32_be(v),
    }
}

/// The eight bytes of `v` in the given byte order.
pub fn u64_to_bytes(v: u64, order: Endian) -> (out: [u8; 8])
    ensures
        out@ == bytes_of_u64(v, order),
{
    match order {
        Endian::Little => write_u64_le(v),
        Endian::Big => write_u64_be(v),
    }
}

/// The layout of a 32-bit integer takes four bytes.
pub proof fn lemma_u32_layout_len(v: u32, order: Endian)
    ensures
        bytes_of_u32(v, order).len() == 4,
{
}

/// The layout of a 64-bit integer takes eight bytes.
pub proof fn lemma_u64_layout_len(v: u64, order: Endian)
    ensures
        bytes_of_u64(v, order).len() == 8,
{
}

} // verus!
