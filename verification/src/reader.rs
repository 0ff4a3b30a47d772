//! A cursor over an in-memory byte buffer, with typed reads.

use crate::endian::{read_u32, read_u64, u32_of_bytes, u64_of_bytes, Endian};
use crate::error::PackageError;
use vstd::prelude::*;
use vstd::slice::slice_subrange;

verus! {

/// `bytes` holds `n` bytes from position `pos` on.
pub open spec fn has_bytes(bytes: Seq<u8>, pos: int, n: int) -> bool {
    0 <= pos && 0 <= n && pos + n <= bytes.len()
}

/// The 32-bit integer laid out at position `pos` of `bytes`.
pub open spec fn u32_at(bytes: Seq<u8>, pos: int, order: Endian) -> u32 {
    u32_of_bytes(bytes.subrange(pos, pos + 4), order)
}

/// The 64-bit integer laid out at position `pos` of `bytes`.
pub open spec fn u64_at(bytes: Seq<u8>, pos: int, order: Endian) -> u64 {
    u64_of_bytes(bytes.subrange(pos, pos + 8), order)
}

/// The signed number that a 32-bit pattern stands for in two's complement.
pub open spec fn i32_of_u32(v: u32) -> i32 {
    if v < 0x8000_0000 {
        v as i32
    } else {
        (v - 0x1_0000_0000) as i32
    }
}

/// The signed 32-bit integer laid out at position `pos` of `bytes`.
pub open spec fn i32_at(bytes: Seq<u8>, pos: int, order: Endian) -> i32 {
    i32_of_u32(u32_at(bytes, pos, order))
}

/// A read cursor over a byte buffer.
///
/// The position may lie beyond the end of the buffer; a read there fails.
pub struct ByteReader {
    /// The bytes to read from.
    pub data: Vec<u8>,
    /// The position of the next read, counted from the start of `data`.
    pub pos: u64,
}

impl ByteReader {
    /// A cursor at the start of `data`.
    pub fn new(data: Vec<u8>) -> (reader: ByteReader)
        ensures
            reader.data == data,
            reader.pos == 0,
    {
        ByteReader { data, pos: 0 }
    }

    /// The position of the next read.
    pub fn stream_position(&self) -> (pos: u64)
        ensures
            pos == self.pos,
    {
        self.pos
    }

    /// Moves the cursor to `pos`, counted from the start of the buffer.
    pub fn seek(&mut self, pos: u64)
        ensures
            final(self).data == old(self).data,
            final(self).pos == pos,
    {
        self.pos = pos;
    }

    /// Whether `n` bytes can be read at the cursor.
    pub fn has_remaining(&self, n: u64) -> (b: bool)
        ensures
            b == has_bytes(self.data@, self.pos as int, n as int),
    {
        let len: u64 = self.data.len() as u64;
        self.pos <= len && n <= len - self.pos
    }

    /// Reads a 32-bit integer that is known to be there, and moves past it.
    pub(crate) fn get_u32(&mut self, order: Endian) -> (v: u32)
        requires
            has_bytes(old(self).data@, old(self).pos as int, 4),
        ensures
            final(self).data == old(self).data,
            v == u32_at(old(self).data@, old(self).pos as int, order),
            final(self).pos == old(self).pos + 4,
    {
        assert(self.data.len() == self.data@.len());
        let start: usize = self.pos as usize;
        let v: u32 = read_u32(slice_subrange(self.data.as_slice(), start, start + 4), order);
        self.pos = self.pos + 4;
        v
    }

    /// Reads a 64-bit integer that is known to be there, and moves past it.
    pub(crate) fn get_u64(&mut self, order: Endian) -> (v: u64)
        requires
            has_bytes(old(self).data@, old(self).pos as int, 8),
        ensures
            final(self).data == old(self).data,
            v == u64_at(old(self).data@, old(self).pos as int, order),
            final(self).pos == old(self).pos + 8,
    {
        assert(self.data.len() == self.data@.len());
        let start: usize = self.pos as usize;
        let v: u64 = read_u64(slice_subrange(self.data.as_slice(), start, start + 8), order);
        self.pos = self.pos + 8;
        v
    }

    /// Reads a signed 32-bit integer that is known to be there, and moves
    /// past it.
    pub(crate) fn get_i32(&mut self, order: Endian) -> (v: i32)
        requires
            has_bytes(old(self).data@, old(self).pos as int, 4),
        ensures
            final(self).data == old(self).data,
            v == i32_at(old(self).data@, old(self).pos as int, order),
            final(self).pos == old(self).pos + 4,
    {
        signed_of_u32(self.get_u32(order))
    }

    /// Reads a 32-bit integer and moves past it.
    ///
    /// Fails, and leaves the cursor where it is, if fewer than four bytes
    /// are left.
    pub fn read_u32(&mut self, order: Endian) -> (r: Result<u32, PackageError>)
        ensures
            final(self).data == old(self).data,
            match r {
                Ok(v) => {
                    &&& has_bytes(old(self).data@, old(self).pos as int, 4)
                    &&& v == u32_at(old(self).data@, old(self).pos as int, order)
                    &&& final(self).pos == old(self).pos + 4
                },
                Err(e) => {
                    &&& e == PackageError::UnexpectedEof
                    &&& !has_bytes(old(self).data@, old(self).pos as int, 4)
                    &&& final(self).pos == old(self).pos
                },
            },
    {
        if !self.has_remaining(4) {
            return Err(PackageError::UnexpectedEof);
        }
        Ok(self.get_u32(order))
    }

    /// Reads a 64-bit integer and moves past it.
    ///
    /// Fails, and leaves the cursor where it is, if fewer than eight bytes
    /// are left.
    pub fn read_u64(&mut self, order: Endian) -> (r: Result<u64, PackageError>)
        ensures
            final(self).data == old(self).data,
            match r {
                Ok(v) => {
                    &&& has_bytes(old(self).data@, old(self).pos as int, 8)
                    &&& v == u64_at(old(self).data@, old(self).pos as int, order)
                    &&& final(self).pos == old(self).pos + 8
                },
                Err(e) => {
                    &&& e == PackageError::UnexpectedEof
                    &&& !has_bytes(old(self).data@, old(self).pos as int, 8)
                    &&& final(self).pos == old(self).pos
                },
            },
    {
        if !self.has_remaining(8) {
            return Err(PackageError::UnexpectedEof);
        }
        Ok(self.get_u64(order))
    }

    /// Reads a signed 32-bit integer in two's complement and moves past it.
    ///
    /// Fails, and leaves the cursor where it is, if fewer than four bytes
    /// are left.
    pub fn read_i32(&mut self, order: Endian) -> (r: Result<i32, PackageError>)
        ensures
            final(self).data == old(self).data,
            match r {
                Ok(v) => {
                    &&& has_bytes(old(self).data@, old(self).pos as int, 4)
                    &&& v == i32_at(old(self).data@, old(self).pos as int, order)
                    &&& final(self).pos == old(self).pos + 4
                },
                Err(e) => {
                    &&& e == PackageError::UnexpectedEof
                    &&& !has_bytes(old(self).data@, old(self).pos as int, 4)
                    &&& final(self).pos == old(self).pos
                },
            },
    {
        match self.read_u32(order) {
            Ok(v) => Ok(signed_of_u32(v)),
            Err(e) => Err(e),
        }
    }
}

/// Reinterprets a 32-bit pattern as a signed number.
pub fn signed_of_u32(v: u32) -> (s: i32)
    ensures
        s == i32_of_u32(v),
{
    if v < 0x8000_0000 {
        v as i32
    } else {
        let low: i32 = (v - 0x8000_0000) as i32;
        low + i32::MIN
    }
}

} // verus!
