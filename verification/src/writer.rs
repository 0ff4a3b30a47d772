//! A cursor over a growable in-memory byte buffer, with typed writes.

use crate::endian::{bytes_of_u32, bytes_of_u64, u32_to_bytes, u64_to_bytes, Endian};
use crate::error::PackageError;
use vstd::prelude::*;

verus! {

/// The buffer `bytes` after `src` has been written at position `pos`:
/// bytes under the written range are replaced, the buffer grows as far as
/// the range reaches, and a gap between its old end and `pos` is zeroed.
/// Writing nothing changes nothing.
pub open spec fn write_at(bytes: Seq<u8>, pos: int, src: Seq<u8>) -> Seq<u8> {
    Seq::new(
        if src.len() == 0 || pos + src.len() <= bytes.len() {
            bytes.len()
        } else {
            (pos + src.len()) as nat
        },
        |i: int|
            if pos <= i < pos + src.len() {
                src[i - pos]
            } else if i < bytes.len() {
                bytes[i]
            } else {
                0u8
            },
    )
}

/// The unsigned pattern that stands for a signed 64-bit number in two's
/// complement.
pub open spec fn u64_of_i64(v: i64) -> u64 {
    if v >= 0 {
        v as u64
    } else {
        (v + 0x1_0000_0000_0000_0000) as u64
    }
}

/// Two writes, the second right behind the first, are one write of both.
pub proof fn lemma_write_at_adjacent(bytes: Seq<u8>, pos: int, first: Seq<u8>, second: Seq<u8>)
    requires
        0 <= pos,
    ensures
        write_at(write_at(bytes, pos, first), pos + first.len(), second) == write_at(
            bytes,
            pos,
            first + second,
        ),
{
    assert(write_at(write_at(bytes, pos, first), pos + first.len(), second) =~= write_at(
        bytes,
        pos,
        first + second,
    ));
}

/// Writing at the start of an empty buffer gives what was written.
pub proof fn lemma_write_at_start(src: Seq<u8>)
    ensures
        write_at(Seq::empty(), 0, src) == src,
{
    assert(write_at(Seq::empty(), 0, src) =~= src);
}

/// What was written can be read back where it was written.
pub proof fn lemma_write_at_reads_back(bytes: Seq<u8>, pos: int, src: Seq<u8>)
    requires
        0 <= pos,
        src.len() > 0,
    ensures
        write_at(bytes, pos, src).len() >= pos + src.len(),
        write_at(bytes, pos, src).subrange(pos, pos + src.len()) == src,
{
    assert(write_at(bytes, pos, src).subrange(pos, pos + src.len()) =~= src);
}

/// A write leaves every byte outside its range as it was.
pub proof fn lemma_write_at_keeps(bytes: Seq<u8>, pos: int, src: Seq<u8>, from: int, to: int)
    requires
        0 <= pos,
        0 <= from <= to <= bytes.len(),
        to <= pos || pos + src.len() <= from,
    ensures
        write_at(bytes, pos, src).len() >= to,
        write_at(bytes, pos, src).subrange(from, to) == bytes.subrange(from, to),
{
    assert(write_at(bytes, pos, src).subrange(from, to) =~= bytes.subrange(from, to));
}

/// A write cursor over a growable byte buffer.
///
/// The position may lie beyond the end of the buffer; a write of at least
/// one byte there first fills the gap with zero bytes.
pub struct ByteWriter {
    /// The bytes written so far.
    pub data: Vec<u8>,
    /// The position of the next write, counted from the start of `data`.
    pub pos: u64,
}

impl ByteWriter {
    /// A cursor at the start of an empty buffer.
    pub fn new() -> (writer: ByteWriter)
        ensures
            writer.data@ == Seq::<u8>::empty(),
            writer.pos == 0,
    {
        ByteWriter { data: Vec::new(), pos: 0 }
    }

    /// The position of the next write.
    pub fn stream_position(&self) -> (pos: u64)
        ensures
            pos == self.pos,
    {
        self.pos
    }

    /// Moves the cursor to `pos`, counted from the start of the buffer.
    pub fn seek(&mut self, pos: u64)
        ensures
            final(self).data == old(self).data,
            final(self).pos == pos,
    {
        self.pos = pos;
    }

    /// Whether `n` more bytes can be written at the cursor.
    pub fn can_write(&self, n: u64) -> (b: bool)
        ensures
            b == (self.pos + n <= usize::MAX),
    {
        let limit: u64 = usize::MAX as u64;
        self.pos <= limit && n <= limit - self.pos
    }

    /// Writes `src` at the cursor and moves past it.
    pub(crate) fn put_bytes(&mut self, src: &[u8])
        requires
            old(self).pos + src@.len() <= usize::MAX,
        ensures
            final(self).data@ == write_at(old(self).data@, old(self).pos as int, src@),
            final(self).pos == old(self).pos + src@.len(),
    {
        let start: usize = self.pos as usize;
        let count: usize = src.len();
        if count == 0 {
            assert(self.data@ =~= write_at(old(self).data@, start as int, src@));
            return ;
        }
        while self.data.len() < start
            invariant
                self.pos == old(self).pos,
                self.data@.len() <= start || self.data@.len() == old(self).data@.len(),
                self.data@.len() >= old(self).data@.len(),
                forall|i: int| 0 <= i < old(self).data@.len() ==> self.data@[i] == old(self).data@[i],
                forall|i: int| old(self).data@.len() <= i < self.data@.len() ==> self.data@[i] == 0u8,
            decreases start - self.data@.len(),
        {
            self.data.push(0u8);
        }
        let ghost padded: Seq<u8> = self.data@;
        let mut done: usize = 0;
        while done < count
            invariant
                done <= count,
                count == src@.len(),
                start + count <= usize::MAX,
                start == old(self).pos,
                self.pos == old(self).pos,
                padded.len() >= start,
                done == 0 ==> self.data@ == padded,
                done > 0 ==> self.data@ == write_at(
                    padded,
                    start as int,
                    src@.subrange(0, done as int),
                ),
            decreases count - done,
        {
            let target: usize = start + done;
            let byte: u8 = src[done];
            if target < self.data.len() {
                self.data.set(target, byte);
            } else {
                self.data.push(byte);
            }
            done = done + 1;
            assert(self.data@ =~= write_at(padded, start as int, src@.subrange(0, done as int)));
        }
        assert(src@.subrange(0, count as int) =~= src@);
        assert(write_at(padded, start as int, src@) =~= write_at(
            old(self).data@,
            start as int,
            src@,
        ));
        self.pos = self.pos + count as u64;
    }

    /// Writes `src` at the cursor and moves past it.
    ///
    /// Fails, and changes nothing, if the write would end beyond the largest
    /// position that the buffer can hold.
    pub fn write_bytes(&mut self, src: &[u8]) -> (r: Result<(), PackageError>)
        ensures
            match r {
                Ok(_) => {
                    &&& old(self).pos + src@.len() <= usize::MAX
                    &&& final(self).data@ == write_at(old(self).data@, old(self).pos as int, src@)
                    &&& final(self).pos == old(self).pos + src@.len()
                },
                Err(e) => {
                    &&& e == PackageError::WriteOutOfRange
                    &&& old(self).pos + src@.len() > usize::MAX
                    &&& *final(self) == *old(self)
                },
            },
    {
        if !self.can_write(src.len() as u64) {
            return Err(PackageError::WriteOutOfRange);
        }
        self.put_bytes(src);
        Ok(())
    }

    /// Writes a 32-bit integer at the cursor and moves past it.
    pub(crate) fn put_u32(&mut self, v: u32, order: Endian)
        requires
            old(self).pos + 4 <= usize::MAX,
        ensures
            final(self).data@ == write_at(
                old(self).data@,
                old(self).pos as int,
                bytes_of_u32(v, order),
            ),
            final(self).pos == old(self).pos + 4,
    {
        let bytes: [u8; 4] = u32_to_bytes(v, order);
        self.put_bytes(bytes.as_slice());
    }

    /// Writes a 64-bit integer at the cursor and moves past it.
    pub(crate) fn put_u64(&mut self, v: u64, order: Endian)
        requires
            old(self).pos + 8 <= usize::MAX,
        ensures
            final(self).data@ == write_at(
                old(self).data@,
                old(self).pos as int,
                bytes_of_u64(v, order),
            ),
            final(self).pos == old(self).pos + 8,
    {
        let bytes: [u8; 8] = u64_to_bytes(v, order);
        self.put_bytes(bytes.as_slice());
    }

    /// Writes a 32-bit integer at the cursor and moves past it.
    ///
    /// Fails, and changes nothing, if the write would end beyond the largest
    /// position that the buffer can hold.
    pub fn write_u32(&mut self, v: u32, order: Endian) -> (r: Result<(), PackageError>)
        ensures
            match r {
                Ok(_) => {
                    &&& old(self).pos + 4 <= usize::MAX
                    &&& final(self).data@ == write_at(
                        old(self).data@,
                        old(self).pos as int,
                        bytes_of_u32(v, order),
                    )
                    &&& final(self).pos == old(self).pos + 4
                },
                Err(e) => {
                    &&& e == PackageError::WriteOutOfRange
                    &&& old(self).pos + 4 > usize::MAX
                    &&& *final(self) == *old(self)
                },
            },
    {
        if !self.can_write(4) {
            return Err(PackageError::WriteOutOfRange);
        }
        self.put_u32(v, order);
        Ok(())
    }

    /// Writes a 64-bit integer at the cursor and moves past it.
    ///
    /// Fails, and changes nothing, if the write would end beyond the largest
    /// position that the buffer can hold.
    pub fn write_u64(&mut self, v: u64, order: Endian) -> (r: Result<(), PackageError>)
        ensures
            match r {
                Ok(_) => {
                    &&& old(self).pos + 8 <= usize::MAX
                    &&& final(self).data@ == write_at(
                        old(self).data@,
                        old(self).pos as int,
                        bytes_of_u64(v, order),
                    )
                    &&& final(self).pos == old(self).pos + 8
                },
                Err(e) => {
                    &&& e == PackageError::WriteOutOfRange
                    &&& old(self).pos + 8 > usize::MAX
                    &&& *final(self) == *old(self)
                },
            },
    {
        if !self.can_write(8) {
            return Err(PackageError::WriteOutOfRange);
        }
        self.put_u64(v, order);
        Ok(())
    }
}

/// Reinterprets a signed 64-bit number as its two's complement pattern.
pub fn unsigned_of_i64(v: i64) -> (u: u64)
    ensures
        u == u64_of_i64(v),
{
    if v >= 0 {
        v as u64
    } else {
        let low: u64 = (v - i64::MIN) as u64;
        low + 0x8000_0000_0000_0000
    }
}

} // verus!
