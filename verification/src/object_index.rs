//! The 64-bit tagged reference that addresses an export, an import or nothing.
//!
//! The top two bits of the encoded value are the tag of the variant. The low
//! 62 bits are an export index or the hash of a path: the path is lower-cased,
//! laid out as UTF-16 code units in the chosen byte order and hashed with
//! CityHash64.

use crate::endian::{bytes_of_u16, bytes_of_u64, Endian};
use crate::error::PackageError;
use crate::reader::{has_bytes, u64_at, ByteReader};
use crate::writer::{write_at, ByteWriter};
use vstd::prelude::*;

verus! {

/// The low 62 bits of an encoded reference.
pub const PAYLOAD_MASK: u64 = 0x3FFF_FFFF_FFFF_FFFF;

/// The number of bits below the tag of an encoded reference.
pub const TAG_SHIFT: u64 = 62;

/// The CityHash64 digest of a byte string.
pub uninterp spec fn city_hash64(bytes: Seq<u8>) -> u64;

/// The lower-case form of a text by the Unicode case mapping.
pub uninterp spec fn unicode_lowercase(text: Seq<char>) -> Seq<char>;

/// Calls `cityhasher::hash` with a 64-bit result, which computes the
/// CityHash64 digest of the bytes. The digest depends on the bytes alone.
#[verifier::external_body]
fn hash_bytes(bytes: &[u8]) -> (digest: u64)
    ensures
        digest == city_hash64(bytes@),
{
    cityhasher::hash(bytes)
}

/// Calls `str::to_lowercase`, which returns the lower-case form of the
/// text as a new string.
#[verifier::external_body]
fn lowercase(text: &str) -> (lower: String)
    ensures
        lower@ == unicode_lowercase(text@),
{
    text.to_lowercase()
}

/// The UTF-16 code units of one character, laid out in the given byte order:
/// one unit for a character of the basic plane, a surrogate pair otherwise.
pub open spec fn utf16_bytes_of_char(c: char, order: Endian) -> Seq<u8> {
    let code = c as u32;
    if code < 0x1_0000 {
        bytes_of_u16(code as u16, order)
    } else {
        bytes_of_u16((0xD800 + (code - 0x1_0000) / 0x400) as u16, order) + bytes_of_u16(
            (0xDC00 + (code - 0x1_0000) % 0x400) as u16,
            order,
        )
    }
}

/// The UTF-16 code units of a text, without terminator, laid out in the
/// given byte order.
pub open spec fn utf16_bytes(text: Seq<char>, order: Endian) -> Seq<u8>
    decreases text.len(),
{
    if text.len() == 0 {
        Seq::empty()
    } else {
        utf16_bytes(text.drop_last(), order) + utf16_bytes_of_char(text.last(), order)
    }
}

/// The bytes that are hashed for a path.
pub open spec fn hash_input(path: Seq<char>, order: Endian) -> Seq<u8> {
    utf16_bytes(unicode_lowercase(path), order)
}

/// A digest with its top two bits replaced by the low two bits of `tag`.
pub open spec fn with_tag(digest: u64, tag: u64) -> u64 {
    (digest & PAYLOAD_MASK) | (tag << TAG_SHIFT)
}

/// The hash of a path with its top two bits replaced by `tag`.
pub open spec fn tagged_hash(path: Seq<char>, tag: u64, order: Endian) -> u64 {
    with_tag(city_hash64(hash_input(path, order)), tag)
}

/// What a reference points to, with paths as plain text.
pub enum ObjectReference {
    /// Another export of the same package, by position.
    Export(u64),
    /// An object of the namespace that the engine builds in, by path.
    ScriptImport(Seq<char>),
    /// An object of another content package, by path.
    PackageImport(Seq<char>),
    /// Nothing.
    Empty,
}

impl ObjectReference {
    /// The tag of the variant.
    pub open spec fn tag(self) -> u64 {
        match self {
            ObjectReference::Export(_) => 0,
            ObjectReference::ScriptImport(_) => 1,
            ObjectReference::PackageImport(_) => 2,
            ObjectReference::Empty => 3,
        }
    }

    /// An export index must leave the two tag bits clear.
    pub open spec fn well_formed(self) -> bool {
        self matches ObjectReference::Export(index) ==> index <= PAYLOAD_MASK
    }

    /// What the low 62 bits of the encoded value hold.
    pub open spec fn payload(self, order: Endian) -> u64 {
        match self {
            ObjectReference::Export(index) => index,
            ObjectReference::ScriptImport(path) => city_hash64(hash_input(path, order))
                & PAYLOAD_MASK,
            ObjectReference::PackageImport(path) => city_hash64(hash_input(path, order))
                & PAYLOAD_MASK,
            ObjectReference::Empty => PAYLOAD_MASK,
        }
    }

    /// The encoded value. An export index is written as it is.
    pub open spec fn encoding(self, order: Endian) -> u64 {
        match self {
            ObjectReference::Export(index) => index,
            ObjectReference::ScriptImport(path) => tagged_hash(path, 1, order),
            ObjectReference::PackageImport(path) => tagged_hash(path, 2, order),
            ObjectReference::Empty => u64::MAX,
        }
    }

    /// The reference that an encoded value stands for. The top two bits
    /// select the variant; the path behind a hash cannot be recovered and is
    /// left empty.
    pub open spec fn decoding(raw: u64) -> ObjectReference {
        let tag = raw >> TAG_SHIFT;
        if tag == 0 {
            ObjectReference::Export(raw & PAYLOAD_MASK)
        } else if tag == 1 {
            ObjectReference::ScriptImport(Seq::empty())
        } else if tag == 2 {
            ObjectReference::PackageImport(Seq::empty())
        } else {
            ObjectReference::Empty
        }
    }
}

/// A reference to an export, to an import or to nothing.
#[derive(Debug, Clone, PartialEq)]
pub enum IoStoreObjectIndex {
    /// Tag 0: the index of another export of the same package.
    Export(u64),
    /// Tag 1: the path of an import mounted below the script namespace.
    ScriptImport(String),
    /// Tag 2: the path of an import mounted in a content package.
    PackageImport(String),
    /// Tag 3: the null reference.
    Empty,
}

impl View for IoStoreObjectIndex {
    type V = ObjectReference;

    open spec fn view(&self) -> ObjectReference {
        match self {
            IoStoreObjectIndex::Export(index) => ObjectReference::Export(*index),
            IoStoreObjectIndex::ScriptImport(path) => ObjectReference::ScriptImport(path@),
            IoStoreObjectIndex::PackageImport(path) => ObjectReference::PackageImport(path@),
            IoStoreObjectIndex::Empty => ObjectReference::Empty,
        }
    }
}

/// Appends the two bytes of a UTF-16 code unit.
fn push_unit(out: &mut Vec<u8>, unit: u16, order: Endian)
    ensures
        final(out)@ == old(out)@ + bytes_of_u16(unit, order),
{
    let low: u8 = (unit % 0x100) as u8;
    let high: u8 = (unit / 0x100) as u8;
    match order {
        Endian::Little => {
            out.push(low);
            out.push(high);
        },
        Endian::Big => {
            out.push(high);
            out.push(low);
        },
    }
    assert(out@ =~= old(out)@ + bytes_of_u16(unit, order));
}

/// Appends the UTF-16 code units of one character.
fn push_char(out: &mut Vec<u8>, c: char, order: Endian)
    ensures
        final(out)@ == old(out)@ + utf16_bytes_of_char(c, order),
{
    let code: u32 = c as u32;
    if code < 0x1_0000 {
        push_unit(out, code as u16, order);
    } else {
        let offset: u32 = code - 0x1_0000;
        let high: u16 = (0xD800 + offset / 0x400) as u16;
        let low: u16 = (0xDC00 + offset % 0x400) as u16;
        push_unit(out, high, order);
        push_unit(out, low, order);
        assert(out@ =~= old(out)@ + utf16_bytes_of_char(c, order));
    }
}

/// The UTF-16 code units of a text, without terminator, laid out in the
/// given byte order.
pub fn utf16_bytes_of(text: &str, order: Endian) -> (out: Vec<u8>)
    ensures
        out@ == utf16_bytes(text@, order),
{
    let mut out: Vec<u8> = Vec::new();
    for c in iter: text.chars()
        invariant
            iter.seq() == text@,
            out@ == utf16_bytes(text@.take(iter.index()), order),
    {
        proof {
            let done = text@.take(iter.index() + 1);
            assert(done.drop_last() =~= text@.take(iter.index()));
            assert(done.last() == c);
        }
        push_char(&mut out, c, order);
    }
    assert(text@.take(text@.len() as int) =~= text@);
    out
}

/// Replaces the top two bits of a digest by the low two bits of `tag`.
pub fn tag_digest(digest: u64, tag: u64) -> (raw: u64)
    ensures
        raw == with_tag(digest, tag),
{
    (digest & PAYLOAD_MASK) | (tag << TAG_SHIFT)
}

impl IoStoreObjectIndex {
    /// The hash of a path, tagged with a variant: the path is lower-cased,
    /// laid out as UTF-16 code units and hashed, and the tag replaces the
    /// top two bits of the digest.
    fn generate_hash(import: &str, obj_type: u64, order: Endian) -> (hash: u64)
        ensures
            hash == tagged_hash(import@, obj_type, order),
    {
        let lower: String = lowercase(import);
        let bytes: Vec<u8> = utf16_bytes_of(lower.as_str(), order);
        let digest: u64 = hash_bytes(bytes.as_slice());
        tag_digest(digest, obj_type)
    }

    /// The 64-bit value that stands for this reference.
    ///
    /// An export index is written as it is: the caller keeps it below 2^62,
    /// or the value reads back as another variant.
    pub fn encode(&self, order: Endian) -> (raw: u64)
        ensures
            raw == self@.encoding(order),
    {
        match self {
            IoStoreObjectIndex::Export(index) => *index,
            IoStoreObjectIndex::ScriptImport(path) => Self::generate_hash(path.as_str(), 1, order),
            IoStoreObjectIndex::PackageImport(path) => Self::generate_hash(
                path.as_str(),
                2,
                order,
            ),
            IoStoreObjectIndex::Empty => u64::MAX,
        }
    }

    /// The reference that a 64-bit value stands for.
    ///
    /// The path behind a hash is lost: an import comes back with an empty
    /// path.
    pub fn decode(raw: u64) -> (reference: IoStoreObjectIndex)
        ensures
            reference@ == ObjectReference::decoding(raw),
    {
        let tag: u64 = raw >> TAG_SHIFT;
        if tag == 0 {
            IoStoreObjectIndex::Export(raw & PAYLOAD_MASK)
        } else if tag == 1 {
            IoStoreObjectIndex::ScriptImport(String::new())
        } else if tag == 2 {
            IoStoreObjectIndex::PackageImport(String::new())
        } else {
            IoStoreObjectIndex::Empty
        }
    }

    /// Reads one encoded reference and decodes it.
    ///
    /// Fails, and leaves the cursor where it is, if fewer than eight bytes
    /// are left.
    pub fn from_buffer(&self, reader: &mut ByteReader, order: Endian) -> (r: Result<
        IoStoreObjectIndex,
        PackageError,
    >)
        ensures
            final(reader).data == old(reader).data,
            match r {
                Ok(reference) => {
                    &&& has_bytes(old(reader).data@, old(reader).pos as int, 8)
                    &&& reference@ == ObjectReference::decoding(
                        u64_at(old(reader).data@, old(reader).pos as int, order),
                    )
                    &&& final(reader).pos == old(reader).pos + 8
                },
                Err(e) => {
                    &&& e == PackageError::UnexpectedEof
                    &&& !has_bytes(old(reader).data@, old(reader).pos as int, 8)
                    &&& final(reader).pos == old(reader).pos
                },
            },
    {
        match reader.read_u64(order) {
            Ok(raw) => Ok(Self::decode(raw)),
            Err(e) => Err(e),
        }
    }

    /// Writes the encoded reference at the cursor.
    ///
    /// Fails, and changes nothing, if the write would end beyond the largest
    /// position that the buffer can hold.
    pub fn to_buffer(&self, writer: &mut ByteWriter, order: Endian) -> (r: Result<
        (),
        PackageError,
    >)
        ensures
            match r {
                Ok(_) => {
                    &&& old(writer).pos + 8 <= usize::MAX
                    &&& final(writer).data@ == write_at(
                        old(writer).data@,
                        old(writer).pos as int,
                        bytes_of_u64(self@.encoding(order), order),
                    )
                    &&& final(writer).pos == old(writer).pos + 8
                },
                Err(e) => {
                    &&& e == PackageError::WriteOutOfRange
                    &&& old(writer).pos + 8 > usize::MAX
                    &&& *final(writer) == *old(writer)
                },
            },
    {
        if !writer.can_write(8) {
            return Err(PackageError::WriteOutOfRange);
        }
        let raw: u64 = self.encode(order);
        writer.put_u64(raw, order);
        Ok(())
    }
}

/// The top two bits of an encoded reference are the tag of its variant, and
/// the low 62 bits are its index or its masked hash.
pub proof fn lemma_tag_law(reference: ObjectReference, order: Endian)
    requires
        reference.well_formed(),
    ensures
        reference.encoding(order) >> TAG_SHIFT == reference.tag(),
        reference.encoding(order) & PAYLOAD_MASK == reference.payload(order),
{
    match reference {
        ObjectReference::Export(index) => {
            assert(index <= 0x3FFF_FFFF_FFFF_FFFFu64 ==> index >> 62u64 == 0 && index
                & 0x3FFF_FFFF_FFFF_FFFFu64 == index) by (bit_vector);
        },
        ObjectReference::ScriptImport(path) => {
            let digest = city_hash64(hash_input(path, order));
            assert(((digest & 0x3FFF_FFFF_FFFF_FFFFu64) | (1u64 << 62u64)) >> 62u64 == 1 && ((
            digest & 0x3FFF_FFFF_FFFF_FFFFu64) | (1u64 << 62u64)) & 0x3FFF_FFFF_FFFF_FFFFu64
                == digest & 0x3FFF_FFFF_FFFF_FFFFu64) by (bit_vector);
        },
        ObjectReference::PackageImport(path) => {
            let digest = city_hash64(hash_input(path, order));
            assert(((digest & 0x3FFF_FFFF_FFFF_FFFFu64) | (2u64 << 62u64)) >> 62u64 == 2 && ((
            digest & 0x3FFF_FFFF_FFFF_FFFFu64) | (2u64 << 62u64)) & 0x3FFF_FFFF_FFFF_FFFFu64
                == digest & 0x3FFF_FFFF_FFFF_FFFFu64) by (bit_vector);
        },
        ObjectReference::Empty => {
            assert(0xFFFF_FFFF_FFFF_FFFFu64 >> 62u64 == 3 && 0xFFFF_FFFF_FFFF_FFFFu64
                & 0x3FFF_FFFF_FFFF_FFFFu64 == 0x3FFF_FFFF_FFFF_FFFFu64) by (bit_vector);
        },
    }
}

/// The null reference encodes as all ones, and all ones decode as the null
/// reference.
pub proof fn lemma_empty_sentinel(order: Endian)
    ensures
        ObjectReference::Empty.encoding(order) == 0xFFFF_FFFF_FFFF_FFFFu64,
        ObjectReference::decoding(0xFFFF_FFFF_FFFF_FFFFu64) == ObjectReference::Empty,
{
    assert(0xFFFF_FFFF_FFFF_FFFFu64 >> 62u64 == 3) by (bit_vector);
}

/// Decoding an encoded reference gives back its variant, and the reference
/// itself where it holds no path.
pub proof fn lemma_decoding_of_encoding(reference: ObjectReference, order: Endian)
    requires
        reference.well_formed(),
    ensures
        ObjectReference::decoding(reference.encoding(order)).tag() == reference.tag(),
        reference is Export || reference is Empty ==> ObjectReference::decoding(
            reference.encoding(order),
        ) == reference,
{
    lemma_tag_law(reference, order);
}

/// Two paths that differ only in case encode alike.
pub proof fn lemma_encoding_ignores_case(first: Seq<char>, second: Seq<char>, order: Endian)
    requires
        unicode_lowercase(first) == unicode_lowercase(second),
    ensures
        ObjectReference::ScriptImport(first).encoding(order) == ObjectReference::ScriptImport(
            second,
        ).encoding(order),
        ObjectReference::PackageImport(first).encoding(order) == ObjectReference::PackageImport(
            second,
        ).encoding(order),
{
}

} // verus!
