use byteorder::{BigEndian, ByteOrder, LittleEndian};
use iostore_package::endian::Endian;
use iostore_package::error::PackageError;
use iostore_package::object_index::{
    tag_digest, utf16_bytes_of, IoStoreObjectIndex, PAYLOAD_MASK, TAG_SHIFT,
};
use iostore_package::reader::ByteReader;
use iostore_package::writer::ByteWriter;

fn utf16_le(text: &str) -> Vec<u8> {
    let mut out = Vec::new();
    for unit in text.encode_utf16() {
        out.push((unit & 0xff) as u8);
        out.push((unit >> 8) as u8);
    }
    out
}

fn utf16_be(text: &str) -> Vec<u8> {
    let mut out = Vec::new();
    for unit in text.encode_utf16() {
        out.push((unit >> 8) as u8);
        out.push((unit & 0xff) as u8);
    }
    out
}

fn expected(bytes: &[u8], tag: u64) -> u64 {
    let digest: u64 = cityhasher::hash(bytes);
    (digest & 0x3FFF_FFFF_FFFF_FFFF) | (tag << 62)
}

#[test]
fn encode_is_deterministic() {
    let first = IoStoreObjectIndex::ScriptImport(String::from("/script/engine"));
    let second = IoStoreObjectIndex::ScriptImport(String::from("/script/engine"));
    assert_eq!(first.encode(Endian::Little), first.encode(Endian::Little));
    assert_eq!(first.encode(Endian::Little), second.encode(Endian::Little));
}

#[test]
fn encode_ignores_case() {
    let mixed = IoStoreObjectIndex::ScriptImport(String::from("/Script/Engine.Foo"));
    let upper = IoStoreObjectIndex::ScriptImport(String::from("/SCRIPT/ENGINE.FOO"));
    assert_eq!(mixed.encode(Endian::Little), upper.encode(Endian::Little));
    let lower = IoStoreObjectIndex::PackageImport(String::from("/game/maps/start"));
    let shout = IoStoreObjectIndex::PackageImport(String::from("/GAME/Maps/START"));
    assert_eq!(lower.encode(Endian::Big), shout.encode(Endian::Big));
}

#[test]
fn encode_hashes_the_lower_case_utf16_path() {
    let script = IoStoreObjectIndex::ScriptImport(String::from("/Script/Engine.Foo"));
    assert_eq!(
        script.encode(Endian::Little),
        expected(&utf16_le("/script/engine.foo"), 1)
    );
    let package = IoStoreObjectIndex::PackageImport(String::from("/Game/Maps/Start"));
    assert_eq!(
        package.encode(Endian::Little),
        expected(&utf16_le("/game/maps/start"), 2)
    );
}

#[test]
fn encode_lays_units_out_in_the_given_order() {
    let script = IoStoreObjectIndex::ScriptImport(String::from("/Script/Engine.Foo"));
    assert_eq!(
        script.encode(Endian::Big),
        expected(&utf16_be("/script/engine.foo"), 1)
    );
    assert_ne!(script.encode(Endian::Big), script.encode(Endian::Little));
}

#[test]
fn encode_uses_surrogate_pairs_beyond_the_basic_plane() {
    let path = "/game/\u{1F600}/\u{e9}\u{4e2d}";
    assert_eq!(utf16_le("\u{1F600}"), vec![0x3D, 0xD8, 0x00, 0xDE]);
    let package = IoStoreObjectIndex::PackageImport(String::from(path));
    assert_eq!(package.encode(Endian::Little), expected(&utf16_le(path), 2));
    assert_eq!(package.encode(Endian::Big), expected(&utf16_be(path), 2));
}

#[test]
fn encode_of_the_empty_path_hashes_no_bytes() {
    let script = IoStoreObjectIndex::ScriptImport(String::new());
    assert_eq!(script.encode(Endian::Little), expected(&[], 1));
}

#[test]
fn encode_differs_from_the_hash_of_the_path_as_given() {
    let script = IoStoreObjectIndex::ScriptImport(String::from("/Script/Engine.Foo"));
    assert_ne!(
        script.encode(Endian::Little),
        expected(&utf16_le("/Script/Engine.Foo"), 1)
    );
    assert_ne!(
        script.encode(Endian::Little) & PAYLOAD_MASK,
        0x3FFF_FFFF_FFFF_FFFF & (b'/' as u64)
    );
}

#[test]
fn tag_is_in_the_top_two_bits() {
    let export = IoStoreObjectIndex::Export(5);
    let script = IoStoreObjectIndex::ScriptImport(String::from("/Script/CoreUObject"));
    let package = IoStoreObjectIndex::PackageImport(String::from("/Game/Hero"));
    let empty = IoStoreObjectIndex::Empty;
    for order in [Endian::Little, Endian::Big] {
        assert_eq!(export.encode(order) >> TAG_SHIFT, 0);
        assert_eq!(script.encode(order) >> TAG_SHIFT, 1);
        assert_eq!(package.encode(order) >> TAG_SHIFT, 2);
        assert_eq!(empty.encode(order) >> TAG_SHIFT, 3);
    }
    assert_eq!(export.encode(Endian::Little) & PAYLOAD_MASK, 5);
    let digest: u64 = cityhasher::hash(utf16_le("/game/hero"));
    assert_eq!(
        package.encode(Endian::Little) & PAYLOAD_MASK,
        digest & PAYLOAD_MASK
    );
}

#[test]
fn export_index_is_written_as_it_is() {
    assert_eq!(IoStoreObjectIndex::Export(0).encode(Endian::Little), 0);
    assert_eq!(
        IoStoreObjectIndex::Export(0x3FFF_FFFF_FFFF_FFFF).encode(Endian::Big),
        0x3FFF_FFFF_FFFF_FFFF
    );
    assert_eq!(
        IoStoreObjectIndex::Export(0x4000_0000_0000_0001).encode(Endian::Little),
        0x4000_0000_0000_0001
    );
}

#[test]
fn empty_is_all_ones() {
    assert_eq!(
        IoStoreObjectIndex::Empty.encode(Endian::Little),
        0xFFFF_FFFF_FFFF_FFFF
    );
    assert_eq!(
        IoStoreObjectIndex::decode(0xFFFF_FFFF_FFFF_FFFF),
        IoStoreObjectIndex::Empty
    );
}

#[test]
fn decode_selects_the_variant_by_the_tag() {
    assert_eq!(IoStoreObjectIndex::decode(0), IoStoreObjectIndex::Export(0));
    assert_eq!(
        IoStoreObjectIndex::decode(0x1234),
        IoStoreObjectIndex::Export(0x1234)
    );
    assert_eq!(
        IoStoreObjectIndex::decode(0x3FFF_FFFF_FFFF_FFFF),
        IoStoreObjectIndex::Export(0x3FFF_FFFF_FFFF_FFFF)
    );
    assert_eq!(
        IoStoreObjectIndex::decode(0x4000_0000_0000_0000),
        IoStoreObjectIndex::ScriptImport(String::new())
    );
    assert_eq!(
        IoStoreObjectIndex::decode(0x7FFF_FFFF_FFFF_FFFF),
        IoStoreObjectIndex::ScriptImport(String::new())
    );
    assert_eq!(
        IoStoreObjectIndex::decode(0x8000_0000_0000_0123),
        IoStoreObjectIndex::PackageImport(String::new())
    );
    assert_eq!(
        IoStoreObjectIndex::decode(0xC000_0000_0000_0000),
        IoStoreObjectIndex::Empty
    );
}

#[test]
fn decode_of_encode_keeps_the_variant() {
    let references = [
        IoStoreObjectIndex::Export(77),
        IoStoreObjectIndex::ScriptImport(String::from("/Script/Engine")),
        IoStoreObjectIndex::PackageImport(String::from("/Game/Hero")),
        IoStoreObjectIndex::Empty,
    ];
    let decoded: Vec<IoStoreObjectIndex> = references
        .iter()
        .map(|r| IoStoreObjectIndex::decode(r.encode(Endian::Little)))
        .collect();
    assert_eq!(decoded[0], IoStoreObjectIndex::Export(77));
    assert_eq!(decoded[1], IoStoreObjectIndex::ScriptImport(String::new()));
    assert_eq!(decoded[2], IoStoreObjectIndex::PackageImport(String::new()));
    assert_eq!(decoded[3], IoStoreObjectIndex::Empty);
}

#[test]
fn to_buffer_writes_eight_bytes_in_the_given_order() {
    let reference = IoStoreObjectIndex::Export(0x0102_0304_0506_0708);
    let mut little = ByteWriter::new();
    assert_eq!(reference.to_buffer(&mut little, Endian::Little), Ok(()));
    assert_eq!(little.data, vec![8, 7, 6, 5, 4, 3, 2, 1]);
    assert_eq!(little.pos, 8);
    let mut big = ByteWriter::new();
    assert_eq!(reference.to_buffer(&mut big, Endian::Big), Ok(()));
    assert_eq!(big.data, vec![1, 2, 3, 4, 5, 6, 7, 8]);
}

#[test]
fn to_buffer_writes_the_encoded_hash() {
    let reference = IoStoreObjectIndex::PackageImport(String::from("/Game/Hero"));
    let mut writer = ByteWriter::new();
    assert_eq!(reference.to_buffer(&mut writer, Endian::Little), Ok(()));
    assert_eq!(
        LittleEndian::read_u64(&writer.data),
        expected(&utf16_le("/game/hero"), 2)
    );
    let mut writer = ByteWriter::new();
    assert_eq!(reference.to_buffer(&mut writer, Endian::Big), Ok(()));
    assert_eq!(
        BigEndian::read_u64(&writer.data),
        expected(&utf16_be("/game/hero"), 2)
    );
}

#[test]
fn to_buffer_of_empty_writes_all_ones() {
    let mut writer = ByteWriter::new();
    assert_eq!(
        IoStoreObjectIndex::Empty.to_buffer(&mut writer, Endian::Little),
        Ok(())
    );
    assert_eq!(writer.data, vec![0xFF; 8]);
}

#[test]
fn from_buffer_reads_and_decodes() {
    let mut data = vec![0u8; 16];
    LittleEndian::write_u64(&mut data[0..8], 0x8000_0000_0000_0001);
    LittleEndian::write_u64(&mut data[8..16], 42);
    let mut reader = ByteReader::new(data);
    let any = IoStoreObjectIndex::Empty;
    assert_eq!(
        any.from_buffer(&mut reader, Endian::Little),
        Ok(IoStoreObjectIndex::PackageImport(String::new()))
    );
    assert_eq!(reader.pos, 8);
    assert_eq!(
        any.from_buffer(&mut reader, Endian::Little),
        Ok(IoStoreObjectIndex::Export(42))
    );
    assert_eq!(reader.pos, 16);
    assert_eq!(
        any.from_buffer(&mut reader, Endian::Little),
        Err(PackageError::UnexpectedEof)
    );
    assert_eq!(reader.pos, 16);
}

#[test]
fn from_buffer_reads_big_endian() {
    let mut reader = ByteReader::new(vec![0xFF; 8]);
    assert_eq!(
        IoStoreObjectIndex::Empty.from_buffer(&mut reader, Endian::Big),
        Ok(IoStoreObjectIndex::Empty)
    );
    let mut reader = ByteReader::new(vec![0, 0, 0, 0, 0, 0, 0, 9]);
    assert_eq!(
        IoStoreObjectIndex::Empty.from_buffer(&mut reader, Endian::Big),
        Ok(IoStoreObjectIndex::Export(9))
    );
}

#[test]
fn from_buffer_fails_on_a_short_input() {
    let mut reader = ByteReader::new(vec![1, 2, 3, 4, 5, 6, 7]);
    assert_eq!(
        IoStoreObjectIndex::Empty.from_buffer(&mut reader, Endian::Little),
        Err(PackageError::UnexpectedEof)
    );
    assert_eq!(reader.pos, 0);
}

#[test]
fn encode_gives_the_known_values() {
    assert_eq!(
        IoStoreObjectIndex::ScriptImport(String::from("/Script/Engine")).encode(Endian::Little),
        0x51AC_CED3_DC7C_0922
    );
    assert_eq!(
        IoStoreObjectIndex::PackageImport(String::from("/Game/Maps/Start")).encode(Endian::Little),
        0x8459_9018_1C1F_0065
    );
    assert_eq!(
        IoStoreObjectIndex::ScriptImport(String::from("/Script/CoreUObject")).encode(Endian::Big),
        0x774C_43F2_0A48_CA7E
    );
}

#[test]
fn tag_replaces_the_top_two_bits() {
    assert_eq!(tag_digest(0, 0), 0);
    assert_eq!(tag_digest(0, 1), 0x4000_0000_0000_0000);
    assert_eq!(tag_digest(0, 2), 0x8000_0000_0000_0000);
    assert_eq!(tag_digest(0, 3), 0xC000_0000_0000_0000);
    assert_eq!(tag_digest(u64::MAX, 0), 0x3FFF_FFFF_FFFF_FFFF);
    assert_eq!(tag_digest(u64::MAX, 1), 0x7FFF_FFFF_FFFF_FFFF);
    assert_eq!(tag_digest(u64::MAX, 2), 0xBFFF_FFFF_FFFF_FFFF);
    assert_eq!(tag_digest(0xC123_4567_89AB_CDEF, 1), 0x4123_4567_89AB_CDEF);
    assert_eq!(tag_digest(0x0123_4567_89AB_CDEF, 6), 0x8123_4567_89AB_CDEF);
}

#[test]
fn utf16_layout_of_a_text() {
    assert_eq!(utf16_bytes_of("", Endian::Little), Vec::<u8>::new());
    assert_eq!(utf16_bytes_of("/a", Endian::Little), vec![0x2F, 0x00, 0x61, 0x00]);
    assert_eq!(utf16_bytes_of("/a", Endian::Big), vec![0x00, 0x2F, 0x00, 0x61]);
    assert_eq!(
        utf16_bytes_of("\u{e9}\u{4e2d}\u{ffff}", Endian::Little),
        vec![0xE9, 0x00, 0x2D, 0x4E, 0xFF, 0xFF]
    );
    assert_eq!(
        utf16_bytes_of("\u{10000}\u{1F600}\u{10FFFF}", Endian::Big),
        vec![0xD8, 0x00, 0xDC, 0x00, 0xD8, 0x3D, 0xDE, 0x00, 0xDB, 0xFF, 0xDF, 0xFF]
    );
    assert_eq!(utf16_bytes_of("Mixed Case", Endian::Little), utf16_le("Mixed Case"));
}
