use byteorder::{BigEndian, LittleEndian, WriteBytesExt};
use iostore_package::endian::Endian;
use iostore_package::error::PackageError;
use iostore_package::graph::{FGraphExternalArc, FGraphPackage};
use iostore_package::reader::ByteReader;

fn arc(from: u32, to: u32) -> FGraphExternalArc {
    FGraphExternalArc { from_export_bundle_index: from, to_export_bundle_index: to }
}

fn package_bytes(id: u64, arcs: &[(u32, u32)]) -> Vec<u8> {
    let mut data: Vec<u8> = Vec::new();
    data.write_u64::<LittleEndian>(id).unwrap();
    data.write_u32::<LittleEndian>(arcs.len() as u32).unwrap();
    for (from, to) in arcs {
        data.write_u32::<LittleEndian>(*from).unwrap();
        data.write_u32::<LittleEndian>(*to).unwrap();
    }
    data
}

fn graph_bytes(packages: &[(u64, Vec<(u32, u32)>)]) -> Vec<u8> {
    let mut data: Vec<u8> = Vec::new();
    data.write_u32::<LittleEndian>(packages.len() as u32).unwrap();
    for (id, arcs) in packages {
        data.extend_from_slice(&package_bytes(*id, arcs));
    }
    data
}

#[test]
fn arc_is_two_indices() {
    let mut data: Vec<u8> = Vec::new();
    data.write_u32::<LittleEndian>(3).unwrap();
    data.write_u32::<LittleEndian>(0x0100_0000).unwrap();
    let mut reader = ByteReader::new(data.clone());
    assert_eq!(
        FGraphExternalArc::from_buffer(&mut reader, Endian::Little),
        Ok(arc(3, 0x0100_0000))
    );
    assert_eq!(reader.pos, 8);
    let mut reader = ByteReader::new(data);
    assert_eq!(
        FGraphExternalArc::from_buffer(&mut reader, Endian::Big),
        Ok(arc(0x0300_0000, 1))
    );
}

#[test]
fn arc_needs_eight_bytes() {
    let mut reader = ByteReader::new(vec![0; 9]);
    reader.seek(2);
    assert_eq!(
        FGraphExternalArc::from_buffer(&mut reader, Endian::Little),
        Err(PackageError::UnexpectedEof)
    );
    assert_eq!(reader.pos, 2);
}

#[test]
fn package_is_a_hash_and_its_arcs() {
    let mut data = package_bytes(0xDEAD_BEEF_0BAD_F00D, &[(0, 1), (2, 3), (4, 5)]);
    data.push(0x99);
    let mut reader = ByteReader::new(data);
    assert_eq!(
        FGraphPackage::from_buffer(&mut reader, Endian::Little),
        Ok(FGraphPackage {
            imported_package_id: 0xDEAD_BEEF_0BAD_F00D,
            external_arcs: vec![arc(0, 1), arc(2, 3), arc(4, 5)],
        })
    );
    assert_eq!(reader.pos, 12 + 3 * 8);
}

#[test]
fn package_without_arcs() {
    let mut reader = ByteReader::new(package_bytes(5, &[]));
    assert_eq!(
        FGraphPackage::from_buffer(&mut reader, Endian::Little),
        Ok(FGraphPackage { imported_package_id: 5, external_arcs: Vec::new() })
    );
    assert_eq!(reader.pos, 12);
}

#[test]
fn package_in_big_endian() {
    let mut data: Vec<u8> = Vec::new();
    data.write_u64::<BigEndian>(0x0102_0304_0506_0708).unwrap();
    data.write_u32::<BigEndian>(1).unwrap();
    data.write_u32::<BigEndian>(10).unwrap();
    data.write_u32::<BigEndian>(20).unwrap();
    let mut reader = ByteReader::new(data);
    assert_eq!(
        FGraphPackage::from_buffer(&mut reader, Endian::Big),
        Ok(FGraphPackage {
            imported_package_id: 0x0102_0304_0506_0708,
            external_arcs: vec![arc(10, 20)],
        })
    );
}

#[test]
fn package_fails_on_a_short_input() {
    let mut data = package_bytes(1, &[(0, 1), (2, 3)]);
    data.truncate(12 + 15);
    let mut reader = ByteReader::new(data);
    assert_eq!(
        FGraphPackage::from_buffer(&mut reader, Endian::Little),
        Err(PackageError::UnexpectedEof)
    );
    assert_eq!(reader.pos, 0);
    let mut reader = ByteReader::new(vec![0; 11]);
    assert_eq!(
        FGraphPackage::from_buffer(&mut reader, Endian::Little),
        Err(PackageError::UnexpectedEof)
    );
    let mut huge = package_bytes(1, &[]);
    huge[8..12].copy_from_slice(&[0xFF; 4]);
    huge.extend_from_slice(&[0; 64]);
    let mut reader = ByteReader::new(huge);
    assert_eq!(
        FGraphPackage::from_buffer(&mut reader, Endian::Little),
        Err(PackageError::UnexpectedEof)
    );
    assert_eq!(reader.pos, 0);
}

#[test]
fn graph_is_a_count_and_its_packages() {
    let data = graph_bytes(&[
        (0x11, vec![(0, 1)]),
        (0x22, vec![]),
        (0x33, vec![(5, 6), (7, 8)]),
    ]);
    let len = data.len() as u64;
    let mut reader = ByteReader::new(data);
    assert_eq!(
        FGraphPackage::list_from_buffer(&mut reader, Endian::Little),
        Ok(vec![
            FGraphPackage { imported_package_id: 0x11, external_arcs: vec![arc(0, 1)] },
            FGraphPackage { imported_package_id: 0x22, external_arcs: vec![] },
            FGraphPackage { imported_package_id: 0x33, external_arcs: vec![arc(5, 6), arc(7, 8)] },
        ])
    );
    assert_eq!(reader.pos, len);
    assert_eq!(len, 4 + 20 + 12 + 28);
}

#[test]
fn graph_without_packages() {
    let mut data = graph_bytes(&[]);
    data.extend_from_slice(&[1, 2, 3]);
    let mut reader = ByteReader::new(data);
    assert_eq!(
        FGraphPackage::list_from_buffer(&mut reader, Endian::Little),
        Ok(Vec::new())
    );
    assert_eq!(reader.pos, 4);
}

#[test]
fn graph_fails_on_a_short_input() {
    let mut data = graph_bytes(&[(0x11, vec![(0, 1)]), (0x22, vec![(2, 3)])]);
    data.pop();
    let mut reader = ByteReader::new(data);
    assert_eq!(
        FGraphPackage::list_from_buffer(&mut reader, Endian::Little),
        Err(PackageError::UnexpectedEof)
    );
    assert_eq!(reader.pos, 0);
    let mut counted_too_many = graph_bytes(&[(0x11, vec![])]);
    counted_too_many[0] = 2;
    let mut reader = ByteReader::new(counted_too_many);
    reader.seek(0);
    assert_eq!(
        FGraphPackage::list_from_buffer(&mut reader, Endian::Little),
        Err(PackageError::UnexpectedEof)
    );
    let mut reader = ByteReader::new(vec![0; 3]);
    assert_eq!(
        FGraphPackage::list_from_buffer(&mut reader, Endian::Little),
        Err(PackageError::UnexpectedEof)
    );
}
