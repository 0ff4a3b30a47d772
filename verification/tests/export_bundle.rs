use byteorder::{BigEndian, LittleEndian, WriteBytesExt};
use iostore_package::endian::Endian;
use iostore_package::error::PackageError;
use iostore_package::export_bundle::{
    ExportBundle, ExportBundleCommandType, ExportBundleEntry, ExportBundleHeader4,
    ExportBundleHeader5,
};
use iostore_package::reader::ByteReader;

fn entry(local_export_index: u32, command_type: ExportBundleCommandType) -> ExportBundleEntry {
    ExportBundleEntry { local_export_index, command_type }
}

fn entries_with_indices(indices: &[u32]) -> Vec<ExportBundleEntry> {
    indices
        .iter()
        .map(|i| entry(*i, ExportBundleCommandType::Create))
        .collect()
}

fn bundle_v4(first: u32, count: u32, entries: &[(u32, u32)]) -> Vec<u8> {
    let mut data: Vec<u8> = Vec::new();
    data.write_u32::<LittleEndian>(first).unwrap();
    data.write_u32::<LittleEndian>(count).unwrap();
    for (index, command) in entries {
        data.write_u32::<LittleEndian>(*index).unwrap();
        data.write_u32::<LittleEndian>(*command).unwrap();
    }
    data
}

#[test]
fn bundle_count_of_no_entries_is_zero() {
    assert_eq!(ExportBundleHeader4::get_export_bundle_count(&Vec::new()), Ok(0));
}

#[test]
fn bundle_count_is_one_past_the_highest_index() {
    assert_eq!(
        ExportBundleHeader4::get_export_bundle_count(&entries_with_indices(&[0, 2, 1, 2])),
        Ok(3)
    );
    assert_eq!(
        ExportBundleHeader4::get_export_bundle_count(&entries_with_indices(&[0])),
        Ok(1)
    );
    assert_eq!(
        ExportBundleHeader4::get_export_bundle_count(&entries_with_indices(&[7, 0, 0])),
        Ok(8)
    );
    assert_eq!(
        ExportBundleHeader4::get_export_bundle_count(&entries_with_indices(&[u32::MAX - 1, 3])),
        Ok(u32::MAX)
    );
}

#[test]
fn bundle_count_is_not_the_number_of_entries() {
    let entries = vec![
        entry(0, ExportBundleCommandType::Create),
        entry(0, ExportBundleCommandType::Serialize),
        entry(1, ExportBundleCommandType::Create),
        entry(1, ExportBundleCommandType::Serialize),
    ];
    assert_eq!(ExportBundleHeader4::get_export_bundle_count(&entries), Ok(2));
}

#[test]
fn bundle_count_fails_where_it_does_not_fit() {
    assert_eq!(
        ExportBundleHeader4::get_export_bundle_count(&entries_with_indices(&[1, u32::MAX, 2])),
        Err(PackageError::BundleCountOverflow)
    );
}

#[test]
fn bundle_count_of_the_later_shape_is_unimplemented() {
    assert_eq!(
        ExportBundleHeader5::get_export_bundle_count(&entries_with_indices(&[0, 2, 1, 2])),
        Err(PackageError::BundleCountUnimplemented)
    );
    assert_eq!(
        ExportBundleHeader5::get_export_bundle_count(&Vec::new()),
        Err(PackageError::BundleCountUnimplemented)
    );
}

#[test]
fn command_is_one_of_three() {
    assert_eq!(
        ExportBundleCommandType::try_from(0),
        Ok(ExportBundleCommandType::Create)
    );
    assert_eq!(
        ExportBundleCommandType::try_from(1),
        Ok(ExportBundleCommandType::Serialize)
    );
    assert_eq!(
        ExportBundleCommandType::try_from(2),
        Ok(ExportBundleCommandType::Count)
    );
    assert_eq!(
        ExportBundleCommandType::try_from(3),
        Err(PackageError::InvalidCommandType { value: 3 })
    );
    assert_eq!(
        ExportBundleCommandType::try_from(u32::MAX),
        Err(PackageError::InvalidCommandType { value: u32::MAX })
    );
    let converted: Result<ExportBundleCommandType, PackageError> = 1u32.try_into();
    assert_eq!(converted, Ok(ExportBundleCommandType::Serialize));
}

#[test]
fn earlier_shape_reads_its_entries() {
    let mut data = bundle_v4(9, 3, &[(0, 0), (1, 1), (0, 2)]);
    data.extend_from_slice(&[0xAB; 5]);
    let mut reader = ByteReader::new(data);
    assert_eq!(
        ExportBundleHeader4::from_buffer(&mut reader, Endian::Little),
        Ok(vec![
            entry(0, ExportBundleCommandType::Create),
            entry(1, ExportBundleCommandType::Serialize),
            entry(0, ExportBundleCommandType::Count),
        ])
    );
    assert_eq!(reader.pos, 8 + 3 * 8);
}

#[test]
fn earlier_shape_reads_no_entries() {
    let mut reader = ByteReader::new(bundle_v4(0, 0, &[(5, 5)]));
    assert_eq!(
        ExportBundleHeader4::from_buffer(&mut reader, Endian::Little),
        Ok(Vec::new())
    );
    assert_eq!(reader.pos, 8);
}

#[test]
fn earlier_shape_reads_from_the_cursor_in_big_endian() {
    let mut data = vec![0xFFu8; 3];
    data.write_u32::<BigEndian>(0).unwrap();
    data.write_u32::<BigEndian>(1).unwrap();
    data.write_u32::<BigEndian>(0x0102_0304).unwrap();
    data.write_u32::<BigEndian>(1).unwrap();
    let mut reader = ByteReader::new(data);
    reader.seek(3);
    assert_eq!(
        ExportBundleHeader4::from_buffer(&mut reader, Endian::Big),
        Ok(vec![entry(0x0102_0304, ExportBundleCommandType::Serialize)])
    );
    assert_eq!(reader.pos, 19);
}

#[test]
fn unknown_command_fails_the_bundle() {
    let mut reader = ByteReader::new(bundle_v4(0, 3, &[(0, 0), (1, 7), (2, 9)]));
    assert_eq!(
        ExportBundleHeader4::from_buffer(&mut reader, Endian::Little),
        Err(PackageError::InvalidCommandType { value: 7 })
    );
    assert_eq!(reader.pos, 0);
}

#[test]
fn bundle_fails_on_a_short_input() {
    let mut reader = ByteReader::new(bundle_v4(0, 3, &[(0, 0), (1, 1)]));
    assert_eq!(
        ExportBundleHeader4::from_buffer(&mut reader, Endian::Little),
        Err(PackageError::UnexpectedEof)
    );
    assert_eq!(reader.pos, 0);
    let mut data = bundle_v4(0, 1, &[(0, 0)]);
    data.truncate(15);
    let mut reader = ByteReader::new(data);
    assert_eq!(
        ExportBundleHeader4::from_buffer(&mut reader, Endian::Little),
        Err(PackageError::UnexpectedEof)
    );
    let mut reader = ByteReader::new(vec![0; 7]);
    assert_eq!(
        ExportBundleHeader4::from_buffer(&mut reader, Endian::Little),
        Err(PackageError::UnexpectedEof)
    );
}

#[test]
fn first_failure_wins() {
    let mut reader = ByteReader::new(bundle_v4(0, 4, &[(0, 0), (1, 3)]));
    assert_eq!(
        ExportBundleHeader4::from_buffer(&mut reader, Endian::Little),
        Err(PackageError::InvalidCommandType { value: 3 })
    );
    let mut data = bundle_v4(0, 2, &[(0, 0), (1, 3)]);
    data.truncate(8 + 8 + 6);
    let mut reader = ByteReader::new(data);
    assert_eq!(
        ExportBundleHeader4::from_buffer(&mut reader, Endian::Little),
        Err(PackageError::UnexpectedEof)
    );
}

#[test]
fn later_shape_reads_its_entries_behind_a_serial_offset() {
    let mut data: Vec<u8> = Vec::new();
    data.write_u64::<LittleEndian>(0xAAAA_BBBB_CCCC_DDDD).unwrap();
    data.extend_from_slice(&bundle_v4(4, 2, &[(3, 1), (4, 0)]));
    let mut reader = ByteReader::new(data.clone());
    assert_eq!(
        ExportBundleHeader5::from_buffer(&mut reader, Endian::Little),
        Ok(vec![
            entry(3, ExportBundleCommandType::Serialize),
            entry(4, ExportBundleCommandType::Create),
        ])
    );
    assert_eq!(reader.pos, 16 + 16);
    data.truncate(31);
    let mut reader = ByteReader::new(data);
    assert_eq!(
        ExportBundleHeader5::from_buffer(&mut reader, Endian::Little),
        Err(PackageError::UnexpectedEof)
    );
    assert_eq!(reader.pos, 0);
    let mut reader = ByteReader::new(vec![0; 15]);
    assert_eq!(
        ExportBundleHeader5::from_buffer(&mut reader, Endian::Little),
        Err(PackageError::UnexpectedEof)
    );
}
