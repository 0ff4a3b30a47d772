use byteorder::{BigEndian, LittleEndian, WriteBytesExt};
use iostore_package::endian::Endian;
use iostore_package::error::PackageError;
use iostore_package::mapped_name::FMappedName;
use iostore_package::reader::ByteReader;
use iostore_package::summary::{
    PackageIoSummaryDeserialize, PackageSummary1, PackageSummary2, PackageSummaryExports,
    ZenPackageSummaryType1, ZenPackageSummaryType2, IO_PACKAGE_FEXPORTMAP_SERIALIZED_SIZE,
};

fn header_with_offsets(distance: usize, offsets: [u32; 3]) -> Vec<u8> {
    let mut data: Vec<u8> = (0..distance).map(|i| (i as u8) | 0x80).collect();
    for offset in offsets {
        data.write_u32::<LittleEndian>(offset).unwrap();
    }
    data.extend_from_slice(&[0xEE; 4]);
    data
}

fn offsets_of(summary: &PackageSummaryExports) -> (u32, u32, u32) {
    (
        summary.export_offset(),
        summary.export_bundle_offset(),
        summary.graph_offset(),
    )
}

#[test]
fn export_count_is_the_number_of_records_between_the_offsets() {
    let summary = PackageSummaryExports::new(0x100, 0x100 + 5 * 0x48, 0x1000).unwrap();
    assert_eq!(summary.get_export_count(), Ok(5));
    assert_eq!(IO_PACKAGE_FEXPORTMAP_SERIALIZED_SIZE, 0x48);
}

#[test]
fn export_count_of_an_empty_table_is_zero() {
    let summary = PackageSummaryExports::new(0x40, 0x40, 0x40).unwrap();
    assert_eq!(summary.get_export_count(), Ok(0));
}

#[test]
fn export_count_of_the_largest_table() {
    let gap: u32 = (u32::MAX / 0x48) * 0x48;
    let summary = PackageSummaryExports::new(3, 3 + gap, u32::MAX).unwrap();
    assert_eq!(summary.get_export_count(), Ok((u32::MAX / 0x48) as u64));
}

#[test]
fn export_count_rounds_down_and_the_table_is_told_inexact() {
    let summary = PackageSummaryExports::new(0x100, 0x100 + 2 * 0x48 + 0x47, 0x1000).unwrap();
    assert_eq!(
        summary.get_export_count(),
        Err(PackageError::InexactExportTable {
            export_offset: 0x100,
            export_bundle_offset: 0x100 + 2 * 0x48 + 0x47
        })
    );
    let summary = PackageSummaryExports::new(0x100, 0x101, 0x1000).unwrap();
    assert_eq!(
        summary.get_export_count(),
        Err(PackageError::InexactExportTable {
            export_offset: 0x100,
            export_bundle_offset: 0x101
        })
    );
    let summary = PackageSummaryExports::new(0, u32::MAX, u32::MAX).unwrap();
    assert_eq!(
        summary.get_export_count(),
        Err(PackageError::InexactExportTable { export_offset: 0, export_bundle_offset: u32::MAX })
    );
}

#[test]
fn summary_records_no_bundle_count() {
    let summary = PackageSummaryExports::new(0x100, 0x148, 0x200).unwrap();
    assert_eq!(summary.get_export_bundle_count(), 0);
}

#[test]
fn summary_keeps_its_offsets() {
    let summary = PackageSummaryExports::new(1, 2, 3).unwrap();
    assert_eq!(offsets_of(&summary), (1, 2, 3));
}

#[test]
fn summary_refuses_offsets_that_do_not_ascend() {
    assert_eq!(
        PackageSummaryExports::new(0x200, 0x100, 0x300).err(),
        Some(PackageError::OffsetsOutOfOrder {
            export_offset: 0x200,
            export_bundle_offset: 0x100,
            graph_offset: 0x300
        })
    );
    assert_eq!(
        PackageSummaryExports::new(0x100, 0x200, 0x1FF).err(),
        Some(PackageError::OffsetsOutOfOrder {
            export_offset: 0x100,
            export_bundle_offset: 0x200,
            graph_offset: 0x1FF
        })
    );
}

#[test]
fn first_layout_keeps_the_offsets_at_0x0c() {
    let mut reader = ByteReader::new(header_with_offsets(0x0C, [0x40, 0x88, 0x98]));
    let summary = PackageSummary1::to_package_summary(&mut reader, Endian::Little).unwrap();
    assert_eq!(offsets_of(&summary), (0x40, 0x88, 0x98));
    assert_eq!(reader.pos, 0x0C + 12);
}

#[test]
fn second_layout_keeps_the_offsets_at_0x2c() {
    let mut reader = ByteReader::new(header_with_offsets(0x2C, [0x40, 0x88, 0x98]));
    let summary = PackageSummary2::to_package_summary(&mut reader, Endian::Little).unwrap();
    assert_eq!(offsets_of(&summary), (0x40, 0x88, 0x98));
    assert_eq!(reader.pos, 0x2C + 12);
}

#[test]
fn third_layout_keeps_the_offsets_at_0x20() {
    let mut reader = ByteReader::new(header_with_offsets(0x20, [0x40, 0x88, 0x98]));
    let summary = ZenPackageSummaryType1::to_package_summary(&mut reader, Endian::Little).unwrap();
    assert_eq!(offsets_of(&summary), (0x40, 0x88, 0x98));
    assert_eq!(reader.pos, 0x20 + 12);
}

#[test]
fn layouts_read_different_places_of_the_same_bytes() {
    let mut data: Vec<u8> = Vec::new();
    for word in 0u32..16 {
        data.write_u32::<LittleEndian>(word * 0x10).unwrap();
    }
    let mut reader = ByteReader::new(data.clone());
    let first = PackageSummary1::to_package_summary(&mut reader, Endian::Little).unwrap();
    assert_eq!(offsets_of(&first), (0x30, 0x40, 0x50));
    let mut reader = ByteReader::new(data.clone());
    let second = PackageSummary2::to_package_summary(&mut reader, Endian::Little).unwrap();
    assert_eq!(offsets_of(&second), (0xB0, 0xC0, 0xD0));
    let mut reader = ByteReader::new(data);
    let third = ZenPackageSummaryType1::to_package_summary(&mut reader, Endian::Little).unwrap();
    assert_eq!(offsets_of(&third), (0x80, 0x90, 0xA0));
}

#[test]
fn offsets_count_from_the_cursor() {
    let mut data = vec![0x55u8; 7];
    data.extend_from_slice(&header_with_offsets(0x0C, [1, 2, 3]));
    let mut reader = ByteReader::new(data);
    reader.seek(7);
    let summary = PackageSummary1::to_package_summary(&mut reader, Endian::Little).unwrap();
    assert_eq!(offsets_of(&summary), (1, 2, 3));
    assert_eq!(reader.pos, 7 + 0x0C + 12);
}

#[test]
fn offsets_are_read_in_the_given_order() {
    let mut data = vec![0u8; 0x0C];
    data.write_u32::<BigEndian>(0x0000_0140).unwrap();
    data.write_u32::<BigEndian>(0x0000_0188).unwrap();
    data.write_u32::<BigEndian>(0x0100_0000).unwrap();
    let mut reader = ByteReader::new(data.clone());
    let summary = PackageSummary1::to_package_summary(&mut reader, Endian::Big).unwrap();
    assert_eq!(offsets_of(&summary), (0x140, 0x188, 0x0100_0000));
    let mut reader = ByteReader::new(data);
    assert_eq!(
        PackageSummary1::to_package_summary(&mut reader, Endian::Little).err(),
        Some(PackageError::OffsetsOutOfOrder {
            export_offset: 0x4001_0000,
            export_bundle_offset: 0x8801_0000,
            graph_offset: 0x0000_0001
        })
    );
    assert_eq!(reader.pos, 0);
}

#[test]
fn summary_fails_on_a_short_input() {
    let mut data = header_with_offsets(0x2C, [0x40, 0x88, 0x98]);
    data.truncate(0x2C + 11);
    let mut reader = ByteReader::new(data.clone());
    assert_eq!(
        PackageSummary2::to_package_summary(&mut reader, Endian::Little).err(),
        Some(PackageError::UnexpectedEof)
    );
    assert_eq!(reader.pos, 0);
    let mut reader = ByteReader::new(data);
    reader.seek(12);
    assert_eq!(
        ZenPackageSummaryType1::to_package_summary(&mut reader, Endian::Little).err(),
        Some(PackageError::UnexpectedEof)
    );
    assert_eq!(reader.pos, 12);
    reader.seek(11);
    assert!(ZenPackageSummaryType1::to_package_summary(&mut reader, Endian::Little).is_ok());
    let mut reader = ByteReader::new(Vec::new());
    assert_eq!(
        PackageSummary1::to_package_summary(&mut reader, Endian::Little).err(),
        Some(PackageError::UnexpectedEof)
    );
}

#[test]
fn summary_fails_where_the_cursor_is_out_of_range() {
    let mut reader = ByteReader::new(header_with_offsets(0x0C, [1, 2, 3]));
    reader.seek(u64::MAX - 4);
    assert_eq!(
        PackageSummary1::to_package_summary(&mut reader, Endian::Little).err(),
        Some(PackageError::UnexpectedEof)
    );
    assert_eq!(reader.pos, u64::MAX - 4);
}

#[test]
fn summary_fails_on_offsets_out_of_order() {
    let mut reader = ByteReader::new(header_with_offsets(0x20, [0x88, 0x40, 0x98]));
    assert_eq!(
        ZenPackageSummaryType1::to_package_summary(&mut reader, Endian::Little).err(),
        Some(PackageError::OffsetsOutOfOrder {
            export_offset: 0x88,
            export_bundle_offset: 0x40,
            graph_offset: 0x98
        })
    );
    assert_eq!(reader.pos, 0);
}

#[test]
fn fourth_layout_is_unsupported() {
    for distance in [0x0C, 0x20, 0x2C] {
        let data = header_with_offsets(distance, [0x40, 0x88, 0x98]);
        let mut reader = ByteReader::new(data);
        reader.seek(1);
        assert_eq!(
            ZenPackageSummaryType2::to_package_summary(&mut reader, Endian::Little).err(),
            Some(PackageError::UnsupportedLayout)
        );
        assert_eq!(reader.pos, 1);
    }
    let mut reader = ByteReader::new(Vec::new());
    assert_eq!(
        ZenPackageSummaryType2::to_package_summary(&mut reader, Endian::Big).err(),
        Some(PackageError::UnsupportedLayout)
    );
}

#[test]
fn second_layout_reads_every_field() {
    let mut data: Vec<u8> = Vec::new();
    data.write_u64::<LittleEndian>(0x1111_2222_3333_4444).unwrap();
    data.write_u64::<LittleEndian>(0x5555_6666_7777_8888).unwrap();
    data.write_u32::<LittleEndian>(0x8000_0001).unwrap();
    data.write_u32::<LittleEndian>(0x0000_0400).unwrap();
    data.write_i32::<LittleEndian>(0x40).unwrap();
    data.write_i32::<LittleEndian>(0x50).unwrap();
    data.write_i32::<LittleEndian>(0x90).unwrap();
    data.write_i32::<LittleEndian>(-1).unwrap();
    data.write_i32::<LittleEndian>(0xA0).unwrap();
    data.write_i32::<LittleEndian>(0xB0).unwrap();
    data.write_i32::<LittleEndian>(0xB0 + 0x48).unwrap();
    data.write_i32::<LittleEndian>(0x200).unwrap();
    data.write_i32::<LittleEndian>(i32::MIN).unwrap();
    data.write_i32::<LittleEndian>(0x7777).unwrap();
    assert_eq!(data.len(), 64);
    let mut reader = ByteReader::new(data.clone());
    let summary = PackageSummary2::from_buffer(&mut reader, Endian::Little).unwrap();
    assert_eq!(
        summary,
        PackageSummary2 {
            name: FMappedName { value: 0x1111_2222_3333_4444 },
            source_name: FMappedName { value: 0x5555_6666_7777_8888 },
            package_flags: 0x8000_0001,
            cooked_header_size: 0x400,
            name_map_names_offset: 0x40,
            name_map_names_size: 0x50,
            name_map_hashes_offset: 0x90,
            name_map_hashes_size: -1,
            import_map_offset: 0xA0,
            export_map_offset: 0xB0,
            export_bundles_offset: 0xB0 + 0x48,
            graph_data_offset: 0x200,
            graph_data_size: i32::MIN,
            pad: 0,
        }
    );
    assert_eq!(reader.pos, 60);
    let mut reader = ByteReader::new(data);
    let offsets = PackageSummary2::to_package_summary(&mut reader, Endian::Little).unwrap();
    assert_eq!(offsets.export_offset() as i32, summary.export_map_offset);
    assert_eq!(offsets.export_bundle_offset() as i32, summary.export_bundles_offset);
    assert_eq!(offsets.graph_offset() as i32, summary.graph_data_offset);
    assert_eq!(offsets.get_export_count(), Ok(1));
}

#[test]
fn second_layout_needs_sixty_bytes() {
    let mut reader = ByteReader::new(vec![0; 59]);
    assert_eq!(
        PackageSummary2::from_buffer(&mut reader, Endian::Little),
        Err(PackageError::UnexpectedEof)
    );
    assert_eq!(reader.pos, 0);
    let mut reader = ByteReader::new(vec![0; 61]);
    reader.seek(2);
    assert_eq!(
        PackageSummary2::from_buffer(&mut reader, Endian::Big),
        Err(PackageError::UnexpectedEof)
    );
    assert_eq!(reader.pos, 2);
    reader.seek(1);
    assert!(PackageSummary2::from_buffer(&mut reader, Endian::Big).is_ok());
    assert_eq!(reader.pos, 61);
}
