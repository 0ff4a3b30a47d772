//! The summary that opens a package header, in its historical layouts.
//!
//! Every layout stores three byte offsets, counted from the start of the
//! header, at a position of its own: where the export table starts, where
//! the export bundles start and where the dependency graph starts. A layout
//! is chosen by the caller; the bytes do not say which one they follow.

use crate::endian::Endian;
use crate::error::PackageError;
use crate::mapped_name::FMappedName;
use crate::reader::{has_bytes, i32_at, u32_at, u64_at, ByteReader};
use vstd::prelude::*;

verus! {

/// The size in bytes of one serialized record of the export table.
pub const IO_PACKAGE_FEXPORTMAP_SERIALIZED_SIZE: u64 = 0x48;

/// The three offsets of a summary as plain numbers.
pub struct SummaryOffsets {
    /// Where the export table starts.
    pub export_offset: u32,
    /// Where the export bundles start.
    pub export_bundle_offset: u32,
    /// Where the dependency graph starts.
    pub graph_offset: u32,
}

impl SummaryOffsets {
    /// The offsets ascend, so that no region has a negative size.
    pub open spec fn ascending(self) -> bool {
        self.export_offset <= self.export_bundle_offset <= self.graph_offset
    }

    /// The number of whole export records between the start of the export
    /// table and the start of the export bundles.
    pub open spec fn export_count(self) -> int {
        (self.export_bundle_offset - self.export_offset) / 0x48
    }

    /// The export table holds a whole number of export records.
    pub open spec fn exact(self) -> bool {
        (self.export_bundle_offset - self.export_offset) % 0x48 == 0
    }
}

/// The failure that tells that an export table does not hold a whole number
/// of export records.
pub open spec fn inexact(offsets: SummaryOffsets) -> PackageError {
    PackageError::InexactExportTable {
        export_offset: offsets.export_offset,
        export_bundle_offset: offsets.export_bundle_offset,
    }
}

/// The offsets that stand at position `pos` of `bytes`, or the reason why
/// there are none.
pub open spec fn offsets_at(bytes: Seq<u8>, pos: int, order: Endian) -> Result<
    SummaryOffsets,
    PackageError,
> {
    if !has_bytes(bytes, pos, 12) {
        Err(PackageError::UnexpectedEof)
    } else {
        let offsets = SummaryOffsets {
            export_offset: u32_at(bytes, pos, order),
            export_bundle_offset: u32_at(bytes, pos + 4, order),
            graph_offset: u32_at(bytes, pos + 8, order),
        };
        if offsets.ascending() {
            Ok(offsets)
        } else {
            Err(
                PackageError::OffsetsOutOfOrder {
                    export_offset: offsets.export_offset,
                    export_bundle_offset: offsets.export_bundle_offset,
                    graph_offset: offsets.graph_offset,
                },
            )
        }
    }
}

/// The part of a package summary that a container directory is built from.
///
/// The offsets of a value of this type always ascend.
pub struct PackageSummaryExports {
    export_offset: u32,
    export_bundle_offset: u32,
    graph_offset: u32,
}

impl View for PackageSummaryExports {
    type V = SummaryOffsets;

    closed spec fn view(&self) -> SummaryOffsets {
        SummaryOffsets {
            export_offset: self.export_offset,
            export_bundle_offset: self.export_bundle_offset,
            graph_offset: self.graph_offset,
        }
    }
}

impl PackageSummaryExports {
    #[verifier::type_invariant]
    spec fn ascending(self) -> bool {
        self.export_offset <= self.export_bundle_offset <= self.graph_offset
    }

    /// A summary with the given offsets, if they ascend.
    pub fn new(export_offset: u32, export_bundle_offset: u32, graph_offset: u32) -> (r: Result<
        PackageSummaryExports,
        PackageError,
    >)
        ensures
            match r {
                Ok(summary) => {
                    &&& summary@ == (SummaryOffsets {
                        export_offset,
                        export_bundle_offset,
                        graph_offset,
                    })
                    &&& summary@.ascending()
                },
                Err(e) => {
                    &&& e == (PackageError::OffsetsOutOfOrder {
                        export_offset,
                        export_bundle_offset,
                        graph_offset,
                    })
                    &&& !(export_offset <= export_bundle_offset <= graph_offset)
                },
            },
    {
        if export_offset <= export_bundle_offset && export_bundle_offset <= graph_offset {
            Ok(PackageSummaryExports { export_offset, export_bundle_offset, graph_offset })
        } else {
            Err(
                PackageError::OffsetsOutOfOrder {
                    export_offset,
                    export_bundle_offset,
                    graph_offset,
                },
            )
        }
    }

    /// Where the export table starts.
    pub fn export_offset(&self) -> (offset: u32)
        ensures
            offset == self@.export_offset,
    {
        self.export_offset
    }

    /// Where the export bundles start.
    pub fn export_bundle_offset(&self) -> (offset: u32)
        ensures
            offset == self@.export_bundle_offset,
            self@.export_offset <= offset,
    {
        proof {
            use_type_invariant(self);
        }
        self.export_bundle_offset
    }

    /// Where the dependency graph starts.
    pub fn graph_offset(&self) -> (offset: u32)
        ensures
            offset == self@.graph_offset,
            self@.export_bundle_offset <= offset,
    {
        proof {
            use_type_invariant(self);
        }
        self.graph_offset
    }

    /// The number of export records that the export table holds: the
    /// distance from the start of the export table to the start of the
    /// export bundles, divided by the size of one record.
    ///
    /// Fails if that distance is not a whole number of records: the header
    /// does not follow the layout that it was read in.
    pub fn get_export_count(&self) -> (r: Result<u64, PackageError>)
        ensures
            self@.ascending(),
            match r {
                Ok(count) => {
                    &&& self@.exact()
                    &&& count == self@.export_count()
                    &&& count * 0x48 == self@.export_bundle_offset - self@.export_offset
                },
                Err(e) => !self@.exact() && e == inexact(self@),
            },
    {
        proof {
            use_type_invariant(self);
        }
        let gap: u64 = (self.export_bundle_offset - self.export_offset) as u64;
        if gap % IO_PACKAGE_FEXPORTMAP_SERIALIZED_SIZE != 0 {
            return Err(
                PackageError::InexactExportTable {
                    export_offset: self.export_offset,
                    export_bundle_offset: self.export_bundle_offset,
                },
            );
        }
        Ok(gap / IO_PACKAGE_FEXPORTMAP_SERIALIZED_SIZE)
    }

    /// The bundle count that the summary itself records: none. The count of
    /// a package is derived from its export bundle entries.
    pub fn get_export_bundle_count(&self) -> (count: u64)
        ensures
            count == 0,
    {
        0
    }
}

/// A layout of the package summary.
pub trait PackageIoSummaryDeserialize {
    /// The distance from the start of the header to the three offsets, for
    /// a layout that has a decoder.
    spec fn offsets_distance() -> Option<u64>;

    /// Reads the three offsets of a summary whose header starts at the
    /// cursor, and leaves the cursor behind them.
    ///
    /// Fails, and leaves the cursor where it is, if the layout has no
    /// decoder, if the input ends before the last offset does, or if the
    /// offsets do not ascend.
    fn to_package_summary(reader: &mut ByteReader, order: Endian) -> (r: Result<
        PackageSummaryExports,
        PackageError,
    >)
        ensures
            final(reader).data == old(reader).data,
            r matches Ok(summary) ==> {
                &&& Self::offsets_distance() matches Some(distance)
                &&& summary_at(distance, old(reader).data@, old(reader).pos as int, order) == Ok::<
                    SummaryOffsets,
                    PackageError,
                >(summary@)
                &&& final(reader).pos == old(reader).pos + distance + 12
            },
            r matches Err(e) ==> {
                &&& summary_of_layout(
                    Self::offsets_distance(),
                    old(reader).data@,
                    old(reader).pos as int,
                    order,
                ) == Err::<SummaryOffsets, PackageError>(e)
                &&& final(reader).pos == old(reader).pos
            },
    ;
}

/// The offsets of a summary whose header starts at `start` and whose
/// layout keeps them `distance` bytes behind the start.
pub open spec fn summary_at(distance: u64, bytes: Seq<u8>, start: int, order: Endian) -> Result<
    SummaryOffsets,
    PackageError,
> {
    offsets_at(bytes, start + distance, order)
}

/// The offsets of a summary in a layout that may lack a decoder.
pub open spec fn summary_of_layout(
    distance: Option<u64>,
    bytes: Seq<u8>,
    start: int,
    order: Endian,
) -> Result<SummaryOffsets, PackageError> {
    match distance {
        Some(d) => summary_at(d, bytes, start, order),
        None => Err(PackageError::UnsupportedLayout),
    }
}

/// Reads the three offsets that stand `distance` bytes behind the cursor.
fn read_summary(distance: u64, reader: &mut ByteReader, order: Endian) -> (r: Result<
    PackageSummaryExports,
    PackageError,
>)
    ensures
        final(reader).data == old(reader).data,
        r matches Ok(summary) ==> {
            &&& summary_at(distance, old(reader).data@, old(reader).pos as int, order) == Ok::<
                SummaryOffsets,
                PackageError,
            >(summary@)
            &&& final(reader).pos == old(reader).pos + distance + 12
        },
        r matches Err(e) ==> {
            &&& summary_at(distance, old(reader).data@, old(reader).pos as int, order) == Err::<
                SummaryOffsets,
                PackageError,
            >(e)
            &&& final(reader).pos == old(reader).pos
        },
{
    let start: u64 = reader.stream_position();
    let len: u64 = reader.data.len() as u64;
    if start > len || len - start < distance || len - start - distance < 12 {
        return Err(PackageError::UnexpectedEof);
    }
    reader.seek(start + distance);
    let export_offset: u32 = reader.get_u32(order);
    let export_bundle_offset: u32 = reader.get_u32(order);
    let graph_offset: u32 = reader.get_u32(order);
    match PackageSummaryExports::new(export_offset, export_bundle_offset, graph_offset) {
        Ok(summary) => Ok(summary),
        Err(e) => {
            reader.seek(start);
            Err(e)
        },
    }
}

/// The distance from the start of the header to the offsets in the layout
/// of the earliest engine family.
pub const SUMMARY1_OFFSETS_DISTANCE: u64 = 0x0C;

/// The distance from the start of the header to the offsets in the layout
/// that two later releases of the same engine generation share.
pub const SUMMARY2_OFFSETS_DISTANCE: u64 = 0x2C;

/// The distance from the start of the header to the offsets in the first
/// layout of the following engine generation.
pub const ZEN_SUMMARY1_OFFSETS_DISTANCE: u64 = 0x20;

/// The summary layout of the earliest engine family.
#[allow(dead_code)]
pub struct PackageSummary1 {
    package_flags: u32,
    name_map_offset: i32,
    import_map_offset: i32,
    export_map_offset: i32,
    export_bundle_offset: i32,
    graph_data_offset: i32,
    graph_data_size: i32,
    bulk_data_start_offset: i32,
    global_import_index: i32,
    padding: i32,
}

impl PackageIoSummaryDeserialize for PackageSummary1 {
    open spec fn offsets_distance() -> Option<u64> {
        Some(SUMMARY1_OFFSETS_DISTANCE)
    }

    fn to_package_summary(reader: &mut ByteReader, order: Endian) -> (r: Result<
        PackageSummaryExports,
        PackageError,
    >) {
        read_summary(SUMMARY1_OFFSETS_DISTANCE, reader, order)
    }
}

/// The summary layout that two later releases of the same engine generation
/// share. It carries the name and identity of the package before the
/// offsets.
#[derive(Clone, Copy, Debug, PartialEq, Eq)]
pub struct PackageSummary2 {
    pub name: FMappedName,
    pub source_name: FMappedName,
    pub package_flags: u32,
    pub cooked_header_size: u32,
    pub name_map_names_offset: i32,
    pub name_map_names_size: i32,
    pub name_map_hashes_offset: i32,
    pub name_map_hashes_size: i32,
    pub import_map_offset: i32,
    pub export_map_offset: i32,
    pub export_bundles_offset: i32,
    pub graph_data_offset: i32,
    pub graph_data_size: i32,
    pub pad: i32,
}

impl PackageIoSummaryDeserialize for PackageSummary2 {
    open spec fn offsets_distance() -> Option<u64> {
        Some(SUMMARY2_OFFSETS_DISTANCE)
    }

    fn to_package_summary(reader: &mut ByteReader, order: Endian) -> (r: Result<
        PackageSummaryExports,
        PackageError,
    >) {
        read_summary(SUMMARY2_OFFSETS_DISTANCE, reader, order)
    }
}

/// The number of bytes that the fields of the second layout take, the
/// padding at its end left out.
pub const SUMMARY2_SERIALIZED_SIZE: u64 = 60;

/// The summary in the second layout that starts at position `pos` of
/// `bytes`. The padding is not read and comes out as zero.
pub open spec fn summary2_at(bytes: Seq<u8>, pos: int, order: Endian) -> PackageSummary2 {
    PackageSummary2 {
        name: FMappedName { value: u64_at(bytes, pos, order) },
        source_name: FMappedName { value: u64_at(bytes, pos + 8, order) },
        package_flags: u32_at(bytes, pos + 16, order),
        cooked_header_size: u32_at(bytes, pos + 20, order),
        name_map_names_offset: i32_at(bytes, pos + 24, order),
        name_map_names_size: i32_at(bytes, pos + 28, order),
        name_map_hashes_offset: i32_at(bytes, pos + 32, order),
        name_map_hashes_size: i32_at(bytes, pos + 36, order),
        import_map_offset: i32_at(bytes, pos + 40, order),
        export_map_offset: i32_at(bytes, pos + 44, order),
        export_bundles_offset: i32_at(bytes, pos + 48, order),
        graph_data_offset: i32_at(bytes, pos + 52, order),
        graph_data_size: i32_at(bytes, pos + 56, order),
        pad: 0,
    }
}

impl PackageSummary2 {
    /// Reads every field of a summary that starts at the cursor, and leaves
    /// the cursor behind the last field.
    ///
    /// Fails, and leaves the cursor where it is, if the input ends before
    /// the last field does.
    pub fn from_buffer(reader: &mut ByteReader, order: Endian) -> (r: Result<
        PackageSummary2,
        PackageError,
    >)
        ensures
            final(reader).data == old(reader).data,
            match r {
                Ok(summary) => {
                    &&& has_bytes(old(reader).data@, old(reader).pos as int, 60)
                    &&& summary == summary2_at(old(reader).data@, old(reader).pos as int, order)
                    &&& final(reader).pos == old(reader).pos + 60
                },
                Err(e) => {
                    &&& e == PackageError::UnexpectedEof
                    &&& !has_bytes(old(reader).data@, old(reader).pos as int, 60)
                    &&& final(reader).pos == old(reader).pos
                },
            },
    {
        if !reader.has_remaining(SUMMARY2_SERIALIZED_SIZE) {
            return Err(PackageError::UnexpectedEof);
        }
        let name: FMappedName = reader.get_u64(order).into();
        let source_name: FMappedName = reader.get_u64(order).into();
        let package_flags: u32 = reader.get_u32(order);
        let cooked_header_size: u32 = reader.get_u32(order);
        let name_map_names_offset: i32 = reader.get_i32(order);
        let name_map_names_size: i32 = reader.get_i32(order);
        let name_map_hashes_offset: i32 = reader.get_i32(order);
        let name_map_hashes_size: i32 = reader.get_i32(order);
        let import_map_offset: i32 = reader.get_i32(order);
        let export_map_offset: i32 = reader.get_i32(order);
        let export_bundles_offset: i32 = reader.get_i32(order);
        let graph_data_offset: i32 = reader.get_i32(order);
        let graph_data_size: i32 = reader.get_i32(order);
        Ok(
            PackageSummary2 {
                name,
                source_name,
                package_flags,
                cooked_header_size,
                name_map_names_offset,
                name_map_names_size,
                name_map_hashes_offset,
                name_map_hashes_size,
                import_map_offset,
                export_map_offset,
                export_bundles_offset,
                graph_data_offset,
                graph_data_size,
                pad: 0,
            },
        )
    }
}

/// The first summary layout of the following engine generation.
#[allow(dead_code)]
pub struct ZenPackageSummaryType1 {
    bool_has_version_info: u32,
    header_size: u32,
    name: FMappedName,
    package_flags: u32,
    cooked_header_size: u32,
    imported_public_export_hashes_offset: i32,
    import_map_offset: i32,
    export_map_offset: i32,
    export_bundle_entries_offset: i32,
    graph_data_offset: i32,
}

impl PackageIoSummaryDeserialize for ZenPackageSummaryType1 {
    open spec fn offsets_distance() -> Option<u64> {
        Some(ZEN_SUMMARY1_OFFSETS_DISTANCE)
    }

    fn to_package_summary(reader: &mut ByteReader, order: Endian) -> (r: Result<
        PackageSummaryExports,
        PackageError,
    >) {
        read_summary(ZEN_SUMMARY1_OFFSETS_DISTANCE, reader, order)
    }
}

/// The second summary layout of that generation. It has no single offset
/// of a dependency graph: its dependencies stand in bundle headers, bundle
/// entries and a table of package names. It has no decoder.
#[allow(dead_code)]
pub struct ZenPackageSummaryType2 {
    bool_has_version_info: u32,
    header_size: u32,
    name: FMappedName,
    package_flags: u32,
    cooked_header_size: u32,
    imported_public_export_hases_offset: i32,
    import_map_offset: i32,
    export_map_offset: i32,
    export_bundle_entries_offset: i32,
    dependency_bundle_headers_offset: i32,
    dependency_bundle_entries_offset: i32,
    imported_package_names_offset: i32,
}

impl PackageIoSummaryDeserialize for ZenPackageSummaryType2 {
    open spec fn offsets_distance() -> Option<u64> {
        None
    }

    /// Always fails with [`PackageError::UnsupportedLayout`], whatever the
    /// input holds, and reads nothing.
    fn to_package_summary(reader: &mut ByteReader, order: Endian) -> (r: Result<
        PackageSummaryExports,
        PackageError,
    >)
        ensures
            r == Err::<PackageSummaryExports, PackageError>(PackageError::UnsupportedLayout),
            *final(reader) == *old(reader),
    {
        Err(PackageError::UnsupportedLayout)
    }
}

} // verus!
