//! The directory entry that a container header keeps for each package.
//!
//! An entry is built from the header of a packaged asset and serialized as
//! a fixed record. The hashes of the imported packages are not part of the
//! record: they go to a region behind all records, and the record points to
//! them by an offset relative to its own field.

use crate::endian::{
    bytes_of_u32, bytes_of_u64, lemma_u32_layout_len, lemma_u32_round_trip, lemma_u64_layout_len,
    lemma_u64_round_trip, Endian,
};
use crate::error::PackageError;
use crate::export_bundle::{bundle_at, ExportBundle, ExportBundleEntry};
use crate::graph::{graph_at, package_ids, packages_size, views_of, FGraphPackage, GraphPackage};
use crate::reader::{has_bytes, u32_at, u64_at, ByteReader};
use crate::summary::{
    inexact, summary_at, summary_of_layout, PackageIoSummaryDeserialize, PackageSummary2,
    PackageSummaryExports, SUMMARY2_OFFSETS_DISTANCE,
};
use crate::writer::{
    lemma_write_at_adjacent, lemma_write_at_keeps, lemma_write_at_reads_back,
    lemma_write_at_start, write_at, ByteWriter,
};
use vstd::prelude::*;

verus! {

/// The size in bytes of the fixed record of a directory entry.
pub const CONTAINER_HEADER_PACKAGE_SERIALIZED_SIZE: u64 = 0x20;

/// The distance from the start of the fixed record to the field that
/// counts the imported packages and points to their hashes.
pub const IMPORTED_PACKAGES_FIELD_DISTANCE: u64 = 0x18;

/// Where the parts of a container start, for an engine version. The
/// resolver stands for the context of that version; the known versions
/// answer without looking at it.
pub trait ContainerHeaderPosition {
    /// Where the container header starts.
    spec fn header_position() -> u64;

    /// Where the payload of the files starts.
    spec fn files_position() -> u64;

    /// The byte offset at which the container header starts.
    fn cursor_to_header<TResolver>(resolver: &mut TResolver) -> (position: u64)
        ensures
            position == Self::header_position(),
            *final(resolver) == *old(resolver),
    ;

    /// The byte offset at which the payload of the files starts.
    fn cursor_to_beginning_of_files<TResolver>(resolver: &mut TResolver) -> (position: u64)
        ensures
            position == Self::files_position(),
            *final(resolver) == *old(resolver),
    ;
}

/// The positions of the earlier engine versions: the header comes first
/// and the files start at a fixed distance.
pub struct ContainerHeaderPosition1;

impl ContainerHeaderPosition for ContainerHeaderPosition1 {
    open spec fn header_position() -> u64 {
        0
    }

    open spec fn files_position() -> u64 {
        0x10000
    }

    fn cursor_to_header<TResolver>(resolver: &mut TResolver) -> (position: u64) {
        0
    }

    fn cursor_to_beginning_of_files<TResolver>(resolver: &mut TResolver) -> (position: u64) {
        0x10000
    }
}

/// The positions of the later engine version. Both are zero for now: the
/// split is not computed yet.
pub struct ContainerHeaderPosition2;

impl ContainerHeaderPosition for ContainerHeaderPosition2 {
    open spec fn header_position() -> u64 {
        0
    }

    open spec fn files_position() -> u64 {
        0
    }

    fn cursor_to_header<TResolver>(resolver: &mut TResolver) -> (position: u64) {
        0
    }

    fn cursor_to_beginning_of_files<TResolver>(resolver: &mut TResolver) -> (position: u64) {
        0
    }
}

/// A directory entry as plain values.
pub struct StoreEntry {
    /// The hash that names the package.
    pub hash: u64,
    /// The size in bytes of the export bundles of the package.
    pub export_bundle_size: u64,
    /// The number of exports.
    pub export_count: u32,
    /// The number of export bundles.
    pub export_bundle_count: u32,
    /// The place in the load order.
    pub load_order: u32,
    /// The hashes that name the imported packages.
    pub import_ids: Seq<u64>,
}

/// The entry of one package in a container header.
#[derive(Clone, Debug, PartialEq, Eq)]
pub struct ContainerHeaderPackage {
    /// The hash that names the package.
    pub hash: u64,
    /// The size in bytes of the export bundles of the package.
    pub export_bundle_size: u64,
    /// The number of exports.
    pub export_count: u32,
    /// The number of export bundles.
    pub export_bundle_count: u32,
    /// The place in the load order. Both ways to build an entry set it to
    /// zero: the order is not derived yet.
    pub load_order: u32,
    /// The hashes that name the imported packages.
    pub import_ids: Vec<u64>,
}

/// The two parts of a serialized entry and where the second belongs.
#[derive(Clone, Debug, PartialEq, Eq)]
pub struct StoreEntryLayout {
    /// The fixed record.
    pub record: Vec<u8>,
    /// Where the hashes belong: the position that the record points to.
    pub hashes_position: u64,
    /// The hashes of the imported packages, one behind the other.
    pub hashes: Vec<u8>,
}

impl View for ContainerHeaderPackage {
    type V = StoreEntry;

    open spec fn view(&self) -> StoreEntry {
        StoreEntry {
            hash: self.hash,
            export_bundle_size: self.export_bundle_size,
            export_count: self.export_count,
            export_bundle_count: self.export_bundle_count,
            load_order: self.load_order,
            import_ids: self.import_ids@,
        }
    }
}

/// The entry of the package whose header starts at position `start` of
/// `bytes`, from a full decoding: the summary in the layout `S`, the export
/// bundle in the shape `B` and the dependency graph.
pub open spec fn full_entry_at<S: PackageIoSummaryDeserialize, B: ExportBundle>(
    bytes: Seq<u8>,
    start: int,
    order: Endian,
    hash: u64,
    size: u64,
) -> Result<StoreEntry, PackageError> {
    match summary_of_layout(S::offsets_distance(), bytes, start, order) {
        Err(e) => Err(e),
        Ok(offsets) => if !offsets.exact() {
            Err(inexact(offsets))
        } else {
            match bundle_at(
                B::header_size(),
                B::entry_count_distance(),
                bytes,
                start + offsets.export_bundle_offset,
                order,
            ) {
                Err(e) => Err(e),
                Ok(entries) => match B::derived_bundle_count(entries) {
                    Err(e) => Err(e),
                    Ok(export_bundle_count) => match graph_at(
                        bytes,
                        start + offsets.graph_offset,
                        order,
                    ) {
                        Err(e) => Err(e),
                        Ok(packages) => Ok(
                            StoreEntry {
                                hash,
                                export_bundle_size: size,
                                export_count: offsets.export_count() as u32,
                                export_bundle_count,
                                load_order: 0,
                                import_ids: package_ids(packages),
                            },
                        ),
                    },
                },
            }
        },
    }
}

/// The position behind the dependency graph of the package whose header
/// starts at position `start` of `bytes`.
pub open spec fn graph_end_at(distance: u64, bytes: Seq<u8>, start: int, order: Endian) -> int {
    let graph = start + summary_at(distance, bytes, start, order)->Ok_0.graph_offset;
    graph + 4 + packages_size(graph_at(bytes, graph, order)->Ok_0)
}

/// The entry of the package whose header starts `bytes`, from a shallow
/// decoding in the second summary layout: the bundle count is the count of
/// entries in the bundle header less the number of exports.
pub open spec fn shallow_entry_at(bytes: Seq<u8>, order: Endian, hash: u64, size: u64) -> Result<
    StoreEntry,
    PackageError,
> {
    match summary_at(SUMMARY2_OFFSETS_DISTANCE, bytes, 0, order) {
        Err(e) => Err(e),
        Ok(offsets) => if !offsets.exact() {
            Err(inexact(offsets))
        } else if !has_bytes(bytes, offsets.export_bundle_offset + 4, 4) {
            Err(PackageError::UnexpectedEof)
        } else {
            let entry_count = u32_at(bytes, offsets.export_bundle_offset + 4, order);
            if entry_count < offsets.export_count() {
                Err(
                    PackageError::EntryCountBelowExportCount {
                        entry_count,
                        export_count: offsets.export_count() as u32,
                    },
                )
            } else {
                match graph_at(bytes, offsets.graph_offset as int, order) {
                    Err(e) => Err(e),
                    Ok(packages) => Ok(
                        StoreEntry {
                            hash,
                            export_bundle_size: size,
                            export_count: offsets.export_count() as u32,
                            export_bundle_count: (entry_count - offsets.export_count()) as u32,
                            load_order: 0,
                            import_ids: package_ids(packages),
                        },
                    ),
                }
            }
        },
    }
}

/// The layout of the hashes of the imported packages, one behind the other.
pub open spec fn hashes_bytes(ids: Seq<u64>, order: Endian) -> Seq<u8>
    decreases ids.len(),
{
    if ids.len() == 0 {
        Seq::empty()
    } else {
        hashes_bytes(ids.drop_last(), order) + bytes_of_u64(ids.last(), order)
    }
}

/// The fixed record of an entry. The field for the bundle count always
/// holds 1, whatever the bundle count of the entry is: the readers of the
/// directory expect that value.
pub open spec fn store_entry_record(entry: StoreEntry, relative_offset: u32, order: Endian) -> Seq<
    u8,
> {
    bytes_of_u64(entry.export_bundle_size, order) + bytes_of_u32(entry.export_count, order)
        + bytes_of_u32(1, order) + bytes_of_u32(entry.load_order, order) + bytes_of_u32(0, order)
        + bytes_of_u32(entry.import_ids.len() as u32, order) + bytes_of_u32(
        relative_offset,
        order,
    )
}

/// Why an entry cannot be serialized with its record at `pos` and its
/// hashes at `base_offset + running_offset`, if it cannot.
pub open spec fn store_entry_failure(
    entry: StoreEntry,
    pos: u64,
    base_offset: u64,
    running_offset: u64,
) -> Option<PackageError> {
    let field = pos + 0x18;
    let region = base_offset + running_offset;
    if entry.import_ids.len() > u32::MAX {
        Some(PackageError::TooManyImportedPackages)
    } else if pos + 0x20 > usize::MAX {
        Some(PackageError::WriteOutOfRange)
    } else if entry.import_ids.len() == 0 {
        None
    } else if region < field || region - field > u32::MAX {
        Some(
            PackageError::RelativeOffsetOutOfRange {
                field_position: field as u64,
                base_offset,
                running_offset,
            },
        )
    } else if region + 8 * entry.import_ids.len() > usize::MAX {
        Some(PackageError::WriteOutOfRange)
    } else {
        None
    }
}

/// The distance from the field that points to the hashes to the hashes:
/// zero for an entry without imported packages.
pub open spec fn relative_offset_to_imports(
    entry: StoreEntry,
    pos: u64,
    base_offset: u64,
    running_offset: u64,
) -> u32 {
    if entry.import_ids.len() == 0 {
        0
    } else {
        (base_offset + running_offset - (pos + 0x18)) as u32
    }
}

/// The output after an entry has been serialized: its record stands at
/// `pos`, and its hashes, if it has any, at `base_offset + running_offset`.
pub open spec fn store_entry_written(
    bytes: Seq<u8>,
    pos: u64,
    entry: StoreEntry,
    base_offset: u64,
    running_offset: u64,
    order: Endian,
) -> Seq<u8> {
    let with_record = write_at(
        bytes,
        pos as int,
        store_entry_record(
            entry,
            relative_offset_to_imports(entry, pos, base_offset, running_offset),
            order,
        ),
    );
    write_at(with_record, base_offset + running_offset, hashes_bytes(entry.import_ids, order))
}

/// The layout of a list of hashes takes eight bytes for each.
pub proof fn lemma_hashes_bytes_len(ids: Seq<u64>, order: Endian)
    ensures
        hashes_bytes(ids, order).len() == 8 * ids.len(),
    decreases ids.len(),
{
    if ids.len() > 0 {
        lemma_hashes_bytes_len(ids.drop_last(), order);
    }
}

/// Extending a list of hashes by one extends its layout by that of the
/// hash.
pub proof fn lemma_hashes_bytes_push(ids: Seq<u64>, k: int, order: Endian)
    requires
        0 <= k < ids.len(),
    ensures
        hashes_bytes(ids.take(k + 1), order) == hashes_bytes(ids.take(k), order) + bytes_of_u64(
            ids[k],
            order,
        ),
{
    assert(ids.take(k + 1).drop_last() =~= ids.take(k));
}

/// The `count` hashes that stand from position `pos` of `bytes` on.
pub open spec fn hashes_at(bytes: Seq<u8>, pos: int, count: nat, order: Endian) -> Seq<u64> {
    Seq::new(count, |i: int| u64_at(bytes, pos + 8 * i, order))
}

/// The layout of a list of hashes holds the layout of each hash at eight
/// times its index.
pub proof fn lemma_hashes_bytes_slice(ids: Seq<u64>, i: int, order: Endian)
    requires
        0 <= i < ids.len(),
    ensures
        hashes_bytes(ids, order).len() == 8 * ids.len(),
        hashes_bytes(ids, order).subrange(8 * i, 8 * i + 8) == bytes_of_u64(ids[i], order),
    decreases ids.len(),
{
    let front = hashes_bytes(ids.drop_last(), order);
    let back = bytes_of_u64(ids.last(), order);
    lemma_hashes_bytes_len(ids.drop_last(), order);
    lemma_hashes_bytes_len(ids, order);
    lemma_u64_layout_len(ids.last(), order);
    if i == ids.len() - 1 {
        assert((front + back).subrange(8 * i, 8 * i + 8) =~= back);
    } else {
        lemma_hashes_bytes_slice(ids.drop_last(), i, order);
        assert((front + back).subrange(8 * i, 8 * i + 8) =~= front.subrange(8 * i, 8 * i + 8));
    }
}

/// The fixed record takes 0x20 bytes and holds the layout of each field at
/// its place.
pub proof fn lemma_store_entry_record_fields(
    entry: StoreEntry,
    relative_offset: u32,
    order: Endian,
)
    ensures
        ({
            let record = store_entry_record(entry, relative_offset, order);
            &&& record.len() == 0x20
            &&& record.subrange(0, 8) == bytes_of_u64(entry.export_bundle_size, order)
            &&& record.subrange(0x8, 0xC) == bytes_of_u32(entry.export_count, order)
            &&& record.subrange(0xC, 0x10) == bytes_of_u32(1, order)
            &&& record.subrange(0x10, 0x14) == bytes_of_u32(entry.load_order, order)
            &&& record.subrange(0x14, 0x18) == bytes_of_u32(0, order)
            &&& record.subrange(0x18, 0x1C) == bytes_of_u32(entry.import_ids.len() as u32, order)
            &&& record.subrange(0x1C, 0x20) == bytes_of_u32(relative_offset, order)
        }),
{
    let f1 = bytes_of_u64(entry.export_bundle_size, order);
    let f2 = bytes_of_u32(entry.export_count, order);
    let f3 = bytes_of_u32(1, order);
    let f4 = bytes_of_u32(entry.load_order, order);
    let f5 = bytes_of_u32(0, order);
    let f6 = bytes_of_u32(entry.import_ids.len() as u32, order);
    let f7 = bytes_of_u32(relative_offset, order);
    lemma_u64_layout_len(entry.export_bundle_size, order);
    lemma_u32_layout_len(entry.export_count, order);
    lemma_u32_layout_len(1, order);
    lemma_u32_layout_len(entry.load_order, order);
    lemma_u32_layout_len(0, order);
    lemma_u32_layout_len(entry.import_ids.len() as u32, order);
    lemma_u32_layout_len(relative_offset, order);
    let record = f1 + f2 + f3 + f4 + f5 + f6 + f7;
    assert(record.subrange(0, 8) =~= f1);
    assert(record.subrange(0x8, 0xC) =~= f2);
    assert(record.subrange(0xC, 0x10) =~= f3);
    assert(record.subrange(0x10, 0x14) =~= f4);
    assert(record.subrange(0x14, 0x18) =~= f5);
    assert(record.subrange(0x18, 0x1C) =~= f6);
    assert(record.subrange(0x1C, 0x20) =~= f7);
}

/// A serialized entry can be read back. Its record takes 0x20 bytes at the
/// position where it was written and holds the fields of the entry, with 1
/// in place of the bundle count. An entry without imported packages has
/// the relative offset zero, and nothing but its record is written. For
/// an entry with imported packages the relative offset leads from the
/// field at 0x18 of the record to `base_offset + running_offset`, where the
/// hashes stand as they are in the entry.
///
/// This holds where the hashes do not overlap the record.
pub proof fn lemma_store_entry_round_trip(
    bytes: Seq<u8>,
    pos: u64,
    entry: StoreEntry,
    base_offset: u64,
    running_offset: u64,
    order: Endian,
)
    requires
        store_entry_failure(entry, pos, base_offset, running_offset) is None,
        entry.import_ids.len() > 0 ==> base_offset + running_offset >= pos + 0x20,
    ensures
        ({
            let out = store_entry_written(bytes, pos, entry, base_offset, running_offset, order);
            let relative = relative_offset_to_imports(entry, pos, base_offset, running_offset);
            let record = store_entry_record(entry, relative, order);
            &&& record.len() == 0x20
            &&& has_bytes(out, pos as int, 0x20)
            &&& u64_at(out, pos as int, order) == entry.export_bundle_size
            &&& u32_at(out, pos + 0x8, order) == entry.export_count
            &&& u32_at(out, pos + 0xC, order) == 1
            &&& u32_at(out, pos + 0x10, order) == entry.load_order
            &&& u32_at(out, pos + 0x14, order) == 0
            &&& u32_at(out, pos + 0x18, order) == entry.import_ids.len()
            &&& u32_at(out, pos + 0x1C, order) == relative
            &&& entry.import_ids.len() == 0 ==> relative == 0 && out == write_at(
                bytes,
                pos as int,
                record,
            )
            &&& entry.import_ids.len() > 0 ==> pos + 0x18 + relative == base_offset
                + running_offset
            &&& has_bytes(out, pos + 0x18 + relative, 8 * (entry.import_ids.len() as int))
            &&& hashes_at(out, pos + 0x18 + relative, entry.import_ids.len(), order)
                == entry.import_ids
        }),
{
    let out = store_entry_written(bytes, pos, entry, base_offset, running_offset, order);
    let relative = relative_offset_to_imports(entry, pos, base_offset, running_offset);
    let record = store_entry_record(entry, relative, order);
    let ids = entry.import_ids;
    let p = pos as int;
    let with_record = write_at(bytes, p, record);
    let hashes = hashes_bytes(ids, order);
    let region = p + 0x18 + relative;
    lemma_store_entry_record_fields(entry, relative, order);
    lemma_hashes_bytes_len(ids, order);
    lemma_write_at_reads_back(bytes, p, record);
    assert(out.len() >= p + 0x20 && out.subrange(p, p + 0x20) == record) by {
        if ids.len() > 0 {
            lemma_write_at_keeps(with_record, region, hashes, p, p + 0x20);
        }
    }
    assert(out.len() >= region + 8 * ids.len() && out.subrange(region, region + 8 * ids.len())
        == hashes) by {
        if ids.len() > 0 {
            lemma_write_at_reads_back(with_record, region, hashes);
        } else {
            assert(out.subrange(region, region) =~= hashes);
        }
    }
    assert(out.subrange(p, p + 8) =~= record.subrange(0, 8));
    assert(out.subrange(p + 0x8, p + 0xC) =~= record.subrange(0x8, 0xC));
    assert(out.subrange(p + 0xC, p + 0x10) =~= record.subrange(0xC, 0x10));
    assert(out.subrange(p + 0x10, p + 0x14) =~= record.subrange(0x10, 0x14));
    assert(out.subrange(p + 0x14, p + 0x18) =~= record.subrange(0x14, 0x18));
    assert(out.subrange(p + 0x18, p + 0x1C) =~= record.subrange(0x18, 0x1C));
    assert(out.subrange(p + 0x1C, p + 0x20) =~= record.subrange(0x1C, 0x20));
    lemma_u64_round_trip(entry.export_bundle_size, order);
    lemma_u32_round_trip(entry.export_count, order);
    lemma_u32_round_trip(1, order);
    lemma_u32_round_trip(entry.load_order, order);
    lemma_u32_round_trip(0, order);
    lemma_u32_round_trip(ids.len() as u32, order);
    lemma_u32_round_trip(relative, order);
    assert forall|i: int| 0 <= i < ids.len() implies u64_at(out, region + 8 * i, order)
        == ids[i] by {
        lemma_hashes_bytes_slice(ids, i, order);
        assert(out.subrange(region + 8 * i, region + 8 * i + 8) =~= hashes.subrange(
            8 * i,
            8 * i + 8,
        ));
        lemma_u64_round_trip(ids[i], order);
    }
    assert(hashes_at(out, region, ids.len(), order) =~= ids);
}

/// The hashes that name a list of imported packages, in their order.
fn ids_of(packages: &Vec<FGraphPackage>) -> (ids: Vec<u64>)
    ensures
        ids@ == package_ids(views_of(packages@)),
{
    let mut ids: Vec<u64> = Vec::new();
    let mut done: usize = 0;
    while done < packages.len()
        invariant
            done <= packages@.len(),
            ids@ == package_ids(views_of(packages@)).take(done as int),
        decreases packages@.len() - done,
    {
        ids.push(packages[done].imported_package_id);
        done = done + 1;
        assert(ids@ =~= package_ids(views_of(packages@)).take(done as int));
    }
    assert(ids@ =~= package_ids(views_of(packages@)));
    ids
}

/// Writes a list of hashes at the cursor, one behind the other.
fn put_hashes(writer: &mut ByteWriter, ids: &Vec<u64>, order: Endian)
    requires
        old(writer).pos + 8 * ids@.len() <= usize::MAX,
    ensures
        final(writer).data@ == write_at(
            old(writer).data@,
            old(writer).pos as int,
            hashes_bytes(ids@, order),
        ),
        final(writer).pos == old(writer).pos + 8 * ids@.len(),
{
    let ghost before = writer.data@;
    let ghost start = writer.pos as int;
    let count: usize = ids.len();
    let mut done: usize = 0;
    assert(write_at(before, start, hashes_bytes(ids@.take(0), order)) =~= before);
    while done < count
        invariant
            done <= count,
            count == ids@.len(),
            0 <= start,
            start + 8 * count <= usize::MAX,
            writer.pos == start + 8 * done,
            writer.data@ == write_at(before, start, hashes_bytes(ids@.take(done as int), order)),
        decreases count - done,
    {
        let ghost so_far = hashes_bytes(ids@.take(done as int), order);
        let ghost next = bytes_of_u64(ids@[done as int], order);
        writer.put_u64(ids[done], order);
        proof {
            lemma_hashes_bytes_len(ids@.take(done as int), order);
            lemma_hashes_bytes_push(ids@, done as int, order);
            lemma_write_at_adjacent(before, start, so_far, next);
        }
        done = done + 1;
    }
    proof {
        assert(ids@.take(count as int) =~= ids@);
    }
}

impl ContainerHeaderPackage {
    /// Builds the entry of a package by decoding its header in full: the
    /// summary in the layout `TSummary`, then the export bundle in the shape
    /// `TExportBundle`, then the dependency graph. The header starts at the
    /// cursor, and the offsets of the summary count from there. The cursor
    /// is left behind the dependency graph.
    ///
    /// Fails, and leaves the cursor where it is, if one of the three cannot
    /// be decoded, if the export table does not hold a whole number of
    /// records, or if no bundle count can be derived.
    pub fn from_package_summary<
        TExportBundle: ExportBundle,
        TSummary: PackageIoSummaryDeserialize,
    >(file_reader: &mut ByteReader, order: Endian, hash: u64, size: u64) -> (r: Result<
        ContainerHeaderPackage,
        PackageError,
    >)
        ensures
            final(file_reader).data == old(file_reader).data,
            match r {
                Ok(package) => {
                    &&& full_entry_at::<TSummary, TExportBundle>(
                        old(file_reader).data@,
                        old(file_reader).pos as int,
                        order,
                        hash,
                        size,
                    ) == Ok::<StoreEntry, PackageError>(package@)
                    &&& TSummary::offsets_distance() matches Some(distance)
                    &&& final(file_reader).pos == graph_end_at(
                        distance,
                        old(file_reader).data@,
                        old(file_reader).pos as int,
                        order,
                    )
                },
                Err(e) => {
                    &&& full_entry_at::<TSummary, TExportBundle>(
                        old(file_reader).data@,
                        old(file_reader).pos as int,
                        order,
                        hash,
                        size,
                    ) == Err::<StoreEntry, PackageError>(e)
                    &&& final(file_reader).pos == old(file_reader).pos
                },
            },
    {
        let start: u64 = file_reader.stream_position();
        assert(file_reader.data.len() == file_reader.data@.len());
        let package_summary: PackageSummaryExports = match TSummary::to_package_summary(
            file_reader,
            order,
        ) {
            Ok(summary) => summary,
            Err(e) => {
                return Err(e);
            },
        };
        let export_bundle_offset: u32 = package_summary.export_bundle_offset();
        let graph_offset: u32 = package_summary.graph_offset();
        let export_count: u32 = match package_summary.get_export_count() {
            Ok(count) => count as u32,
            Err(e) => {
                file_reader.seek(start);
                return Err(e);
            },
        };
        if export_bundle_offset as u64 > u64::MAX - start {
            file_reader.seek(start);
            return Err(PackageError::UnexpectedEof);
        }
        file_reader.seek(start + export_bundle_offset as u64);
        let export_bundles: Vec<ExportBundleEntry> = match TExportBundle::from_buffer(
            file_reader,
            order,
        ) {
            Ok(entries) => entries,
            Err(e) => {
                file_reader.seek(start);
                return Err(e);
            },
        };
        let export_bundle_count: u32 = match TExportBundle::get_export_bundle_count(
            &export_bundles,
        ) {
            Ok(count) => count,
            Err(e) => {
                file_reader.seek(start);
                return Err(e);
            },
        };
        if graph_offset as u64 > u64::MAX - start {
            file_reader.seek(start);
            return Err(PackageError::UnexpectedEof);
        }
        file_reader.seek(start + graph_offset as u64);
        let graph_packages: Vec<FGraphPackage> = match FGraphPackage::list_from_buffer(
            file_reader,
            order,
        ) {
            Ok(packages) => packages,
            Err(e) => {
                file_reader.seek(start);
                return Err(e);
            },
        };
        let import_ids: Vec<u64> = ids_of(&graph_packages);
        let load_order: u32 = 0;
        Ok(
            ContainerHeaderPackage {
                hash,
                export_bundle_size: size,
                export_count,
                export_bundle_count,
                load_order,
                import_ids,
            },
        )
    }

    /// Builds the entry of a package by decoding only what the counts
    /// need. The header of the package starts the input and follows the
    /// second summary layout. The bundle count is the count of entries in
    /// the bundle header less the number of exports. The cursor is left
    /// behind the dependency graph.
    ///
    /// Fails, and leaves the cursor where it is, if the offsets, the count
    /// of entries or the dependency graph cannot be read, if the export
    /// table does not hold a whole number of records, or if the bundle
    /// header counts fewer entries than there are exports.
    pub fn from_header_package(reader: &mut ByteReader, order: Endian, hash: u64, size: u64) -> (r:
        Result<ContainerHeaderPackage, PackageError>)
        ensures
            final(reader).data == old(reader).data,
            match r {
                Ok(package) => {
                    &&& shallow_entry_at(old(reader).data@, order, hash, size) == Ok::<
                        StoreEntry,
                        PackageError,
                    >(package@)
                    &&& final(reader).pos == graph_end_at(
                        SUMMARY2_OFFSETS_DISTANCE,
                        old(reader).data@,
                        0,
                        order,
                    )
                },
                Err(e) => {
                    &&& shallow_entry_at(old(reader).data@, order, hash, size) == Err::<
                        StoreEntry,
                        PackageError,
                    >(e)
                    &&& final(reader).pos == old(reader).pos
                },
            },
    {
        let initial: u64 = reader.stream_position();
        reader.seek(0);
        let summary: PackageSummaryExports = match PackageSummary2::to_package_summary(
            reader,
            order,
        ) {
            Ok(summary) => summary,
            Err(e) => {
                reader.seek(initial);
                return Err(e);
            },
        };
        let export_bundle_offset: u32 = summary.export_bundle_offset();
        let graph_offset: u32 = summary.graph_offset();
        let export_count: u32 = match summary.get_export_count() {
            Ok(count) => count as u32,
            Err(e) => {
                reader.seek(initial);
                return Err(e);
            },
        };
        reader.seek(export_bundle_offset as u64 + 4);
        let export_bundle_count_serialized: u32 = match reader.read_u32(order) {
            Ok(count) => count,
            Err(e) => {
                reader.seek(initial);
                return Err(e);
            },
        };
        if export_bundle_count_serialized < export_count {
            reader.seek(initial);
            return Err(
                PackageError::EntryCountBelowExportCount {
                    entry_count: export_bundle_count_serialized,
                    export_count,
                },
            );
        }
        let export_bundle_count: u32 = export_bundle_count_serialized - export_count;
        reader.seek(graph_offset as u64);
        let graph_packages: Vec<FGraphPackage> = match FGraphPackage::list_from_buffer(
            reader,
            order,
        ) {
            Ok(packages) => packages,
            Err(e) => {
                reader.seek(initial);
                return Err(e);
            },
        };
        let import_ids: Vec<u64> = ids_of(&graph_packages);
        let load_order: u32 = 0;
        Ok(
            ContainerHeaderPackage {
                hash,
                export_bundle_size: size,
                export_count,
                export_bundle_count,
                load_order,
                import_ids,
            },
        )
    }
    /// Writes the fixed record of the entry at the cursor.
    fn put_record(&self, writer: &mut ByteWriter, relative_offset: u32, order: Endian)
        requires
            old(writer).pos + 0x20 <= usize::MAX,
            self@.import_ids.len() <= u32::MAX,
        ensures
            final(writer).data@ == write_at(
                old(writer).data@,
                old(writer).pos as int,
                store_entry_record(self@, relative_offset, order),
            ),
            final(writer).pos == old(writer).pos + 0x20,
    {
        let count: u32 = self.import_ids.len() as u32;
        let ghost before = writer.data@;
        let ghost p = writer.pos as int;
        let ghost s1 = bytes_of_u64(self.export_bundle_size, order);
        let ghost s2 = s1 + bytes_of_u32(self.export_count, order);
        let ghost s3 = s2 + bytes_of_u32(1, order);
        let ghost s4 = s3 + bytes_of_u32(self.load_order, order);
        let ghost s5 = s4 + bytes_of_u32(0, order);
        let ghost s6 = s5 + bytes_of_u32(count, order);
        writer.put_u64(self.export_bundle_size, order);
        writer.put_u32(self.export_count, order);
        proof {
            lemma_u64_layout_len(self.export_bundle_size, order);
            lemma_write_at_adjacent(before, p, s1, bytes_of_u32(self.export_count, order));
        }
        writer.put_u32(1, order);
        proof {
            lemma_u32_layout_len(self.export_count, order);
            lemma_write_at_adjacent(before, p, s2, bytes_of_u32(1, order));
        }
        writer.put_u32(self.load_order, order);
        proof {
            lemma_u32_layout_len(1, order);
            lemma_write_at_adjacent(before, p, s3, bytes_of_u32(self.load_order, order));
        }
        writer.put_u32(0, order);
        proof {
            lemma_u32_layout_len(self.load_order, order);
            lemma_write_at_adjacent(before, p, s4, bytes_of_u32(0, order));
        }
        writer.put_u32(count, order);
        proof {
            lemma_u32_layout_len(0, order);
            lemma_write_at_adjacent(before, p, s5, bytes_of_u32(count, order));
        }
        writer.put_u32(relative_offset, order);
        proof {
            lemma_u32_layout_len(count, order);
            lemma_write_at_adjacent(before, p, s6, bytes_of_u32(relative_offset, order));
        }
    }

    /// Lays the entry out for a stream whose cursor stands at `position`:
    /// the fixed record, which belongs at the cursor, and the hashes of
    /// the imported packages, which belong at `base_offset + *curr_offset`.
    /// `curr_offset` grows by the size of the hashes, so that the hashes of
    /// the next entry follow them. The record points to the hashes by
    /// their distance from its field at 0x18.
    ///
    /// The field for the bundle count always holds 1.
    ///
    /// Fails, and changes nothing, if there are more imported packages
    /// than a 32-bit count holds, if the hashes do not lie within 32 bits
    /// behind that field, or if a part would end beyond the largest
    /// position that a buffer can hold.
    pub fn store_entry_layout(
        &self,
        order: Endian,
        position: u64,
        base_offset: u64,
        curr_offset: &mut u64,
    ) -> (r: Result<StoreEntryLayout, PackageError>)
        ensures
            match r {
                Ok(layout) => {
                    &&& store_entry_failure(self@, position, base_offset, *old(curr_offset))
                        is None
                    &&& layout.record@ == store_entry_record(
                        self@,
                        relative_offset_to_imports(
                            self@,
                            position,
                            base_offset,
                            *old(curr_offset),
                        ),
                        order,
                    )
                    &&& layout.hashes@ == hashes_bytes(self@.import_ids, order)
                    &&& layout.hashes_position == position + 0x18 + relative_offset_to_imports(
                        self@,
                        position,
                        base_offset,
                        *old(curr_offset),
                    )
                    &&& self@.import_ids.len() > 0 ==> layout.hashes_position == base_offset
                        + *old(curr_offset)
                    &&& *final(curr_offset) == *old(curr_offset) + 8 * self@.import_ids.len()
                },
                Err(e) => {
                    &&& store_entry_failure(self@, position, base_offset, *old(curr_offset))
                        == Some(e)
                    &&& *final(curr_offset) == *old(curr_offset)
                },
            },
    {
        let count: usize = self.import_ids.len();
        if count > u32::MAX as usize {
            return Err(PackageError::TooManyImportedPackages);
        }
        if position as u128 + 0x20 > usize::MAX as u128 {
            return Err(PackageError::WriteOutOfRange);
        }
        let field: u64 = position + IMPORTED_PACKAGES_FIELD_DISTANCE;
        let mut relative_offset: u32 = 0;
        if count > 0 {
            let target: u128 = base_offset as u128 + *curr_offset as u128;
            if target < field as u128 || target - field as u128 > u32::MAX as u128 {
                return Err(
                    PackageError::RelativeOffsetOutOfRange {
                        field_position: field,
                        base_offset,
                        running_offset: *curr_offset,
                    },
                );
            }
            if target + 8 * (count as u128) > usize::MAX as u128 {
                return Err(PackageError::WriteOutOfRange);
            }
            relative_offset = (target - field as u128) as u32;
        }
        let mut record_writer: ByteWriter = ByteWriter::new();
        self.put_record(&mut record_writer, relative_offset, order);
        let mut hashes_writer: ByteWriter = ByteWriter::new();
        put_hashes(&mut hashes_writer, &self.import_ids, order);
        proof {
            lemma_store_entry_record_fields(self@, relative_offset, order);
            lemma_hashes_bytes_len(self@.import_ids, order);
            lemma_write_at_start(store_entry_record(self@, relative_offset, order));
            lemma_write_at_start(hashes_bytes(self@.import_ids, order));
        }
        *curr_offset = *curr_offset + 8 * (count as u64);
        Ok(
            StoreEntryLayout {
                record: record_writer.data,
                hashes_position: field + relative_offset as u64,
                hashes: hashes_writer.data,
            },
        )
    }

    /// Writes the fixed record of the entry at the cursor and leaves the
    /// cursor behind it. The hashes of the imported packages, if there are
    /// any, go to `base_offset + *curr_offset`, and `curr_offset` grows by
    /// their size, so that the hashes of the next entry follow them. The
    /// record points to the hashes by their distance from its field at
    /// 0x18.
    ///
    /// The field for the bundle count always holds 1.
    ///
    /// Fails, and changes nothing, if there are more imported packages
    /// than a 32-bit count holds, if the hashes do not lie within 32 bits
    /// behind that field, or if a write would end beyond the largest
    /// position that the buffer can hold.
    pub fn to_buffer_store_entry(
        &self,
        writer: &mut ByteWriter,
        order: Endian,
        base_offset: u64,
        curr_offset: &mut u64,
    ) -> (r: Result<(), PackageError>)
        ensures
            match r {
                Ok(_) => {
                    &&& store_entry_failure(self@, old(writer).pos, base_offset, *old(curr_offset))
                        is None
                    &&& final(writer).data@ == store_entry_written(
                        old(writer).data@,
                        old(writer).pos,
                        self@,
                        base_offset,
                        *old(curr_offset),
                        order,
                    )
                    &&& final(writer).pos == old(writer).pos + 0x20
                    &&& *final(curr_offset) == *old(curr_offset) + 8 * self@.import_ids.len()
                },
                Err(e) => {
                    &&& store_entry_failure(self@, old(writer).pos, base_offset, *old(curr_offset))
                        == Some(e)
                    &&& *final(writer) == *old(writer)
                    &&& *final(curr_offset) == *old(curr_offset)
                },
            },
    {
        let start: u64 = writer.stream_position();
        let layout: StoreEntryLayout = match self.store_entry_layout(
            order,
            start,
            base_offset,
            curr_offset,
        ) {
            Ok(layout) => layout,
            Err(e) => {
                return Err(e);
            },
        };
        proof {
            lemma_store_entry_record_fields(
                self@,
                relative_offset_to_imports(self@, start, base_offset, *old(curr_offset)),
                order,
            );
            lemma_hashes_bytes_len(self@.import_ids, order);
        }
        writer.put_bytes(layout.record.as_slice());
        let return_ptr: u64 = writer.stream_position();
        writer.seek(layout.hashes_position);
        writer.put_bytes(layout.hashes.as_slice());
        writer.seek(return_ptr);
        Ok(())
    }
}

} // verus!
