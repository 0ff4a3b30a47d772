//! The export table of a package: one fixed record for each export.

use crate::endian::{bytes_of_u32, bytes_of_u64, lemma_u32_layout_len, lemma_u64_layout_len, Endian};
use crate::error::PackageError;
use crate::mapped_name::FMappedName;
use crate::object_index::{IoStoreObjectIndex, ObjectReference};
use crate::resolve::{collect_resolved, resolved_before, ResolutionError, ResolvedEntry};
use crate::writer::{lemma_write_at_adjacent, u64_of_i64, unsigned_of_i64, write_at, ByteWriter};
use vstd::prelude::*;

verus! {

/// The flags of an object.
pub type ObjectFlags = u32;

/// The flags that filter an export by the kind of target.
pub type ExportFilterFlags = u8;

/// One export as plain values.
pub struct ExportRecord {
    /// Where the serialized export starts.
    pub cooked_serial_offset: i64,
    /// The size in bytes of the serialized export.
    pub cooked_serial_size: i64,
    /// The name of the export.
    pub object_name: FMappedName,
    /// The object that the export lies in.
    pub outer_index: ObjectReference,
    /// The class of the export.
    pub class_name: ObjectReference,
    /// The class that its class extends.
    pub super_name: ObjectReference,
    /// The object that the export was made from.
    pub template_name: ObjectReference,
    /// The name under which other packages import the export.
    pub global_import_name: ObjectReference,
    /// The flags of the object.
    pub object_flags: u32,
    /// The filter flags.
    pub filter_flags: u8,
}

/// The record of one export in the layout of the earlier engine
/// generation.
#[derive(Debug)]
pub struct ObjectExport2 {
    /// Where the serialized export starts.
    pub cooked_serial_offset: i64,
    /// The size in bytes of the serialized export.
    pub cooked_serial_size: i64,
    /// The name of the export.
    pub object_name: FMappedName,
    /// The object that the export lies in.
    pub outer_index: IoStoreObjectIndex,
    /// The class of the export.
    pub class_name: IoStoreObjectIndex,
    /// The class that its class extends.
    pub super_name: IoStoreObjectIndex,
    /// The object that the export was made from.
    pub template_name: IoStoreObjectIndex,
    /// The name under which other packages import the export.
    pub global_import_name: IoStoreObjectIndex,
    /// The flags of the object.
    pub object_flags: ObjectFlags,
    /// The filter flags. They are not serialized yet: the record holds zero
    /// in their place.
    pub filter_flags: ExportFilterFlags,
}

impl View for ObjectExport2 {
    type V = ExportRecord;

    open spec fn view(&self) -> ExportRecord {
        ExportRecord {
            cooked_serial_offset: self.cooked_serial_offset,
            cooked_serial_size: self.cooked_serial_size,
            object_name: self.object_name,
            outer_index: self.outer_index@,
            class_name: self.class_name@,
            super_name: self.super_name@,
            template_name: self.template_name@,
            global_import_name: self.global_import_name@,
            object_flags: self.object_flags,
            filter_flags: self.filter_flags,
        }
    }
}

/// The size in bytes of one serialized export record.
pub const OBJECT_EXPORT2_SERIALIZED_SIZE: u64 = 0x48;

/// The views of a list of export records.
pub open spec fn records_of(map: Seq<ObjectExport2>) -> Seq<ExportRecord> {
    map.map_values(|e: ObjectExport2| e@)
}

/// The layout of one export record: offset and size as signed 64-bit
/// numbers, the name, the five references, the flags, and zero in place of
/// the filter flags.
pub open spec fn export_record_bytes(record: ExportRecord, order: Endian) -> Seq<u8> {
    bytes_of_u64(u64_of_i64(record.cooked_serial_offset), order) + bytes_of_u64(
        u64_of_i64(record.cooked_serial_size),
        order,
    ) + bytes_of_u64(record.object_name.value, order) + bytes_of_u64(
        record.outer_index.encoding(order),
        order,
    ) + bytes_of_u64(record.class_name.encoding(order), order) + bytes_of_u64(
        record.super_name.encoding(order),
        order,
    ) + bytes_of_u64(record.template_name.encoding(order), order) + bytes_of_u64(
        record.global_import_name.encoding(order),
        order,
    ) + bytes_of_u32(record.object_flags, order) + bytes_of_u32(0, order)
}

/// The layout of a list of export records, one behind the other.
pub open spec fn export_records_bytes(records: Seq<ExportRecord>, order: Endian) -> Seq<u8>
    decreases records.len(),
{
    if records.len() == 0 {
        Seq::empty()
    } else {
        export_records_bytes(records.drop_last(), order) + export_record_bytes(
            records.last(),
            order,
        )
    }
}

/// The layout of one export record takes 0x48 bytes.
pub proof fn lemma_export_record_bytes_len(record: ExportRecord, order: Endian)
    ensures
        export_record_bytes(record, order).len() == 0x48,
{
    lemma_u64_layout_len(u64_of_i64(record.cooked_serial_offset), order);
    lemma_u64_layout_len(u64_of_i64(record.cooked_serial_size), order);
    lemma_u64_layout_len(record.object_name.value, order);
    lemma_u64_layout_len(record.outer_index.encoding(order), order);
    lemma_u64_layout_len(record.class_name.encoding(order), order);
    lemma_u64_layout_len(record.super_name.encoding(order), order);
    lemma_u64_layout_len(record.template_name.encoding(order), order);
    lemma_u64_layout_len(record.global_import_name.encoding(order), order);
    lemma_u32_layout_len(record.object_flags, order);
    lemma_u32_layout_len(0, order);
}

/// The layout of a list of export records takes 0x48 bytes for each.
pub proof fn lemma_export_records_bytes_len(records: Seq<ExportRecord>, order: Endian)
    ensures
        export_records_bytes(records, order).len() == 0x48 * records.len(),
    decreases records.len(),
{
    if records.len() > 0 {
        lemma_export_records_bytes_len(records.drop_last(), order);
        lemma_export_record_bytes_len(records.last(), order);
    }
}

impl ObjectExport2 {
    /// The export records that the entries of a legacy export table
    /// resolved to, in their order.
    ///
    /// Fails with the first entry that did not resolve: its position, its
    /// raw rendering and the reason.
    pub fn from_pak_asset(map: Vec<ResolvedEntry<ObjectExport2>>) -> (r: Result<
        Vec<ObjectExport2>,
        ResolutionError,
    >)
        ensures
            match r {
                Ok(resolves) => {
                    &&& resolves@.len() == map@.len()
                    &&& forall|i: int|
                        0 <= i < map@.len() ==> (#[trigger] map@[i]).outcome == Ok::<
                            ObjectExport2,
                            String,
                        >(resolves@[i])
                },
                Err(e) => {
                    &&& e.index < map@.len()
                    &&& resolved_before(map@, e.index as int)
                    &&& map@[e.index as int].outcome == Err::<ObjectExport2, String>(e.reason)
                    &&& map@[e.index as int].raw == e.raw
                },
            },
    {
        collect_resolved(map)
    }

    /// Writes the record at the cursor, where there is room for it.
    fn put(&self, writer: &mut ByteWriter, order: Endian)
        requires
            old(writer).pos + 0x48 <= usize::MAX,
        ensures
            final(writer).data@ == write_at(
                old(writer).data@,
                old(writer).pos as int,
                export_record_bytes(self@, order),
            ),
            final(writer).pos == old(writer).pos + 0x48,
    {
        let ghost before = writer.data@;
        let ghost p = writer.pos as int;
        let offset: u64 = unsigned_of_i64(self.cooked_serial_offset);
        let size: u64 = unsigned_of_i64(self.cooked_serial_size);
        let name: u64 = self.object_name.into();
        let outer: u64 = self.outer_index.encode(order);
        let class: u64 = self.class_name.encode(order);
        let parent: u64 = self.super_name.encode(order);
        let template: u64 = self.template_name.encode(order);
        let global: u64 = self.global_import_name.encode(order);
        let ghost s1 = bytes_of_u64(offset, order);
        let ghost s2 = s1 + bytes_of_u64(size, order);
        let ghost s3 = s2 + bytes_of_u64(name, order);
        let ghost s4 = s3 + bytes_of_u64(outer, order);
        let ghost s5 = s4 + bytes_of_u64(class, order);
        let ghost s6 = s5 + bytes_of_u64(parent, order);
        let ghost s7 = s6 + bytes_of_u64(template, order);
        let ghost s8 = s7 + bytes_of_u64(global, order);
        let ghost s9 = s8 + bytes_of_u32(self.object_flags, order);
        proof {
            lemma_u64_layout_len(offset, order);
            lemma_u64_layout_len(size, order);
            lemma_u64_layout_len(name, order);
            lemma_u64_layout_len(outer, order);
            lemma_u64_layout_len(class, order);
            lemma_u64_layout_len(parent, order);
            lemma_u64_layout_len(template, order);
            lemma_u64_layout_len(global, order);
            lemma_u32_layout_len(self.object_flags, order);
        }
        writer.put_u64(offset, order);
        writer.put_u64(size, order);
        proof {
            lemma_write_at_adjacent(before, p, s1, bytes_of_u64(size, order));
        }
        writer.put_u64(name, order);
        proof {
            lemma_write_at_adjacent(before, p, s2, bytes_of_u64(name, order));
        }
        writer.put_u64(outer, order);
        proof {
            lemma_write_at_adjacent(before, p, s3, bytes_of_u64(outer, order));
        }
        writer.put_u64(class, order);
        proof {
            lemma_write_at_adjacent(before, p, s4, bytes_of_u64(class, order));
        }
        writer.put_u64(parent, order);
        proof {
            lemma_write_at_adjacent(before, p, s5, bytes_of_u64(parent, order));
        }
        writer.put_u64(template, order);
        proof {
            lemma_write_at_adjacent(before, p, s6, bytes_of_u64(template, order));
        }
        writer.put_u64(global, order);
        proof {
            lemma_write_at_adjacent(before, p, s7, bytes_of_u64(global, order));
        }
        writer.put_u32(self.object_flags, order);
        proof {
            lemma_write_at_adjacent(before, p, s8, bytes_of_u32(self.object_flags, order));
        }
        writer.put_u32(0, order);
        proof {
            lemma_write_at_adjacent(before, p, s9, bytes_of_u32(0, order));
        }
    }

    /// Writes the records of an export table at the cursor, one behind the
    /// other, and leaves the cursor behind them.
    ///
    /// Fails, and changes nothing, if the write would end beyond the largest
    /// position that the buffer can hold.
    pub fn map_to_buffer(map: &Vec<ObjectExport2>, writer: &mut ByteWriter, order: Endian) -> (r:
        Result<(), PackageError>)
        ensures
            match r {
                Ok(_) => {
                    &&& old(writer).pos + 0x48 * map@.len() <= usize::MAX
                    &&& final(writer).data@ == write_at(
                        old(writer).data@,
                        old(writer).pos as int,
                        export_records_bytes(records_of(map@), order),
                    )
                    &&& final(writer).pos == old(writer).pos + 0x48 * map@.len()
                },
                Err(e) => {
                    &&& e == PackageError::WriteOutOfRange
                    &&& old(writer).pos + 0x48 * map@.len() > usize::MAX
                    &&& *final(writer) == *old(writer)
                },
            },
    {
        let count: usize = map.len();
        let start: u64 = writer.stream_position();
        if start as u128 + 0x48 * (count as u128) > usize::MAX as u128 {
            return Err(PackageError::WriteOutOfRange);
        }
        let ghost before = writer.data@;
        let ghost all = records_of(map@);
        let mut done: usize = 0;
        assert(write_at(before, start as int, export_records_bytes(all.take(0), order))
            =~= before);
        while done < count
            invariant
                done <= count,
                count == map@.len(),
                all == records_of(map@),
                start + 0x48 * count <= usize::MAX,
                writer.pos == start + 0x48 * done,
                writer.data@ == write_at(
                    before,
                    start as int,
                    export_records_bytes(all.take(done as int), order),
                ),
            decreases count - done,
        {
            proof {
                lemma_export_records_bytes_len(all.take(done as int), order);
                assert(all.take(done + 1).drop_last() =~= all.take(done as int));
                lemma_write_at_adjacent(
                    before,
                    start as int,
                    export_records_bytes(all.take(done as int), order),
                    export_record_bytes(all[done as int], order),
                );
            }
            map[done].put(writer, order);
            done = done + 1;
        }
        proof {
            assert(all.take(count as int) =~= all);
        }
        Ok(())
    }

    /// Writes the record at the cursor and leaves the cursor behind it.
    ///
    /// Fails, and changes nothing, if the write would end beyond the largest
    /// position that the buffer can hold.
    pub fn to_buffer(&self, writer: &mut ByteWriter, order: Endian) -> (r: Result<
        (),
        PackageError,
    >)
        ensures
            match r {
                Ok(_) => {
                    &&& old(writer).pos + 0x48 <= usize::MAX
                    &&& final(writer).data@ == write_at(
                        old(writer).data@,
                        old(writer).pos as int,
                        export_record_bytes(self@, order),
                    )
                    &&& final(writer).pos == old(writer).pos + 0x48
                },
                Err(e) => {
                    &&& e == PackageError::WriteOutOfRange
                    &&& old(writer).pos + 0x48 > usize::MAX
                    &&& *final(writer) == *old(writer)
                },
            },
    {
        if !writer.can_write(OBJECT_EXPORT2_SERIALIZED_SIZE) {
            return Err(PackageError::WriteOutOfRange);
        }
        self.put(writer, order);
        Ok(())
    }
}

} // verus!
