//! Export bundles: the ordered commands that load the exports of a package.
//!
//! A bundle header is followed by its entries, each a local export index
//! and a command. The number of bundles of a package is not stored; it is
//! one more than the highest index that the entries name.

use crate::endian::Endian;
use crate::error::PackageError;
use crate::reader::{has_bytes, u32_at, ByteReader};
use vstd::prelude::*;
use vstd::std_specs::convert::TryFromSpecImpl;

verus! {

/// What an export bundle entry asks for.
#[derive(Clone, Copy, Debug, PartialEq, Eq, Structural)]
pub enum ExportBundleCommandType {
    /// Serialized as 0.
    Create,
    /// Serialized as 1.
    Serialize,
    /// Serialized as 2.
    Count,
}

/// The command that a serialized value stands for.
pub open spec fn command_of(value: u32) -> Result<ExportBundleCommandType, PackageError> {
    if value == 0 {
        Ok(ExportBundleCommandType::Create)
    } else if value == 1 {
        Ok(ExportBundleCommandType::Serialize)
    } else if value == 2 {
        Ok(ExportBundleCommandType::Count)
    } else {
        Err(PackageError::InvalidCommandType { value })
    }
}

impl TryFrom<u32> for ExportBundleCommandType {
    type Error = PackageError;

    fn try_from(value: u32) -> (r: Result<ExportBundleCommandType, PackageError>) {
        match value {
            0 => Ok(ExportBundleCommandType::Create),
            1 => Ok(ExportBundleCommandType::Serialize),
            2 => Ok(ExportBundleCommandType::Count),
            _ => Err(PackageError::InvalidCommandType { value }),
        }
    }
}

impl TryFromSpecImpl<u32> for ExportBundleCommandType {
    open spec fn obeys_try_from_spec() -> bool {
        true
    }

    open spec fn try_from_spec(value: u32) -> Result<ExportBundleCommandType, PackageError> {
        command_of(value)
    }
}

/// One command of an export bundle. The layout is the same in every engine
/// version.
#[derive(Clone, Copy, Debug, PartialEq, Eq, Structural)]
pub struct ExportBundleEntry {
    /// The position of the export in the export table of its package.
    pub local_export_index: u32,
    /// What to do with the export.
    pub command_type: ExportBundleCommandType,
}

/// The size in bytes of one serialized export bundle entry.
pub const EXPORT_BUNDLE_ENTRY_SIZE: u64 = 8;

/// The entry that stands at position `pos` of `bytes`, or the reason why
/// there is none.
pub open spec fn entry_at(bytes: Seq<u8>, pos: int, order: Endian) -> Result<
    ExportBundleEntry,
    PackageError,
> {
    if !has_bytes(bytes, pos, 8) {
        Err(PackageError::UnexpectedEof)
    } else {
        match command_of(u32_at(bytes, pos + 4, order)) {
            Ok(command_type) => Ok(
                ExportBundleEntry { local_export_index: u32_at(bytes, pos, order), command_type },
            ),
            Err(e) => Err(e),
        }
    }
}

/// The first `count` entries from position `pos` of `bytes` on, or the
/// failure of the first entry that cannot be read.
pub open spec fn entries_at(bytes: Seq<u8>, pos: int, count: nat, order: Endian) -> Result<
    Seq<ExportBundleEntry>,
    PackageError,
>
    decreases count,
{
    if count == 0 {
        Ok(Seq::empty())
    } else {
        match entries_at(bytes, pos, (count - 1) as nat, order) {
            Err(e) => Err(e),
            Ok(before) => match entry_at(bytes, pos + 8 * (count - 1), order) {
                Err(e) => Err(e),
                Ok(entry) => Ok(before.push(entry)),
            },
        }
    }
}

/// The number of bundles that a list of entries describes: none for an
/// empty list, else one more than the highest local export index. An index
/// may occur in several entries, once for each command.
pub open spec fn bundle_count(entries: Seq<ExportBundleEntry>) -> nat
    decreases entries.len(),
{
    if entries.len() == 0 {
        0
    } else {
        let before = bundle_count(entries.drop_last());
        let own = (entries.last().local_export_index + 1) as nat;
        if own > before {
            own
        } else {
            before
        }
    }
}

/// The bundle count is zero for no entries; else it lies above every index
/// and one above some index.
pub proof fn lemma_bundle_count_is_one_past_highest(entries: Seq<ExportBundleEntry>)
    ensures
        entries.len() == 0 ==> bundle_count(entries) == 0,
        forall|i: int|
            0 <= i < entries.len() ==> (#[trigger] entries[i]).local_export_index < bundle_count(
                entries,
            ),
        entries.len() > 0 ==> exists|i: int|
            0 <= i < entries.len() && (#[trigger] entries[i]).local_export_index + 1
                == bundle_count(entries),
    decreases entries.len(),
{
    if entries.len() > 0 {
        let before = entries.drop_last();
        lemma_bundle_count_is_one_past_highest(before);
        assert forall|i: int| 0 <= i < entries.len() implies (
        #[trigger] entries[i]).local_export_index < bundle_count(entries) by {
            if i < before.len() {
                assert(before[i] == entries[i]);
            }
        }
        let own = entries.last().local_export_index + 1;
        if own > bundle_count(before) {
            assert(entries[entries.len() - 1].local_export_index + 1 == bundle_count(entries));
        } else {
            let i = choose|i: int|
                0 <= i < before.len() && (#[trigger] before[i]).local_export_index + 1
                    == bundle_count(before);
            assert(entries[i] == before[i]);
        }
    }
}

/// The bundle count of the first entries of a list is at most that of the
/// whole list.
pub proof fn lemma_bundle_count_grows(entries: Seq<ExportBundleEntry>, k: int)
    requires
        0 <= k <= entries.len(),
    ensures
        bundle_count(entries.take(k)) <= bundle_count(entries),
    decreases entries.len() - k,
{
    if k == entries.len() {
        assert(entries.take(k) =~= entries);
    } else {
        lemma_bundle_count_grows(entries.drop_last(), k);
        assert(entries.drop_last().take(k) =~= entries.take(k));
    }
}

/// Once an entry cannot be read, no longer list of entries can.
pub proof fn lemma_entries_failure_persists(
    bytes: Seq<u8>,
    pos: int,
    k: nat,
    count: nat,
    order: Endian,
)
    requires
        k <= count,
        entries_at(bytes, pos, k, order) is Err,
    ensures
        entries_at(bytes, pos, count, order) == entries_at(bytes, pos, k, order),
    decreases count,
{
    if k < count {
        lemma_entries_failure_persists(bytes, pos, k, (count - 1) as nat, order);
    }
}

/// Reads `count` entries from the cursor on.
fn read_entries(reader: &mut ByteReader, count: u32, order: Endian) -> (r: Result<
    Vec<ExportBundleEntry>,
    PackageError,
>)
    ensures
        final(reader).data == old(reader).data,
        match r {
            Ok(entries) => {
                &&& entries_at(old(reader).data@, old(reader).pos as int, count as nat, order)
                    == Ok::<Seq<ExportBundleEntry>, PackageError>(entries@)
                &&& entries@.len() == count
                &&& final(reader).pos == old(reader).pos + 8 * count
            },
            Err(e) => {
                &&& entries_at(old(reader).data@, old(reader).pos as int, count as nat, order)
                    == Err::<Seq<ExportBundleEntry>, PackageError>(e)
                &&& final(reader).pos == old(reader).pos
            },
        },
{
    let start: u64 = reader.stream_position();
    let ghost bytes = reader.data@;
    let mut entries: Vec<ExportBundleEntry> = Vec::new();
    let mut done: u32 = 0;
    while done < count
        invariant
            done <= count,
            start == old(reader).pos,
            bytes == old(reader).data@,
            reader.data == old(reader).data,
            reader.pos == start + 8 * done,
            entries@.len() == done,
            entries_at(bytes, start as int, done as nat, order) == Ok::<
                Seq<ExportBundleEntry>,
                PackageError,
            >(entries@),
        decreases count - done,
    {
        if !reader.has_remaining(EXPORT_BUNDLE_ENTRY_SIZE) {
            proof {
                lemma_entries_failure_persists(
                    bytes,
                    start as int,
                    (done + 1) as nat,
                    count as nat,
                    order,
                );
            }
            reader.seek(start);
            return Err(PackageError::UnexpectedEof);
        }
        let local_export_index: u32 = reader.get_u32(order);
        let raw_command: u32 = reader.get_u32(order);
        match ExportBundleCommandType::try_from(raw_command) {
            Ok(command_type) => {
                entries.push(ExportBundleEntry { local_export_index, command_type });
            },
            Err(e) => {
                proof {
                    lemma_entries_failure_persists(
                        bytes,
                        start as int,
                        (done + 1) as nat,
                        count as nat,
                        order,
                    );
                }
                reader.seek(start);
                return Err(e);
            },
        }
        done = done + 1;
    }
    Ok(entries)
}

/// A shape of the header that precedes the entries of an export bundle.
pub trait ExportBundle {
    /// The size in bytes of the header.
    spec fn header_size() -> nat;

    /// The distance from the start of the header to its count of entries.
    spec fn entry_count_distance() -> nat;

    /// The bundle count that this shape derives from a list of entries.
    spec fn derived_bundle_count(entries: Seq<ExportBundleEntry>) -> Result<u32, PackageError>;

    /// Reads a bundle header that starts at the cursor and the entries that
    /// it counts, and leaves the cursor behind the last entry.
    ///
    /// Fails, and leaves the cursor where it is, if the input ends before
    /// the last entry does, or if an entry holds an unknown command; the
    /// failure is that of the first entry that cannot be read.
    fn from_buffer(reader: &mut ByteReader, order: Endian) -> (r: Result<
        Vec<ExportBundleEntry>,
        PackageError,
    >)
        ensures
            final(reader).data == old(reader).data,
            match r {
                Ok(entries) => {
                    &&& bundle_at(
                        Self::header_size(),
                        Self::entry_count_distance(),
                        old(reader).data@,
                        old(reader).pos as int,
                        order,
                    ) == Ok::<Seq<ExportBundleEntry>, PackageError>(entries@)
                    &&& entries@.len() == u32_at(
                        old(reader).data@,
                        old(reader).pos + Self::entry_count_distance(),
                        order,
                    )
                    &&& final(reader).pos == old(reader).pos + Self::header_size() + 8
                        * entries@.len()
                },
                Err(e) => {
                    &&& bundle_at(
                        Self::header_size(),
                        Self::entry_count_distance(),
                        old(reader).data@,
                        old(reader).pos as int,
                        order,
                    ) == Err::<Seq<ExportBundleEntry>, PackageError>(e)
                    &&& final(reader).pos == old(reader).pos
                },
            },
    ;

    /// The number of export bundles that the entries describe.
    fn get_export_bundle_count(entries: &Vec<ExportBundleEntry>) -> (r: Result<u32, PackageError>)
        ensures
            r == Self::derived_bundle_count(entries@),
    ;
}

/// The entries of the bundle whose header starts at position `pos` of
/// `bytes`, for a header of `header_size` bytes that keeps its count of
/// entries `entry_count_distance` bytes behind its start.
pub open spec fn bundle_at(
    header_size: nat,
    entry_count_distance: nat,
    bytes: Seq<u8>,
    pos: int,
    order: Endian,
) -> Result<Seq<ExportBundleEntry>, PackageError> {
    if !has_bytes(bytes, pos, header_size as int) {
        Err(PackageError::UnexpectedEof)
    } else {
        entries_at(
            bytes,
            pos + header_size,
            u32_at(bytes, pos + entry_count_distance, order) as nat,
            order,
        )
    }
}

/// The bundle count of a list of entries as a 32-bit number, if it is one.
pub open spec fn checked_bundle_count(entries: Seq<ExportBundleEntry>) -> Result<
    u32,
    PackageError,
> {
    if bundle_count(entries) > u32::MAX {
        Err(PackageError::BundleCountOverflow)
    } else {
        Ok(bundle_count(entries) as u32)
    }
}

/// The bundle header of the earlier engine generation: the index of its
/// first entry and the number of its entries.
#[allow(dead_code)]
pub struct ExportBundleHeader4 {
    first_entry_index: u32,
    entry_count: u32,
}

impl ExportBundle for ExportBundleHeader4 {
    open spec fn header_size() -> nat {
        8
    }

    open spec fn entry_count_distance() -> nat {
        4
    }

    open spec fn derived_bundle_count(entries: Seq<ExportBundleEntry>) -> Result<
        u32,
        PackageError,
    > {
        checked_bundle_count(entries)
    }

    fn from_buffer(reader: &mut ByteReader, order: Endian) -> (r: Result<
        Vec<ExportBundleEntry>,
        PackageError,
    >) {
        let start: u64 = reader.stream_position();
        if !reader.has_remaining(8) {
            return Err(PackageError::UnexpectedEof);
        }
        let _first_entry_index: u32 = reader.get_u32(order);
        let entry_count: u32 = reader.get_u32(order);
        match read_entries(reader, entry_count, order) {
            Ok(entries) => Ok(entries),
            Err(e) => {
                reader.seek(start);
                Err(e)
            },
        }
    }

    /// Fails if an entry names the largest 32-bit index: the count would
    /// not fit into 32 bits.
    fn get_export_bundle_count(entries: &Vec<ExportBundleEntry>) -> (r: Result<u32, PackageError>)
    {
        let mut count: u32 = 0;
        let mut seen: usize = 0;
        while seen < entries.len()
            invariant
                seen <= entries@.len(),
                count == bundle_count(entries@.take(seen as int)),
            decreases entries@.len() - seen,
        {
            let index: u32 = entries[seen].local_export_index;
            proof {
                assert(entries@.take(seen + 1).drop_last() =~= entries@.take(seen as int));
                lemma_bundle_count_grows(entries@, seen + 1);
            }
            if index == u32::MAX {
                return Err(PackageError::BundleCountOverflow);
            }
            let export_count_maybe: u32 = index + 1;
            count = if export_count_maybe > count {
                export_count_maybe
            } else {
                count
            };
            seen = seen + 1;
        }
        proof {
            assert(entries@.take(seen as int) =~= entries@);
        }
        Ok(count)
    }
}

/// The bundle header of the later engine generation: a serial offset
/// before the index of its first entry and the number of its entries.
///
/// Its entries can be read, but there is no rule to derive a bundle count
/// from them.
#[allow(dead_code)]
pub struct ExportBundleHeader5 {
    serial_offset: u64,
    first_entry_index: u32,
    entry_count: u32,
}

impl ExportBundle for ExportBundleHeader5 {
    open spec fn header_size() -> nat {
        16
    }

    open spec fn entry_count_distance() -> nat {
        12
    }

    open spec fn derived_bundle_count(entries: Seq<ExportBundleEntry>) -> Result<
        u32,
        PackageError,
    > {
        Err(PackageError::BundleCountUnimplemented)
    }

    fn from_buffer(reader: &mut ByteReader, order: Endian) -> (r: Result<
        Vec<ExportBundleEntry>,
        PackageError,
    >) {
        let start: u64 = reader.stream_position();
        if !reader.has_remaining(16) {
            return Err(PackageError::UnexpectedEof);
        }
        let _serial_offset: u64 = reader.get_u64(order);
        let _first_entry_index: u32 = reader.get_u32(order);
        let entry_count: u32 = reader.get_u32(order);
        match read_entries(reader, entry_count, order) {
            Ok(entries) => Ok(entries),
            Err(e) => {
                reader.seek(start);
                Err(e)
            },
        }
    }

    /// Always fails with [`PackageError::BundleCountUnimplemented`].
    fn get_export_bundle_count(entries: &Vec<ExportBundleEntry>) -> (r: Result<u32, PackageError>)
    {
        Err(PackageError::BundleCountUnimplemented)
    }
}

} // verus!
