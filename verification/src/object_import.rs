//! The import table of a package: one reference for each import.

use crate::endian::{bytes_of_u64, lemma_u64_layout_len, Endian};
use crate::error::PackageError;
use crate::object_index::{IoStoreObjectIndex, ObjectReference};
use crate::resolve::{collect_resolved, resolved_before, ResolutionError, ResolvedEntry};
use crate::writer::{lemma_write_at_adjacent, write_at, ByteWriter};
use vstd::prelude::*;

verus! {

/// The views of a list of references.
pub open spec fn references_of(map: Seq<IoStoreObjectIndex>) -> Seq<ObjectReference> {
    map.map_values(|r: IoStoreObjectIndex| r@)
}

/// The layout of a list of references: their encoded values, one behind
/// the other.
pub open spec fn references_bytes(references: Seq<ObjectReference>, order: Endian) -> Seq<u8>
    decreases references.len(),
{
    if references.len() == 0 {
        Seq::empty()
    } else {
        references_bytes(references.drop_last(), order) + bytes_of_u64(
            references.last().encoding(order),
            order,
        )
    }
}

/// The layout of a list of references takes eight bytes for each.
pub proof fn lemma_references_bytes_len(references: Seq<ObjectReference>, order: Endian)
    ensures
        references_bytes(references, order).len() == 8 * references.len(),
    decreases references.len(),
{
    if references.len() > 0 {
        lemma_references_bytes_len(references.drop_last(), order);
        lemma_u64_layout_len(references.last().encoding(order), order);
    }
}

/// The import table of a package in the streaming format.
pub struct ObjectImport;

impl ObjectImport {
    /// The references that the entries of a legacy import table resolved
    /// to, in their order.
    ///
    /// Fails with the first entry that did not resolve: its position, its
    /// raw rendering and the reason.
    pub fn from_pak_asset(import_map: Vec<ResolvedEntry<IoStoreObjectIndex>>) -> (r: Result<
        Vec<IoStoreObjectIndex>,
        ResolutionError,
    >)
        ensures
            match r {
                Ok(resolves) => {
                    &&& resolves@.len() == import_map@.len()
                    &&& forall|i: int|
                        0 <= i < import_map@.len() ==> (#[trigger] import_map@[i]).outcome == Ok::<
                            IoStoreObjectIndex,
                            String,
                        >(resolves@[i])
                },
                Err(e) => {
                    &&& e.index < import_map@.len()
                    &&& resolved_before(import_map@, e.index as int)
                    &&& import_map@[e.index as int].outcome == Err::<IoStoreObjectIndex, String>(
                        e.reason,
                    )
                    &&& import_map@[e.index as int].raw == e.raw
                },
            },
    {
        collect_resolved(import_map)
    }

    /// Writes the references of an import table at the cursor, one behind
    /// the other, and leaves the cursor behind them.
    ///
    /// Fails, and changes nothing, if the write would end beyond the largest
    /// position that the buffer can hold.
    pub fn map_to_buffer(map: &Vec<IoStoreObjectIndex>, writer: &mut ByteWriter, order: Endian) -> (r:
        Result<(), PackageError>)
        ensures
            match r {
                Ok(_) => {
                    &&& old(writer).pos + 8 * map@.len() <= usize::MAX
                    &&& final(writer).data@ == write_at(
                        old(writer).data@,
                        old(writer).pos as int,
                        references_bytes(references_of(map@), order),
                    )
                    &&& final(writer).pos == old(writer).pos + 8 * map@.len()
                },
                Err(e) => {
                    &&& e == PackageError::WriteOutOfRange
                    &&& old(writer).pos + 8 * map@.len() > usize::MAX
                    &&& *final(writer) == *old(writer)
                },
            },
    {
        let count: usize = map.len();
        let start: u64 = writer.stream_position();
        if start as u128 + 8 * (count as u128) > usize::MAX as u128 {
            return Err(PackageError::WriteOutOfRange);
        }
        let ghost before = writer.data@;
        let ghost all = references_of(map@);
        let mut done: usize = 0;
        assert(write_at(before, start as int, references_bytes(all.take(0), order)) =~= before);
        while done < count
            invariant
                done <= count,
                count == map@.len(),
                all == references_of(map@),
                start + 8 * count <= usize::MAX,
                writer.pos == start + 8 * done,
                writer.data@ == write_at(
                    before,
                    start as int,
                    references_bytes(all.take(done as int), order),
                ),
            decreases count - done,
        {
            proof {
                lemma_references_bytes_len(all.take(done as int), order);
                assert(all.take(done + 1).drop_last() =~= all.take(done as int));
                lemma_write_at_adjacent(
                    before,
                    start as int,
                    references_bytes(all.take(done as int), order),
                    bytes_of_u64(all[done as int].encoding(order), order),
                );
            }
            let raw: u64 = map[done].encode(order);
            writer.put_u64(raw, order);
            done = done + 1;
        }
        proof {
            assert(all.take(count as int) =~= all);
        }
        Ok(())
    }
}

} // verus!
