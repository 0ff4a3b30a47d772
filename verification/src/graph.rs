//! The dependency graph of a package: the packages that it imports, each
//! with the arcs that order its export bundles against theirs.

use crate::endian::Endian;
use crate::error::PackageError;
use crate::reader::{has_bytes, u32_at, u64_at, ByteReader};
use vstd::prelude::*;

verus! {

/// An ordering constraint between an export bundle of an imported package
/// and one of the importing package. The pair is read, not interpreted.
#[derive(Clone, Copy, Debug, PartialEq, Eq, Structural)]
pub struct FGraphExternalArc {
    /// The bundle that comes first.
    pub from_export_bundle_index: u32,
    /// The bundle that waits for it.
    pub to_export_bundle_index: u32,
}

/// The size in bytes of one serialized arc.
pub const GRAPH_ARC_SIZE: u64 = 8;

/// The arc that stands at position `pos` of `bytes`.
pub open spec fn arc_at(bytes: Seq<u8>, pos: int, order: Endian) -> FGraphExternalArc {
    FGraphExternalArc {
        from_export_bundle_index: u32_at(bytes, pos, order),
        to_export_bundle_index: u32_at(bytes, pos + 4, order),
    }
}

/// The `count` arcs that stand from position `pos` of `bytes` on.
pub open spec fn arcs_at(bytes: Seq<u8>, pos: int, count: nat, order: Endian) -> Seq<
    FGraphExternalArc,
> {
    Seq::new(count, |i: int| arc_at(bytes, pos + 8 * i, order))
}

/// An imported package as plain values.
pub struct GraphPackage {
    /// The hash that names the package.
    pub imported_package_id: u64,
    /// The arcs towards the importing package.
    pub external_arcs: Seq<FGraphExternalArc>,
}

impl GraphPackage {
    /// The number of bytes that the record takes when serialized.
    pub open spec fn serialized_size(self) -> nat {
        12 + 8 * self.external_arcs.len()
    }
}

/// One imported package of a dependency graph.
#[derive(Clone, Debug, PartialEq, Eq)]
pub struct FGraphPackage {
    /// The hash that names the package.
    pub imported_package_id: u64,
    /// The arcs towards the importing package.
    pub external_arcs: Vec<FGraphExternalArc>,
}

impl View for FGraphPackage {
    type V = GraphPackage;

    open spec fn view(&self) -> GraphPackage {
        GraphPackage {
            imported_package_id: self.imported_package_id,
            external_arcs: self.external_arcs@,
        }
    }
}

/// The views of a list of imported packages.
pub open spec fn views_of(packages: Seq<FGraphPackage>) -> Seq<GraphPackage> {
    packages.map_values(|p: FGraphPackage| p@)
}

/// The hashes that name a list of imported packages, in their order.
pub open spec fn package_ids(packages: Seq<GraphPackage>) -> Seq<u64> {
    packages.map_values(|p: GraphPackage| p.imported_package_id)
}

/// The imported package whose record starts at position `pos` of `bytes`:
/// a hash, a count of arcs and as many arcs. There is none if the input
/// ends before the last arc does.
pub open spec fn package_at(bytes: Seq<u8>, pos: int, order: Endian) -> Result<
    GraphPackage,
    PackageError,
> {
    if !has_bytes(bytes, pos, 12) {
        Err(PackageError::UnexpectedEof)
    } else {
        let count = u32_at(bytes, pos + 8, order) as nat;
        if !has_bytes(bytes, pos + 12, 8 * (count as int)) {
            Err(PackageError::UnexpectedEof)
        } else {
            Ok(
                GraphPackage {
                    imported_package_id: u64_at(bytes, pos, order),
                    external_arcs: arcs_at(bytes, pos + 12, count, order),
                },
            )
        }
    }
}

/// The number of bytes that a list of imported packages takes when
/// serialized one behind the other.
pub open spec fn packages_size(packages: Seq<GraphPackage>) -> nat
    decreases packages.len(),
{
    if packages.len() == 0 {
        0
    } else {
        packages_size(packages.drop_last()) + packages.last().serialized_size()
    }
}

/// The first `count` imported packages whose records stand one behind the
/// other from position `pos` of `bytes` on. There are none if the input
/// ends before the last of them does.
pub open spec fn packages_at(bytes: Seq<u8>, pos: int, count: nat, order: Endian) -> Result<
    Seq<GraphPackage>,
    PackageError,
>
    decreases count,
{
    if count == 0 {
        Ok(Seq::empty())
    } else {
        match packages_at(bytes, pos, (count - 1) as nat, order) {
            Err(e) => Err(e),
            Ok(before) => match package_at(bytes, pos + packages_size(before), order) {
                Err(e) => Err(e),
                Ok(package) => Ok(before.push(package)),
            },
        }
    }
}

/// The dependency graph that starts at position `pos` of `bytes`: a count
/// of imported packages and as many records.
pub open spec fn graph_at(bytes: Seq<u8>, pos: int, order: Endian) -> Result<
    Seq<GraphPackage>,
    PackageError,
> {
    if !has_bytes(bytes, pos, 4) {
        Err(PackageError::UnexpectedEof)
    } else {
        packages_at(bytes, pos + 4, u32_at(bytes, pos, order) as nat, order)
    }
}

/// Once an imported package cannot be read, no longer list of them can.
pub proof fn lemma_packages_failure_persists(
    bytes: Seq<u8>,
    pos: int,
    k: nat,
    count: nat,
    order: Endian,
)
    requires
        k <= count,
        packages_at(bytes, pos, k, order) is Err,
    ensures
        packages_at(bytes, pos, count, order) == packages_at(bytes, pos, k, order),
    decreases count,
{
    if k < count {
        lemma_packages_failure_persists(bytes, pos, k, (count - 1) as nat, order);
    }
}

impl FGraphExternalArc {
    /// Reads one arc and moves past it.
    ///
    /// Fails, and leaves the cursor where it is, if fewer than eight bytes
    /// are left.
    pub fn from_buffer(reader: &mut ByteReader, order: Endian) -> (r: Result<
        FGraphExternalArc,
        PackageError,
    >)
        ensures
            final(reader).data == old(reader).data,
            match r {
                Ok(arc) => {
                    &&& has_bytes(old(reader).data@, old(reader).pos as int, 8)
                    &&& arc == arc_at(old(reader).data@, old(reader).pos as int, order)
                    &&& final(reader).pos == old(reader).pos + 8
                },
                Err(e) => {
                    &&& e == PackageError::UnexpectedEof
                    &&& !has_bytes(old(reader).data@, old(reader).pos as int, 8)
                    &&& final(reader).pos == old(reader).pos
                },
            },
    {
        if !reader.has_remaining(GRAPH_ARC_SIZE) {
            return Err(PackageError::UnexpectedEof);
        }
        let from_export_bundle_index: u32 = reader.get_u32(order);
        let to_export_bundle_index: u32 = reader.get_u32(order);
        Ok(FGraphExternalArc { from_export_bundle_index, to_export_bundle_index })
    }
}

impl FGraphPackage {
    /// Reads one imported package with its arcs, and leaves the cursor
    /// behind the last arc.
    ///
    /// Fails, and leaves the cursor where it is, if the input ends before
    /// the last arc does.
    pub fn from_buffer(reader: &mut ByteReader, order: Endian) -> (r: Result<
        FGraphPackage,
        PackageError,
    >)
        ensures
            final(reader).data == old(reader).data,
            match r {
                Ok(package) => {
                    &&& package_at(old(reader).data@, old(reader).pos as int, order) == Ok::<
                        GraphPackage,
                        PackageError,
                    >(package@)
                    &&& final(reader).pos == old(reader).pos + package@.serialized_size()
                },
                Err(e) => {
                    &&& package_at(old(reader).data@, old(reader).pos as int, order) == Err::<
                        GraphPackage,
                        PackageError,
                    >(e)
                    &&& final(reader).pos == old(reader).pos
                },
            },
    {
        let start: u64 = reader.stream_position();
        if !reader.has_remaining(12) {
            return Err(PackageError::UnexpectedEof);
        }
        let imported_package_id: u64 = reader.get_u64(order);
        let external_arc_count: u32 = reader.get_u32(order);
        if !reader.has_remaining(GRAPH_ARC_SIZE * (external_arc_count as u64)) {
            reader.seek(start);
            return Err(PackageError::UnexpectedEof);
        }
        let ghost bytes = reader.data@;
        let mut external_arcs: Vec<FGraphExternalArc> = Vec::new();
        let mut done: u32 = 0;
        while done < external_arc_count
            invariant
                done <= external_arc_count,
                bytes == old(reader).data@,
                reader.data == old(reader).data,
                start == old(reader).pos,
                has_bytes(bytes, start + 12, 8 * external_arc_count),
                reader.pos == start + 12 + 8 * done,
                external_arcs@ == arcs_at(bytes, start + 12, done as nat, order),
            decreases external_arc_count - done,
        {
            let from_export_bundle_index: u32 = reader.get_u32(order);
            let to_export_bundle_index: u32 = reader.get_u32(order);
            external_arcs.push(
                FGraphExternalArc { from_export_bundle_index, to_export_bundle_index },
            );
            done = done + 1;
            assert(external_arcs@ =~= arcs_at(bytes, start + 12, done as nat, order));
        }
        Ok(FGraphPackage { imported_package_id, external_arcs })
    }

    /// Reads a dependency graph: a count of imported packages and as many
    /// records. Leaves the cursor behind the last record.
    ///
    /// Fails, and leaves the cursor where it is, if the input ends before
    /// the last record does.
    pub fn list_from_buffer(reader: &mut ByteReader, order: Endian) -> (r: Result<
        Vec<FGraphPackage>,
        PackageError,
    >)
        ensures
            final(reader).data == old(reader).data,
            match r {
                Ok(packages) => {
                    &&& graph_at(old(reader).data@, old(reader).pos as int, order) == Ok::<
                        Seq<GraphPackage>,
                        PackageError,
                    >(views_of(packages@))
                    &&& packages@.len() == u32_at(
                        old(reader).data@,
                        old(reader).pos as int,
                        order,
                    )
                    &&& final(reader).pos == old(reader).pos + 4 + packages_size(
                        views_of(packages@),
                    )
                },
                Err(e) => {
                    &&& graph_at(old(reader).data@, old(reader).pos as int, order) == Err::<
                        Seq<GraphPackage>,
                        PackageError,
                    >(e)
                    &&& final(reader).pos == old(reader).pos
                },
            },
    {
        let start: u64 = reader.stream_position();
        if !reader.has_remaining(4) {
            return Err(PackageError::UnexpectedEof);
        }
        let imported_packages_count: u32 = reader.get_u32(order);
        let ghost bytes = reader.data@;
        let mut values: Vec<FGraphPackage> = Vec::new();
        let mut done: u32 = 0;
        assert(views_of(values@) =~= Seq::<GraphPackage>::empty());
        while done < imported_packages_count
            invariant
                done <= imported_packages_count,
                bytes == old(reader).data@,
                has_bytes(bytes, start as int, 4),
                imported_packages_count == u32_at(bytes, start as int, order),
                reader.data == old(reader).data,
                start == old(reader).pos,
                values@.len() == done,
                reader.pos == start + 4 + packages_size(views_of(values@)),
                packages_at(bytes, start + 4, done as nat, order) == Ok::<
                    Seq<GraphPackage>,
                    PackageError,
                >(views_of(values@)),
            decreases imported_packages_count - done,
        {
            let ghost before = views_of(values@);
            match FGraphPackage::from_buffer(reader, order) {
                Ok(package) => {
                    values.push(package);
                    proof {
                        assert(views_of(values@) =~= before.push(package@));
                        assert(views_of(values@).drop_last() =~= before);
                    }
                },
                Err(e) => {
                    proof {
                        lemma_packages_failure_persists(
                            bytes,
                            start + 4,
                            (done + 1) as nat,
                            imported_packages_count as nat,
                            order,
                        );
                    }
                    reader.seek(start);
                    return Err(e);
                },
            }
            done = done + 1;
        }
        Ok(values)
    }
}

} // verus!
