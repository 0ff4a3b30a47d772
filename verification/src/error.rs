//! The failures that decoding and encoding can report.

use vstd::prelude::*;

verus! {

/// Why a header could not be decoded or a record could not be written.
///
/// The first two variants are input/output failures, the others are decode
/// or encode failures: a field holds a value outside its closed set, or the
/// caller asked for a layout that is not supported.
#[derive(Clone, Copy, Debug, PartialEq, Eq, Structural)]
pub enum PackageError {
    /// A read ran past the end of the input.
    UnexpectedEof,
    /// A write would end beyond the largest position the output can hold.
    WriteOutOfRange,
    /// An export bundle command is none of create, serialize and count.
    InvalidCommandType { value: u32 },
    /// The summary layout is known but has no decoder.
    UnsupportedLayout,
    /// The export bundle shape has no rule to derive a bundle count.
    BundleCountUnimplemented,
    /// An export bundle entry names the largest 32-bit index, so that the
    /// bundle count does not fit into 32 bits.
    BundleCountOverflow,
    /// The three summary offsets do not ascend.
    OffsetsOutOfOrder { export_offset: u32, export_bundle_offset: u32, graph_offset: u32 },
    /// The export table does not hold a whole number of export records.
    InexactExportTable { export_offset: u32, export_bundle_offset: u32 },
    /// The bundle header counts fewer entries than the package has exports.
    EntryCountBelowExportCount { entry_count: u32, export_count: u32 },
    /// A directory entry lists more imported packages than a 32-bit count holds.
    TooManyImportedPackages,
    /// The variable region does not lie within 32 bits after the field that
    /// points to it.
    RelativeOffsetOutOfRange { field_position: u64, base_offset: u64, running_offset: u64 },
}

} // verus!
