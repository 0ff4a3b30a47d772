//! Binary codec for the package headers of a streaming asset container.
//!
//! The crate decodes the version-specific header layouts of a packaged asset,
//! derives the counts that a container directory needs from the raw byte
//! offsets, and serializes directory entries whose variable-length tails
//! live in a separate region that is addressed by relative offset. Every
//! cross-object pointer is a 64-bit tagged reference whose payload is an
//! export index or a hash of a lower-cased path.
//!
//! All decoders work on an in-memory [`reader::ByteReader`], all encoders on
//! a [`writer::ByteWriter`]; the byte order is a run-time value of type
//! [`endian::Endian`].

pub mod endian;
pub mod error;
pub mod reader;
pub mod writer;
pub mod object_index;
pub mod mapped_name;
pub mod summary;
pub mod export_bundle;
pub mod graph;
pub mod container_header;
pub mod resolve;
pub mod object_import;
pub mod object_export;
pub mod asset_type;
