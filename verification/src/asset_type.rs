//! Telling a packaged asset of the streaming format from a cooked asset of
//! the legacy format.

use crate::endian::Endian;
use crate::error::PackageError;
use crate::reader::{has_bytes, u32_at, ByteReader};
use vstd::prelude::*;

verus! {

/// The number that opens a cooked asset of the legacy format. A header of
/// the streaming format has no such mark.
pub const UASSET_MAGIC: u32 = 0x9E2A83C1;

/// Whether the input does not start with the mark of a cooked asset of the
/// legacy format. Leaves the cursor behind the first four bytes.
///
/// Fails, and leaves the cursor where it is, if the input holds fewer than
/// four bytes.
pub fn is_valid_asset_type(reader: &mut ByteReader, order: Endian) -> (r: Result<
    bool,
    PackageError,
>)
    ensures
        final(reader).data == old(reader).data,
        match r {
            Ok(valid) => {
                &&& has_bytes(old(reader).data@, 0, 4)
                &&& valid == (u32_at(old(reader).data@, 0, order) != UASSET_MAGIC)
                &&& final(reader).pos == 4
            },
            Err(e) => {
                &&& e == PackageError::UnexpectedEof
                &&& !has_bytes(old(reader).data@, 0, 4)
                &&& final(reader).pos == old(reader).pos
            },
        },
{
    let initial: u64 = reader.stream_position();
    reader.seek(0);
    match reader.read_u32(order) {
        Ok(magic_check) => Ok(magic_check != UASSET_MAGIC),
        Err(e) => {
            reader.seek(initial);
            Err(e)
        },
    }
}

} // verus!
