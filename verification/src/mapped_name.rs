//! The 64-bit name handle that package headers store in place of a text.

use vstd::prelude::*;
use vstd::std_specs::convert::FromSpecImpl;

verus! {

/// A handle into a name map, kept as the 64-bit value that is serialized.
#[derive(Clone, Copy, Debug, PartialEq, Eq, Structural)]
pub struct FMappedName {
    /// The serialized value.
    pub value: u64,
}

impl From<u64> for FMappedName {
    fn from(value: u64) -> (name: FMappedName) {
        FMappedName { value }
    }
}

impl FromSpecImpl<u64> for FMappedName {
    open spec fn obeys_from_spec() -> bool {
        true
    }

    open spec fn from_spec(value: u64) -> FMappedName {
        FMappedName { value }
    }
}

impl From<FMappedName> for u64 {
    fn from(name: FMappedName) -> (value: u64) {
        name.value
    }
}

impl FromSpecImpl<FMappedName> for u64 {
    open spec fn obeys_from_spec() -> bool {
        true
    }

    open spec fn from_spec(name: FMappedName) -> u64 {
        name.value
    }
}

} // verus!
