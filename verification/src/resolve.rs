//! Legacy table entries after resolution.
//!
//! The legacy package format addresses its imports and exports by table
//! index and names them through a name map. Resolving an entry is the work
//! of the reader of that format; what it found, or why it found nothing,
//! arrives here together with a rendering of the raw entry. One entry that
//! did not resolve fails the whole package.

use vstd::prelude::*;

verus! {

/// One entry of a legacy table and what resolving it gave.
pub struct ResolvedEntry<T> {
    /// The raw entry, rendered for a failure report.
    pub raw: String,
    /// The resolved value, or the reason why there is none.
    pub outcome: Result<T, String>,
}

/// The first entry of a legacy table that did not resolve.
#[derive(Debug, Clone, PartialEq, Eq)]
pub struct ResolutionError {
    /// The position of the entry in its table.
    pub index: usize,
    /// The raw entry, as it was rendered.
    pub raw: String,
    /// Why the entry did not resolve.
    pub reason: String,
}

/// The entries of a table before position `k` all resolved.
pub open spec fn resolved_before<T>(entries: Seq<ResolvedEntry<T>>, k: int) -> bool {
    forall|j: int| 0 <= j < k ==> (#[trigger] entries[j]).outcome is Ok
}

/// The values that the entries of a table resolved to, in their order;
/// or, if an entry did not resolve, the first such entry with its position.
pub fn collect_resolved<T>(entries: Vec<ResolvedEntry<T>>) -> (r: Result<Vec<T>, ResolutionError>)
    ensures
        match r {
            Ok(values) => {
                &&& values@.len() == entries@.len()
                &&& forall|i: int|
                    0 <= i < entries@.len() ==> (#[trigger] entries@[i]).outcome == Ok::<
                        T,
                        String,
                    >(values@[i])
            },
            Err(e) => {
                &&& e.index < entries@.len()
                &&& resolved_before(entries@, e.index as int)
                &&& entries@[e.index as int].outcome == Err::<T, String>(e.reason)
                &&& entries@[e.index as int].raw == e.raw
            },
        },
{
    let ghost all = entries@;
    assert(entries.len() == all.len());
    let mut values: Vec<T> = Vec::new();
    let mut done: usize = 0;
    for entry in iter: entries
        invariant
            iter.seq() == all,
            all.len() <= usize::MAX,
            done == iter.index(),
            values@.len() == done,
            forall|i: int|
                0 <= i < done ==> (#[trigger] all[i]).outcome == Ok::<T, String>(values@[i]),
    {
        match entry.outcome {
            Ok(value) => {
                values.push(value);
            },
            Err(reason) => {
                return Err(ResolutionError { index: done, raw: entry.raw, reason });
            },
        }
        done = done + 1;
    }
    Ok(values)
}

} // verus!
