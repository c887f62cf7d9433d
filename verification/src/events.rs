//! Notifications emitted by the indexed registries.

use vstd::prelude::*;

verus! {

/// A notification pushed to the event log after a successful mutation.
/// The first field is the record concerned, the second the index at which
/// the operation was requested.
#[derive(Clone, Copy, Debug, PartialEq, Eq, Structural)]
pub enum Event {
    /// A record was stored at a fresh index.
    MemberAdded(u64, u32),
    /// The record was removed; the index is the one the caller named, even
    /// when another record was relocated into that slot afterwards.
    MemberRemoved(u64, u32),
}

} // verus!
