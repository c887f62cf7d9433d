//! A small registry of member records addressed by sequential `u32` keys.
//!
//! Two registry flavours are provided, both built on a plain key-value
//! store and both supporting O(1) insertion and removal:
//!
//! - [`dense::DenseRegistry`] keeps the occupied keys contiguous in
//!   `[1, counter]` by filling a vacated slot with the record from the
//!   highest-indexed slot (swap-compaction).
//! - [`relink::RelinkRegistry`] tracks only a head key and fills a vacated
//!   slot with the record from the head slot, tolerating a sparse key space.
//!
//! A separate [`vec_set::Module`] keeps a flat membership list with a
//! membership query.
//!
//! Every successful mutation appends a notification to an event log owned
//! by the registry; an external sink can drain it at its leisure.

pub mod dense;
pub mod errors;
pub mod events;
pub mod relink;
pub mod store;
pub mod vec_set;
