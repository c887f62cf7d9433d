//! Failure reasons shared by the registry operations.

use vstd::prelude::*;

verus! {

/// Why a registry operation was refused. Every operation either fully
/// applies its updates or returns one of these without touching the state.
#[derive(Clone, Copy, Debug, PartialEq, Eq, Structural)]
pub enum Error {
    /// A removal was requested at an index that holds no record.
    NotFound,
    /// An insertion would exceed the largest representable index.
    Overflow,
    /// An internal invariant was found broken: a removal confirmed that a
    /// record exists, yet no head key was set. Unreachable from a
    /// well-formed registry.
    PreconditionFailed,
}

} // verus!
