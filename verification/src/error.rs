use vstd::prelude::*;

verus! {

/// Error produced when a vector cannot be built from a dynamically sized
/// collection.
#[derive(Clone, Copy, Debug, PartialEq, Eq, Structural, Hash)]
pub enum VectorError {
    /// The collection held fewer elements than the vector has components.
    CannotConvertFromImproperlySizedCollection,
    /// Catch-all for unspecified failure causes; kept for compatibility,
    /// never produced by the conversions in this crate.
    GenericError,
}

} // verus!
