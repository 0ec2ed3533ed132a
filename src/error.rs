use vstd::prelude::*;

verus! {

/// The ways an operation of the training engine can fail.
#[derive(Clone, Copy, Debug, PartialEq, Eq, Structural)]
pub enum Error {
    /// A tensor's dimensionality or size does not suit the operation.
    Shape,
    /// A numeric parameter lies outside the range that the operation accepts.
    InvalidParameter,
    /// Inputs and labels of a dataset differ in number.
    DatasetMismatch,
    /// A network or layer was used before it was set up for that use.
    UninitializedState,
    /// A network was finalised a second time, which would discard its weights.
    AlreadyWoven,
}

} // verus!
