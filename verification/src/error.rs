//! Error discipline of the engine entry points.

use vstd::prelude::*;

verus! {

/// Why an engine entry point rejected its input.
#[derive(Clone, Copy, Debug, PartialEq, Eq, Structural)]
pub enum SimError {
    /// A model or algorithm identifier is not in the catalog.
    UnknownId,
    /// The algorithm identifier is not allowed for the current model.
    Incompatible,
    /// A packed state vector's length is not divisible by six.
    BadShape,
    /// A parameter block failed validation.
    InvalidParams,
    /// A parameter block was written for an algorithm that is not active.
    WrongAlgorithm,
}

impl SimError {
    /// A short description of the error.
    pub fn message(&self) -> (m: &'static str)
        ensures
            *self is UnknownId ==> m@ == "unknown model or algorithm id"@,
            *self is Incompatible ==> m@ == "algorithm is not compatible with the current model"@,
            *self is BadShape ==> m@ == "states length must be a multiple of 6"@,
            *self is InvalidParams ==> m@ == "invalid parameters"@,
            *self is WrongAlgorithm ==> m@ == "current algorithm does not support this parameter block"@,
    {
        match self {
            SimError::UnknownId => "unknown model or algorithm id",
            SimError::Incompatible => "algorithm is not compatible with the current model",
            SimError::BadShape => "states length must be a multiple of 6",
            SimError::InvalidParams => "invalid parameters",
            SimError::WrongAlgorithm => "current algorithm does not support this parameter block",
        }
    }
}

} // verus!
