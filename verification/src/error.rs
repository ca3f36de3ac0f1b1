//! The one way in which building a request fails.

use vstd::prelude::*;

verus! {

/// Why a builder could not produce a request.
#[derive(Debug, Clone, Copy, PartialEq, Eq)]
pub enum BuildError {
    /// A field without which no request exists was never supplied.
    MissingRequiredField { field: &'static str },
}

impl BuildError {
    /// The error reported when no target address was ever set.
    pub open spec fn missing_target() -> BuildError {
        BuildError::MissingRequiredField { field: "target" }
    }

    /// Builds the error reported when no target address was ever set.
    pub fn no_target() -> (e: BuildError)
        ensures
            e == BuildError::missing_target(),
    {
        BuildError::MissingRequiredField { field: "target" }
    }

    /// The name of the field this error is about.
    pub fn field(&self) -> (name: &'static str)
        ensures
            *self == (BuildError::MissingRequiredField { field: name }),
    {
        match self {
            BuildError::MissingRequiredField { field } => field,
        }
    }
}

} // verus!
