use vstd::prelude::*;
use crate::fixed::decimal_digits;
use crate::fixed::push_digits;

verus! {

use vstd::string::StringExecFns;

/// Why a distribution could not be constructed.
#[derive(Clone, Copy, PartialEq, Eq, Structural, Debug)]
pub enum ConstructionError {
    /// The requested family name is not one of the supported ones.
    UnknownDistributionType,
    /// The family was recognized but the number of parameters supplied
    /// does not match the number it requires.
    WrongParameterCount { expected: usize, got: usize },
    /// A parameter value violates the family's domain constraint.
    InvalidParameter,
}

/// A failure while drawing a sample from an already-constructed
/// distribution.
#[derive(Clone, Copy, PartialEq, Eq, Structural, Debug)]
pub struct SamplingError;

/// The canonical description of a construction error.
pub open spec fn construction_error_chars(e: ConstructionError) -> Seq<char> {
    match e {
        ConstructionError::UnknownDistributionType => "unknown distribution type"@,
        ConstructionError::WrongParameterCount { expected, got } => "wrong parameter count: expected "@
            + decimal_digits(expected as nat) + ", got "@ + decimal_digits(got as nat),
        ConstructionError::InvalidParameter => "invalid parameter"@,
    }
}

impl ConstructionError {
    /// A human-readable description of the error.
    pub fn message(&self) -> (s: String)
        ensures
            s@ == construction_error_chars(*self),
    {
        match *self {
            ConstructionError::UnknownDistributionType => "unknown distribution type".to_owned(),
            ConstructionError::WrongParameterCount { expected, got } => {
                let mut s = "wrong parameter count: expected ".to_owned();
                push_digits(&mut s, expected as u64);
                s.append(", got ");
                push_digits(&mut s, got as u64);
                s
            },
            ConstructionError::InvalidParameter => "invalid parameter".to_owned(),
        }
    }
}

impl SamplingError {
    /// A human-readable description of the error.
    pub fn message(&self) -> (s: String)
        ensures
            s@ == "sampling failed"@,
    {
        "sampling failed".to_owned()
    }
}

} // verus!
