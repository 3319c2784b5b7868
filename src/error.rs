//! Errors raised when domain values are validated.

use vstd::prelude::*;
use vstd::string::StringExecFns;

verus! {

/// Errors that can occur during domain operations.
#[derive(Debug)]
pub enum DomainError {
    Validation { message: String },
    InvalidHabitName(String),
    InvalidFrequency(String),
    InvalidDate(String),
    InvalidValue { message: String },
}

impl DomainError {
    /// The human-readable description of the error: a phrase naming its
    /// kind, then its message.
    pub open spec fn spec_describe(&self) -> Seq<char> {
        match self {
            DomainError::Validation { message } => "Validation error: "@ + message@,
            DomainError::InvalidHabitName(m) => "Invalid habit name: "@ + m@,
            DomainError::InvalidFrequency(m) => "Invalid frequency: "@ + m@,
            DomainError::InvalidDate(m) => "Invalid date: "@ + m@,
            DomainError::InvalidValue { message } => "Invalid value: "@ + message@,
        }
    }

    /// The human-readable description of the error.
    pub fn describe(&self) -> (r: String)
        ensures
            r@ == self.spec_describe(),
    {
        let (prefix, detail) = match self {
            DomainError::Validation { message } => ("Validation error: ", message),
            DomainError::InvalidHabitName(m) => ("Invalid habit name: ", m),
            DomainError::InvalidFrequency(m) => ("Invalid frequency: ", m),
            DomainError::InvalidDate(m) => ("Invalid date: ", m),
            DomainError::InvalidValue { message } => ("Invalid value: ", message),
        };
        String::from_str(prefix).concat(detail.as_str())
    }
}

} // verus!
