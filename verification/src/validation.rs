//! The reasons for which a render configuration or request is refused.
use vstd::prelude::*;
use vstd::string::StringExecFns;

verus! {

#[derive(Debug, Clone, PartialEq, Eq)]
pub enum ValidationError {
    MissingPath(&'static str),
    NonPositive(&'static str),
    NonNegative(&'static str),
    Positive(&'static str),
    EvenResolution,
    GreaterThan { field: &'static str, other: &'static str },
    InvalidEnum { field: &'static str, value: String },
}

/// The human-readable text of a validation error.
pub open spec fn validation_error_text(e: ValidationError) -> Seq<char> {
    match e {
        ValidationError::MissingPath(field) => "missing path: "@ + field@,
        ValidationError::NonPositive(field) => "value must be positive: "@ + field@,
        ValidationError::NonNegative(field) => "value must be non-negative: "@ + field@,
        ValidationError::Positive(field) => "value must be greater than zero: "@ + field@,
        ValidationError::EvenResolution => "resolution must have even width and height"@,
        ValidationError::GreaterThan { field, other } => field@ + " must be greater than "@
            + other@,
        ValidationError::InvalidEnum { field, value } => "invalid "@ + field@ + ": "@ + value@,
    }
}

impl ValidationError {
    /// The human-readable text of this error.
    pub fn to_string(&self) -> (s: String)
        ensures
            s@ == validation_error_text(*self),
    {
        let mut s = String::new();
        match self {
            ValidationError::MissingPath(field) => {
                s.append("missing path: ");
                s.append(field);
            },
            ValidationError::NonPositive(field) => {
                s.append("value must be positive: ");
                s.append(field);
            },
            ValidationError::NonNegative(field) => {
                s.append("value must be non-negative: ");
                s.append(field);
            },
            ValidationError::Positive(field) => {
                s.append("value must be greater than zero: ");
                s.append(field);
            },
            ValidationError::EvenResolution => {
                s.append("resolution must have even width and height");
            },
            ValidationError::GreaterThan { field, other } => {
                s.append(field);
                s.append(" must be greater than ");
                s.append(other);
            },
            ValidationError::InvalidEnum { field, value } => {
                s.append("invalid ");
                s.append(field);
                s.append(": ");
                s.append(value.as_str());
            },
        }
        assert(s@ =~= validation_error_text(*self));
        s
    }
}

} // verus!
