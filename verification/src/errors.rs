use vstd::prelude::*;

verus! {

/// A single form field that failed syntactic validation.
#[derive(Clone, Copy, Debug, PartialEq, Eq)]
pub enum FieldError {
    Token,
    FirstName,
    LastName,
    Subject,
    Email,
    Body,
}

/// The relay's error taxonomy: malformed input (listing the offending
/// fields), an unknown token or email, and a persistence-level fault
/// (a primary-key collision or a saturated usage counter).
#[derive(Debug, PartialEq, Eq)]
pub enum RelayError {
    Validation(Vec<FieldError>),
    NotFound,
    Storage,
}

} // verus!
