//! Input checks shared by the contracts.
use vstd::prelude::*;

verus! {

/// Why a value was rejected.
#[derive(Clone, Copy, Debug, PartialEq, Eq, Structural)]
pub enum ValidationError {
    /// The amount is zero or negative.
    NotPositive,
    /// The amount is negative.
    Negative,
    /// The percentage exceeds 100.
    InvalidPercent,
}

/// Range checks on amounts and percentages.
pub struct Validation;

impl Validation {
    /// Accepts strictly positive amounts.
    pub fn require_positive(value: i128) -> (r: Result<(), ValidationError>)
        ensures
            r is Ok <==> value > 0,
            r is Err ==> r == Err::<(), ValidationError>(ValidationError::NotPositive),
    {
        if value <= 0 {
            Err(ValidationError::NotPositive)
        } else {
            Ok(())
        }
    }

    /// Accepts amounts that are zero or more.
    pub fn require_non_negative(value: i128) -> (r: Result<(), ValidationError>)
        ensures
            r is Ok <==> value >= 0,
            r is Err ==> r == Err::<(), ValidationError>(ValidationError::Negative),
    {
        if value < 0 {
            Err(ValidationError::Negative)
        } else {
            Ok(())
        }
    }

    /// Accepts percentages from 0 to 100.
    pub fn require_valid_percent(pct: u32) -> (r: Result<(), ValidationError>)
        ensures
            r is Ok <==> pct <= 100,
            r is Err ==> r == Err::<(), ValidationError>(ValidationError::InvalidPercent),
    {
        if pct > 100 {
            Err(ValidationError::InvalidPercent)
        } else {
            Ok(())
        }
    }
}

} // verus!
