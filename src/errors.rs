use vstd::prelude::*;

verus! {

/// Failure of a single cell coercion; holds the offending text.
#[derive(Debug, PartialEq, Eq)]
pub enum CoerceError {
    /// Not a (possibly comma-grouped) decimal integer in range.
    BadNumber(String),
    /// Not an eight-digit `YYYYMMDD` calendar date.
    BadDate(String),
}

/// Why a query produced no records.
#[derive(Debug, PartialEq, Eq)]
pub enum TwseError {
    /// A decoded row is of the other record shape than the one asked for.
    EnumCastingError,
    /// The feed answered with a status other than `OK`; holds that status.
    TWSEError(String),
    /// The answer lacks a member that a report needs.
    JsonError,
    /// Row `row` has `found` cells where the shape asks for `expected`.
    ShapeMismatch { row: usize, expected: usize, found: usize },
    /// Cell `field` of row `row` is no number of its column's kind.
    BadNumber { row: usize, field: String, raw: String },
    /// The report's date is no `YYYYMMDD` date.
    BadDate { raw: String },
}

} // verus!
