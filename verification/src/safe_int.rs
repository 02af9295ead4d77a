//! The integers that a JSON number can carry without loss: those that a double
//! holds exactly.

use crate::json::JsonNumber;
use vstd::prelude::*;

verus! {

/// The largest integer that a double holds exactly, `2^53 - 1`.
pub const MAX_SAFE_UINT: u64 = 0x001F_FFFF_FFFF_FFFF;

/// The largest integer that a double holds exactly, `2^53 - 1`.
pub const MAX_SAFE_INT: i64 = 0x001F_FFFF_FFFF_FFFF;

/// The smallest integer that a double holds exactly, `-(2^53 - 1)`.
pub const MIN_SAFE_INT: i64 = -0x001F_FFFF_FFFF_FFFF;

/// Whether an unsigned integer is one that a double holds exactly.
pub open spec fn is_safe_uint(value: int) -> bool {
    0 <= value <= MAX_SAFE_UINT
}

/// Whether a signed integer is one that a double holds exactly.
pub open spec fn is_safe_int(value: int) -> bool {
    MIN_SAFE_INT <= value <= MAX_SAFE_INT
}

/// Whether `js_int::UInt` takes the number.
///
/// Trusted: `js_int::UInt::new` returns `Some` for a value up to
/// `js_int::MAX_SAFE_UINT`, which is `2^53 - 1`, and `None` above it.
#[verifier::external_body]
fn uint_takes(value: u64) -> (taken: bool)
    ensures
        taken == is_safe_uint(value as int),
{
    js_int::UInt::new(value).is_some()
}

/// Whether `js_int::Int` takes the number.
///
/// Trusted: `js_int::Int::new` returns `Some` for a value from
/// `js_int::MIN_SAFE_INT` to `js_int::MAX_SAFE_INT`, which are `-(2^53 - 1)` and
/// `2^53 - 1`, and `None` outside.
#[verifier::external_body]
fn int_takes(value: i64) -> (taken: bool)
    ensures
        taken == is_safe_int(value as int),
{
    js_int::Int::new(value).is_some()
}

impl JsonNumber {
    /// The integer that the number is, if it is one.
    pub open spec fn integer(self) -> Option<int> {
        match self {
            JsonNumber::Unsigned(n) => Some(n as int),
            JsonNumber::Negative(n) => Some(n as int),
            JsonNumber::Real(_) => None,
        }
    }

    /// The number that stands for a signed integer.
    pub open spec fn of_int(value: i64) -> JsonNumber {
        if value >= 0 {
            JsonNumber::Unsigned(value as u64)
        } else {
            JsonNumber::Negative(value)
        }
    }

    /// The number that stands for a signed integer.
    pub fn from_int(value: i64) -> (number: JsonNumber)
        ensures
            number == JsonNumber::of_int(value),
            number.integer() == Some(value as int),
    {
        if value >= 0 {
            JsonNumber::Unsigned(value as u64)
        } else {
            JsonNumber::Negative(value)
        }
    }

    /// The safe unsigned integer that the number is: `None` where it is no
    /// integer, or one outside the safe range.
    pub open spec fn safe_uint(self) -> Option<u64> {
        match self.integer() {
            Some(n) if is_safe_uint(n) => Some(n as u64),
            _ => None,
        }
    }

    /// The safe signed integer that the number is: `None` where it is no
    /// integer, or one outside the safe range.
    pub open spec fn safe_int(self) -> Option<i64> {
        match self.integer() {
            Some(n) if is_safe_int(n) => Some(n as i64),
            _ => None,
        }
    }

    /// Reads the number as a safe unsigned integer.
    pub fn to_safe_uint(&self) -> (value: Option<u64>)
        ensures
            value == self.safe_uint(),
    {
        match self {
            JsonNumber::Unsigned(n) => {
                if uint_takes(*n) {
                    Some(*n)
                } else {
                    None
                }
            },
            JsonNumber::Negative(n) => {
                if *n >= 0 && uint_takes(*n as u64) {
                    Some(*n as u64)
                } else {
                    None
                }
            },
            JsonNumber::Real(_) => None,
        }
    }

    /// Reads the number as a safe signed integer.
    pub fn to_safe_int(&self) -> (value: Option<i64>)
        ensures
            value == self.safe_int(),
    {
        match self {
            JsonNumber::Unsigned(n) => {
                if *n <= 0x7FFF_FFFF_FFFF_FFFF && int_takes(*n as i64) {
                    Some(*n as i64)
                } else {
                    None
                }
            },
            JsonNumber::Negative(n) => {
                if int_takes(*n) {
                    Some(*n)
                } else {
                    None
                }
            },
            JsonNumber::Real(_) => None,
        }
    }
}

} // verus!
