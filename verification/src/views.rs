//! The mathematical values of optional values and of readers' results.

use crate::error::SchemaError;
use vstd::prelude::*;

verus! {

/// The value of something that may be absent.
pub open spec fn opt_view<T: View>(value: Option<T>) -> Option<T::V> {
    match value {
        Some(v) => Some(v@),
        None => None,
    }
}

/// The value of what a reader gives.
pub open spec fn result_view<T: View>(r: Result<T, SchemaError>) -> Result<T::V, SchemaError> {
    match r {
        Ok(v) => Ok(v@),
        Err(e) => Err(e),
    }
}

/// The value of what a reader of an optional member gives.
pub open spec fn opt_result_view<T: View>(r: Result<Option<T>, SchemaError>) -> Result<
    Option<T::V>,
    SchemaError,
> {
    match r {
        Ok(v) => Ok(opt_view(v)),
        Err(e) => Err(e),
    }
}

} // verus!
