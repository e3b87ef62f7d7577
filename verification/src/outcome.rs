//! The mathematical value of a `Result`.

use vstd::prelude::*;

verus! {

/// A result with both sides taken by their deep views.
pub open spec fn outcome<T: DeepView, E: DeepView>(r: Result<T, E>) -> Result<T::V, E::V> {
    match r {
        Ok(value) => Ok(value.deep_view()),
        Err(error) => Err(error.deep_view()),
    }
}

} // verus!
