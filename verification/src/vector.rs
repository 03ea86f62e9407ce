use vstd::prelude::*;

use crate::scalar::Scalar;

pub mod math;

verus! {

/// Error for two operands whose dimensions do not fit the requested
/// operation: inner dimensions of a product, or the element-wise shape of a
/// sum or difference. Always recoverable; no operation aborts on it.
#[derive(Debug, Clone, Copy, PartialEq, Eq)]
pub struct MathError;

impl MathError {
    /// The human-readable description of the error.
    pub fn message(&self) -> (s: &'static str)
        ensures
            s@ == "incompatible vectors: Sizes does not match"@,
    {
        "incompatible vectors: Sizes does not match"
    }
}

/// A vector of `length` zero elements.
pub fn create_zeroed_vector<T: Scalar>(length: usize) -> (r: Vec<T>)
    ensures
        r@.len() == length,
        forall|i: int| 0 <= i < r@.len() ==> r@[i] == T::zero_spec(),
{
    let mut index: usize = 0;
    let mut zeroed_vec: Vec<T> = Vec::new();

    while index < length
        invariant
            index <= length,
            zeroed_vec@.len() == index,
            forall|i: int| 0 <= i < zeroed_vec@.len() ==> zeroed_vec@[i] == T::zero_spec(),
        decreases length - index,
    {
        zeroed_vec.push(T::zero_val());

        index += 1;
    }

    zeroed_vec
}

} // verus!
