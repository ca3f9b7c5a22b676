//! Validators which apply to the fixed-size array type `[T; N]`.

use vstd::prelude::*;

use crate::token;
use crate::Validator;

verus! {

/// Validates that a fixed-size array is not empty. Since the length of an
/// array is part of its type, this is a compile-time distinction; the
/// validator is supplied for uniformity with the other shapes.
pub struct IsEmpty;

impl<T, const N: usize> Validator<[T; N]> for IsEmpty {
    open spec fn spec_validate(&self, value: &[T; N]) -> Option<Seq<char>> {
        if N == 0 {
            Some(token::EMPTY@)
        } else {
            None
        }
    }

    fn validate(&self, value: &[T; N]) -> (r: Option<&str>) {
        if N == 0 {
            Some(token::EMPTY)
        } else {
            None
        }
    }
}

} // verus!
