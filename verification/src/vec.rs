//! Validators which apply to the [`Vec<T>`] type.

use vstd::prelude::*;

use crate::token;
use crate::Validator;

verus! {

/// Validates that a vector is not empty.
pub struct IsEmpty;

impl<T> Validator<Vec<T>> for IsEmpty {
    open spec fn spec_validate(&self, value: &Vec<T>) -> Option<Seq<char>> {
        if value@.len() == 0 {
            Some(token::EMPTY@)
        } else {
            None
        }
    }

    fn validate(&self, value: &Vec<T>) -> (r: Option<&str>) {
        if value.len() == 0 {
            Some(token::EMPTY)
        } else {
            None
        }
    }
}

} // verus!
