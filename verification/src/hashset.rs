//! Validators which apply to the [`HashSet<T>`] type.

use std::collections::HashSet;

use vstd::prelude::*;

use crate::token;
use crate::Validator;

verus! {

/// Validates that a hash set is not empty.
pub struct IsEmpty;

impl<T> Validator<HashSet<T>> for IsEmpty {
    open spec fn spec_validate(&self, value: &HashSet<T>) -> Option<Seq<char>> {
        if value@.is_empty() {
            Some(token::EMPTY@)
        } else {
            None
        }
    }

    fn validate(&self, value: &HashSet<T>) -> (r: Option<&str>) {
        if value.is_empty() {
            Some(token::EMPTY)
        } else {
            None
        }
    }
}

} // verus!
