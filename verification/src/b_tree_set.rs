//! Validators which apply to the [`BTreeSet<T>`] type.

use std::collections::BTreeSet;

use vstd::prelude::*;

use crate::token;
use crate::Validator;

verus! {

/// Validates that an ordered set is not empty.
pub struct IsEmpty;

impl<T> Validator<BTreeSet<T>> for IsEmpty {
    open spec fn spec_validate(&self, value: &BTreeSet<T>) -> Option<Seq<char>> {
        if value@.is_empty() {
            Some(token::EMPTY@)
        } else {
            None
        }
    }

    fn validate(&self, value: &BTreeSet<T>) -> (r: Option<&str>) {
        if value.is_empty() {
            Some(token::EMPTY)
        } else {
            None
        }
    }
}

} // verus!
