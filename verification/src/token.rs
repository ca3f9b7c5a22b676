//! The violation tokens the shipped validators report. Tokens are part of
//! the public contract: downstream code may match on them.

use vstd::prelude::*;

verus! {

/// Reported when a string, sequence, set or fixed-size array has no elements.
pub const EMPTY: &'static str = "empty";

/// Reported when a string contains a character in the Unicode control
/// category.
pub const CONTROL_CHARACTERS: &'static str = "control characters";

/// Reported when the first character of a string has the Unicode whitespace
/// property.
pub const PRECEDING_WHITESPACE: &'static str = "preceding whitespace";

/// Reported when the last character of a string has the Unicode whitespace
/// property.
pub const TRAILING_WHITESPACE: &'static str = "trailing whitespace";

} // verus!
