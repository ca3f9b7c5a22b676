//! Validators which apply to the [`String`] type.
//!
//! Character classification (control, whitespace) is the host platform's
//! standard Unicode classification, through [`char::is_control`] and
//! [`char::is_whitespace`].

use vstd::prelude::*;

use crate::token;
use crate::Validator;

verus! {

/// Whether the character is in the Unicode control category.
pub uninterp spec fn is_control_char(c: char) -> bool;

/// Whether the character has the Unicode whitespace property.
pub uninterp spec fn is_whitespace_char(c: char) -> bool;

/// Relies on char::is_control: whether the character is in the Unicode
/// control category, a function of the character alone.
#[verifier::external_body]
fn char_is_control(c: char) -> (r: bool)
    ensures
        r == is_control_char(c),
{
    c.is_control()
}

/// Relies on char::is_whitespace: whether the character has the Unicode
/// whitespace property, a function of the character alone.
#[verifier::external_body]
fn char_is_whitespace(c: char) -> (r: bool)
    ensures
        r == is_whitespace_char(c),
{
    c.is_whitespace()
}

/// Whether any character of the sequence is a control character.
pub open spec fn has_control_char(s: Seq<char>) -> bool {
    exists|i: int| 0 <= i < s.len() && is_control_char(#[trigger] s[i])
}

/// Validates that a string does not contain control characters.
pub struct ControlCharacters;

impl Validator<String> for ControlCharacters {
    open spec fn spec_validate(&self, value: &String) -> Option<Seq<char>> {
        if has_control_char(value@) {
            Some(token::CONTROL_CHARACTERS@)
        } else {
            None
        }
    }

    fn validate(&self, value: &String) -> (r: Option<&str>) {
        let s = value.as_str();
        let len = s.unicode_len();
        let mut k: usize = 0;
        while k < len
            invariant
                s@ == value@,
                len == s@.len(),
                k <= len,
                forall|j: int| 0 <= j < k ==> !is_control_char(#[trigger] s@[j]),
            decreases len - k,
        {
            if char_is_control(s.get_char(k)) {
                return Some(token::CONTROL_CHARACTERS);
            }
            k += 1;
        }
        None
    }
}

/// Validates that a string is not empty.
pub struct IsEmpty;

impl Validator<String> for IsEmpty {
    open spec fn spec_validate(&self, value: &String) -> Option<Seq<char>> {
        if value@.len() == 0 {
            Some(token::EMPTY@)
        } else {
            None
        }
    }

    fn validate(&self, value: &String) -> (r: Option<&str>) {
        if value.as_str().unicode_len() == 0 {
            Some(token::EMPTY)
        } else {
            None
        }
    }
}

/// Validates that a string does not start with whitespace.
pub struct PrecedingWhitespace;

impl Validator<String> for PrecedingWhitespace {
    open spec fn spec_validate(&self, value: &String) -> Option<Seq<char>> {
        if value@.len() > 0 && is_whitespace_char(value@[0]) {
            Some(token::PRECEDING_WHITESPACE@)
        } else {
            None
        }
    }

    fn validate(&self, value: &String) -> (r: Option<&str>) {
        let s = value.as_str();
        if s.unicode_len() > 0 && char_is_whitespace(s.get_char(0)) {
            Some(token::PRECEDING_WHITESPACE)
        } else {
            None
        }
    }
}

/// Validates that a string does not end with whitespace.
pub struct TrailingWhitespace;

impl Validator<String> for TrailingWhitespace {
    open spec fn spec_validate(&self, value: &String) -> Option<Seq<char>> {
        if value@.len() > 0 && is_whitespace_char(value@[value@.len() - 1]) {
            Some(token::TRAILING_WHITESPACE@)
        } else {
            None
        }
    }

    fn validate(&self, value: &String) -> (r: Option<&str>) {
        let s = value.as_str();
        let len = s.unicode_len();
        if len > 0 && char_is_whitespace(s.get_char(len - 1)) {
            Some(token::TRAILING_WHITESPACE)
        } else {
            None
        }
    }
}

/// Empty-string edge: on the empty string the character-position validators
/// report no violation (their first/last-character and any-character
/// predicates are vacuously unsatisfied), while [`IsEmpty`] reports its
/// token.
pub proof fn lemma_empty_string_edge(value: &String)
    requires
        value@.len() == 0,
    ensures
        ControlCharacters.spec_validate(value) is None,
        PrecedingWhitespace.spec_validate(value) is None,
        TrailingWhitespace.spec_validate(value) is None,
        IsEmpty.spec_validate(value) == Some(token::EMPTY@),
{
}

} // verus!
