use std::collections::BTreeSet;

use eventric_validation::b_tree_set::IsEmpty;
use eventric_validation::Validator;

// Is Empty

#[test]
fn b_tree_set_is_empty_valid_with_integers() {
    let validator = IsEmpty;
    let value = BTreeSet::from_iter([1, 2, 3]);

    assert!(validator.validate(&value).is_none());
}

#[test]
fn b_tree_set_is_empty_invalid() {
    let validator = IsEmpty;
    let value: BTreeSet<i32> = BTreeSet::new();

    assert_eq!(Some("empty"), validator.validate(&value));
}

#[test]
fn b_tree_set_is_empty_valid_with_strings() {
    let validator = IsEmpty;
    let value = BTreeSet::from_iter([String::from("hello")]);

    assert!(validator.validate(&value).is_none());
}

#[test]
fn b_tree_set_is_empty_valid_single_element() {
    let validator = IsEmpty;
    let value = BTreeSet::from_iter([42]);

    assert!(validator.validate(&value).is_none());
}

#[test]
fn b_tree_set_is_empty_invalid_after_clear() {
    let validator = IsEmpty;
    let mut value = BTreeSet::from_iter([1, 2, 3]);

    value.clear();

    assert_eq!(Some("empty"), validator.validate(&value));
}
