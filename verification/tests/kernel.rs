use eventric_validation::string::{
    ControlCharacters, IsEmpty as StringIsEmpty, PrecedingWhitespace, TrailingWhitespace,
};
use eventric_validation::{validate, Error, Validate, Validator};

// Error type behaviour

#[test]
fn error_render_has_fixed_prefix() {
    let error = Error::invalid("username: empty");

    assert_eq!(error.render(), "Validation Error: username: empty");
}

#[test]
fn error_message_returns_carried_message() {
    let error = Error::invalid("tags: empty");

    assert_eq!(error.message(), "tags: empty");
}

#[test]
fn error_equality_by_message() {
    assert_eq!(Error::invalid("a: empty"), Error::invalid("a: empty"));
    assert_ne!(Error::invalid("a: empty"), Error::invalid("b: empty"));
}

#[test]
fn error_clone_keeps_message() {
    let error = Error::invalid("field: empty");

    assert_eq!(error.clone(), error);
}

// Composition edges

#[test]
fn empty_name_is_permitted() {
    let value = String::new();
    let validators: &[&dyn Validator<String>] = &[&StringIsEmpty];

    let result = validate(&value, "", validators);

    assert_eq!(result.unwrap_err(), Error::invalid(": empty"));
}

#[test]
fn duplicate_validators_do_not_collapse() {
    let value = String::new();
    let validators: &[&dyn Validator<String>] = &[&StringIsEmpty, &StringIsEmpty];

    let result = validate(&value, "field", validators);

    assert_eq!(result.unwrap_err(), Error::invalid("field: empty"));
}

#[test]
fn repeated_validation_returns_same_outcome() {
    let value = String::from(" test");
    let validator = PrecedingWhitespace;

    let first = validator.validate(&value);
    let second = validator.validate(&value);

    assert_eq!(first, second);
    assert_eq!(value, " test");
}

// Character classification boundaries: a space is whitespace but not a
// control character; a newline is both.

#[test]
fn space_is_whitespace_not_control() {
    let value = String::from(" ");

    assert!(ControlCharacters.validate(&value).is_none());
    assert_eq!(
        Some("preceding whitespace"),
        PrecedingWhitespace.validate(&value)
    );
    assert_eq!(
        Some("trailing whitespace"),
        TrailingWhitespace.validate(&value)
    );
}

#[test]
fn newline_is_both_whitespace_and_control() {
    let value = String::from("\n");

    assert_eq!(Some("control characters"), ControlCharacters.validate(&value));
    assert_eq!(
        Some("preceding whitespace"),
        PrecedingWhitespace.validate(&value)
    );
}

// Validatable contract: a composite value delegates to the composition
// procedure and lifts the kernel error into its own error type.

struct Username {
    name: String,
}

#[derive(Debug, PartialEq)]
struct UsernameError {
    inner: Error,
}

impl From<Error> for UsernameError {
    fn from(error: Error) -> Self {
        UsernameError { inner: error }
    }
}

impl Validate for Username {
    type Err = UsernameError;

    fn validate(self) -> Result<Self, Self::Err> {
        let validators: &[&dyn Validator<String>] = &[&StringIsEmpty, &PrecedingWhitespace];
        match validate(&self.name, "username", validators) {
            Ok(()) => Ok(self),
            Err(error) => Err(UsernameError::from(error)),
        }
    }
}

#[test]
fn validatable_returns_self_when_valid() {
    let value = Username {
        name: String::from("alice"),
    };

    let result = value.validate();

    assert_eq!(result.unwrap().name, "alice");
}

#[test]
fn validatable_lifts_kernel_error() {
    let value = Username {
        name: String::new(),
    };

    let result = value.validate();

    assert_eq!(
        result.map(|_| ()).unwrap_err(),
        UsernameError::from(Error::invalid("username: empty"))
    );
}
