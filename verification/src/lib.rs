//! A small value-validation kernel: callers describe invariants over
//! in-memory values as validators, apply an ordered list of them to a value,
//! and receive either success or the first violation tagged with a
//! caller-chosen field name.
//!
//! A [`Validator`] is a stateless predicate over a value of some shape,
//! returning either no token (the predicate is satisfied) or a short, stable
//! violation token. The [`validate`] procedure runs an ordered list of
//! validators over one value with short-circuit semantics: the first
//! violation is reported as an [`Error::Invalid`] carrying the message
//! `"<name>: <token>"`, and no later validator is consulted.

use vstd::prelude::*;

pub mod array;
pub mod b_tree_set;
pub mod hashset;
pub mod string;
pub mod token;
pub mod vec;

verus! {

/// The view of a violation result: the token's characters, if a token was
/// returned.
pub open spec fn token_view(r: Option<&str>) -> Option<Seq<char>> {
    match r {
        Some(token) => Some(token@),
        None => None,
    }
}

/// Defines an implementation to be a validator of the given parameter `T`.
///
/// A validator is pure: the outcome of [`Validator::validate`] is fixed by
/// the validator and the value alone, as stated by [`Validator::spec_validate`],
/// and the value is only borrowed immutably.
pub trait Validator<T> {
    /// The violation token this validator reports for the given value, or
    /// `None` when the value satisfies the validator's criterion.
    spec fn spec_validate(&self, value: &T) -> Option<Seq<char>>;

    /// Validates the given value, returning an optional error message if the
    /// validation criterion is not met.
    fn validate(&self, value: &T) -> (r: Option<&str>)
        ensures
            token_view(r) == self.spec_validate(value),
    ;
}

/// Defines an implementation to be validatable, i.e. that it may or may not
/// be in a valid state.
///
/// The implementing type decides what validity means and which error type it
/// surfaces; the kernel only requires that the error type can absorb the
/// kernel's own [`Error`].
pub trait Validate where Self: Sized {
    /// The error type to return from validation, which must be convertible
    /// from the standard validation [`Error`] type.
    type Err: From<Error>;

    /// Validate self, and return self if valid, or an error if not.
    fn validate(self) -> Result<Self, Self::Err>;
}

/// The [`Error`] enumeration gives possible error cases when validation
/// fails.
#[derive(Debug)]
pub enum Error {
    /// The validation request failed with the supplied error message.
    Invalid(String),
}

impl Error {
    /// The message carried by the error, as a sequence of characters.
    pub open spec fn spec_message(&self) -> Seq<char> {
        match self {
            Error::Invalid(m) => m@,
        }
    }

    /// Creates an [`Error::Invalid`] variant with the supplied error message.
    pub fn invalid(error: &str) -> (r: Self)
        ensures
            r.spec_message() == error@,
    {
        Error::Invalid(String::from_str(error))
    }

    /// The message carried by the error.
    pub fn message(&self) -> (r: &str)
        ensures
            r@ == self.spec_message(),
    {
        match self {
            Error::Invalid(m) => m.as_str(),
        }
    }

    /// Renders the error: the fixed prefix followed by the carried message.
    pub fn render(&self) -> (r: String)
        ensures
            r@ == "Validation Error: "@ + self.spec_message(),
    {
        let mut out = String::from_str("Validation Error: ");
        match self {
            Error::Invalid(m) => out.append(m.as_str()),
        }
        out
    }
}

impl Clone for Error {
    /// Clones the error, keeping its message.
    fn clone(&self) -> (r: Self)
        ensures
            r.spec_message() == self.spec_message(),
    {
        match self {
            Error::Invalid(m) => Error::Invalid(m.clone()),
        }
    }
}

impl PartialEq for Error {
    fn eq(&self, other: &Self) -> (r: bool) {
        match (self, other) {
            (Error::Invalid(a), Error::Invalid(b)) => a.eq(b),
        }
    }
}

impl vstd::std_specs::cmp::PartialEqSpecImpl for Error {
    open spec fn obeys_eq_spec() -> bool {
        true
    }

    open spec fn eq_spec(&self, other: &Self) -> bool {
        self.spec_message() == other.spec_message()
    }
}

impl Eq for Error {}

/// Whether every validator in the list reports no violation for the value.
pub open spec fn all_valid<T>(vs: Seq<&dyn Validator<T>>, value: &T) -> bool {
    forall|i: int| 0 <= i < vs.len() ==> (#[trigger] vs[i].spec_validate(value)) is None
}

/// Whether position `i` holds the first validator in the list to report a
/// violation for the value.
pub open spec fn first_violation_at<T>(vs: Seq<&dyn Validator<T>>, value: &T, i: int) -> bool {
    &&& 0 <= i < vs.len()
    &&& vs[i].spec_validate(value) is Some
    &&& forall|j: int| 0 <= j < i ==> (#[trigger] vs[j].spec_validate(value)) is None
}

/// The message a violation is reported with: the field name, a separator,
/// and the violation token.
pub open spec fn formatted_message(name: Seq<char>, token: Seq<char>) -> Seq<char> {
    name + ": "@ + token
}

/// Validates a given value, taking a provided name for any resulting error
/// value, and a collection of validators which can be applied to the given
/// instance.
///
/// Succeeds exactly when every validator in the list reports no violation;
/// in particular an empty list always succeeds. Otherwise the error carries
/// `"<name>: <token>"` where the token is the one reported by the first
/// violating validator in list order (the execution is short-circuiting,
/// subsequent validators are not consulted after the first failure).
pub fn validate<T>(value: &T, name: &str, validators: &[&dyn Validator<T>]) -> (r: Result<
    (),
    Error,
>)
    ensures
        r is Ok <==> all_valid(validators@, value),
        r matches Err(e) ==> exists|i: int|
            #[trigger] first_violation_at(validators@, value, i) && e.spec_message()
                == formatted_message(name@, validators@[i].spec_validate(value)->Some_0),
{
    let mut k: usize = 0;
    while k < validators.len()
        invariant
            k <= validators@.len(),
            forall|j: int| 0 <= j < k ==> (#[trigger] validators@[j].spec_validate(value)) is None,
        decreases validators@.len() - k,
    {
        if let Some(token) = validators[k].validate(value) {
            let mut message = String::from_str(name);
            message.append(": ");
            message.append(token);
            proof {
                assert(first_violation_at(validators@, value, k as int));
            }
            return Err(Error::invalid(message.as_str()));
        }
        k += 1;
    }
    Ok(())
}

/// Vacuity: for every value, validation against an empty validator list
/// finds every validator satisfied, so [`validate`] succeeds whatever the
/// field name.
pub proof fn lemma_vacuity<T>(vs: Seq<&dyn Validator<T>>, value: &T)
    requires
        vs.len() == 0,
    ensures
        all_valid(vs, value),
{
}

/// Purity: for one validator and one value, any two outcomes that meet the
/// [`Validator::validate`] contract carry the same token, so repeated
/// invocations return the same outcome; the value itself is only ever
/// borrowed immutably.
pub proof fn lemma_purity<T, V: Validator<T> + ?Sized>(
    w: &V,
    value: &T,
    r1: Option<&str>,
    r2: Option<&str>,
)
    requires
        token_view(r1) == w.spec_validate(value),
        token_view(r2) == w.spec_validate(value),
    ensures
        token_view(r1) == token_view(r2),
{
}

/// Order-preserving short-circuit: the first violating position in a
/// validator list is unique, so the violation reported by [`validate`] is
/// exactly the token of the earliest violating validator, whatever later
/// validators would report.
pub proof fn lemma_first_violation_unique<T>(
    vs: Seq<&dyn Validator<T>>,
    value: &T,
    i: int,
    j: int,
)
    requires
        first_violation_at(vs, value, i),
        first_violation_at(vs, value, j),
    ensures
        i == j,
{
}

} // verus!
