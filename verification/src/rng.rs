//! The narrow randomness capability: an unbiased coin flip for first-turn
//! assignment, and alphanumeric token sampling for match identifiers.
//!
//! Every transition that consumes randomness also exists in a deterministic
//! form that takes the drawn value as an argument, so the random forms are
//! thin verified shells around these trusted declarations.

use rand::Rng;
use vstd::prelude::*;

verus! {

/// Whether a character is alphanumeric, exactly as `char::is_alphanumeric`
/// decides it; the answer depends on the character alone.
pub uninterp spec fn is_alnum_char(c: char) -> bool;

/// Relies on `rand::random`: draws a value of `T` from the `Standard`
/// distribution; for `bool` this is an unbiased coin flip. Nothing can be
/// promised of the value drawn.
pub assume_specification<T>[ rand::random::<T> ]() -> (r: T)
    where
        rand::distributions::Standard: rand::distributions::Distribution<T>,
;

/// Relies on `rand::distributions::Alphanumeric`: sampling it yields ASCII
/// letters and digits only, each of which `char::is_alphanumeric` accepts.
#[verifier::external_body]
pub(crate) fn random_token(len: usize) -> (r: String)
    ensures
        r@.len() == len,
        forall|i: int| 0 <= i < r@.len() ==> is_alnum_char(#[trigger] r@[i]),
{
    rand::thread_rng()
        .sample_iter(&rand::distributions::Alphanumeric)
        .take(len)
        .map(char::from)
        .collect()
}

/// Relies on `char::is_alphanumeric`: the Unicode alphanumeric test that
/// `is_alnum_char` names.
#[verifier::external_body]
pub(crate) fn char_is_alphanumeric(c: char) -> (r: bool)
    ensures
        r == is_alnum_char(c),
{
    c.is_alphanumeric()
}

} // verus!
