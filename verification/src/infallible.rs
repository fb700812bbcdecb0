use vstd::prelude::*;

use crate::ResultOption;
use core::convert::Infallible;

verus! {

/// Relies on `core::convert::Infallible` having no values, as its standard
/// library documentation states: no call of this function can ever happen, so
/// its contract holds of every call there is. It lets a provably dead match
/// arm produce the value the contract asks for.
#[verifier::external_body]
fn infallible_elim<A>(never: Infallible, alt: A) -> (r: A)
    ensures
        r == alt,
{
    match never {}
}

impl<T> ResultOption<T, Infallible> {
    /// Unwraps a `ResultOption` whose error type can hold no value into
    /// `Option<T>`: `Some` on `Value`, `None` on `Absent`. The `Failure`
    /// variant cannot be constructed, so this is total, with no fatal path.
    pub fn unwrap_infallible(self) -> (r: Option<T>)
        ensures
            r == self.spec_ok(),
    {
        match self {
            ResultOption::Value(t) => Some(t),
            ResultOption::Absent => Option::None,
            ResultOption::Failure(never) => infallible_elim(never, Option::None),
        }
    }
}

} // verus!
