//! A three-way value that keeps "succeeded with no data" apart from "failed":
//! the sum of a binary result and a binary option, with the full combinator
//! surface of both, each operation specified and proved over all three states.

mod infallible;

use vstd::prelude::*;

verus! {

use vstd::pervasive::unreached;

/// A three-way enum combining the success/failure split of a binary result
/// with the present/absent split of a binary option: success with a value,
/// success without a value, and failure.
#[must_use]
#[derive(Clone, Copy, PartialEq, Eq, PartialOrd, Ord, Debug, Hash)]
pub enum ResultOption<T, E> {
    /// Success with value
    Value(T),
    /// Success with no value
    Absent,
    /// Failure
    Failure(E),
}

impl<T, E> ResultOption<T, E> {
    /// The value channel of this result: `Some` exactly on `Value`.
    pub open spec fn spec_ok(self) -> Option<T> {
        match self {
            ResultOption::Value(t) => Some(t),
            ResultOption::Absent => Option::None,
            ResultOption::Failure(_) => Option::None,
        }
    }

    /// The error channel of this result: `Some` exactly on `Failure`.
    pub open spec fn spec_err(self) -> Option<E> {
        match self {
            ResultOption::Value(_) => Option::None,
            ResultOption::Absent => Option::None,
            ResultOption::Failure(e) => Some(e),
        }
    }

    /// Returns `true` if the result is `Value`.
    #[must_use]
    #[inline]
    pub fn is_ok(&self) -> (r: bool)
        ensures
            r == (self is Value),
    {
        match self {
            ResultOption::Value(_) => true,
            ResultOption::Absent => false,
            ResultOption::Failure(_) => false,
        }
    }

    /// Returns `true` if the result is `Value` and the value inside it matches a predicate.
    #[must_use]
    #[inline]
    pub fn is_ok_and(self, f: impl FnOnce(T) -> bool) -> (r: bool)
        requires
            self matches ResultOption::Value(t) ==> f.requires((t,)),
        ensures
            self matches ResultOption::Value(t) ==> f.ensures((t,), r),
            !(self is Value) ==> r == false,
    {
        match self {
            ResultOption::Value(t) => f(t),
            ResultOption::Absent => false,
            ResultOption::Failure(_) => false,
        }
    }

    /// Returns `true` if the result is `Absent`.
    #[must_use]
    #[inline]
    pub fn is_none(&self) -> (r: bool)
        ensures
            r == (self is Absent),
    {
        match self {
            ResultOption::Value(_) => false,
            ResultOption::Absent => true,
            ResultOption::Failure(_) => false,
        }
    }

    /// Returns `true` if the result is `Failure`.
    #[must_use]
    #[inline]
    pub fn is_err(&self) -> (r: bool)
        ensures
            r == (self is Failure),
    {
        match self {
            ResultOption::Value(_) => false,
            ResultOption::Absent => false,
            ResultOption::Failure(_) => true,
        }
    }

    /// Returns `true` if the result is `Failure` and the error inside it matches a predicate.
    #[must_use]
    #[inline]
    pub fn is_err_and(self, f: impl FnOnce(E) -> bool) -> (r: bool)
        requires
            self matches ResultOption::Failure(e) ==> f.requires((e,)),
        ensures
            self matches ResultOption::Failure(e) ==> f.ensures((e,), r),
            !(self is Failure) ==> r == false,
    {
        match self {
            ResultOption::Value(_) => false,
            ResultOption::Absent => false,
            ResultOption::Failure(e) => f(e),
        }
    }

    /// Converts from `ResultOption<T, E>` to `Option<T>`, discarding the error if any.
    #[must_use]
    #[inline]
    #[verifier::when_used_as_spec(spec_ok)]
    pub fn ok(self) -> (r: Option<T>)
        ensures
            r == self.spec_ok(),
    {
        match self {
            ResultOption::Value(t) => Some(t),
            ResultOption::Absent => Option::None,
            ResultOption::Failure(_) => Option::None,
        }
    }

    /// Converts from `ResultOption<T, E>` to `Option<E>`, discarding the value if any.
    #[must_use]
    #[inline]
    #[verifier::when_used_as_spec(spec_err)]
    pub fn err(self) -> (r: Option<E>)
        ensures
            r == self.spec_err(),
    {
        match self {
            ResultOption::Value(_) => Option::None,
            ResultOption::Absent => Option::None,
            ResultOption::Failure(e) => Some(e),
        }
    }

    /// Converts from `&ResultOption<T, E>` to `ResultOption<&T, &E>`, borrowing the values if they exist.
    #[inline]
    pub fn as_ref(&self) -> (r: ResultOption<&T, &E>)
        ensures
            self matches ResultOption::Value(t) ==> r matches ResultOption::Value(rt) && *rt == t,
            self is Absent ==> r is Absent,
            self matches ResultOption::Failure(e) ==> r matches ResultOption::Failure(re) && *re == e,
    {
        match self {
            ResultOption::Value(t) => ResultOption::Value(t),
            ResultOption::Absent => ResultOption::Absent,
            ResultOption::Failure(e) => ResultOption::Failure(e),
        }
    }

    /// Converts from `&mut ResultOption<T, E>` to `ResultOption<&mut T, &mut E>`,
    /// mutably borrowing the values if they exist.
    #[inline]
    pub fn as_mut(&mut self) -> (r: ResultOption<&mut T, &mut E>)
        ensures
            (*old(self)) is Value ==> r is Value && *r->Value_0 == (*old(self))->Value_0
                && *final(self) == ResultOption::<T, E>::Value(*final(r->Value_0)),
            (*old(self)) is Absent ==> r is Absent && *final(self) == *old(self),
            (*old(self)) is Failure ==> r is Failure && *r->Failure_0 == (*old(self))->Failure_0
                && *final(self) == ResultOption::<T, E>::Failure(*final(r->Failure_0)),
    {
        match self {
            ResultOption::Value(t) => ResultOption::Value(t),
            ResultOption::Absent => ResultOption::Absent,
            ResultOption::Failure(e) => ResultOption::Failure(e),
        }
    }

    /// The result of mapping the value channel by `f`: applied to a `Value`
    /// payload, with `Absent` and `Failure` passed through unchanged.
    pub open spec fn spec_map<U>(self, f: spec_fn(T) -> U) -> ResultOption<U, E> {
        match self {
            ResultOption::Value(t) => ResultOption::Value(f(t)),
            ResultOption::Absent => ResultOption::Absent,
            ResultOption::Failure(e) => ResultOption::Failure(e),
        }
    }

    /// Maps a `Value` using the provided function, leaving `Absent` and `Failure` unchanged.
    pub fn map<U, F: FnOnce(T) -> U>(self, f: F) -> (r: ResultOption<U, E>)
        requires
            self matches ResultOption::Value(t) ==> f.requires((t,)),
        ensures
            self matches ResultOption::Value(t) ==> (r matches ResultOption::Value(u)
                && f.ensures((t,), u)),
            self is Absent ==> r is Absent,
            self matches ResultOption::Failure(e) ==> r == ResultOption::<U, E>::Failure(e),
            forall|fs: spec_fn(T) -> U|
                (forall|t: T, u: U| #[trigger] f.ensures((t,), u) ==> u == fs(t))
                    ==> r == #[trigger] self.spec_map(fs),
    {
        match self {
            ResultOption::Value(t) => ResultOption::Value(f(t)),
            ResultOption::Absent => ResultOption::Absent,
            ResultOption::Failure(e) => ResultOption::Failure(e),
        }
    }

    /// Maps a `Value` using the provided function, or returns a default value if `Absent` or `Failure`.
    #[must_use]
    #[inline]
    pub fn map_or<U, F: FnOnce(T) -> U>(self, default: U, f: F) -> (r: U)
        requires
            self matches ResultOption::Value(t) ==> f.requires((t,)),
        ensures
            self matches ResultOption::Value(t) ==> f.ensures((t,), r),
            !(self is Value) ==> r == default,
    {
        match self {
            ResultOption::Value(t) => f(t),
            ResultOption::Absent => default,
            ResultOption::Failure(_) => default,
        }
    }

    /// Maps a `Value` using the provided function, or computes a default value if `Absent` or `Failure`.
    #[must_use]
    #[inline]
    pub fn map_or_else<U, D: FnOnce() -> U, F: FnOnce(T) -> U>(self, default: D, f: F) -> (r: U)
        requires
            self matches ResultOption::Value(t) ==> f.requires((t,)),
            !(self is Value) ==> default.requires(()),
        ensures
            self matches ResultOption::Value(t) ==> f.ensures((t,), r),
            !(self is Value) ==> default.ensures((), r),
    {
        match self {
            ResultOption::Value(t) => f(t),
            ResultOption::Absent => default(),
            ResultOption::Failure(_) => default(),
        }
    }

    /// Maps a `Value` using the provided function, or returns the default value of `U` if `Absent` or `Failure`.
    #[must_use]
    #[inline]
    pub fn map_or_default<U: Default, F: FnOnce(T) -> U>(self, f: F) -> (r: U)
        requires
            self matches ResultOption::Value(t) ==> f.requires((t,)),
        ensures
            self matches ResultOption::Value(t) ==> f.ensures((t,), r),
            !(self is Value) ==> call_ensures(U::default, (), r),
    {
        match self {
            ResultOption::Value(t) => f(t),
            ResultOption::Absent => U::default(),
            ResultOption::Failure(_) => U::default(),
        }
    }

    /// Maps a `Failure` using the provided function, leaving `Value` and `Absent` unchanged.
    #[inline]
    pub fn map_err<F, O: FnOnce(E) -> F>(self, f: O) -> (r: ResultOption<T, F>)
        requires
            self matches ResultOption::Failure(e) ==> f.requires((e,)),
        ensures
            self matches ResultOption::Value(t) ==> r == ResultOption::<T, F>::Value(t),
            self is Absent ==> r is Absent,
            self matches ResultOption::Failure(e) ==> (r matches ResultOption::Failure(g)
                && f.ensures((e,), g)),
    {
        match self {
            ResultOption::Value(t) => ResultOption::Value(t),
            ResultOption::Absent => ResultOption::Absent,
            ResultOption::Failure(e) => ResultOption::Failure(f(e)),
        }
    }

    /// Calls the provided function on a read-only view of a `Value` payload as a
    /// side effect, then returns `self` unchanged regardless of variant.
    #[inline]
    pub fn inspect<F: FnOnce(&T)>(self, f: F) -> (r: Self)
        requires
            self matches ResultOption::Value(t) ==> f.requires((&t,)),
        ensures
            r == self,
            self matches ResultOption::Value(t) ==> f.ensures((&t,), ()),
    {
        match &self {
            ResultOption::Value(t) => f(t),
            ResultOption::Absent => (),
            ResultOption::Failure(_) => (),
        }
        self
    }

    /// Unwraps a `ResultOption`, yielding the content of a `Value`.
    ///
    /// In unverified use this call is a fatal stop on `Absent` and on `Failure`;
    /// callers here must prove that the result is `Value`.
    #[inline]
    pub fn unwrap(self) -> (t: T) where E: core::fmt::Debug
        requires
            self is Value,
        ensures
            t == self->Value_0,
    {
        match self {
            ResultOption::Value(t) => t,
            ResultOption::Absent => unreached(),
            ResultOption::Failure(_) => unreached(),
        }
    }

    /// Unwraps a `ResultOption`, yielding the content of a `Value`.
    ///
    /// In unverified use this call is a fatal stop on `Absent` and on `Failure`,
    /// with the caller's message; callers here must prove that the result is `Value`.
    #[inline]
    pub fn expect(self, msg: &str) -> (t: T) where E: core::fmt::Debug
        requires
            self is Value,
        ensures
            t == self->Value_0,
    {
        let _ = msg;
        match self {
            ResultOption::Value(t) => t,
            ResultOption::Absent => unreached(),
            ResultOption::Failure(_) => unreached(),
        }
    }

    /// Returns the contained `Value`, consuming the `self` value, without any
    /// run-time check that the result is not `Absent` or `Failure`: the caller's
    /// proof of the precondition stands in for the check.
    #[inline]
    pub fn unwrap_unchecked(self) -> (t: T)
        requires
            self is Value,
        ensures
            t == self->Value_0,
    {
        match self {
            ResultOption::Value(t) => t,
            ResultOption::Absent => unreached(),
            ResultOption::Failure(_) => unreached(),
        }
    }

    /// The contained `Value`, or the supplied default on both `Absent` and `Failure`.
    pub open spec fn spec_unwrap_or(self, default: T) -> T {
        match self {
            ResultOption::Value(t) => t,
            ResultOption::Absent => default,
            ResultOption::Failure(_) => default,
        }
    }

    /// Returns the contained `Value` or a provided default.
    #[inline]
    #[verifier::when_used_as_spec(spec_unwrap_or)]
    pub fn unwrap_or(self, default: T) -> (r: T)
        ensures
            r == self.spec_unwrap_or(default),
            self matches ResultOption::Value(t) ==> r == t,
            !(self is Value) ==> r == default,
    {
        match self {
            ResultOption::Value(t) => t,
            ResultOption::Absent => default,
            ResultOption::Failure(_) => default,
        }
    }

    /// Returns the contained `Value` or computes a default from a closure.
    #[inline]
    pub fn unwrap_or_else<F: FnOnce() -> T>(self, f: F) -> (r: T)
        requires
            !(self is Value) ==> f.requires(()),
        ensures
            self matches ResultOption::Value(t) ==> r == t,
            !(self is Value) ==> f.ensures((), r),
    {
        match self {
            ResultOption::Value(t) => t,
            ResultOption::Absent => f(),
            ResultOption::Failure(_) => f(),
        }
    }

    /// Returns the contained `Value` or the default value of `T`.
    #[inline]
    pub fn unwrap_or_default(self) -> (r: T) where T: Default
        ensures
            self matches ResultOption::Value(t) ==> r == t,
            !(self is Value) ==> call_ensures(T::default, (), r),
    {
        match self {
            ResultOption::Value(t) => t,
            ResultOption::Absent => T::default(),
            ResultOption::Failure(_) => T::default(),
        }
    }

    /// Unwraps a `ResultOption`, yielding the content of a `Failure`.
    ///
    /// In unverified use this call is a fatal stop on `Value` and on `Absent`;
    /// callers here must prove that the result is `Failure`.
    #[inline]
    pub fn unwrap_err(self) -> (e: E) where T: core::fmt::Debug
        requires
            self is Failure,
        ensures
            e == self->Failure_0,
    {
        match self {
            ResultOption::Value(_) => unreached(),
            ResultOption::Absent => unreached(),
            ResultOption::Failure(e) => e,
        }
    }

    /// Unwraps a `ResultOption`, yielding the content of a `Failure`.
    ///
    /// In unverified use this call is a fatal stop on `Value` and on `Absent`,
    /// with the caller's message; callers here must prove that the result is `Failure`.
    #[inline]
    pub fn expect_err(self, msg: &str) -> (e: E) where T: core::fmt::Debug
        requires
            self is Failure,
        ensures
            e == self->Failure_0,
    {
        let _ = msg;
        match self {
            ResultOption::Value(_) => unreached(),
            ResultOption::Absent => unreached(),
            ResultOption::Failure(e) => e,
        }
    }

    /// Returns the contained `Failure`, consuming the `self` value, without any
    /// run-time check that the result is not `Value` or `Absent`: the caller's
    /// proof of the precondition stands in for the check.
    #[inline]
    pub fn unwrap_err_unchecked(self) -> (e: E)
        requires
            self is Failure,
        ensures
            e == self->Failure_0,
    {
        match self {
            ResultOption::Value(_) => unreached(),
            ResultOption::Absent => unreached(),
            ResultOption::Failure(e) => e,
        }
    }

    /// Unwraps to `Option<T>`: `Some` on `Value`, `None` on `Absent`.
    ///
    /// In unverified use this call is a fatal stop on `Failure`; callers here
    /// must prove that the result is not `Failure`.
    #[inline]
    pub fn unwrap_option(self) -> (r: Option<T>) where E: core::fmt::Debug
        requires
            !(self is Failure),
        ensures
            r == self.spec_ok(),
    {
        match self {
            ResultOption::Value(t) => Some(t),
            ResultOption::Absent => Option::None,
            ResultOption::Failure(_) => unreached(),
        }
    }

    /// Unwraps to `Option<T>`: `Some` on `Value`, `None` on `Absent`.
    ///
    /// In unverified use this call is a fatal stop on `Failure`, with the caller's
    /// message; callers here must prove that the result is not `Failure`.
    #[inline]
    pub fn expect_option(self, msg: &str) -> (r: Option<T>) where E: core::fmt::Debug
        requires
            !(self is Failure),
        ensures
            r == self.spec_ok(),
    {
        let _ = msg;
        match self {
            ResultOption::Value(t) => Some(t),
            ResultOption::Absent => Option::None,
            ResultOption::Failure(_) => unreached(),
        }
    }

    /// Converts to `Option<T>`, consuming the `self` value, without any run-time
    /// check that the result is not `Failure`: the caller's proof of the
    /// precondition stands in for the check.
    #[inline]
    pub fn unwrap_option_unchecked(self) -> (r: Option<T>)
        requires
            !(self is Failure),
        ensures
            r == self.spec_ok(),
    {
        match self {
            ResultOption::Value(t) => Some(t),
            ResultOption::Absent => Option::None,
            ResultOption::Failure(_) => unreached(),
        }
    }

    /// Converts to `Option<T>`, providing a default value for the `Failure` case.
    #[inline]
    pub fn unwrap_option_or_some(self, default: T) -> (r: Option<T>)
        ensures
            self matches ResultOption::Value(t) ==> r == Some(t),
            self is Absent ==> r is None,
            self is Failure ==> r == Some(default),
    {
        match self {
            ResultOption::Value(t) => Some(t),
            ResultOption::Absent => Option::None,
            ResultOption::Failure(_) => Some(default),
        }
    }

    /// Converts to `Option<T>`, using the default value of `T` for the `Failure` case.
    #[inline]
    pub fn unwrap_option_or_some_default(self) -> (r: Option<T>) where T: Default
        ensures
            self matches ResultOption::Value(t) ==> r == Some(t),
            self is Absent ==> r is None,
            self is Failure ==> (r matches Some(d) && call_ensures(T::default, (), d)),
    {
        match self {
            ResultOption::Value(t) => Some(t),
            ResultOption::Absent => Option::None,
            ResultOption::Failure(_) => Some(T::default()),
        }
    }

    /// Converts to `Option<T>` without any fatal path: `Some` exactly on `Value`,
    /// `None` on both `Absent` and `Failure`.
    #[inline]
    pub fn unwrap_option_or_none(self) -> (r: Option<T>)
        ensures
            r == self.spec_ok(),
            self matches ResultOption::Value(t) ==> r == Some(t),
            !(self is Value) ==> r is None,
    {
        match self {
            ResultOption::Value(t) => Some(t),
            ResultOption::Absent => Option::None,
            ResultOption::Failure(_) => Option::None,
        }
    }
}

impl<T, E> ResultOption<T, E> {
    /// The three-way value denoted by a binary result carrying an optional payload.
    pub open spec fn spec_from_result(r: Result<Option<T>, E>) -> ResultOption<T, E> {
        match r {
            Ok(Some(t)) => ResultOption::Value(t),
            Ok(Option::None) => ResultOption::Absent,
            Err(e) => ResultOption::Failure(e),
        }
    }

    /// The three-way value denoted by a plain optional payload; the error
    /// channel is unreachable this way.
    pub open spec fn spec_from_option(o: Option<T>) -> ResultOption<T, E> {
        match o {
            Some(t) => ResultOption::Value(t),
            Option::None => ResultOption::Absent,
        }
    }
}

impl<T, E> From<Result<Option<T>, E>> for ResultOption<T, E> {
    /// Converts a binary result of an optional payload into the three-way value:
    /// success with a payload to `Value`, success without one to `Absent`,
    /// failure to `Failure`.
    fn from(r: Result<Option<T>, E>) -> (v: Self) {
        match r {
            Ok(Some(t)) => ResultOption::Value(t),
            Ok(Option::None) => ResultOption::Absent,
            Err(e) => ResultOption::Failure(e),
        }
    }
}

impl<T, E> vstd::std_specs::convert::FromSpecImpl<Result<Option<T>, E>> for ResultOption<T, E> {
    open spec fn obeys_from_spec() -> bool {
        true
    }

    open spec fn from_spec(r: Result<Option<T>, E>) -> Self {
        Self::spec_from_result(r)
    }
}

impl<T, E> From<Option<T>> for ResultOption<T, E> {
    /// Converts an `Option<T>` into a `ResultOption<T, E>` by taking ownership:
    /// a present payload to `Value`, an absent one to `Absent`.
    fn from(o: Option<T>) -> (v: Self) {
        match o {
            Some(t) => ResultOption::Value(t),
            Option::None => ResultOption::Absent,
        }
    }
}

impl<T, E> vstd::std_specs::convert::FromSpecImpl<Option<T>> for ResultOption<T, E> {
    open spec fn obeys_from_spec() -> bool {
        true
    }

    open spec fn from_spec(o: Option<T>) -> Self {
        Self::spec_from_option(o)
    }
}

impl<T: Clone, E> From<Option<&T>> for ResultOption<T, E> {
    /// Converts an `Option<&T>` into a `ResultOption<T, E>` by cloning the
    /// referenced payload into owned storage.
    fn from(o: Option<&T>) -> (v: Self) {
        match o {
            Some(t) => ResultOption::Value(t.clone()),
            Option::None => ResultOption::Absent,
        }
    }
}

impl<T: Clone, E> vstd::std_specs::convert::FromSpecImpl<Option<&T>> for ResultOption<T, E> {
    /// The conversion is pinned down exactly whenever `T::clone` is known to
    /// return its argument unchanged.
    open spec fn obeys_from_spec() -> bool {
        forall|t1: T, t2: T| call_ensures(T::clone, (&t1,), t2) ==> t2 == t1
    }

    open spec fn from_spec(o: Option<&T>) -> Self {
        match o {
            Some(t) => ResultOption::Value(*t),
            Option::None => ResultOption::Absent,
        }
    }
}

/// Law: the three variants are mutually exclusive and exhaustive; exactly one
/// of the variant predicates holds of any value.
pub proof fn lemma_variant_exclusive<T, E>(v: ResultOption<T, E>)
    ensures
        v is Value ==> !(v is Absent) && !(v is Failure),
        v is Absent ==> !(v is Value) && !(v is Failure),
        v is Failure ==> !(v is Value) && !(v is Absent),
        (v is Value) || (v is Absent) || (v is Failure),
{
}

/// Law: converting a binary result of an optional payload into the three-way
/// value and projecting back through the value and error channels recovers the
/// payload that went in, with the other channel empty.
pub proof fn lemma_round_trip<T, E>(r: Result<Option<T>, E>)
    ensures
        r matches Ok(Some(t)) ==> ResultOption::<T, E>::spec_from_result(r).ok() == Some(t)
            && ResultOption::<T, E>::spec_from_result(r).err() is None,
        r matches Ok(o) && o is None ==> ResultOption::<T, E>::spec_from_result(r).ok() is None
            && ResultOption::<T, E>::spec_from_result(r).err() is None,
        r matches Err(e) ==> ResultOption::<T, E>::spec_from_result(r).err() == Some(e)
            && ResultOption::<T, E>::spec_from_result(r).ok() is None,
{
}

/// Law: mapping the value channel by the identity function changes nothing,
/// on every variant.
pub proof fn lemma_map_identity<T, E>(v: ResultOption<T, E>)
    ensures
        v.spec_map(|t: T| t) == v,
{
}

/// Law: mapping by `g` and then by `f` equals one mapping by their
/// composition, on every variant.
pub proof fn lemma_map_composition<T, U, W, E>(
    v: ResultOption<T, E>,
    g: spec_fn(T) -> U,
    f: spec_fn(U) -> W,
)
    ensures
        v.spec_map(g).spec_map(f) == v.spec_map(|t: T| f(g(t))),
{
}

/// Law: the eager unwrap-or agrees on `Absent` and on `Failure`: both yield
/// the supplied default, for any default and any error.
pub proof fn lemma_unwrap_or_agreement<T, E>(d: T, e: E)
    ensures
        ResultOption::<T, E>::Absent.unwrap_or(d) == d,
        ResultOption::<T, E>::Failure(e).unwrap_or(d) == d,
{
}

/// Law: the value channel is `Some(t)` exactly when the result is `Value(t)`,
/// so the fully total option-flavored unwrap returns `Some` only for `Value`
/// and `None` for both `Absent` and `Failure`.
pub proof fn lemma_option_flavored_total<T, E>(v: ResultOption<T, E>, t: T)
    ensures
        v.ok() == Some(t) <==> v == ResultOption::<T, E>::Value(t),
        !(v is Value) ==> v.ok() is None,
{
}

} // verus!
