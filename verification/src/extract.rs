//! Extracting the payload: checked, defaulted, and predicate-guarded forms.

use vstd::prelude::*;

use crate::presence::Presence;

verus! {

impl<T> Presence<T> {
    /// Returns the contained payload.
    ///
    /// Calling this on `Null` or `Absent` is a programming error, so the
    /// contract admits only `Present` values; `msg` is the caller's context
    /// for the diagnostic the excluded misuse would otherwise deserve.
    #[inline]
    pub fn expect(self, msg: &str) -> (r: T)
        requires
            self is Present,
        ensures
            r == self->0,
    {
        let _ = msg;
        match self {
            Presence::Present(val) => val,
            _ => vstd::pervasive::unreached(),
        }
    }

    /// Returns the contained payload.
    ///
    /// Calling this on `Null` or `Absent` is a programming error, so the
    /// contract admits only `Present` values.
    #[inline]
    pub fn unwrap(self) -> (r: T)
        requires
            self is Present,
        ensures
            r == self->0,
    {
        match self {
            Presence::Present(val) => val,
            _ => vstd::pervasive::unreached(),
        }
    }

    /// Returns the payload, or the provided default for both empty states.
    #[inline]
    pub fn unwrap_or(self, default: T) -> (r: T)
        ensures
            self is Present ==> r == self->0,
            !(self is Present) ==> r == default,
    {
        match self {
            Presence::Present(val) => val,
            Presence::Null | Presence::Absent => default,
        }
    }

    /// Returns the payload, or computes a fallback from the closure for both
    /// empty states.
    #[inline]
    pub fn unwrap_or_else<F>(self, f: F) -> (r: T) where F: FnOnce() -> T
        requires
            !(self is Present) ==> call_requires(f, ()),
        ensures
            self is Present ==> r == self->0,
            !(self is Present) ==> call_ensures(f, (), r),
    {
        match self {
            Presence::Present(val) => val,
            Presence::Null | Presence::Absent => f(),
        }
    }

    /// Returns the payload, or the type's default value for both empty
    /// states.
    #[inline]
    pub fn unwrap_or_default(self) -> (r: T) where T: Default
        ensures
            self is Present ==> r == self->0,
            !(self is Present) ==> call_ensures(<T as Default>::default, (), r),
    {
        match self {
            Presence::Present(val) => val,
            Presence::Null | Presence::Absent => Default::default(),
        }
    }

    /// Returns the payload when `Present`, and otherwise tells the two empty
    /// states apart: `absent_default` for `Absent`, `null_default` for
    /// `Null`. This is the one extractor that preserves the three-way
    /// distinction.
    #[inline]
    pub fn unwrap_or_null_default(self, absent_default: T, null_default: T) -> (r: T)
        ensures
            self is Present ==> r == self->0,
            self is Null ==> r == null_default,
            self is Absent ==> r == absent_default,
    {
        match self {
            Presence::Present(value) => value,
            Presence::Null => null_default,
            Presence::Absent => absent_default,
        }
    }

    /// True exactly when the presence holds a payload satisfying the
    /// predicate; `Null` and `Absent` never do.
    #[inline]
    pub fn is_some_and<F>(self, f: F) -> (r: bool) where F: FnOnce(T) -> bool
        requires
            self matches Presence::Present(v) ==> call_requires(f, (v,)),
        ensures
            self matches Presence::Present(v) ==> call_ensures(f, (v,), r),
            !(self is Present) ==> !r,
    {
        match self {
            Presence::Present(val) => f(val),
            Presence::Null | Presence::Absent => false,
        }
    }

    /// True when the slot is `Absent`, or holds a payload satisfying the
    /// predicate; an explicit `Null` never does.
    #[inline]
    pub fn is_absent_or<F>(self, f: F) -> (r: bool) where F: FnOnce(T) -> bool
        requires
            self matches Presence::Present(v) ==> call_requires(f, (v,)),
        ensures
            self matches Presence::Present(v) ==> call_ensures(f, (v,), r),
            self is Null ==> !r,
            self is Absent ==> r,
    {
        match self {
            Presence::Present(val) => f(val),
            Presence::Null => false,
            Presence::Absent => true,
        }
    }

    /// True when the slot is empty in either way (`Null` or `Absent`), or
    /// holds a payload satisfying the predicate.
    #[inline]
    pub fn is_null_or<F>(self, f: F) -> (r: bool) where F: FnOnce(T) -> bool
        requires
            self matches Presence::Present(v) ==> call_requires(f, (v,)),
        ensures
            self matches Presence::Present(v) ==> call_ensures(f, (v,), r),
            !(self is Present) ==> r,
    {
        match self {
            Presence::Present(val) => f(val),
            Presence::Null | Presence::Absent => true,
        }
    }

    /// Turns the presence into a recoverable result: the payload as `Ok`,
    /// and the caller's error value for both empty states.
    #[inline]
    pub fn ok_or<E>(self, err: E) -> (r: Result<T, E>)
        ensures
            self matches Presence::Present(v) ==> r == Result::<T, E>::Ok(v),
            !(self is Present) ==> r == Result::<T, E>::Err(err),
    {
        match self {
            Presence::Present(val) => Ok(val),
            Presence::Null | Presence::Absent => Err(err),
        }
    }

    /// Turns the presence into a recoverable result: the payload as `Ok`,
    /// and an error computed by the closure for both empty states.
    #[inline]
    pub fn ok_or_else<E, F>(self, err: F) -> (r: Result<T, E>) where F: FnOnce() -> E
        requires
            !(self is Present) ==> call_requires(err, ()),
        ensures
            self matches Presence::Present(v) ==> r == Result::<T, E>::Ok(v),
            !(self is Present) ==> (r matches Result::Err(e) && call_ensures(err, (), e)),
    {
        match self {
            Presence::Present(val) => Ok(val),
            Presence::Null | Presence::Absent => Err(err()),
        }
    }
}

} // verus!
