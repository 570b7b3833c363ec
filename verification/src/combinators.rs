//! Pure transformations and boolean-style combinators.
//!
//! Throughout, the two empty states keep their distinct identity: `map` and
//! friends pass `Null` and `Absent` through as themselves, and wherever two
//! presences are combined into one, absence dominates null
//! (`Absent > Null > Present`).

use vstd::prelude::*;

use crate::presence::Presence;

verus! {

impl<T> Presence<T> {
    /// Transforms the payload of a `Present` value; `Null` and `Absent`
    /// pass through unchanged, each keeping its own identity.
    #[inline]
    pub fn map<U, F>(self, f: F) -> (r: Presence<U>) where F: FnOnce(T) -> U
        requires
            self matches Presence::Present(v) ==> call_requires(f, (v,)),
        ensures
            self is Null ==> r is Null,
            self is Absent ==> r is Absent,
            self matches Presence::Present(v) ==> r matches Presence::Present(u)
                && call_ensures(f, (v,), u),
    {
        match self {
            Presence::Present(val) => Presence::Present(f(val)),
            Presence::Null => Presence::Null,
            Presence::Absent => Presence::Absent,
        }
    }

    /// Calls the closure on a shared borrow of the payload when `Present`,
    /// then returns the presence unchanged.
    #[inline]
    pub fn inspect<F>(self, f: F) -> (r: Self) where F: FnOnce(&T)
        requires
            self matches Presence::Present(v) ==> call_requires(f, (&v,)),
        ensures
            r == self,
    {
        match &self {
            Presence::Present(val) => f(val),
            Presence::Null | Presence::Absent => (),
        }
        self
    }

    /// Applies the closure to the payload when `Present`, and returns the
    /// provided default for both empty states.
    #[inline]
    pub fn map_or<U, F>(self, default: U, f: F) -> (r: U) where F: FnOnce(T) -> U
        requires
            self matches Presence::Present(v) ==> call_requires(f, (v,)),
        ensures
            self matches Presence::Present(v) ==> call_ensures(f, (v,), r),
            !(self is Present) ==> r == default,
    {
        match self {
            Presence::Present(val) => f(val),
            Presence::Null | Presence::Absent => default,
        }
    }

    /// Applies `f` to the payload when `Present`, and computes the fallback
    /// with `default` for both empty states.
    #[inline]
    pub fn map_or_else<U, D, F>(self, default: D, f: F) -> (r: U) where
        D: FnOnce() -> U,
        F: FnOnce(T) -> U,

        requires
            self matches Presence::Present(v) ==> call_requires(f, (v,)),
            !(self is Present) ==> call_requires(default, ()),
        ensures
            self matches Presence::Present(v) ==> call_ensures(f, (v,), r),
            !(self is Present) ==> call_ensures(default, (), r),
    {
        match self {
            Presence::Present(val) => f(val),
            Presence::Null | Presence::Absent => default(),
        }
    }

    /// Applies the closure to the payload when `Present`, and returns the
    /// result type's default value for both empty states.
    #[inline]
    pub fn map_or_default<U, F>(self, f: F) -> (r: U) where
        F: FnOnce(T) -> U,
        U: Default,

        requires
            self matches Presence::Present(v) ==> call_requires(f, (v,)),
        ensures
            self matches Presence::Present(v) ==> call_ensures(f, (v,), r),
            !(self is Present) ==> call_ensures(<U as Default>::default, (), r),
    {
        match self {
            Presence::Present(val) => f(val),
            Presence::Null | Presence::Absent => Default::default(),
        }
    }

    /// Returns `optb` when `self` is `Present`; otherwise the left
    /// operand's own empty state propagates, not the right's.
    #[inline]
    pub fn and<U>(self, optb: Presence<U>) -> (r: Presence<U>)
        ensures
            self is Present ==> r == optb,
            self is Null ==> r is Null,
            self is Absent ==> r is Absent,
    {
        match self {
            Presence::Present(_) => optb,
            Presence::Null => Presence::Null,
            Presence::Absent => Presence::Absent,
        }
    }

    /// Chains a presence-returning computation onto the payload; the left
    /// operand's own empty state propagates unchanged.
    #[inline]
    pub fn and_then<U, F>(self, f: F) -> (r: Presence<U>) where F: FnOnce(T) -> Presence<U>
        requires
            self matches Presence::Present(v) ==> call_requires(f, (v,)),
        ensures
            self is Null ==> r is Null,
            self is Absent ==> r is Absent,
            self matches Presence::Present(v) ==> call_ensures(f, (v,), r),
    {
        match self {
            Presence::Present(val) => f(val),
            Presence::Null => Presence::Null,
            Presence::Absent => Presence::Absent,
        }
    }

    /// Keeps a `Present` payload only when the predicate accepts it; a
    /// rejected payload becomes `Absent` (filtering never produces `Null`),
    /// and the empty states pass through unchanged.
    #[inline]
    pub fn filter<P>(self, predicate: P) -> (r: Self) where P: FnOnce(&T) -> bool
        requires
            self matches Presence::Present(v) ==> call_requires(predicate, (&v,)),
        ensures
            self is Null ==> r is Null,
            self is Absent ==> r is Absent,
            self matches Presence::Present(v) ==> {
                ||| call_ensures(predicate, (&v,), true) && r == self
                ||| call_ensures(predicate, (&v,), false) && r is Absent
            },
    {
        match self {
            Presence::Present(val) => {
                if predicate(&val) {
                    Presence::Present(val)
                } else {
                    Presence::Absent
                }
            },
            Presence::Null => Presence::Null,
            Presence::Absent => Presence::Absent,
        }
    }

    /// Returns `self` when it holds a payload, and `optb` for both empty
    /// states.
    #[inline]
    pub fn or(self, optb: Presence<T>) -> (r: Presence<T>)
        ensures
            self is Present ==> r == self,
            !(self is Present) ==> r == optb,
    {
        match self {
            Presence::Present(_) => self,
            Presence::Null | Presence::Absent => optb,
        }
    }

    /// Returns `self` when it holds a payload, and otherwise computes the
    /// alternative with the closure.
    #[inline]
    pub fn or_else<F>(self, f: F) -> (r: Presence<T>) where F: FnOnce() -> Presence<T>
        requires
            !(self is Present) ==> call_requires(f, ()),
        ensures
            self is Present ==> r == self,
            !(self is Present) ==> call_ensures(f, (), r),
    {
        match self {
            Presence::Present(_) => self,
            Presence::Null | Presence::Absent => f(),
        }
    }

    /// Exclusive choice: exactly one `Present` operand yields that operand;
    /// two `Present` operands yield `Absent`; `Absent` paired with an empty
    /// state yields `Absent`; `Null` with `Null` yields `Null`.
    #[inline]
    pub fn xor(self, optb: Presence<T>) -> (r: Presence<T>)
        ensures
            self is Present && !(optb is Present) ==> r == self,
            !(self is Present) && optb is Present ==> r == optb,
            self is Present && optb is Present ==> r is Absent,
            (self is Absent || optb is Absent) && !(self is Present) && !(optb is Present)
                ==> r is Absent,
            self is Null && optb is Null ==> r is Null,
    {
        match (self, optb) {
            (Presence::Present(a), Presence::Null | Presence::Absent) => Presence::Present(a),
            (Presence::Null | Presence::Absent, Presence::Present(b)) => Presence::Present(b),
            (Presence::Present(_), Presence::Present(_)) => Presence::Absent,
            (Presence::Absent, _) | (_, Presence::Absent) => Presence::Absent,
            (Presence::Null, Presence::Null) => Presence::Null,
        }
    }

    /// Pairs two payloads. Two `Present` operands yield the pair; an
    /// `Absent` on either side dominates; otherwise at least one side is
    /// `Null` and the result is `Null`.
    #[inline]
    pub fn zip<U>(self, other: Presence<U>) -> (r: Presence<(T, U)>)
        ensures
            self is Present && other is Present
                ==> r == Presence::Present((self->0, other->0)),
            self is Absent || other is Absent ==> r is Absent,
            !(self is Absent) && !(other is Absent) && (self is Null || other is Null)
                ==> r is Null,
    {
        match (self, other) {
            (Presence::Present(a), Presence::Present(b)) => Presence::Present((a, b)),
            (Presence::Absent, _) | (_, Presence::Absent) => Presence::Absent,
            (Presence::Null, _) | (_, Presence::Null) => Presence::Null,
        }
    }

    /// Combines two payloads with `f`, under the same precedence as
    /// [`zip`](Self::zip): absence dominates, then null, then the combined
    /// payload.
    #[inline]
    pub fn zip_with<U, F, R>(self, other: Presence<U>, f: F) -> (r: Presence<R>) where
        F: FnOnce(T, U) -> R,

        requires
            self is Present && other is Present ==> call_requires(f, (self->0, other->0)),
        ensures
            self is Present && other is Present ==> r is Present
                && call_ensures(f, (self->0, other->0), r->0),
            self is Absent || other is Absent ==> r is Absent,
            !(self is Absent) && !(other is Absent) && (self is Null || other is Null)
                ==> r is Null,
    {
        match (self, other) {
            (Presence::Present(a), Presence::Present(b)) => Presence::Present(f(a, b)),
            (Presence::Absent, _) | (_, Presence::Absent) => Presence::Absent,
            (Presence::Null, _) | (_, Presence::Null) => Presence::Null,
        }
    }

    /// Combines two presences with `f`; an alias for
    /// [`zip_with`](Self::zip_with).
    #[inline]
    pub fn reduce<U, R, F>(self, other: Presence<U>, f: F) -> (r: Presence<R>) where
        F: FnOnce(T, U) -> R,

        requires
            self is Present && other is Present ==> call_requires(f, (self->0, other->0)),
        ensures
            self is Present && other is Present ==> r is Present
                && call_ensures(f, (self->0, other->0), r->0),
            self is Absent || other is Absent ==> r is Absent,
            !(self is Absent) && !(other is Absent) && (self is Null || other is Null)
                ==> r is Null,
    {
        self.zip_with(other, f)
    }
}

impl<A, B> Presence<(A, B)> {
    /// Splits a presence of a pair into a pair of presences; each side
    /// keeps the state tag of the whole.
    #[inline]
    pub fn unzip(self) -> (r: (Presence<A>, Presence<B>))
        ensures
            self matches Presence::Present(p)
                ==> r == (Presence::Present(p.0), Presence::Present(p.1)),
            self is Null ==> r == (Presence::<A>::Null, Presence::<B>::Null),
            self is Absent ==> r == (Presence::<A>::Absent, Presence::<B>::Absent),
    {
        match self {
            Presence::Present((a, b)) => (Presence::Present(a), Presence::Present(b)),
            Presence::Null => (Presence::Null, Presence::Null),
            Presence::Absent => (Presence::Absent, Presence::Absent),
        }
    }
}

impl<T> Presence<Presence<T>> {
    /// Collapses one level of nesting: a `Present` outer layer yields the
    /// inner presence verbatim, and an empty outer layer propagates itself.
    #[inline]
    pub fn flatten(self) -> (r: Presence<T>)
        ensures
            self matches Presence::Present(inner) ==> r == inner,
            self is Null ==> r is Null,
            self is Absent ==> r is Absent,
    {
        match self {
            Presence::Present(inner) => inner,
            Presence::Null => Presence::Null,
            Presence::Absent => Presence::Absent,
        }
    }
}

impl<T, E> Presence<Result<T, E>> {
    /// Swaps a presence of a fallible result for a fallible result of a
    /// presence: a `Present` error becomes the error, and everything else
    /// succeeds with its state kept.
    #[inline]
    pub fn transpose(self) -> (r: Result<Presence<T>, E>)
        ensures
            self matches Presence::Present(Result::<T, E>::Ok(v))
                ==> r == Result::<Presence<T>, E>::Ok(Presence::Present(v)),
            self matches Presence::Present(Result::<T, E>::Err(e))
                ==> r == Result::<Presence<T>, E>::Err(e),
            self is Null ==> r == Result::<Presence<T>, E>::Ok(Presence::<T>::Null),
            self is Absent ==> r == Result::<Presence<T>, E>::Ok(Presence::<T>::Absent),
    {
        match self {
            Presence::Present(Ok(v)) => Ok(Presence::Present(v)),
            Presence::Present(Err(e)) => Err(e),
            Presence::Null => Ok(Presence::Null),
            Presence::Absent => Ok(Presence::Absent),
        }
    }
}

} // verus!
