//! Read-only and mutable borrows of the payload, and slice views.

use vstd::prelude::*;

use crate::presence::Presence;

verus! {

/// Relies on core::slice::from_ref: the one-element slice holding exactly
/// the referenced value.
pub assume_specification<T>[ core::slice::from_ref::<T> ](s: &T) -> (r: &[T])
    ensures
        r@ =~= seq![*s],
;

/// Relies on core::slice::from_mut: the one-element mutable slice is a view
/// of exactly the referenced value, so writes to its single element land in
/// that value and the slice keeps length one.
pub assume_specification<T>[ core::slice::from_mut::<T> ](s: &mut T) -> (r: &mut [T])
    ensures
        r@ =~= seq![*old(s)],
        final(r)@.len() == 1,
        *final(s) == final(r)@[0],
;

impl<T> Presence<T> {
    /// Borrows the payload, producing a presence of a reference with the
    /// same state tag and leaving the original in place.
    #[inline]
    pub fn as_ref(&self) -> (r: Presence<&T>)
        ensures
            r is Present <==> self is Present,
            r is Null <==> self is Null,
            r is Absent <==> self is Absent,
            self is Present ==> *r->0 == self->0,
    {
        match self {
            Presence::Present(val) => Presence::Present(val),
            Presence::Null => Presence::Null,
            Presence::Absent => Presence::Absent,
        }
    }

    /// Mutably borrows the payload, producing a presence of a mutable
    /// handle with the same state tag; writing through the handle changes
    /// the payload in place but never the state tag.
    #[inline]
    pub fn as_mut(&mut self) -> (r: Presence<&mut T>)
        ensures
            (*old(self)) is Null ==> r is Null && *final(self) is Null,
            (*old(self)) is Absent ==> r is Absent && *final(self) is Absent,
            (*old(self)) is Present ==> r is Present && *r->0 == (*old(self))->0
                && *final(self) == Presence::Present(*final(r->0)),
    {
        match self {
            Presence::Present(val) => Presence::Present(val),
            Presence::Null => Presence::Null,
            Presence::Absent => Presence::Absent,
        }
    }

    /// Views the presence as a slice of its payloads: one element when
    /// `Present`, empty for `Null` and `Absent`.
    #[inline]
    pub fn as_slice(&self) -> (r: &[T])
        ensures
            self is Present ==> r@ =~= seq![self->0],
            !(self is Present) ==> r@ =~= Seq::<T>::empty(),
    {
        match self {
            Presence::Present(val) => core::slice::from_ref(val),
            Presence::Null | Presence::Absent => &[],
        }
    }

    /// Views the presence as a mutable slice of its payloads: one element
    /// when `Present`, empty otherwise. Writing through the slice changes
    /// the payload in place but never the state tag.
    #[inline]
    pub fn as_mut_slice(&mut self) -> (r: &mut [T])
        ensures
            (*old(self)) is Present ==> r@ =~= seq![(*old(self))->0]
                && final(r)@.len() == 1
                && *final(self) == Presence::Present(final(r)@[0]),
            !((*old(self)) is Present) ==> r@ =~= Seq::<T>::empty()
                && *final(self) == *old(self),
    {
        match self {
            Presence::Present(val) => core::slice::from_mut(val),
            Presence::Null | Presence::Absent => &mut [],
        }
    }

    /// Borrows the payload through its `Deref` target, keeping the state
    /// tag. Nothing is known of a generic `deref` beyond it being the
    /// payload's own, so the contract records which call produced the
    /// borrow.
    #[inline]
    pub fn as_deref(&self) -> (r: Presence<&<T as core::ops::Deref>::Target>) where
        T: core::ops::Deref,

        ensures
            r is Null <==> self is Null,
            r is Absent <==> self is Absent,
            self is Present ==> r is Present && call_ensures(
                <T as core::ops::Deref>::deref,
                (&self->0,),
                r->0,
            ),
    {
        match self {
            Presence::Present(val) => Presence::Present(val.deref()),
            Presence::Null => Presence::Null,
            Presence::Absent => Presence::Absent,
        }
    }

    /// Mutably borrows the payload through its `DerefMut` target, keeping
    /// the state tag. Nothing is known of a generic `deref_mut`, so the
    /// contract pins the state tags of the result and of the untouched
    /// empty states only.
    #[inline]
    pub fn as_deref_mut(&mut self) -> (r: Presence<&mut <T as core::ops::Deref>::Target>) where
        T: core::ops::DerefMut,

        ensures
            r is Present <==> (*old(self)) is Present,
            (*old(self)) is Null ==> r is Null && *final(self) is Null,
            (*old(self)) is Absent ==> r is Absent && *final(self) is Absent,
    {
        match self {
            Presence::Present(val) => Presence::Present(val.deref_mut()),
            Presence::Null => Presence::Null,
            Presence::Absent => Presence::Absent,
        }
    }
}

impl<'a, T> Presence<&'a T> {
    /// Copies the referenced payload out of a borrowed presence; the state
    /// tag is kept.
    #[inline]
    pub fn copied(self) -> (r: Presence<T>) where T: Copy
        ensures
            self matches Presence::Present(v) ==> r == Presence::Present(*v),
            self is Null ==> r is Null,
            self is Absent ==> r is Absent,
    {
        match self {
            Presence::Present(val) => Presence::Present(*val),
            Presence::Null => Presence::Null,
            Presence::Absent => Presence::Absent,
        }
    }

    /// Clones the referenced payload out of a borrowed presence; the state
    /// tag is kept.
    #[inline]
    pub fn cloned(self) -> (r: Presence<T>) where T: Clone
        ensures
            self matches Presence::Present(v) ==> r matches Presence::Present(u)
                && vstd::pervasive::cloned(*v, u),
            self is Null ==> r is Null,
            self is Absent ==> r is Absent,
    {
        match self {
            Presence::Present(val) => Presence::Present(val.clone()),
            Presence::Null => Presence::Null,
            Presence::Absent => Presence::Absent,
        }
    }
}

impl<'a, T> Presence<&'a mut T> {
    /// Copies the payload out from behind a mutable handle; the state tag
    /// is kept and the handle is released unchanged.
    #[inline]
    pub fn copied(self) -> (r: Presence<T>) where T: Copy
        ensures
            self matches Presence::Present(m) ==> r == Presence::Present(*m),
            self is Null ==> r is Null,
            self is Absent ==> r is Absent,
    {
        match self {
            Presence::Present(val) => Presence::Present(*val),
            Presence::Null => Presence::Null,
            Presence::Absent => Presence::Absent,
        }
    }

    /// Clones the payload out from behind a mutable handle; the state tag
    /// is kept and the handle is released unchanged.
    #[inline]
    pub fn cloned(self) -> (r: Presence<T>) where T: Clone
        ensures
            self matches Presence::Present(m) ==> r matches Presence::Present(u)
                && vstd::pervasive::cloned(*m, u),
            self is Null ==> r is Null,
            self is Absent ==> r is Absent,
    {
        match self {
            Presence::Present(val) => Presence::Present(val.clone()),
            Presence::Null => Presence::Null,
            Presence::Absent => Presence::Absent,
        }
    }
}

} // verus!
