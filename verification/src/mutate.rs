//! In-place mutation of the slot: take, replace, and the insert family.
//!
//! Each operation needs exclusive access to the slot and says precisely how
//! the new contents relate to the old.

use vstd::prelude::*;

use crate::presence::Presence;

verus! {

impl<T> Presence<T> {
    /// Takes the value out of the slot, leaving `Absent` in its place. The
    /// prior value is returned unchanged, whatever it was — a prior `Null`
    /// is preserved as `Null`.
    #[inline]
    pub fn take(&mut self) -> (r: Presence<T>)
        ensures
            r == *old(self),
            *final(self) is Absent,
    {
        let mut slot = Presence::Absent;
        core::mem::swap(self, &mut slot);
        slot
    }

    /// Takes the value out of the slot only when it holds a payload the
    /// predicate accepts, leaving `Absent` behind; otherwise the slot is
    /// untouched and `Absent` is returned.
    #[inline]
    pub fn take_if<P>(&mut self, predicate: P) -> (r: Presence<T>) where P: FnOnce(&T) -> bool
        requires
            (*old(self)) matches Presence::Present(v) ==> call_requires(predicate, (&v,)),
        ensures
            (*old(self)) matches Presence::Present(v) ==> {
                ||| call_ensures(predicate, (&v,), true) && r == *old(self)
                    && *final(self) is Absent
                ||| call_ensures(predicate, (&v,), false) && r is Absent
                    && *final(self) == *old(self)
            },
            !((*old(self)) is Present) ==> r is Absent && *final(self) == *old(self),
    {
        let take_it = match &*self {
            Presence::Present(val) => predicate(val),
            Presence::Null | Presence::Absent => false,
        };
        if take_it {
            self.take()
        } else {
            Presence::Absent
        }
    }

    /// Swaps `Present(value)` into the slot and returns the prior contents.
    #[inline]
    pub fn replace(&mut self, value: T) -> (r: Presence<T>)
        ensures
            r == *old(self),
            *final(self) == Presence::Present(value),
    {
        let mut slot = Presence::Present(value);
        core::mem::swap(self, &mut slot);
        slot
    }

    /// Unconditionally sets the slot to `Present(value)`, dropping any old
    /// contents, and returns a mutable handle to the new payload. The slot
    /// ends up holding whatever the caller leaves in the handle.
    #[inline]
    pub fn insert(&mut self, value: T) -> (r: &mut T)
        ensures
            *r == value,
            *final(self) == Presence::Present(*final(r)),
    {
        *self = Presence::Present(value);
        match self {
            Presence::Present(v) => v,
            Presence::Null | Presence::Absent => vstd::pervasive::unreached(),
        }
    }

    /// Sets the slot to `Present(value)` only when it is `Null` or
    /// `Absent`, leaving an existing payload untouched, then returns a
    /// mutable handle to the payload.
    #[inline]
    pub fn get_or_insert(&mut self, value: T) -> (r: &mut T)
        ensures
            (*old(self)) matches Presence::Present(v) ==> *r == v,
            !((*old(self)) is Present) ==> *r == value,
            *final(self) == Presence::Present(*final(r)),
    {
        if matches!(self, Presence::Null | Presence::Absent) {
            *self = Presence::Present(value);
        }
        match self {
            Presence::Present(v) => v,
            Presence::Null | Presence::Absent => vstd::pervasive::unreached(),
        }
    }

    /// Sets the slot to a payload computed by the closure only when it is
    /// `Null` or `Absent`, then returns a mutable handle to the payload.
    #[inline]
    pub fn get_or_insert_with<F>(&mut self, f: F) -> (r: &mut T) where F: FnOnce() -> T
        requires
            !((*old(self)) is Present) ==> call_requires(f, ()),
        ensures
            (*old(self)) matches Presence::Present(v) ==> *r == v,
            !((*old(self)) is Present) ==> call_ensures(f, (), *r),
            *final(self) == Presence::Present(*final(r)),
    {
        if matches!(self, Presence::Null | Presence::Absent) {
            *self = Presence::Present(f());
        }
        match self {
            Presence::Present(v) => v,
            Presence::Null | Presence::Absent => vstd::pervasive::unreached(),
        }
    }

    /// Sets the slot to the payload type's default value only when it is
    /// `Null` or `Absent`, then returns a mutable handle to the payload.
    #[inline]
    pub fn get_or_insert_default(&mut self) -> (r: &mut T) where T: Default
        ensures
            (*old(self)) matches Presence::Present(v) ==> *r == v,
            !((*old(self)) is Present) ==> call_ensures(<T as Default>::default, (), *r),
            *final(self) == Presence::Present(*final(r)),
    {
        if matches!(self, Presence::Null | Presence::Absent) {
            *self = Presence::Present(Default::default());
        }
        match self {
            Presence::Present(v) => v,
            Presence::Null | Presence::Absent => vstd::pervasive::unreached(),
        }
    }
}

} // verus!
