//! The presence as a sequence of zero or one payload.
//!
//! Three traversal flavors are offered: [`Item`] consumes the presence and
//! yields the owned payload, [`Iter`] yields a shared borrow, and
//! [`IterMut`] yields a mutable handle through which the payload can be
//! changed in place without touching the container's state tag. Each is a
//! cursor of exact known size (0 or 1) that can be walked from the front or
//! the back and is exhausted after its single step.

use vstd::prelude::*;

use crate::presence::Presence;

verus! {

/// A cursor that moves the payload out of a presence: one step when the
/// presence was `Present`, none otherwise.
#[derive(Clone, Debug)]
pub struct Item<A> {
    presence: Presence<A>,
}

impl<A> Item<A> {
    /// What the cursor has still to yield.
    pub closed spec fn remaining(self) -> Presence<A> {
        self.presence
    }

    /// Yields the payload on the first step after construction from a
    /// `Present` value, and `None` from then on.
    #[inline]
    pub fn next(&mut self) -> (r: Option<A>)
        ensures
            (*old(self)).remaining() matches Presence::Present(v) ==> r == Some(v),
            !((*old(self)).remaining() is Present) ==> r is None,
            (*final(self)).remaining() is Absent,
    {
        match self.presence.take() {
            Presence::Present(val) => Some(val),
            Presence::Null | Presence::Absent => None,
        }
    }

    /// Yields the same single step as [`next`](Self::next), walking from
    /// the back: a sequence of at most one element reads the same both
    /// ways.
    #[inline]
    pub fn next_back(&mut self) -> (r: Option<A>)
        ensures
            (*old(self)).remaining() matches Presence::Present(v) ==> r == Some(v),
            !((*old(self)).remaining() is Present) ==> r is None,
            (*final(self)).remaining() is Absent,
    {
        match self.presence.take() {
            Presence::Present(val) => Some(val),
            Presence::Null | Presence::Absent => None,
        }
    }

    /// The exact number of steps left: 1 before a `Present` payload is
    /// yielded, 0 otherwise.
    #[inline]
    pub fn len(&self) -> (n: usize)
        ensures
            n == self.remaining().spec_len(),
    {
        self.presence.len()
    }

    /// The exact size bounds of the cursor: both ends equal
    /// [`len`](Self::len).
    #[inline]
    pub fn size_hint(&self) -> (h: (usize, Option<usize>))
        ensures
            h.0 == self.remaining().spec_len(),
            h.1 == Some(h.0),
    {
        let n = self.presence.len();
        (n, Some(n))
    }
}

/// A cursor over a shared borrow of the payload.
#[derive(Clone, Debug)]
pub struct Iter<'a, A> {
    inner: Item<&'a A>,
}

impl<'a, A> Iter<'a, A> {
    /// What the cursor has still to yield.
    pub closed spec fn remaining(self) -> Presence<&'a A> {
        self.inner.remaining()
    }

    /// Yields a borrow of the payload on the first step, and `None` from
    /// then on.
    #[inline]
    pub fn next(&mut self) -> (r: Option<&'a A>)
        ensures
            (*old(self)).remaining() matches Presence::Present(v) ==> r == Some(v),
            !((*old(self)).remaining() is Present) ==> r is None,
            (*final(self)).remaining() is Absent,
    {
        self.inner.next()
    }

    /// The single step of [`next`](Self::next), walking from the back.
    #[inline]
    pub fn next_back(&mut self) -> (r: Option<&'a A>)
        ensures
            (*old(self)).remaining() matches Presence::Present(v) ==> r == Some(v),
            !((*old(self)).remaining() is Present) ==> r is None,
            (*final(self)).remaining() is Absent,
    {
        self.inner.next_back()
    }

    /// The exact number of steps left.
    #[inline]
    pub fn len(&self) -> (n: usize)
        ensures
            n == self.remaining().spec_len(),
    {
        self.inner.len()
    }

    /// The exact size bounds of the cursor.
    #[inline]
    pub fn size_hint(&self) -> (h: (usize, Option<usize>))
        ensures
            h.0 == self.remaining().spec_len(),
            h.1 == Some(h.0),
    {
        self.inner.size_hint()
    }
}

/// A cursor over a mutable handle to the payload.
#[derive(Debug)]
pub struct IterMut<'a, A> {
    inner: Item<&'a mut A>,
}

impl<'a, A> IterMut<'a, A> {
    /// What the cursor has still to yield.
    pub closed spec fn remaining(self) -> Presence<&'a mut A> {
        self.inner.remaining()
    }

    /// Yields the mutable handle on the first step, and `None` from then
    /// on.
    #[inline]
    pub fn next(&mut self) -> (r: Option<&'a mut A>)
        ensures
            (*old(self)).remaining() matches Presence::Present(m) ==> r == Some(m),
            !((*old(self)).remaining() is Present) ==> r is None,
            (*final(self)).remaining() is Absent,
    {
        self.inner.next()
    }

    /// The single step of [`next`](Self::next), walking from the back.
    #[inline]
    pub fn next_back(&mut self) -> (r: Option<&'a mut A>)
        ensures
            (*old(self)).remaining() matches Presence::Present(m) ==> r == Some(m),
            !((*old(self)).remaining() is Present) ==> r is None,
            (*final(self)).remaining() is Absent,
    {
        self.inner.next_back()
    }

    /// The exact number of steps left.
    #[inline]
    pub fn len(&self) -> (n: usize)
        ensures
            n == self.remaining().spec_len(),
    {
        self.inner.len()
    }

    /// The exact size bounds of the cursor.
    #[inline]
    pub fn size_hint(&self) -> (h: (usize, Option<usize>))
        ensures
            h.0 == self.remaining().spec_len(),
            h.1 == Some(h.0),
    {
        self.inner.size_hint()
    }
}

impl<T> Presence<T> {
    /// Turns the presence into a consuming cursor over its payload.
    #[inline]
    pub fn into_iter(self) -> (r: Item<T>)
        ensures
            r.remaining() == self,
    {
        Item { presence: self }
    }

    /// A cursor over a shared borrow of the payload; the presence is left
    /// in place and can be traversed again.
    #[inline]
    pub fn iter(&self) -> (r: Iter<'_, T>)
        ensures
            r.remaining() is Present <==> self is Present,
            r.remaining() is Null <==> self is Null,
            r.remaining() is Absent <==> self is Absent,
            self is Present ==> *r.remaining()->0 == self->0,
    {
        Iter { inner: Item { presence: self.as_ref() } }
    }

    /// A cursor over a mutable handle to the payload; writing through the
    /// handle changes the payload in place but never the state tag.
    #[inline]
    pub fn iter_mut(&mut self) -> (r: IterMut<'_, T>)
        ensures
            (*old(self)) is Null ==> r.remaining() is Null && *final(self) is Null,
            (*old(self)) is Absent ==> r.remaining() is Absent && *final(self) is Absent,
            (*old(self)) is Present ==> r.remaining() is Present
                && *r.remaining()->0 == (*old(self))->0
                && *final(self) == Presence::Present(*final(r.remaining()->0)),
    {
        IterMut { inner: Item { presence: self.as_mut() } }
    }
}

} // verus!
