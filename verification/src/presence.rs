//! The core tri-state container and its state predicates.

use vstd::prelude::*;

verus! {

/// A three-valued alternative to `Option<T>`.
///
/// Where `Option` distinguishes "some value" from "no value", `Presence`
/// adds a third state so that "the slot is missing" and "the slot holds an
/// explicit null" can be told apart:
///
/// - `Absent`: the slot does not exist in the surrounding structure.
/// - `Null`: the slot exists but holds no value, by explicit declaration.
/// - `Present(value)`: the slot exists and holds exactly one payload.
#[must_use]
#[derive(Clone, Copy, Debug, Hash, PartialEq, Eq, PartialOrd, Ord)]
pub enum Presence<T> {
    /// The slot is absent from the structure.
    Absent,
    /// The slot is present but the value is null.
    Null,
    /// The slot is present with a concrete value.
    Present(T),
}

impl<T> Presence<T> {
    /// True exactly when the presence is `Absent`.
    #[inline]
    pub fn is_absent(&self) -> (r: bool)
        ensures
            r == (self is Absent),
    {
        matches!(self, Presence::Absent)
    }

    /// True exactly when the presence is `Null`.
    #[inline]
    pub fn is_null(&self) -> (r: bool)
        ensures
            r == (self is Null),
    {
        matches!(self, Presence::Null)
    }

    /// True exactly when the presence holds a payload.
    #[inline]
    pub fn is_present(&self) -> (r: bool)
        ensures
            r == (self is Present),
    {
        matches!(self, Presence::Present(_))
    }

    /// True when the slot is defined (exists in the structure): `Present` or
    /// `Null`, but not `Absent`.
    #[inline]
    pub fn is_defined(&self) -> (r: bool)
        ensures
            r == !(self is Absent),
    {
        !matches!(self, Presence::Absent)
    }

    /// True when the value is "nullish" (holds no payload): `Null` or
    /// `Absent`, but not `Present`.
    #[inline]
    pub fn is_nullish(&self) -> (r: bool)
        ensures
            r == !(self is Present),
    {
        !matches!(self, Presence::Present(_))
    }

    /// The optional model: the payload when `Present`, and `None` for both
    /// empty states.
    pub open spec fn spec_to_optional(self) -> Option<T> {
        match self {
            Presence::Present(v) => Some(v),
            Presence::Null => None,
            Presence::Absent => None,
        }
    }

    /// The nullable model: all three states, as a doubly-nested optional.
    pub open spec fn spec_to_nullable(self) -> Option<Option<T>> {
        match self {
            Presence::Present(v) => Some(Some(v)),
            Presence::Null => Some(None),
            Presence::Absent => None,
        }
    }

    /// The presence a plain optional stands for: `None` means the slot is
    /// absent.
    pub open spec fn spec_from_optional(opt: Option<T>) -> Presence<T> {
        match opt {
            Some(v) => Presence::Present(v),
            None => Presence::Absent,
        }
    }

    /// The presence a doubly-nested optional stands for: all three states
    /// are kept apart.
    pub open spec fn spec_from_nullable(opt: Option<Option<T>>) -> Presence<T> {
        match opt {
            Some(Some(v)) => Presence::Present(v),
            Some(None) => Presence::Null,
            None => Presence::Absent,
        }
    }

    /// Converts to `Option<T>`, collapsing both `Null` and `Absent` to
    /// `None`.
    #[inline]
    pub fn to_optional(self) -> (r: Option<T>)
        ensures
            r == self.spec_to_optional(),
    {
        match self {
            Presence::Present(value) => Some(value),
            Presence::Null | Presence::Absent => None,
        }
    }

    /// Converts to `Option<Option<T>>`, preserving all three states:
    /// `Absent` becomes `None`, `Null` becomes `Some(None)`, and
    /// `Present(v)` becomes `Some(Some(v))`.
    #[inline]
    pub fn to_nullable(self) -> (r: Option<Option<T>>)
        ensures
            r == self.spec_to_nullable(),
    {
        match self {
            Presence::Present(value) => Some(Some(value)),
            Presence::Null => Some(None),
            Presence::Absent => None,
        }
    }

    /// Converts to `Option<Option<T>>`; the same mapping as
    /// [`to_nullable`](Self::to_nullable), offered for interoperability with
    /// code that speaks of nested optionals.
    #[inline]
    pub fn to_nested_option(self) -> (r: Option<Option<T>>)
        ensures
            r == self.spec_to_nullable(),
    {
        match self {
            Presence::Absent => None,
            Presence::Null => Some(None),
            Presence::Present(value) => Some(Some(value)),
        }
    }

    /// Creates a presence from `Option<T>`, reading `None` as `Absent`.
    #[inline]
    pub fn from_optional(opt: Option<T>) -> (r: Self)
        ensures
            r == Self::spec_from_optional(opt),
    {
        match opt {
            Some(value) => Presence::Present(value),
            None => Presence::Absent,
        }
    }

    /// Creates a presence from `Option<Option<T>>`, preserving all three
    /// states: `None` becomes `Absent`, `Some(None)` becomes `Null`, and
    /// `Some(Some(v))` becomes `Present(v)`.
    #[inline]
    pub fn from_nullable(opt: Option<Option<T>>) -> (r: Self)
        ensures
            r == Self::spec_from_nullable(opt),
    {
        match opt {
            Some(Some(value)) => Presence::Present(value),
            Some(None) => Presence::Null,
            None => Presence::Absent,
        }
    }

    /// The number of payloads held: 1 for `Present`, 0 otherwise.
    pub open spec fn spec_len(self) -> nat {
        if self is Present {
            1
        } else {
            0
        }
    }

    /// Returns the number of payloads in the presence: 1 for `Present`, 0
    /// for `Null` or `Absent`.
    #[inline]
    pub fn len(&self) -> (n: usize)
        ensures
            n == self.spec_len(),
    {
        match self {
            Presence::Present(_) => 1,
            Presence::Null | Presence::Absent => 0,
        }
    }

    /// True when the presence holds no payload (`Null` or `Absent`).
    #[inline]
    pub fn is_empty(&self) -> (r: bool)
        ensures
            r == !(self is Present),
    {
        matches!(self, Presence::Null | Presence::Absent)
    }
}

/// Converting a presence to its nullable model and back restores it
/// exactly, for all three states.
pub proof fn lemma_nullable_round_trip<T>(x: Presence<T>)
    ensures
        Presence::spec_from_nullable(x.spec_to_nullable()) == x,
{
}

/// Converting a nullable value to a presence and back restores it exactly;
/// together with [`lemma_nullable_round_trip`] the nullable model is a
/// faithful image of the three states.
pub proof fn lemma_nullable_round_trip_rev<T>(opt: Option<Option<T>>)
    ensures
        Presence::spec_from_nullable(opt).spec_to_nullable() == opt,
{
}

/// Exactly one of the three state predicates holds of any presence value:
/// `Present(v)` is present and neither absent nor null, and symmetrically
/// for `Null` and `Absent`.
pub proof fn lemma_states_mutually_exclusive<T>(p: Presence<T>)
    ensures
        p is Present ==> !(p is Null) && !(p is Absent),
        p is Null ==> !(p is Present) && !(p is Absent),
        p is Absent ==> !(p is Present) && !(p is Null),
        p is Present || p is Null || p is Absent,
{
}

} // verus!
