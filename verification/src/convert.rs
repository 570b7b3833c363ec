//! Standard conversions: `From` impls and the default value.

use vstd::prelude::*;

use crate::presence::Presence;

verus! {

impl<T> From<T> for Presence<T> {
    /// Wraps a plain value as `Present(value)`.
    fn from(value: T) -> (r: Self)
        ensures
            r == Presence::Present(value),
    {
        Presence::Present(value)
    }
}

impl<T> vstd::std_specs::convert::FromSpecImpl<T> for Presence<T> {
    open spec fn obeys_from_spec() -> bool {
        true
    }

    open spec fn from_spec(value: T) -> Self {
        Presence::Present(value)
    }
}

impl<T> From<Option<Option<T>>> for Presence<T> {
    /// Reads a doubly-nested optional as a presence, keeping all three
    /// states apart: `None` becomes `Absent`, `Some(None)` becomes `Null`,
    /// and `Some(Some(v))` becomes `Present(v)`.
    fn from(opt: Option<Option<T>>) -> (r: Self)
        ensures
            r == Presence::spec_from_nullable(opt),
    {
        Presence::from_nullable(opt)
    }
}

impl<T> vstd::std_specs::convert::FromSpecImpl<Option<Option<T>>> for Presence<T> {
    open spec fn obeys_from_spec() -> bool {
        true
    }

    open spec fn from_spec(opt: Option<Option<T>>) -> Self {
        Presence::spec_from_nullable(opt)
    }
}

impl<T> From<Presence<T>> for Option<Option<T>> {
    /// Writes a presence as a doubly-nested optional, keeping all three
    /// states apart: `Absent` becomes `None`, `Null` becomes `Some(None)`,
    /// and `Present(v)` becomes `Some(Some(v))`.
    fn from(presence: Presence<T>) -> (r: Self)
        ensures
            r == presence.spec_to_nullable(),
    {
        presence.to_nullable()
    }
}

impl<T> vstd::std_specs::convert::FromSpecImpl<Presence<T>> for Option<Option<T>> {
    open spec fn obeys_from_spec() -> bool {
        true
    }

    open spec fn from_spec(presence: Presence<T>) -> Self {
        presence.spec_to_nullable()
    }
}

impl<T> Default for Presence<T> {
    /// The default presence is `Absent`: a slot nobody has touched does
    /// not exist yet.
    fn default() -> (r: Self)
        ensures
            r is Absent,
    {
        Presence::Absent
    }
}

} // verus!
