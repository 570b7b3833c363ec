//! The bridge to a two-state host serialization format.
//!
//! The host format knows only two shapes for a standalone value: a concrete
//! value token, modelled here as `Some(payload)`, and a null token,
//! modelled as `None`. A `Present` payload encodes to its value token and
//! both empty states encode to the null token, so a standalone value
//! cannot tell `Absent` from `Null` — decoding a null token always yields
//! `Null`.
//!
//! The distinction survives only at the record level, where the
//! surrounding record serializer may omit a field entirely. A field
//! encodes to `None` (omit the key) exactly when it is `Absent` — the
//! omission hook the record serializer must consult — and a missing field
//! decodes back to `Absent` as the default for an unseen key. With that
//! contract in place, every field state round-trips exactly
//! ([`lemma_field_round_trip`]); without it, `Absent` collapses to `Null`
//! on the next decode ([`lemma_value_round_trip`]).

use vstd::prelude::*;

use crate::presence::Presence;

verus! {

/// The presence a decoded standalone token stands for: a value token
/// yields `Present`, the null token yields `Null` — never `Absent`.
pub open spec fn spec_decode_value<T>(token: Option<T>) -> Presence<T> {
    match token {
        Some(v) => Presence::Present(v),
        None => Presence::Null,
    }
}

impl<T> Presence<T> {
    /// Encodes a standalone value for the host format: the payload's value
    /// token when `Present`, the null token for both empty states.
    #[inline]
    pub fn encode_value(self) -> (token: Option<T>)
        ensures
            token == self.spec_to_optional(),
            token is None <==> !(self is Present),
    {
        match self {
            Presence::Present(value) => Some(value),
            Presence::Null | Presence::Absent => None,
        }
    }

    /// Decodes a standalone token from the host format: a value token
    /// yields `Present`, the null token yields `Null`. `Absent` is never
    /// produced here; only the record level can restore it.
    #[inline]
    pub fn decode_value(token: Option<T>) -> (r: Self)
        ensures
            r == spec_decode_value(token),
    {
        match token {
            Some(value) => Presence::Present(value),
            None => Presence::Null,
        }
    }

    /// Encodes a record field: `None` means the key is omitted from the
    /// record, and happens exactly when the field is `Absent`; otherwise
    /// the field's standalone token is emitted under the key.
    #[inline]
    pub fn encode_field(self) -> (field: Option<Option<T>>)
        ensures
            field == self.spec_to_nullable(),
            field is None <==> self is Absent,
    {
        match self {
            Presence::Present(value) => Some(Some(value)),
            Presence::Null => Some(None),
            Presence::Absent => None,
        }
    }

    /// Decodes a record field: a key missing from the record (`None`)
    /// yields `Absent` as the default for an unseen field, and a key that
    /// is present decodes its standalone token.
    #[inline]
    pub fn decode_field(field: Option<Option<T>>) -> (r: Self)
        ensures
            r == Self::spec_from_nullable(field),
    {
        match field {
            Some(Some(value)) => Presence::Present(value),
            Some(None) => Presence::Null,
            None => Presence::Absent,
        }
    }
}

/// Standalone round trip: encoding and decoding a single value restores
/// `Present` and `Null` exactly, while `Absent` comes back as `Null` — the
/// documented loss of distinction when no record-level omission contract
/// is in play.
pub proof fn lemma_value_round_trip<T>(x: Presence<T>)
    ensures
        x is Present ==> spec_decode_value(x.spec_to_optional()) == x,
        x is Null ==> spec_decode_value(x.spec_to_optional()) == x,
        x is Absent ==> spec_decode_value(x.spec_to_optional()) == Presence::<T>::Null,
{
}

/// Record-level round trip: with the omit-if-absent contract (encode emits
/// no key for `Absent`, decode reads a missing key as `Absent`), every one
/// of the three field states is restored exactly.
pub proof fn lemma_field_round_trip<T>(x: Presence<T>)
    ensures
        Presence::spec_from_nullable(x.spec_to_nullable()) == x,
{
}

} // verus!
