//! Three-valued presence semantics for optional and nullable fields.
//!
//! The [`Presence<T>`] container distinguishes three states of a field or
//! slot: `Absent` (the slot does not exist in the surrounding structure),
//! `Null` (the slot exists but holds an explicit null), and `Present(value)`
//! (the slot holds a concrete payload). Every operation carries a contract
//! stating exactly which state it produces, and the crate's laws — state
//! exclusivity, conversion round-trips, the `Absent > Null > Present`
//! precedence of the combining operations — are machine-checked.

pub mod borrow;
pub mod codec;
pub mod combinators;
pub mod convert;
pub mod extract;
pub mod iter;
pub mod mutate;
pub mod presence;
pub mod reduction;

pub use iter::Item;
pub use iter::Iter;
pub use iter::IterMut;
pub use presence::Presence;
