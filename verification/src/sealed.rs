//! The crate's sealing trait. The module is private, so downstream crates
//! cannot name [`Sealed`] and therefore cannot implement the abstraction
//! traits bounded by it.

use vstd::prelude::*;

verus! {

/// Supertrait that keeps the crate's abstraction traits closed: only types
/// of this crate can implement it, so the contracts those traits' impls
/// carry are the crate's own.
pub trait Sealed {

}

} // verus!
