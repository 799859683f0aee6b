//! Traits the generated fully-allocated containers implement so that callers
//! can be generic over "a record that hands out handlers".
//!
//! A *record* owns the slot cells; a *handler* borrows the record and carries
//! the shape (one marker per slot) as a zero-size phantom value.  These
//! traits carry no contracts of their own: each generated implementation is
//! a thin forwarder to the inherent methods the generator emits.

use vstd::prelude::*;

verus! {

/// A storage record that can hand out a handler over itself whose shape marks
/// every slot vacant, clearing any leftover values first.
pub trait Handler {
    /// The all-vacant handler type borrowing this record.
    type Hdr<'a> where Self: 'a;

    /// Borrow the record through a fresh all-vacant handler.
    fn handler(&mut self) -> Self::Hdr<'_>;
}

/// A shape token that can be attached to a storage record, yielding a handler
/// that claims the token's shape.
///
/// The caller must make sure the record's true occupancy matches the claimed
/// shape: an occupied claim over an empty cell makes later accesses through
/// the handler fail.  The [`Fork`] operation produces a record and token pair
/// for which the match holds by construction.
pub trait Attach<Store> {
    /// The handler type this token produces over `Store`.
    type Hdr<'a> where Store: 'a;

    /// Attach the token to `store`.
    fn attach(self, store: &mut Store) -> Self::Hdr<'_>;
}

/// Duplicate a record's live data: yields an independent record holding a
/// copy of exactly the slots the current shape marks present, plus a shape
/// token that re-attaches a handler of that same shape to the copy.
pub trait Fork {
    /// The record type the fork produces.
    type Store;

    /// The shape token type the fork produces.
    type State;

    /// Fork the record under this handler's shape.
    fn fork(&self) -> (Self::Store, Self::State);
}

} // verus!
