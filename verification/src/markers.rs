//! Slot markers and the capability traits the generated containers dispatch
//! through.
//!
//! A generated container stores each slot as an `Option` cell and carries,
//! in its type, one marker per slot: [`OccupiedM`] when the slot is known to
//! hold a value, [`Vacancy`] when it is known to be empty.  The shape-changing
//! style instead wraps the value itself in [`Occupied`].  Every capability
//! operation on a slot is dispatched through the marker, so an operation that
//! is unsound for the slot's current state cannot be expressed at all.

use vstd::prelude::*;

use crate::lifecycle::{slot_after_remove, slot_after_set, slot_after_take, slot_value,
    taken_value};

verus! {

/// An occupied slot of a shape-changing record: the wrapper holds the value
/// and doubles as the slot's marker.
#[derive(Default, Clone, Copy, PartialEq, Eq, Debug)]
pub struct Occupied<T>(pub T);

/// Marker for an occupied slot of a fully-allocated record.  Carries no data;
/// the value lives in the record's cell.
#[derive(Default, Clone, Copy, PartialEq, Eq, Debug)]
pub struct OccupiedM;

/// Marker for a vacant slot.
#[derive(Default, Clone, Copy, PartialEq, Eq, Debug)]
pub struct Vacancy;

/// Closed set of marker types: only [`OccupiedM`] and [`Vacancy`] may carry
/// the capability traits below.
pub trait Sealed {}

impl Sealed for OccupiedM {}

impl Sealed for Vacancy {}

/// Operations a slot supports whatever its marker says.  The marker decides
/// statically whether the slot holds a value; every method's contract is
/// tied to that single bit.
pub trait MaybeAvailable: Sealed {
    /// Whether a slot with this marker holds a value.
    spec fn occupied() -> bool;

    /// Optional read: `Some` exactly when the marker says occupied.
    fn do_maybe_ref<T>(data: &Option<T>) -> (r: Option<&T>)
        requires
            data.is_some() == Self::occupied(),
        ensures
            r.is_some() == Self::occupied(),
            r.is_some() ==> *r.unwrap() == slot_value(*data),
    ;

    /// Optional mutable borrow: `Some` exactly when the marker says occupied.
    fn do_maybe_mut<T>(data: &mut Option<T>) -> (r: Option<&mut T>)
        requires
            old(data).is_some() == Self::occupied(),
        ensures
            r.is_some() == Self::occupied(),
            !Self::occupied() ==> *final(data) == *old(data),
            Self::occupied() ==> *r.unwrap() == slot_value(*old(data)) && *final(data) == Some(
                *final(r.unwrap()),
            ),
    ;

    /// Install `value`, releasing the old value first when the marker says
    /// the slot is occupied.
    fn do_set<T>(data: &mut Option<T>, value: T)
        requires
            old(data).is_some() == Self::occupied(),
        ensures
            *final(data) == slot_after_set(*old(data), value),
    ;

    /// Release the slot's value if the marker says it holds one; a no-op on a
    /// vacant slot.
    fn do_drop<T>(data: &mut Option<T>)
        requires
            old(data).is_some() == Self::occupied(),
        ensures
            *final(data) == slot_after_remove(*old(data)),
    ;

    /// Duplicate the slot for a fork: clone an occupied cell, reproduce a
    /// vacant one, so the copy's occupancy equals the original's.
    fn do_clone<T: Clone>(data: &Option<T>) -> (r: Option<T>)
        requires
            data.is_some() == Self::occupied(),
        ensures
            r.is_some() == Self::occupied(),
            r.is_some() ==> cloned::<T>(slot_value(*data), r.unwrap()),
    ;
}

/// Operations only an occupied slot supports.  No implementation exists for
/// [`Vacancy`], so a container whose shape marks a slot absent cannot even
/// express these calls.
pub trait Available: MaybeAvailable {
    /// Borrow the slot's value.
    fn do_ref<T>(data: &Option<T>) -> (r: &T)
        requires
            Self::occupied(),
            data.is_some(),
        ensures
            *r == slot_value(*data),
    ;

    /// Mutably borrow the slot's value.
    fn do_mut<T>(data: &mut Option<T>) -> (r: &mut T)
        requires
            Self::occupied(),
            old(data).is_some(),
        ensures
            *r == slot_value(*old(data)),
            *final(data) == Some(*final(r)),
    ;

    /// Read the slot's value out by cloning, without consuming the slot.
    fn do_read<T: Clone>(data: &Option<T>) -> (r: T)
        requires
            Self::occupied(),
            data.is_some(),
        ensures
            cloned::<T>(slot_value(*data), r),
    ;

    /// Move the slot's value out, leaving the slot vacant.
    fn do_take<T>(data: &mut Option<T>) -> (r: T)
        requires
            Self::occupied(),
            old(data).is_some(),
        ensures
            r == taken_value(*old(data)),
            *final(data) == slot_after_take(*old(data)),
    ;
}

/// The markers are faithful type-level tags: the occupied marker claims a
/// value and the vacant marker claims none, so a shape determines exactly
/// which slots the capability operations may read.
pub proof fn lemma_marker_tags()
    ensures
        OccupiedM::occupied(),
        !Vacancy::occupied(),
{
}

impl MaybeAvailable for OccupiedM {
    open spec fn occupied() -> bool {
        true
    }

    fn do_maybe_ref<T>(data: &Option<T>) -> (r: Option<&T>) {
        data.as_ref()
    }

    fn do_maybe_mut<T>(data: &mut Option<T>) -> (r: Option<&mut T>) {
        data.as_mut()
    }

    fn do_set<T>(data: &mut Option<T>, value: T) {
        // Release the old value before installing the new one.
        let _released = data.take();
        *data = Some(value);
    }

    fn do_drop<T>(data: &mut Option<T>) {
        *data = None;
    }

    fn do_clone<T: Clone>(data: &Option<T>) -> (r: Option<T>) {
        match data {
            Some(v) => Some(v.clone()),
            None => unreached(),
        }
    }
}

impl Available for OccupiedM {
    fn do_ref<T>(data: &Option<T>) -> (r: &T) {
        match data {
            Some(v) => v,
            None => unreached(),
        }
    }

    fn do_mut<T>(data: &mut Option<T>) -> (r: &mut T) {
        match data.as_mut() {
            Some(v) => v,
            None => unreached(),
        }
    }

    fn do_read<T: Clone>(data: &Option<T>) -> (r: T) {
        match data {
            Some(v) => v.clone(),
            None => unreached(),
        }
    }

    fn do_take<T>(data: &mut Option<T>) -> (r: T) {
        match data.take() {
            Some(v) => v,
            None => unreached(),
        }
    }
}

impl MaybeAvailable for Vacancy {
    open spec fn occupied() -> bool {
        false
    }

    fn do_maybe_ref<T>(data: &Option<T>) -> (r: Option<&T>) {
        None
    }

    fn do_maybe_mut<T>(data: &mut Option<T>) -> (r: Option<&mut T>) {
        None
    }

    fn do_set<T>(data: &mut Option<T>, value: T) {
        *data = Some(value);
    }

    fn do_drop<T>(data: &mut Option<T>) {
    }

    fn do_clone<T: Clone>(data: &Option<T>) -> (r: Option<T>) {
        None
    }
}

} // verus!
