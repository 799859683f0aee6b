//! The typestate lattice and its transition algebra.
//!
//! A container shape assigns each slot one of two markers, present or
//! absent; a shape for `n` slots is modelled as a sequence of `n` booleans
//! (`true` = present).  A single slot's storage is modelled as an
//! `Option` cell: `Some(v)` when the slot holds `v`, `None` when vacant.
//! The spec functions here name the transitions that the capability
//! operations perform, and the lemmas state the laws the transitions obey.

use vstd::prelude::*;

verus! {

// ---------------------------------------------------------------------------
// Slot-level transitions: what one operation does to one slot's cell.
// ---------------------------------------------------------------------------

/// The cell after `set`: the new value is installed, whatever was there
/// before has been released.
pub open spec fn slot_after_set<T>(c: Option<T>, v: T) -> Option<T> {
    Some(v)
}

/// The cell after `remove`: vacant, whatever was there before.
pub open spec fn slot_after_remove<T>(c: Option<T>) -> Option<T> {
    None
}

/// The cell after `take`: the value moved out, the slot left vacant.
pub open spec fn slot_after_take<T>(c: Option<T>) -> Option<T> {
    None
}

/// The value a `take` on an occupied cell moves out.
pub open spec fn taken_value<T>(c: Option<T>) -> T
    recommends
        c.is_some(),
{
    c.unwrap()
}

/// The value an occupied cell holds, as `get_ref`/`get_mut` observe it.
pub open spec fn slot_value<T>(c: Option<T>) -> T
    recommends
        c.is_some(),
{
    c.unwrap()
}

// ---------------------------------------------------------------------------
// Shape-level transitions: what one operation does to the whole shape.
// ---------------------------------------------------------------------------

/// The shape of a freshly constructed container: every slot absent.
pub open spec fn empty_shape(n: nat) -> Seq<bool> {
    Seq::new(n, |i: int| false)
}

/// The shape after `set(i)`: slot `i` present, all others unchanged.
pub open spec fn shape_after_set(s: Seq<bool>, i: int) -> Seq<bool> {
    s.update(i, true)
}

/// The shape after `remove(i)` or `take(i)`: slot `i` absent, all others
/// unchanged.
pub open spec fn shape_after_clear(s: Seq<bool>, i: int) -> Seq<bool> {
    s.update(i, false)
}

// ---------------------------------------------------------------------------
// Laws.
// ---------------------------------------------------------------------------

/// A freshly constructed empty container's shape has every slot absent.
pub proof fn lemma_empty_shape_all_absent(n: nat)
    ensures
        empty_shape(n).len() == n,
        forall|i: int| 0 <= i < n ==> !empty_shape(n)[i],
{
}

/// Round trip: `set(i, v)` followed immediately by `get_ref(i)` observes
/// exactly `v`, and leaves slot `i` present.
pub proof fn lemma_set_then_get<T>(c: Option<T>, s: Seq<bool>, i: int, v: T)
    requires
        0 <= i < s.len(),
    ensures
        slot_value(slot_after_set(c, v)) == v,
        shape_after_set(s, i)[i],
{
}

/// Overwrite: a second `set` on the same slot replaces the first value
/// entirely; the cell afterwards holds the second value and no trace of the
/// first, and the shape is the same as after a single `set`.
pub proof fn lemma_set_twice<T>(c: Option<T>, s: Seq<bool>, i: int, v1: T, v2: T)
    requires
        0 <= i < s.len(),
    ensures
        slot_after_set(slot_after_set(c, v1), v2) == slot_after_set(c, v2),
        slot_value(slot_after_set(slot_after_set(c, v1), v2)) == v2,
        shape_after_set(shape_after_set(s, i), i) == shape_after_set(s, i),
{
    assert(shape_after_set(shape_after_set(s, i), i) =~= shape_after_set(s, i));
}

/// `take(i)` after `set(i, v)` moves out exactly `v` and leaves slot `i`
/// absent; a subsequent `remove(i)` on that cell and shape is a no-op.
pub proof fn lemma_take_after_set<T>(c: Option<T>, s: Seq<bool>, i: int, v: T)
    requires
        0 <= i < s.len(),
    ensures
        taken_value(slot_after_set(c, v)) == v,
        slot_after_take(slot_after_set(c, v)).is_none(),
        slot_after_remove(slot_after_take(slot_after_set(c, v))) == slot_after_take(
            slot_after_set(c, v),
        ),
        !shape_after_clear(shape_after_set(s, i), i)[i],
        shape_after_clear(shape_after_clear(shape_after_set(s, i), i), i) == shape_after_clear(
            shape_after_set(s, i),
            i,
        ),
{
    assert(shape_after_clear(shape_after_clear(shape_after_set(s, i), i), i) =~= shape_after_clear(
        shape_after_set(s, i),
        i,
    ));
}

/// `remove(i)` on a slot that is already absent changes nothing: the cell
/// stays vacant and the shape is unchanged, however often it is repeated.
pub proof fn lemma_remove_idempotent<T>(c: Option<T>, s: Seq<bool>, i: int)
    requires
        0 <= i < s.len(),
        !s[i],
        c.is_none(),
    ensures
        slot_after_remove(c) == c,
        shape_after_clear(s, i) == s,
        slot_after_remove(slot_after_remove(c)) == slot_after_remove(c),
        shape_after_clear(shape_after_clear(s, i), i) == shape_after_clear(s, i),
{
    assert(shape_after_clear(s, i) =~= s);
}

/// A fork duplicates a container in its exact shape: each slot is copied
/// with its occupancy, and a copy whose every slot's occupancy matches the
/// original's is in the very same shape.  (Independence of the two copies
/// afterwards is ownership: they share no storage.)
pub proof fn lemma_fork_same_shape(s: Seq<bool>, forked: Seq<bool>)
    requires
        forked.len() == s.len(),
        forall|i: int| 0 <= i < s.len() ==> forked[i] == s[i],
    ensures
        forked == s,
{
    assert(forked =~= s);
}

} // verus!
