//! Capability wiring laws: the type-level transitions the generators emit
//! follow the transition algebra of [`crate::lifecycle`].
//!
//! A concrete container shape is a sequence of booleans (`true` = present).
//! Rendered as type arguments, each present slot shows the occupied marker
//! and each absent slot the vacant marker.  The lemmas here tie the argument
//! lists the generators emit — all-vacant constructors, and transformed
//! lists built by substituting one position — to the shape transitions they
//! stand for.

use vstd::prelude::*;

use crate::emit::{gen_list, repeat_list};
use crate::iters::seq_replaced;
use crate::lifecycle::{empty_shape, shape_after_clear, shape_after_set};
use crate::names::{gen_ident, occupied_m_text, occupied_text, vacancy_text};

verus! {

broadcast use vstd::seq::group_seq_axioms;

/// The marker text a concrete shape position renders to.
pub open spec fn marker_text_of(present: bool) -> Seq<char> {
    if present {
        occupied_m_text()
    } else {
        vacancy_text()
    }
}

/// The argument list rendering a concrete shape.
pub open spec fn shape_args(s: Seq<bool>) -> Seq<Seq<char>> {
    Seq::new(s.len(), |i: int| marker_text_of(s[i]))
}

/// The two markers are distinct types.
pub proof fn lemma_markers_distinct()
    ensures
        occupied_m_text() != vacancy_text(),
{
    reveal_strlit("::certain_map::OccupiedM");
    reveal_strlit("::certain_map::Vacancy");
    assert(occupied_m_text().len() != vacancy_text().len());
}

/// The vacant marker is never an occupied wrapper, whatever the slot type:
/// in the shape-changing style no reading capability, which is emitted only
/// at the occupied wrapper, applies to a vacant slot.
pub proof fn lemma_vacancy_not_occupied(ty: Seq<char>)
    ensures
        vacancy_text() != occupied_text(ty),
{
    reveal_strlit("::certain_map::Vacancy");
    reveal_strlit("::certain_map::Occupied<");
    reveal_strlit(">");
    assert(vacancy_text().len() < occupied_text(ty).len());
}

/// A freshly constructed container starts at the empty shape: the all-vacant
/// argument list the generators emit for `new` and `handler` renders exactly
/// the shape with every slot absent, and no position of it names the
/// occupied marker.
pub proof fn lemma_constructor_shape_is_empty(n: nat)
    ensures
        repeat_list(vacancy_text(), n as int) == shape_args(empty_shape(n)),
        forall|i: int| 0 <= i < n ==> shape_args(empty_shape(n))[i] == vacancy_text(),
        forall|i: int| 0 <= i < n ==> shape_args(empty_shape(n))[i] != occupied_m_text(),
{
    assert(repeat_list(vacancy_text(), n as int) =~= shape_args(empty_shape(n)));
    lemma_markers_distinct();
}

/// Set transition: at any concrete shape, the transformed argument list the
/// generator emits for `set(i)` — position `i` substituted by the occupied
/// marker — renders exactly `shape_after_set`.
pub proof fn lemma_set_transition_args(s: Seq<bool>, i: int)
    requires
        0 <= i < s.len(),
    ensures
        seq_replaced(shape_args(s), i, occupied_m_text()) == shape_args(shape_after_set(s, i)),
{
    assert(seq_replaced(shape_args(s), i, occupied_m_text()) =~= shape_args(
        shape_after_set(s, i),
    ));
}

/// Remove/take transition: at any concrete shape, the transformed argument
/// list the generator emits for `remove(i)` and `take(i)` — position `i`
/// substituted by the vacant marker — renders exactly `shape_after_clear`.
pub proof fn lemma_clear_transition_args(s: Seq<bool>, i: int)
    requires
        0 <= i < s.len(),
    ensures
        seq_replaced(shape_args(s), i, vacancy_text()) == shape_args(shape_after_clear(s, i)),
{
    assert(seq_replaced(shape_args(s), i, vacancy_text()) =~= shape_args(
        shape_after_clear(s, i),
    ));
}

/// A transformed list touches one slot only: substituting position `i` in
/// the generic parameter list changes that position to the given marker and
/// leaves every other slot's parameter as it was.
pub proof fn lemma_transform_touches_one_slot(n: int, i: int, marker: Seq<char>)
    requires
        0 <= i < n,
    ensures
        seq_replaced(gen_list(n), i, marker).len() == n,
        seq_replaced(gen_list(n), i, marker)[i] == marker,
        forall|j: int|
            0 <= j < n && j != i ==> seq_replaced(gen_list(n), i, marker)[j] == gen_ident(j),
{
    assert(gen_list(n).len() == n);
}

} // verus!
