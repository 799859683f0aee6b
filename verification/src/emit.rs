//! Shared emission helpers: building, substituting and joining the per-slot
//! argument lists of the generated code.

use vstd::prelude::*;

use vstd::string::StringExecFns;

use crate::iters::{seq_replaced, seq_without, IgnoreIter, ReplaceIter};
use crate::names::{gen_ident, generic_type, vacancy_text};
use crate::schema::CMap;

verus! {

broadcast use vstd::seq::group_seq_axioms;

/// The views of a list of strings.
pub open spec fn str_views(items: Seq<String>) -> Seq<Seq<char>> {
    Seq::new(items.len(), |i: int| items[i]@)
}

/// The generic shape parameter names for `n` slots.
pub open spec fn gen_list(n: int) -> Seq<Seq<char>> {
    Seq::new(n as nat, |i: int| gen_ident(i))
}

/// `n` copies of one text.
pub open spec fn repeat_list(x: Seq<char>, n: int) -> Seq<Seq<char>> {
    Seq::new(n as nat, |i: int| x)
}

/// The first `k` items joined with `", "`.
pub open spec fn join_upto(items: Seq<Seq<char>>, k: int) -> Seq<char>
    decreases k,
{
    if k <= 0 {
        Seq::empty()
    } else if k == 1 {
        items[0]
    } else {
        join_upto(items, k - 1) + ", "@ + items[k - 1]
    }
}

/// The items joined with `", "`.
pub open spec fn join_args(items: Seq<Seq<char>>) -> Seq<char> {
    join_upto(items, items.len() as int)
}

/// One `MaybeAvailable` bound line of a where-clause.
pub open spec fn maybe_bound_line(g: Seq<char>) -> Seq<char> {
    g + ": ::certain_map::MaybeAvailable,\n"@
}

/// The bound lines of the first `k` items.
pub open spec fn bounds_upto(items: Seq<Seq<char>>, k: int) -> Seq<char>
    decreases k,
{
    if k <= 0 {
        Seq::empty()
    } else {
        bounds_upto(items, k - 1) + maybe_bound_line(items[k - 1])
    }
}

/// A `MaybeAvailable` bound line for every item.
pub open spec fn maybe_bounds(items: Seq<Seq<char>>) -> Seq<char> {
    bounds_upto(items, items.len() as int)
}

/// Number of slots in a schema.
pub open spec fn slot_count(m: &CMap) -> int {
    m.fields@.len() as int
}

/// The joined generic shape parameter list of a schema.
pub open spec fn gens_text(m: &CMap) -> Seq<char> {
    join_args(gen_list(slot_count(m)))
}

/// The joined all-vacant argument list of a schema.
pub open spec fn vacant_args_text(m: &CMap) -> Seq<char> {
    join_args(repeat_list(vacancy_text(), slot_count(m)))
}

/// A list whose views are the `n` generic parameter names has `n` items.
pub proof fn lemma_gens_len(items: Seq<String>, n: int)
    requires
        str_views(items) == gen_list(n),
        n >= 0,
    ensures
        items.len() == n,
{
    assert(str_views(items).len() == items.len());
    assert(gen_list(n).len() == n);
}

/// In a list whose views are the generic parameter names, item `i` reads
/// `gen_ident(i)`.
pub proof fn lemma_gen_at(items: Seq<String>, n: int, i: int)
    requires
        str_views(items) == gen_list(n),
        0 <= i < n,
    ensures
        items[i]@ == gen_ident(i),
{
    lemma_gens_len(items, n);
    assert(str_views(items)[i] == items[i]@);
    assert(gen_list(n)[i] == gen_ident(i));
}

/// In a list whose views all read `x`, item `i` reads `x`.
pub proof fn lemma_repeat_at(items: Seq<String>, x: Seq<char>, n: int, i: int)
    requires
        str_views(items) == repeat_list(x, n),
        0 <= i < n,
    ensures
        items[i]@ == x,
{
    assert(str_views(items).len() == items.len());
    assert(repeat_list(x, n).len() == n);
    assert(str_views(items)[i] == items[i]@);
    assert(repeat_list(x, n)[i] == x);
}

/// The generic shape parameter names for `n` slots.
#[verifier::loop_isolation(false)]
pub fn make_generics(n: usize) -> (r: Vec<String>)
    ensures
        str_views(r@) == gen_list(n as int),
{
    let mut r: Vec<String> = Vec::new();
    let mut i: usize = 0;
    while i < n
        invariant
            i <= n,
            r@.len() == i,
            forall|k: int| 0 <= k < i ==> (#[trigger] r@[k])@ == gen_ident(k),
        decreases n - i,
    {
        r.push(generic_type(i));
        i += 1;
    }
    proof {
        assert(str_views(r@) =~= gen_list(n as int));
    }
    r
}

/// `n` copies of one text.
#[verifier::loop_isolation(false)]
pub fn repeated_args(x: &str, n: usize) -> (r: Vec<String>)
    ensures
        str_views(r@) == repeat_list(x@, n as int),
{
    let mut r: Vec<String> = Vec::new();
    let mut i: usize = 0;
    while i < n
        invariant
            i <= n,
            r@.len() == i,
            forall|k: int| 0 <= k < i ==> (#[trigger] r@[k])@ == x@,
        decreases n - i,
    {
        r.push(x.to_owned());
        i += 1;
    }
    proof {
        assert(str_views(r@) =~= repeat_list(x@, n as int));
    }
    r
}

/// The items with position `idx` substituted by `item`.
#[verifier::loop_isolation(false)]
pub fn replaced_args(items: &Vec<String>, idx: usize, item: &String) -> (r: Vec<String>)
    ensures
        str_views(r@) == seq_replaced(str_views(items@), idx as int, item@),
{
    let mut it = ReplaceIter::new(items, idx, item);
    let mut r: Vec<String> = Vec::new();
    let n = items.len();
    let mut k: usize = 0;
    while k < n
        invariant
            it.wf(),
            it.spec_items() == items@,
            it.spec_replace() == idx as int,
            it.spec_item() == *item,
            it.done() == k,
            r@.len() == k,
            k <= n,
            forall|j: int| 0 <= j < k ==> r@[j] == it.spec_yield()[j],
        decreases n - k,
    {
        match it.next() {
            Some(x) => {
                r.push(x.clone());
            },
            None => {
                assert(false);
            },
        }
        k += 1;
    }
    proof {
        assert(str_views(r@) =~= seq_replaced(str_views(items@), idx as int, item@));
    }
    r
}

/// The items with position `idx` left out.
#[verifier::loop_isolation(false)]
pub fn ignored_args(items: &Vec<String>, idx: usize) -> (r: Vec<String>)
    ensures
        str_views(r@) == seq_without(str_views(items@), idx as int),
{
    let mut it = IgnoreIter::new(items, idx);
    let mut r: Vec<String> = Vec::new();
    let n = if idx < items.len() {
        items.len() - 1
    } else {
        items.len()
    };
    let mut k: usize = 0;
    while k < n
        invariant
            it.wf(),
            it.spec_items() == items@,
            it.spec_ignore() == idx as int,
            it.done() == k,
            r@.len() == k,
            k <= n,
            n == it.spec_yield().len(),
            forall|j: int| 0 <= j < k ==> r@[j] == it.spec_yield()[j],
        decreases n - k,
    {
        match it.next() {
            Some(x) => {
                r.push(x.clone());
            },
            None => {
                assert(false);
            },
        }
        k += 1;
    }
    proof {
        assert(str_views(r@) =~= seq_without(str_views(items@), idx as int));
    }
    r
}

/// Append the items joined with `", "`.
#[verifier::loop_isolation(false)]
pub fn push_join(out: &mut String, items: &Vec<String>)
    ensures
        final(out)@ == old(out)@ + join_args(str_views(items@)),
{
    let n = items.len();
    let mut k: usize = 0;
    while k < n
        invariant
            k <= n,
            out@ == old(out)@ + join_upto(str_views(items@), k as int),
        decreases n - k,
    {
        if k > 0 {
            out.append(", ");
        }
        let s = &items[k];
        out.append(s.as_str());
        proof {
            let vs = str_views(items@);
            if k == 0 {
                assert(out@ =~= old(out)@ + join_upto(vs, 1));
            } else {
                assert(out@ =~= old(out)@ + join_upto(vs, k + 1));
            }
        }
        k += 1;
    }
}

/// Append a `MaybeAvailable` bound line for every item.
#[verifier::loop_isolation(false)]
pub fn push_maybe_bounds(out: &mut String, items: &Vec<String>)
    ensures
        final(out)@ == old(out)@ + maybe_bounds(str_views(items@)),
{
    let n = items.len();
    let mut k: usize = 0;
    while k < n
        invariant
            k <= n,
            out@ == old(out)@ + bounds_upto(str_views(items@), k as int),
        decreases n - k,
    {
        let s = &items[k];
        out.append(s.as_str());
        out.append(": ::certain_map::MaybeAvailable,\n");
        proof {
            assert(out@ =~= old(out)@ + bounds_upto(str_views(items@), k + 1));
        }
        k += 1;
    }
}

} // verus!
