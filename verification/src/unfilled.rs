//! The shape-changing storage generator.
//!
//! Simpler alternative to the fully-allocated style: the record's own field
//! types are the markers.  A vacant slot holds the unit marker, an occupied
//! slot holds the value inside its wrapper, and every occupancy transition
//! rebuilds the whole record, moving each untouched slot and changing only
//! the target slot's wrapper.  No handler, no uninitialized storage, and no
//! caller obligations.  The emitted text is pinned down by the spec
//! functions in this module.

use vstd::prelude::*;

use vstd::string::StringExecFns;

use crate::emit::{gen_list, gens_text, ignored_args, join_args, make_generics, push_join,
    repeat_list, repeated_args, replaced_args, slot_count, str_views, vacant_args_text};
use crate::iters::{seq_replaced, seq_without};
use crate::names::{gen_ident, occupied_text, option_of_text, vacancy_text};
use crate::schema::{path_attr_idx, path_attr_of, CMap};

verus! {

broadcast use {vstd::seq::group_seq_axioms, vstd::seq::Seq::add_empty_left, vstd::seq::Seq::add_empty_right};

/// The occupied wrapper of each slot's type, in slot order.
pub open spec fn occupied_list(m: &CMap) -> Seq<Seq<char>> {
    Seq::new(m.fields@.len(), |i: int| occupied_text(m.fields@[i].ty@))
}

/// The argument list naming every slot's generic parameter but slot `i`'s.
pub open spec fn args_without(m: &CMap, i: int) -> Seq<char> {
    join_args(seq_without(gen_list(slot_count(m)), i))
}

/// The argument list with slot `i` fixed to its occupied wrapper.
pub open spec fn args_occ_at(m: &CMap, i: int) -> Seq<char> {
    join_args(seq_replaced(gen_list(slot_count(m)), i, occupied_text(m.fields@[i].ty@)))
}

/// The argument list with slot `i` fixed to the vacant marker.
pub open spec fn args_vac_at(m: &CMap, i: int) -> Seq<char> {
    join_args(seq_replaced(gen_list(slot_count(m)), i, vacancy_text()))
}

/// The alias for the all-vacant record shape, when asked for.
pub open spec fn un_empty_alias_text(m: &CMap) -> Seq<char> {
    match path_attr_of(m.attrs@, "empty"@) {
        Some(e) => m.vis@ + " type "@ + e + " = "@ + m.ident@ + "<"@ + vacant_args_text(m)
            + ">;\n"@,
        None => Seq::empty(),
    }
}

/// The alias for the all-occupied record shape, when asked for.
pub open spec fn un_full_alias_text(m: &CMap) -> Seq<char> {
    match path_attr_of(m.attrs@, "full"@) {
        Some(e) => m.vis@ + " type "@ + e + " = "@ + m.ident@ + "<"@ + join_args(occupied_list(m))
            + ">;\n"@,
        None => Seq::empty(),
    }
}

/// Whether attribute `j` is one of the two alias markers, which are consumed
/// rather than re-emitted.
pub open spec fn attr_is_consumed(m: &CMap, j: int) -> bool {
    path_attr_idx(m.attrs@, "empty"@) == Some(j) || path_attr_idx(m.attrs@, "full"@) == Some(j)
}

/// Attribute `j` as an emitted line; the consumed alias markers leave none.
pub open spec fn attr_line(m: &CMap, j: int) -> Seq<char> {
    if attr_is_consumed(m, j) {
        Seq::empty()
    } else {
        m.attrs@[j].text@ + "\n"@
    }
}

/// The re-emitted attribute lines of the first `k` attributes.
pub open spec fn attr_lines_upto(m: &CMap, k: int) -> Seq<char>
    decreases k,
{
    if k <= 0 {
        Seq::empty()
    } else {
        attr_lines_upto(m, k - 1) + attr_line(m, k - 1)
    }
}

/// The record's field declarations, one marker-typed field per slot.
pub open spec fn un_fields_upto(m: &CMap, k: int) -> Seq<char>
    decreases k,
{
    if k <= 0 {
        Seq::empty()
    } else {
        un_fields_upto(m, k - 1) + m.fields@[k - 1].name@ + ": "@ + gen_ident(k - 1) + ",\n"@
    }
}

/// The record struct: the kept attributes, then one field per slot whose
/// type is that slot's marker.
pub open spec fn un_struct_text(m: &CMap) -> Seq<char> {
    attr_lines_upto(m, m.attrs@.len() as int) + m.vis@ + " struct "@ + m.ident@ + "<"@ + gens_text(
        m,
    ) + "> {\n"@ + un_fields_upto(m, slot_count(m)) + "}\n"@
}

/// The all-vacant constructor's field initializers.
pub open spec fn un_new_upto(m: &CMap, k: int) -> Seq<char>
    decreases k,
{
    if k <= 0 {
        Seq::empty()
    } else {
        un_new_upto(m, k - 1) + m.fields@[k - 1].name@ + ": ::certain_map::Vacancy,\n"@
    }
}

/// The `Default` impl and the `new` constructor, both at the all-vacant
/// shape: the only constructible starting point.
pub open spec fn un_default_text(m: &CMap) -> Seq<char> {
    "impl ::core::default::Default for "@ + m.ident@ + "<"@ + vacant_args_text(m)
        + "> {\n#[inline]\nfn default() -> Self {\nSelf::new()\n}\n}\n"@ + "impl "@ + m.ident@
        + "<"@ + vacant_args_text(m) + "> {\npub fn new() -> Self {\nSelf {\n"@ + un_new_upto(
        m,
        slot_count(m),
    ) + "}\n}\n}\n"@
}

/// The common head of one emitted capability impl.
pub open spec fn un_impl_head(
    m: &CMap,
    left: Seq<char>,
    tr: Seq<char>,
    target: Seq<char>,
    shape: Seq<char>,
) -> Seq<char> {
    "impl<"@ + left + "> ::certain_map::"@ + tr + "<"@ + target + "> for "@ + m.ident@ + "<"@
        + shape + "> {\n"@
}

/// The reference read of slot `i`, implemented only at shapes where the slot
/// holds its occupied wrapper.
pub open spec fn un_ref_text(m: &CMap, i: int) -> Seq<char> {
    un_impl_head(m, args_without(m, i), "ParamRef"@, m.fields@[i].ty@, args_occ_at(m, i))
        + "#[inline]\nfn param_ref(&self) -> &"@ + m.fields@[i].ty@ + " {\n&self."@
        + m.fields@[i].name@ + ".0\n}\n}\n"@
}

/// The optional reference read of slot `i` at occupied shapes.
pub open spec fn un_maybe_ref_occ_text(m: &CMap, i: int) -> Seq<char> {
    un_impl_head(m, args_without(m, i), "ParamMaybeRef"@, m.fields@[i].ty@, args_occ_at(m, i))
        + "#[inline]\nfn param_maybe_ref(&self) -> ::core::option::Option<&"@ + m.fields@[i].ty@
        + "> {\n::core::option::Option::Some(&self."@ + m.fields@[i].name@ + ".0)\n}\n}\n"@
}

/// The optional reference read of slot `i` at vacant shapes.
pub open spec fn un_maybe_ref_vac_text(m: &CMap, i: int) -> Seq<char> {
    un_impl_head(m, args_without(m, i), "ParamMaybeRef"@, m.fields@[i].ty@, args_vac_at(m, i))
        + "#[inline]\nfn param_maybe_ref(&self) -> ::core::option::Option<&"@ + m.fields@[i].ty@
        + "> {\n::core::option::Option::None\n}\n}\n"@
}

/// The mutable read of slot `i` at occupied shapes.
pub open spec fn un_mut_text(m: &CMap, i: int) -> Seq<char> {
    un_impl_head(m, args_without(m, i), "ParamMut"@, m.fields@[i].ty@, args_occ_at(m, i))
        + "#[inline]\nfn param_mut(&mut self) -> &mut "@ + m.fields@[i].ty@ + " {\n&mut self."@
        + m.fields@[i].name@ + ".0\n}\n}\n"@
}

/// The optional mutable read of slot `i` at occupied shapes.
pub open spec fn un_maybe_mut_occ_text(m: &CMap, i: int) -> Seq<char> {
    un_impl_head(m, args_without(m, i), "ParamMaybeMut"@, m.fields@[i].ty@, args_occ_at(m, i))
        + "#[inline]\nfn param_maybe_mut(&mut self) -> ::core::option::Option<&mut "@
        + m.fields@[i].ty@ + "> {\n::core::option::Option::Some(&mut self."@ + m.fields@[i].name@
        + ".0)\n}\n}\n"@
}

/// The optional mutable read of slot `i` at vacant shapes.
pub open spec fn un_maybe_mut_vac_text(m: &CMap, i: int) -> Seq<char> {
    un_impl_head(m, args_without(m, i), "ParamMaybeMut"@, m.fields@[i].ty@, args_vac_at(m, i))
        + "#[inline]\nfn param_maybe_mut(&mut self) -> ::core::option::Option<&mut "@
        + m.fields@[i].ty@ + "> {\n::core::option::Option::None\n}\n}\n"@
}

/// The owned reads of slot `i`, emitted only when the slot was annotated to
/// support them: a cloning read at occupied shapes, and optional cloning
/// reads at both shapes.
pub open spec fn un_param_text(m: &CMap, i: int) -> Seq<char> {
    if m.fields@[i].ensure_clone {
        un_impl_head(m, args_without(m, i), "Param"@, m.fields@[i].ty@, args_occ_at(m, i))
            + "#[inline]\nfn param(&self) -> "@ + m.fields@[i].ty@ + " {\nself."@
            + m.fields@[i].name@ + ".0.clone()\n}\n}\n"@ + un_impl_head(
            m,
            args_without(m, i),
            "Param"@,
            option_of_text(m.fields@[i].ty@),
            args_occ_at(m, i),
        ) + "#[inline]\nfn param(&self) -> ::core::option::Option<"@ + m.fields@[i].ty@
            + "> {\n::core::option::Option::Some(self."@ + m.fields@[i].name@
            + ".0.clone())\n}\n}\n"@ + un_impl_head(
            m,
            args_without(m, i),
            "Param"@,
            option_of_text(m.fields@[i].ty@),
            args_vac_at(m, i),
        ) + "#[inline]\nfn param(&self) -> ::core::option::Option<"@ + m.fields@[i].ty@
            + "> {\n::core::option::Option::None\n}\n}\n"@
    } else {
        Seq::empty()
    }
}

/// One untouched slot moved into the rebuilt record.
pub open spec fn keep_assign_line(m: &CMap, j: int) -> Seq<char> {
    m.fields@[j].name@ + ": self."@ + m.fields@[j].name@ + ",\n"@
}

/// The rebuilt record's initializers for `set(i)`: slot `i` takes the new
/// value in its occupied wrapper, every other slot is moved as it is.
pub open spec fn set_assigns_upto(m: &CMap, i: int, k: int) -> Seq<char>
    decreases k,
{
    if k <= 0 {
        Seq::empty()
    } else {
        set_assigns_upto(m, i, k - 1) + (if k - 1 == i {
            m.fields@[k - 1].name@ + ": ::certain_map::Occupied(item),\n"@
        } else {
            keep_assign_line(m, k - 1)
        })
    }
}

/// The rebuilt record's initializers for `remove(i)`/`take(i)`: slot `i`
/// becomes the vacant marker, every other slot is moved as it is.
pub open spec fn vac_assigns_upto(m: &CMap, i: int, k: int) -> Seq<char>
    decreases k,
{
    if k <= 0 {
        Seq::empty()
    } else {
        vac_assigns_upto(m, i, k - 1) + (if k - 1 == i {
            m.fields@[k - 1].name@ + ": ::certain_map::Vacancy,\n"@
        } else {
            keep_assign_line(m, k - 1)
        })
    }
}

/// The set of slot `i`: callable at every shape, rebuilds the record with
/// slot `i` made occupied.
pub open spec fn un_set_text(m: &CMap, i: int) -> Seq<char> {
    un_impl_head(m, gens_text(m), "ParamSet"@, m.fields@[i].ty@, gens_text(m))
        + "type Transformed = "@ + m.ident@ + "<"@ + args_occ_at(m, i)
        + ">;\n#[inline]\nfn param_set(self, item: "@ + m.fields@[i].ty@
        + ") -> Self::Transformed {\n"@ + m.ident@ + " {\n"@ + set_assigns_upto(
        m,
        i,
        slot_count(m),
    ) + "}\n}\n}\n"@
}

/// The remove of slot `i`: callable at every shape, a no-op release when the
/// slot is already vacant, rebuilds the record with slot `i` made vacant.
pub open spec fn un_remove_text(m: &CMap, i: int) -> Seq<char> {
    un_impl_head(m, gens_text(m), "ParamRemove"@, m.fields@[i].ty@, gens_text(m))
        + "type Transformed = "@ + m.ident@ + "<"@ + args_vac_at(m, i)
        + ">;\n#[inline]\nfn param_remove(self) -> Self::Transformed {\n"@ + m.ident@ + " {\n"@
        + vac_assigns_upto(m, i, slot_count(m)) + "}\n}\n}\n"@
}

/// The take of slot `i`: callable only at shapes where the slot is occupied,
/// moves the value out and rebuilds the record with slot `i` made vacant.
pub open spec fn un_take_text(m: &CMap, i: int) -> Seq<char> {
    un_impl_head(m, args_without(m, i), "ParamTake"@, m.fields@[i].ty@, args_occ_at(m, i))
        + "type Transformed = "@ + m.ident@ + "<"@ + args_vac_at(m, i)
        + ">;\n#[inline]\nfn param_take(self) -> (Self::Transformed, "@ + m.fields@[i].ty@
        + ") {\nlet after_remove = "@ + m.ident@ + " {\n"@ + vac_assigns_upto(m, i, slot_count(m))
        + "};\n(after_remove, self."@ + m.fields@[i].name@ + ".0)\n}\n}\n"@
}

/// The reference reads of the first `k` slots.
pub open spec fn un_refs_upto(m: &CMap, k: int) -> Seq<char>
    decreases k,
{
    if k <= 0 {
        Seq::empty()
    } else {
        un_refs_upto(m, k - 1) + un_ref_text(m, k - 1)
    }
}

/// The optional reference reads at occupied shapes of the first `k` slots.
pub open spec fn un_maybe_refs_occ_upto(m: &CMap, k: int) -> Seq<char>
    decreases k,
{
    if k <= 0 {
        Seq::empty()
    } else {
        un_maybe_refs_occ_upto(m, k - 1) + un_maybe_ref_occ_text(m, k - 1)
    }
}

/// The optional reference reads at vacant shapes of the first `k` slots.
pub open spec fn un_maybe_refs_vac_upto(m: &CMap, k: int) -> Seq<char>
    decreases k,
{
    if k <= 0 {
        Seq::empty()
    } else {
        un_maybe_refs_vac_upto(m, k - 1) + un_maybe_ref_vac_text(m, k - 1)
    }
}

/// The mutable reads of the first `k` slots.
pub open spec fn un_muts_upto(m: &CMap, k: int) -> Seq<char>
    decreases k,
{
    if k <= 0 {
        Seq::empty()
    } else {
        un_muts_upto(m, k - 1) + un_mut_text(m, k - 1)
    }
}

/// The optional mutable reads at occupied shapes of the first `k` slots.
pub open spec fn un_maybe_muts_occ_upto(m: &CMap, k: int) -> Seq<char>
    decreases k,
{
    if k <= 0 {
        Seq::empty()
    } else {
        un_maybe_muts_occ_upto(m, k - 1) + un_maybe_mut_occ_text(m, k - 1)
    }
}

/// The optional mutable reads at vacant shapes of the first `k` slots.
pub open spec fn un_maybe_muts_vac_upto(m: &CMap, k: int) -> Seq<char>
    decreases k,
{
    if k <= 0 {
        Seq::empty()
    } else {
        un_maybe_muts_vac_upto(m, k - 1) + un_maybe_mut_vac_text(m, k - 1)
    }
}

/// The owned reads of the first `k` slots that support them.
pub open spec fn un_params_upto(m: &CMap, k: int) -> Seq<char>
    decreases k,
{
    if k <= 0 {
        Seq::empty()
    } else {
        un_params_upto(m, k - 1) + un_param_text(m, k - 1)
    }
}

/// The sets of the first `k` slots.
pub open spec fn un_sets_upto(m: &CMap, k: int) -> Seq<char>
    decreases k,
{
    if k <= 0 {
        Seq::empty()
    } else {
        un_sets_upto(m, k - 1) + un_set_text(m, k - 1)
    }
}

/// The removes of the first `k` slots.
pub open spec fn un_removes_upto(m: &CMap, k: int) -> Seq<char>
    decreases k,
{
    if k <= 0 {
        Seq::empty()
    } else {
        un_removes_upto(m, k - 1) + un_remove_text(m, k - 1)
    }
}

/// The takes of the first `k` slots.
pub open spec fn un_takes_upto(m: &CMap, k: int) -> Seq<char>
    decreases k,
{
    if k <= 0 {
        Seq::empty()
    } else {
        un_takes_upto(m, k - 1) + un_take_text(m, k - 1)
    }
}

/// Everything the shape-changing generator emits for a schema.
pub open spec fn unfilled_text(m: &CMap) -> Seq<char> {
    un_empty_alias_text(m) + un_full_alias_text(m) + un_struct_text(m) + un_default_text(m)
        + un_refs_upto(m, slot_count(m)) + un_maybe_refs_occ_upto(m, slot_count(m))
        + un_maybe_refs_vac_upto(m, slot_count(m)) + un_muts_upto(m, slot_count(m))
        + un_maybe_muts_occ_upto(m, slot_count(m)) + un_maybe_muts_vac_upto(m, slot_count(m))
        + un_params_upto(m, slot_count(m)) + un_sets_upto(m, slot_count(m)) + un_removes_upto(
        m,
        slot_count(m),
    ) + un_takes_upto(m, slot_count(m))
}

// ---------------------------------------------------------------------------
// Emission.
// ---------------------------------------------------------------------------

/// The occupied wrapper of each slot's type, in slot order.
#[verifier::loop_isolation(false)]
fn build_occupied_list(m: &CMap) -> (r: Vec<String>)
    ensures
        str_views(r@) == occupied_list(m),
{
    let mut r: Vec<String> = Vec::new();
    let n = m.fields.len();
    let mut i: usize = 0;
    while i < n
        invariant
            i <= n,
            r@.len() == i,
            forall|j: int| 0 <= j < i ==> (#[trigger] r@[j])@ == occupied_text(m.fields@[j].ty@),
        decreases n - i,
    {
        let f = &m.fields[i];
        r.push(crate::names::occupied_type(f.ty.as_str()));
        i += 1;
    }
    proof {
        assert(str_views(r@) =~= occupied_list(m));
    }
    r
}

fn build_un_empty_alias(m: &CMap, vacs: &Vec<String>) -> (r: String)
    requires
        str_views(vacs@) == repeat_list(vacancy_text(), slot_count(m)),
    ensures
        r@ == un_empty_alias_text(m),
{
    let mut r = String::new();
    match crate::schema::path_attr_ident(&m.attrs, "empty") {
        Some(e) => {
            r.append(m.vis.as_str());
            r.append(" type ");
            r.append(e.as_str());
            r.append(" = ");
            r.append(m.ident.as_str());
            r.append("<");
            push_join(&mut r, vacs);
            r.append(">;\n");
            proof {
                assert(r@ == un_empty_alias_text(m));
            }
        },
        None => {
            proof {
                assert(r@ == un_empty_alias_text(m));
            }
        },
    }
    r
}

fn build_un_full_alias(m: &CMap, occl: &Vec<String>) -> (r: String)
    requires
        str_views(occl@) == occupied_list(m),
    ensures
        r@ == un_full_alias_text(m),
{
    let mut r = String::new();
    match crate::schema::path_attr_ident(&m.attrs, "full") {
        Some(e) => {
            r.append(m.vis.as_str());
            r.append(" type ");
            r.append(e.as_str());
            r.append(" = ");
            r.append(m.ident.as_str());
            r.append("<");
            push_join(&mut r, occl);
            r.append(">;\n");
            proof {
                assert(r@ == un_full_alias_text(m));
            }
        },
        None => {
            proof {
                assert(r@ == un_full_alias_text(m));
            }
        },
    }
    r
}

#[verifier::loop_isolation(false)]
fn build_un_struct(m: &CMap, gens: &Vec<String>) -> (r: String)
    requires
        str_views(gens@) == gen_list(slot_count(m)),
    ensures
        r@ == un_struct_text(m),
{
    let mut r = String::new();
    let e = CMap::find_path_attr(&m.attrs, "empty");
    let f = CMap::find_path_attr(&m.attrs, "full");
    proof {
        match &e {
            Some(p) => lemma_path_attr_idx_found_use(m, "empty"@, p.0 as int),
            None => crate::schema::lemma_path_attr_idx_none(m.attrs@, "empty"@),
        }
        match &f {
            Some(p) => lemma_path_attr_idx_found_use(m, "full"@, p.0 as int),
            None => crate::schema::lemma_path_attr_idx_none(m.attrs@, "full"@),
        }
    }
    let na = m.attrs.len();
    let mut j: usize = 0;
    while j < na
        invariant
            j <= na,
            r@ == attr_lines_upto(m, j as int),
        decreases na - j,
    {
        let is_empty_marker = match &e {
            Some(p) => p.0 == j,
            None => false,
        };
        let is_full_marker = match &f {
            Some(p) => p.0 == j,
            None => false,
        };
        if !is_empty_marker && !is_full_marker {
            let a = &m.attrs[j];
            r.append(a.text.as_str());
            r.append("\n");
            proof {
                assert(!attr_is_consumed(m, j as int));
                assert(r@ =~= attr_lines_upto(m, j + 1));
            }
        } else {
            proof {
                assert(attr_is_consumed(m, j as int));
                assert(r@ =~= attr_lines_upto(m, j + 1));
            }
        }
        j += 1;
    }
    r.append(m.vis.as_str());
    r.append(" struct ");
    r.append(m.ident.as_str());
    r.append("<");
    push_join(&mut r, gens);
    r.append("> {\n");
    let ghost base = r@;
    let n = m.fields.len();
    let mut i: usize = 0;
    while i < n
        invariant
            i <= n,
            r@ == base + un_fields_upto(m, i as int),
        decreases n - i,
    {
        let fld = &m.fields[i];
        r.append(fld.name.as_str());
        r.append(": ");
        proof {
            crate::emit::lemma_gens_len(gens@, slot_count(m));
            crate::emit::lemma_gen_at(gens@, slot_count(m), i as int);
        }
        let g = &gens[i];
        r.append(g.as_str());
        r.append(",\n");
        proof {
            assert(r@ =~= base + un_fields_upto(m, i + 1));
        }
        i += 1;
    }
    r.append("}\n");
    proof {
        assert(r@ == un_struct_text(m));
    }
    r
}

/// Bridge from the first-match characterization of `find_path_attr` to the
/// recursive position function.
proof fn lemma_path_attr_idx_found_use(m: &CMap, name: Seq<char>, i: int)
    requires
        0 <= i < m.attrs@.len(),
        crate::schema::is_single_ident_attr(m.attrs@[i], name),
        forall|j: int| 0 <= j < i ==> !crate::schema::is_single_ident_attr(m.attrs@[j], name),
    ensures
        path_attr_idx(m.attrs@, name) == Some(i),
{
    crate::schema::lemma_path_attr_idx_found(m.attrs@, name, i);
}

#[verifier::loop_isolation(false)]
fn build_un_default(m: &CMap, vacs: &Vec<String>) -> (r: String)
    requires
        str_views(vacs@) == repeat_list(vacancy_text(), slot_count(m)),
    ensures
        r@ == un_default_text(m),
{
    let mut r = String::new();
    r.append("impl ::core::default::Default for ");
    r.append(m.ident.as_str());
    r.append("<");
    push_join(&mut r, vacs);
    r.append("> {\n#[inline]\nfn default() -> Self {\nSelf::new()\n}\n}\n");
    r.append("impl ");
    r.append(m.ident.as_str());
    r.append("<");
    push_join(&mut r, vacs);
    r.append("> {\npub fn new() -> Self {\nSelf {\n");
    let ghost base = r@;
    let n = m.fields.len();
    let mut i: usize = 0;
    while i < n
        invariant
            i <= n,
            r@ == base + un_new_upto(m, i as int),
        decreases n - i,
    {
        let f = &m.fields[i];
        r.append(f.name.as_str());
        r.append(": ::certain_map::Vacancy,\n");
        proof {
            assert(r@ =~= base + un_new_upto(m, i + 1));
        }
        i += 1;
    }
    r.append("}\n}\n}\n");
    proof {
        assert(r@ == un_default_text(m));
    }
    r
}

/// The common head of one capability impl.
fn build_un_head(m: &CMap, left: &Vec<String>, tr: &str, target: &str, shape: &Vec<String>) -> (r:
    String)
    ensures
        r@ == un_impl_head(
            m,
            join_args(str_views(left@)),
            tr@,
            target@,
            join_args(str_views(shape@)),
        ),
{
    let mut r = String::new();
    r.append("impl<");
    push_join(&mut r, left);
    r.append("> ::certain_map::");
    r.append(tr);
    r.append("<");
    r.append(target);
    r.append("> for ");
    r.append(m.ident.as_str());
    r.append("<");
    push_join(&mut r, shape);
    r.append("> {\n");
    proof {
        assert(r@ == un_impl_head(
            m,
            join_args(str_views(left@)),
            tr@,
            target@,
            join_args(str_views(shape@)),
        ));
    }
    r
}

fn build_un_ref(m: &CMap, gens: &Vec<String>, i: usize) -> (r: String)
    requires
        str_views(gens@) == gen_list(slot_count(m)),
        (i as int) < slot_count(m),
    ensures
        r@ == un_ref_text(m, i as int),
{
    let mut r = String::new();
    let f = &m.fields[i];
    let wo = ignored_args(gens, i);
    let occ = crate::names::occupied_type(f.ty.as_str());
    let oa = replaced_args(gens, i, &occ);
    let h = build_un_head(m, &wo, "ParamRef", f.ty.as_str(), &oa);
    r.append(h.as_str());
    r.append("#[inline]\nfn param_ref(&self) -> &");
    r.append(f.ty.as_str());
    r.append(" {\n&self.");
    r.append(f.name.as_str());
    r.append(".0\n}\n}\n");
    proof {
        assert(r@ == un_ref_text(m, i as int));
    }
    r
}

fn build_un_maybe_ref_occ(m: &CMap, gens: &Vec<String>, i: usize) -> (r: String)
    requires
        str_views(gens@) == gen_list(slot_count(m)),
        (i as int) < slot_count(m),
    ensures
        r@ == un_maybe_ref_occ_text(m, i as int),
{
    let mut r = String::new();
    let f = &m.fields[i];
    let wo = ignored_args(gens, i);
    let occ = crate::names::occupied_type(f.ty.as_str());
    let oa = replaced_args(gens, i, &occ);
    let h = build_un_head(m, &wo, "ParamMaybeRef", f.ty.as_str(), &oa);
    r.append(h.as_str());
    r.append("#[inline]\nfn param_maybe_ref(&self) -> ::core::option::Option<&");
    r.append(f.ty.as_str());
    r.append("> {\n::core::option::Option::Some(&self.");
    r.append(f.name.as_str());
    r.append(".0)\n}\n}\n");
    proof {
        assert(r@ == un_maybe_ref_occ_text(m, i as int));
    }
    r
}

fn build_un_maybe_ref_vac(m: &CMap, gens: &Vec<String>, i: usize) -> (r: String)
    requires
        str_views(gens@) == gen_list(slot_count(m)),
        (i as int) < slot_count(m),
    ensures
        r@ == un_maybe_ref_vac_text(m, i as int),
{
    let mut r = String::new();
    let f = &m.fields[i];
    let wo = ignored_args(gens, i);
    let vac = crate::names::vacancy_type();
    let va = replaced_args(gens, i, &vac);
    let h = build_un_head(m, &wo, "ParamMaybeRef", f.ty.as_str(), &va);
    r.append(h.as_str());
    r.append("#[inline]\nfn param_maybe_ref(&self) -> ::core::option::Option<&");
    r.append(f.ty.as_str());
    r.append("> {\n::core::option::Option::None\n}\n}\n");
    proof {
        assert(r@ == un_maybe_ref_vac_text(m, i as int));
    }
    r
}

fn build_un_mut(m: &CMap, gens: &Vec<String>, i: usize) -> (r: String)
    requires
        str_views(gens@) == gen_list(slot_count(m)),
        (i as int) < slot_count(m),
    ensures
        r@ == un_mut_text(m, i as int),
{
    let mut r = String::new();
    let f = &m.fields[i];
    let wo = ignored_args(gens, i);
    let occ = crate::names::occupied_type(f.ty.as_str());
    let oa = replaced_args(gens, i, &occ);
    let h = build_un_head(m, &wo, "ParamMut", f.ty.as_str(), &oa);
    r.append(h.as_str());
    r.append("#[inline]\nfn param_mut(&mut self) -> &mut ");
    r.append(f.ty.as_str());
    r.append(" {\n&mut self.");
    r.append(f.name.as_str());
    r.append(".0\n}\n}\n");
    proof {
        assert(r@ == un_mut_text(m, i as int));
    }
    r
}

fn build_un_maybe_mut_occ(m: &CMap, gens: &Vec<String>, i: usize) -> (r: String)
    requires
        str_views(gens@) == gen_list(slot_count(m)),
        (i as int) < slot_count(m),
    ensures
        r@ == un_maybe_mut_occ_text(m, i as int),
{
    let mut r = String::new();
    let f = &m.fields[i];
    let wo = ignored_args(gens, i);
    let occ = crate::names::occupied_type(f.ty.as_str());
    let oa = replaced_args(gens, i, &occ);
    let h = build_un_head(m, &wo, "ParamMaybeMut", f.ty.as_str(), &oa);
    r.append(h.as_str());
    r.append("#[inline]\nfn param_maybe_mut(&mut self) -> ::core::option::Option<&mut ");
    r.append(f.ty.as_str());
    r.append("> {\n::core::option::Option::Some(&mut self.");
    r.append(f.name.as_str());
    r.append(".0)\n}\n}\n");
    proof {
        assert(r@ == un_maybe_mut_occ_text(m, i as int));
    }
    r
}

fn build_un_maybe_mut_vac(m: &CMap, gens: &Vec<String>, i: usize) -> (r: String)
    requires
        str_views(gens@) == gen_list(slot_count(m)),
        (i as int) < slot_count(m),
    ensures
        r@ == un_maybe_mut_vac_text(m, i as int),
{
    let mut r = String::new();
    let f = &m.fields[i];
    let wo = ignored_args(gens, i);
    let vac = crate::names::vacancy_type();
    let va = replaced_args(gens, i, &vac);
    let h = build_un_head(m, &wo, "ParamMaybeMut", f.ty.as_str(), &va);
    r.append(h.as_str());
    r.append("#[inline]\nfn param_maybe_mut(&mut self) -> ::core::option::Option<&mut ");
    r.append(f.ty.as_str());
    r.append("> {\n::core::option::Option::None\n}\n}\n");
    proof {
        assert(r@ == un_maybe_mut_vac_text(m, i as int));
    }
    r
}

fn build_un_param(m: &CMap, gens: &Vec<String>, i: usize) -> (r: String)
    requires
        str_views(gens@) == gen_list(slot_count(m)),
        (i as int) < slot_count(m),
    ensures
        r@ == un_param_text(m, i as int),
{
    let mut r = String::new();
    let f = &m.fields[i];
    if !f.ensure_clone {
        proof {
            assert(r@ == un_param_text(m, i as int));
        }
        return r;
    }
    let wo = ignored_args(gens, i);
    let occ = crate::names::occupied_type(f.ty.as_str());
    let oa = replaced_args(gens, i, &occ);
    let vac = crate::names::vacancy_type();
    let va = replaced_args(gens, i, &vac);
    let mut opt_ty = String::new();
    opt_ty.append("::core::option::Option<");
    opt_ty.append(f.ty.as_str());
    opt_ty.append(">");
    proof {
        assert(opt_ty@ == option_of_text(m.fields@[i as int].ty@));
    }
    let h = build_un_head(m, &wo, "Param", f.ty.as_str(), &oa);
    r.append(h.as_str());
    r.append("#[inline]\nfn param(&self) -> ");
    r.append(f.ty.as_str());
    r.append(" {\nself.");
    r.append(f.name.as_str());
    r.append(".0.clone()\n}\n}\n");
    let h = build_un_head(m, &wo, "Param", opt_ty.as_str(), &oa);
    r.append(h.as_str());
    r.append("#[inline]\nfn param(&self) -> ::core::option::Option<");
    r.append(f.ty.as_str());
    r.append("> {\n::core::option::Option::Some(self.");
    r.append(f.name.as_str());
    r.append(".0.clone())\n}\n}\n");
    let h = build_un_head(m, &wo, "Param", opt_ty.as_str(), &va);
    r.append(h.as_str());
    r.append("#[inline]\nfn param(&self) -> ::core::option::Option<");
    r.append(f.ty.as_str());
    r.append("> {\n::core::option::Option::None\n}\n}\n");
    proof {
        assert(r@ == un_param_text(m, i as int));
    }
    r
}

/// Append the rebuilt record's initializers, with slot `i` taking `line`
/// in place of the move of its old marker.
#[verifier::loop_isolation(false)]
fn push_set_assigns(out: &mut String, m: &CMap, i: usize)
    requires
        (i as int) < slot_count(m),
    ensures
        final(out)@ == old(out)@ + set_assigns_upto(m, i as int, slot_count(m)),
{
    let ghost base = out@;
    let n = m.fields.len();
    let mut j: usize = 0;
    while j < n
        invariant
            j <= n,
            out@ == base + set_assigns_upto(m, i as int, j as int),
        decreases n - j,
    {
        let f = &m.fields[j];
        if j == i {
            out.append(f.name.as_str());
            out.append(": ::certain_map::Occupied(item),\n");
        } else {
            out.append(f.name.as_str());
            out.append(": self.");
            out.append(f.name.as_str());
            out.append(",\n");
        }
        proof {
            assert(out@ =~= base + set_assigns_upto(m, i as int, j + 1));
        }
        j += 1;
    }
}

/// Append the rebuilt record's initializers, with slot `i` becoming vacant.
#[verifier::loop_isolation(false)]
fn push_vac_assigns(out: &mut String, m: &CMap, i: usize)
    requires
        (i as int) < slot_count(m),
    ensures
        final(out)@ == old(out)@ + vac_assigns_upto(m, i as int, slot_count(m)),
{
    let ghost base = out@;
    let n = m.fields.len();
    let mut j: usize = 0;
    while j < n
        invariant
            j <= n,
            out@ == base + vac_assigns_upto(m, i as int, j as int),
        decreases n - j,
    {
        let f = &m.fields[j];
        if j == i {
            out.append(f.name.as_str());
            out.append(": ::certain_map::Vacancy,\n");
        } else {
            out.append(f.name.as_str());
            out.append(": self.");
            out.append(f.name.as_str());
            out.append(",\n");
        }
        proof {
            assert(out@ =~= base + vac_assigns_upto(m, i as int, j + 1));
        }
        j += 1;
    }
}

fn build_un_set(m: &CMap, gens: &Vec<String>, i: usize) -> (r: String)
    requires
        str_views(gens@) == gen_list(slot_count(m)),
        (i as int) < slot_count(m),
    ensures
        r@ == un_set_text(m, i as int),
{
    let mut r = String::new();
    let f = &m.fields[i];
    let occ = crate::names::occupied_type(f.ty.as_str());
    let oa = replaced_args(gens, i, &occ);
    let h = build_un_head(m, gens, "ParamSet", f.ty.as_str(), gens);
    r.append(h.as_str());
    r.append("type Transformed = ");
    r.append(m.ident.as_str());
    r.append("<");
    push_join(&mut r, &oa);
    r.append(">;\n#[inline]\nfn param_set(self, item: ");
    r.append(f.ty.as_str());
    r.append(") -> Self::Transformed {\n");
    r.append(m.ident.as_str());
    r.append(" {\n");
    push_set_assigns(&mut r, m, i);
    r.append("}\n}\n}\n");
    proof {
        assert(r@ == un_set_text(m, i as int));
    }
    r
}

fn build_un_remove(m: &CMap, gens: &Vec<String>, i: usize) -> (r: String)
    requires
        str_views(gens@) == gen_list(slot_count(m)),
        (i as int) < slot_count(m),
    ensures
        r@ == un_remove_text(m, i as int),
{
    let mut r = String::new();
    let f = &m.fields[i];
    let vac = crate::names::vacancy_type();
    let va = replaced_args(gens, i, &vac);
    let h = build_un_head(m, gens, "ParamRemove", f.ty.as_str(), gens);
    r.append(h.as_str());
    r.append("type Transformed = ");
    r.append(m.ident.as_str());
    r.append("<");
    push_join(&mut r, &va);
    r.append(">;\n#[inline]\nfn param_remove(self) -> Self::Transformed {\n");
    r.append(m.ident.as_str());
    r.append(" {\n");
    push_vac_assigns(&mut r, m, i);
    r.append("}\n}\n}\n");
    proof {
        assert(r@ == un_remove_text(m, i as int));
    }
    r
}

fn build_un_take(m: &CMap, gens: &Vec<String>, i: usize) -> (r: String)
    requires
        str_views(gens@) == gen_list(slot_count(m)),
        (i as int) < slot_count(m),
    ensures
        r@ == un_take_text(m, i as int),
{
    let mut r = String::new();
    let f = &m.fields[i];
    let wo = ignored_args(gens, i);
    let occ = crate::names::occupied_type(f.ty.as_str());
    let oa = replaced_args(gens, i, &occ);
    let vac = crate::names::vacancy_type();
    let va = replaced_args(gens, i, &vac);
    let h = build_un_head(m, &wo, "ParamTake", f.ty.as_str(), &oa);
    r.append(h.as_str());
    r.append("type Transformed = ");
    r.append(m.ident.as_str());
    r.append("<");
    push_join(&mut r, &va);
    r.append(">;\n#[inline]\nfn param_take(self) -> (Self::Transformed, ");
    r.append(f.ty.as_str());
    r.append(") {\nlet after_remove = ");
    r.append(m.ident.as_str());
    r.append(" {\n");
    push_vac_assigns(&mut r, m, i);
    r.append("};\n(after_remove, self.");
    r.append(f.name.as_str());
    r.append(".0)\n}\n}\n");
    proof {
        assert(r@ == un_take_text(m, i as int));
    }
    r
}

/// The reference reads of every slot.
#[verifier::loop_isolation(false)]
fn build_un_refs(m: &CMap, gens: &Vec<String>) -> (r: String)
    requires
        str_views(gens@) == gen_list(slot_count(m)),
    ensures
        r@ == un_refs_upto(m, slot_count(m)),
{
    let mut r = String::new();
    let n = m.fields.len();
    let mut i: usize = 0;
    while i < n
        invariant
            i <= n,
            r@ == un_refs_upto(m, i as int),
        decreases n - i,
    {
        let s = build_un_ref(m, gens, i);
        r.append(s.as_str());
        proof {
            assert(r@ == un_refs_upto(m, i + 1));
        }
        i += 1;
    }
    r
}

/// The occupied-shape optional reference reads of every slot.
#[verifier::loop_isolation(false)]
fn build_un_maybe_refs_occ(m: &CMap, gens: &Vec<String>) -> (r: String)
    requires
        str_views(gens@) == gen_list(slot_count(m)),
    ensures
        r@ == un_maybe_refs_occ_upto(m, slot_count(m)),
{
    let mut r = String::new();
    let n = m.fields.len();
    let mut i: usize = 0;
    while i < n
        invariant
            i <= n,
            r@ == un_maybe_refs_occ_upto(m, i as int),
        decreases n - i,
    {
        let s = build_un_maybe_ref_occ(m, gens, i);
        r.append(s.as_str());
        proof {
            assert(r@ == un_maybe_refs_occ_upto(m, i + 1));
        }
        i += 1;
    }
    r
}

/// The vacant-shape optional reference reads of every slot.
#[verifier::loop_isolation(false)]
fn build_un_maybe_refs_vac(m: &CMap, gens: &Vec<String>) -> (r: String)
    requires
        str_views(gens@) == gen_list(slot_count(m)),
    ensures
        r@ == un_maybe_refs_vac_upto(m, slot_count(m)),
{
    let mut r = String::new();
    let n = m.fields.len();
    let mut i: usize = 0;
    while i < n
        invariant
            i <= n,
            r@ == un_maybe_refs_vac_upto(m, i as int),
        decreases n - i,
    {
        let s = build_un_maybe_ref_vac(m, gens, i);
        r.append(s.as_str());
        proof {
            assert(r@ == un_maybe_refs_vac_upto(m, i + 1));
        }
        i += 1;
    }
    r
}

/// The mutable reads of every slot.
#[verifier::loop_isolation(false)]
fn build_un_muts(m: &CMap, gens: &Vec<String>) -> (r: String)
    requires
        str_views(gens@) == gen_list(slot_count(m)),
    ensures
        r@ == un_muts_upto(m, slot_count(m)),
{
    let mut r = String::new();
    let n = m.fields.len();
    let mut i: usize = 0;
    while i < n
        invariant
            i <= n,
            r@ == un_muts_upto(m, i as int),
        decreases n - i,
    {
        let s = build_un_mut(m, gens, i);
        r.append(s.as_str());
        proof {
            assert(r@ == un_muts_upto(m, i + 1));
        }
        i += 1;
    }
    r
}

/// The occupied-shape optional mutable reads of every slot.
#[verifier::loop_isolation(false)]
fn build_un_maybe_muts_occ(m: &CMap, gens: &Vec<String>) -> (r: String)
    requires
        str_views(gens@) == gen_list(slot_count(m)),
    ensures
        r@ == un_maybe_muts_occ_upto(m, slot_count(m)),
{
    let mut r = String::new();
    let n = m.fields.len();
    let mut i: usize = 0;
    while i < n
        invariant
            i <= n,
            r@ == un_maybe_muts_occ_upto(m, i as int),
        decreases n - i,
    {
        let s = build_un_maybe_mut_occ(m, gens, i);
        r.append(s.as_str());
        proof {
            assert(r@ == un_maybe_muts_occ_upto(m, i + 1));
        }
        i += 1;
    }
    r
}

/// The vacant-shape optional mutable reads of every slot.
#[verifier::loop_isolation(false)]
fn build_un_maybe_muts_vac(m: &CMap, gens: &Vec<String>) -> (r: String)
    requires
        str_views(gens@) == gen_list(slot_count(m)),
    ensures
        r@ == un_maybe_muts_vac_upto(m, slot_count(m)),
{
    let mut r = String::new();
    let n = m.fields.len();
    let mut i: usize = 0;
    while i < n
        invariant
            i <= n,
            r@ == un_maybe_muts_vac_upto(m, i as int),
        decreases n - i,
    {
        let s = build_un_maybe_mut_vac(m, gens, i);
        r.append(s.as_str());
        proof {
            assert(r@ == un_maybe_muts_vac_upto(m, i + 1));
        }
        i += 1;
    }
    r
}

/// The owned reads of every slot that supports them.
#[verifier::loop_isolation(false)]
fn build_un_params(m: &CMap, gens: &Vec<String>) -> (r: String)
    requires
        str_views(gens@) == gen_list(slot_count(m)),
    ensures
        r@ == un_params_upto(m, slot_count(m)),
{
    let mut r = String::new();
    let n = m.fields.len();
    let mut i: usize = 0;
    while i < n
        invariant
            i <= n,
            r@ == un_params_upto(m, i as int),
        decreases n - i,
    {
        let s = build_un_param(m, gens, i);
        r.append(s.as_str());
        proof {
            assert(r@ == un_params_upto(m, i + 1));
        }
        i += 1;
    }
    r
}

/// The sets of every slot.
#[verifier::loop_isolation(false)]
fn build_un_sets(m: &CMap, gens: &Vec<String>) -> (r: String)
    requires
        str_views(gens@) == gen_list(slot_count(m)),
    ensures
        r@ == un_sets_upto(m, slot_count(m)),
{
    let mut r = String::new();
    let n = m.fields.len();
    let mut i: usize = 0;
    while i < n
        invariant
            i <= n,
            r@ == un_sets_upto(m, i as int),
        decreases n - i,
    {
        let s = build_un_set(m, gens, i);
        r.append(s.as_str());
        proof {
            assert(r@ == un_sets_upto(m, i + 1));
        }
        i += 1;
    }
    r
}

/// The removes of every slot.
#[verifier::loop_isolation(false)]
fn build_un_removes(m: &CMap, gens: &Vec<String>) -> (r: String)
    requires
        str_views(gens@) == gen_list(slot_count(m)),
    ensures
        r@ == un_removes_upto(m, slot_count(m)),
{
    let mut r = String::new();
    let n = m.fields.len();
    let mut i: usize = 0;
    while i < n
        invariant
            i <= n,
            r@ == un_removes_upto(m, i as int),
        decreases n - i,
    {
        let s = build_un_remove(m, gens, i);
        r.append(s.as_str());
        proof {
            assert(r@ == un_removes_upto(m, i + 1));
        }
        i += 1;
    }
    r
}

/// The takes of every slot.
#[verifier::loop_isolation(false)]
fn build_un_takes(m: &CMap, gens: &Vec<String>) -> (r: String)
    requires
        str_views(gens@) == gen_list(slot_count(m)),
    ensures
        r@ == un_takes_upto(m, slot_count(m)),
{
    let mut r = String::new();
    let n = m.fields.len();
    let mut i: usize = 0;
    while i < n
        invariant
            i <= n,
            r@ == un_takes_upto(m, i as int),
        decreases n - i,
    {
        let s = build_un_take(m, gens, i);
        r.append(s.as_str());
        proof {
            assert(r@ == un_takes_upto(m, i + 1));
        }
        i += 1;
    }
    r
}

impl CMap {
    /// Emit the shape-changing container for this schema, appending the
    /// generated program text to `tokens`.
    pub fn to_unfilled_tokens(&self, tokens: &mut String)
        ensures
            final(tokens)@ == old(tokens)@ + unfilled_text(self),
    {
        let n = self.fields.len();
        let gens = make_generics(n);
        let vac = crate::names::vacancy_type();
        let vacs = repeated_args(vac.as_str(), n);
        let occl = build_occupied_list(self);
        let mut r = String::new();
        let s = build_un_empty_alias(self, &vacs);
        r.append(s.as_str());
        let s = build_un_full_alias(self, &occl);
        r.append(s.as_str());
        let s = build_un_struct(self, &gens);
        r.append(s.as_str());
        let s = build_un_default(self, &vacs);
        r.append(s.as_str());
        let s = build_un_refs(self, &gens);
        r.append(s.as_str());
        let s = build_un_maybe_refs_occ(self, &gens);
        r.append(s.as_str());
        let s = build_un_maybe_refs_vac(self, &gens);
        r.append(s.as_str());
        let s = build_un_muts(self, &gens);
        r.append(s.as_str());
        let s = build_un_maybe_muts_occ(self, &gens);
        r.append(s.as_str());
        let s = build_un_maybe_muts_vac(self, &gens);
        r.append(s.as_str());
        let s = build_un_params(self, &gens);
        r.append(s.as_str());
        let s = build_un_sets(self, &gens);
        r.append(s.as_str());
        let s = build_un_removes(self, &gens);
        r.append(s.as_str());
        let s = build_un_takes(self, &gens);
        r.append(s.as_str());
        tokens.append(r.as_str());
        proof {
            assert(tokens@ == old(tokens)@ + unfilled_text(self));
        }
    }
}

} // verus!
