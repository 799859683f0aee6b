//! The fully-allocated storage generator.
//!
//! For a schema of `n` slots it emits: a record type with one optional cell
//! per slot; a zero-size state type and a handler type, both parameterized
//! by `n` shape markers; constructors at the all-vacant shape; per-slot
//! implementations of every capability, each gated on the slot's marker; and,
//! when the schema asks for clone support, the fork/attach pair.  The
//! emitted text is pinned down, section by section, by the spec functions in
//! this module.

use vstd::prelude::*;

use vstd::string::StringExecFns;

use crate::emit::{gen_list, gens_text, ignored_args, join_args, make_generics, maybe_bounds,
    push_join, push_maybe_bounds, repeat_list, repeated_args, replaced_args, slot_count, str_views,
    vacant_args_text};
use crate::iters::{seq_replaced, seq_without};
use crate::names::{gen_ident, occupied_m_text, option_of_text, vacancy_text};
use crate::schema::{path_attr_of, CMap};

verus! {

broadcast use {vstd::seq::group_seq_axioms, vstd::seq::Seq::add_empty_left, vstd::seq::Seq::add_empty_right};

/// The generated state type's name.
pub open spec fn state_ident_text(m: &CMap) -> Seq<char> {
    m.ident@ + "State"@
}

/// The generated handler type's name.
pub open spec fn handler_ident_text(m: &CMap) -> Seq<char> {
    m.ident@ + "Handler"@
}

/// Whether the schema asks for record-level clone (fork) support.
pub open spec fn derives_clone(m: &CMap) -> bool {
    path_attr_of(m.attrs@, "derive"@) matches Some(id) && id == "Clone"@
}

/// The `MaybeAvailable` bounds of all shape parameters.
pub open spec fn bounds_text(m: &CMap) -> Seq<char> {
    maybe_bounds(gen_list(slot_count(m)))
}

/// Slot `i`'s own `Available` bound line.
pub open spec fn avail_bound_line(i: int) -> Seq<char> {
    gen_ident(i) + ": ::certain_map::Available,\n"@
}

/// The `MaybeAvailable` bounds of every shape parameter but slot `i`'s.
pub open spec fn bounds_except_text(m: &CMap, i: int) -> Seq<char> {
    maybe_bounds(seq_without(gen_list(slot_count(m)), i))
}

/// The argument list with slot `i` transformed to the occupied marker.
pub open spec fn args_occupied_at(m: &CMap, i: int) -> Seq<char> {
    join_args(seq_replaced(gen_list(slot_count(m)), i, occupied_m_text()))
}

/// The argument list with slot `i` transformed to the vacant marker.
pub open spec fn args_vacant_at(m: &CMap, i: int) -> Seq<char> {
    join_args(seq_replaced(gen_list(slot_count(m)), i, vacancy_text()))
}

// ---------------------------------------------------------------------------
// Struct definitions.
// ---------------------------------------------------------------------------

/// The record's cell declarations, one per slot.
pub open spec fn record_fields_upto(m: &CMap, k: int) -> Seq<char>
    decreases k,
{
    if k <= 0 {
        Seq::empty()
    } else {
        record_fields_upto(m, k - 1) + m.fields@[k - 1].name@ + ": ::core::option::Option<"@
            + m.fields@[k - 1].ty@ + ">,\n"@
    }
}

/// The record struct: one optional cell per slot, no shape information.
pub open spec fn record_struct_text(m: &CMap) -> Seq<char> {
    m.vis@ + " struct "@ + m.ident@ + " {\n"@ + record_fields_upto(m, slot_count(m)) + "}\n"@
}

/// The state's phantom declarations, one per slot.
pub open spec fn phantom_fields_upto(m: &CMap, k: int) -> Seq<char>
    decreases k,
{
    if k <= 0 {
        Seq::empty()
    } else {
        phantom_fields_upto(m, k - 1) + m.fields@[k - 1].name@ + ": ::core::marker::PhantomData<"@
            + gen_ident(k - 1) + ">,\n"@
    }
}

/// The state struct: the shape as a zero-size value.
pub open spec fn state_struct_text(m: &CMap) -> Seq<char> {
    "#[allow(non_camel_case_types)]\n"@ + m.vis@ + " struct "@ + state_ident_text(m) + "<"@
        + gens_text(m) + ">\nwhere\n"@ + bounds_text(m) + "{\n"@ + phantom_fields_upto(
        m,
        slot_count(m),
    ) + "}\n"@
}

/// The handler struct: a borrow of the record plus the shape.
pub open spec fn handler_struct_text(m: &CMap) -> Seq<char> {
    "#[allow(non_camel_case_types)]\n"@ + m.vis@ + " struct "@ + handler_ident_text(m) + "<'a, "@
        + gens_text(m) + ">\nwhere\n"@ + bounds_text(m) + "{\ninner: &'a mut "@ + m.ident@
        + ",\nstate: "@ + state_ident_text(m) + "<"@ + gens_text(m) + ">,\n}\n"@
}

// ---------------------------------------------------------------------------
// Type aliases.
// ---------------------------------------------------------------------------

/// The alias for the all-vacant handler shape, when asked for.
pub open spec fn empty_alias_text(m: &CMap) -> Seq<char> {
    match path_attr_of(m.attrs@, "empty"@) {
        Some(e) => m.vis@ + " type "@ + e + "<'a> = "@ + handler_ident_text(m) + "<'a, "@
            + vacant_args_text(m) + ">;\n"@,
        None => Seq::empty(),
    }
}

/// The alias for the all-occupied handler shape, when asked for.
pub open spec fn full_alias_text(m: &CMap) -> Seq<char> {
    match path_attr_of(m.attrs@, "full"@) {
        Some(e) => m.vis@ + " type "@ + e + "<'a> = "@ + handler_ident_text(m) + "<'a, "@
            + join_args(repeat_list(occupied_m_text(), slot_count(m))) + ">;\n"@,
        None => Seq::empty(),
    }
}

// ---------------------------------------------------------------------------
// The record's own impl: constructors and (optionally) the clone primitive.
// ---------------------------------------------------------------------------

/// The record constructor's cell initializers, one per slot.
pub open spec fn new_fields_upto(m: &CMap, k: int) -> Seq<char>
    decreases k,
{
    if k <= 0 {
        Seq::empty()
    } else {
        new_fields_upto(m, k - 1) + m.fields@[k - 1].name@ + ": ::core::option::Option::None,\n"@
    }
}

/// The cell-clearing statements `handler()` runs, one per slot.
pub open spec fn clear_fields_upto(m: &CMap, k: int) -> Seq<char>
    decreases k,
{
    if k <= 0 {
        Seq::empty()
    } else {
        clear_fields_upto(m, k - 1) + "self."@ + m.fields@[k - 1].name@
            + " = ::core::option::Option::None;\n"@
    }
}

/// The per-slot cell clones of the record-level clone primitive.
pub open spec fn clone_fields_upto(m: &CMap, k: int) -> Seq<char>
    decreases k,
{
    if k <= 0 {
        Seq::empty()
    } else {
        clone_fields_upto(m, k - 1) + m.fields@[k - 1].name@ + ": "@ + gen_ident(k - 1)
            + "::do_clone(&self."@ + m.fields@[k - 1].name@ + "),\n"@
    }
}

/// The record-level clone primitive: clones exactly the cells the given
/// shape marks present.  Emitted only when the schema asks for clone support.
pub open spec fn clone_with_text(m: &CMap) -> Seq<char> {
    if derives_clone(m) {
        "#[allow(non_camel_case_types)]\nfn clone_with<"@ + gens_text(m) + ">(&self, _state: &"@
            + state_ident_text(m) + "<"@ + gens_text(m) + ">) -> Self\nwhere\n"@ + bounds_text(m)
            + "{\nSelf {\n"@ + clone_fields_upto(m, slot_count(m)) + "}\n}\n"@
    } else {
        Seq::empty()
    }
}

/// The record impl: `new` (all cells vacant), `handler` (clears leftovers
/// and claims the all-vacant shape), the clone primitive, and the `Handler`
/// and `Default` trait impls.
pub open spec fn record_impl_text(m: &CMap) -> Seq<char> {
    "impl "@ + m.ident@ + " {\n#[inline]\npub fn new() -> Self {\nSelf {\n"@ + new_fields_upto(
        m,
        slot_count(m),
    ) + "}\n}\n#[inline]\npub fn handler(&mut self) -> "@ + handler_ident_text(m) + "<'_, "@
        + vacant_args_text(m) + "> {\n"@ + clear_fields_upto(m, slot_count(m))
        + handler_ident_text(m) + " {\ninner: self,\nstate: "@ + state_ident_text(m)
        + "::new(),\n}\n}\n"@ + clone_with_text(m) + "}\n"@ + "impl ::certain_map::Handler for "@
        + m.ident@ + " {\ntype Hdr<'a> = "@ + handler_ident_text(m) + "<'a, "@ + vacant_args_text(
        m,
    ) + ">\nwhere\nSelf: 'a;\n#[inline]\nfn handler(&mut self) -> Self::Hdr<'_> {\nself.handler()\n}\n}\n"@
        + "impl ::core::default::Default for "@ + m.ident@
        + " {\n#[inline]\nfn default() -> Self {\nSelf::new()\n}\n}\n"@
}

// ---------------------------------------------------------------------------
// The state impl: constructor and attach.
// ---------------------------------------------------------------------------

/// The state constructor's phantom initializers, one per slot.
pub open spec fn phantom_new_upto(m: &CMap, k: int) -> Seq<char>
    decreases k,
{
    if k <= 0 {
        Seq::empty()
    } else {
        phantom_new_upto(m, k - 1) + m.fields@[k - 1].name@ + ": ::core::marker::PhantomData,\n"@
    }
}

/// The state impl: `new`, the attach operation, and the `Attach` trait impl.
pub open spec fn state_impl_text(m: &CMap) -> Seq<char> {
    "#[allow(non_camel_case_types)]\nimpl<"@ + gens_text(m) + "> "@ + state_ident_text(m) + "<"@
        + gens_text(m) + ">\nwhere\n"@ + bounds_text(m) + "{\nfn new() -> Self {\nSelf {\n"@
        + phantom_new_upto(m, slot_count(m)) + "}\n}\n"@
        + "/// Attach this shape to a record whose true occupancy matches it, as after a fork.\n#[inline]\npub fn attach(self, inner: &mut "@
        + m.ident@ + ") -> "@ + handler_ident_text(m) + "<'_, "@ + gens_text(m) + "> {\n"@
        + handler_ident_text(m) + " {\ninner,\nstate: Self::new(),\n}\n}\n}\n"@
        + "#[allow(non_camel_case_types)]\nimpl<"@ + gens_text(m) + "> ::certain_map::Attach<"@
        + m.ident@ + "> for "@ + state_ident_text(m) + "<"@ + gens_text(m) + ">\nwhere\n"@
        + bounds_text(m) + "{\ntype Hdr<'a> = "@ + handler_ident_text(m) + "<'a, "@ + gens_text(m)
        + "> where "@ + m.ident@
        + ": 'a;\n#[inline]\nfn attach(self, store: &mut "@ + m.ident@
        + ") -> Self::Hdr<'_> {\nself.attach(store)\n}\n}\n"@
}

// ---------------------------------------------------------------------------
// Fork support.
// ---------------------------------------------------------------------------

/// The fork operation and its trait impl: duplicate the record under the
/// current shape and hand back a matching shape token.  Emitted only when
/// the schema asks for clone support.
pub open spec fn fork_text(m: &CMap) -> Seq<char> {
    if derives_clone(m) {
        "#[allow(non_camel_case_types)]\nimpl<"@ + gens_text(m) + "> "@ + handler_ident_text(m)
            + "<'_, "@ + gens_text(m) + ">\nwhere\n"@ + bounds_text(m)
            + "{\n#[inline]\npub fn fork(&self) -> ("@ + m.ident@ + ", "@ + state_ident_text(m)
            + "<"@ + gens_text(m)
            + ">) {\nlet inner = self.inner.clone_with(&self.state);\n(inner, "@
            + state_ident_text(m) + "::new())\n}\n}\n"@
            + "#[allow(non_camel_case_types)]\nimpl<"@ + gens_text(m)
            + "> ::certain_map::Fork for "@ + handler_ident_text(m) + "<'_, "@ + gens_text(m)
            + ">\nwhere\n"@ + bounds_text(m) + "{\ntype Store = "@ + m.ident@ + ";\ntype State = "@
            + state_ident_text(m) + "<"@ + gens_text(m)
            + ">;\n#[inline]\nfn fork(&self) -> (Self::Store, Self::State) {\nself.fork()\n}\n}\n"@
    } else {
        Seq::empty()
    }
}

// ---------------------------------------------------------------------------
// Per-slot capability impls.
// ---------------------------------------------------------------------------

/// The common head of one emitted capability impl: the attribute line, the
/// generic parameters, the trait being implemented and the handler shape it
/// is implemented for, up to and including the `where` line.
pub open spec fn impl_header_text(m: &CMap, tr: Seq<char>, target: Seq<char>, lt: bool) -> Seq<
    char,
> {
    "#[allow(non_camel_case_types)]\nimpl<"@ + (if lt {
        "'a, "@
    } else {
        Seq::empty()
    }) + gens_text(m) + "> ::certain_map::"@ + tr + "<"@ + target + "> for "@ + handler_ident_text(
        m,
    ) + (if lt {
        "<'a, "@
    } else {
        "<'_, "@
    }) + gens_text(m) + ">\nwhere\n"@
}

/// The reference read of slot `i`, gated on its marker being `Available`.
pub open spec fn param_ref_impl_text(m: &CMap, i: int) -> Seq<char> {
    impl_header_text(m, "ParamRef"@, m.fields@[i].ty@, false) + avail_bound_line(i)
        + bounds_except_text(m, i) + "{\n#[inline]\nfn param_ref(&self) -> &"@ + m.fields@[i].ty@
        + " {\n"@ + gen_ident(i) + "::do_ref(&self.inner."@ + m.fields@[i].name@ + ")\n}\n}\n"@
}

/// The mutable read of slot `i`, gated on its marker being `Available`.
pub open spec fn param_mut_impl_text(m: &CMap, i: int) -> Seq<char> {
    impl_header_text(m, "ParamMut"@, m.fields@[i].ty@, false) + avail_bound_line(i)
        + bounds_except_text(m, i) + "{\n#[inline]\nfn param_mut(&mut self) -> &mut "@
        + m.fields@[i].ty@ + " {\n"@ + gen_ident(i) + "::do_mut(&mut self.inner."@
        + m.fields@[i].name@ + ")\n}\n}\n"@
}

/// The take of slot `i`: gated on `Available`, moves the value out and
/// yields the handler at the shape with slot `i` made vacant.
pub open spec fn param_take_impl_text(m: &CMap, i: int) -> Seq<char> {
    impl_header_text(m, "ParamTake"@, m.fields@[i].ty@, true) + avail_bound_line(i)
        + bounds_except_text(m, i) + "{\ntype Transformed = "@ + handler_ident_text(m) + "<'a, "@
        + args_vacant_at(m, i) + ">;\n#[inline]\nfn param_take(mut self) -> (Self::Transformed, "@
        + m.fields@[i].ty@ + ") {\nlet item = "@ + gen_ident(i) + "::do_take(&mut self.inner."@
        + m.fields@[i].name@ + ");\n("@ + handler_ident_text(m) + " {\ninner: self.inner,\nstate: "@
        + state_ident_text(m) + "::new(),\n}, item)\n}\n}\n"@
}

/// The optional reference read of slot `i`, available at every shape.
pub open spec fn maybe_ref_impl_text(m: &CMap, i: int) -> Seq<char> {
    impl_header_text(m, "ParamMaybeRef"@, m.fields@[i].ty@, false) + bounds_text(m)
        + "{\n#[inline]\nfn param_maybe_ref(&self) -> ::core::option::Option<&"@
        + m.fields@[i].ty@ + "> {\n"@ + gen_ident(i) + "::do_maybe_ref(&self.inner."@
        + m.fields@[i].name@ + ")\n}\n}\n"@
}

/// The optional mutable read of slot `i`, available at every shape.
pub open spec fn maybe_mut_impl_text(m: &CMap, i: int) -> Seq<char> {
    impl_header_text(m, "ParamMaybeMut"@, m.fields@[i].ty@, false) + bounds_text(m)
        + "{\n#[inline]\nfn param_maybe_mut(&mut self) -> ::core::option::Option<&mut "@
        + m.fields@[i].ty@ + "> {\n"@ + gen_ident(i) + "::do_maybe_mut(&mut self.inner."@
        + m.fields@[i].name@ + ")\n}\n}\n"@
}

/// The set of slot `i`: available at every shape, installs the value
/// (releasing any old one first) and yields the handler at the shape with
/// slot `i` made occupied.
pub open spec fn set_impl_text(m: &CMap, i: int) -> Seq<char> {
    impl_header_text(m, "ParamSet"@, m.fields@[i].ty@, true) + bounds_text(m)
        + "{\ntype Transformed = "@ + handler_ident_text(m) + "<'a, "@ + args_occupied_at(m, i)
        + ">;\n#[inline]\nfn param_set(mut self, item: "@ + m.fields@[i].ty@
        + ") -> Self::Transformed {\n"@ + gen_ident(i) + "::do_set(&mut self.inner."@
        + m.fields@[i].name@ + ", item);\n"@ + handler_ident_text(m)
        + " {\ninner: self.inner,\nstate: "@ + state_ident_text(m) + "::new(),\n}\n}\n}\n"@
}

/// The remove of slot `i`: available at every shape, a no-op release when
/// the slot is already vacant, and yields the handler at the shape with slot
/// `i` made vacant.
pub open spec fn remove_impl_text(m: &CMap, i: int) -> Seq<char> {
    impl_header_text(m, "ParamRemove"@, m.fields@[i].ty@, true) + bounds_text(m)
        + "{\ntype Transformed = "@ + handler_ident_text(m) + "<'a, "@ + args_vacant_at(m, i)
        + ">;\n#[inline]\nfn param_remove(mut self) -> Self::Transformed {\n"@ + gen_ident(i)
        + "::do_drop(&mut self.inner."@ + m.fields@[i].name@ + ");\n"@ + handler_ident_text(m)
        + " {\ninner: self.inner,\nstate: "@ + state_ident_text(m) + "::new(),\n}\n}\n}\n"@
}

/// The owned reads of slot `i`: a cloning read gated on `Available`, and an
/// optional cloning read available at every shape.
pub open spec fn param_owned_impl_text(m: &CMap, i: int) -> Seq<char> {
    impl_header_text(m, "Param"@, m.fields@[i].ty@, false) + avail_bound_line(i)
        + bounds_except_text(m, i) + "{\n#[inline]\nfn param(&self) -> "@ + m.fields@[i].ty@
        + " {\n"@ + gen_ident(i) + "::do_read(&self.inner."@ + m.fields@[i].name@ + ")\n}\n}\n"@
        + impl_header_text(m, "Param"@, option_of_text(m.fields@[i].ty@), false) + bounds_text(m)
        + "{\n#[inline]\nfn param(&self) -> ::core::option::Option<"@ + m.fields@[i].ty@
        + "> {\n"@ + gen_ident(i) + "::do_maybe_ref(&self.inner."@ + m.fields@[i].name@
        + ").cloned()\n}\n}\n"@
}

/// Slot `i`'s owned reads, emitted only when the whole record or this slot
/// was asked to support them.
pub open spec fn param_slot_text(m: &CMap, i: int) -> Seq<char> {
    if derives_clone(m) || m.fields@[i].ensure_clone {
        param_owned_impl_text(m, i)
    } else {
        Seq::empty()
    }
}

/// The reference/mutable/take impls of the first `k` slots.
pub open spec fn access_impls_upto(m: &CMap, k: int) -> Seq<char>
    decreases k,
{
    if k <= 0 {
        Seq::empty()
    } else {
        access_impls_upto(m, k - 1) + param_ref_impl_text(m, k - 1) + param_mut_impl_text(m, k - 1)
            + param_take_impl_text(m, k - 1)
    }
}

/// The optional-read/set/remove impls of the first `k` slots.
pub open spec fn maybe_impls_upto(m: &CMap, k: int) -> Seq<char>
    decreases k,
{
    if k <= 0 {
        Seq::empty()
    } else {
        maybe_impls_upto(m, k - 1) + maybe_ref_impl_text(m, k - 1) + maybe_mut_impl_text(m, k - 1)
            + set_impl_text(m, k - 1) + remove_impl_text(m, k - 1)
    }
}

/// The owned-read impls of the first `k` slots.
pub open spec fn param_impls_upto(m: &CMap, k: int) -> Seq<char>
    decreases k,
{
    if k <= 0 {
        Seq::empty()
    } else {
        param_impls_upto(m, k - 1) + param_slot_text(m, k - 1)
    }
}

/// Everything the fully-allocated generator emits for a schema.
pub open spec fn pre_filled_text(m: &CMap) -> Seq<char> {
    record_struct_text(m) + state_struct_text(m) + handler_struct_text(m) + empty_alias_text(m)
        + full_alias_text(m) + record_impl_text(m) + state_impl_text(m) + fork_text(m)
        + access_impls_upto(m, slot_count(m)) + maybe_impls_upto(m, slot_count(m))
        + param_impls_upto(m, slot_count(m))
}


// ---------------------------------------------------------------------------
// Emission.
// ---------------------------------------------------------------------------

/// Whether the schema asks for record-level clone support.
fn derive_clone_flag(m: &CMap) -> (r: bool)
    ensures
        r == derives_clone(m),
{
    match crate::schema::path_attr_ident(&m.attrs, "derive") {
        Some(s) => crate::schema::string_is(&s, "Clone"),
        None => false,
    }
}

/// Append the state type's name.
fn push_state_ident(out: &mut String, m: &CMap)
    ensures
        final(out)@ == old(out)@ + state_ident_text(m),
{
    out.append(m.ident.as_str());
    out.append("State");
    proof {
        assert(out@ =~= old(out)@ + state_ident_text(m));
    }
}

/// Append the handler type's name.
fn push_handler_ident(out: &mut String, m: &CMap)
    ensures
        final(out)@ == old(out)@ + handler_ident_text(m),
{
    out.append(m.ident.as_str());
    out.append("Handler");
    proof {
        assert(out@ =~= old(out)@ + handler_ident_text(m));
    }
}

/// Append slot `i`'s own `Available` bound line.
fn push_avail_bound(out: &mut String, m: &CMap, gens: &Vec<String>, i: usize)
    requires
        str_views(gens@) == gen_list(slot_count(m)),
        (i as int) < slot_count(m),
    ensures
        final(out)@ == old(out)@ + avail_bound_line(i as int),
{
    proof {
        crate::emit::lemma_gens_len(gens@, slot_count(m));
    }
    let g = &gens[i];
    out.append(g.as_str());
    out.append(": ::certain_map::Available,\n");
    proof {
        crate::emit::lemma_gen_at(gens@, slot_count(m), i as int);
        assert(out@ =~= old(out)@ + avail_bound_line(i as int));
    }
}

#[verifier::loop_isolation(false)]
fn build_record_struct(m: &CMap) -> (r: String)
    ensures
        r@ == record_struct_text(m),
{
    let mut r = String::new();
    r.append(m.vis.as_str());
    r.append(" struct ");
    r.append(m.ident.as_str());
    r.append(" {\n");
    let ghost base = r@;
    let n = m.fields.len();
    let mut i: usize = 0;
    while i < n
        invariant
            i <= n,
            r@ == base + record_fields_upto(m, i as int),
        decreases n - i,
    {
        let f = &m.fields[i];
        r.append(f.name.as_str());
        r.append(": ::core::option::Option<");
        r.append(f.ty.as_str());
        r.append(">,\n");
        proof {
            assert(r@ =~= base + record_fields_upto(m, i + 1));
        }
        i += 1;
    }
    r.append("}\n");
    proof {
        assert(r@ == record_struct_text(m));
    }
    r
}

#[verifier::loop_isolation(false)]
fn build_state_struct(m: &CMap, gens: &Vec<String>) -> (r: String)
    requires
        str_views(gens@) == gen_list(slot_count(m)),
    ensures
        r@ == state_struct_text(m),
{
    let mut r = String::new();
    r.append("#[allow(non_camel_case_types)]\n");
    r.append(m.vis.as_str());
    r.append(" struct ");
    push_state_ident(&mut r, m);
    r.append("<");
    push_join(&mut r, gens);
    r.append(">\nwhere\n");
    push_maybe_bounds(&mut r, gens);
    r.append("{\n");
    let ghost base = r@;
    let n = m.fields.len();
    let mut i: usize = 0;
    while i < n
        invariant
            i <= n,
            r@ == base + phantom_fields_upto(m, i as int),
        decreases n - i,
    {
        let f = &m.fields[i];
        r.append(f.name.as_str());
        r.append(": ::core::marker::PhantomData<");
        let g = &gens[i];
        r.append(g.as_str());
        r.append(">,\n");
        proof {
            crate::emit::lemma_gen_at(gens@, slot_count(m), i as int);
            assert(r@ =~= base + phantom_fields_upto(m, i + 1));
        }
        i += 1;
    }
    r.append("}\n");
    proof {
        assert(r@ == state_struct_text(m));
    }
    r
}

fn build_handler_struct(m: &CMap, gens: &Vec<String>) -> (r: String)
    requires
        str_views(gens@) == gen_list(slot_count(m)),
    ensures
        r@ == handler_struct_text(m),
{
    let mut r = String::new();
    r.append("#[allow(non_camel_case_types)]\n");
    r.append(m.vis.as_str());
    r.append(" struct ");
    push_handler_ident(&mut r, m);
    r.append("<'a, ");
    push_join(&mut r, gens);
    r.append(">\nwhere\n");
    push_maybe_bounds(&mut r, gens);
    r.append("{\ninner: &'a mut ");
    r.append(m.ident.as_str());
    r.append(",\nstate: ");
    push_state_ident(&mut r, m);
    r.append("<");
    push_join(&mut r, gens);
    r.append(">,\n}\n");
    proof {
        assert(r@ == handler_struct_text(m));
    }
    r
}

fn build_empty_alias(m: &CMap, vacs: &Vec<String>) -> (r: String)
    requires
        str_views(vacs@) == repeat_list(vacancy_text(), slot_count(m)),
    ensures
        r@ == empty_alias_text(m),
{
    let mut r = String::new();
    match crate::schema::path_attr_ident(&m.attrs, "empty") {
        Some(e) => {
            r.append(m.vis.as_str());
            r.append(" type ");
            r.append(e.as_str());
            r.append("<'a> = ");
            push_handler_ident(&mut r, m);
            r.append("<'a, ");
            push_join(&mut r, vacs);
            r.append(">;\n");
            proof {
                assert(r@ == empty_alias_text(m));
            }
        },
        None => {
            proof {
                assert(r@ == empty_alias_text(m));
            }
        },
    }
    r
}

fn build_full_alias(m: &CMap, occs: &Vec<String>) -> (r: String)
    requires
        str_views(occs@) == repeat_list(occupied_m_text(), slot_count(m)),
    ensures
        r@ == full_alias_text(m),
{
    let mut r = String::new();
    match crate::schema::path_attr_ident(&m.attrs, "full") {
        Some(e) => {
            r.append(m.vis.as_str());
            r.append(" type ");
            r.append(e.as_str());
            r.append("<'a> = ");
            push_handler_ident(&mut r, m);
            r.append("<'a, ");
            push_join(&mut r, occs);
            r.append(">;\n");
            proof {
                assert(r@ == full_alias_text(m));
            }
        },
        None => {
            proof {
                assert(r@ == full_alias_text(m));
            }
        },
    }
    r
}

#[verifier::loop_isolation(false)]
fn build_clone_with(m: &CMap, gens: &Vec<String>) -> (r: String)
    requires
        str_views(gens@) == gen_list(slot_count(m)),
    ensures
        r@ == clone_with_text(m),
{
    let mut r = String::new();
    let derive_clone = derive_clone_flag(m);
    if !derive_clone {
        proof {
            assert(r@ == clone_with_text(m));
        }
        return r;
    }
    r.append("#[allow(non_camel_case_types)]\nfn clone_with<");
    push_join(&mut r, gens);
    r.append(">(&self, _state: &");
    push_state_ident(&mut r, m);
    r.append("<");
    push_join(&mut r, gens);
    r.append(">) -> Self\nwhere\n");
    push_maybe_bounds(&mut r, gens);
    r.append("{\nSelf {\n");
    let ghost base = r@;
    let n = m.fields.len();
    let mut i: usize = 0;
    while i < n
        invariant
            i <= n,
            r@ == base + clone_fields_upto(m, i as int),
        decreases n - i,
    {
        let f = &m.fields[i];
        r.append(f.name.as_str());
        r.append(": ");
        let g = &gens[i];
        r.append(g.as_str());
        r.append("::do_clone(&self.");
        r.append(f.name.as_str());
        r.append("),\n");
        proof {
            crate::emit::lemma_gen_at(gens@, slot_count(m), i as int);
            assert(r@ =~= base + clone_fields_upto(m, i + 1));
        }
        i += 1;
    }
    r.append("}\n}\n");
    proof {
        assert(r@ == clone_with_text(m));
    }
    r
}

#[verifier::loop_isolation(false)]
fn build_record_impl(m: &CMap, gens: &Vec<String>, vacs: &Vec<String>) -> (r: String)
    requires
        str_views(gens@) == gen_list(slot_count(m)),
        str_views(vacs@) == repeat_list(vacancy_text(), slot_count(m)),
    ensures
        r@ == record_impl_text(m),
{
    let mut r = String::new();
    r.append("impl ");
    r.append(m.ident.as_str());
    r.append(" {\n#[inline]\npub fn new() -> Self {\nSelf {\n");
    let ghost base1 = r@;
    let n = m.fields.len();
    let mut i: usize = 0;
    while i < n
        invariant
            i <= n,
            r@ == base1 + new_fields_upto(m, i as int),
        decreases n - i,
    {
        let f = &m.fields[i];
        r.append(f.name.as_str());
        r.append(": ::core::option::Option::None,\n");
        proof {
            assert(r@ =~= base1 + new_fields_upto(m, i + 1));
        }
        i += 1;
    }
    r.append("}\n}\n#[inline]\npub fn handler(&mut self) -> ");
    push_handler_ident(&mut r, m);
    r.append("<'_, ");
    push_join(&mut r, vacs);
    r.append("> {\n");
    let ghost base2 = r@;
    let mut i: usize = 0;
    while i < n
        invariant
            i <= n,
            r@ == base2 + clear_fields_upto(m, i as int),
        decreases n - i,
    {
        let f = &m.fields[i];
        r.append("self.");
        r.append(f.name.as_str());
        r.append(" = ::core::option::Option::None;\n");
        proof {
            assert(r@ =~= base2 + clear_fields_upto(m, i + 1));
        }
        i += 1;
    }
    push_handler_ident(&mut r, m);
    r.append(" {\ninner: self,\nstate: ");
    push_state_ident(&mut r, m);
    r.append("::new(),\n}\n}\n");
    let cw = build_clone_with(m, gens);
    r.append(cw.as_str());
    r.append("}\n");
    r.append("impl ::certain_map::Handler for ");
    r.append(m.ident.as_str());
    r.append(" {\ntype Hdr<'a> = ");
    push_handler_ident(&mut r, m);
    r.append("<'a, ");
    push_join(&mut r, vacs);
    r.append(">\nwhere\nSelf: 'a;\n#[inline]\nfn handler(&mut self) -> Self::Hdr<'_> {\nself.handler()\n}\n}\n");
    r.append("impl ::core::default::Default for ");
    r.append(m.ident.as_str());
    r.append(" {\n#[inline]\nfn default() -> Self {\nSelf::new()\n}\n}\n");
    proof {
        assert(r@ == record_impl_text(m));
    }
    r
}

#[verifier::loop_isolation(false)]
fn build_state_impl(m: &CMap, gens: &Vec<String>) -> (r: String)
    requires
        str_views(gens@) == gen_list(slot_count(m)),
    ensures
        r@ == state_impl_text(m),
{
    let mut r = String::new();
    r.append("#[allow(non_camel_case_types)]\nimpl<");
    push_join(&mut r, gens);
    r.append("> ");
    push_state_ident(&mut r, m);
    r.append("<");
    push_join(&mut r, gens);
    r.append(">\nwhere\n");
    push_maybe_bounds(&mut r, gens);
    r.append("{\nfn new() -> Self {\nSelf {\n");
    let ghost base = r@;
    let n = m.fields.len();
    let mut i: usize = 0;
    while i < n
        invariant
            i <= n,
            r@ == base + phantom_new_upto(m, i as int),
        decreases n - i,
    {
        let f = &m.fields[i];
        r.append(f.name.as_str());
        r.append(": ::core::marker::PhantomData,\n");
        proof {
            assert(r@ =~= base + phantom_new_upto(m, i + 1));
        }
        i += 1;
    }
    r.append("}\n}\n");
    r.append("/// Attach this shape to a record whose true occupancy matches it, as after a fork.\n#[inline]\npub fn attach(self, inner: &mut ");
    r.append(m.ident.as_str());
    r.append(") -> ");
    push_handler_ident(&mut r, m);
    r.append("<'_, ");
    push_join(&mut r, gens);
    r.append("> {\n");
    push_handler_ident(&mut r, m);
    r.append(" {\ninner,\nstate: Self::new(),\n}\n}\n}\n");
    r.append("#[allow(non_camel_case_types)]\nimpl<");
    push_join(&mut r, gens);
    r.append("> ::certain_map::Attach<");
    r.append(m.ident.as_str());
    r.append("> for ");
    push_state_ident(&mut r, m);
    r.append("<");
    push_join(&mut r, gens);
    r.append(">\nwhere\n");
    push_maybe_bounds(&mut r, gens);
    r.append("{\ntype Hdr<'a> = ");
    push_handler_ident(&mut r, m);
    r.append("<'a, ");
    push_join(&mut r, gens);
    r.append("> where ");
    r.append(m.ident.as_str());
    r.append(": 'a;\n#[inline]\nfn attach(self, store: &mut ");
    r.append(m.ident.as_str());
    r.append(") -> Self::Hdr<'_> {\nself.attach(store)\n}\n}\n");
    proof {
        assert(r@ == state_impl_text(m));
    }
    r
}

fn build_fork(m: &CMap, gens: &Vec<String>) -> (r: String)
    requires
        str_views(gens@) == gen_list(slot_count(m)),
    ensures
        r@ == fork_text(m),
{
    let mut r = String::new();
    let derive_clone = derive_clone_flag(m);
    if !derive_clone {
        proof {
            assert(r@ == fork_text(m));
        }
        return r;
    }
    r.append("#[allow(non_camel_case_types)]\nimpl<");
    push_join(&mut r, gens);
    r.append("> ");
    push_handler_ident(&mut r, m);
    r.append("<'_, ");
    push_join(&mut r, gens);
    r.append(">\nwhere\n");
    push_maybe_bounds(&mut r, gens);
    r.append("{\n#[inline]\npub fn fork(&self) -> (");
    r.append(m.ident.as_str());
    r.append(", ");
    push_state_ident(&mut r, m);
    r.append("<");
    push_join(&mut r, gens);
    r.append(">) {\nlet inner = self.inner.clone_with(&self.state);\n(inner, ");
    push_state_ident(&mut r, m);
    r.append("::new())\n}\n}\n");
    r.append("#[allow(non_camel_case_types)]\nimpl<");
    push_join(&mut r, gens);
    r.append("> ::certain_map::Fork for ");
    push_handler_ident(&mut r, m);
    r.append("<'_, ");
    push_join(&mut r, gens);
    r.append(">\nwhere\n");
    push_maybe_bounds(&mut r, gens);
    r.append("{\ntype Store = ");
    r.append(m.ident.as_str());
    r.append(";\ntype State = ");
    push_state_ident(&mut r, m);
    r.append("<");
    push_join(&mut r, gens);
    r.append(">;\n#[inline]\nfn fork(&self) -> (Self::Store, Self::State) {\nself.fork()\n}\n}\n");
    proof {
        assert(r@ == fork_text(m));
    }
    r
}

/// The common head of one capability impl.
fn build_impl_header(m: &CMap, gens: &Vec<String>, tr: &str, target: &str, lt: bool) -> (r: String)
    requires
        str_views(gens@) == gen_list(slot_count(m)),
    ensures
        r@ == impl_header_text(m, tr@, target@, lt),
{
    let mut r = String::new();
    r.append("#[allow(non_camel_case_types)]\nimpl<");
    if lt {
        r.append("'a, ");
    }
    push_join(&mut r, gens);
    r.append("> ::certain_map::");
    r.append(tr);
    r.append("<");
    r.append(target);
    r.append("> for ");
    push_handler_ident(&mut r, m);
    if lt {
        r.append("<'a, ");
    } else {
        r.append("<'_, ");
    }
    push_join(&mut r, gens);
    r.append(">\nwhere\n");
    proof {
        assert(r@ == impl_header_text(m, tr@, target@, lt));
    }
    r
}

fn build_param_ref(m: &CMap, gens: &Vec<String>, i: usize) -> (r: String)
    requires
        str_views(gens@) == gen_list(slot_count(m)),
        (i as int) < slot_count(m),
    ensures
        r@ == param_ref_impl_text(m, i as int),
{
    let mut r = String::new();
    let f = &m.fields[i];
    let h = build_impl_header(m, gens, "ParamRef", f.ty.as_str(), false);
    r.append(h.as_str());
    push_avail_bound(&mut r, m, gens, i);
    let ge = ignored_args(gens, i);
    push_maybe_bounds(&mut r, &ge);
    r.append("{\n#[inline]\nfn param_ref(&self) -> &");
    r.append(f.ty.as_str());
    r.append(" {\n");
    proof {
        crate::emit::lemma_gens_len(gens@, slot_count(m));
        crate::emit::lemma_gen_at(gens@, slot_count(m), i as int);
    }
    let g = &gens[i];
    r.append(g.as_str());
    r.append("::do_ref(&self.inner.");
    r.append(f.name.as_str());
    r.append(")\n}\n}\n");
    proof {
        assert(r@ == param_ref_impl_text(m, i as int));
    }
    r
}

fn build_param_mut(m: &CMap, gens: &Vec<String>, i: usize) -> (r: String)
    requires
        str_views(gens@) == gen_list(slot_count(m)),
        (i as int) < slot_count(m),
    ensures
        r@ == param_mut_impl_text(m, i as int),
{
    let mut r = String::new();
    let f = &m.fields[i];
    let h = build_impl_header(m, gens, "ParamMut", f.ty.as_str(), false);
    r.append(h.as_str());
    push_avail_bound(&mut r, m, gens, i);
    let ge = ignored_args(gens, i);
    push_maybe_bounds(&mut r, &ge);
    r.append("{\n#[inline]\nfn param_mut(&mut self) -> &mut ");
    r.append(f.ty.as_str());
    r.append(" {\n");
    proof {
        crate::emit::lemma_gens_len(gens@, slot_count(m));
        crate::emit::lemma_gen_at(gens@, slot_count(m), i as int);
    }
    let g = &gens[i];
    r.append(g.as_str());
    r.append("::do_mut(&mut self.inner.");
    r.append(f.name.as_str());
    r.append(")\n}\n}\n");
    proof {
        assert(r@ == param_mut_impl_text(m, i as int));
    }
    r
}

fn build_param_take(m: &CMap, gens: &Vec<String>, i: usize) -> (r: String)
    requires
        str_views(gens@) == gen_list(slot_count(m)),
        (i as int) < slot_count(m),
    ensures
        r@ == param_take_impl_text(m, i as int),
{
    let mut r = String::new();
    let f = &m.fields[i];
    let h = build_impl_header(m, gens, "ParamTake", f.ty.as_str(), true);
    r.append(h.as_str());
    push_avail_bound(&mut r, m, gens, i);
    let ge = ignored_args(gens, i);
    push_maybe_bounds(&mut r, &ge);
    r.append("{\ntype Transformed = ");
    push_handler_ident(&mut r, m);
    r.append("<'a, ");
    let vac = crate::names::vacancy_type();
    let va = replaced_args(gens, i, &vac);
    push_join(&mut r, &va);
    r.append(">;\n#[inline]\nfn param_take(mut self) -> (Self::Transformed, ");
    r.append(f.ty.as_str());
    r.append(") {\nlet item = ");
    proof {
        crate::emit::lemma_gens_len(gens@, slot_count(m));
        crate::emit::lemma_gen_at(gens@, slot_count(m), i as int);
    }
    let g = &gens[i];
    r.append(g.as_str());
    r.append("::do_take(&mut self.inner.");
    r.append(f.name.as_str());
    r.append(");\n(");
    push_handler_ident(&mut r, m);
    r.append(" {\ninner: self.inner,\nstate: ");
    push_state_ident(&mut r, m);
    r.append("::new(),\n}, item)\n}\n}\n");
    proof {
        assert(r@ == param_take_impl_text(m, i as int));
    }
    r
}

fn build_maybe_ref(m: &CMap, gens: &Vec<String>, i: usize) -> (r: String)
    requires
        str_views(gens@) == gen_list(slot_count(m)),
        (i as int) < slot_count(m),
    ensures
        r@ == maybe_ref_impl_text(m, i as int),
{
    let mut r = String::new();
    let f = &m.fields[i];
    let h = build_impl_header(m, gens, "ParamMaybeRef", f.ty.as_str(), false);
    r.append(h.as_str());
    push_maybe_bounds(&mut r, gens);
    r.append("{\n#[inline]\nfn param_maybe_ref(&self) -> ::core::option::Option<&");
    r.append(f.ty.as_str());
    r.append("> {\n");
    proof {
        crate::emit::lemma_gens_len(gens@, slot_count(m));
        crate::emit::lemma_gen_at(gens@, slot_count(m), i as int);
    }
    let g = &gens[i];
    r.append(g.as_str());
    r.append("::do_maybe_ref(&self.inner.");
    r.append(f.name.as_str());
    r.append(")\n}\n}\n");
    proof {
        assert(r@ == maybe_ref_impl_text(m, i as int));
    }
    r
}

fn build_maybe_mut(m: &CMap, gens: &Vec<String>, i: usize) -> (r: String)
    requires
        str_views(gens@) == gen_list(slot_count(m)),
        (i as int) < slot_count(m),
    ensures
        r@ == maybe_mut_impl_text(m, i as int),
{
    let mut r = String::new();
    let f = &m.fields[i];
    let h = build_impl_header(m, gens, "ParamMaybeMut", f.ty.as_str(), false);
    r.append(h.as_str());
    push_maybe_bounds(&mut r, gens);
    r.append("{\n#[inline]\nfn param_maybe_mut(&mut self) -> ::core::option::Option<&mut ");
    r.append(f.ty.as_str());
    r.append("> {\n");
    proof {
        crate::emit::lemma_gens_len(gens@, slot_count(m));
        crate::emit::lemma_gen_at(gens@, slot_count(m), i as int);
    }
    let g = &gens[i];
    r.append(g.as_str());
    r.append("::do_maybe_mut(&mut self.inner.");
    r.append(f.name.as_str());
    r.append(")\n}\n}\n");
    proof {
        assert(r@ == maybe_mut_impl_text(m, i as int));
    }
    r
}

fn build_set(m: &CMap, gens: &Vec<String>, i: usize) -> (r: String)
    requires
        str_views(gens@) == gen_list(slot_count(m)),
        (i as int) < slot_count(m),
    ensures
        r@ == set_impl_text(m, i as int),
{
    let mut r = String::new();
    let f = &m.fields[i];
    let h = build_impl_header(m, gens, "ParamSet", f.ty.as_str(), true);
    r.append(h.as_str());
    push_maybe_bounds(&mut r, gens);
    r.append("{\ntype Transformed = ");
    push_handler_ident(&mut r, m);
    r.append("<'a, ");
    let occ = crate::names::occupied_m_type();
    let oa = replaced_args(gens, i, &occ);
    push_join(&mut r, &oa);
    r.append(">;\n#[inline]\nfn param_set(mut self, item: ");
    r.append(f.ty.as_str());
    r.append(") -> Self::Transformed {\n");
    proof {
        crate::emit::lemma_gens_len(gens@, slot_count(m));
        crate::emit::lemma_gen_at(gens@, slot_count(m), i as int);
    }
    let g = &gens[i];
    r.append(g.as_str());
    r.append("::do_set(&mut self.inner.");
    r.append(f.name.as_str());
    r.append(", item);\n");
    push_handler_ident(&mut r, m);
    r.append(" {\ninner: self.inner,\nstate: ");
    push_state_ident(&mut r, m);
    r.append("::new(),\n}\n}\n}\n");
    proof {
        assert(r@ == set_impl_text(m, i as int));
    }
    r
}

fn build_remove(m: &CMap, gens: &Vec<String>, i: usize) -> (r: String)
    requires
        str_views(gens@) == gen_list(slot_count(m)),
        (i as int) < slot_count(m),
    ensures
        r@ == remove_impl_text(m, i as int),
{
    let mut r = String::new();
    let f = &m.fields[i];
    let h = build_impl_header(m, gens, "ParamRemove", f.ty.as_str(), true);
    r.append(h.as_str());
    push_maybe_bounds(&mut r, gens);
    r.append("{\ntype Transformed = ");
    push_handler_ident(&mut r, m);
    r.append("<'a, ");
    let vac = crate::names::vacancy_type();
    let va = replaced_args(gens, i, &vac);
    push_join(&mut r, &va);
    r.append(">;\n#[inline]\nfn param_remove(mut self) -> Self::Transformed {\n");
    proof {
        crate::emit::lemma_gens_len(gens@, slot_count(m));
        crate::emit::lemma_gen_at(gens@, slot_count(m), i as int);
    }
    let g = &gens[i];
    r.append(g.as_str());
    r.append("::do_drop(&mut self.inner.");
    r.append(f.name.as_str());
    r.append(");\n");
    push_handler_ident(&mut r, m);
    r.append(" {\ninner: self.inner,\nstate: ");
    push_state_ident(&mut r, m);
    r.append("::new(),\n}\n}\n}\n");
    proof {
        assert(r@ == remove_impl_text(m, i as int));
    }
    r
}

fn build_param_slot(m: &CMap, gens: &Vec<String>, i: usize) -> (r: String)
    requires
        str_views(gens@) == gen_list(slot_count(m)),
        (i as int) < slot_count(m),
    ensures
        r@ == param_slot_text(m, i as int),
{
    let mut r = String::new();
    let derive_clone = derive_clone_flag(m);
    let f = &m.fields[i];
    if !derive_clone && !f.ensure_clone {
        proof {
            assert(r@ == param_slot_text(m, i as int));
        }
        return r;
    }
    let h = build_impl_header(m, gens, "Param", f.ty.as_str(), false);
    r.append(h.as_str());
    push_avail_bound(&mut r, m, gens, i);
    let ge = ignored_args(gens, i);
    push_maybe_bounds(&mut r, &ge);
    r.append("{\n#[inline]\nfn param(&self) -> ");
    r.append(f.ty.as_str());
    r.append(" {\n");
    proof {
        crate::emit::lemma_gens_len(gens@, slot_count(m));
        crate::emit::lemma_gen_at(gens@, slot_count(m), i as int);
    }
    let g = &gens[i];
    r.append(g.as_str());
    r.append("::do_read(&self.inner.");
    r.append(f.name.as_str());
    r.append(")\n}\n}\n");
    let mut opt_ty = String::new();
    opt_ty.append("::core::option::Option<");
    opt_ty.append(f.ty.as_str());
    opt_ty.append(">");
    proof {
        assert(opt_ty@ == option_of_text(m.fields@[i as int].ty@));
    }
    let h2 = build_impl_header(m, gens, "Param", opt_ty.as_str(), false);
    r.append(h2.as_str());
    push_maybe_bounds(&mut r, gens);
    r.append("{\n#[inline]\nfn param(&self) -> ::core::option::Option<");
    r.append(f.ty.as_str());
    r.append("> {\n");
    let g = &gens[i];
    r.append(g.as_str());
    r.append("::do_maybe_ref(&self.inner.");
    r.append(f.name.as_str());
    r.append(").cloned()\n}\n}\n");
    proof {
        assert(r@ == param_slot_text(m, i as int));
    }
    r
}

/// The reference/mutable/take impls of every slot.
#[verifier::loop_isolation(false)]
fn build_access_impls(m: &CMap, gens: &Vec<String>) -> (r: String)
    requires
        str_views(gens@) == gen_list(slot_count(m)),
    ensures
        r@ == access_impls_upto(m, slot_count(m)),
{
    let mut r = String::new();
    let n = m.fields.len();
    let mut i: usize = 0;
    while i < n
        invariant
            i <= n,
            r@ == access_impls_upto(m, i as int),
        decreases n - i,
    {
        let s = build_param_ref(m, gens, i);
        r.append(s.as_str());
        let s = build_param_mut(m, gens, i);
        r.append(s.as_str());
        let s = build_param_take(m, gens, i);
        r.append(s.as_str());
        proof {
            assert(r@ == access_impls_upto(m, i + 1));
        }
        i += 1;
    }
    r
}

/// The optional-read/set/remove impls of every slot.
#[verifier::loop_isolation(false)]
fn build_maybe_impls(m: &CMap, gens: &Vec<String>) -> (r: String)
    requires
        str_views(gens@) == gen_list(slot_count(m)),
    ensures
        r@ == maybe_impls_upto(m, slot_count(m)),
{
    let mut r = String::new();
    let n = m.fields.len();
    let mut i: usize = 0;
    while i < n
        invariant
            i <= n,
            r@ == maybe_impls_upto(m, i as int),
        decreases n - i,
    {
        let s = build_maybe_ref(m, gens, i);
        r.append(s.as_str());
        let s = build_maybe_mut(m, gens, i);
        r.append(s.as_str());
        let s = build_set(m, gens, i);
        r.append(s.as_str());
        let s = build_remove(m, gens, i);
        r.append(s.as_str());
        proof {
            assert(r@ == maybe_impls_upto(m, i + 1));
        }
        i += 1;
    }
    r
}

/// The owned-read impls of every slot that supports them.
#[verifier::loop_isolation(false)]
fn build_param_impls(m: &CMap, gens: &Vec<String>) -> (r: String)
    requires
        str_views(gens@) == gen_list(slot_count(m)),
    ensures
        r@ == param_impls_upto(m, slot_count(m)),
{
    let mut r = String::new();
    let n = m.fields.len();
    let mut i: usize = 0;
    while i < n
        invariant
            i <= n,
            r@ == param_impls_upto(m, i as int),
        decreases n - i,
    {
        let s = build_param_slot(m, gens, i);
        r.append(s.as_str());
        proof {
            assert(r@ == param_impls_upto(m, i + 1));
        }
        i += 1;
    }
    r
}

impl CMap {
    /// Emit the fully-allocated container for this schema, appending the
    /// generated program text to `tokens`.
    pub fn to_pre_filled_tokens(&self, tokens: &mut String)
        ensures
            final(tokens)@ == old(tokens)@ + pre_filled_text(self),
    {
        let n = self.fields.len();
        let gens = make_generics(n);
        let vac = crate::names::vacancy_type();
        let vacs = repeated_args(vac.as_str(), n);
        let occ = crate::names::occupied_m_type();
        let occs = repeated_args(occ.as_str(), n);
        let mut r = String::new();
        let s = build_record_struct(self);
        r.append(s.as_str());
        let s = build_state_struct(self, &gens);
        r.append(s.as_str());
        let s = build_handler_struct(self, &gens);
        r.append(s.as_str());
        let s = build_empty_alias(self, &vacs);
        r.append(s.as_str());
        let s = build_full_alias(self, &occs);
        r.append(s.as_str());
        let s = build_record_impl(self, &gens, &vacs);
        r.append(s.as_str());
        let s = build_state_impl(self, &gens);
        r.append(s.as_str());
        let s = build_fork(self, &gens);
        r.append(s.as_str());
        let s = build_access_impls(self, &gens);
        r.append(s.as_str());
        let s = build_maybe_impls(self, &gens);
        r.append(s.as_str());
        let s = build_param_impls(self, &gens);
        r.append(s.as_str());
        tokens.append(r.as_str());
        proof {
            assert(tokens@ == old(tokens)@ + pre_filled_text(self));
        }
    }
}

} // verus!
