//! Schema input model, validation and normalization.
//!
//! The front end reads a struct-like declaration and hands it over as plain
//! data: attribute descriptions, a visibility, a name, and a list of fields.
//! Validation rejects declarations the generator does not support (generic
//! parameters, lifetimes, where-clauses, unnamed fields, unrecognized field
//! annotations), strips the style switch, and normalizes the per-slot
//! annotations into a [`CMap`], the generator's working form.

use vstd::prelude::*;

use vstd::string::StrSliceExecFns;

verus! {

/// One argument inside an attribute's parenthesised list.
#[derive(Debug, Clone)]
pub enum MetaItem {
    /// A bare path of a single identifier, such as `Clone`.
    Ident(String),
    /// Any other meta form (a longer path, a name-value pair, a nested list).
    Other,
}

/// The arguments an attribute carries.
#[derive(Debug, Clone)]
pub enum AttrArgs {
    /// No arguments at all: `#[name]`.
    Empty,
    /// A string-literal value: `#[name = "text"]`.
    Str(String),
    /// A parenthesised, comma-separated meta list: `#[name(a, b)]`.
    List(Vec<MetaItem>),
    /// Arguments in any form not covered above.
    Opaque,
}

/// One attribute of the declaration, as the front end saw it.
#[derive(Debug, Clone)]
pub struct RawAttr {
    /// The attribute's full source text, kept for re-emission.
    pub text: String,
    /// The attribute path when it is a single identifier, `None` otherwise.
    pub name: Option<String>,
    /// The attribute's arguments.
    pub args: AttrArgs,
}

/// One field of the declaration, as the front end saw it.
#[derive(Debug, Clone)]
pub struct RawField {
    /// The field's name; `None` for a tuple-style field.
    pub name: Option<String>,
    /// The field's type, as source text.
    pub ty: String,
    /// The field's attributes.
    pub attrs: Vec<RawAttr>,
}

/// The whole declaration, as the front end saw it.
#[derive(Debug, Clone)]
pub struct RawStruct {
    /// Attributes above the declaration.
    pub attrs: Vec<RawAttr>,
    /// The declaration's visibility, as source text (may be empty).
    pub vis: String,
    /// The declared name.
    pub ident: String,
    /// Whether the declaration carries a where-clause.
    pub has_where_clause: bool,
    /// Whether the declaration carries generic type parameters.
    pub has_type_params: bool,
    /// Whether the declaration carries lifetime parameters.
    pub has_lifetimes: bool,
    /// The declared fields, in order.
    pub fields: Vec<RawField>,
}

/// Why a declaration was rejected.
#[derive(Debug, Clone, Copy, PartialEq, Eq)]
pub enum SchemaError {
    /// The declaration carries a where-clause.
    WhereClause,
    /// The declaration carries generic type parameters.
    GenericTypes,
    /// The declaration carries lifetime parameters.
    GenericLifetimes,
    /// A field has no name.
    UnnamedField,
    /// A field carries an annotation other than `#[ensure(Clone)]`.
    UnsupportedFieldAttr,
}

/// Which storage strategy to generate.
#[derive(Debug, Clone, Copy, PartialEq, Eq)]
pub enum GenStyle {
    /// Fully-allocated: one record with a cell per slot, handlers borrow it.
    PreFilled,
    /// Shape-changing: the record's own field types are the markers.
    Unfilled,
}

/// One validated slot: a named field, its type text, and whether it was
/// annotated to support owned-clone reads.
#[derive(Debug, Clone)]
pub struct SlotField {
    /// The slot's name.
    pub name: String,
    /// The slot's type, as source text.
    pub ty: String,
    /// Whether the slot supports the owned-clone read capability.
    pub ensure_clone: bool,
}

/// A validated, normalized schema: what the generators run on.
#[derive(Debug)]
pub struct CMap {
    /// The remaining declaration attributes (the style switch removed).
    pub attrs: Vec<RawAttr>,
    /// The container's visibility, as source text.
    pub vis: String,
    /// The container's name.
    pub ident: String,
    /// The validated slots, in declaration order.
    pub fields: Vec<SlotField>,
    /// The storage strategy to generate.
    pub style: GenStyle,
}

// ---------------------------------------------------------------------------
// Spec: what validation accepts, and what it produces.
// ---------------------------------------------------------------------------

/// The ASCII-lowercased code of a character (only letters `A`-`Z` change).
pub open spec fn lower_code(c: char) -> int {
    if 65 <= c as int && c as int <= 90 {
        c as int + 32
    } else {
        c as int
    }
}

/// Character sequences equal up to ASCII case.
pub open spec fn eq_ignore_ascii_case_seq(a: Seq<char>, b: Seq<char>) -> bool {
    a.len() == b.len() && (forall|i: int| 0 <= i < a.len() ==> lower_code(a[i]) == lower_code(b[i]))
}

/// A meta item that is exactly the identifier `Clone`.
pub open spec fn meta_is_clone(m: MetaItem) -> bool {
    m matches MetaItem::Ident(s) && s@ == "Clone"@
}

/// The style switch: `#[style = "unfilled"]`, the value compared without
/// regard to ASCII case.
pub open spec fn is_style_unfilled_attr(a: RawAttr) -> bool {
    &&& a.name matches Some(n) && n@ == "style"@
    &&& a.args matches AttrArgs::Str(v) && eq_ignore_ascii_case_seq(v@, "unfilled"@)
}

/// The style a declaration's attribute list selects: the first style switch
/// wins, and without one the fully-allocated strategy is generated.
pub open spec fn style_of(attrs: Seq<RawAttr>) -> GenStyle
    decreases attrs.len(),
{
    if attrs.len() == 0 {
        GenStyle::PreFilled
    } else if is_style_unfilled_attr(attrs[0]) {
        GenStyle::Unfilled
    } else {
        style_of(attrs.skip(1))
    }
}

/// The attribute list with the first style switch (if any) removed.
pub open spec fn without_style(attrs: Seq<RawAttr>) -> Seq<RawAttr>
    decreases attrs.len(),
{
    if attrs.len() == 0 {
        attrs
    } else if is_style_unfilled_attr(attrs[0]) {
        attrs.skip(1)
    } else {
        seq![attrs[0]] + without_style(attrs.skip(1))
    }
}

/// A field's attributes are acceptable: either none, or a leading
/// `#[ensure(...)]` whose every argument is the identifier `Clone`.
pub open spec fn field_attrs_ok(f: RawField) -> bool {
    f.attrs@.len() == 0 || {
        let a = f.attrs@[0];
        &&& a.name matches Some(n) && n@ == "ensure"@
        &&& a.args matches AttrArgs::List(ms) && (forall|i: int|
            0 <= i < ms@.len() ==> meta_is_clone(ms@[i]))
    }
}

/// Whether a field's annotations grant the owned-clone read capability.
pub open spec fn field_ensures_clone(f: RawField) -> bool {
    f.attrs@.len() > 0 && {
        let a = f.attrs@[0];
        a.args matches AttrArgs::List(ms) && (exists|i: int|
            0 <= i < ms@.len() && meta_is_clone(ms@[i]))
    }
}

/// Whether any field of the declaration is unnamed.
pub open spec fn has_unnamed_field(fields: Seq<RawField>) -> bool {
    exists|i: int| 0 <= i < fields.len() && fields[i].name is None
}

/// Whether the declaration is a schema the generator accepts.
pub open spec fn schema_ok(raw: RawStruct) -> bool {
    &&& !raw.has_where_clause
    &&& !raw.has_type_params
    &&& !raw.has_lifetimes
    &&& !has_unnamed_field(raw.fields@)
    &&& forall|i: int| 0 <= i < raw.fields@.len() ==> field_attrs_ok(#[trigger] raw.fields@[i])
}

/// The error a rejected declaration is reported with; the checks run in a
/// fixed order and the first failing one names the error.
pub open spec fn schema_error_of(raw: RawStruct) -> SchemaError
    recommends
        !schema_ok(raw),
{
    if raw.has_where_clause {
        SchemaError::WhereClause
    } else if raw.has_type_params {
        SchemaError::GenericTypes
    } else if raw.has_lifetimes {
        SchemaError::GenericLifetimes
    } else if has_unnamed_field(raw.fields@) {
        SchemaError::UnnamedField
    } else {
        SchemaError::UnsupportedFieldAttr
    }
}

/// What a validated schema holds, slot by slot, relative to the input.
pub open spec fn parsed_matches(m: CMap, raw: RawStruct) -> bool {
    &&& m.ident@ == raw.ident@
    &&& m.vis@ == raw.vis@
    &&& m.style == style_of(raw.attrs@)
    &&& m.attrs@ == without_style(raw.attrs@)
    &&& m.fields@.len() == raw.fields@.len()
    &&& forall|i: int|
        0 <= i < raw.fields@.len() ==> {
            &&& (#[trigger] m.fields@[i]).name@ == raw.fields@[i].name->0@
            &&& m.fields@[i].ty@ == raw.fields@[i].ty@
            &&& m.fields@[i].ensure_clone == field_ensures_clone(raw.fields@[i])
        }
}

// ---------------------------------------------------------------------------
// Exec helpers.
// ---------------------------------------------------------------------------

/// ASCII-lowercase a character's code.
fn lower_char_code(c: char) -> (r: u32)
    ensures
        r == lower_code(c),
{
    let u = c as u32;
    if 65 <= u && u <= 90 {
        u + 32
    } else {
        u
    }
}

/// Compare two strings without regard to ASCII case.
#[verifier::loop_isolation(false)]
pub fn eq_ignore_ascii_case(a: &str, b: &str) -> (r: bool)
    ensures
        r == eq_ignore_ascii_case_seq(a@, b@),
{
    let alen = a.unicode_len();
    let blen = b.unicode_len();
    if alen != blen {
        return false;
    }
    let mut i: usize = 0;
    while i < alen
        invariant
            alen == a@.len(),
            blen == b@.len(),
            alen == blen,
            i <= alen,
            forall|j: int| 0 <= j < i ==> lower_code(a@[j]) == lower_code(b@[j]),
        decreases alen - i,
    {
        let ca = a.get_char(i);
        let cb = b.get_char(i);
        if lower_char_code(ca) != lower_char_code(cb) {
            assert(lower_code(a@[i as int]) != lower_code(b@[i as int]));
            return false;
        }
        i += 1;
    }
    true
}

/// Whether `s` is exactly the text `lit`.
pub(crate) fn string_is(s: &String, lit: &str) -> (r: bool)
    ensures
        r == (s@ == lit@),
{
    let other = lit.to_owned();
    s.eq(&other)
}

/// Whether an attribute is the style switch selecting the unfilled strategy.
fn is_style_attr(a: &RawAttr) -> (r: bool)
    ensures
        r == is_style_unfilled_attr(*a),
{
    let name_matches = match &a.name {
        Some(n) => string_is(n, "style"),
        None => false,
    };
    if !name_matches {
        return false;
    }
    match &a.args {
        AttrArgs::Str(v) => eq_ignore_ascii_case(v.as_str(), "unfilled"),
        _ => false,
    }
}

/// Position of the first style switch in an attribute list, if any.
#[verifier::loop_isolation(false)]
fn find_style_attr(attrs: &Vec<RawAttr>) -> (r: Option<usize>)
    ensures
        match r {
            Some(i) => i < attrs@.len() && is_style_unfilled_attr(attrs@[i as int]) && (forall|
                j: int,
            | 0 <= j < i ==> !is_style_unfilled_attr(attrs@[j])),
            None => forall|j: int| 0 <= j < attrs@.len() ==> !is_style_unfilled_attr(attrs@[j]),
        },
{
    let mut i: usize = 0;
    while i < attrs.len()
        invariant
            i <= attrs@.len(),
            forall|j: int| 0 <= j < i ==> !is_style_unfilled_attr(attrs@[j]),
        decreases attrs@.len() - i,
    {
        if is_style_attr(&attrs[i]) {
            return Some(i);
        }
        i += 1;
    }
    None
}

/// With the first style switch at position `i`, the selected style is the
/// shape-changing one and the remaining attributes are the list with `i`
/// removed.
proof fn lemma_style_found(attrs: Seq<RawAttr>, i: int)
    requires
        0 <= i < attrs.len(),
        is_style_unfilled_attr(attrs[i]),
        forall|j: int| 0 <= j < i ==> !is_style_unfilled_attr(attrs[j]),
    ensures
        style_of(attrs) == GenStyle::Unfilled,
        without_style(attrs) == attrs.remove(i),
    decreases i,
{
    if i == 0 {
        assert(without_style(attrs) == attrs.skip(1));
        assert(attrs.skip(1) =~= attrs.remove(0));
    } else {
        assert(!is_style_unfilled_attr(attrs[0]));
        assert(forall|j: int| 0 <= j < i - 1 ==> attrs.skip(1)[j] == attrs[j + 1]);
        lemma_style_found(attrs.skip(1), i - 1);
        assert(seq![attrs[0]] + attrs.skip(1).remove(i - 1) =~= attrs.remove(i));
    }
}

/// With no style switch present, the fully-allocated style is selected and
/// the attribute list is kept whole.
proof fn lemma_style_none(attrs: Seq<RawAttr>)
    requires
        forall|j: int| 0 <= j < attrs.len() ==> !is_style_unfilled_attr(attrs[j]),
    ensures
        style_of(attrs) == GenStyle::PreFilled,
        without_style(attrs) == attrs,
    decreases attrs.len(),
{
    if attrs.len() > 0 {
        assert(forall|j: int| 0 <= j < attrs.skip(1).len() ==> attrs.skip(1)[j] == attrs[j + 1]);
        lemma_style_none(attrs.skip(1));
        assert(seq![attrs[0]] + attrs.skip(1) =~= attrs);
    }
}

/// Validate one field's attributes; on success, report whether they grant
/// the owned-clone read capability.
#[verifier::loop_isolation(false)]
fn check_field_attrs(f: &RawField) -> (r: Result<bool, SchemaError>)
    ensures
        match r {
            Ok(c) => field_attrs_ok(*f) && c == field_ensures_clone(*f),
            Err(e) => !field_attrs_ok(*f) && e == SchemaError::UnsupportedFieldAttr,
        },
{
    if f.attrs.len() == 0 {
        return Ok(false);
    }
    let a = &f.attrs[0];
    let name_ok = match &a.name {
        Some(n) => string_is(n, "ensure"),
        None => false,
    };
    if !name_ok {
        return Err(SchemaError::UnsupportedFieldAttr);
    }
    match &a.args {
        AttrArgs::List(ms) => {
            let mut i: usize = 0;
            while i < ms.len()
                invariant
                    i <= ms@.len(),
                    forall|j: int| 0 <= j < i ==> meta_is_clone(ms@[j]),
                decreases ms@.len() - i,
            {
                let mi = &ms[i];
                let good = match mi {
                    MetaItem::Ident(s) => string_is(s, "Clone"),
                    MetaItem::Other => false,
                };
                if !good {
                    proof {
                        assert(!meta_is_clone(ms@[i as int]));
                        assert(!field_attrs_ok(*f));
                    }
                    return Err(SchemaError::UnsupportedFieldAttr);
                }
                i += 1;
            }
            if ms.len() > 0 {
                assert(meta_is_clone(ms@[0]));
            }
            Ok(ms.len() > 0)
        },
        _ => Err(SchemaError::UnsupportedFieldAttr),
    }
}

impl SchemaError {
    /// The diagnostic text this error is reported with.
    pub open spec fn message_text(&self) -> Seq<char> {
        match self {
            SchemaError::WhereClause => "generic where clause is not supported"@,
            SchemaError::GenericTypes => "generic types are not supported"@,
            SchemaError::GenericLifetimes => "generic lifetimes are not supported"@,
            SchemaError::UnnamedField => "fields without names are not supported"@,
            SchemaError::UnsupportedFieldAttr => "fields attr now only support #[ensure(Clone)]"@,
        }
    }

    /// The diagnostic the front end reports for this error.
    pub fn message(&self) -> (r: &'static str)
        ensures
            r@ == self.message_text(),
    {
        match self {
            SchemaError::WhereClause => "generic where clause is not supported",
            SchemaError::GenericTypes => "generic types are not supported",
            SchemaError::GenericLifetimes => "generic lifetimes are not supported",
            SchemaError::UnnamedField => "fields without names are not supported",
            SchemaError::UnsupportedFieldAttr => "fields attr now only support #[ensure(Clone)]",
        }
    }
}

/// An attribute of the form `#[name(SomeIdent)]`: the given path, and a
/// parenthesised argument list holding exactly one bare identifier.
pub open spec fn is_single_ident_attr(a: RawAttr, name: Seq<char>) -> bool {
    &&& a.name matches Some(n) && n@ == name
    &&& a.args matches AttrArgs::List(ms) && ms@.len() == 1 && ms@[0] is Ident
}

/// The identifier inside a single-identifier attribute.
pub open spec fn single_ident_of(a: RawAttr) -> Seq<char>
    recommends
        exists|name: Seq<char>| is_single_ident_attr(a, name),
{
    match a.args {
        AttrArgs::List(ms) => match ms[0] {
            MetaItem::Ident(s) => s@,
            MetaItem::Other => Seq::empty(),
        },
        _ => Seq::empty(),
    }
}

/// The identifier carried by the first attribute `#[name(SomeIdent)]` of the
/// list, if any.
pub open spec fn path_attr_of(attrs: Seq<RawAttr>, name: Seq<char>) -> Option<Seq<char>>
    decreases attrs.len(),
{
    if attrs.len() == 0 {
        None
    } else if is_single_ident_attr(attrs[0], name) {
        Some(single_ident_of(attrs[0]))
    } else {
        path_attr_of(attrs.skip(1), name)
    }
}

/// With the first single-identifier attribute of the given path at position
/// `i`, the list's path attribute is that attribute's identifier.
pub proof fn lemma_path_attr_found(attrs: Seq<RawAttr>, name: Seq<char>, i: int)
    requires
        0 <= i < attrs.len(),
        is_single_ident_attr(attrs[i], name),
        forall|j: int| 0 <= j < i ==> !is_single_ident_attr(attrs[j], name),
    ensures
        path_attr_of(attrs, name) == Some(single_ident_of(attrs[i])),
    decreases i,
{
    if i > 0 {
        assert(forall|j: int| 0 <= j < i - 1 ==> attrs.skip(1)[j] == attrs[j + 1]);
        lemma_path_attr_found(attrs.skip(1), name, i - 1);
    }
}

/// With no single-identifier attribute of the given path present, the list
/// has no path attribute.
pub proof fn lemma_path_attr_none(attrs: Seq<RawAttr>, name: Seq<char>)
    requires
        forall|j: int| 0 <= j < attrs.len() ==> !is_single_ident_attr(attrs[j], name),
    ensures
        path_attr_of(attrs, name) is None,
    decreases attrs.len(),
{
    if attrs.len() > 0 {
        assert(forall|j: int| 0 <= j < attrs.skip(1).len() ==> attrs.skip(1)[j] == attrs[j + 1]);
        lemma_path_attr_none(attrs.skip(1), name);
    }
}

/// The identifier of the first `#[name(SomeIdent)]` attribute, tied to the
/// spec-level [`path_attr_of`].
pub fn path_attr_ident(attrs: &Vec<RawAttr>, name: &str) -> (r: Option<String>)
    ensures
        match r {
            Some(s) => path_attr_of(attrs@, name@) matches Some(t) && s@ == t,
            None => path_attr_of(attrs@, name@) is None,
        },
{
    match CMap::find_path_attr(attrs, name) {
        Some((i, s)) => {
            proof {
                lemma_path_attr_found(attrs@, name@, i as int);
            }
            Some(s)
        },
        None => {
            proof {
                lemma_path_attr_none(attrs@, name@);
            }
            None
        },
    }
}

/// Position of the first `#[name(SomeIdent)]` attribute, if any.
pub open spec fn path_attr_idx(attrs: Seq<RawAttr>, name: Seq<char>) -> Option<int>
    decreases attrs.len(),
{
    if attrs.len() == 0 {
        None
    } else if is_single_ident_attr(attrs[0], name) {
        Some(0int)
    } else {
        match path_attr_idx(attrs.skip(1), name) {
            Some(i) => Some(i + 1),
            None => None,
        }
    }
}

/// With the first single-identifier attribute of the given path at position
/// `i`, the list's path attribute position is `i`.
pub proof fn lemma_path_attr_idx_found(attrs: Seq<RawAttr>, name: Seq<char>, i: int)
    requires
        0 <= i < attrs.len(),
        is_single_ident_attr(attrs[i], name),
        forall|j: int| 0 <= j < i ==> !is_single_ident_attr(attrs[j], name),
    ensures
        path_attr_idx(attrs, name) == Some(i),
    decreases i,
{
    if i > 0 {
        assert(forall|j: int| 0 <= j < i - 1 ==> attrs.skip(1)[j] == attrs[j + 1]);
        lemma_path_attr_idx_found(attrs.skip(1), name, i - 1);
    }
}

/// With no single-identifier attribute of the given path present, the list
/// has no path attribute position.
pub proof fn lemma_path_attr_idx_none(attrs: Seq<RawAttr>, name: Seq<char>)
    requires
        forall|j: int| 0 <= j < attrs.len() ==> !is_single_ident_attr(attrs[j], name),
    ensures
        path_attr_idx(attrs, name) is None,
    decreases attrs.len(),
{
    if attrs.len() > 0 {
        assert(forall|j: int| 0 <= j < attrs.skip(1).len() ==> attrs.skip(1)[j] == attrs[j + 1]);
        lemma_path_attr_idx_none(attrs.skip(1), name);
    }
}

impl CMap {
    /// Find the first attribute of the form `#[ident(SomeIdent)]` and return
    /// its position together with the inner identifier.  Attributes whose
    /// path matches but whose arguments are not a single bare identifier are
    /// passed over, and the scan goes on.
    #[verifier::loop_isolation(false)]
    pub fn find_path_attr(attrs: &Vec<RawAttr>, ident: &str) -> (r: Option<(usize, String)>)
        ensures
            match r {
                Some(p) => p.0 < attrs@.len() && is_single_ident_attr(attrs@[p.0 as int], ident@)
                    && p.1@ == single_ident_of(attrs@[p.0 as int]) && (forall|j: int|
                    0 <= j < p.0 ==> !is_single_ident_attr(attrs@[j], ident@)),
                None => forall|j: int|
                    0 <= j < attrs@.len() ==> !is_single_ident_attr(attrs@[j], ident@),
            },
    {
        let mut i: usize = 0;
        while i < attrs.len()
            invariant
                i <= attrs@.len(),
                forall|j: int| 0 <= j < i ==> !is_single_ident_attr(attrs@[j], ident@),
            decreases attrs@.len() - i,
        {
            let a = &attrs[i];
            let name_ok = match &a.name {
                Some(n) => string_is(n, ident),
                None => false,
            };
            if name_ok {
                match &a.args {
                    AttrArgs::List(ms) => {
                        if ms.len() == 1 {
                            match &ms[0] {
                                MetaItem::Ident(s) => {
                                    return Some((i, s.clone()));
                                },
                                MetaItem::Other => {},
                            }
                        }
                    },
                    _ => {},
                }
            }
            i += 1;
        }
        None
    }

    /// Validate a declaration and normalize it into a schema.
    ///
    /// Declarations with a where-clause, generic type parameters, lifetime
    /// parameters, an unnamed field, or a field annotation other than
    /// `#[ensure(Clone)]` are rejected, in that order of checks.  On success
    /// the style switch is stripped from the attribute list and each slot's
    /// owned-clone annotation is folded into the slot itself.
    #[verifier::loop_isolation(false)]
    pub fn parse(raw: RawStruct) -> (r: Result<CMap, SchemaError>)
        ensures
            r is Ok <==> schema_ok(raw),
            r matches Err(e) ==> e == schema_error_of(raw),
            r matches Ok(m) ==> parsed_matches(m, raw),
    {
        if raw.has_where_clause {
            return Err(SchemaError::WhereClause);
        }
        if raw.has_type_params {
            return Err(SchemaError::GenericTypes);
        }
        if raw.has_lifetimes {
            return Err(SchemaError::GenericLifetimes);
        }
        let style_pos = find_style_attr(&raw.attrs);
        let ghost attrs0 = raw.attrs@;
        let RawStruct { attrs: mut attrs, vis, ident, fields: raw_fields, .. } = raw;
        let style = match style_pos {
            Some(i) => {
                proof {
                    lemma_style_found(attrs0, i as int);
                }
                attrs.remove(i);
                GenStyle::Unfilled
            },
            None => {
                proof {
                    lemma_style_none(attrs0);
                }
                GenStyle::PreFilled
            },
        };
        let mut k: usize = 0;
        while k < raw_fields.len()
            invariant
                k <= raw_fields@.len(),
                raw_fields@ == raw.fields@,
                forall|j: int| 0 <= j < k ==> (#[trigger] raw_fields@[j]).name is Some,
            decreases raw_fields@.len() - k,
        {
            if raw_fields[k].name.is_none() {
                proof {
                    assert(raw.fields@[k as int].name is None);
                    assert(has_unnamed_field(raw.fields@));
                }
                return Err(SchemaError::UnnamedField);
            }
            k += 1;
        }
        let mut fields: Vec<SlotField> = Vec::new();
        let mut k: usize = 0;
        while k < raw_fields.len()
            invariant
                k <= raw_fields@.len(),
                raw_fields@ == raw.fields@,
                forall|j: int| 0 <= j < raw_fields@.len() ==> (#[trigger] raw_fields@[j]).name is Some,
                fields@.len() == k,
                forall|j: int| 0 <= j < k ==> field_attrs_ok(#[trigger] raw_fields@[j]),
                forall|j: int|
                    0 <= j < k ==> {
                        &&& (#[trigger] fields@[j]).name@ == raw_fields@[j].name->0@
                        &&& fields@[j].ty@ == raw_fields@[j].ty@
                        &&& fields@[j].ensure_clone == field_ensures_clone(raw_fields@[j])
                    },
            decreases raw_fields@.len() - k,
        {
            let f = &raw_fields[k];
            let ensure_clone = match check_field_attrs(f) {
                Ok(c) => c,
                Err(e) => {
                    proof {
                        assert(forall|i: int|
                            0 <= i < raw.fields@.len() ==> (#[trigger] raw.fields@[i]).name
                                is Some);
                        assert(!has_unnamed_field(raw.fields@));
                        assert(!field_attrs_ok(raw.fields@[k as int]));
                    }
                    return Err(e);
                },
            };
            let name = match &f.name {
                Some(n) => n.clone(),
                None => unreached(),
            };
            fields.push(SlotField { name, ty: f.ty.clone(), ensure_clone });
            k += 1;
        }
        Ok(CMap { attrs, vis, ident, fields, style })
    }
}

} // verus!
