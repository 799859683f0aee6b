use certain_map::schema::{AttrArgs, CMap, GenStyle, MetaItem, RawAttr, RawField, RawStruct};

fn attr(text: &str, name: &str, args: AttrArgs) -> RawAttr {
    RawAttr { text: text.to_string(), name: Some(name.to_string()), args }
}

fn ident_list(names: &[&str]) -> AttrArgs {
    AttrArgs::List(names.iter().map(|n| MetaItem::Ident(n.to_string())).collect())
}

fn field(name: &str, ty: &str) -> RawField {
    RawField { name: Some(name.to_string()), ty: ty.to_string(), attrs: Vec::new() }
}

fn name_age_raw(extra_attrs: Vec<RawAttr>) -> RawStruct {
    let mut age = field("age", "u8");
    age.attrs.push(attr("#[ensure(Clone)]", "ensure", ident_list(&["Clone"])));
    RawStruct {
        attrs: extra_attrs,
        vis: "pub".to_string(),
        ident: "NameAge".to_string(),
        has_where_clause: false,
        has_type_params: false,
        has_lifetimes: false,
        fields: vec![field("name", "String"), age],
    }
}

#[test]
fn prefilled_output_is_valid_rust() {
    let raw = name_age_raw(vec![
        attr("#[derive(Clone)]", "derive", ident_list(&["Clone"])),
        attr("#[empty(EmptyNameAge)]", "empty", ident_list(&["EmptyNameAge"])),
        attr("#[full(FullNameAge)]", "full", ident_list(&["FullNameAge"])),
    ]);
    let m = CMap::parse(raw).unwrap();
    let out = m.to_token_stream();
    if let Err(e) = syn::parse_file(&out) {
        panic!("emitted text does not parse: {} in:\n{}", e, out);
    }
}

#[test]
fn prefilled_emits_record_state_and_handler() {
    let m = CMap::parse(name_age_raw(Vec::new())).unwrap();
    let out = m.to_token_stream();
    assert!(out.contains("pub struct NameAge {\nname: ::core::option::Option<String>,\nage: ::core::option::Option<u8>,\n}\n"));
    assert!(out.contains("pub struct NameAgeState<_CMT_0, _CMT_1>\nwhere\n_CMT_0: ::certain_map::MaybeAvailable,\n_CMT_1: ::certain_map::MaybeAvailable,\n{\nname: ::core::marker::PhantomData<_CMT_0>,\nage: ::core::marker::PhantomData<_CMT_1>,\n}\n"));
    assert!(out.contains("pub struct NameAgeHandler<'a, _CMT_0, _CMT_1>"));
    assert!(out.contains("inner: &'a mut NameAge,\nstate: NameAgeState<_CMT_0, _CMT_1>,"));
}

#[test]
fn prefilled_constructors_start_all_vacant() {
    let m = CMap::parse(name_age_raw(Vec::new())).unwrap();
    let out = m.to_token_stream();
    assert!(out.contains("pub fn new() -> Self {\nSelf {\nname: ::core::option::Option::None,\nage: ::core::option::Option::None,\n}\n}"));
    assert!(out.contains(
        "pub fn handler(&mut self) -> NameAgeHandler<'_, ::certain_map::Vacancy, ::certain_map::Vacancy>"
    ));
    assert!(out.contains("self.name = ::core::option::Option::None;\nself.age = ::core::option::Option::None;\n"));
    assert!(out.contains("impl ::certain_map::Handler for NameAge"));
    assert!(out.contains("impl ::core::default::Default for NameAge"));
}

#[test]
fn prefilled_reads_demand_an_available_marker() {
    let m = CMap::parse(name_age_raw(Vec::new())).unwrap();
    let out = m.to_token_stream();
    assert!(out.contains("impl<_CMT_0, _CMT_1> ::certain_map::ParamRef<String> for NameAgeHandler<'_, _CMT_0, _CMT_1>\nwhere\n_CMT_0: ::certain_map::Available,\n_CMT_1: ::certain_map::MaybeAvailable,\n"));
    assert!(out.contains("impl<_CMT_0, _CMT_1> ::certain_map::ParamRef<u8> for NameAgeHandler<'_, _CMT_0, _CMT_1>\nwhere\n_CMT_1: ::certain_map::Available,\n_CMT_0: ::certain_map::MaybeAvailable,\n"));
    assert!(out.contains("_CMT_0::do_ref(&self.inner.name)"));
    assert!(out.contains("_CMT_1::do_mut(&mut self.inner.age)"));
}

#[test]
fn prefilled_transitions_substitute_one_marker() {
    let m = CMap::parse(name_age_raw(Vec::new())).unwrap();
    let out = m.to_token_stream();
    assert!(out.contains("::certain_map::ParamSet<String> for NameAgeHandler<'a, _CMT_0, _CMT_1>"));
    assert!(out.contains("type Transformed = NameAgeHandler<'a, ::certain_map::OccupiedM, _CMT_1>;\n#[inline]\nfn param_set(mut self, item: String)"));
    assert!(out.contains("type Transformed = NameAgeHandler<'a, _CMT_0, ::certain_map::OccupiedM>;\n#[inline]\nfn param_set(mut self, item: u8)"));
    assert!(out.contains("type Transformed = NameAgeHandler<'a, ::certain_map::Vacancy, _CMT_1>;\n#[inline]\nfn param_take(mut self)"));
    assert!(out.contains("type Transformed = NameAgeHandler<'a, _CMT_0, ::certain_map::Vacancy>;\n#[inline]\nfn param_remove(mut self)"));
}

#[test]
fn prefilled_owned_reads_only_for_annotated_slots() {
    let m = CMap::parse(name_age_raw(Vec::new())).unwrap();
    let out = m.to_token_stream();
    assert!(!out.contains("::certain_map::Param<String>"));
    assert!(out.contains("::certain_map::Param<u8>"));
    assert!(out.contains("::certain_map::Param<::core::option::Option<u8>>"));
    assert!(out.contains("_CMT_1::do_read(&self.inner.age)"));
    assert!(out.contains("_CMT_1::do_maybe_ref(&self.inner.age).cloned()"));
}

#[test]
fn prefilled_without_derive_has_no_fork() {
    let m = CMap::parse(name_age_raw(Vec::new())).unwrap();
    let out = m.to_token_stream();
    assert!(!out.contains("fn fork"));
    assert!(!out.contains("clone_with"));
    assert!(!out.contains("::certain_map::Fork"));
}

#[test]
fn prefilled_derive_clone_emits_fork_and_owned_reads_everywhere() {
    let raw = name_age_raw(vec![attr("#[derive(Clone)]", "derive", ident_list(&["Clone"]))]);
    let m = CMap::parse(raw).unwrap();
    let out = m.to_token_stream();
    assert!(out.contains("fn clone_with<_CMT_0, _CMT_1>(&self, _state: &NameAgeState<_CMT_0, _CMT_1>) -> Self"));
    assert!(out.contains("name: _CMT_0::do_clone(&self.name),\nage: _CMT_1::do_clone(&self.age),"));
    assert!(out.contains("pub fn fork(&self) -> (NameAge, NameAgeState<_CMT_0, _CMT_1>)"));
    assert!(out.contains("impl<_CMT_0, _CMT_1> ::certain_map::Fork for NameAgeHandler<'_, _CMT_0, _CMT_1>"));
    assert!(out.contains("::certain_map::Param<String>"));
}

#[test]
fn prefilled_aliases_fix_every_marker() {
    let raw = name_age_raw(vec![
        attr("#[empty(EmptyNameAge)]", "empty", ident_list(&["EmptyNameAge"])),
        attr("#[full(FullNameAge)]", "full", ident_list(&["FullNameAge"])),
    ]);
    let m = CMap::parse(raw).unwrap();
    let out = m.to_token_stream();
    assert!(out.contains("pub type EmptyNameAge<'a> = NameAgeHandler<'a, ::certain_map::Vacancy, ::certain_map::Vacancy>;\n"));
    assert!(out.contains("pub type FullNameAge<'a> = NameAgeHandler<'a, ::certain_map::OccupiedM, ::certain_map::OccupiedM>;\n"));
}

#[test]
fn prefilled_attach_carries_the_claimed_shape() {
    let m = CMap::parse(name_age_raw(Vec::new())).unwrap();
    let out = m.to_token_stream();
    assert!(out.contains("pub fn attach(self, inner: &mut NameAge) -> NameAgeHandler<'_, _CMT_0, _CMT_1>"));
    assert!(out.contains("impl<_CMT_0, _CMT_1> ::certain_map::Attach<NameAge> for NameAgeState<_CMT_0, _CMT_1>"));
}

#[test]
fn generation_is_deterministic() {
    let m1 = CMap::parse(name_age_raw(Vec::new())).unwrap();
    let m2 = CMap::parse(name_age_raw(Vec::new())).unwrap();
    assert_eq!(m1.to_token_stream(), m2.to_token_stream());
}

fn unfilled_raw() -> RawStruct {
    let mut raw = name_age_raw(vec![
        attr("#[derive(Clone)]", "derive", ident_list(&["Clone"])),
        attr("#[empty(EmptyNameAge)]", "empty", ident_list(&["EmptyNameAge"])),
        attr("#[full(FullNameAge)]", "full", ident_list(&["FullNameAge"])),
    ]);
    raw.attrs.push(attr("#[style = \"unfilled\"]", "style", AttrArgs::Str("unfilled".to_string())));
    raw
}

#[test]
fn unfilled_output_is_valid_rust() {
    let m = CMap::parse(unfilled_raw()).unwrap();
    assert_eq!(m.style, GenStyle::Unfilled);
    let out = m.to_token_stream();
    if let Err(e) = syn::parse_file(&out) {
        panic!("emitted text does not parse: {} in:\n{}", e, out);
    }
}

#[test]
fn unfilled_struct_carries_markers_and_kept_attrs() {
    let m = CMap::parse(unfilled_raw()).unwrap();
    let out = m.to_token_stream();
    assert!(out.contains("#[derive(Clone)]\npub struct NameAge<_CMT_0, _CMT_1> {\nname: _CMT_0,\nage: _CMT_1,\n}\n"));
    assert!(!out.contains("#[empty(EmptyNameAge)]"));
    assert!(!out.contains("#[full(FullNameAge)]"));
    assert!(!out.contains("style"));
}

#[test]
fn unfilled_aliases_have_no_lifetime() {
    let m = CMap::parse(unfilled_raw()).unwrap();
    let out = m.to_token_stream();
    assert!(out.contains("pub type EmptyNameAge = NameAge<::certain_map::Vacancy, ::certain_map::Vacancy>;\n"));
    assert!(out.contains("pub type FullNameAge = NameAge<::certain_map::Occupied<String>, ::certain_map::Occupied<u8>>;\n"));
}

#[test]
fn unfilled_constructor_is_all_vacant() {
    let m = CMap::parse(unfilled_raw()).unwrap();
    let out = m.to_token_stream();
    assert!(out.contains("impl NameAge<::certain_map::Vacancy, ::certain_map::Vacancy> {\npub fn new() -> Self {\nSelf {\nname: ::certain_map::Vacancy,\nage: ::certain_map::Vacancy,\n}\n}\n}\n"));
    assert!(out.contains("impl ::core::default::Default for NameAge<::certain_map::Vacancy, ::certain_map::Vacancy>"));
}

#[test]
fn unfilled_reads_fix_the_occupied_wrapper() {
    let m = CMap::parse(unfilled_raw()).unwrap();
    let out = m.to_token_stream();
    assert!(out.contains("impl<_CMT_1> ::certain_map::ParamRef<String> for NameAge<::certain_map::Occupied<String>, _CMT_1> {\n#[inline]\nfn param_ref(&self) -> &String {\n&self.name.0\n}\n}\n"));
    assert!(out.contains("impl<_CMT_0> ::certain_map::ParamRef<u8> for NameAge<_CMT_0, ::certain_map::Occupied<u8>>"));
    assert!(out.contains("impl<_CMT_1> ::certain_map::ParamMaybeRef<String> for NameAge<::certain_map::Vacancy, _CMT_1> {\n#[inline]\nfn param_maybe_ref(&self) -> ::core::option::Option<&String> {\n::core::option::Option::None\n}\n}\n"));
}

#[test]
fn unfilled_transitions_rebuild_the_record() {
    let m = CMap::parse(unfilled_raw()).unwrap();
    let out = m.to_token_stream();
    assert!(out.contains("impl<_CMT_0, _CMT_1> ::certain_map::ParamSet<String> for NameAge<_CMT_0, _CMT_1> {\ntype Transformed = NameAge<::certain_map::Occupied<String>, _CMT_1>;\n#[inline]\nfn param_set(self, item: String) -> Self::Transformed {\nNameAge {\nname: ::certain_map::Occupied(item),\nage: self.age,\n}\n}\n}\n"));
    assert!(out.contains("type Transformed = NameAge<_CMT_0, ::certain_map::Vacancy>;\n#[inline]\nfn param_remove(self) -> Self::Transformed {\nNameAge {\nname: self.name,\nage: ::certain_map::Vacancy,\n}\n}\n}\n"));
    assert!(out.contains("fn param_take(self) -> (Self::Transformed, String) {\nlet after_remove = NameAge {\nname: ::certain_map::Vacancy,\nage: self.age,\n};\n(after_remove, self.name.0)\n}\n}\n"));
}

#[test]
fn unfilled_owned_reads_only_for_annotated_slots() {
    let m = CMap::parse(unfilled_raw()).unwrap();
    let out = m.to_token_stream();
    assert!(!out.contains("::certain_map::Param<String>"));
    assert!(out.contains("impl<_CMT_0> ::certain_map::Param<u8> for NameAge<_CMT_0, ::certain_map::Occupied<u8>> {\n#[inline]\nfn param(&self) -> u8 {\nself.age.0.clone()\n}\n}\n"));
    assert!(out.contains("impl<_CMT_0> ::certain_map::Param<::core::option::Option<u8>> for NameAge<_CMT_0, ::certain_map::Vacancy> {\n#[inline]\nfn param(&self) -> ::core::option::Option<u8> {\n::core::option::Option::None\n}\n}\n"));
}

#[test]
fn unfilled_consumes_only_the_first_alias_marker() {
    let mut raw = name_age_raw(vec![
        attr("#[empty(FirstEmpty)]", "empty", ident_list(&["FirstEmpty"])),
        attr("#[empty(SecondEmpty)]", "empty", ident_list(&["SecondEmpty"])),
    ]);
    raw.attrs.push(attr("#[style = \"unfilled\"]", "style", AttrArgs::Str("unfilled".to_string())));
    let m = CMap::parse(raw).unwrap();
    let out = m.to_token_stream();
    assert!(out.contains("pub type FirstEmpty = NameAge<::certain_map::Vacancy, ::certain_map::Vacancy>;\n"));
    assert!(!out.contains("SecondEmpty ="));
    assert!(out.contains("#[empty(SecondEmpty)]\npub struct NameAge"));
}

#[test]
fn zero_slot_prefilled_output() {
    let raw = RawStruct {
        attrs: Vec::new(),
        vis: "pub".to_string(),
        ident: "Unit".to_string(),
        has_where_clause: false,
        has_type_params: false,
        has_lifetimes: false,
        fields: Vec::new(),
    };
    let m = CMap::parse(raw).unwrap();
    let out = m.to_token_stream();
    assert!(out.starts_with("pub struct Unit {\n}\n"));
    assert!(out.contains("pub struct UnitState<>\nwhere\n{\n}\n"));
    assert!(out.contains("pub fn handler(&mut self) -> UnitHandler<'_, > {\nUnitHandler {\ninner: self,\nstate: UnitState::new(),\n}\n}\n"));
    assert!(out.ends_with("fn attach(self, store: &mut Unit) -> Self::Hdr<'_> {\nself.attach(store)\n}\n}\n"));
}
