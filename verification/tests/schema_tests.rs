use certain_map::schema::{AttrArgs, CMap, GenStyle, MetaItem, RawAttr, RawField, RawStruct,
    SchemaError};

fn attr(text: &str, name: &str, args: AttrArgs) -> RawAttr {
    RawAttr { text: text.to_string(), name: Some(name.to_string()), args }
}

fn ident_list(names: &[&str]) -> AttrArgs {
    AttrArgs::List(names.iter().map(|n| MetaItem::Ident(n.to_string())).collect())
}

fn field(name: &str, ty: &str) -> RawField {
    RawField { name: Some(name.to_string()), ty: ty.to_string(), attrs: Vec::new() }
}

fn plain_struct(fields: Vec<RawField>) -> RawStruct {
    RawStruct {
        attrs: Vec::new(),
        vis: "pub".to_string(),
        ident: "MyMap".to_string(),
        has_where_clause: false,
        has_type_params: false,
        has_lifetimes: false,
        fields,
    }
}

#[test]
fn accepts_plain_schema() {
    let raw = plain_struct(vec![field("name", "String"), field("age", "u8")]);
    let m = CMap::parse(raw).unwrap();
    assert_eq!(m.ident, "MyMap");
    assert_eq!(m.vis, "pub");
    assert_eq!(m.style, GenStyle::PreFilled);
    assert_eq!(m.fields.len(), 2);
    assert_eq!(m.fields[0].name, "name");
    assert_eq!(m.fields[0].ty, "String");
    assert!(!m.fields[0].ensure_clone);
}

#[test]
fn rejects_where_clause() {
    let mut raw = plain_struct(vec![field("a", "u8")]);
    raw.has_where_clause = true;
    assert_eq!(CMap::parse(raw).unwrap_err(), SchemaError::WhereClause);
}

#[test]
fn rejects_type_params() {
    let mut raw = plain_struct(vec![field("a", "u8")]);
    raw.has_type_params = true;
    assert_eq!(CMap::parse(raw).unwrap_err(), SchemaError::GenericTypes);
}

#[test]
fn rejects_lifetimes() {
    let mut raw = plain_struct(vec![field("a", "u8")]);
    raw.has_lifetimes = true;
    assert_eq!(CMap::parse(raw).unwrap_err(), SchemaError::GenericLifetimes);
}

#[test]
fn where_clause_reported_first() {
    let mut raw = plain_struct(vec![RawField { name: None, ty: "u8".to_string(), attrs: Vec::new() }]);
    raw.has_where_clause = true;
    raw.has_type_params = true;
    raw.has_lifetimes = true;
    assert_eq!(CMap::parse(raw).unwrap_err(), SchemaError::WhereClause);
}

#[test]
fn rejects_unnamed_field() {
    let raw = plain_struct(vec![
        field("a", "u8"),
        RawField { name: None, ty: "u8".to_string(), attrs: Vec::new() },
    ]);
    assert_eq!(CMap::parse(raw).unwrap_err(), SchemaError::UnnamedField);
}

#[test]
fn unnamed_field_reported_before_bad_attr() {
    let mut bad = field("a", "u8");
    bad.attrs.push(attr("#[serde(skip)]", "serde", ident_list(&["skip"])));
    let raw = plain_struct(vec![
        bad,
        RawField { name: None, ty: "u8".to_string(), attrs: Vec::new() },
    ]);
    assert_eq!(CMap::parse(raw).unwrap_err(), SchemaError::UnnamedField);
}

#[test]
fn rejects_non_ensure_field_attr() {
    let mut f = field("a", "u8");
    f.attrs.push(attr("#[serde(skip)]", "serde", ident_list(&["skip"])));
    let raw = plain_struct(vec![f]);
    assert_eq!(CMap::parse(raw).unwrap_err(), SchemaError::UnsupportedFieldAttr);
}

#[test]
fn rejects_ensure_with_other_ident() {
    let mut f = field("a", "u8");
    f.attrs.push(attr("#[ensure(Debug)]", "ensure", ident_list(&["Debug"])));
    let raw = plain_struct(vec![f]);
    assert_eq!(CMap::parse(raw).unwrap_err(), SchemaError::UnsupportedFieldAttr);
}

#[test]
fn rejects_ensure_with_clone_and_other() {
    let mut f = field("a", "u8");
    f.attrs.push(attr("#[ensure(Clone, Debug)]", "ensure", ident_list(&["Clone", "Debug"])));
    let raw = plain_struct(vec![f]);
    assert_eq!(CMap::parse(raw).unwrap_err(), SchemaError::UnsupportedFieldAttr);
}

#[test]
fn rejects_ensure_with_non_list_args() {
    let mut f = field("a", "u8");
    f.attrs.push(attr("#[ensure = \"Clone\"]", "ensure", AttrArgs::Str("Clone".to_string())));
    let raw = plain_struct(vec![f]);
    assert_eq!(CMap::parse(raw).unwrap_err(), SchemaError::UnsupportedFieldAttr);
}

#[test]
fn ensure_clone_sets_slot_flag() {
    let mut f = field("age", "u8");
    f.attrs.push(attr("#[ensure(Clone)]", "ensure", ident_list(&["Clone"])));
    let raw = plain_struct(vec![field("name", "String"), f]);
    let m = CMap::parse(raw).unwrap();
    assert!(!m.fields[0].ensure_clone);
    assert!(m.fields[1].ensure_clone);
}

#[test]
fn empty_ensure_list_is_accepted_without_clone() {
    let mut f = field("age", "u8");
    f.attrs.push(attr("#[ensure()]", "ensure", AttrArgs::List(Vec::new())));
    let raw = plain_struct(vec![f]);
    let m = CMap::parse(raw).unwrap();
    assert!(!m.fields[0].ensure_clone);
}

#[test]
fn style_attr_selects_unfilled_and_is_removed() {
    let mut raw = plain_struct(vec![field("a", "u8")]);
    raw.attrs.push(attr("#[derive(Clone)]", "derive", ident_list(&["Clone"])));
    raw.attrs.push(attr("#[style = \"unfilled\"]", "style", AttrArgs::Str("unfilled".to_string())));
    let m = CMap::parse(raw).unwrap();
    assert_eq!(m.style, GenStyle::Unfilled);
    assert_eq!(m.attrs.len(), 1);
    assert_eq!(m.attrs[0].text, "#[derive(Clone)]");
}

#[test]
fn style_value_is_case_insensitive() {
    let mut raw = plain_struct(vec![field("a", "u8")]);
    raw.attrs.push(attr("#[style = \"UnFiLLeD\"]", "style", AttrArgs::Str("UnFiLLeD".to_string())));
    let m = CMap::parse(raw).unwrap();
    assert_eq!(m.style, GenStyle::Unfilled);
}

#[test]
fn other_style_value_keeps_prefilled_and_the_attr() {
    let mut raw = plain_struct(vec![field("a", "u8")]);
    raw.attrs.push(attr("#[style = \"other\"]", "style", AttrArgs::Str("other".to_string())));
    let m = CMap::parse(raw).unwrap();
    assert_eq!(m.style, GenStyle::PreFilled);
    assert_eq!(m.attrs.len(), 1);
}

#[test]
fn find_path_attr_returns_first_single_ident_match() {
    let attrs = vec![
        attr("#[doc = \"x\"]", "doc", AttrArgs::Str("x".to_string())),
        attr("#[empty(EmptyMap)]", "empty", ident_list(&["EmptyMap"])),
        attr("#[empty(Other)]", "empty", ident_list(&["Other"])),
    ];
    let (idx, id) = CMap::find_path_attr(&attrs, "empty").unwrap();
    assert_eq!(idx, 1);
    assert_eq!(id, "EmptyMap");
}

#[test]
fn find_path_attr_passes_over_multi_ident_lists() {
    let attrs = vec![
        attr("#[derive(Clone, Debug)]", "derive", ident_list(&["Clone", "Debug"])),
        attr("#[derive(Hash)]", "derive", ident_list(&["Hash"])),
    ];
    let (idx, id) = CMap::find_path_attr(&attrs, "derive").unwrap();
    assert_eq!(idx, 1);
    assert_eq!(id, "Hash");
}

#[test]
fn find_path_attr_reports_no_match() {
    let attrs = vec![attr("#[doc = \"x\"]", "doc", AttrArgs::Str("x".to_string()))];
    assert!(CMap::find_path_attr(&attrs, "empty").is_none());
}

#[test]
fn error_messages_match_diagnostics() {
    assert_eq!(SchemaError::WhereClause.message(), "generic where clause is not supported");
    assert_eq!(SchemaError::GenericTypes.message(), "generic types are not supported");
    assert_eq!(SchemaError::GenericLifetimes.message(), "generic lifetimes are not supported");
    assert_eq!(SchemaError::UnnamedField.message(), "fields without names are not supported");
    assert_eq!(
        SchemaError::UnsupportedFieldAttr.message(),
        "fields attr now only support #[ensure(Clone)]"
    );
}
