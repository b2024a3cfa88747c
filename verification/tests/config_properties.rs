use niri_lua::derive_plan::{FieldMeta, ItemShape};
use niri_lua::property_plan::{
    config_field_attrs, plan_properties, ConfigField, PropertiesError, PropertyEntry, PropertyKind, ScalarKind,
};

fn meta(path: &str, value: Option<&str>) -> FieldMeta {
    FieldMeta { path: path.to_string(), value: value.map(|v| v.to_string()) }
}

fn field(name: &str, ty: &str, inner: Option<&str>, metas: Vec<FieldMeta>) -> ConfigField {
    ConfigField {
        name: name.to_string(),
        metas,
        attrs_parse: true,
        type_ident: ty.to_string(),
        inner_type_ident: inner.map(|s| s.to_string()),
    }
}

fn plan(prefix: &str, fields: Vec<ConfigField>) -> Vec<PropertyEntry> {
    plan_properties(prefix, ItemShape::NamedStruct, &fields).ok().unwrap()
}

fn has_path(entries: &[PropertyEntry], path: &str) -> bool {
    entries.iter().any(|e| e.path == path)
}

fn has_scalar(entries: &[PropertyEntry], k: ScalarKind) -> bool {
    entries.iter().any(|e| matches!(e.kind, PropertyKind::Scalar(x) if x == k))
}

#[test]
fn test_simple_struct() {
    let entries = plan("cursor", vec![
        field("xcursor_theme", "String", None, vec![]),
        field("xcursor_size", "u8", None, vec![]),
        field("hide_when_typing", "bool", None, vec![]),
    ]);
    assert!(has_path(&entries, "cursor"));
    assert!(has_scalar(&entries, ScalarKind::String));
    assert!(has_scalar(&entries, ScalarKind::Integer));
    assert!(has_scalar(&entries, ScalarKind::Bool));
}

#[test]
fn test_option_field() {
    let entries = plan("test", vec![field("value", "Option", Some("u32"), vec![])]);
    assert!(has_path(&entries, "test.value"));
    assert!(has_scalar(&entries, ScalarKind::Integer));
}

#[test]
fn test_vec_field() {
    let entries = plan("test", vec![field("items", "Vec", Some("String"), vec![])]);
    assert!(entries.iter().any(|e| matches!(e.kind, PropertyKind::Array(_))));
}

#[test]
fn test_skip_field() {
    let entries = plan("test", vec![
        field("visible", "bool", None, vec![]),
        field("hidden", "String", None, vec![meta("skip", None)]),
    ]);
    assert!(has_path(&entries, "test.visible"));
    assert!(!has_path(&entries, "test.hidden"));
}

#[test]
fn test_rename_field() {
    let entries = plan("test", vec![field("original", "bool", None, vec![meta("rename", Some("custom_name"))])]);
    assert!(has_path(&entries, "test.custom_name"));
    assert!(!has_path(&entries, "test.original"));
}

#[test]
fn test_no_signal() {
    let entries = plan("test", vec![field("quiet", "bool", None, vec![meta("no_signal", None)])]);
    assert!(entries.iter().any(|e| e.no_signal));
}

#[test]
fn test_enum_type() {
    let metas = vec![meta("enum_type", None), meta("variants", Some("left, center, right"))];
    let entries = plan("test", vec![field("alignment", "Alignment", None, metas)]);
    assert!(entries.iter().any(|e| matches!(e.kind, PropertyKind::Enum { .. })));
}

#[test]
fn test_nested_struct() {
    let entries = plan("layout", vec![field("gaps", "Gaps", None, vec![])]);
    assert!(has_path(&entries, "layout.gaps"));
    assert!(has_scalar(&entries, ScalarKind::Nested));
}

#[test]
fn properties_entries_in_order_with_prefix_first() {
    let entries = plan("cursor", vec![
        field("xcursor_size", "u8", None, vec![]),
        field("scale", "f64", None, vec![]),
    ]);
    assert_eq!(entries.len(), 3);
    assert_eq!(entries[0].path, "cursor");
    assert!(matches!(entries[0].kind, PropertyKind::Scalar(ScalarKind::Nested)));
    assert!(!entries[0].no_signal);
    assert_eq!(entries[1].path, "cursor.xcursor_size");
    assert_eq!(entries[2].path, "cursor.scale");
    assert!(matches!(entries[2].kind, PropertyKind::Scalar(ScalarKind::Number)));
}

#[test]
fn properties_enum_variants_are_trimmed() {
    let metas = vec![meta("enum_type", None), meta("variants", Some(" left,center , right "))];
    let entries = plan("test", vec![field("alignment", "Alignment", None, metas)]);
    match &entries[1].kind {
        PropertyKind::Enum { name, variants } => {
            assert_eq!(name, "Alignment");
            assert_eq!(variants, &vec!["left".to_string(), "center".to_string(), "right".to_string()]);
        }
        _ => panic!("expected an enum property"),
    }
}

#[test]
fn properties_refusals() {
    let none: Vec<ConfigField> = vec![];
    assert!(matches!(plan_properties("", ItemShape::NamedStruct, &none), Err(PropertiesError::EmptyPrefix)));
    assert!(matches!(plan_properties("x", ItemShape::NotStruct, &none), Err(PropertiesError::NotStruct)));
    assert!(matches!(plan_properties("x", ItemShape::OtherStruct, &none), Err(PropertiesError::NotNamed)));
    let fields = vec![field("a", "bool", None, vec![]), field("b", "Option", None, vec![])];
    assert!(matches!(plan_properties("x", ItemShape::NamedStruct, &fields), Err(PropertiesError::MissingInnerType(1))));
    let mut bad = field("a", "bool", None, vec![]);
    bad.attrs_parse = false;
    assert!(matches!(plan_properties("x", ItemShape::NamedStruct, &[bad]), Err(PropertiesError::BadAttributes(0))));
}

#[test]
fn field_attrs_last_rename_wins() {
    let a = config_field_attrs(&[meta("rename", Some("one")), meta("skip", None), meta("rename", Some("two"))]);
    assert!(a.skip);
    assert!(!a.no_signal);
    assert!(!a.enum_type);
    assert_eq!(a.rename.as_deref(), Some("two"));
    assert!(a.enum_variants.is_none());
}
