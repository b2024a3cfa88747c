use niri_lua::derive_plan::{
    infer_kind, is_option_type, parse_field_attrs, plan_dirty_flags, plan_from_lua_table, plan_lua_enum,
    to_kebab_case, DirtyFlagsError, EnumVariant, ExtractKind, FieldMeta, FlagField, FromLuaError, ItemShape,
    LuaEnumError, TableField,
};
use niri_lua::rename::{apply_rename, generate_enum_name, to_pascal_case, RenameAll};

fn meta(path: &str, value: Option<&str>) -> FieldMeta {
    FieldMeta { path: path.to_string(), value: value.map(|v| v.to_string()) }
}

fn table_field(name: &str, ty: &str, metas: Vec<FieldMeta>, has_item_type: bool) -> TableField {
    TableField { name: name.to_string(), ty: ty.to_string(), metas, has_item_type }
}

fn variant(ident: &str, rename: Option<&str>) -> EnumVariant {
    EnumVariant { ident: ident.to_string(), unit: true, attrs_parse: true, rename: rename.map(|s| s.to_string()) }
}

#[test]
fn infer_kind_by_type_text() {
    assert_eq!(infer_kind("bool"), ExtractKind::Bool);
    assert_eq!(infer_kind("String"), ExtractKind::String);
    assert_eq!(infer_kind("Option < String >"), ExtractKind::String);
    assert_eq!(infer_kind("u16"), ExtractKind::Int);
    assert_eq!(infer_kind("usize"), ExtractKind::Int);
    assert_eq!(infer_kind("f64"), ExtractKind::Float);
    assert_eq!(infer_kind("Color"), ExtractKind::Color);
    assert_eq!(infer_kind("Vec < Gradient >"), ExtractKind::Vec);
    assert_eq!(infer_kind("Option < bool >"), ExtractKind::Bool);
    assert_eq!(infer_kind("Option < Gradient >"), ExtractKind::Nested);
    assert_eq!(infer_kind("Gradient"), ExtractKind::Nested);
    assert_eq!(infer_kind("Option < usize >"), ExtractKind::Int);
}

#[test]
fn option_type_text() {
    assert!(is_option_type("Option < u8 >"));
    assert!(!is_option_type("Vec < u8 >"));
}

#[test]
fn field_kebab_names() {
    assert_eq!(to_kebab_case("active_color"), "active-color");
    assert_eq!(to_kebab_case("activeColor"), "active-color");
    assert_eq!(to_kebab_case("Width"), "width");
}

#[test]
fn field_attrs_choose_kind_and_name() {
    let (kind, name, item) = parse_field_attrs("width", "f64", &[], false);
    assert_eq!(kind, ExtractKind::Float);
    assert_eq!(name, "width");
    assert!(!item);
    let (kind, name, _) = parse_field_attrs("active_gradient", "Option < Gradient >", &[meta("nested", None), meta("rename", Some("gradient"))], false);
    assert_eq!(kind, ExtractKind::Nested);
    assert_eq!(name, "gradient");
    let (kind, _, item) = parse_field_attrs("items", "Vec < Item >", &[], true);
    assert_eq!(kind, ExtractKind::Vec);
    assert!(item);
    let (kind, _, item) = parse_field_attrs("items", "Vec < Item >", &[meta("vec", None)], true);
    assert_eq!(kind, ExtractKind::Vec);
    assert!(!item);
}

#[test]
fn from_lua_table_plan() {
    let fields = vec![
        table_field("width", "f64", vec![meta("float", None)], false),
        table_field("internal", "SomeType", vec![meta("skip", None)], false),
        table_field("active_gradient", "Option < Gradient >", vec![meta("nested", None)], false),
    ];
    let plans = plan_from_lua_table(ItemShape::NamedStruct, &fields).ok().unwrap();
    assert_eq!(plans.len(), 2);
    assert_eq!(plans[0].name, "width");
    assert_eq!(plans[0].lua_name, "width");
    assert_eq!(plans[0].kind, ExtractKind::Float);
    assert!(!plans[0].is_option);
    assert_eq!(plans[1].lua_name, "active-gradient");
    assert!(plans[1].is_option);
}

#[test]
fn from_lua_table_refusals() {
    let none: Vec<TableField> = vec![];
    assert_eq!(plan_from_lua_table(ItemShape::NotStruct, &none).err(), Some(FromLuaError::NotStruct));
    assert_eq!(plan_from_lua_table(ItemShape::OtherStruct, &none).err(), Some(FromLuaError::NotNamed));
    let fields = vec![table_field("a", "bool", vec![], false), table_field("items", "Vec < Item >", vec![meta("vec", None)], true)];
    assert_eq!(plan_from_lua_table(ItemShape::NamedStruct, &fields).err(), Some(FromLuaError::MissingItemType(1)));
}

#[test]
fn dirty_flags_plan() {
    let fields = vec![
        FlagField { name: "input".to_string(), is_bool: true },
        FlagField { name: "window_rules".to_string(), is_bool: true },
    ];
    let plan = plan_dirty_flags("ConfigDirtyFlags", ItemShape::NamedStruct, &fields).ok().unwrap();
    assert_eq!(plan.enum_name, "ConfigDirtyFlag");
    assert_eq!(plan.variants, vec![
        ("input".to_string(), "Input".to_string()),
        ("window_rules".to_string(), "WindowRules".to_string()),
    ]);
}

#[test]
fn dirty_flags_refusals() {
    let fields = vec![
        FlagField { name: "a".to_string(), is_bool: true },
        FlagField { name: "b".to_string(), is_bool: false },
    ];
    assert_eq!(plan_dirty_flags("F", ItemShape::NamedStruct, &fields).err(), Some(DirtyFlagsError::NotBool(1)));
    assert_eq!(plan_dirty_flags("F", ItemShape::NotStruct, &fields).err(), Some(DirtyFlagsError::NotStruct));
    assert_eq!(plan_dirty_flags("F", ItemShape::OtherStruct, &fields).err(), Some(DirtyFlagsError::NotNamed));
}

#[test]
fn enum_names_from_struct_names() {
    assert_eq!(generate_enum_name("ConfigDirtyFlags"), "ConfigDirtyFlag");
    assert_eq!(generate_enum_name("ConfigDirtys"), "ConfigDirtyFlag");
    assert_eq!(generate_enum_name("ConfigDirty"), "ConfigDirtyFlag");
    assert_eq!(to_pascal_case("layout_gaps"), "LayoutGaps");
    assert_eq!(to_pascal_case("a__b"), "AB");
}

#[test]
fn lua_enum_plan() {
    let variants = vec![variant("Never", None), variant("OnOverflow", None), variant("Always", Some("yes"))];
    let plan = plan_lua_enum(true, &variants, RenameAll::KebabCase).ok().unwrap();
    assert_eq!(plan.names, vec!["never".to_string(), "on-overflow".to_string(), "yes".to_string()]);
    assert_eq!(plan.error_message, "Expected one of: never, on-overflow, yes");
    let snake = plan_lua_enum(true, &variants[..2], RenameAll::SnakeCase).ok().unwrap();
    assert_eq!(snake.names, vec!["never".to_string(), "on_overflow".to_string()]);
    let upper = plan_lua_enum(true, &variants[..2], RenameAll::ScreamingSnakeCase).ok().unwrap();
    assert_eq!(upper.names, vec!["NEVER".to_string(), "ON_OVERFLOW".to_string()]);
    assert_eq!(apply_rename("OnOverflow", RenameAll::KebabCase), "on-overflow");
}

#[test]
fn lua_enum_refusals() {
    let mut with_fields = variant("B", None);
    with_fields.unit = false;
    let mut bad_attrs = variant("C", None);
    bad_attrs.attrs_parse = false;
    let variants = vec![variant("A", None), bad_attrs, with_fields];
    assert_eq!(plan_lua_enum(true, &variants, RenameAll::KebabCase).err(), Some(LuaEnumError::BadAttributes(1)));
    assert_eq!(plan_lua_enum(false, &variants, RenameAll::KebabCase).err(), Some(LuaEnumError::NotEnum));
    assert_eq!(plan_lua_enum(true, &variants[2..], RenameAll::KebabCase).err(), Some(LuaEnumError::NotUnit(0)));
}

#[test]
fn kebab_and_pascal_names() {
    assert_eq!(niri_lua::derive_plan::to_kebab_case("window_open"), "window-open");
    assert_eq!(niri_lua::derive_plan::to_kebab_case("WindowOpen"), "window-open");
    assert_eq!(niri_lua::derive_plan::to_kebab_case("accelSpeed"), "accel-speed");
    assert_eq!(niri_lua::derive_plan::to_kebab_case("off"), "off");
    for (snake, pascal) in [
        ("input", "Input"),
        ("layout", "Layout"),
        ("animations", "Animations"),
        ("window_rules", "WindowRules"),
        ("xwayland_satellite", "XwaylandSatellite"),
    ] {
        assert_eq!(niri_lua::rename::to_pascal_case(snake), pascal);
        assert_eq!(niri_lua::derive_plan::to_kebab_case(pascal), snake.replace('_', "-"));
    }
}
