use niri_lua::accessors::{
    accessor_lookup, assign_property, input_shape, read_property, write_property, AccessorKind, ChoiceSet, InputShape,
    IntRange, PropertyError, PropertyInput, PropertyOutput,
};
use niri_lua::dirty::{ConfigDirtyFlags, DirtyFlag};
use niri_lua::json::JsonNumber;
use niri_lua::pending::Setting;
use niri_lua::settings::SettingValue;

fn text(r: Option<PropertyOutput<f64>>) -> Option<String> {
    match r {
        Some(PropertyOutput::Text(s)) => Some(s),
        _ => None,
    }
}

#[test]
fn lookup_of_properties() {
    assert_eq!(accessor_lookup("layout.gaps"), Some(("layout.gaps", AccessorKind::Number)));
    assert_eq!(accessor_lookup("layout.shadow.off"), Some(("layout.shadow.on", AccessorKind::InvertedFlag)));
    assert_eq!(accessor_lookup("cursor.xcursor_size"), Some(("cursor.xcursor_size", AccessorKind::Integer(IntRange::U8))));
    assert_eq!(
        accessor_lookup("input.touchpad.scroll_method"),
        Some((
            "input.touchpad.scroll_method",
            AccessorKind::Choice { set: ChoiceSet::ScrollMethod, optional: true, normalize: true }
        ))
    );
    assert_eq!(accessor_lookup("layout.nope"), None);
    assert_eq!(input_shape(AccessorKind::InvertedFlag), InputShape::Flag);
    assert_eq!(
        input_shape(AccessorKind::Choice { set: ChoiceSet::CenterFocusedColumn, optional: false, normalize: false }),
        InputShape::Text
    );
}

#[test]
fn number_and_flag_read_back() {
    let mut s: Vec<Setting<f64>> = Vec::new();
    assert!(write_property(&mut s, "layout.gaps", PropertyInput::Number(20.0)).is_ok());
    assert!(matches!(read_property(&s, &Vec::new(), "layout.gaps"), Some(PropertyOutput::Number(n)) if n == 20.0));
    assert!(write_property(&mut s, "layout.always_center_single_column", PropertyInput::Flag(true)).is_ok());
    assert!(matches!(read_property(&s, &Vec::new(), "layout.always_center_single_column"), Some(PropertyOutput::Boolean(true))));
    // Never written: the default is not recorded.
    assert!(read_property(&s, &Vec::new(), "layout.border.width").is_none());
}

#[test]
fn shadow_off_is_stored_inverted() {
    let mut s: Vec<Setting<f64>> = Vec::new();
    assert!(write_property(&mut s, "layout.shadow.off", PropertyInput::Flag(true)).is_ok());
    assert!(matches!(read_property(&s, &Vec::new(), "layout.shadow.on"), Some(PropertyOutput::Boolean(false))));
    assert!(matches!(read_property(&s, &Vec::new(), "layout.shadow.off"), Some(PropertyOutput::Boolean(true))));
    assert!(write_property(&mut s, "layout.shadow.on", PropertyInput::Flag(true)).is_ok());
    assert!(matches!(read_property(&s, &Vec::new(), "layout.shadow.off"), Some(PropertyOutput::Boolean(false))));
    assert_eq!(s.len(), 1);
}

#[test]
fn choices() {
    let mut s: Vec<Setting<f64>> = Vec::new();
    let r = write_property(&mut s, "layout.center_focused_column", PropertyInput::Text("on_overflow".to_string()));
    assert!(r.is_ok());
    assert_eq!(text(read_property(&s, &Vec::new(), "layout.center_focused_column")).as_deref(), Some("on_overflow"));
    match write_property(&mut s, "layout.center_focused_column", PropertyInput::Text("on-overflow".to_string())) {
        Err(PropertyError::InvalidChoice(m)) => assert_eq!(m, "invalid layout.center_focused_column value: on-overflow"),
        _ => panic!("expected an invalid choice"),
    }
    // A normalizing choice accepts dashes and capitals.
    assert!(write_property(&mut s, "input.touchpad.scroll_method", PropertyInput::OptionalText(Some("Two-Finger".to_string()))).is_ok());
    assert_eq!(text(read_property(&s, &Vec::new(), "input.touchpad.scroll_method")).as_deref(), Some("two_finger"));
    match write_property(&mut s, "input.touchpad.scroll_method", PropertyInput::OptionalText(Some("Sideways".to_string()))) {
        Err(PropertyError::InvalidChoice(m)) => assert_eq!(m, "invalid input.touchpad.scroll_method value: sideways"),
        _ => panic!("expected an invalid choice"),
    }
    assert!(write_property(&mut s, "input.touchpad.scroll_method", PropertyInput::OptionalText(None)).is_ok());
    assert!(matches!(read_property(&s, &Vec::new(), "input.touchpad.scroll_method"), Some(PropertyOutput::Nil)));
}

#[test]
fn integers_and_refusals() {
    let mut s: Vec<Setting<f64>> = Vec::new();
    assert!(write_property(&mut s, "cursor.xcursor_size", PropertyInput::Integer(24)).is_ok());
    assert!(matches!(read_property(&s, &Vec::new(), "cursor.xcursor_size"), Some(PropertyOutput::Integer(24))));
    assert!(matches!(write_property(&mut s, "cursor.xcursor_size", PropertyInput::Integer(256)), Err(PropertyError::OutOfRange)));
    assert!(matches!(write_property(&mut s, "cursor.xcursor_size", PropertyInput::Integer(-1)), Err(PropertyError::OutOfRange)));
    assert!(matches!(read_property(&s, &Vec::new(), "cursor.xcursor_size"), Some(PropertyOutput::Integer(24))));
    assert!(matches!(write_property(&mut s, "cursor.xcursor_size", PropertyInput::Flag(true)), Err(PropertyError::WrongInput)));
    assert!(matches!(write_property(&mut s, "no.such.path", PropertyInput::Flag(true)), Err(PropertyError::Unknown)));
    assert!(write_property(&mut s, "cursor.hide_after_inactive_ms", PropertyInput::OptionalInteger(None)).is_ok());
    assert!(matches!(read_property(&s, &Vec::new(), "cursor.hide_after_inactive_ms"), Some(PropertyOutput::Nil)));
    assert!(write_property(&mut s, "screenshot_path", PropertyInput::OptionalText(Some("~/shot.png".to_string()))).is_ok());
    assert_eq!(text(read_property(&s, &Vec::new(), "screenshot_path")).as_deref(), Some("~/shot.png"));
}

#[test]
fn newindex_sets_value_and_marks_dirty() {
    let mut s: Vec<Setting<f64>> = Vec::new();
    let mut flags = ConfigDirtyFlags::default();
    assert!(assign_property(&mut s, &mut flags, "layout.gaps", DirtyFlag::Layout, PropertyInput::Number(20.0)).is_ok());
    assert!(matches!(read_property(&s, &Vec::new(), "layout.gaps"), Some(PropertyOutput::Number(n)) if n == 20.0));
    assert!(flags.layout);
    assert_eq!(flags.take_dirty_paths(), vec!["layout.gaps".to_string()]);
    // A refused value marks nothing.
    let mut clean = ConfigDirtyFlags::default();
    assert!(assign_property(&mut s, &mut clean, "cursor.xcursor_size", DirtyFlag::Cursor, PropertyInput::Integer(999)).is_err());
    assert!(!clean.any());
}

#[test]
fn unset_properties_read_the_configuration_values() {
    // The configuration's values before any change: shadows on, gaps 16.
    let defaults: Vec<Setting<f64>> = vec![
        Setting { field: "layout.shadow.on", value: SettingValue::Flag(true) },
        Setting { field: "layout.gaps", value: SettingValue::Number(JsonNumber::Float(16.0)) },
    ];
    let mut s: Vec<Setting<f64>> = Vec::new();
    assert!(matches!(read_property(&s, &defaults, "layout.shadow.off"), Some(PropertyOutput::Boolean(false))));
    assert!(matches!(read_property(&s, &defaults, "layout.gaps"), Some(PropertyOutput::Number(n)) if n == 16.0));
    assert!(write_property(&mut s, "layout.gaps", PropertyInput::Number(20.0)).is_ok());
    assert!(matches!(read_property(&s, &defaults, "layout.gaps"), Some(PropertyOutput::Number(n)) if n == 20.0));
}

#[test]
fn values_recorded_by_pending_changes_read_back() {
    let s: Vec<Setting<f64>> = vec![
        Setting { field: "layout.center_focused_column", value: SettingValue::Word(Some("on-overflow")) },
        Setting { field: "layout.gaps", value: SettingValue::Number(JsonNumber::PosInt(24)) },
    ];
    assert_eq!(text(read_property(&s, &Vec::new(), "layout.center_focused_column")).as_deref(), Some("on_overflow"));
    assert!(matches!(read_property(&s, &Vec::new(), "layout.gaps"), Some(PropertyOutput::Integer(24))));
}

#[test]
fn center_focused_column_words_round_trip() {
    for word in ["never", "always", "on_overflow"] {
        let mut s: Vec<Setting<f64>> = Vec::new();
        assert!(write_property(&mut s, "layout.center_focused_column", PropertyInput::Text(word.to_string())).is_ok());
        assert_eq!(text(read_property(&s, &Vec::new(), "layout.center_focused_column")).as_deref(), Some(word));
    }
}
