use niri_lua::color::color_from_components;
use niri_lua::rename::{EnumAttrs, RenameAll};
use niri_lua::values::{
    parse_block_out_from, parse_column_display, parse_hsync_polarity, parse_layout_switch_target,
    parse_output_transform, parse_position_change_str, parse_size_change, parse_size_change_string,
    parse_transform, parse_vsync_polarity, transform_or_normal, transform_to_name, vrr_from_collection_text,
    vrr_from_output_text, workspace_reference_from_text, BlockOutFrom, ColumnDisplay, HSyncPolarity,
    LayoutSwitchTarget, PositionChange, PositionChangeError, SizeChange, Transform, VSyncPolarity, Vrr,
    WorkspaceReferenceArg,
};

#[test]
fn color_components_default_and_truncate() {
    let c = color_from_components(Some(10), None, Some(300), None);
    assert_eq!((c.r, c.g, c.b, c.a), (10, 0, 44, 255));
    let c = color_from_components(None, Some(1), Some(2), Some(3));
    assert_eq!((c.r, c.g, c.b, c.a), (0, 1, 2, 3));
}

#[test]
fn workspace_text_is_index_or_name() {
    assert!(matches!(workspace_reference_from_text("3"), WorkspaceReferenceArg::Index(3)));
    assert!(matches!(workspace_reference_from_text("+7"), WorkspaceReferenceArg::Index(7)));
    assert!(matches!(workspace_reference_from_text("300"), WorkspaceReferenceArg::Name(ref n) if n == "300"));
    assert!(matches!(workspace_reference_from_text("chat"), WorkspaceReferenceArg::Name(ref n) if n == "chat"));
}

#[test]
fn transforms_by_name() {
    assert_eq!(parse_output_transform("flipped-90"), Some(Transform::Flipped90));
    assert_eq!(parse_output_transform("Flipped"), None);
    assert_eq!(parse_transform("Flipped"), Some(Transform::Flipped));
    assert_eq!(parse_transform("0"), Some(Transform::Normal));
    assert_eq!(transform_or_normal("sideways"), Transform::Normal);
    for t in [Transform::Normal, Transform::_90, Transform::_180, Transform::_270, Transform::Flipped,
        Transform::Flipped90, Transform::Flipped180, Transform::Flipped270] {
        assert_eq!(parse_output_transform(transform_to_name(t)), Some(t));
    }
}

#[test]
fn small_enumerations() {
    assert_eq!(parse_block_out_from("Screen-Capture"), Some(BlockOutFrom::ScreenCapture));
    assert_eq!(parse_block_out_from("SCREENCAST"), Some(BlockOutFrom::Screencast));
    assert_eq!(parse_block_out_from("screen"), None);
    assert_eq!(parse_hsync_polarity("+hsync"), Some(HSyncPolarity::PHSync));
    assert_eq!(parse_hsync_polarity("-hsync"), Some(HSyncPolarity::NHSync));
    assert_eq!(parse_hsync_polarity("+HSYNC"), None);
    assert_eq!(parse_vsync_polarity("-vsync"), Some(VSyncPolarity::NVSync));
    assert_eq!(parse_column_display("Tabbed"), Some(ColumnDisplay::Tabbed));
    assert_eq!(vrr_from_output_text("true"), Some(Vrr { on_demand: false }));
    assert_eq!(vrr_from_output_text("on-demand"), Some(Vrr { on_demand: true }));
    assert_eq!(vrr_from_output_text("off"), None);
    assert_eq!(vrr_from_collection_text("on_demand"), Some(Vrr { on_demand: true }));
    assert_eq!(vrr_from_collection_text("always"), Some(Vrr { on_demand: false }));
    assert_eq!(vrr_from_collection_text("on"), None);
}

#[test]
fn layout_targets() {
    assert_eq!(parse_layout_switch_target("NEXT"), Some(LayoutSwitchTarget::Next));
    assert_eq!(parse_layout_switch_target("Previous"), Some(LayoutSwitchTarget::Prev));
    assert_eq!(parse_layout_switch_target("2"), Some(LayoutSwitchTarget::Index(2)));
    assert_eq!(parse_layout_switch_target("256"), None);
}

#[test]
fn size_change_texts() {
    assert!(matches!(parse_size_change(" +10% "), Some(SizeChange::AdjustProportion(ref l)) if l.literal == "10" && !l.negated && l.per_cent));
    assert!(matches!(parse_size_change("-5%"), Some(SizeChange::AdjustProportion(ref l)) if l.literal == "5" && l.negated));
    assert!(matches!(parse_size_change("-20"), Some(SizeChange::AdjustFixed(-20))));
    assert!(matches!(parse_size_change("800"), Some(SizeChange::SetFixed(800))));
    assert!(parse_size_change("wide").is_none());
    assert!(matches!(parse_size_change_string("--5"), Some(SizeChange::AdjustFixed(5))));
    assert!(parse_size_change_string("x%").is_none());
}

#[test]
fn position_change_texts() {
    assert!(matches!(parse_position_change_str(" -3.5 "), Ok(PositionChange::AdjustFixed(ref l)) if l.literal == "3.5" && l.negated));
    assert!(matches!(parse_position_change_str("25%"), Ok(PositionChange::SetProportion(ref l)) if l.per_cent && !l.negated));
    assert!(matches!(parse_position_change_str(""), Err(PositionChangeError::Empty)));
    assert!(matches!(parse_position_change_str("a%"), Err(PositionChangeError::InvalidProportion)));
    assert!(matches!(parse_position_change_str("a"), Err(PositionChangeError::InvalidPosition)));
}

#[test]
fn rename_all_values() {
    let a = EnumAttrs::from_rename_all_values(&["snake_case".to_string(), "SCREAMING_SNAKE_CASE".to_string()]).ok().unwrap();
    assert!(matches!(a.rename_all, RenameAll::ScreamingSnakeCase));
    let none = EnumAttrs::from_rename_all_values(&[]).ok().unwrap();
    assert!(matches!(none.rename_all, RenameAll::KebabCase));
    match EnumAttrs::from_rename_all_values(&["kebab-case".to_string(), "camelCase".to_string(), "nope".to_string()]) {
        Err(m) => assert_eq!(m, "Unknown rename_all value: camelCase"),
        Ok(_) => panic!("expected an unknown value"),
    }
}
