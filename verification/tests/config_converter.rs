use niri_lua::pending::scalar_change_would_panic;
use niri_lua::actions::Action;
use niri_lua::json::{Json, JsonNumber};
use niri_lua::pending::{
    apply_pending_lua_config, json_to_bind, json_to_spawn, json_to_workspace,
    Bind, ConfigModel, PendingConfigChanges,
};
use niri_lua::settings::{json_to_color, json_to_preset_size, PresetSize, SettingValue};

fn text(s: &str) -> Json<f64> {
    Json::String(s.to_string())
}

fn whole(u: u64) -> Json<f64> {
    Json::Number(JsonNumber::PosInt(u))
}

fn float(f: f64) -> Json<f64> {
    Json::Number(JsonNumber::Float(f))
}

fn obj(entries: Vec<(&str, Json<f64>)>) -> Json<f64> {
    Json::Object(entries.into_iter().map(|(k, v)| (k.to_string(), v)).collect())
}

fn arr(items: Vec<Json<f64>>) -> Json<f64> {
    Json::Array(items)
}

fn no_bind_matches(_b: &Bind<f64>, _c: &Json<f64>) -> bool {
    false
}

fn apply(pending: &mut PendingConfigChanges<f64>, config: &mut ConfigModel<f64>) -> usize {
    apply_pending_lua_config(pending, config, &no_bind_matches)
}

fn scalar(path: &str, value: Json<f64>) -> PendingConfigChanges<f64> {
    let mut p = PendingConfigChanges::new();
    p.scalar_changes.push((path.to_string(), value));
    p
}

fn additions(name: &str, items: Vec<Json<f64>>) -> PendingConfigChanges<f64> {
    let mut p = PendingConfigChanges::new();
    p.collection_additions.push((name.to_string(), items));
    p
}

fn setting<'a>(config: &'a ConfigModel<f64>, field: &str) -> Option<&'a SettingValue<f64>> {
    config.settings.iter().find(|s| s.field == field).map(|s| &s.value)
}

fn number(v: Option<&SettingValue<f64>>) -> f64 {
    match v {
        Some(SettingValue::Number(JsonNumber::PosInt(u))) => *u as f64,
        Some(SettingValue::Number(JsonNumber::NegInt(i))) => *i as f64,
        Some(SettingValue::Number(JsonNumber::Float(f))) => *f,
        _ => panic!("not a number"),
    }
}

fn flag(v: Option<&SettingValue<f64>>) -> bool {
    match v {
        Some(SettingValue::Flag(b)) => *b,
        _ => false,
    }
}

#[test]
fn apply_pending_empty_changes() {
    let mut pending = PendingConfigChanges::new();
    let mut config = ConfigModel::new();
    let count = apply(&mut pending, &mut config);
    assert_eq!(count, 0);
}

#[test]
fn apply_pending_layout_gaps() {
    let mut pending = scalar("layout.gaps", whole(24));
    let mut config = ConfigModel::new();
    let count = apply(&mut pending, &mut config);

    assert!(count > 0);
    assert_eq!(number(setting(&config, "layout.gaps")), 24.0);
}

#[test]
fn apply_pending_prefer_no_csd() {
    let mut pending = scalar("prefer_no_csd", Json::Bool(true));
    let mut config = ConfigModel::new();
    let count = apply(&mut pending, &mut config);

    assert!(count > 0);
    assert!(flag(setting(&config, "prefer_no_csd")));
}

#[test]
fn apply_pending_layout_center_focused_column() {
    let mut pending = scalar("layout.center_focused_column", text("always"));
    let mut config = ConfigModel::new();
    apply(&mut pending, &mut config);

    assert!(matches!(
        setting(&config, "layout.center_focused_column"),
        Some(SettingValue::Word(Some("always")))
    ));
}

#[test]
fn apply_pending_layout_preset_column_widths() {
    let widths = arr(vec![
        obj(vec![("proportion", float(0.33))]),
        obj(vec![("proportion", float(0.5))]),
        obj(vec![("proportion", float(0.67))]),
    ]);
    let mut pending = scalar("layout.preset_column_widths", widths);
    let mut config = ConfigModel::new();
    apply(&mut pending, &mut config);

    match setting(&config, "layout.preset_column_widths") {
        Some(SettingValue::Presets(p)) => assert_eq!(p.len(), 3),
        _ => panic!("preset column widths not set"),
    }
}

#[test]
fn apply_pending_layout_border_active_color() {
    let mut pending = PendingConfigChanges::new();
    pending.scalar_changes.push(("layout.border.off".to_string(), Json::Bool(false)));
    pending.scalar_changes.push(("layout.border.active.color".to_string(), text("#ff5500")));
    let mut config = ConfigModel::new();
    apply(&mut pending, &mut config);

    assert!(!flag(setting(&config, "layout.border.off")));
}

#[test]
fn apply_pending_layout_focus_ring() {
    let mut pending = PendingConfigChanges::new();
    pending.scalar_changes.push(("layout.focus_ring.active.color".to_string(), text("#00ff00")));
    pending.scalar_changes.push(("layout.focus_ring.width".to_string(), whole(4)));
    let mut config = ConfigModel::new();
    apply(&mut pending, &mut config);

    assert_eq!(number(setting(&config, "layout.focus_ring.width")), 4.0);
}

#[test]
fn apply_pending_binds_spawn() {
    let bind = obj(vec![
        ("key", text("Mod+Return")),
        ("action", text("spawn")),
        ("args", arr(vec![text("alacritty")])),
    ]);
    let mut pending = additions("binds", vec![bind]);
    let mut config = ConfigModel::new();
    let initial_binds = config.binds.len();
    apply(&mut pending, &mut config);

    assert_eq!(config.binds.len(), initial_binds + 1);
}

#[test]
fn apply_pending_binds_focus_workspace() {
    let bind = obj(vec![
        ("key", text("Mod+1")),
        ("action", text("focus-workspace")),
        ("args", arr(vec![whole(1)])),
    ]);
    let mut pending = additions("binds", vec![bind]);
    let mut config = ConfigModel::new();
    let initial_binds = config.binds.len();
    apply(&mut pending, &mut config);

    assert_eq!(config.binds.len(), initial_binds + 1);
}

#[test]
fn apply_pending_binds_multiple() {
    let binds = (1..=3)
        .map(|i| {
            obj(vec![
                ("key", text(&format!("Mod+{i}"))),
                ("action", text("focus-workspace")),
                ("args", arr(vec![whole(i)])),
            ])
        })
        .collect();
    let mut pending = additions("binds", binds);
    let mut config = ConfigModel::new();
    let initial_binds = config.binds.len();
    apply(&mut pending, &mut config);

    assert_eq!(config.binds.len(), initial_binds + 3);
}

#[test]
fn apply_pending_spawn_at_startup() {
    let item = obj(vec![("command", arr(vec![text("waybar")]))]);
    let mut pending = additions("spawn_at_startup", vec![item]);
    let mut config = ConfigModel::new();
    let initial_spawns = config.spawn_at_startup.len();
    apply(&mut pending, &mut config);

    assert_eq!(config.spawn_at_startup.len(), initial_spawns + 1);
}

#[test]
fn apply_pending_spawn_at_startup_with_args() {
    let item = obj(vec![(
        "command",
        arr(vec![text("swaybg"), text("-i"), text("/path/to/image.png")]),
    )]);
    let mut pending = additions("spawn_at_startup", vec![item]);
    let mut config = ConfigModel::new();
    apply(&mut pending, &mut config);

    assert!(!config.spawn_at_startup.is_empty());
}

#[test]
fn apply_pending_workspaces() {
    let item = obj(vec![("name", text("main"))]);
    let mut pending = additions("workspaces", vec![item]);
    let mut config = ConfigModel::new();
    let initial_ws = config.workspaces.len();
    apply(&mut pending, &mut config);

    assert_eq!(config.workspaces.len(), initial_ws + 1);
}

#[test]
fn apply_pending_workspaces_with_output() {
    let item = obj(vec![("name", text("work")), ("open_on_output", text("eDP-1"))]);
    let mut pending = additions("workspaces", vec![item]);
    let mut config = ConfigModel::new();
    apply(&mut pending, &mut config);

    let ws = config.workspaces.iter().find(|w| w.name == "work");
    assert!(ws.is_some());
    assert_eq!(ws.unwrap().open_on_output, Some("eDP-1".to_string()));
}

#[test]
fn apply_pending_window_rules() {
    let item = obj(vec![
        ("matches", arr(vec![obj(vec![("app_id", text("firefox"))])])),
        ("default_column_width", obj(vec![("proportion", float(0.5))])),
    ]);
    let mut pending = additions("window_rules", vec![item]);
    let mut config = ConfigModel::new();
    let initial_rules = config.window_rules.len();
    apply(&mut pending, &mut config);

    assert_eq!(config.window_rules.len(), initial_rules + 1);
}

#[test]
fn apply_pending_animations_off() {
    let mut pending = scalar("animations.off", Json::Bool(true));
    let mut config = ConfigModel::new();
    apply(&mut pending, &mut config);

    assert!(flag(setting(&config, "animations.off")));
}

#[test]
fn apply_pending_animations_slowdown() {
    let mut pending = scalar("animations.slowdown", float(2.5));
    let mut config = ConfigModel::new();
    apply(&mut pending, &mut config);

    assert_eq!(number(setting(&config, "animations.slowdown")), 2.5);
}

#[test]
fn apply_pending_input_keyboard_repeat_delay() {
    let mut pending = scalar("input.keyboard.repeat_delay", whole(300));
    let mut config = ConfigModel::new();
    apply(&mut pending, &mut config);

    assert!(matches!(
        setting(&config, "input.keyboard.repeat_delay"),
        Some(SettingValue::Short(300))
    ));
}

#[test]
fn apply_pending_input_keyboard_repeat_rate() {
    let mut pending = scalar("input.keyboard.repeat_rate", whole(50));
    let mut config = ConfigModel::new();
    apply(&mut pending, &mut config);

    assert!(matches!(
        setting(&config, "input.keyboard.repeat_rate"),
        Some(SettingValue::Byte(50))
    ));
}

#[test]
fn apply_pending_input_touchpad_tap() {
    let mut pending = scalar("input.touchpad.tap", Json::Bool(true));
    let mut config = ConfigModel::new();
    apply(&mut pending, &mut config);

    assert!(flag(setting(&config, "input.touchpad.tap")));
}

#[test]
fn apply_pending_input_touchpad_natural_scroll() {
    let mut pending = scalar("input.touchpad.natural_scroll", Json::Bool(true));
    let mut config = ConfigModel::new();
    apply(&mut pending, &mut config);

    assert!(flag(setting(&config, "input.touchpad.natural_scroll")));
}

#[test]
fn apply_pending_input_mouse_accel_speed() {
    let mut pending = scalar("input.mouse.accel_speed", float(0.5));
    let mut config = ConfigModel::new();
    apply(&mut pending, &mut config);

    assert_eq!(number(setting(&config, "input.mouse.accel_speed")), 0.5);
}

#[test]
fn json_to_color_hex_string() {
    let json = text("#ff5500");
    let result = json_to_color(&json);
    assert!(result.is_some());
}

#[test]
fn json_to_color_rgb_object() {
    let json = obj(vec![("r", whole(255)), ("g", whole(128)), ("b", whole(0)), ("a", whole(255))]);
    let result = json_to_color(&json);
    assert!(result.is_some());
}

#[test]
fn json_to_preset_size_proportion() {
    let json = obj(vec![("proportion", float(0.5))]);
    let result = json_to_preset_size(&json);
    assert!(result.is_some());
}

#[test]
fn json_to_preset_size_fixed() {
    let json = obj(vec![("fixed", whole(800))]);
    let result = json_to_preset_size(&json);
    assert!(result.is_some());
}

#[test]
fn json_to_bind_spawn() {
    let json = obj(vec![
        ("key", text("Mod+Return")),
        ("action", text("spawn")),
        ("args", arr(vec![text("alacritty")])),
    ]);
    let result = json_to_bind(&json);
    assert!(result.is_some());
}

#[test]
fn json_to_bind_focus_workspace() {
    let json = obj(vec![
        ("key", text("Mod+1")),
        ("action", text("focus-workspace")),
        ("args", arr(vec![whole(1)])),
    ]);
    let result = json_to_bind(&json);
    assert!(result.is_some());
}

#[test]
fn json_to_spawn_simple() {
    let json = obj(vec![("command", arr(vec![text("waybar")]))]);
    let result = json_to_spawn(&json);
    assert!(result.is_some());
}

#[test]
fn json_to_workspace_with_name() {
    let json = obj(vec![("name", text("main"))]);
    let result = json_to_workspace(&json);
    assert!(result.is_some());
    assert_eq!(result.unwrap().name, "main");
}

fn bind_action(key: &str, action: &str) -> Action<f64> {
    let json = obj(vec![("key", text(key)), ("action", text(action))]);
    let result = json_to_bind(&json);
    assert!(result.is_some());
    result.unwrap().action
}

#[test]
fn parse_action_toggle_keyboard_shortcuts_inhibit() {
    let action = bind_action("Mod+Escape", "toggle-keyboard-shortcuts-inhibit");
    assert!(matches!(action, Action::ToggleKeyboardShortcutsInhibit));
}

#[test]
fn parse_action_expand_column_to_available_width() {
    let action = bind_action("Mod+E", "expand-column-to-available-width");
    assert!(matches!(action, Action::ExpandColumnToAvailableWidth));
}

#[test]
fn parse_action_center_visible_columns() {
    let action = bind_action("Mod+C", "center-visible-columns");
    assert!(matches!(action, Action::CenterVisibleColumns));
}

#[test]
fn parse_action_switch_focus_floating_tiling() {
    let action = bind_action("Mod+Space", "switch-focus-between-floating-and-tiling");
    assert!(matches!(action, Action::SwitchFocusBetweenFloatingAndTiling));
}

#[test]
fn parse_action_toggle_column_tabbed_display() {
    let action = bind_action("Mod+T", "toggle-column-tabbed-display");
    assert!(matches!(action, Action::ToggleColumnTabbedDisplay));
}

#[test]
fn parse_action_focus_window_previous() {
    let action = bind_action("Mod+Tab", "focus-window-previous");
    assert!(matches!(action, Action::FocusWindowPrevious));
}

#[test]
fn parse_action_toggle_debug_tint() {
    let action = bind_action("Mod+Shift+D", "toggle-debug-tint");
    assert!(matches!(action, Action::ToggleDebugTint));
}

#[test]
fn parse_action_move_window_to_floating() {
    let action = bind_action("Mod+V", "move-window-to-floating");
    assert!(matches!(action, Action::MoveWindowToFloating));
}

#[test]
fn preset_size_plain_numbers() {
    assert!(matches!(json_to_preset_size(&whole(1)), Some(PresetSize::Proportion(JsonNumber::PosInt(1)))));
    assert!(matches!(json_to_preset_size(&whole(800)), Some(PresetSize::Fixed(800))));
    assert!(matches!(json_to_preset_size(&whole(5_000_000_000)), Some(PresetSize::Fixed(i32::MAX))));
    assert!(json_to_preset_size(&text("800")).is_none());
}

#[test]
fn color_text_that_would_be_cut_is_detected() {
    assert!(!scalar_change_would_panic("layout.focus_ring.active_color", &Json::<f64>::String("#ff0000".to_string())));
    assert!(scalar_change_would_panic("layout.focus_ring.active_color", &Json::<f64>::String("#aé000".to_string())));
    assert!(!scalar_change_would_panic("layout.gaps", &Json::<f64>::String("#aé000".to_string())));
}
