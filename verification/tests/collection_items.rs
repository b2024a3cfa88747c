use niri_lua::collection_items::{
    extract_environment_variable, extract_output, extract_spawn_at_startup, extract_workspace, find_workspace,
    set_environment, CommandValue, NamedItemError, OutputError, OutputFields, SpawnError, SpawnItem, WorkspaceKey,
    remove_environment_variable, remove_spawn, remove_workspace, spawn_at,
};
use niri_lua::collection_items::{
    extract_layer_rule, extract_window_rule, LayerMatch, LayerRuleFields, RuleError, WindowMatch, WindowRuleFields,
};
use niri_lua::values::BlockOutFrom;
use niri_lua::pending::{EnvironmentVariable, Workspace};
use niri_lua::values::{ModeError, Transform, Vrr};

fn fields(name: Option<&str>) -> OutputFields<f64> {
    OutputFields {
        name: name.map(|s| s.to_string()),
        mode: None,
        scale: None,
        transform: None,
        position: None,
        vrr_text: None,
        vrr_flag: None,
        off: None,
        focus_at_startup: None,
    }
}

fn ws(name: &str) -> Workspace {
    Workspace { name: name.to_string(), open_on_output: None }
}

#[test]
fn output_with_all_fields() {
    let mut f = fields(Some("DP-1"));
    f.mode = Some("2560x1440@143.912".to_string());
    f.scale = Some(1.25);
    f.transform = Some("Flipped-90".to_string());
    f.position = Some((Some(1280), None));
    f.vrr_text = Some("on_demand".to_string());
    f.focus_at_startup = Some(true);
    let o = extract_output(f).ok().unwrap();
    assert_eq!(o.name, "DP-1");
    let m = o.mode.unwrap();
    assert_eq!((m.width, m.height, m.refresh.as_deref()), (2560, 1440, Some("143.912")));
    assert_eq!(o.scale, Some(1.25));
    assert_eq!(o.transform, Transform::Flipped90);
    assert_eq!(o.position, Some((1280, 0)));
    assert_eq!(o.vrr, Some(Vrr { on_demand: true }));
    assert!(!o.off);
    assert!(o.focus_at_startup);
}

#[test]
fn output_defaults() {
    let o = extract_output(fields(Some("eDP-1"))).ok().unwrap();
    assert!(o.mode.is_none());
    assert_eq!(o.transform, Transform::Normal);
    assert!(o.position.is_none());
    assert!(o.vrr.is_none());
    let mut f = fields(Some("eDP-1"));
    f.vrr_flag = Some(true);
    assert_eq!(extract_output(f).ok().unwrap().vrr, Some(Vrr { on_demand: true }));
    let mut f = fields(Some("eDP-1"));
    f.position = Some((Some(4294967297), Some(-1)));
    assert_eq!(extract_output(f).ok().unwrap().position, Some((1, -1)));
}

#[test]
fn output_errors() {
    match extract_output(fields(None)) {
        Err(e @ OutputError::MissingName) => assert_eq!(e.message(), "output requires 'name' field"),
        _ => panic!("expected a missing name"),
    }
    let mut f = fields(Some("DP-1"));
    f.mode = Some("1920x1080@fast".to_string());
    match extract_output(f) {
        Err(e @ OutputError::Mode(ModeError::InvalidRefresh, _)) => assert_eq!(e.message(), "Invalid refresh rate: fast"),
        _ => panic!("expected an invalid refresh rate"),
    }
    let mut f = fields(Some("DP-1"));
    f.mode = Some("1920by1080".to_string());
    match extract_output(f) {
        Err(e @ OutputError::Mode(ModeError::InvalidFormat, _)) => {
            assert_eq!(e.message(), "Invalid mode format: 1920by1080. Expected WIDTHxHEIGHT[@REFRESH]")
        }
        _ => panic!("expected an invalid format"),
    }
    let mut f = fields(Some("DP-1"));
    f.mode = Some("wx1080".to_string());
    match extract_output(f) {
        Err(e @ OutputError::Mode(ModeError::InvalidWidth, _)) => assert_eq!(e.message(), "Invalid width: w"),
        _ => panic!("expected an invalid width"),
    }
    let mut f = fields(Some("DP-1"));
    f.mode = Some("1920x70000".to_string());
    match extract_output(f) {
        Err(e @ OutputError::Mode(ModeError::InvalidHeight, _)) => assert_eq!(e.message(), "Invalid height: 70000"),
        _ => panic!("expected an invalid height"),
    }
    let mut f = fields(Some("DP-1"));
    f.transform = Some("sideways".to_string());
    match extract_output(f) {
        Err(e @ OutputError::UnknownTransform(_)) => assert_eq!(e.message(), "Unknown transform: sideways"),
        _ => panic!("expected an unknown transform"),
    }
}

#[test]
fn named_items_need_names() {
    let w = extract_workspace(Some("chat".to_string()), Some("DP-2".to_string())).ok().unwrap();
    assert_eq!(w.name, "chat");
    assert_eq!(w.open_on_output.as_deref(), Some("DP-2"));
    let e = extract_workspace(None, None).err().unwrap();
    assert_eq!(e, NamedItemError::WorkspaceName);
    assert_eq!(e.message(), "workspace requires 'name' field");
    let e = extract_environment_variable(None, Some("1".to_string())).err().unwrap();
    assert_eq!(e.message(), "environment requires 'name' field");
}

#[test]
fn environment_set_updates_or_appends() {
    let mut env = vec![
        EnvironmentVariable { name: "A".to_string(), value: Some("1".to_string()) },
        EnvironmentVariable { name: "B".to_string(), value: None },
    ];
    set_environment(&mut env, "B".to_string(), Some("2".to_string()));
    assert_eq!(env.len(), 2);
    assert_eq!(env[1].value.as_deref(), Some("2"));
    set_environment(&mut env, "C".to_string(), None);
    assert_eq!(env.len(), 3);
    assert_eq!(env[2].name, "C");
    set_environment(&mut env, "A".to_string(), None);
    assert!(env[0].value.is_none());
}

#[test]
fn workspace_lookup() {
    let list = vec![ws("one"), ws("two"), ws("two")];
    assert_eq!(find_workspace(&list, &WorkspaceKey::Index(1)), Ok(Some(0)));
    assert_eq!(find_workspace(&list, &WorkspaceKey::Index(3)), Ok(Some(2)));
    assert_eq!(find_workspace(&list, &WorkspaceKey::Index(0)), Ok(None));
    assert_eq!(find_workspace(&list, &WorkspaceKey::Index(4)), Ok(None));
    assert_eq!(find_workspace(&list, &WorkspaceKey::Name("two".to_string())), Ok(Some(1)));
    assert_eq!(find_workspace(&list, &WorkspaceKey::Name("three".to_string())), Ok(None));
    assert_eq!(find_workspace(&list, &WorkspaceKey::Other), Err(()));
}

#[test]
fn startup_commands() {
    let cmd = |v: &[&str]| v.iter().map(|s| s.to_string()).collect::<Vec<String>>();
    let r = extract_spawn_at_startup::<String>(SpawnItem::Text(Ok("waybar".to_string())));
    assert_eq!(r.ok().unwrap(), cmd(&["waybar"]));
    let r = extract_spawn_at_startup::<String>(SpawnItem::Table { command: CommandValue::Texts(Ok(cmd(&["foot", "-e", "top"]))), array: None });
    assert_eq!(r.ok().unwrap(), cmd(&["foot", "-e", "top"]));
    let r = extract_spawn_at_startup::<String>(SpawnItem::Table { command: CommandValue::Nil, array: Some(Ok(cmd(&["mako"]))) });
    assert_eq!(r.ok().unwrap(), cmd(&["mako"]));
    match extract_spawn_at_startup::<String>(SpawnItem::Table { command: CommandValue::Nil, array: None }) {
        Err(e @ SpawnError::NoCommand) => assert_eq!(e.message(), "spawn_at_startup requires a 'command' field or array of strings"),
        _ => panic!("expected a missing command"),
    }
    match extract_spawn_at_startup::<String>(SpawnItem::Table { command: CommandValue::Other, array: None }) {
        Err(e @ SpawnError::CommandType) => assert_eq!(e.message(), "spawn_at_startup command must be a string or array of strings"),
        _ => panic!("expected a command type error"),
    }
    match extract_spawn_at_startup::<String>(SpawnItem::Other) {
        Err(e @ SpawnError::ItemType) => assert_eq!(e.message(), "spawn_at_startup item must be a table or string"),
        _ => panic!("expected an item type error"),
    }
}

fn window_match(app_id: Option<&str>, title: Option<&str>) -> WindowMatch {
    WindowMatch {
        app_id: app_id.map(|s| s.to_string()),
        title: title.map(|s| s.to_string()),
        at_startup: Some(true),
        is_floating: None,
    }
}

fn window_fields(m: Option<WindowMatch>, x: Option<WindowMatch>) -> WindowRuleFields {
    WindowRuleFields {
        match_table: m,
        exclude_table: x,
        default_column_width_empty: None,
        open_floating: None,
        open_fullscreen: None,
        open_maximized: None,
    }
}

#[test]
fn window_rule_with_match_and_flags() {
    let mut f = window_fields(Some(window_match(Some("^firefox$"), Some("Private"))), None);
    f.default_column_width_empty = Some(true);
    f.open_floating = Some(true);
    f.open_maximized = Some(false);
    let r = extract_window_rule(f).ok().unwrap();
    assert_eq!(r.matches.len(), 1);
    assert_eq!(r.matches[0].app_id.as_deref(), Some("^firefox$"));
    assert_eq!(r.matches[0].title.as_deref(), Some("Private"));
    assert_eq!(r.matches[0].at_startup, Some(true));
    assert!(r.excludes.is_empty());
    assert!(r.default_width_from_window);
    assert_eq!((r.open_floating, r.open_fullscreen, r.open_maximized), (Some(true), None, Some(false)));
}

#[test]
fn window_rule_non_empty_width_table_is_ignored() {
    let mut f = window_fields(None, Some(window_match(None, Some("Picture-in-Picture"))));
    f.default_column_width_empty = Some(false);
    let r = extract_window_rule(f).ok().unwrap();
    assert!(r.matches.is_empty());
    assert_eq!(r.excludes.len(), 1);
    assert!(!r.default_width_from_window);
}

#[test]
fn window_rule_bad_patterns() {
    let e = extract_window_rule(window_fields(Some(window_match(Some("("), Some("["))), None)).err().unwrap();
    assert!(matches!(e, RuleError::Regex("app_id", _)));
    assert!(e.message().starts_with("Invalid app_id regex: "));
    let e = extract_window_rule(window_fields(Some(window_match(Some("ok"), Some("["))), None)).err().unwrap();
    assert!(matches!(e, RuleError::Regex("title", _)));
    assert!(e.message().starts_with("Invalid title regex: "));
    let e = extract_window_rule(window_fields(None, Some(window_match(Some("a)"), None)))).err().unwrap();
    assert!(matches!(e, RuleError::Regex("app_id", _)));
}

fn layer_fields(ns: Option<&str>, block: Option<&str>) -> LayerRuleFields {
    LayerRuleFields {
        match_table: Some(LayerMatch { namespace: ns.map(|s| s.to_string()), at_startup: None }),
        exclude_table: None,
        block_out_from: block.map(|s| s.to_string()),
    }
}

#[test]
fn layer_rule_block_out_from() {
    let r = extract_layer_rule(layer_fields(Some("^notifications$"), Some("ScreenCast"))).ok().unwrap();
    assert_eq!(r.block_out_from, Some(BlockOutFrom::Screencast));
    assert_eq!(r.matches.len(), 1);
    assert_eq!(r.matches[0].namespace.as_deref(), Some("^notifications$"));
    let r = extract_layer_rule(layer_fields(None, Some("screen-capture"))).ok().unwrap();
    assert_eq!(r.block_out_from, Some(BlockOutFrom::ScreenCapture));
    let r = extract_layer_rule(layer_fields(None, Some("Screen_Capture"))).ok().unwrap();
    assert_eq!(r.block_out_from, Some(BlockOutFrom::ScreenCapture));
    let r = extract_layer_rule(layer_fields(None, None)).ok().unwrap();
    assert_eq!(r.block_out_from, None);
}

#[test]
fn layer_rule_errors() {
    let e = extract_layer_rule(layer_fields(None, Some("screen"))).err().unwrap();
    assert_eq!(e.message(), "Invalid block_out_from value: screen");
    let e = extract_layer_rule(layer_fields(Some("(unclosed"), Some("screen"))).err().unwrap();
    assert!(e.message().starts_with("Invalid namespace regex: "));
}

#[test]
fn removing_named_items_keeps_the_others_in_order() {
    let mut w = vec![ws("a"), ws("b"), ws("a"), ws("c")];
    remove_workspace(&mut w, "a");
    assert_eq!(w.iter().map(|x| x.name.as_str()).collect::<Vec<_>>(), vec!["b", "c"]);
    let mut env = vec![
        EnvironmentVariable { name: "X".to_string(), value: None },
        EnvironmentVariable { name: "Y".to_string(), value: Some("1".to_string()) },
    ];
    remove_environment_variable(&mut env, "X");
    assert_eq!(env.len(), 1);
    assert_eq!(env[0].name, "Y");
    remove_environment_variable(&mut env, "nope");
    assert_eq!(env.len(), 1);
}

#[test]
fn startup_commands_by_index() {
    let mut spawns = vec![vec!["waybar".to_string()], vec!["mako".to_string()]];
    assert_eq!(spawn_at(&spawns, 2).map(|c| c[0].as_str()), Some("mako"));
    assert!(spawn_at(&spawns, 0).is_none());
    assert!(spawn_at(&spawns, 3).is_none());
    assert_eq!(remove_spawn(&mut spawns, 3), Err("spawn_at_startup index 3 out of bounds (1-2)".to_string()));
    assert_eq!(remove_spawn(&mut spawns, 1), Ok(()));
    assert_eq!(spawns, vec![vec!["mako".to_string()]]);
}
