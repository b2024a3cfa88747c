use niri_lua::actions::{Action, Amount};
use niri_lua::proxy::{proxy_call, signature_of, ArgKind, ProxyArg, ProxyError, ProxyTable, ProxyValue};
use niri_lua::values::{ColumnDisplay, LayoutSwitchTarget, PositionChange, PositionChangeError, SizeChange, WorkspaceReferenceArg};

type Arg = ProxyArg<f64, String>;
type Res = Result<Action<f64>, ProxyError<String>>;

fn call(name: &str, args: Vec<Arg>) -> Res {
    proxy_call(name, args)
}

fn whole(n: i64) -> Arg {
    ProxyArg::Value(ProxyValue::Integer(n))
}

fn text(s: &str) -> Arg {
    ProxyArg::Value(ProxyValue::Text(s.to_string()))
}

fn no_id() -> Arg {
    ProxyArg::OptionalId(None)
}

/// The number that an amount stands for.
fn amount(a: &Amount<f64>) -> f64 {
    match a {
        Amount::Number(n) => *n,
        Amount::Percent(n) => *n / 100.0,
        Amount::Whole(i) => *i as f64,
        Amount::Literal(l) => {
            let v: f64 = l.literal.parse().unwrap();
            let v = if l.negated { -v } else { v };
            if l.per_cent { v / 100.0 } else { v }
        }
    }
}

#[test]
fn test_action_proxy_creation() {
    assert!(signature_of("quit").is_some());
    assert!(signature_of("focus_column_left").is_some());
    assert!(signature_of("no_such_method").is_none());
    assert!(matches!(call("no_such_method", vec![]), Err(ProxyError::UnknownMethod)));
}

#[test]
fn test_quit_action() {
    let a = call("quit", vec![ProxyArg::Flag(None)]);
    assert!(matches!(a, Ok(Action::Quit(false))));
}

#[test]
fn test_quit_with_skip_confirmation() {
    let a = call("quit", vec![ProxyArg::Flag(Some(true))]);
    assert!(matches!(a, Ok(Action::Quit(true))));
}

#[test]
fn test_spawn_action() {
    let cmd = vec!["kitty".to_string(), "-e".to_string(), "htop".to_string()];
    match call("spawn", vec![ProxyArg::Texts(cmd)]) {
        Ok(Action::Spawn(command)) => assert_eq!(command, vec!["kitty", "-e", "htop"]),
        _ => panic!("Expected Spawn action"),
    }
}

#[test]
fn test_spawn_sh_action() {
    match call("spawn_sh", vec![ProxyArg::Text("echo hello | grep h".to_string())]) {
        Ok(Action::SpawnSh(command)) => assert_eq!(command, "echo hello | grep h"),
        _ => panic!("Expected SpawnSh action"),
    }
}

#[test]
fn test_focus_column_actions() {
    assert!(matches!(call("focus_column_left", vec![]), Ok(Action::FocusColumnLeft)));
    assert!(matches!(call("focus_column_right", vec![]), Ok(Action::FocusColumnRight)));
    assert!(matches!(call("focus_column_first", vec![]), Ok(Action::FocusColumnFirst)));
    assert!(matches!(call("focus_column_last", vec![]), Ok(Action::FocusColumnLast)));
}

#[test]
fn test_focus_workspace_with_index() {
    match call("focus_workspace", vec![whole(2)]) {
        Ok(Action::FocusWorkspace(reference)) => assert!(matches!(reference, WorkspaceReferenceArg::Index(2))),
        _ => panic!("Expected FocusWorkspace action"),
    }
}

#[test]
fn test_focus_workspace_with_name() {
    match call("focus_workspace", vec![text("main")]) {
        Ok(Action::FocusWorkspace(WorkspaceReferenceArg::Name(name))) => assert_eq!(name, "main"),
        _ => panic!("Expected FocusWorkspace action with a name"),
    }
}

#[test]
fn test_set_window_width_fixed() {
    match call("set_window_width", vec![whole(500), no_id()]) {
        Ok(Action::SetWindowWidth(change)) => assert!(matches!(change, SizeChange::SetFixed(500))),
        _ => panic!("Expected SetWindowWidth action"),
    }
}

#[test]
fn test_set_window_width_proportion() {
    match call("set_window_width", vec![text("50%"), no_id()]) {
        Ok(Action::SetWindowWidth(SizeChange::SetProportion(p))) => assert!((amount(&p) - 0.5).abs() < 0.001),
        _ => panic!("Expected SetProportion"),
    }
}

#[test]
fn test_set_window_width_adjust() {
    match call("set_window_width", vec![text("+10"), no_id()]) {
        Ok(Action::SetWindowWidth(change)) => assert!(matches!(change, SizeChange::AdjustFixed(10))),
        _ => panic!("Expected SetWindowWidth action"),
    }
}

#[test]
fn test_set_window_width_adjust_negative() {
    match call("set_window_width", vec![text("-10"), no_id()]) {
        Ok(Action::SetWindowWidth(change)) => assert!(matches!(change, SizeChange::AdjustFixed(-10))),
        _ => panic!("Expected SetWindowWidth action"),
    }
}

#[test]
fn test_set_column_display() {
    match call("set_column_display", vec![ProxyArg::Text("tabbed".to_string())]) {
        Ok(Action::SetColumnDisplay(display)) => assert!(matches!(display, ColumnDisplay::Tabbed)),
        _ => panic!("Expected SetColumnDisplay action"),
    }
}

#[test]
fn test_switch_layout() {
    assert!(matches!(call("switch_layout", vec![text("next")]), Ok(Action::SwitchLayout(LayoutSwitchTarget::Next))));
    assert!(matches!(call("switch_layout", vec![text("prev")]), Ok(Action::SwitchLayout(LayoutSwitchTarget::Prev))));
    assert!(matches!(call("switch_layout", vec![whole(1)]), Ok(Action::SwitchLayout(LayoutSwitchTarget::Index(1)))));
}

#[test]
fn test_move_floating_window() {
    match call("move_floating_window", vec![text("+10"), text("-5%"), no_id()]) {
        Ok(Action::MoveFloatingWindowById { id, x, y }) => {
            assert!(id.is_none());
            match x {
                PositionChange::AdjustFixed(f) => assert!((amount(&f) - 10.0).abs() < 0.001),
                _ => panic!("Expected AdjustFixed for x"),
            }
            match y {
                PositionChange::AdjustProportion(p) => assert!((amount(&p) + 0.05).abs() < 0.001),
                _ => panic!("Expected AdjustProportion for y"),
            }
        }
        _ => panic!("Expected MoveFloatingWindow action"),
    }
}

#[test]
fn test_overview_actions() {
    assert!(matches!(call("toggle_overview", vec![]), Ok(Action::ToggleOverview)));
    assert!(matches!(call("open_overview", vec![]), Ok(Action::OpenOverview)));
    assert!(matches!(call("close_overview", vec![]), Ok(Action::CloseOverview)));
}

#[test]
fn test_close_window_with_id() {
    assert!(matches!(call("close_window", vec![ProxyArg::OptionalId(Some(42))]), Ok(Action::CloseWindowById(42))));
}

#[test]
fn test_multiple_actions_sequence() {
    let names = ["focus_column_left", "focus_column_right", "move_column_left"];
    let actions: Vec<Res> = names.iter().map(|n| call(n, vec![])).collect();
    assert_eq!(actions.len(), 3);
    assert!(matches!(actions[0], Ok(Action::FocusColumnLeft)));
    assert!(matches!(actions[1], Ok(Action::FocusColumnRight)));
    assert!(matches!(actions[2], Ok(Action::MoveColumnLeft)));
}

#[test]
fn snapshot_action_spawn_with_args() {
    let cmd = vec!["firefox".to_string(), "--new-window".to_string(), "https://example.com".to_string()];
    match call("spawn", vec![ProxyArg::Texts(cmd)]) {
        Ok(Action::Spawn(command)) => assert_eq!(command, vec!["firefox", "--new-window", "https://example.com"]),
        _ => panic!("Expected Spawn action"),
    }
}

#[test]
fn snapshot_action_focus_workspace_index() {
    assert!(matches!(call("focus_workspace", vec![whole(3)]), Ok(Action::FocusWorkspace(WorkspaceReferenceArg::Index(3)))));
}

#[test]
fn snapshot_action_focus_workspace_name() {
    match call("focus_workspace", vec![text("development")]) {
        Ok(Action::FocusWorkspace(WorkspaceReferenceArg::Name(n))) => assert_eq!(n, "development"),
        _ => panic!("Expected a named workspace"),
    }
}

#[test]
fn snapshot_action_set_column_width_fixed() {
    assert!(matches!(call("set_column_width", vec![whole(800)]), Ok(Action::SetColumnWidth(SizeChange::SetFixed(800)))));
}

#[test]
fn snapshot_action_set_column_width_proportion() {
    match call("set_column_width", vec![ProxyArg::Value(ProxyValue::Number(50.0, 50))]) {
        Ok(Action::SetColumnWidth(SizeChange::SetProportion(p))) => assert_eq!(amount(&p), 0.5),
        _ => panic!("Expected SetProportion"),
    }
}

#[test]
fn snapshot_action_set_column_width_adjust() {
    match call("set_column_width", vec![text("+10%")]) {
        Ok(Action::SetColumnWidth(SizeChange::AdjustProportion(p))) => assert!((amount(&p) - 0.1).abs() < 1e-9),
        _ => panic!("Expected AdjustProportion"),
    }
}

#[test]
fn snapshot_action_move_floating_window_complex() {
    match call("move_floating_window", vec![text("+50"), text("-15%"), ProxyArg::OptionalId(Some(12345))]) {
        Ok(Action::MoveFloatingWindowById { id, x, y }) => {
            assert_eq!(id, Some(12345));
            match x {
                PositionChange::AdjustFixed(f) => assert_eq!(amount(&f), 50.0),
                _ => panic!("Expected AdjustFixed"),
            }
            match y {
                PositionChange::AdjustProportion(p) => assert!((amount(&p) + 0.15).abs() < 1e-9),
                _ => panic!("Expected AdjustProportion"),
            }
        }
        _ => panic!("Expected MoveFloatingWindow action"),
    }
}

#[test]
fn snapshot_action_move_window_to_workspace() {
    let args = vec![text("browser"), ProxyArg::OptionalId(Some(9876)), ProxyArg::Flag(Some(false))];
    match call("move_window_to_workspace", args) {
        Ok(Action::MoveWindowToWorkspaceById { window_id, reference, focus }) => {
            assert_eq!(window_id, 9876);
            assert!(matches!(reference, WorkspaceReferenceArg::Name(ref n) if n == "browser"));
            assert!(!focus);
        }
        _ => panic!("Expected MoveWindowToWorkspace action"),
    }
}

#[test]
fn proxy_signature_lists_argument_kinds() {
    assert_eq!(signature_of("move_floating_window"), Some(vec![ArgKind::Value, ArgKind::Value, ArgKind::OptionalId]));
    assert_eq!(signature_of("focus_column_left"), Some(vec![]));
    assert_eq!(signature_of("close_window"), Some(vec![ArgKind::OptionalId]));
}

#[test]
fn proxy_refuses_arguments_of_other_kinds() {
    assert!(matches!(call("quit", vec![ProxyArg::Text("yes".to_string())]), Err(ProxyError::ArgumentKinds)));
    assert!(matches!(call("set_window_width", vec![whole(5)]), Err(ProxyError::ArgumentKinds)));
}

#[test]
fn proxy_value_errors() {
    match call("set_window_width", vec![text("wide"), no_id()]) {
        Err(e @ ProxyError::InvalidSizeChange(_)) => assert_eq!(e.message(), "invalid size change: wide"),
        _ => panic!("Expected an invalid size change"),
    }
    match call("set_column_width", vec![ProxyArg::Value(ProxyValue::Other)]) {
        Err(e @ ProxyError::SizeChangeType) => assert_eq!(e.message(), "size change must be a number or string"),
        _ => panic!("Expected a size change type error"),
    }
    match call("move_floating_window", vec![text("  "), whole(1), no_id()]) {
        Err(e @ ProxyError::BadPosition(PositionChangeError::Empty, _)) => assert_eq!(e.message(), "position change cannot be empty"),
        _ => panic!("Expected an empty position"),
    }
    match call("move_floating_window", vec![whole(1), text(" x% "), no_id()]) {
        Err(e @ ProxyError::BadPosition(PositionChangeError::InvalidProportion, _)) => assert_eq!(e.message(), "invalid proportion: x%"),
        _ => panic!("Expected an invalid proportion"),
    }
    match call("focus_workspace", vec![ProxyArg::Value(ProxyValue::Table(ProxyTable { id: None, index: None, name: None }))]) {
        Err(e @ ProxyError::ReferenceTable) => assert_eq!(e.message(), "workspace reference table must have 'id', 'index', or 'name'"),
        _ => panic!("Expected a reference table error"),
    }
    match call("switch_layout", vec![text("sideways")]) {
        Err(e @ ProxyError::InvalidLayoutTarget(_)) => assert_eq!(e.message(), "invalid layout target: sideways (use 'next', 'prev', or a number)"),
        _ => panic!("Expected an invalid layout target"),
    }
    match call("set_column_display", vec![ProxyArg::Text("stacked".to_string())]) {
        Err(e @ ProxyError::InvalidColumnDisplay(_)) => assert_eq!(e.message(), "invalid column display: stacked (use 'normal' or 'tabbed')"),
        _ => panic!("Expected an invalid column display"),
    }
}

#[test]
fn proxy_workspace_table_prefers_id() {
    let t = ProxyTable { id: Some(7), index: Some(2), name: Some("web".to_string()) };
    assert!(matches!(call("focus_workspace", vec![ProxyArg::Value(ProxyValue::Table(t))]), Ok(Action::FocusWorkspace(WorkspaceReferenceArg::Id(7)))));
    assert!(matches!(call("focus_workspace", vec![text("4")]), Ok(Action::FocusWorkspace(WorkspaceReferenceArg::Index(4)))));
    assert!(matches!(call("focus_workspace", vec![whole(260)]), Ok(Action::FocusWorkspace(WorkspaceReferenceArg::Index(4)))));
}
