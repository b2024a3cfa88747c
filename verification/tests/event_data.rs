use niri_ipc::{Output, Window, WindowLayout, Workspace};
use niri_lua::event_data::{EventData, LayoutEventData, MonitorEventData, WindowEventData, WorkspaceEventData};

type Event = EventData<Window, Workspace, Output>;

fn create_test_window() -> Window {
    Window {
        id: 123,
        title: Some("Test Window".to_string()),
        app_id: Some("org.test.App".to_string()),
        pid: Some(4567),
        workspace_id: Some(1),
        is_focused: true,
        is_floating: false,
        is_urgent: false,
        focus_timestamp: None,
        layout: WindowLayout {
            pos_in_scrolling_layout: Some((1, 1)),
            tile_size: (1920.0, 1080.0),
            window_size: (1900, 1060),
            tile_pos_in_workspace_view: Some((0.0, 0.0)),
            window_offset_in_tile: (10.0, 10.0),
        },
    }
}

fn create_test_workspace() -> Workspace {
    Workspace {
        id: 1,
        idx: 1,
        name: Some("Main".to_string()),
        output: Some("DP-1".to_string()),
        is_urgent: false,
        is_active: true,
        is_focused: true,
        active_window_id: Some(123),
    }
}

fn create_test_output() -> Output {
    Output {
        name: "DP-1".to_string(),
        make: "Samsung".to_string(),
        model: "S27AG50".to_string(),
        serial: Some("SN123456".to_string()),
        physical_size: Some((600, 340)),
        modes: vec![],
        current_mode: None,
        is_custom_mode: false,
        vrr_supported: false,
        vrr_enabled: false,
        logical: None,
    }
}

#[test]
fn test_window_open_event_to_lua() {
    let window = create_test_window();
    let event = WindowEventData::Open { window: window.clone() };
    assert_eq!(event.event_type(), "open");
    assert_eq!(event.window().id, 123);
}

#[test]
fn test_window_close_event_to_lua() {
    let event = WindowEventData::Close { window: create_test_window() };
    assert_eq!(event.event_type(), "close");
}

#[test]
fn test_window_focus_event_to_lua() {
    let event = WindowEventData::Focus { window: create_test_window() };
    assert_eq!(event.event_type(), "focus");
}

#[test]
fn test_window_blur_event_to_lua() {
    let event = WindowEventData::Blur { window: create_test_window() };
    assert_eq!(event.event_type(), "blur");
}

#[test]
fn test_workspace_activate_event_to_lua() {
    let event = WorkspaceEventData::Activate { workspace: create_test_workspace(), output: create_test_output() };
    assert_eq!(event.event_type(), "activate");
    match &event {
        WorkspaceEventData::Activate { workspace, output } => {
            assert_eq!(workspace.id, 1);
            assert_eq!(output.name, "DP-1");
        }
        WorkspaceEventData::Deactivate { .. } => panic!("expected an activation"),
    }
}

#[test]
fn test_workspace_deactivate_event_to_lua() {
    let event: WorkspaceEventData<Workspace, Output> = WorkspaceEventData::Deactivate { workspace: create_test_workspace() };
    assert_eq!(event.event_type(), "deactivate");
}

#[test]
fn test_monitor_connect_event_to_lua() {
    let event = MonitorEventData::Connect { output: create_test_output() };
    assert_eq!(event.event_type(), "connect");
    assert_eq!(event.output().name, "DP-1");
}

#[test]
fn test_monitor_disconnect_event_to_lua() {
    let event = MonitorEventData::Disconnect { output: create_test_output() };
    assert_eq!(event.event_type(), "disconnect");
}

#[test]
fn test_layout_mode_changed_event_to_lua() {
    let event: LayoutEventData<Window> = LayoutEventData::ModeChanged { is_floating: true };
    assert_eq!(event.event_type(), "mode_changed");
    assert!(matches!(event, LayoutEventData::ModeChanged { is_floating: true }));
}

#[test]
fn test_generic_event_data_window() {
    let event: Event = EventData::Window(WindowEventData::Open { window: create_test_window() });
    assert_eq!(event.category(), "window");
    assert_eq!(event.event_type(), "open");
}

#[test]
fn test_generic_event_data_workspace() {
    let event: Event = EventData::Workspace(WorkspaceEventData::Activate {
        workspace: create_test_workspace(),
        output: create_test_output(),
    });
    assert_eq!(event.category(), "workspace");
    assert_eq!(event.event_type(), "activate");
}

#[test]
fn test_generic_event_data_monitor() {
    let event: Event = EventData::Monitor(MonitorEventData::Connect { output: create_test_output() });
    assert_eq!(event.category(), "monitor");
    assert_eq!(event.event_type(), "connect");
}

#[test]
fn test_generic_event_data_layout() {
    let event: Event = EventData::Layout(LayoutEventData::ModeChanged { is_floating: false });
    assert_eq!(event.category(), "layout");
    assert_eq!(event.event_type(), "mode_changed");
}

#[test]
fn snapshot_window_close_event_format() {
    let event = WindowEventData::Close { window: create_test_window() };
    assert_eq!(event.event_type(), "close");
}

#[test]
fn snapshot_workspace_deactivate_event_format() {
    let event: WorkspaceEventData<Workspace, Output> = WorkspaceEventData::Deactivate { workspace: create_test_workspace() };
    assert_eq!(event.event_type(), "deactivate");
}

#[test]
fn snapshot_monitor_disconnect_event_format() {
    let event = MonitorEventData::Disconnect { output: create_test_output() };
    assert_eq!(event.event_type(), "disconnect");
}

#[test]
fn snapshot_layout_mode_changed_event_format() {
    let event: LayoutEventData<Window> = LayoutEventData::ModeChanged { is_floating: true };
    assert_eq!(event.event_type(), "mode_changed");
}

#[test]
fn snapshot_layout_window_added_event_format() {
    let event = LayoutEventData::WindowAdded { window: create_test_window() };
    assert_eq!(event.event_type(), "window_added");
    match &event {
        LayoutEventData::WindowAdded { window } => assert_eq!(window.id, 123),
        _ => panic!("expected an added window"),
    }
}

#[test]
fn snapshot_event_data_categories() {
    let window_event: Event = EventData::Window(WindowEventData::Open { window: create_test_window() });
    let workspace_event: Event = EventData::Workspace(WorkspaceEventData::Deactivate { workspace: create_test_workspace() });
    let monitor_event: Event = EventData::Monitor(MonitorEventData::Connect { output: create_test_output() });
    let layout_event: Event = EventData::Layout(LayoutEventData::ModeChanged { is_floating: false });
    let categories = (
        window_event.category(),
        workspace_event.category(),
        monitor_event.category(),
        layout_event.category(),
    );
    assert_eq!(categories, ("window", "workspace", "monitor", "layout"));
}

#[test]
fn snapshot_window_event_variants() {
    let window = create_test_window();
    let types = (
        WindowEventData::Open { window: window.clone() }.event_type(),
        WindowEventData::Close { window: window.clone() }.event_type(),
        WindowEventData::Focus { window: window.clone() }.event_type(),
        WindowEventData::Blur { window }.event_type(),
    );
    assert_eq!(types, ("open", "close", "focus", "blur"));
}
