use niri_lua::event_data::{EventData, LayoutEventData, MonitorEventData, WindowEventData, WorkspaceEventData};

type Event = EventData<u64, &'static str, &'static str>;

#[test]
fn window_event_types() {
    assert_eq!(WindowEventData::Open { window: 123u64 }.event_type(), "open");
    assert_eq!(WindowEventData::Close { window: 123u64 }.event_type(), "close");
    assert_eq!(WindowEventData::Focus { window: 123u64 }.event_type(), "focus");
    assert_eq!(WindowEventData::Blur { window: 123u64 }.event_type(), "blur");
    assert_eq!(*WindowEventData::Blur { window: 123u64 }.window(), 123);
}

#[test]
fn workspace_monitor_and_layout_event_types() {
    let a: WorkspaceEventData<u64, &str> = WorkspaceEventData::Activate { workspace: 1, output: "DP-1" };
    assert_eq!(a.event_type(), "activate");
    let d: WorkspaceEventData<u64, &str> = WorkspaceEventData::Deactivate { workspace: 1 };
    assert_eq!(d.event_type(), "deactivate");
    let c = MonitorEventData::Connect { output: "DP-1" };
    assert_eq!((c.event_type(), *c.output()), ("connect", "DP-1"));
    assert_eq!(MonitorEventData::Disconnect { output: "DP-1" }.event_type(), "disconnect");
    let m: LayoutEventData<u64> = LayoutEventData::ModeChanged { is_floating: true };
    assert_eq!(m.event_type(), "mode_changed");
    assert_eq!(LayoutEventData::WindowAdded { window: 7u64 }.event_type(), "window_added");
    assert_eq!(LayoutEventData::WindowRemoved { window: 7u64 }.event_type(), "window_removed");
}

#[test]
fn event_categories() {
    let e: Event = EventData::Window(WindowEventData::Open { window: 123 });
    assert_eq!((e.category(), e.event_type()), ("window", "open"));
    let e: Event = EventData::Workspace(WorkspaceEventData::Activate { workspace: "Main", output: "DP-1" });
    assert_eq!((e.category(), e.event_type()), ("workspace", "activate"));
    let e: Event = EventData::Monitor(MonitorEventData::Connect { output: "DP-1" });
    assert_eq!((e.category(), e.event_type()), ("monitor", "connect"));
    let e: Event = EventData::Layout(LayoutEventData::ModeChanged { is_floating: false });
    assert_eq!((e.category(), e.event_type()), ("layout", "mode_changed"));
}
