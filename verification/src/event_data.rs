//! The events that the compositor emits to Lua: their kinds, the category
//! each belongs to, and the `type` that its Lua table carries. The window,
//! workspace and output that an event carries are held as they come (`W`,
//! `S`, `O`); turning them into Lua tables is the caller's part.
use vstd::prelude::*;

verus! {

/// Window lifecycle event data.
pub enum WindowEventData<W> {
    /// Window has opened and is ready.
    Open { window: W },
    /// Window is closing.
    Close { window: W },
    /// Window gained focus.
    Focus { window: W },
    /// Window lost focus.
    Blur { window: W },
}

/// The `type` of a window event's table.
pub open spec fn window_event_type<W>(e: WindowEventData<W>) -> Seq<char> {
    match e {
        WindowEventData::Open { .. } => "open"@,
        WindowEventData::Close { .. } => "close"@,
        WindowEventData::Focus { .. } => "focus"@,
        WindowEventData::Blur { .. } => "blur"@,
    }
}

impl<W> WindowEventData<W> {
    /// The `type` of the event's table.
    pub fn event_type(&self) -> (r: &'static str)
        ensures
            r@ == window_event_type(*self),
    {
        match self {
            WindowEventData::Open { .. } => "open",
            WindowEventData::Close { .. } => "close",
            WindowEventData::Focus { .. } => "focus",
            WindowEventData::Blur { .. } => "blur",
        }
    }

    /// The window the event is about.
    pub fn window(&self) -> (r: &W)
        ensures
            *r == match *self {
                WindowEventData::Open { window } => window,
                WindowEventData::Close { window } => window,
                WindowEventData::Focus { window } => window,
                WindowEventData::Blur { window } => window,
            },
    {
        match self {
            WindowEventData::Open { window } => window,
            WindowEventData::Close { window } => window,
            WindowEventData::Focus { window } => window,
            WindowEventData::Blur { window } => window,
        }
    }
}

/// Workspace lifecycle event data.
pub enum WorkspaceEventData<S, O> {
    /// Workspace is now active on its output.
    Activate { workspace: S, output: O },
    /// Workspace is no longer active.
    Deactivate { workspace: S },
}

/// The `type` of a workspace event's table.
pub open spec fn workspace_event_type<S, O>(e: WorkspaceEventData<S, O>) -> Seq<char> {
    match e {
        WorkspaceEventData::Activate { .. } => "activate"@,
        WorkspaceEventData::Deactivate { .. } => "deactivate"@,
    }
}

impl<S, O> WorkspaceEventData<S, O> {
    /// The `type` of the event's table.
    pub fn event_type(&self) -> (r: &'static str)
        ensures
            r@ == workspace_event_type(*self),
    {
        match self {
            WorkspaceEventData::Activate { .. } => "activate",
            WorkspaceEventData::Deactivate { .. } => "deactivate",
        }
    }
}

/// Monitor (output) lifecycle event data.
pub enum MonitorEventData<O> {
    /// Monitor connected and ready.
    Connect { output: O },
    /// Monitor disconnected.
    Disconnect { output: O },
}

/// The `type` of a monitor event's table.
pub open spec fn monitor_event_type<O>(e: MonitorEventData<O>) -> Seq<char> {
    match e {
        MonitorEventData::Connect { .. } => "connect"@,
        MonitorEventData::Disconnect { .. } => "disconnect"@,
    }
}

impl<O> MonitorEventData<O> {
    /// The `type` of the event's table.
    pub fn event_type(&self) -> (r: &'static str)
        ensures
            r@ == monitor_event_type(*self),
    {
        match self {
            MonitorEventData::Connect { .. } => "connect",
            MonitorEventData::Disconnect { .. } => "disconnect",
        }
    }

    /// The output the event is about.
    pub fn output(&self) -> (r: &O)
        ensures
            *r == match *self {
                MonitorEventData::Connect { output } => output,
                MonitorEventData::Disconnect { output } => output,
            },
    {
        match self {
            MonitorEventData::Connect { output } => output,
            MonitorEventData::Disconnect { output } => output,
        }
    }
}

/// Layout change event data.
pub enum LayoutEventData<W> {
    /// Layout mode changed (tiling or floating).
    ModeChanged { is_floating: bool },
    /// Window was added to the layout.
    WindowAdded { window: W },
    /// Window was removed from the layout.
    WindowRemoved { window: W },
}

/// The `type` of a layout event's table.
pub open spec fn layout_event_type<W>(e: LayoutEventData<W>) -> Seq<char> {
    match e {
        LayoutEventData::ModeChanged { .. } => "mode_changed"@,
        LayoutEventData::WindowAdded { .. } => "window_added"@,
        LayoutEventData::WindowRemoved { .. } => "window_removed"@,
    }
}

impl<W> LayoutEventData<W> {
    /// The `type` of the event's table.
    pub fn event_type(&self) -> (r: &'static str)
        ensures
            r@ == layout_event_type(*self),
    {
        match self {
            LayoutEventData::ModeChanged { .. } => "mode_changed",
            LayoutEventData::WindowAdded { .. } => "window_added",
            LayoutEventData::WindowRemoved { .. } => "window_removed",
        }
    }
}

/// Event data of any kind, as the event system emits it.
pub enum EventData<W, S, O> {
    /// Window-related events.
    Window(WindowEventData<W>),
    /// Workspace-related events.
    Workspace(WorkspaceEventData<S, O>),
    /// Monitor-related events.
    Monitor(MonitorEventData<O>),
    /// Layout-related events.
    Layout(LayoutEventData<W>),
}

/// The category of an event.
pub open spec fn category_text<W, S, O>(e: EventData<W, S, O>) -> Seq<char> {
    match e {
        EventData::Window(_) => "window"@,
        EventData::Workspace(_) => "workspace"@,
        EventData::Monitor(_) => "monitor"@,
        EventData::Layout(_) => "layout"@,
    }
}

/// The `type` of an event's table: that of the event of its kind.
pub open spec fn event_type_text<W, S, O>(e: EventData<W, S, O>) -> Seq<char> {
    match e {
        EventData::Window(w) => window_event_type(w),
        EventData::Workspace(w) => workspace_event_type(w),
        EventData::Monitor(m) => monitor_event_type(m),
        EventData::Layout(l) => layout_event_type(l),
    }
}

impl<W, S, O> EventData<W, S, O> {
    /// The event's category (such as "window" or "workspace").
    pub fn category(&self) -> (r: &'static str)
        ensures
            r@ == category_text(*self),
    {
        match self {
            EventData::Window(_) => "window",
            EventData::Workspace(_) => "workspace",
            EventData::Monitor(_) => "monitor",
            EventData::Layout(_) => "layout",
        }
    }

    /// The `type` of the event's table.
    pub fn event_type(&self) -> (r: &'static str)
        ensures
            r@ == event_type_text(*self),
    {
        match self {
            EventData::Window(w) => w.event_type(),
            EventData::Workspace(w) => w.event_type(),
            EventData::Monitor(m) => m.event_type(),
            EventData::Layout(l) => l.event_type(),
        }
    }
}

} // verus!
