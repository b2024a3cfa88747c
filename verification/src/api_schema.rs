//! The schema of the niri Lua API: modules, types and type aliases, each with
//! its functions, parameters, returns and fields, as the documentation
//! generator and the run-time checks read them.
use vstd::prelude::*;

verus! {

/// A parameter of a function.
pub struct ParamSchema {
    pub name: &'static str,
    pub ty: &'static str,
    pub description: &'static str,
    pub optional: bool,
}

/// A value that a function returns.
pub struct ReturnSchema {
    pub ty: &'static str,
    pub description: &'static str,
}

/// A function, or a method when `is_method`.
pub struct FunctionSchema {
    pub name: &'static str,
    pub description: &'static str,
    pub is_method: bool,
    pub params: Vec<ParamSchema>,
    pub returns: Vec<ReturnSchema>,
}

/// A field of a module or a type.
pub struct FieldSchema {
    pub name: &'static str,
    pub ty: &'static str,
    pub description: &'static str,
}

/// A module of the API, by its dotted path.
pub struct ModuleSchema {
    pub path: &'static str,
    pub description: &'static str,
    pub functions: Vec<FunctionSchema>,
    pub fields: Vec<FieldSchema>,
}

/// A type (a class in the generated annotations).
pub struct TypeSchema {
    pub name: &'static str,
    pub description: &'static str,
    pub fields: Vec<FieldSchema>,
    pub methods: Vec<FunctionSchema>,
}

/// A type alias.
pub struct AliasSchema {
    pub name: &'static str,
    pub ty: &'static str,
    pub description: &'static str,
}

/// The whole API.
pub struct LuaApiSchema {
    pub modules: Vec<ModuleSchema>,
    pub types: Vec<TypeSchema>,
    pub aliases: Vec<AliasSchema>,
}

/// The complete schema of the niri Lua API: its modules, types and type
/// aliases, with the names of every module's functions.
pub fn niri_lua_api() -> (r: LuaApiSchema)
    ensures
        r.modules@.map_values(|m: ModuleSchema| m.path) =~= seq![
            "niri", "niri.utils", "niri.config", "niri.events", "niri.action", "niri.state",
            "niri.loop", "niri.keymap", "niri.window", "niri.overview", "niri.screenshot",
            "niri.os"
        ],
        r.types@.map_values(|t: TypeSchema| t.name) =~= seq![
            "Timer", "ProcessHandle", "Animation", "Filter", "WindowRule", "Gesture",
            "ConfigCollection", "ConfigSectionProxy"
        ],
        r.aliases@.map_values(|a: AliasSchema| a.name) =~= seq![
            "Window", "Workspace", "Output", "SizeChange", "PositionChange", "LayoutSwitchTarget",
            "WorkspaceReference", "EventHandlerId", "EventSpec", "HandlerIdMap", "BindEntry",
            "OutputConfig", "WindowRuleConfig", "CursorPosition", "ReservedSpace", "FocusMode",
            "KeyboardLayouts", "SpawnOpts", "SpawnResult"
        ],
        r.modules@[0].functions@.map_values(|f: FunctionSchema| f.name) =~= seq!["version", "print", "apply_config", "schedule"],
        r.modules@[1].functions@.map_values(|f: FunctionSchema| f.name) =~= seq!["log", "debug", "warn", "error", "spawn"],
        r.modules@[2].functions@.map_values(|f: FunctionSchema| f.name) =~= seq!["apply", "auto_apply", "version"],
        r.modules@[3].functions@.map_values(|f: FunctionSchema| f.name) =~= seq!["on", "once", "off", "emit"],
        r.modules@[4].functions@.map_values(|f: FunctionSchema| f.name) =~= seq![
            "quit", "power_off_monitors", "power_on_monitors", "spawn", "spawn_sh",
            "do_screen_transition", "load_config_file", "screenshot", "screenshot_screen",
            "screenshot_window", "close_window", "fullscreen_window", "toggle_windowed_fullscreen",
            "focus_window", "focus_window_in_column", "focus_window_previous",
            "toggle_keyboard_shortcuts_inhibit", "focus_column_left", "focus_column_right",
            "focus_column_first", "focus_column_last", "focus_column_right_or_first",
            "focus_column_left_or_last", "focus_column", "focus_window_down", "focus_window_up",
            "focus_window_down_or_column_left", "focus_window_down_or_column_right",
            "focus_window_up_or_column_left", "focus_window_up_or_column_right",
            "focus_window_or_monitor_up", "focus_window_or_monitor_down",
            "focus_column_or_monitor_left", "focus_column_or_monitor_right", "move_column_left",
            "move_column_right", "move_column_to_first", "move_column_to_last",
            "move_column_left_or_to_monitor_left", "move_column_right_or_to_monitor_right",
            "move_column_to_index", "move_window_down", "move_window_up",
            "move_window_down_or_to_workspace_down", "move_window_up_or_to_workspace_up",
            "consume_or_expel_window_left", "consume_or_expel_window_right",
            "consume_window_into_column", "expel_window_from_column", "swap_window_right",
            "swap_window_left", "toggle_column_tabbed_display", "set_column_display",
            "center_column", "center_window", "center_visible_columns", "focus_workspace_down",
            "focus_workspace_up", "focus_workspace", "focus_workspace_previous",
            "move_window_to_workspace_down", "move_window_to_workspace_up",
            "move_window_to_workspace", "move_column_to_workspace_down",
            "move_column_to_workspace_up", "move_column_to_workspace", "move_workspace_down",
            "move_workspace_up", "set_workspace_name", "unset_workspace_name",
            "focus_monitor_left", "focus_monitor_right", "focus_monitor_down", "focus_monitor_up",
            "focus_monitor_previous", "focus_monitor_next", "focus_monitor",
            "move_window_to_monitor_left", "move_window_to_monitor_right",
            "move_window_to_monitor_down", "move_window_to_monitor_up",
            "move_window_to_monitor_previous", "move_window_to_monitor_next",
            "move_window_to_monitor", "move_column_to_monitor_left",
            "move_column_to_monitor_right", "move_column_to_monitor_down",
            "move_column_to_monitor_up", "move_column_to_monitor_previous",
            "move_column_to_monitor_next", "move_column_to_monitor",
            "move_workspace_to_monitor_left", "move_workspace_to_monitor_right",
            "move_workspace_to_monitor_down", "move_workspace_to_monitor_up",
            "move_workspace_to_monitor_previous", "move_workspace_to_monitor_next",
            "move_workspace_to_monitor", "set_window_width", "set_window_height",
            "reset_window_height", "switch_preset_column_width",
            "switch_preset_column_width_reverse", "switch_preset_window_width",
            "switch_preset_window_width_reverse", "switch_preset_window_height",
            "switch_preset_window_height_reverse", "maximize_column", "maximize_window_to_edges",
            "set_column_width", "expand_column_to_available_width", "switch_layout",
            "show_hotkey_overlay", "toggle_debug_tint", "debug_toggle_opaque_regions",
            "debug_toggle_damage", "toggle_window_floating", "move_window_to_floating",
            "move_window_to_tiling", "focus_floating", "focus_tiling",
            "switch_focus_between_floating_and_tiling", "move_floating_window",
            "toggle_window_rule_opacity", "set_dynamic_cast_window", "set_dynamic_cast_monitor",
            "clear_dynamic_cast_target", "toggle_overview", "open_overview", "close_overview",
            "toggle_window_urgent", "set_window_urgent", "unset_window_urgent"
        ],
        r.modules@[5].functions@.map_values(|f: FunctionSchema| f.name) =~= seq![
            "windows", "focused_window", "workspaces", "outputs", "keyboard_layouts",
            "cursor_position", "reserved_space", "focus_mode"
        ],
        r.modules@[6].functions@.map_values(|f: FunctionSchema| f.name) =~= seq!["new_timer", "now"],
        r.modules@[7].functions@.map_values(|f: FunctionSchema| f.name) =~= seq!["set"],
        r.modules@[8].functions@.map_values(|f: FunctionSchema| f.name) =~= seq!["rule"],
        r.modules@[9].functions@.map_values(|f: FunctionSchema| f.name) =~= Seq::<&str>::empty(),
        r.modules@[10].functions@.map_values(|f: FunctionSchema| f.name) =~= Seq::<&str>::empty(),
        r.modules@[11].functions@.map_values(|f: FunctionSchema| f.name) =~= seq![
            "hostname", "getenv", "username", "home", "tmpdir", "platform", "arch",
            "xdg_config_home", "xdg_data_home", "xdg_cache_home", "xdg_state_home",
            "xdg_runtime_dir", "xdg_data_dirs", "xdg_config_dirs", "niri_config_dir",
            "niri_data_dir", "niri_cache_dir", "niri_state_dir", "setenv"
        ],
{
    LuaApiSchema {
        modules: vec![
            niri_module(),
            niri_utils_module(),
            niri_config_module(),
            niri_events_module(),
            niri_action_module(),
            niri_state_module(),
            niri_loop_module(),
            niri_keymap_module(),
            niri_window_module(),
            niri_overview_module(),
            niri_screenshot_module(),
            niri_os_module(),
        ],
        types: vec![
            timer_type(),
            process_handle_type(),
            animation_type(),
            filter_type(),
            window_rule_type(),
            gesture_type(),
            config_collection_type(),
            config_section_proxy_type(),
        ],
        aliases: vec![
            window_alias(),
            workspace_alias(),
            output_alias(),
            size_change_alias(),
            position_change_alias(),
            layout_switch_target_alias(),
            workspace_reference_alias(),
            event_handler_id_alias(),
            event_spec_alias(),
            handler_id_map_alias(),
            bind_entry_alias(),
            output_config_alias(),
            window_rule_config_alias(),
            cursor_position_alias(),
            reserved_space_alias(),
            focus_mode_alias(),
            keyboard_layouts_alias(),
            spawn_opts_alias(),
            spawn_result_alias(),
        ],
    }
}

/// The `Window` type alias.
fn window_alias() -> (r: AliasSchema)
    ensures
        r.name == "Window",
        r.ty == "{ id: integer, title: string?, app_id: string?, workspace_id: integer?, is_focused: boolean, is_floating: boolean }",
{
    AliasSchema {
        name: "Window",
        ty: "{ id: integer, title: string?, app_id: string?, workspace_id: integer?, is_focused: boolean, is_floating: boolean }",
        description: "Window information table",
    }
}

/// The `Workspace` type alias.
fn workspace_alias() -> (r: AliasSchema)
    ensures
        r.name == "Workspace",
        r.ty == "{ id: integer, idx: integer, name: string?, output: string?, is_active: boolean, is_focused: boolean, active_window_id: integer? }",
{
    AliasSchema {
        name: "Workspace",
        ty: "{ id: integer, idx: integer, name: string?, output: string?, is_active: boolean, is_focused: boolean, active_window_id: integer? }",
        description: "Workspace information table",
    }
}

/// The `Output` type alias.
fn output_alias() -> (r: AliasSchema)
    ensures
        r.name == "Output",
        r.ty == "{ name: string, make: string?, model: string?, serial: string?, physical_size: { width: integer, height: integer }?, current_mode: { width: integer, height: integer, refresh: integer }?, vrr_supported: boolean, vrr_enabled: boolean, x: integer?, y: integer?, scale: number?, logical_width: integer?, logical_height: integer?, transform: integer?, refresh_hz: number? }",
{
    AliasSchema {
        name: "Output",
        ty: "{ name: string, make: string?, model: string?, serial: string?, physical_size: { width: integer, height: integer }?, current_mode: { width: integer, height: integer, refresh: integer }?, vrr_supported: boolean, vrr_enabled: boolean, x: integer?, y: integer?, scale: number?, logical_width: integer?, logical_height: integer?, transform: integer?, refresh_hz: number? }",
        description: "Output/monitor information table with position, scale, and transform",
    }
}

/// The `SizeChange` type alias.
fn size_change_alias() -> (r: AliasSchema)
    ensures
        r.name == "SizeChange",
        r.ty == "integer|string",
{
    AliasSchema {
        name: "SizeChange",
        ty: "integer|string",
        description: "Size change value: integer for absolute, '+N'/'-N' for relative, 'N%' for percentage",
    }
}

/// The `PositionChange` type alias.
fn position_change_alias() -> (r: AliasSchema)
    ensures
        r.name == "PositionChange",
        r.ty == "integer|string",
{
    AliasSchema {
        name: "PositionChange",
        ty: "integer|string",
        description: "Position change value: integer for absolute, '+N'/'-N' for relative",
    }
}

/// The `LayoutSwitchTarget` type alias.
fn layout_switch_target_alias() -> (r: AliasSchema)
    ensures
        r.name == "LayoutSwitchTarget",
        r.ty == "\"next\"|\"prev\"|string",
{
    AliasSchema {
        name: "LayoutSwitchTarget",
        ty: "\"next\"|\"prev\"|string",
        description: "Layout switch target: 'next', 'prev', or layout name",
    }
}

/// The `WorkspaceReference` type alias.
fn workspace_reference_alias() -> (r: AliasSchema)
    ensures
        r.name == "WorkspaceReference",
        r.ty == "integer|string|{ id: integer }|{ name: string }|{ index: integer }",
{
    AliasSchema {
        name: "WorkspaceReference",
        ty: "integer|string|{ id: integer }|{ name: string }|{ index: integer }",
        description: "Workspace reference: index, name, or table with id/name/index",
    }
}

/// The `EventHandlerId` type alias.
fn event_handler_id_alias() -> (r: AliasSchema)
    ensures
        r.name == "EventHandlerId",
        r.ty == "integer",
{
    AliasSchema {
        name: "EventHandlerId",
        ty: "integer",
        description: "Event handler identifier returned by niri.events:on() or :once()",
    }
}

/// The `EventSpec` type alias.
fn event_spec_alias() -> (r: AliasSchema)
    ensures
        r.name == "EventSpec",
        r.ty == "string|string[]",
{
    AliasSchema {
        name: "EventSpec",
        ty: "string|string[]",
        description: "Event specification: single event name or array of event names",
    }
}

/// The `HandlerIdMap` type alias.
fn handler_id_map_alias() -> (r: AliasSchema)
    ensures
        r.name == "HandlerIdMap",
        r.ty == "table<string, EventHandlerId>",
{
    AliasSchema {
        name: "HandlerIdMap",
        ty: "table<string, EventHandlerId>",
        description: "Map of event names to handler IDs, returned when registering multiple events",
    }
}

/// The `BindEntry` type alias.
fn bind_entry_alias() -> (r: AliasSchema)
    ensures
        r.name == "BindEntry",
        r.ty == "{ key: string, action: string, args: any[]?, cooldown_ms: integer?, allow_when_locked: boolean? }",
{
    AliasSchema {
        name: "BindEntry",
        ty: "{ key: string, action: string, args: any[]?, cooldown_ms: integer?, allow_when_locked: boolean? }",
        description: "Keybinding entry with key combination, action, and optional parameters",
    }
}

/// The `OutputConfig` type alias.
fn output_config_alias() -> (r: AliasSchema)
    ensures
        r.name == "OutputConfig",
        r.ty == "{ name: string, mode: string?, scale: number?, position: { x: integer, y: integer }?, transform: string?, vrr: boolean? }",
{
    AliasSchema {
        name: "OutputConfig",
        ty: "{ name: string, mode: string?, scale: number?, position: { x: integer, y: integer }?, transform: string?, vrr: boolean? }",
        description: "Output/monitor configuration",
    }
}

/// The `WindowRuleConfig` type alias.
fn window_rule_config_alias() -> (r: AliasSchema)
    ensures
        r.name == "WindowRuleConfig",
        r.ty == "{ match: { app_id: string?, title: string?, is_floating: boolean?, at_startup: boolean? }?, default_column_width: table?, open_floating: boolean?, open_fullscreen: boolean?, open_maximized: boolean?, block_out_from: string?, opacity: number?, draw_border_with_background: boolean?, geometry_corner_radius: table?, clip_to_geometry: boolean?, focus_ring: table?, border: table? }",
{
    AliasSchema {
        name: "WindowRuleConfig",
        ty: "{ match: { app_id: string?, title: string?, is_floating: boolean?, at_startup: boolean? }?, default_column_width: table?, open_floating: boolean?, open_fullscreen: boolean?, open_maximized: boolean?, block_out_from: string?, opacity: number?, draw_border_with_background: boolean?, geometry_corner_radius: table?, clip_to_geometry: boolean?, focus_ring: table?, border: table? }",
        description: "Window rule configuration with match criteria and properties",
    }
}

/// The `CursorPosition` type alias.
fn cursor_position_alias() -> (r: AliasSchema)
    ensures
        r.name == "CursorPosition",
        r.ty == "{ x: number, y: number, output: string }",
{
    AliasSchema {
        name: "CursorPosition",
        ty: "{ x: number, y: number, output: string }",
        description: "Cursor position with coordinates and output name",
    }
}

/// The `ReservedSpace` type alias.
fn reserved_space_alias() -> (r: AliasSchema)
    ensures
        r.name == "ReservedSpace",
        r.ty == "{ top: integer, bottom: integer, left: integer, right: integer }",
{
    AliasSchema {
        name: "ReservedSpace",
        ty: "{ top: integer, bottom: integer, left: integer, right: integer }",
        description: "Reserved (exclusive) space on each edge from layer-shell surfaces",
    }
}

/// The `FocusMode` type alias.
fn focus_mode_alias() -> (r: AliasSchema)
    ensures
        r.name == "FocusMode",
        r.ty == "\"normal\"|\"overview\"|\"layer_shell\"|\"locked\"",
{
    AliasSchema {
        name: "FocusMode",
        ty: "\"normal\"|\"overview\"|\"layer_shell\"|\"locked\"",
        description: "Current compositor focus mode",
    }
}

/// The `KeyboardLayouts` type alias.
fn keyboard_layouts_alias() -> (r: AliasSchema)
    ensures
        r.name == "KeyboardLayouts",
        r.ty == "{ names: string[], current_idx: integer }",
{
    AliasSchema {
        name: "KeyboardLayouts",
        ty: "{ names: string[], current_idx: integer }",
        description: "Keyboard layout names and current active index",
    }
}

/// The `SpawnOpts` type alias.
fn spawn_opts_alias() -> (r: AliasSchema)
    ensures
        r.name == "SpawnOpts",
        r.ty == "{ cwd: string?, env: table<string, string>?, clear_env: boolean?, stdin: string|boolean|\"pipe\"?, stdin_pipe: boolean?, capture_stdout: boolean?, capture_stderr: boolean?, text: boolean?, detach: boolean?, stdout: boolean|fun(stream: \"stdout\"|\"stderr\", err: string?, chunk: string?)?, stderr: boolean|fun(stream: \"stdout\"|\"stderr\", err: string?, chunk: string?)?, on_exit: fun(result: SpawnResult)? }",
{
    AliasSchema {
        name: "SpawnOpts",
        ty: "{ cwd: string?, env: table<string, string>?, clear_env: boolean?, stdin: string|boolean|\"pipe\"?, stdin_pipe: boolean?, capture_stdout: boolean?, capture_stderr: boolean?, text: boolean?, detach: boolean?, stdout: boolean|fun(stream: \"stdout\"|\"stderr\", err: string?, chunk: string?)?, stderr: boolean|fun(stream: \"stdout\"|\"stderr\", err: string?, chunk: string?)?, on_exit: fun(result: SpawnResult)? }",
        description: "Options for spawn() and spawn_sh(). cwd: working directory, env: environment variables, stdin: input mode, capture_*: buffer output for wait(), text: decode as UTF-8, detach: fire-and-forget, stdout/stderr: streaming callbacks, on_exit: exit callback",
    }
}

/// The `SpawnResult` type alias.
fn spawn_result_alias() -> (r: AliasSchema)
    ensures
        r.name == "SpawnResult",
        r.ty == "{ code: integer?, signal: integer?, stdout: string, stderr: string }",
{
    AliasSchema {
        name: "SpawnResult",
        ty: "{ code: integer?, signal: integer?, stdout: string, stderr: string }",
        description: "Result from ProcessHandle:wait() or on_exit callback. code and signal are mutually exclusive.",
    }
}

/// The schema of the `niri` module.
fn niri_module() -> (r: ModuleSchema)
    ensures
        r.path == "niri",
        r.functions@.map_values(|f: FunctionSchema| f.name) =~= seq!["version", "print", "apply_config", "schedule"],
        r.fields@.map_values(|f: FieldSchema| f.name) =~= seq![
            "utils", "config", "events", "action", "state", "loop", "keymap", "window", "overview",
            "screenshot", "os"
        ],
{
    ModuleSchema {
        path: "niri",
        description: "Root niri namespace providing access to compositor functionality",
        functions: vec![
            FunctionSchema {
                name: "version",
                description: "Returns the niri version string",
                is_method: false,
                params: Vec::new(),
                returns: vec![
                    ReturnSchema { ty: "string", description: "niri version" },
                ],
            },
            FunctionSchema {
                name: "print",
                description: "Print values to the niri log (info level)",
                is_method: false,
                params: vec![
                    ParamSchema {
                        name: "...",
                        ty: "any",
                        description: "Values to print",
                        optional: false,
                    },
                ],
                returns: Vec::new(),
            },
            FunctionSchema {
                name: "apply_config",
                description: "Apply configuration from a Lua table",
                is_method: false,
                params: vec![
                    ParamSchema {
                        name: "config",
                        ty: "table",
                        description: "Configuration table",
                        optional: false,
                    },
                ],
                returns: Vec::new(),
            },
            FunctionSchema {
                name: "schedule",
                description: "Schedule a callback to run on the next event loop iteration. Useful for deferring work or avoiding reentrancy issues.",
                is_method: false,
                params: vec![
                    ParamSchema {
                        name: "callback",
                        ty: "function",
                        description: "Function to execute on next iteration",
                        optional: false,
                    },
                ],
                returns: Vec::new(),
            },
        ],
        fields: vec![
            FieldSchema { name: "utils", ty: "niri.utils", description: "Utility functions" },
            FieldSchema { name: "config", ty: "niri.config", description: "Configuration API" },
            FieldSchema {
                name: "events",
                ty: "niri.events",
                description: "Event system for subscribing to compositor events",
            },
            FieldSchema { name: "action", ty: "niri.action", description: "Compositor actions" },
            FieldSchema { name: "state", ty: "niri.state", description: "Runtime state queries" },
            FieldSchema { name: "loop", ty: "niri.loop", description: "Event loop and timers" },
            FieldSchema {
                name: "keymap",
                ty: "niri.keymap",
                description: "Keybinding configuration",
            },
            FieldSchema {
                name: "window",
                ty: "niri.window",
                description: "Window rules configuration",
            },
            FieldSchema {
                name: "overview",
                ty: "niri.overview",
                description: "Overview mode configuration",
            },
            FieldSchema {
                name: "screenshot",
                ty: "niri.screenshot",
                description: "Screenshot configuration",
            },
            FieldSchema {
                name: "os",
                ty: "niri.os",
                description: "Operating system utilities (hostname, getenv)",
            },
        ],
    }
}

/// The schema of the `niri.utils` module.
fn niri_utils_module() -> (r: ModuleSchema)
    ensures
        r.path == "niri.utils",
        r.functions@.map_values(|f: FunctionSchema| f.name) =~= seq!["log", "debug", "warn", "error", "spawn"],
        r.fields@.map_values(|f: FieldSchema| f.name) =~= Seq::<&str>::empty(),
{
    ModuleSchema {
        path: "niri.utils",
        description: "Utility functions for logging and process spawning",
        functions: vec![
            FunctionSchema {
                name: "log",
                description: "Log a message at info level",
                is_method: false,
                params: vec![
                    ParamSchema {
                        name: "...",
                        ty: "any",
                        description: "Values to log",
                        optional: false,
                    },
                ],
                returns: Vec::new(),
            },
            FunctionSchema {
                name: "debug",
                description: "Log a message at debug level",
                is_method: false,
                params: vec![
                    ParamSchema {
                        name: "...",
                        ty: "any",
                        description: "Values to log",
                        optional: false,
                    },
                ],
                returns: Vec::new(),
            },
            FunctionSchema {
                name: "warn",
                description: "Log a message at warning level",
                is_method: false,
                params: vec![
                    ParamSchema {
                        name: "...",
                        ty: "any",
                        description: "Values to log",
                        optional: false,
                    },
                ],
                returns: Vec::new(),
            },
            FunctionSchema {
                name: "error",
                description: "Log a message at error level",
                is_method: false,
                params: vec![
                    ParamSchema {
                        name: "...",
                        ty: "any",
                        description: "Values to log",
                        optional: false,
                    },
                ],
                returns: Vec::new(),
            },
            FunctionSchema {
                name: "spawn",
                description: "Spawn a command asynchronously",
                is_method: false,
                params: vec![
                    ParamSchema {
                        name: "command",
                        ty: "string[]",
                        description: "Command and arguments",
                        optional: false,
                    },
                ],
                returns: Vec::new(),
            },
        ],
        fields: Vec::new(),
    }
}

/// The schema of the `niri.config` module.
fn niri_config_module() -> (r: ModuleSchema)
    ensures
        r.path == "niri.config",
        r.functions@.map_values(|f: FunctionSchema| f.name) =~= seq!["apply", "auto_apply", "version"],
        r.fields@.map_values(|f: FieldSchema| f.name) =~= seq![
            "input", "layout", "cursor", "gestures", "recent_windows", "overview", "animations",
            "clipboard", "hotkey_overlay", "config_notification", "debug", "xwayland_satellite",
            "screenshot_path", "prefer_no_csd", "binds", "outputs", "workspaces", "window_rules",
            "layer_rules", "environment"
        ],
{
    ModuleSchema {
        path: "niri.config",
        description: "Configuration proxy for reading and modifying compositor settings",
        functions: vec![
            FunctionSchema {
                name: "apply",
                description: "Apply all staged configuration changes to the compositor",
                is_method: true,
                params: Vec::new(),
                returns: Vec::new(),
            },
            FunctionSchema {
                name: "auto_apply",
                description: "Enable or disable automatic application of config changes",
                is_method: true,
                params: vec![
                    ParamSchema {
                        name: "enable",
                        ty: "boolean",
                        description: "Whether to auto-apply changes",
                        optional: false,
                    },
                ],
                returns: Vec::new(),
            },
            FunctionSchema {
                name: "version",
                description: "Returns the config API version",
                is_method: false,
                params: Vec::new(),
                returns: vec![
                    ReturnSchema { ty: "string", description: "Config API version" },
                ],
            },
        ],
        fields: vec![
            FieldSchema {
                name: "input",
                ty: "ConfigSectionProxy",
                description: "Input device configuration (keyboard, mouse, touchpad, etc.)",
            },
            FieldSchema {
                name: "layout",
                ty: "ConfigSectionProxy",
                description: "Layout configuration (gaps, focus ring, border, shadow, etc.)",
            },
            FieldSchema {
                name: "cursor",
                ty: "ConfigSectionProxy",
                description: "Cursor configuration (size, theme, hide when typing)",
            },
            FieldSchema {
                name: "gestures",
                ty: "ConfigSectionProxy",
                description: "Gesture configuration (hot corners, touchpad gestures)",
            },
            FieldSchema {
                name: "recent_windows",
                ty: "ConfigSectionProxy",
                description: "Recent windows (MRU) configuration",
            },
            FieldSchema {
                name: "overview",
                ty: "ConfigSectionProxy",
                description: "Overview mode configuration (zoom, backdrop, shadows)",
            },
            FieldSchema {
                name: "animations",
                ty: "ConfigSectionProxy",
                description: "Animation configuration (off, slowdown)",
            },
            FieldSchema {
                name: "clipboard",
                ty: "ConfigSectionProxy",
                description: "Clipboard configuration",
            },
            FieldSchema {
                name: "hotkey_overlay",
                ty: "ConfigSectionProxy",
                description: "Hotkey overlay configuration",
            },
            FieldSchema {
                name: "config_notification",
                ty: "ConfigSectionProxy",
                description: "Config reload notification settings",
            },
            FieldSchema {
                name: "debug",
                ty: "ConfigSectionProxy",
                description: "Debug configuration options",
            },
            FieldSchema {
                name: "xwayland_satellite",
                ty: "ConfigSectionProxy",
                description: "Xwayland satellite configuration",
            },
            FieldSchema {
                name: "screenshot_path",
                ty: "string",
                description: "Screenshot save path pattern",
            },
            FieldSchema {
                name: "prefer_no_csd",
                ty: "boolean",
                description: "Prefer server-side decorations",
            },
            FieldSchema {
                name: "binds",
                ty: "ConfigCollection",
                description: "Keybindings collection",
            },
            FieldSchema {
                name: "outputs",
                ty: "ConfigCollection",
                description: "Output/monitor configurations",
            },
            FieldSchema {
                name: "workspaces",
                ty: "ConfigCollection",
                description: "Named workspaces",
            },
            FieldSchema {
                name: "window_rules",
                ty: "ConfigCollection",
                description: "Window rules",
            },
            FieldSchema {
                name: "layer_rules",
                ty: "ConfigCollection",
                description: "Layer shell rules",
            },
            FieldSchema {
                name: "environment",
                ty: "ConfigCollection",
                description: "Environment variables",
            },
        ],
    }
}

/// The schema of the `niri.events` module.
fn niri_events_module() -> (r: ModuleSchema)
    ensures
        r.path == "niri.events",
        r.functions@.map_values(|f: FunctionSchema| f.name) =~= seq!["on", "once", "off", "emit"],
        r.fields@.map_values(|f: FieldSchema| f.name) =~= Seq::<&str>::empty(),
{
    ModuleSchema {
        path: "niri.events",
        description: "Event system for subscribing to compositor events",
        functions: vec![
            FunctionSchema {
                name: "on",
                description: "Subscribe to event(s) with a callback. Pass a single event name to get a handler ID, or an array of event names to get a table mapping event names to handler IDs.",
                is_method: true,
                params: vec![
                    ParamSchema {
                        name: "event_spec",
                        ty: "EventSpec",
                        description: "Event name or array of event names (e.g., 'window:open' or {'window:open', 'window:close'})",
                        optional: false,
                    },
                    ParamSchema {
                        name: "callback",
                        ty: "fun(event: table)",
                        description: "Callback function receiving event data",
                        optional: false,
                    },
                ],
                returns: vec![
                    ReturnSchema {
                        ty: "EventHandlerId|HandlerIdMap",
                        description: "Handler ID (single event) or table of handler IDs (multiple events)",
                    },
                ],
            },
            FunctionSchema {
                name: "once",
                description: "Subscribe to event(s) for a single occurrence. Handler is automatically removed after firing. Pass a single event name to get a handler ID, or an array of event names to get a table mapping event names to handler IDs.",
                is_method: true,
                params: vec![
                    ParamSchema {
                        name: "event_spec",
                        ty: "EventSpec",
                        description: "Event name or array of event names",
                        optional: false,
                    },
                    ParamSchema {
                        name: "callback",
                        ty: "fun(event: table)",
                        description: "Callback function",
                        optional: false,
                    },
                ],
                returns: vec![
                    ReturnSchema {
                        ty: "EventHandlerId|HandlerIdMap",
                        description: "Handler ID (single event) or table of handler IDs (multiple events)",
                    },
                ],
            },
            FunctionSchema {
                name: "off",
                description: "Unsubscribe from event(s). Pass (event_name, handler_id) to remove a single handler, or pass a HandlerIdMap table to remove multiple handlers at once.",
                is_method: true,
                params: vec![
                    ParamSchema {
                        name: "event_or_map",
                        ty: "string|HandlerIdMap",
                        description: "Event name (with handler_id) or handler ID map from on()/once()",
                        optional: false,
                    },
                    ParamSchema {
                        name: "handler_id",
                        ty: "EventHandlerId",
                        description: "Handler ID (only when first arg is event name)",
                        optional: true,
                    },
                ],
                returns: vec![
                    ReturnSchema {
                        ty: "boolean|table<string, boolean>",
                        description: "True if handler removed (single) or table of results (multiple)",
                    },
                ],
            },
            FunctionSchema {
                name: "emit",
                description: "Emit a custom event (for testing or custom integrations)",
                is_method: true,
                params: vec![
                    ParamSchema {
                        name: "event_name",
                        ty: "string",
                        description: "Event name",
                        optional: false,
                    },
                    ParamSchema {
                        name: "data",
                        ty: "table?",
                        description: "Event data",
                        optional: true,
                    },
                ],
                returns: Vec::new(),
            },
        ],
        fields: Vec::new(),
    }
}

/// The schema of the `niri.keymap` module.
fn niri_keymap_module() -> (r: ModuleSchema)
    ensures
        r.path == "niri.keymap",
        r.functions@.map_values(|f: FunctionSchema| f.name) =~= seq!["set"],
        r.fields@.map_values(|f: FieldSchema| f.name) =~= Seq::<&str>::empty(),
{
    ModuleSchema {
        path: "niri.keymap",
        description: "Keybinding configuration",
        functions: vec![
            FunctionSchema {
                name: "set",
                description: "Set a keybinding",
                is_method: false,
                params: vec![
                    ParamSchema {
                        name: "mode",
                        ty: "string",
                        description: "Binding mode (e.g., 'normal')",
                        optional: false,
                    },
                    ParamSchema {
                        name: "key",
                        ty: "string",
                        description: "Key combination (e.g., 'Mod+Return')",
                        optional: false,
                    },
                    ParamSchema {
                        name: "callback",
                        ty: "fun()",
                        description: "Callback function",
                        optional: false,
                    },
                ],
                returns: Vec::new(),
            },
        ],
        fields: Vec::new(),
    }
}

/// The schema of the `niri.window` module.
fn niri_window_module() -> (r: ModuleSchema)
    ensures
        r.path == "niri.window",
        r.functions@.map_values(|f: FunctionSchema| f.name) =~= seq!["rule"],
        r.fields@.map_values(|f: FieldSchema| f.name) =~= Seq::<&str>::empty(),
{
    ModuleSchema {
        path: "niri.window",
        description: "Window rules configuration",
        functions: vec![
            FunctionSchema {
                name: "rule",
                description: "Define a window rule",
                is_method: false,
                params: vec![
                    ParamSchema {
                        name: "rule",
                        ty: "table",
                        description: "Window rule definition",
                        optional: false,
                    },
                ],
                returns: Vec::new(),
            },
        ],
        fields: Vec::new(),
    }
}

/// The schema of the `niri.overview` module.
fn niri_overview_module() -> (r: ModuleSchema)
    ensures
        r.path == "niri.overview",
        r.functions@.map_values(|f: FunctionSchema| f.name) =~= Seq::<&str>::empty(),
        r.fields@.map_values(|f: FieldSchema| f.name) =~= seq!["backdrop_color"],
{
    ModuleSchema {
        path: "niri.overview",
        description: "Overview mode configuration",
        functions: Vec::new(),
        fields: vec![
            FieldSchema {
                name: "backdrop_color",
                ty: "string?",
                description: "Backdrop color in hex format",
            },
        ],
    }
}

/// The schema of the `niri.screenshot` module.
fn niri_screenshot_module() -> (r: ModuleSchema)
    ensures
        r.path == "niri.screenshot",
        r.functions@.map_values(|f: FunctionSchema| f.name) =~= Seq::<&str>::empty(),
        r.fields@.map_values(|f: FieldSchema| f.name) =~= seq!["path"],
{
    ModuleSchema {
        path: "niri.screenshot",
        description: "Screenshot configuration",
        functions: Vec::new(),
        fields: vec![
            FieldSchema { name: "path", ty: "string?", description: "Screenshot save path" },
        ],
    }
}

/// The schema of the `niri.state` module.
fn niri_state_module() -> (r: ModuleSchema)
    ensures
        r.path == "niri.state",
        r.functions@.map_values(|f: FunctionSchema| f.name) =~= seq![
            "windows", "focused_window", "workspaces", "outputs", "keyboard_layouts",
            "cursor_position", "reserved_space", "focus_mode"
        ],
        r.fields@.map_values(|f: FieldSchema| f.name) =~= Seq::<&str>::empty(),
{
    ModuleSchema {
        path: "niri.state",
        description: "Runtime state queries for windows, workspaces, and outputs",
        functions: vec![
            FunctionSchema {
                name: "windows",
                description: "Get all windows",
                is_method: false,
                params: Vec::new(),
                returns: vec![
                    ReturnSchema { ty: "Window[]", description: "Array of window information" },
                ],
            },
            FunctionSchema {
                name: "focused_window",
                description: "Get the currently focused window",
                is_method: false,
                params: Vec::new(),
                returns: vec![
                    ReturnSchema { ty: "Window?", description: "Focused window or nil" },
                ],
            },
            FunctionSchema {
                name: "workspaces",
                description: "Get all workspaces",
                is_method: false,
                params: Vec::new(),
                returns: vec![
                    ReturnSchema {
                        ty: "Workspace[]",
                        description: "Array of workspace information",
                    },
                ],
            },
            FunctionSchema {
                name: "outputs",
                description: "Get all outputs/monitors with position, scale, and transform info",
                is_method: false,
                params: Vec::new(),
                returns: vec![
                    ReturnSchema { ty: "Output[]", description: "Array of output information" },
                ],
            },
            FunctionSchema {
                name: "keyboard_layouts",
                description: "Get keyboard layout information",
                is_method: false,
                params: Vec::new(),
                returns: vec![
                    ReturnSchema {
                        ty: "KeyboardLayouts",
                        description: "Keyboard layout names and current index",
                    },
                ],
            },
            FunctionSchema {
                name: "cursor_position",
                description: "Get current cursor position and output",
                is_method: false,
                params: Vec::new(),
                returns: vec![
                    ReturnSchema {
                        ty: "CursorPosition?",
                        description: "Cursor position {x, y, output} or nil if no cursor",
                    },
                ],
            },
            FunctionSchema {
                name: "reserved_space",
                description: "Get reserved (exclusive) space for an output from layer-shell surfaces",
                is_method: false,
                params: vec![
                    ParamSchema {
                        name: "output_name",
                        ty: "string",
                        description: "Output name to query",
                        optional: false,
                    },
                ],
                returns: vec![
                    ReturnSchema {
                        ty: "ReservedSpace?",
                        description: "Reserved space {top, bottom, left, right} or nil if output not found",
                    },
                ],
            },
            FunctionSchema {
                name: "focus_mode",
                description: "Get current focus mode (normal, overview, layer_shell, or locked)",
                is_method: false,
                params: Vec::new(),
                returns: vec![
                    ReturnSchema { ty: "FocusMode", description: "Current focus mode string" },
                ],
            },
        ],
        fields: Vec::new(),
    }
}

/// The schema of the `niri.loop` module.
fn niri_loop_module() -> (r: ModuleSchema)
    ensures
        r.path == "niri.loop",
        r.functions@.map_values(|f: FunctionSchema| f.name) =~= seq!["new_timer", "now"],
        r.fields@.map_values(|f: FieldSchema| f.name) =~= Seq::<&str>::empty(),
{
    ModuleSchema {
        path: "niri.loop",
        description: "Event loop and timer functionality",
        functions: vec![
            FunctionSchema {
                name: "new_timer",
                description: "Create a new timer",
                is_method: false,
                params: Vec::new(),
                returns: vec![
                    ReturnSchema { ty: "Timer", description: "New timer instance" },
                ],
            },
            FunctionSchema {
                name: "now",
                description: "Get current time in milliseconds since compositor start",
                is_method: false,
                params: Vec::new(),
                returns: vec![
                    ReturnSchema { ty: "integer", description: "Milliseconds since start" },
                ],
            },
        ],
        fields: Vec::new(),
    }
}

/// The schema of the `niri.action` module.
fn niri_action_module() -> (r: ModuleSchema)
    ensures
        r.path == "niri.action",
        r.functions@.map_values(|f: FunctionSchema| f.name) =~= seq![
            "quit", "power_off_monitors", "power_on_monitors", "spawn", "spawn_sh",
            "do_screen_transition", "load_config_file", "screenshot", "screenshot_screen",
            "screenshot_window", "close_window", "fullscreen_window", "toggle_windowed_fullscreen",
            "focus_window", "focus_window_in_column", "focus_window_previous",
            "toggle_keyboard_shortcuts_inhibit", "focus_column_left", "focus_column_right",
            "focus_column_first", "focus_column_last", "focus_column_right_or_first",
            "focus_column_left_or_last", "focus_column", "focus_window_down", "focus_window_up",
            "focus_window_down_or_column_left", "focus_window_down_or_column_right",
            "focus_window_up_or_column_left", "focus_window_up_or_column_right",
            "focus_window_or_monitor_up", "focus_window_or_monitor_down",
            "focus_column_or_monitor_left", "focus_column_or_monitor_right", "move_column_left",
            "move_column_right", "move_column_to_first", "move_column_to_last",
            "move_column_left_or_to_monitor_left", "move_column_right_or_to_monitor_right",
            "move_column_to_index", "move_window_down", "move_window_up",
            "move_window_down_or_to_workspace_down", "move_window_up_or_to_workspace_up",
            "consume_or_expel_window_left", "consume_or_expel_window_right",
            "consume_window_into_column", "expel_window_from_column", "swap_window_right",
            "swap_window_left", "toggle_column_tabbed_display", "set_column_display",
            "center_column", "center_window", "center_visible_columns", "focus_workspace_down",
            "focus_workspace_up", "focus_workspace", "focus_workspace_previous",
            "move_window_to_workspace_down", "move_window_to_workspace_up",
            "move_window_to_workspace", "move_column_to_workspace_down",
            "move_column_to_workspace_up", "move_column_to_workspace", "move_workspace_down",
            "move_workspace_up", "set_workspace_name", "unset_workspace_name",
            "focus_monitor_left", "focus_monitor_right", "focus_monitor_down", "focus_monitor_up",
            "focus_monitor_previous", "focus_monitor_next", "focus_monitor",
            "move_window_to_monitor_left", "move_window_to_monitor_right",
            "move_window_to_monitor_down", "move_window_to_monitor_up",
            "move_window_to_monitor_previous", "move_window_to_monitor_next",
            "move_window_to_monitor", "move_column_to_monitor_left",
            "move_column_to_monitor_right", "move_column_to_monitor_down",
            "move_column_to_monitor_up", "move_column_to_monitor_previous",
            "move_column_to_monitor_next", "move_column_to_monitor",
            "move_workspace_to_monitor_left", "move_workspace_to_monitor_right",
            "move_workspace_to_monitor_down", "move_workspace_to_monitor_up",
            "move_workspace_to_monitor_previous", "move_workspace_to_monitor_next",
            "move_workspace_to_monitor", "set_window_width", "set_window_height",
            "reset_window_height", "switch_preset_column_width",
            "switch_preset_column_width_reverse", "switch_preset_window_width",
            "switch_preset_window_width_reverse", "switch_preset_window_height",
            "switch_preset_window_height_reverse", "maximize_column", "maximize_window_to_edges",
            "set_column_width", "expand_column_to_available_width", "switch_layout",
            "show_hotkey_overlay", "toggle_debug_tint", "debug_toggle_opaque_regions",
            "debug_toggle_damage", "toggle_window_floating", "move_window_to_floating",
            "move_window_to_tiling", "focus_floating", "focus_tiling",
            "switch_focus_between_floating_and_tiling", "move_floating_window",
            "toggle_window_rule_opacity", "set_dynamic_cast_window", "set_dynamic_cast_monitor",
            "clear_dynamic_cast_target", "toggle_overview", "open_overview", "close_overview",
            "toggle_window_urgent", "set_window_urgent", "unset_window_urgent"
        ],
        r.fields@.map_values(|f: FieldSchema| f.name) =~= Seq::<&str>::empty(),
{
    ModuleSchema {
        path: "niri.action",
        description: "Compositor actions for window management, navigation, and system control",
        functions: vec![
            FunctionSchema {
                name: "quit",
                description: "Quit the compositor",
                is_method: true,
                params: vec![
                    ParamSchema {
                        name: "skip_confirmation",
                        ty: "boolean",
                        description: "Skip confirmation dialog",
                        optional: true,
                    },
                ],
                returns: Vec::new(),
            },
            FunctionSchema {
                name: "power_off_monitors",
                description: "Turn off all monitors",
                is_method: true,
                params: Vec::new(),
                returns: Vec::new(),
            },
            FunctionSchema {
                name: "power_on_monitors",
                description: "Turn on all monitors",
                is_method: true,
                params: Vec::new(),
                returns: Vec::new(),
            },
            FunctionSchema {
                name: "spawn",
                description: "Spawn a command. Without opts: fire-and-forget, returns nil. With opts: returns ProcessHandle for process control.",
                is_method: true,
                params: vec![
                    ParamSchema {
                        name: "command",
                        ty: "string[]",
                        description: "Command and arguments",
                        optional: false,
                    },
                    ParamSchema {
                        name: "opts",
                        ty: "SpawnOpts",
                        description: "Spawn options (cwd, env, stdin, capture, callbacks)",
                        optional: true,
                    },
                ],
                returns: vec![
                    ReturnSchema {
                        ty: "ProcessHandle?",
                        description: "Process handle when opts provided and detach is not true, nil otherwise",
                    },
                ],
            },
            FunctionSchema {
                name: "spawn_sh",
                description: "Spawn a shell command. Without opts: fire-and-forget, returns nil. With opts: returns ProcessHandle for process control.",
                is_method: true,
                params: vec![
                    ParamSchema {
                        name: "command",
                        ty: "string",
                        description: "Shell command string",
                        optional: false,
                    },
                    ParamSchema {
                        name: "opts",
                        ty: "SpawnOpts",
                        description: "Spawn options (cwd, env, stdin, capture, callbacks)",
                        optional: true,
                    },
                ],
                returns: vec![
                    ReturnSchema {
                        ty: "ProcessHandle?",
                        description: "Process handle when opts provided and detach is not true, nil otherwise",
                    },
                ],
            },
            FunctionSchema {
                name: "do_screen_transition",
                description: "Trigger a screen transition animation",
                is_method: true,
                params: vec![
                    ParamSchema {
                        name: "delay",
                        ty: "boolean",
                        description: "Whether to delay the transition",
                        optional: true,
                    },
                ],
                returns: Vec::new(),
            },
            FunctionSchema {
                name: "load_config_file",
                description: "Reload configuration from file",
                is_method: true,
                params: Vec::new(),
                returns: Vec::new(),
            },
            FunctionSchema {
                name: "screenshot",
                description: "Take a screenshot (interactive selection)",
                is_method: true,
                params: Vec::new(),
                returns: Vec::new(),
            },
            FunctionSchema {
                name: "screenshot_screen",
                description: "Screenshot the entire screen",
                is_method: true,
                params: Vec::new(),
                returns: Vec::new(),
            },
            FunctionSchema {
                name: "screenshot_window",
                description: "Screenshot the focused window",
                is_method: true,
                params: Vec::new(),
                returns: Vec::new(),
            },
            FunctionSchema {
                name: "close_window",
                description: "Close the focused window",
                is_method: true,
                params: Vec::new(),
                returns: Vec::new(),
            },
            FunctionSchema {
                name: "fullscreen_window",
                description: "Toggle fullscreen on the focused window",
                is_method: true,
                params: Vec::new(),
                returns: Vec::new(),
            },
            FunctionSchema {
                name: "toggle_windowed_fullscreen",
                description: "Toggle windowed fullscreen mode",
                is_method: true,
                params: Vec::new(),
                returns: Vec::new(),
            },
            FunctionSchema {
                name: "focus_window",
                description: "Focus a specific window by ID",
                is_method: true,
                params: vec![
                    ParamSchema {
                        name: "window_id",
                        ty: "integer",
                        description: "Window ID",
                        optional: false,
                    },
                ],
                returns: Vec::new(),
            },
            FunctionSchema {
                name: "focus_window_in_column",
                description: "Focus the window at index within current column",
                is_method: true,
                params: vec![
                    ParamSchema {
                        name: "index",
                        ty: "integer",
                        description: "1-based window index",
                        optional: false,
                    },
                ],
                returns: Vec::new(),
            },
            FunctionSchema {
                name: "focus_window_previous",
                description: "Focus the previously focused window",
                is_method: true,
                params: Vec::new(),
                returns: Vec::new(),
            },
            FunctionSchema {
                name: "toggle_keyboard_shortcuts_inhibit",
                description: "Toggle keyboard shortcuts inhibit for focused window",
                is_method: true,
                params: Vec::new(),
                returns: Vec::new(),
            },
            FunctionSchema {
                name: "focus_column_left",
                description: "Focus the column to the left",
                is_method: true,
                params: Vec::new(),
                returns: Vec::new(),
            },
            FunctionSchema {
                name: "focus_column_right",
                description: "Focus the column to the right",
                is_method: true,
                params: Vec::new(),
                returns: Vec::new(),
            },
            FunctionSchema {
                name: "focus_column_first",
                description: "Focus the first column",
                is_method: true,
                params: Vec::new(),
                returns: Vec::new(),
            },
            FunctionSchema {
                name: "focus_column_last",
                description: "Focus the last column",
                is_method: true,
                params: Vec::new(),
                returns: Vec::new(),
            },
            FunctionSchema {
                name: "focus_column_right_or_first",
                description: "Focus column to the right, wrapping to first",
                is_method: true,
                params: Vec::new(),
                returns: Vec::new(),
            },
            FunctionSchema {
                name: "focus_column_left_or_last",
                description: "Focus column to the left, wrapping to last",
                is_method: true,
                params: Vec::new(),
                returns: Vec::new(),
            },
            FunctionSchema {
                name: "focus_column",
                description: "Focus column at specific index",
                is_method: true,
                params: vec![
                    ParamSchema {
                        name: "index",
                        ty: "integer",
                        description: "1-based column index",
                        optional: false,
                    },
                ],
                returns: Vec::new(),
            },
            FunctionSchema {
                name: "focus_window_down",
                description: "Focus the window below in the column",
                is_method: true,
                params: Vec::new(),
                returns: Vec::new(),
            },
            FunctionSchema {
                name: "focus_window_up",
                description: "Focus the window above in the column",
                is_method: true,
                params: Vec::new(),
                returns: Vec::new(),
            },
            FunctionSchema {
                name: "focus_window_down_or_column_left",
                description: "Focus window below or column left if at bottom",
                is_method: true,
                params: Vec::new(),
                returns: Vec::new(),
            },
            FunctionSchema {
                name: "focus_window_down_or_column_right",
                description: "Focus window below or column right if at bottom",
                is_method: true,
                params: Vec::new(),
                returns: Vec::new(),
            },
            FunctionSchema {
                name: "focus_window_up_or_column_left",
                description: "Focus window above or column left if at top",
                is_method: true,
                params: Vec::new(),
                returns: Vec::new(),
            },
            FunctionSchema {
                name: "focus_window_up_or_column_right",
                description: "Focus window above or column right if at top",
                is_method: true,
                params: Vec::new(),
                returns: Vec::new(),
            },
            FunctionSchema {
                name: "focus_window_or_monitor_up",
                description: "Focus window above or monitor above",
                is_method: true,
                params: Vec::new(),
                returns: Vec::new(),
            },
            FunctionSchema {
                name: "focus_window_or_monitor_down",
                description: "Focus window below or monitor below",
                is_method: true,
                params: Vec::new(),
                returns: Vec::new(),
            },
            FunctionSchema {
                name: "focus_column_or_monitor_left",
                description: "Focus column left or monitor left",
                is_method: true,
                params: Vec::new(),
                returns: Vec::new(),
            },
            FunctionSchema {
                name: "focus_column_or_monitor_right",
                description: "Focus column right or monitor right",
                is_method: true,
                params: Vec::new(),
                returns: Vec::new(),
            },
            FunctionSchema {
                name: "move_column_left",
                description: "Move column to the left",
                is_method: true,
                params: Vec::new(),
                returns: Vec::new(),
            },
            FunctionSchema {
                name: "move_column_right",
                description: "Move column to the right",
                is_method: true,
                params: Vec::new(),
                returns: Vec::new(),
            },
            FunctionSchema {
                name: "move_column_to_first",
                description: "Move column to first position",
                is_method: true,
                params: Vec::new(),
                returns: Vec::new(),
            },
            FunctionSchema {
                name: "move_column_to_last",
                description: "Move column to last position",
                is_method: true,
                params: Vec::new(),
                returns: Vec::new(),
            },
            FunctionSchema {
                name: "move_column_left_or_to_monitor_left",
                description: "Move column left or to monitor left",
                is_method: true,
                params: Vec::new(),
                returns: Vec::new(),
            },
            FunctionSchema {
                name: "move_column_right_or_to_monitor_right",
                description: "Move column right or to monitor right",
                is_method: true,
                params: Vec::new(),
                returns: Vec::new(),
            },
            FunctionSchema {
                name: "move_column_to_index",
                description: "Move column to specific index",
                is_method: true,
                params: vec![
                    ParamSchema {
                        name: "index",
                        ty: "integer",
                        description: "1-based target index",
                        optional: false,
                    },
                ],
                returns: Vec::new(),
            },
            FunctionSchema {
                name: "move_window_down",
                description: "Move window down within column",
                is_method: true,
                params: Vec::new(),
                returns: Vec::new(),
            },
            FunctionSchema {
                name: "move_window_up",
                description: "Move window up within column",
                is_method: true,
                params: Vec::new(),
                returns: Vec::new(),
            },
            FunctionSchema {
                name: "move_window_down_or_to_workspace_down",
                description: "Move window down or to workspace below",
                is_method: true,
                params: Vec::new(),
                returns: Vec::new(),
            },
            FunctionSchema {
                name: "move_window_up_or_to_workspace_up",
                description: "Move window up or to workspace above",
                is_method: true,
                params: Vec::new(),
                returns: Vec::new(),
            },
            FunctionSchema {
                name: "consume_or_expel_window_left",
                description: "Consume window from left column or expel to left",
                is_method: true,
                params: Vec::new(),
                returns: Vec::new(),
            },
            FunctionSchema {
                name: "consume_or_expel_window_right",
                description: "Consume window from right column or expel to right",
                is_method: true,
                params: Vec::new(),
                returns: Vec::new(),
            },
            FunctionSchema {
                name: "consume_window_into_column",
                description: "Consume adjacent window into current column",
                is_method: true,
                params: Vec::new(),
                returns: Vec::new(),
            },
            FunctionSchema {
                name: "expel_window_from_column",
                description: "Expel focused window from column",
                is_method: true,
                params: Vec::new(),
                returns: Vec::new(),
            },
            FunctionSchema {
                name: "swap_window_right",
                description: "Swap window with the one to the right",
                is_method: true,
                params: Vec::new(),
                returns: Vec::new(),
            },
            FunctionSchema {
                name: "swap_window_left",
                description: "Swap window with the one to the left",
                is_method: true,
                params: Vec::new(),
                returns: Vec::new(),
            },
            FunctionSchema {
                name: "toggle_column_tabbed_display",
                description: "Toggle tabbed display for column",
                is_method: true,
                params: Vec::new(),
                returns: Vec::new(),
            },
            FunctionSchema {
                name: "set_column_display",
                description: "Set column display mode",
                is_method: true,
                params: vec![
                    ParamSchema {
                        name: "mode",
                        ty: "\"normal\"|\"tabbed\"",
                        description: "Display mode",
                        optional: false,
                    },
                ],
                returns: Vec::new(),
            },
            FunctionSchema {
                name: "center_column",
                description: "Center the current column on screen",
                is_method: true,
                params: Vec::new(),
                returns: Vec::new(),
            },
            FunctionSchema {
                name: "center_window",
                description: "Center the focused window on screen",
                is_method: true,
                params: Vec::new(),
                returns: Vec::new(),
            },
            FunctionSchema {
                name: "center_visible_columns",
                description: "Center all visible columns",
                is_method: true,
                params: Vec::new(),
                returns: Vec::new(),
            },
            FunctionSchema {
                name: "focus_workspace_down",
                description: "Focus the workspace below",
                is_method: true,
                params: Vec::new(),
                returns: Vec::new(),
            },
            FunctionSchema {
                name: "focus_workspace_up",
                description: "Focus the workspace above",
                is_method: true,
                params: Vec::new(),
                returns: Vec::new(),
            },
            FunctionSchema {
                name: "focus_workspace",
                description: "Focus a specific workspace",
                is_method: true,
                params: vec![
                    ParamSchema {
                        name: "reference",
                        ty: "WorkspaceReference",
                        description: "Workspace to focus",
                        optional: false,
                    },
                ],
                returns: Vec::new(),
            },
            FunctionSchema {
                name: "focus_workspace_previous",
                description: "Focus the previously active workspace",
                is_method: true,
                params: Vec::new(),
                returns: Vec::new(),
            },
            FunctionSchema {
                name: "move_window_to_workspace_down",
                description: "Move window to workspace below",
                is_method: true,
                params: Vec::new(),
                returns: Vec::new(),
            },
            FunctionSchema {
                name: "move_window_to_workspace_up",
                description: "Move window to workspace above",
                is_method: true,
                params: Vec::new(),
                returns: Vec::new(),
            },
            FunctionSchema {
                name: "move_window_to_workspace",
                description: "Move window to specific workspace",
                is_method: true,
                params: vec![
                    ParamSchema {
                        name: "reference",
                        ty: "WorkspaceReference",
                        description: "Target workspace",
                        optional: false,
                    },
                ],
                returns: Vec::new(),
            },
            FunctionSchema {
                name: "move_column_to_workspace_down",
                description: "Move column to workspace below",
                is_method: true,
                params: Vec::new(),
                returns: Vec::new(),
            },
            FunctionSchema {
                name: "move_column_to_workspace_up",
                description: "Move column to workspace above",
                is_method: true,
                params: Vec::new(),
                returns: Vec::new(),
            },
            FunctionSchema {
                name: "move_column_to_workspace",
                description: "Move column to specific workspace",
                is_method: true,
                params: vec![
                    ParamSchema {
                        name: "reference",
                        ty: "WorkspaceReference",
                        description: "Target workspace",
                        optional: false,
                    },
                ],
                returns: Vec::new(),
            },
            FunctionSchema {
                name: "move_workspace_down",
                description: "Move current workspace down",
                is_method: true,
                params: Vec::new(),
                returns: Vec::new(),
            },
            FunctionSchema {
                name: "move_workspace_up",
                description: "Move current workspace up",
                is_method: true,
                params: Vec::new(),
                returns: Vec::new(),
            },
            FunctionSchema {
                name: "set_workspace_name",
                description: "Set the name of current workspace",
                is_method: true,
                params: vec![
                    ParamSchema {
                        name: "name",
                        ty: "string",
                        description: "Workspace name",
                        optional: false,
                    },
                ],
                returns: Vec::new(),
            },
            FunctionSchema {
                name: "unset_workspace_name",
                description: "Clear the name of current workspace",
                is_method: true,
                params: Vec::new(),
                returns: Vec::new(),
            },
            FunctionSchema {
                name: "focus_monitor_left",
                description: "Focus monitor to the left",
                is_method: true,
                params: Vec::new(),
                returns: Vec::new(),
            },
            FunctionSchema {
                name: "focus_monitor_right",
                description: "Focus monitor to the right",
                is_method: true,
                params: Vec::new(),
                returns: Vec::new(),
            },
            FunctionSchema {
                name: "focus_monitor_down",
                description: "Focus monitor below",
                is_method: true,
                params: Vec::new(),
                returns: Vec::new(),
            },
            FunctionSchema {
                name: "focus_monitor_up",
                description: "Focus monitor above",
                is_method: true,
                params: Vec::new(),
                returns: Vec::new(),
            },
            FunctionSchema {
                name: "focus_monitor_previous",
                description: "Focus previously active monitor",
                is_method: true,
                params: Vec::new(),
                returns: Vec::new(),
            },
            FunctionSchema {
                name: "focus_monitor_next",
                description: "Focus next monitor in order",
                is_method: true,
                params: Vec::new(),
                returns: Vec::new(),
            },
            FunctionSchema {
                name: "focus_monitor",
                description: "Focus specific monitor by name",
                is_method: true,
                params: vec![
                    ParamSchema {
                        name: "name",
                        ty: "string",
                        description: "Monitor name",
                        optional: false,
                    },
                ],
                returns: Vec::new(),
            },
            FunctionSchema {
                name: "move_window_to_monitor_left",
                description: "Move window to monitor on the left",
                is_method: true,
                params: Vec::new(),
                returns: Vec::new(),
            },
            FunctionSchema {
                name: "move_window_to_monitor_right",
                description: "Move window to monitor on the right",
                is_method: true,
                params: Vec::new(),
                returns: Vec::new(),
            },
            FunctionSchema {
                name: "move_window_to_monitor_down",
                description: "Move window to monitor below",
                is_method: true,
                params: Vec::new(),
                returns: Vec::new(),
            },
            FunctionSchema {
                name: "move_window_to_monitor_up",
                description: "Move window to monitor above",
                is_method: true,
                params: Vec::new(),
                returns: Vec::new(),
            },
            FunctionSchema {
                name: "move_window_to_monitor_previous",
                description: "Move window to previously active monitor",
                is_method: true,
                params: Vec::new(),
                returns: Vec::new(),
            },
            FunctionSchema {
                name: "move_window_to_monitor_next",
                description: "Move window to next monitor",
                is_method: true,
                params: Vec::new(),
                returns: Vec::new(),
            },
            FunctionSchema {
                name: "move_window_to_monitor",
                description: "Move window to specific monitor",
                is_method: true,
                params: vec![
                    ParamSchema {
                        name: "name",
                        ty: "string",
                        description: "Monitor name",
                        optional: false,
                    },
                ],
                returns: Vec::new(),
            },
            FunctionSchema {
                name: "move_column_to_monitor_left",
                description: "Move column to monitor on the left",
                is_method: true,
                params: Vec::new(),
                returns: Vec::new(),
            },
            FunctionSchema {
                name: "move_column_to_monitor_right",
                description: "Move column to monitor on the right",
                is_method: true,
                params: Vec::new(),
                returns: Vec::new(),
            },
            FunctionSchema {
                name: "move_column_to_monitor_down",
                description: "Move column to monitor below",
                is_method: true,
                params: Vec::new(),
                returns: Vec::new(),
            },
            FunctionSchema {
                name: "move_column_to_monitor_up",
                description: "Move column to monitor above",
                is_method: true,
                params: Vec::new(),
                returns: Vec::new(),
            },
            FunctionSchema {
                name: "move_column_to_monitor_previous",
                description: "Move column to previously active monitor",
                is_method: true,
                params: Vec::new(),
                returns: Vec::new(),
            },
            FunctionSchema {
                name: "move_column_to_monitor_next",
                description: "Move column to next monitor",
                is_method: true,
                params: Vec::new(),
                returns: Vec::new(),
            },
            FunctionSchema {
                name: "move_column_to_monitor",
                description: "Move column to specific monitor",
                is_method: true,
                params: vec![
                    ParamSchema {
                        name: "name",
                        ty: "string",
                        description: "Monitor name",
                        optional: false,
                    },
                ],
                returns: Vec::new(),
            },
            FunctionSchema {
                name: "move_workspace_to_monitor_left",
                description: "Move workspace to monitor on the left",
                is_method: true,
                params: Vec::new(),
                returns: Vec::new(),
            },
            FunctionSchema {
                name: "move_workspace_to_monitor_right",
                description: "Move workspace to monitor on the right",
                is_method: true,
                params: Vec::new(),
                returns: Vec::new(),
            },
            FunctionSchema {
                name: "move_workspace_to_monitor_down",
                description: "Move workspace to monitor below",
                is_method: true,
                params: Vec::new(),
                returns: Vec::new(),
            },
            FunctionSchema {
                name: "move_workspace_to_monitor_up",
                description: "Move workspace to monitor above",
                is_method: true,
                params: Vec::new(),
                returns: Vec::new(),
            },
            FunctionSchema {
                name: "move_workspace_to_monitor_previous",
                description: "Move workspace to previously active monitor",
                is_method: true,
                params: Vec::new(),
                returns: Vec::new(),
            },
            FunctionSchema {
                name: "move_workspace_to_monitor_next",
                description: "Move workspace to next monitor",
                is_method: true,
                params: Vec::new(),
                returns: Vec::new(),
            },
            FunctionSchema {
                name: "move_workspace_to_monitor",
                description: "Move workspace to specific monitor",
                is_method: true,
                params: vec![
                    ParamSchema {
                        name: "name",
                        ty: "string",
                        description: "Monitor name",
                        optional: false,
                    },
                ],
                returns: Vec::new(),
            },
            FunctionSchema {
                name: "set_window_width",
                description: "Set the window width",
                is_method: true,
                params: vec![
                    ParamSchema {
                        name: "change",
                        ty: "SizeChange",
                        description: "Width change value",
                        optional: false,
                    },
                ],
                returns: Vec::new(),
            },
            FunctionSchema {
                name: "set_window_height",
                description: "Set the window height",
                is_method: true,
                params: vec![
                    ParamSchema {
                        name: "change",
                        ty: "SizeChange",
                        description: "Height change value",
                        optional: false,
                    },
                ],
                returns: Vec::new(),
            },
            FunctionSchema {
                name: "reset_window_height",
                description: "Reset window height to default",
                is_method: true,
                params: Vec::new(),
                returns: Vec::new(),
            },
            FunctionSchema {
                name: "switch_preset_column_width",
                description: "Switch to next preset column width",
                is_method: true,
                params: Vec::new(),
                returns: Vec::new(),
            },
            FunctionSchema {
                name: "switch_preset_column_width_reverse",
                description: "Switch to previous preset column width",
                is_method: true,
                params: Vec::new(),
                returns: Vec::new(),
            },
            FunctionSchema {
                name: "switch_preset_window_width",
                description: "Switch to next preset window width",
                is_method: true,
                params: Vec::new(),
                returns: Vec::new(),
            },
            FunctionSchema {
                name: "switch_preset_window_width_reverse",
                description: "Switch to previous preset window width",
                is_method: true,
                params: Vec::new(),
                returns: Vec::new(),
            },
            FunctionSchema {
                name: "switch_preset_window_height",
                description: "Switch to next preset window height",
                is_method: true,
                params: Vec::new(),
                returns: Vec::new(),
            },
            FunctionSchema {
                name: "switch_preset_window_height_reverse",
                description: "Switch to previous preset window height",
                is_method: true,
                params: Vec::new(),
                returns: Vec::new(),
            },
            FunctionSchema {
                name: "maximize_column",
                description: "Maximize column to fill workspace",
                is_method: true,
                params: Vec::new(),
                returns: Vec::new(),
            },
            FunctionSchema {
                name: "maximize_window_to_edges",
                description: "Maximize window to edges",
                is_method: true,
                params: Vec::new(),
                returns: Vec::new(),
            },
            FunctionSchema {
                name: "set_column_width",
                description: "Set column width",
                is_method: true,
                params: vec![
                    ParamSchema {
                        name: "change",
                        ty: "SizeChange",
                        description: "Width change value",
                        optional: false,
                    },
                ],
                returns: Vec::new(),
            },
            FunctionSchema {
                name: "expand_column_to_available_width",
                description: "Expand column to fill available width",
                is_method: true,
                params: Vec::new(),
                returns: Vec::new(),
            },
            FunctionSchema {
                name: "switch_layout",
                description: "Switch keyboard layout",
                is_method: true,
                params: vec![
                    ParamSchema {
                        name: "target",
                        ty: "LayoutSwitchTarget",
                        description: "Layout to switch to",
                        optional: false,
                    },
                ],
                returns: Vec::new(),
            },
            FunctionSchema {
                name: "show_hotkey_overlay",
                description: "Show the hotkey overlay",
                is_method: true,
                params: Vec::new(),
                returns: Vec::new(),
            },
            FunctionSchema {
                name: "toggle_debug_tint",
                description: "Toggle debug tint visualization",
                is_method: true,
                params: Vec::new(),
                returns: Vec::new(),
            },
            FunctionSchema {
                name: "debug_toggle_opaque_regions",
                description: "Toggle opaque regions debug visualization",
                is_method: true,
                params: Vec::new(),
                returns: Vec::new(),
            },
            FunctionSchema {
                name: "debug_toggle_damage",
                description: "Toggle damage debug visualization",
                is_method: true,
                params: Vec::new(),
                returns: Vec::new(),
            },
            FunctionSchema {
                name: "toggle_window_floating",
                description: "Toggle floating state of focused window",
                is_method: true,
                params: Vec::new(),
                returns: Vec::new(),
            },
            FunctionSchema {
                name: "move_window_to_floating",
                description: "Move focused window to floating layer",
                is_method: true,
                params: Vec::new(),
                returns: Vec::new(),
            },
            FunctionSchema {
                name: "move_window_to_tiling",
                description: "Move focused window to tiling layer",
                is_method: true,
                params: Vec::new(),
                returns: Vec::new(),
            },
            FunctionSchema {
                name: "focus_floating",
                description: "Focus floating layer",
                is_method: true,
                params: Vec::new(),
                returns: Vec::new(),
            },
            FunctionSchema {
                name: "focus_tiling",
                description: "Focus tiling layer",
                is_method: true,
                params: Vec::new(),
                returns: Vec::new(),
            },
            FunctionSchema {
                name: "switch_focus_between_floating_and_tiling",
                description: "Switch focus between floating and tiling layers",
                is_method: true,
                params: Vec::new(),
                returns: Vec::new(),
            },
            FunctionSchema {
                name: "move_floating_window",
                description: "Move floating window by offset",
                is_method: true,
                params: vec![
                    ParamSchema {
                        name: "x",
                        ty: "PositionChange",
                        description: "X offset",
                        optional: false,
                    },
                    ParamSchema {
                        name: "y",
                        ty: "PositionChange",
                        description: "Y offset",
                        optional: false,
                    },
                ],
                returns: Vec::new(),
            },
            FunctionSchema {
                name: "toggle_window_rule_opacity",
                description: "Toggle opacity rule for focused window",
                is_method: true,
                params: Vec::new(),
                returns: Vec::new(),
            },
            FunctionSchema {
                name: "set_dynamic_cast_window",
                description: "Set dynamic cast target to window",
                is_method: true,
                params: vec![
                    ParamSchema {
                        name: "window_id",
                        ty: "integer?",
                        description: "Window ID or nil for focused",
                        optional: true,
                    },
                ],
                returns: Vec::new(),
            },
            FunctionSchema {
                name: "set_dynamic_cast_monitor",
                description: "Set dynamic cast target to monitor",
                is_method: true,
                params: vec![
                    ParamSchema {
                        name: "monitor",
                        ty: "string?",
                        description: "Monitor name or nil for focused",
                        optional: true,
                    },
                ],
                returns: Vec::new(),
            },
            FunctionSchema {
                name: "clear_dynamic_cast_target",
                description: "Clear dynamic cast target",
                is_method: true,
                params: Vec::new(),
                returns: Vec::new(),
            },
            FunctionSchema {
                name: "toggle_overview",
                description: "Toggle overview mode",
                is_method: true,
                params: Vec::new(),
                returns: Vec::new(),
            },
            FunctionSchema {
                name: "open_overview",
                description: "Open overview mode",
                is_method: true,
                params: Vec::new(),
                returns: Vec::new(),
            },
            FunctionSchema {
                name: "close_overview",
                description: "Close overview mode",
                is_method: true,
                params: Vec::new(),
                returns: Vec::new(),
            },
            FunctionSchema {
                name: "toggle_window_urgent",
                description: "Toggle urgent state of focused window",
                is_method: true,
                params: Vec::new(),
                returns: Vec::new(),
            },
            FunctionSchema {
                name: "set_window_urgent",
                description: "Set focused window as urgent",
                is_method: true,
                params: Vec::new(),
                returns: Vec::new(),
            },
            FunctionSchema {
                name: "unset_window_urgent",
                description: "Clear urgent state of focused window",
                is_method: true,
                params: Vec::new(),
                returns: Vec::new(),
            },
        ],
        fields: Vec::new(),
    }
}

/// The schema of the `Timer` type.
fn timer_type() -> (r: TypeSchema)
    ensures
        r.name == "Timer",
        r.methods@.map_values(|f: FunctionSchema| f.name) =~= seq!["start", "stop", "close", "is_active"],
{
    TypeSchema {
        name: "Timer",
        description: "A timer for scheduling callbacks",
        fields: vec![
            FieldSchema { name: "id", ty: "integer", description: "Unique timer identifier" },
        ],
        methods: vec![
            FunctionSchema {
                name: "start",
                description: "Start the timer with a delay and optional repeat interval",
                is_method: true,
                params: vec![
                    ParamSchema {
                        name: "delay_ms",
                        ty: "integer",
                        description: "Delay in milliseconds before first callback",
                        optional: false,
                    },
                    ParamSchema {
                        name: "repeat_ms",
                        ty: "integer",
                        description: "Repeat interval in milliseconds (0 for one-shot)",
                        optional: true,
                    },
                    ParamSchema {
                        name: "callback",
                        ty: "fun()",
                        description: "Callback function",
                        optional: false,
                    },
                ],
                returns: vec![
                    ReturnSchema { ty: "Timer", description: "Self for chaining" },
                ],
            },
            FunctionSchema {
                name: "stop",
                description: "Stop the timer without closing it",
                is_method: true,
                params: Vec::new(),
                returns: vec![
                    ReturnSchema { ty: "Timer", description: "Self for chaining" },
                ],
            },
            FunctionSchema {
                name: "close",
                description: "Stop and close the timer, releasing resources",
                is_method: true,
                params: Vec::new(),
                returns: Vec::new(),
            },
            FunctionSchema {
                name: "is_active",
                description: "Check if the timer is currently active",
                is_method: true,
                params: Vec::new(),
                returns: vec![
                    ReturnSchema { ty: "boolean", description: "True if timer is active" },
                ],
            },
        ],
    }
}

/// The schema of the `ProcessHandle` type.
fn process_handle_type() -> (r: TypeSchema)
    ensures
        r.name == "ProcessHandle",
        r.methods@.map_values(|f: FunctionSchema| f.name) =~= seq!["wait", "kill", "write", "close_stdin", "is_closing"],
{
    TypeSchema {
        name: "ProcessHandle",
        description: "Handle for a spawned process, returned by spawn()/spawn_sh() when opts are provided",
        fields: vec![
            FieldSchema { name: "pid", ty: "integer", description: "Process ID (read-only)" },
        ],
        methods: vec![
            FunctionSchema {
                name: "wait",
                description: "Wait for process to exit. With timeout: sends SIGTERM then SIGKILL after grace period.",
                is_method: true,
                params: vec![
                    ParamSchema {
                        name: "timeout_ms",
                        ty: "integer",
                        description: "Timeout in milliseconds (optional)",
                        optional: true,
                    },
                ],
                returns: vec![
                    ReturnSchema {
                        ty: "SpawnResult",
                        description: "Process exit result with code/signal and captured output",
                    },
                ],
            },
            FunctionSchema {
                name: "kill",
                description: "Send signal to process. Default is SIGTERM.",
                is_method: true,
                params: vec![
                    ParamSchema {
                        name: "signal",
                        ty: "integer|string",
                        description: "Signal number or name (e.g., 15, 'TERM', 'KILL')",
                        optional: true,
                    },
                ],
                returns: vec![
                    ReturnSchema {
                        ty: "boolean",
                        description: "True if signal was sent successfully",
                    },
                ],
            },
            FunctionSchema {
                name: "write",
                description: "Write data to process stdin (only works if stdin='pipe')",
                is_method: true,
                params: vec![
                    ParamSchema {
                        name: "data",
                        ty: "string",
                        description: "Data to write",
                        optional: false,
                    },
                ],
                returns: vec![
                    ReturnSchema { ty: "boolean", description: "True if write succeeded" },
                ],
            },
            FunctionSchema {
                name: "close_stdin",
                description: "Close the stdin pipe",
                is_method: true,
                params: Vec::new(),
                returns: Vec::new(),
            },
            FunctionSchema {
                name: "is_closing",
                description: "Check if stdin has been closed",
                is_method: true,
                params: Vec::new(),
                returns: vec![
                    ReturnSchema { ty: "boolean", description: "True if stdin is closed" },
                ],
            },
        ],
    }
}

/// The schema of the `Animation` type.
fn animation_type() -> (r: TypeSchema)
    ensures
        r.name == "Animation",
        r.methods@.map_values(|f: FunctionSchema| f.name) =~= seq!["get_name", "get_duration", "get_curve", "with_duration", "with_curve"],
{
    TypeSchema {
        name: "Animation",
        description: "Animation configuration",
        fields: vec![
            FieldSchema { name: "name", ty: "string", description: "Animation name" },
            FieldSchema {
                name: "duration_ms",
                ty: "integer",
                description: "Duration in milliseconds",
            },
            FieldSchema { name: "curve", ty: "string", description: "Easing curve" },
        ],
        methods: vec![
            FunctionSchema {
                name: "get_name",
                description: "Get the animation name",
                is_method: true,
                params: Vec::new(),
                returns: vec![
                    ReturnSchema { ty: "string", description: "" },
                ],
            },
            FunctionSchema {
                name: "get_duration",
                description: "Get the duration in milliseconds",
                is_method: true,
                params: Vec::new(),
                returns: vec![
                    ReturnSchema { ty: "integer", description: "" },
                ],
            },
            FunctionSchema {
                name: "get_curve",
                description: "Get the easing curve",
                is_method: true,
                params: Vec::new(),
                returns: vec![
                    ReturnSchema { ty: "string", description: "" },
                ],
            },
            FunctionSchema {
                name: "with_duration",
                description: "Create a copy with different duration",
                is_method: true,
                params: vec![
                    ParamSchema {
                        name: "ms",
                        ty: "integer",
                        description: "Duration in milliseconds",
                        optional: false,
                    },
                ],
                returns: vec![
                    ReturnSchema {
                        ty: "Animation",
                        description: "New animation with updated duration",
                    },
                ],
            },
            FunctionSchema {
                name: "with_curve",
                description: "Create a copy with different easing curve",
                is_method: true,
                params: vec![
                    ParamSchema {
                        name: "curve",
                        ty: "string",
                        description: "Easing curve name",
                        optional: false,
                    },
                ],
                returns: vec![
                    ReturnSchema {
                        ty: "Animation",
                        description: "New animation with updated curve",
                    },
                ],
            },
        ],
    }
}

/// The schema of the `Filter` type.
fn filter_type() -> (r: TypeSchema)
    ensures
        r.name == "Filter",
        r.methods@.map_values(|f: FunctionSchema| f.name) =~= seq!["matches", "get_app_id", "get_title"],
{
    TypeSchema {
        name: "Filter",
        description: "Window filter for matching windows",
        fields: Vec::new(),
        methods: vec![
            FunctionSchema {
                name: "matches",
                description: "Check if a window matches this filter",
                is_method: true,
                params: vec![
                    ParamSchema {
                        name: "app_id",
                        ty: "string?",
                        description: "Application ID",
                        optional: false,
                    },
                    ParamSchema {
                        name: "title",
                        ty: "string?",
                        description: "Window title",
                        optional: false,
                    },
                ],
                returns: vec![
                    ReturnSchema { ty: "boolean", description: "True if window matches" },
                ],
            },
            FunctionSchema {
                name: "get_app_id",
                description: "Get the app_id pattern",
                is_method: true,
                params: Vec::new(),
                returns: vec![
                    ReturnSchema { ty: "string?", description: "" },
                ],
            },
            FunctionSchema {
                name: "get_title",
                description: "Get the title pattern",
                is_method: true,
                params: Vec::new(),
                returns: vec![
                    ReturnSchema { ty: "string?", description: "" },
                ],
            },
        ],
    }
}

/// The schema of the `WindowRule` type.
fn window_rule_type() -> (r: TypeSchema)
    ensures
        r.name == "WindowRule",
        r.methods@.map_values(|f: FunctionSchema| f.name) =~= seq![
            "matches", "get_floating", "get_fullscreen", "get_tile", "with_floating",
            "with_fullscreen", "with_tile"
        ],
{
    TypeSchema {
        name: "WindowRule",
        description: "Window rule configuration",
        fields: Vec::new(),
        methods: vec![
            FunctionSchema {
                name: "matches",
                description: "Check if a window matches this rule",
                is_method: true,
                params: vec![
                    ParamSchema {
                        name: "app_id",
                        ty: "string?",
                        description: "Application ID",
                        optional: false,
                    },
                    ParamSchema {
                        name: "title",
                        ty: "string?",
                        description: "Window title",
                        optional: false,
                    },
                ],
                returns: vec![
                    ReturnSchema { ty: "boolean", description: "True if window matches" },
                ],
            },
            FunctionSchema {
                name: "get_floating",
                description: "Get floating setting",
                is_method: true,
                params: Vec::new(),
                returns: vec![
                    ReturnSchema { ty: "boolean?", description: "" },
                ],
            },
            FunctionSchema {
                name: "get_fullscreen",
                description: "Get fullscreen setting",
                is_method: true,
                params: Vec::new(),
                returns: vec![
                    ReturnSchema { ty: "boolean?", description: "" },
                ],
            },
            FunctionSchema {
                name: "get_tile",
                description: "Get tile setting",
                is_method: true,
                params: Vec::new(),
                returns: vec![
                    ReturnSchema { ty: "boolean?", description: "" },
                ],
            },
            FunctionSchema {
                name: "with_floating",
                description: "Create a copy with floating setting",
                is_method: true,
                params: vec![
                    ParamSchema {
                        name: "floating",
                        ty: "boolean",
                        description: "Floating state",
                        optional: false,
                    },
                ],
                returns: vec![
                    ReturnSchema { ty: "WindowRule", description: "New rule with updated setting" },
                ],
            },
            FunctionSchema {
                name: "with_fullscreen",
                description: "Create a copy with fullscreen setting",
                is_method: true,
                params: vec![
                    ParamSchema {
                        name: "fullscreen",
                        ty: "boolean",
                        description: "Fullscreen state",
                        optional: false,
                    },
                ],
                returns: vec![
                    ReturnSchema { ty: "WindowRule", description: "New rule with updated setting" },
                ],
            },
            FunctionSchema {
                name: "with_tile",
                description: "Create a copy with tile setting",
                is_method: true,
                params: vec![
                    ParamSchema {
                        name: "tile",
                        ty: "boolean",
                        description: "Tile state",
                        optional: false,
                    },
                ],
                returns: vec![
                    ReturnSchema { ty: "WindowRule", description: "New rule with updated setting" },
                ],
            },
        ],
    }
}

/// The schema of the `Gesture` type.
fn gesture_type() -> (r: TypeSchema)
    ensures
        r.name == "Gesture",
        r.methods@.map_values(|f: FunctionSchema| f.name) =~= seq![
            "get_type", "get_fingers", "get_direction", "get_action", "with_direction",
            "with_action"
        ],
{
    TypeSchema {
        name: "Gesture",
        description: "Gesture configuration",
        fields: Vec::new(),
        methods: vec![
            FunctionSchema {
                name: "get_type",
                description: "Get the gesture type",
                is_method: true,
                params: Vec::new(),
                returns: vec![
                    ReturnSchema { ty: "string", description: "" },
                ],
            },
            FunctionSchema {
                name: "get_fingers",
                description: "Get the number of fingers",
                is_method: true,
                params: Vec::new(),
                returns: vec![
                    ReturnSchema { ty: "integer", description: "" },
                ],
            },
            FunctionSchema {
                name: "get_direction",
                description: "Get the gesture direction",
                is_method: true,
                params: Vec::new(),
                returns: vec![
                    ReturnSchema { ty: "string?", description: "" },
                ],
            },
            FunctionSchema {
                name: "get_action",
                description: "Get the bound action",
                is_method: true,
                params: Vec::new(),
                returns: vec![
                    ReturnSchema { ty: "string?", description: "" },
                ],
            },
            FunctionSchema {
                name: "with_direction",
                description: "Create a copy with different direction",
                is_method: true,
                params: vec![
                    ParamSchema {
                        name: "direction",
                        ty: "string",
                        description: "Gesture direction",
                        optional: false,
                    },
                ],
                returns: vec![
                    ReturnSchema {
                        ty: "Gesture",
                        description: "New gesture with updated direction",
                    },
                ],
            },
            FunctionSchema {
                name: "with_action",
                description: "Create a copy with different action",
                is_method: true,
                params: vec![
                    ParamSchema {
                        name: "action",
                        ty: "string",
                        description: "Action to bind",
                        optional: false,
                    },
                ],
                returns: vec![
                    ReturnSchema { ty: "Gesture", description: "New gesture with updated action" },
                ],
            },
        ],
    }
}

/// The schema of the `ConfigCollection` type.
fn config_collection_type() -> (r: TypeSchema)
    ensures
        r.name == "ConfigCollection",
        r.methods@.map_values(|f: FunctionSchema| f.name) =~= seq!["list", "get", "add", "set", "remove", "clear"],
{
    TypeSchema {
        name: "ConfigCollection",
        description: "Collection proxy for CRUD operations on config arrays (binds, outputs, window_rules, etc.)",
        fields: Vec::new(),
        methods: vec![
            FunctionSchema {
                name: "list",
                description: "Get all items in the collection",
                is_method: true,
                params: Vec::new(),
                returns: vec![
                    ReturnSchema { ty: "table[]", description: "Array of all items" },
                ],
            },
            FunctionSchema {
                name: "get",
                description: "Get items matching criteria",
                is_method: true,
                params: vec![
                    ParamSchema {
                        name: "criteria",
                        ty: "table",
                        description: "Match criteria (e.g., { key = 'Mod+T' })",
                        optional: false,
                    },
                ],
                returns: vec![
                    ReturnSchema { ty: "table[]", description: "Matching items" },
                ],
            },
            FunctionSchema {
                name: "add",
                description: "Add one or more items to the collection",
                is_method: true,
                params: vec![
                    ParamSchema {
                        name: "items",
                        ty: "table|table[]",
                        description: "Item or array of items to add",
                        optional: false,
                    },
                ],
                returns: Vec::new(),
            },
            FunctionSchema {
                name: "set",
                description: "Replace the entire collection with new items",
                is_method: true,
                params: vec![
                    ParamSchema {
                        name: "items",
                        ty: "table[]",
                        description: "New items to replace collection",
                        optional: false,
                    },
                ],
                returns: Vec::new(),
            },
            FunctionSchema {
                name: "remove",
                description: "Remove items matching criteria",
                is_method: true,
                params: vec![
                    ParamSchema {
                        name: "criteria",
                        ty: "table",
                        description: "Match criteria for removal",
                        optional: false,
                    },
                ],
                returns: vec![
                    ReturnSchema { ty: "integer", description: "Number of items removed" },
                ],
            },
            FunctionSchema {
                name: "clear",
                description: "Remove all items from the collection",
                is_method: true,
                params: Vec::new(),
                returns: Vec::new(),
            },
        ],
    }
}

/// The schema of the `ConfigSectionProxy` type.
fn config_section_proxy_type() -> (r: TypeSchema)
    ensures
        r.name == "ConfigSectionProxy",
        r.methods@.map_values(|f: FunctionSchema| f.name) =~= Seq::<&str>::empty(),
{
    TypeSchema {
        name: "ConfigSectionProxy",
        description: "Proxy for config sections supporting direct table assignment and nested property access",
        fields: Vec::new(),
        methods: Vec::new(),
    }
}

/// The schema of the `niri.os` module.
fn niri_os_module() -> (r: ModuleSchema)
    ensures
        r.path == "niri.os",
        r.functions@.map_values(|f: FunctionSchema| f.name) =~= seq![
            "hostname", "getenv", "username", "home", "tmpdir", "platform", "arch",
            "xdg_config_home", "xdg_data_home", "xdg_cache_home", "xdg_state_home",
            "xdg_runtime_dir", "xdg_data_dirs", "xdg_config_dirs", "niri_config_dir",
            "niri_data_dir", "niri_cache_dir", "niri_state_dir", "setenv"
        ],
        r.fields@.map_values(|f: FieldSchema| f.name) =~= Seq::<&str>::empty(),
{
    ModuleSchema {
        path: "niri.os",
        description: "Operating system utilities for conditional configuration",
        functions: vec![
            FunctionSchema {
                name: "hostname",
                description: "Get the system hostname. Throws on invalid UTF-8 (rare); returns empty string on other system errors.",
                is_method: false,
                params: Vec::new(),
                returns: vec![
                    ReturnSchema { ty: "string", description: "System hostname" },
                ],
            },
            FunctionSchema {
                name: "getenv",
                description: "Get the value of an environment variable. Returns nil if not set, empty string if set to empty.",
                is_method: false,
                params: vec![
                    ParamSchema {
                        name: "name",
                        ty: "string",
                        description: "Environment variable name",
                        optional: false,
                    },
                ],
                returns: vec![
                    ReturnSchema { ty: "string?", description: "Variable value or nil if not set" },
                ],
            },
            FunctionSchema {
                name: "username",
                description: "Get the current username. Returns nil if unavailable.",
                is_method: false,
                params: Vec::new(),
                returns: vec![
                    ReturnSchema { ty: "string?", description: "Current username or nil" },
                ],
            },
            FunctionSchema {
                name: "home",
                description: "Get the user's home directory path. Returns nil if unavailable.",
                is_method: false,
                params: Vec::new(),
                returns: vec![
                    ReturnSchema { ty: "string?", description: "Home directory path or nil" },
                ],
            },
            FunctionSchema {
                name: "tmpdir",
                description: "Get the system temporary directory path.",
                is_method: false,
                params: Vec::new(),
                returns: vec![
                    ReturnSchema { ty: "string", description: "Temporary directory path" },
                ],
            },
            FunctionSchema {
                name: "platform",
                description: "Get the operating system name (e.g., 'linux', 'macos', 'windows').",
                is_method: false,
                params: Vec::new(),
                returns: vec![
                    ReturnSchema { ty: "string", description: "Operating system name" },
                ],
            },
            FunctionSchema {
                name: "arch",
                description: "Get the CPU architecture (e.g., 'x86_64', 'aarch64').",
                is_method: false,
                params: Vec::new(),
                returns: vec![
                    ReturnSchema { ty: "string", description: "CPU architecture" },
                ],
            },
            FunctionSchema {
                name: "xdg_config_home",
                description: "Get XDG_CONFIG_HOME (~/.config by default).",
                is_method: false,
                params: Vec::new(),
                returns: vec![
                    ReturnSchema { ty: "string", description: "Config home directory path" },
                ],
            },
            FunctionSchema {
                name: "xdg_data_home",
                description: "Get XDG_DATA_HOME (~/.local/share by default).",
                is_method: false,
                params: Vec::new(),
                returns: vec![
                    ReturnSchema { ty: "string", description: "Data home directory path" },
                ],
            },
            FunctionSchema {
                name: "xdg_cache_home",
                description: "Get XDG_CACHE_HOME (~/.cache by default).",
                is_method: false,
                params: Vec::new(),
                returns: vec![
                    ReturnSchema { ty: "string", description: "Cache home directory path" },
                ],
            },
            FunctionSchema {
                name: "xdg_state_home",
                description: "Get XDG_STATE_HOME (~/.local/state by default).",
                is_method: false,
                params: Vec::new(),
                returns: vec![
                    ReturnSchema { ty: "string", description: "State home directory path" },
                ],
            },
            FunctionSchema {
                name: "xdg_runtime_dir",
                description: "Get XDG_RUNTIME_DIR. Returns nil if not set (uncommon on modern systems).",
                is_method: false,
                params: Vec::new(),
                returns: vec![
                    ReturnSchema { ty: "string?", description: "Runtime directory path or nil" },
                ],
            },
            FunctionSchema {
                name: "xdg_data_dirs",
                description: "Get XDG_DATA_DIRS as an array of paths (/usr/local/share:/usr/share by default).",
                is_method: false,
                params: Vec::new(),
                returns: vec![
                    ReturnSchema { ty: "string[]", description: "Array of data directory paths" },
                ],
            },
            FunctionSchema {
                name: "xdg_config_dirs",
                description: "Get XDG_CONFIG_DIRS as an array of paths (/etc/xdg by default).",
                is_method: false,
                params: Vec::new(),
                returns: vec![
                    ReturnSchema { ty: "string[]", description: "Array of config directory paths" },
                ],
            },
            FunctionSchema {
                name: "niri_config_dir",
                description: "Get the niri config directory ($XDG_CONFIG_HOME/niri). Creates if needed.",
                is_method: false,
                params: Vec::new(),
                returns: vec![
                    ReturnSchema { ty: "string", description: "Path to niri config directory" },
                ],
            },
            FunctionSchema {
                name: "niri_data_dir",
                description: "Get the niri data directory ($XDG_DATA_HOME/niri). Creates if needed.",
                is_method: false,
                params: Vec::new(),
                returns: vec![
                    ReturnSchema { ty: "string", description: "Path to niri data directory" },
                ],
            },
            FunctionSchema {
                name: "niri_cache_dir",
                description: "Get the niri cache directory ($XDG_CACHE_HOME/niri). Creates if needed.",
                is_method: false,
                params: Vec::new(),
                returns: vec![
                    ReturnSchema { ty: "string", description: "Path to niri cache directory" },
                ],
            },
            FunctionSchema {
                name: "niri_state_dir",
                description: "Get the niri state directory ($XDG_STATE_HOME/niri). Creates if needed.",
                is_method: false,
                params: Vec::new(),
                returns: vec![
                    ReturnSchema { ty: "string", description: "Path to niri state directory" },
                ],
            },
            FunctionSchema {
                name: "setenv",
                description: "Set or remove an environment variable. Pass nil as value to remove. Changes only affect current process and children.",
                is_method: false,
                params: vec![
                    ParamSchema {
                        name: "name",
                        ty: "string",
                        description: "Environment variable name",
                        optional: false,
                    },
                    ParamSchema {
                        name: "value",
                        ty: "string?",
                        description: "Value to set, or nil to remove the variable",
                        optional: true,
                    },
                ],
                returns: Vec::new(),
            },
        ],
        fields: Vec::new(),
    }
}

} // verus!
