//! Compositor actions named by key bindings and scripts.
use vstd::prelude::*;
use crate::text::{chars_of, eq_lit, string_from_chars};
use crate::numbers::parse_u8;
use crate::values::{
    parse_size_change, size_change_text, size_change_view, u8_value, ColumnDisplay,
    LayoutSwitchTarget, PositionChange, ScaledLiteral, SizeChange, WorkspaceReferenceArg,
};

verus! {

/// A number carried by an action: a value given as a number, that value
/// divided by 100 (a number given in per cent), an integer that stands for
/// the nearest number, or a literal read from text.
pub enum Amount<F> {
    Number(F),
    Percent(F),
    Whole(i64),
    Literal(ScaledLiteral),
}

/// An action that a key binding or a script can trigger.
#[allow(inconsistent_fields)]
pub enum Action<F> {
    Quit(bool),
    Suspend,
    PowerOffMonitors,
    PowerOnMonitors,
    ToggleDebugTint,
    DebugToggleOpaqueRegions,
    DebugToggleDamage,
    Spawn(Vec<String>),
    SpawnSh(String),
    DoScreenTransition(Option<u16>),
    ConfirmScreenshot { write_to_disk: bool },
    CancelScreenshot,
    ScreenshotTogglePointer,
    Screenshot(bool, Option<String>),
    ScreenshotScreen(bool, bool, Option<String>),
    ScreenshotWindow(bool, Option<String>),
    ScreenshotWindowById { id: u64, write_to_disk: bool, path: Option<String> },
    ToggleKeyboardShortcutsInhibit,
    LoadConfigFile,
    CloseWindow,
    CloseWindowById(u64),
    FullscreenWindow,
    FullscreenWindowById(u64),
    ToggleWindowedFullscreen,
    ToggleWindowedFullscreenById(u64),
    FocusWindow(u64),
    FocusWindowInColumn(u8),
    FocusWindowPrevious,
    FocusColumnLeft,
    FocusColumnLeftUnderMouse,
    FocusColumnRight,
    FocusColumnRightUnderMouse,
    FocusColumnFirst,
    FocusColumnLast,
    FocusColumnRightOrFirst,
    FocusColumnLeftOrLast,
    FocusColumn(usize),
    FocusWindowOrMonitorUp,
    FocusWindowOrMonitorDown,
    FocusColumnOrMonitorLeft,
    FocusColumnOrMonitorRight,
    FocusWindowDown,
    FocusWindowUp,
    FocusWindowDownOrColumnLeft,
    FocusWindowDownOrColumnRight,
    FocusWindowUpOrColumnLeft,
    FocusWindowUpOrColumnRight,
    FocusWindowOrWorkspaceDown,
    FocusWindowOrWorkspaceUp,
    FocusWindowTop,
    FocusWindowBottom,
    FocusWindowDownOrTop,
    FocusWindowUpOrBottom,
    MoveColumnLeft,
    MoveColumnRight,
    MoveColumnToFirst,
    MoveColumnToLast,
    MoveColumnLeftOrToMonitorLeft,
    MoveColumnRightOrToMonitorRight,
    MoveColumnToIndex(usize),
    MoveWindowDown,
    MoveWindowUp,
    MoveWindowDownOrToWorkspaceDown,
    MoveWindowUpOrToWorkspaceUp,
    ConsumeOrExpelWindowLeft,
    ConsumeOrExpelWindowLeftById(u64),
    ConsumeOrExpelWindowRight,
    ConsumeOrExpelWindowRightById(u64),
    ConsumeWindowIntoColumn,
    ExpelWindowFromColumn,
    SwapWindowLeft,
    SwapWindowRight,
    ToggleColumnTabbedDisplay,
    SetColumnDisplay(ColumnDisplay),
    CenterColumn,
    CenterWindow,
    CenterWindowById(u64),
    CenterVisibleColumns,
    ExpandColumnToAvailableWidth,
    FocusWorkspaceDown,
    FocusWorkspaceDownUnderMouse,
    FocusWorkspaceUp,
    FocusWorkspaceUpUnderMouse,
    FocusWorkspace(WorkspaceReferenceArg),
    FocusWorkspacePrevious,
    MoveWindowToWorkspaceDown(bool),
    MoveWindowToWorkspaceUp(bool),
    MoveWindowToWorkspace(WorkspaceReferenceArg, bool),
    MoveWindowToWorkspaceById { window_id: u64, reference: WorkspaceReferenceArg, focus: bool },
    MoveColumnToWorkspaceDown(bool),
    MoveColumnToWorkspaceUp(bool),
    MoveColumnToWorkspace(WorkspaceReferenceArg, bool),
    MoveWorkspaceDown,
    MoveWorkspaceUp,
    MoveWorkspaceToIndex(usize),
    MoveWorkspaceToIndexByRef { new_idx: usize, reference: WorkspaceReferenceArg },
    SetWorkspaceName(String),
    SetWorkspaceNameByRef { name: String, reference: WorkspaceReferenceArg },
    UnsetWorkspaceName,
    UnsetWorkSpaceNameByRef(WorkspaceReferenceArg),
    FocusMonitorLeft,
    FocusMonitorRight,
    FocusMonitorDown,
    FocusMonitorUp,
    FocusMonitorPrevious,
    FocusMonitorNext,
    FocusMonitor(String),
    MoveWindowToMonitorLeft,
    MoveWindowToMonitorRight,
    MoveWindowToMonitorDown,
    MoveWindowToMonitorUp,
    MoveWindowToMonitorPrevious,
    MoveWindowToMonitorNext,
    MoveWindowToMonitorById { id: u64, output: String },
    MoveWindowToMonitor(String),
    MoveColumnToMonitorLeft,
    MoveColumnToMonitorRight,
    MoveColumnToMonitorDown,
    MoveColumnToMonitorUp,
    MoveColumnToMonitorPrevious,
    MoveColumnToMonitorNext,
    MoveColumnToMonitor(String),
    MoveWorkspaceToMonitorLeft,
    MoveWorkspaceToMonitorRight,
    MoveWorkspaceToMonitorDown,
    MoveWorkspaceToMonitorUp,
    MoveWorkspaceToMonitorPrevious,
    MoveWorkspaceToMonitorNext,
    MoveWorkspaceToMonitorByRef { output_name: String, reference: WorkspaceReferenceArg },
    MoveWorkspaceToMonitor(String),
    SetWindowWidthById { id: u64, change: SizeChange<Amount<F>> },
    SetWindowWidth(SizeChange<Amount<F>>),
    SetWindowHeightById { id: u64, change: SizeChange<Amount<F>> },
    SetWindowHeight(SizeChange<Amount<F>>),
    ResetWindowHeightById(u64),
    ResetWindowHeight,
    SwitchPresetColumnWidth,
    SwitchPresetColumnWidthBack,
    SwitchPresetWindowWidthById(u64),
    SwitchPresetWindowWidth,
    SwitchPresetWindowWidthBackById(u64),
    SwitchPresetWindowWidthBack,
    SwitchPresetWindowHeightById(u64),
    SwitchPresetWindowHeight,
    SwitchPresetWindowHeightBackById(u64),
    SwitchPresetWindowHeightBack,
    MaximizeColumn,
    MaximizeWindowToEdgesById(u64),
    MaximizeWindowToEdges,
    SetColumnWidth(SizeChange<Amount<F>>),
    SwitchLayout(LayoutSwitchTarget),
    ShowHotkeyOverlay,
    ToggleWindowFloatingById(u64),
    ToggleWindowFloating,
    MoveWindowToFloatingById(u64),
    MoveWindowToFloating,
    MoveWindowToTilingById(u64),
    MoveWindowToTiling,
    FocusFloating,
    FocusTiling,
    SwitchFocusBetweenFloatingAndTiling,
    MoveFloatingWindowById { id: Option<u64>, x: PositionChange<Amount<F>>, y: PositionChange<Amount<F>> },
    ToggleWindowRuleOpacityById(u64),
    ToggleWindowRuleOpacity,
    ToggleOverview,
    OpenOverview,
    CloseOverview,
    SetDynamicCastWindowById(u64),
    SetDynamicCastWindow,
    SetDynamicCastMonitor(Option<String>),
    ClearDynamicCastTarget,
    ToggleWindowUrgent(u64),
    SetWindowUrgent(u64),
    UnsetWindowUrgent(u64),
}

/// The name of an action: its variant name in snake_case.
pub open spec fn action_name<F>(a: Action<F>) -> Seq<char> {
    match a {
        Action::Quit(..) => "quit"@,
        Action::Suspend => "suspend"@,
        Action::PowerOffMonitors => "power_off_monitors"@,
        Action::PowerOnMonitors => "power_on_monitors"@,
        Action::ToggleDebugTint => "toggle_debug_tint"@,
        Action::DebugToggleOpaqueRegions => "debug_toggle_opaque_regions"@,
        Action::DebugToggleDamage => "debug_toggle_damage"@,
        Action::Spawn(..) => "spawn"@,
        Action::SpawnSh(..) => "spawn_sh"@,
        Action::DoScreenTransition(..) => "do_screen_transition"@,
        Action::ConfirmScreenshot { .. } => "confirm_screenshot"@,
        Action::CancelScreenshot => "cancel_screenshot"@,
        Action::ScreenshotTogglePointer => "screenshot_toggle_pointer"@,
        Action::Screenshot(..) => "screenshot"@,
        Action::ScreenshotScreen(..) => "screenshot_screen"@,
        Action::ScreenshotWindow(..) => "screenshot_window"@,
        Action::ScreenshotWindowById { .. } => "screenshot_window_by_id"@,
        Action::ToggleKeyboardShortcutsInhibit => "toggle_keyboard_shortcuts_inhibit"@,
        Action::LoadConfigFile => "load_config_file"@,
        Action::CloseWindow => "close_window"@,
        Action::CloseWindowById(..) => "close_window_by_id"@,
        Action::FullscreenWindow => "fullscreen_window"@,
        Action::FullscreenWindowById(..) => "fullscreen_window_by_id"@,
        Action::ToggleWindowedFullscreen => "toggle_windowed_fullscreen"@,
        Action::ToggleWindowedFullscreenById(..) => "toggle_windowed_fullscreen_by_id"@,
        Action::FocusWindow(..) => "focus_window"@,
        Action::FocusWindowInColumn(..) => "focus_window_in_column"@,
        Action::FocusWindowPrevious => "focus_window_previous"@,
        Action::FocusColumnLeft => "focus_column_left"@,
        Action::FocusColumnLeftUnderMouse => "focus_column_left_under_mouse"@,
        Action::FocusColumnRight => "focus_column_right"@,
        Action::FocusColumnRightUnderMouse => "focus_column_right_under_mouse"@,
        Action::FocusColumnFirst => "focus_column_first"@,
        Action::FocusColumnLast => "focus_column_last"@,
        Action::FocusColumnRightOrFirst => "focus_column_right_or_first"@,
        Action::FocusColumnLeftOrLast => "focus_column_left_or_last"@,
        Action::FocusColumn(..) => "focus_column"@,
        Action::FocusWindowOrMonitorUp => "focus_window_or_monitor_up"@,
        Action::FocusWindowOrMonitorDown => "focus_window_or_monitor_down"@,
        Action::FocusColumnOrMonitorLeft => "focus_column_or_monitor_left"@,
        Action::FocusColumnOrMonitorRight => "focus_column_or_monitor_right"@,
        Action::FocusWindowDown => "focus_window_down"@,
        Action::FocusWindowUp => "focus_window_up"@,
        Action::FocusWindowDownOrColumnLeft => "focus_window_down_or_column_left"@,
        Action::FocusWindowDownOrColumnRight => "focus_window_down_or_column_right"@,
        Action::FocusWindowUpOrColumnLeft => "focus_window_up_or_column_left"@,
        Action::FocusWindowUpOrColumnRight => "focus_window_up_or_column_right"@,
        Action::FocusWindowOrWorkspaceDown => "focus_window_or_workspace_down"@,
        Action::FocusWindowOrWorkspaceUp => "focus_window_or_workspace_up"@,
        Action::FocusWindowTop => "focus_window_top"@,
        Action::FocusWindowBottom => "focus_window_bottom"@,
        Action::FocusWindowDownOrTop => "focus_window_down_or_top"@,
        Action::FocusWindowUpOrBottom => "focus_window_up_or_bottom"@,
        Action::MoveColumnLeft => "move_column_left"@,
        Action::MoveColumnRight => "move_column_right"@,
        Action::MoveColumnToFirst => "move_column_to_first"@,
        Action::MoveColumnToLast => "move_column_to_last"@,
        Action::MoveColumnLeftOrToMonitorLeft => "move_column_left_or_to_monitor_left"@,
        Action::MoveColumnRightOrToMonitorRight => "move_column_right_or_to_monitor_right"@,
        Action::MoveColumnToIndex(..) => "move_column_to_index"@,
        Action::MoveWindowDown => "move_window_down"@,
        Action::MoveWindowUp => "move_window_up"@,
        Action::MoveWindowDownOrToWorkspaceDown => "move_window_down_or_to_workspace_down"@,
        Action::MoveWindowUpOrToWorkspaceUp => "move_window_up_or_to_workspace_up"@,
        Action::ConsumeOrExpelWindowLeft => "consume_or_expel_window_left"@,
        Action::ConsumeOrExpelWindowLeftById(..) => "consume_or_expel_window_left_by_id"@,
        Action::ConsumeOrExpelWindowRight => "consume_or_expel_window_right"@,
        Action::ConsumeOrExpelWindowRightById(..) => "consume_or_expel_window_right_by_id"@,
        Action::ConsumeWindowIntoColumn => "consume_window_into_column"@,
        Action::ExpelWindowFromColumn => "expel_window_from_column"@,
        Action::SwapWindowLeft => "swap_window_left"@,
        Action::SwapWindowRight => "swap_window_right"@,
        Action::ToggleColumnTabbedDisplay => "toggle_column_tabbed_display"@,
        Action::SetColumnDisplay(..) => "set_column_display"@,
        Action::CenterColumn => "center_column"@,
        Action::CenterWindow => "center_window"@,
        Action::CenterWindowById(..) => "center_window_by_id"@,
        Action::CenterVisibleColumns => "center_visible_columns"@,
        Action::ExpandColumnToAvailableWidth => "expand_column_to_available_width"@,
        Action::FocusWorkspaceDown => "focus_workspace_down"@,
        Action::FocusWorkspaceDownUnderMouse => "focus_workspace_down_under_mouse"@,
        Action::FocusWorkspaceUp => "focus_workspace_up"@,
        Action::FocusWorkspaceUpUnderMouse => "focus_workspace_up_under_mouse"@,
        Action::FocusWorkspace(..) => "focus_workspace"@,
        Action::FocusWorkspacePrevious => "focus_workspace_previous"@,
        Action::MoveWindowToWorkspaceDown(..) => "move_window_to_workspace_down"@,
        Action::MoveWindowToWorkspaceUp(..) => "move_window_to_workspace_up"@,
        Action::MoveWindowToWorkspace(..) => "move_window_to_workspace"@,
        Action::MoveWindowToWorkspaceById { .. } => "move_window_to_workspace_by_id"@,
        Action::MoveColumnToWorkspaceDown(..) => "move_column_to_workspace_down"@,
        Action::MoveColumnToWorkspaceUp(..) => "move_column_to_workspace_up"@,
        Action::MoveColumnToWorkspace(..) => "move_column_to_workspace"@,
        Action::MoveWorkspaceDown => "move_workspace_down"@,
        Action::MoveWorkspaceUp => "move_workspace_up"@,
        Action::MoveWorkspaceToIndex(..) => "move_workspace_to_index"@,
        Action::MoveWorkspaceToIndexByRef { .. } => "move_workspace_to_index_by_ref"@,
        Action::SetWorkspaceName(..) => "set_workspace_name"@,
        Action::SetWorkspaceNameByRef { .. } => "set_workspace_name_by_ref"@,
        Action::UnsetWorkspaceName => "unset_workspace_name"@,
        Action::UnsetWorkSpaceNameByRef(..) => "unset_work_space_name_by_ref"@,
        Action::FocusMonitorLeft => "focus_monitor_left"@,
        Action::FocusMonitorRight => "focus_monitor_right"@,
        Action::FocusMonitorDown => "focus_monitor_down"@,
        Action::FocusMonitorUp => "focus_monitor_up"@,
        Action::FocusMonitorPrevious => "focus_monitor_previous"@,
        Action::FocusMonitorNext => "focus_monitor_next"@,
        Action::FocusMonitor(..) => "focus_monitor"@,
        Action::MoveWindowToMonitorLeft => "move_window_to_monitor_left"@,
        Action::MoveWindowToMonitorRight => "move_window_to_monitor_right"@,
        Action::MoveWindowToMonitorDown => "move_window_to_monitor_down"@,
        Action::MoveWindowToMonitorUp => "move_window_to_monitor_up"@,
        Action::MoveWindowToMonitorPrevious => "move_window_to_monitor_previous"@,
        Action::MoveWindowToMonitorNext => "move_window_to_monitor_next"@,
        Action::MoveWindowToMonitorById { .. } => "move_window_to_monitor_by_id"@,
        Action::MoveWindowToMonitor(..) => "move_window_to_monitor"@,
        Action::MoveColumnToMonitorLeft => "move_column_to_monitor_left"@,
        Action::MoveColumnToMonitorRight => "move_column_to_monitor_right"@,
        Action::MoveColumnToMonitorDown => "move_column_to_monitor_down"@,
        Action::MoveColumnToMonitorUp => "move_column_to_monitor_up"@,
        Action::MoveColumnToMonitorPrevious => "move_column_to_monitor_previous"@,
        Action::MoveColumnToMonitorNext => "move_column_to_monitor_next"@,
        Action::MoveColumnToMonitor(..) => "move_column_to_monitor"@,
        Action::MoveWorkspaceToMonitorLeft => "move_workspace_to_monitor_left"@,
        Action::MoveWorkspaceToMonitorRight => "move_workspace_to_monitor_right"@,
        Action::MoveWorkspaceToMonitorDown => "move_workspace_to_monitor_down"@,
        Action::MoveWorkspaceToMonitorUp => "move_workspace_to_monitor_up"@,
        Action::MoveWorkspaceToMonitorPrevious => "move_workspace_to_monitor_previous"@,
        Action::MoveWorkspaceToMonitorNext => "move_workspace_to_monitor_next"@,
        Action::MoveWorkspaceToMonitorByRef { .. } => "move_workspace_to_monitor_by_ref"@,
        Action::MoveWorkspaceToMonitor(..) => "move_workspace_to_monitor"@,
        Action::SetWindowWidthById { .. } => "set_window_width_by_id"@,
        Action::SetWindowWidth(..) => "set_window_width"@,
        Action::SetWindowHeightById { .. } => "set_window_height_by_id"@,
        Action::SetWindowHeight(..) => "set_window_height"@,
        Action::ResetWindowHeightById(..) => "reset_window_height_by_id"@,
        Action::ResetWindowHeight => "reset_window_height"@,
        Action::SwitchPresetColumnWidth => "switch_preset_column_width"@,
        Action::SwitchPresetColumnWidthBack => "switch_preset_column_width_back"@,
        Action::SwitchPresetWindowWidthById(..) => "switch_preset_window_width_by_id"@,
        Action::SwitchPresetWindowWidth => "switch_preset_window_width"@,
        Action::SwitchPresetWindowWidthBackById(..) => "switch_preset_window_width_back_by_id"@,
        Action::SwitchPresetWindowWidthBack => "switch_preset_window_width_back"@,
        Action::SwitchPresetWindowHeightById(..) => "switch_preset_window_height_by_id"@,
        Action::SwitchPresetWindowHeight => "switch_preset_window_height"@,
        Action::SwitchPresetWindowHeightBackById(..) => "switch_preset_window_height_back_by_id"@,
        Action::SwitchPresetWindowHeightBack => "switch_preset_window_height_back"@,
        Action::MaximizeColumn => "maximize_column"@,
        Action::MaximizeWindowToEdgesById(..) => "maximize_window_to_edges_by_id"@,
        Action::MaximizeWindowToEdges => "maximize_window_to_edges"@,
        Action::SetColumnWidth(..) => "set_column_width"@,
        Action::SwitchLayout(..) => "switch_layout"@,
        Action::ShowHotkeyOverlay => "show_hotkey_overlay"@,
        Action::ToggleWindowFloatingById(..) => "toggle_window_floating_by_id"@,
        Action::ToggleWindowFloating => "toggle_window_floating"@,
        Action::MoveWindowToFloatingById(..) => "move_window_to_floating_by_id"@,
        Action::MoveWindowToFloating => "move_window_to_floating"@,
        Action::MoveWindowToTilingById(..) => "move_window_to_tiling_by_id"@,
        Action::MoveWindowToTiling => "move_window_to_tiling"@,
        Action::FocusFloating => "focus_floating"@,
        Action::FocusTiling => "focus_tiling"@,
        Action::SwitchFocusBetweenFloatingAndTiling => "switch_focus_between_floating_and_tiling"@,
        Action::MoveFloatingWindowById { .. } => "move_floating_window_by_id"@,
        Action::ToggleWindowRuleOpacityById(..) => "toggle_window_rule_opacity_by_id"@,
        Action::ToggleWindowRuleOpacity => "toggle_window_rule_opacity"@,
        Action::ToggleOverview => "toggle_overview"@,
        Action::OpenOverview => "open_overview"@,
        Action::CloseOverview => "close_overview"@,
        Action::SetDynamicCastWindowById(..) => "set_dynamic_cast_window_by_id"@,
        Action::SetDynamicCastWindow => "set_dynamic_cast_window"@,
        Action::SetDynamicCastMonitor(..) => "set_dynamic_cast_monitor"@,
        Action::ClearDynamicCastTarget => "clear_dynamic_cast_target"@,
        Action::ToggleWindowUrgent(..) => "toggle_window_urgent"@,
        Action::SetWindowUrgent(..) => "set_window_urgent"@,
        Action::UnsetWindowUrgent(..) => "unset_window_urgent"@,
    }
}

/// The name of an action in lower case without separators: its variant
/// name lower-cased.
pub open spec fn action_name_joined<F>(a: Action<F>) -> Seq<char> {
    match a {
        Action::Quit(..) => "quit"@,
        Action::Suspend => "suspend"@,
        Action::PowerOffMonitors => "poweroffmonitors"@,
        Action::PowerOnMonitors => "poweronmonitors"@,
        Action::ToggleDebugTint => "toggledebugtint"@,
        Action::DebugToggleOpaqueRegions => "debugtoggleopaqueregions"@,
        Action::DebugToggleDamage => "debugtoggledamage"@,
        Action::Spawn(..) => "spawn"@,
        Action::SpawnSh(..) => "spawnsh"@,
        Action::DoScreenTransition(..) => "doscreentransition"@,
        Action::ConfirmScreenshot { .. } => "confirmscreenshot"@,
        Action::CancelScreenshot => "cancelscreenshot"@,
        Action::ScreenshotTogglePointer => "screenshottogglepointer"@,
        Action::Screenshot(..) => "screenshot"@,
        Action::ScreenshotScreen(..) => "screenshotscreen"@,
        Action::ScreenshotWindow(..) => "screenshotwindow"@,
        Action::ScreenshotWindowById { .. } => "screenshotwindowbyid"@,
        Action::ToggleKeyboardShortcutsInhibit => "togglekeyboardshortcutsinhibit"@,
        Action::LoadConfigFile => "loadconfigfile"@,
        Action::CloseWindow => "closewindow"@,
        Action::CloseWindowById(..) => "closewindowbyid"@,
        Action::FullscreenWindow => "fullscreenwindow"@,
        Action::FullscreenWindowById(..) => "fullscreenwindowbyid"@,
        Action::ToggleWindowedFullscreen => "togglewindowedfullscreen"@,
        Action::ToggleWindowedFullscreenById(..) => "togglewindowedfullscreenbyid"@,
        Action::FocusWindow(..) => "focuswindow"@,
        Action::FocusWindowInColumn(..) => "focuswindowincolumn"@,
        Action::FocusWindowPrevious => "focuswindowprevious"@,
        Action::FocusColumnLeft => "focuscolumnleft"@,
        Action::FocusColumnLeftUnderMouse => "focuscolumnleftundermouse"@,
        Action::FocusColumnRight => "focuscolumnright"@,
        Action::FocusColumnRightUnderMouse => "focuscolumnrightundermouse"@,
        Action::FocusColumnFirst => "focuscolumnfirst"@,
        Action::FocusColumnLast => "focuscolumnlast"@,
        Action::FocusColumnRightOrFirst => "focuscolumnrightorfirst"@,
        Action::FocusColumnLeftOrLast => "focuscolumnleftorlast"@,
        Action::FocusColumn(..) => "focuscolumn"@,
        Action::FocusWindowOrMonitorUp => "focuswindowormonitorup"@,
        Action::FocusWindowOrMonitorDown => "focuswindowormonitordown"@,
        Action::FocusColumnOrMonitorLeft => "focuscolumnormonitorleft"@,
        Action::FocusColumnOrMonitorRight => "focuscolumnormonitorright"@,
        Action::FocusWindowDown => "focuswindowdown"@,
        Action::FocusWindowUp => "focuswindowup"@,
        Action::FocusWindowDownOrColumnLeft => "focuswindowdownorcolumnleft"@,
        Action::FocusWindowDownOrColumnRight => "focuswindowdownorcolumnright"@,
        Action::FocusWindowUpOrColumnLeft => "focuswindowuporcolumnleft"@,
        Action::FocusWindowUpOrColumnRight => "focuswindowuporcolumnright"@,
        Action::FocusWindowOrWorkspaceDown => "focuswindoworworkspacedown"@,
        Action::FocusWindowOrWorkspaceUp => "focuswindoworworkspaceup"@,
        Action::FocusWindowTop => "focuswindowtop"@,
        Action::FocusWindowBottom => "focuswindowbottom"@,
        Action::FocusWindowDownOrTop => "focuswindowdownortop"@,
        Action::FocusWindowUpOrBottom => "focuswindowuporbottom"@,
        Action::MoveColumnLeft => "movecolumnleft"@,
        Action::MoveColumnRight => "movecolumnright"@,
        Action::MoveColumnToFirst => "movecolumntofirst"@,
        Action::MoveColumnToLast => "movecolumntolast"@,
        Action::MoveColumnLeftOrToMonitorLeft => "movecolumnleftortomonitorleft"@,
        Action::MoveColumnRightOrToMonitorRight => "movecolumnrightortomonitorright"@,
        Action::MoveColumnToIndex(..) => "movecolumntoindex"@,
        Action::MoveWindowDown => "movewindowdown"@,
        Action::MoveWindowUp => "movewindowup"@,
        Action::MoveWindowDownOrToWorkspaceDown => "movewindowdownortoworkspacedown"@,
        Action::MoveWindowUpOrToWorkspaceUp => "movewindowuportoworkspaceup"@,
        Action::ConsumeOrExpelWindowLeft => "consumeorexpelwindowleft"@,
        Action::ConsumeOrExpelWindowLeftById(..) => "consumeorexpelwindowleftbyid"@,
        Action::ConsumeOrExpelWindowRight => "consumeorexpelwindowright"@,
        Action::ConsumeOrExpelWindowRightById(..) => "consumeorexpelwindowrightbyid"@,
        Action::ConsumeWindowIntoColumn => "consumewindowintocolumn"@,
        Action::ExpelWindowFromColumn => "expelwindowfromcolumn"@,
        Action::SwapWindowLeft => "swapwindowleft"@,
        Action::SwapWindowRight => "swapwindowright"@,
        Action::ToggleColumnTabbedDisplay => "togglecolumntabbeddisplay"@,
        Action::SetColumnDisplay(..) => "setcolumndisplay"@,
        Action::CenterColumn => "centercolumn"@,
        Action::CenterWindow => "centerwindow"@,
        Action::CenterWindowById(..) => "centerwindowbyid"@,
        Action::CenterVisibleColumns => "centervisiblecolumns"@,
        Action::ExpandColumnToAvailableWidth => "expandcolumntoavailablewidth"@,
        Action::FocusWorkspaceDown => "focusworkspacedown"@,
        Action::FocusWorkspaceDownUnderMouse => "focusworkspacedownundermouse"@,
        Action::FocusWorkspaceUp => "focusworkspaceup"@,
        Action::FocusWorkspaceUpUnderMouse => "focusworkspaceupundermouse"@,
        Action::FocusWorkspace(..) => "focusworkspace"@,
        Action::FocusWorkspacePrevious => "focusworkspaceprevious"@,
        Action::MoveWindowToWorkspaceDown(..) => "movewindowtoworkspacedown"@,
        Action::MoveWindowToWorkspaceUp(..) => "movewindowtoworkspaceup"@,
        Action::MoveWindowToWorkspace(..) => "movewindowtoworkspace"@,
        Action::MoveWindowToWorkspaceById { .. } => "movewindowtoworkspacebyid"@,
        Action::MoveColumnToWorkspaceDown(..) => "movecolumntoworkspacedown"@,
        Action::MoveColumnToWorkspaceUp(..) => "movecolumntoworkspaceup"@,
        Action::MoveColumnToWorkspace(..) => "movecolumntoworkspace"@,
        Action::MoveWorkspaceDown => "moveworkspacedown"@,
        Action::MoveWorkspaceUp => "moveworkspaceup"@,
        Action::MoveWorkspaceToIndex(..) => "moveworkspacetoindex"@,
        Action::MoveWorkspaceToIndexByRef { .. } => "moveworkspacetoindexbyref"@,
        Action::SetWorkspaceName(..) => "setworkspacename"@,
        Action::SetWorkspaceNameByRef { .. } => "setworkspacenamebyref"@,
        Action::UnsetWorkspaceName => "unsetworkspacename"@,
        Action::UnsetWorkSpaceNameByRef(..) => "unsetworkspacenamebyref"@,
        Action::FocusMonitorLeft => "focusmonitorleft"@,
        Action::FocusMonitorRight => "focusmonitorright"@,
        Action::FocusMonitorDown => "focusmonitordown"@,
        Action::FocusMonitorUp => "focusmonitorup"@,
        Action::FocusMonitorPrevious => "focusmonitorprevious"@,
        Action::FocusMonitorNext => "focusmonitornext"@,
        Action::FocusMonitor(..) => "focusmonitor"@,
        Action::MoveWindowToMonitorLeft => "movewindowtomonitorleft"@,
        Action::MoveWindowToMonitorRight => "movewindowtomonitorright"@,
        Action::MoveWindowToMonitorDown => "movewindowtomonitordown"@,
        Action::MoveWindowToMonitorUp => "movewindowtomonitorup"@,
        Action::MoveWindowToMonitorPrevious => "movewindowtomonitorprevious"@,
        Action::MoveWindowToMonitorNext => "movewindowtomonitornext"@,
        Action::MoveWindowToMonitorById { .. } => "movewindowtomonitorbyid"@,
        Action::MoveWindowToMonitor(..) => "movewindowtomonitor"@,
        Action::MoveColumnToMonitorLeft => "movecolumntomonitorleft"@,
        Action::MoveColumnToMonitorRight => "movecolumntomonitorright"@,
        Action::MoveColumnToMonitorDown => "movecolumntomonitordown"@,
        Action::MoveColumnToMonitorUp => "movecolumntomonitorup"@,
        Action::MoveColumnToMonitorPrevious => "movecolumntomonitorprevious"@,
        Action::MoveColumnToMonitorNext => "movecolumntomonitornext"@,
        Action::MoveColumnToMonitor(..) => "movecolumntomonitor"@,
        Action::MoveWorkspaceToMonitorLeft => "moveworkspacetomonitorleft"@,
        Action::MoveWorkspaceToMonitorRight => "moveworkspacetomonitorright"@,
        Action::MoveWorkspaceToMonitorDown => "moveworkspacetomonitordown"@,
        Action::MoveWorkspaceToMonitorUp => "moveworkspacetomonitorup"@,
        Action::MoveWorkspaceToMonitorPrevious => "moveworkspacetomonitorprevious"@,
        Action::MoveWorkspaceToMonitorNext => "moveworkspacetomonitornext"@,
        Action::MoveWorkspaceToMonitorByRef { .. } => "moveworkspacetomonitorbyref"@,
        Action::MoveWorkspaceToMonitor(..) => "moveworkspacetomonitor"@,
        Action::SetWindowWidthById { .. } => "setwindowwidthbyid"@,
        Action::SetWindowWidth(..) => "setwindowwidth"@,
        Action::SetWindowHeightById { .. } => "setwindowheightbyid"@,
        Action::SetWindowHeight(..) => "setwindowheight"@,
        Action::ResetWindowHeightById(..) => "resetwindowheightbyid"@,
        Action::ResetWindowHeight => "resetwindowheight"@,
        Action::SwitchPresetColumnWidth => "switchpresetcolumnwidth"@,
        Action::SwitchPresetColumnWidthBack => "switchpresetcolumnwidthback"@,
        Action::SwitchPresetWindowWidthById(..) => "switchpresetwindowwidthbyid"@,
        Action::SwitchPresetWindowWidth => "switchpresetwindowwidth"@,
        Action::SwitchPresetWindowWidthBackById(..) => "switchpresetwindowwidthbackbyid"@,
        Action::SwitchPresetWindowWidthBack => "switchpresetwindowwidthback"@,
        Action::SwitchPresetWindowHeightById(..) => "switchpresetwindowheightbyid"@,
        Action::SwitchPresetWindowHeight => "switchpresetwindowheight"@,
        Action::SwitchPresetWindowHeightBackById(..) => "switchpresetwindowheightbackbyid"@,
        Action::SwitchPresetWindowHeightBack => "switchpresetwindowheightback"@,
        Action::MaximizeColumn => "maximizecolumn"@,
        Action::MaximizeWindowToEdgesById(..) => "maximizewindowtoedgesbyid"@,
        Action::MaximizeWindowToEdges => "maximizewindowtoedges"@,
        Action::SetColumnWidth(..) => "setcolumnwidth"@,
        Action::SwitchLayout(..) => "switchlayout"@,
        Action::ShowHotkeyOverlay => "showhotkeyoverlay"@,
        Action::ToggleWindowFloatingById(..) => "togglewindowfloatingbyid"@,
        Action::ToggleWindowFloating => "togglewindowfloating"@,
        Action::MoveWindowToFloatingById(..) => "movewindowtofloatingbyid"@,
        Action::MoveWindowToFloating => "movewindowtofloating"@,
        Action::MoveWindowToTilingById(..) => "movewindowtotilingbyid"@,
        Action::MoveWindowToTiling => "movewindowtotiling"@,
        Action::FocusFloating => "focusfloating"@,
        Action::FocusTiling => "focustiling"@,
        Action::SwitchFocusBetweenFloatingAndTiling => "switchfocusbetweenfloatingandtiling"@,
        Action::MoveFloatingWindowById { .. } => "movefloatingwindowbyid"@,
        Action::ToggleWindowRuleOpacityById(..) => "togglewindowruleopacitybyid"@,
        Action::ToggleWindowRuleOpacity => "togglewindowruleopacity"@,
        Action::ToggleOverview => "toggleoverview"@,
        Action::OpenOverview => "openoverview"@,
        Action::CloseOverview => "closeoverview"@,
        Action::SetDynamicCastWindowById(..) => "setdynamiccastwindowbyid"@,
        Action::SetDynamicCastWindow => "setdynamiccastwindow"@,
        Action::SetDynamicCastMonitor(..) => "setdynamiccastmonitor"@,
        Action::ClearDynamicCastTarget => "cleardynamiccasttarget"@,
        Action::ToggleWindowUrgent(..) => "togglewindowurgent"@,
        Action::SetWindowUrgent(..) => "setwindowurgent"@,
        Action::UnsetWindowUrgent(..) => "unsetwindowurgent"@,
    }
}


/// `c` is a size change whose amounts are the literals of `v`.
pub open spec fn literal_size_change<F>(c: SizeChange<Amount<F>>, v: SizeChange<(Seq<char>, bool, bool)>) -> bool {
    match (c, v) {
        (SizeChange::SetFixed(a), SizeChange::SetFixed(b)) => a == b,
        (SizeChange::AdjustFixed(a), SizeChange::AdjustFixed(b)) => a == b,
        (SizeChange::SetProportion(Amount::Literal(l)), SizeChange::SetProportion(p)) => l@ == p,
        (SizeChange::AdjustProportion(Amount::Literal(l)), SizeChange::AdjustProportion(p)) => l@ == p,
        _ => false,
    }
}

/// `c` is a position change whose amounts are the literals of `v`.
pub open spec fn literal_position_change<F>(c: PositionChange<Amount<F>>, v: PositionChange<(Seq<char>, bool, bool)>) -> bool {
    match (c, v) {
        (PositionChange::SetFixed(Amount::Literal(l)), PositionChange::SetFixed(p)) => l@ == p,
        (PositionChange::AdjustFixed(Amount::Literal(l)), PositionChange::AdjustFixed(p)) => l@ == p,
        (PositionChange::SetProportion(Amount::Literal(l)), PositionChange::SetProportion(p)) => l@ == p,
        (PositionChange::AdjustProportion(Amount::Literal(l)), PositionChange::AdjustProportion(p)) => l@ == p,
        _ => false,
    }
}

/// The arguments joined with single spaces.
pub open spec fn join_spaced(args: Seq<Seq<char>>) -> Seq<char>
    decreases args.len(),
{
    if args.len() == 0 {
        Seq::empty()
    } else if args.len() == 1 {
        args[0]
    } else {
        join_spaced(args.drop_last()) + seq![' '] + args.last()
    }
}

/// The actions that a bind names without arguments, by their kebab-case name.
pub open spec fn kebab_simple_action<F>(name: Seq<char>) -> Option<Action<F>> {
    if name == "close-window"@ {
        Some(Action::CloseWindow)
    } else if name == "fullscreen-window"@ {
        Some(Action::FullscreenWindow)
    } else if name == "toggle-windowed-fullscreen"@ {
        Some(Action::ToggleWindowedFullscreen)
    } else if name == "toggle-window-floating"@ {
        Some(Action::ToggleWindowFloating)
    } else if name == "maximize-column"@ {
        Some(Action::MaximizeColumn)
    } else if name == "center-column"@ {
        Some(Action::CenterColumn)
    } else if name == "focus-window-down"@ {
        Some(Action::FocusWindowDown)
    } else if name == "focus-window-up"@ {
        Some(Action::FocusWindowUp)
    } else if name == "focus-column-left"@ {
        Some(Action::FocusColumnLeft)
    } else if name == "focus-column-right"@ {
        Some(Action::FocusColumnRight)
    } else if name == "focus-column-first"@ {
        Some(Action::FocusColumnFirst)
    } else if name == "focus-column-last"@ {
        Some(Action::FocusColumnLast)
    } else if name == "move-column-left"@ {
        Some(Action::MoveColumnLeft)
    } else if name == "move-column-right"@ {
        Some(Action::MoveColumnRight)
    } else if name == "move-column-to-first"@ {
        Some(Action::MoveColumnToFirst)
    } else if name == "move-column-to-last"@ {
        Some(Action::MoveColumnToLast)
    } else if name == "move-window-down"@ {
        Some(Action::MoveWindowDown)
    } else if name == "move-window-up"@ {
        Some(Action::MoveWindowUp)
    } else if name == "focus-workspace-down"@ {
        Some(Action::FocusWorkspaceDown)
    } else if name == "focus-workspace-up"@ {
        Some(Action::FocusWorkspaceUp)
    } else if name == "move-workspace-down"@ {
        Some(Action::MoveWorkspaceDown)
    } else if name == "move-workspace-up"@ {
        Some(Action::MoveWorkspaceUp)
    } else if name == "move-window-to-workspace-down"@ {
        Some(Action::MoveWindowToWorkspaceDown(false))
    } else if name == "move-window-to-workspace-up"@ {
        Some(Action::MoveWindowToWorkspaceUp(false))
    } else if name == "move-column-to-workspace-down"@ {
        Some(Action::MoveColumnToWorkspaceDown(true))
    } else if name == "move-column-to-workspace-up"@ {
        Some(Action::MoveColumnToWorkspaceUp(true))
    } else if name == "focus-monitor-left"@ {
        Some(Action::FocusMonitorLeft)
    } else if name == "focus-monitor-right"@ {
        Some(Action::FocusMonitorRight)
    } else if name == "focus-monitor-down"@ {
        Some(Action::FocusMonitorDown)
    } else if name == "focus-monitor-up"@ {
        Some(Action::FocusMonitorUp)
    } else if name == "move-column-to-monitor-left"@ {
        Some(Action::MoveColumnToMonitorLeft)
    } else if name == "move-column-to-monitor-right"@ {
        Some(Action::MoveColumnToMonitorRight)
    } else if name == "move-column-to-monitor-down"@ {
        Some(Action::MoveColumnToMonitorDown)
    } else if name == "move-column-to-monitor-up"@ {
        Some(Action::MoveColumnToMonitorUp)
    } else if name == "toggle-overview"@ {
        Some(Action::ToggleOverview)
    } else if name == "open-overview"@ {
        Some(Action::OpenOverview)
    } else if name == "close-overview"@ {
        Some(Action::CloseOverview)
    } else if name == "quit"@ || name == "exit"@ {
        Some(Action::Quit(false))
    } else if name == "power-off-monitors"@ {
        Some(Action::PowerOffMonitors)
    } else if name == "power-on-monitors"@ {
        Some(Action::PowerOnMonitors)
    } else if name == "screenshot"@ {
        Some(Action::Screenshot(true, None))
    } else if name == "screenshot-screen"@ {
        Some(Action::ScreenshotScreen(true, true, None))
    } else if name == "screenshot-window"@ {
        Some(Action::ScreenshotWindow(true, None))
    } else if name == "switch-preset-column-width"@ {
        Some(Action::SwitchPresetColumnWidth)
    } else if name == "switch-preset-window-height"@ {
        Some(Action::SwitchPresetWindowHeight)
    } else if name == "reset-window-height"@ {
        Some(Action::ResetWindowHeight)
    } else if name == "consume-window-into-column"@ {
        Some(Action::ConsumeWindowIntoColumn)
    } else if name == "expel-window-from-column"@ {
        Some(Action::ExpelWindowFromColumn)
    } else if name == "consume-or-expel-window-left"@ {
        Some(Action::ConsumeOrExpelWindowLeft)
    } else if name == "consume-or-expel-window-right"@ {
        Some(Action::ConsumeOrExpelWindowRight)
    } else if name == "show-hotkey-overlay"@ {
        Some(Action::ShowHotkeyOverlay)
    } else if name == "suspend"@ {
        Some(Action::Suspend)
    } else if name == "toggle-keyboard-shortcuts-inhibit"@ {
        Some(Action::ToggleKeyboardShortcutsInhibit)
    } else if name == "expand-column-to-available-width"@ {
        Some(Action::ExpandColumnToAvailableWidth)
    } else if name == "center-visible-columns"@ {
        Some(Action::CenterVisibleColumns)
    } else if name == "switch-focus-between-floating-and-tiling"@ {
        Some(Action::SwitchFocusBetweenFloatingAndTiling)
    } else if name == "toggle-column-tabbed-display"@ {
        Some(Action::ToggleColumnTabbedDisplay)
    } else if name == "focus-column-right-or-first"@ {
        Some(Action::FocusColumnRightOrFirst)
    } else if name == "focus-column-left-or-last"@ {
        Some(Action::FocusColumnLeftOrLast)
    } else if name == "focus-window-or-monitor-up"@ {
        Some(Action::FocusWindowOrMonitorUp)
    } else if name == "focus-window-or-monitor-down"@ {
        Some(Action::FocusWindowOrMonitorDown)
    } else if name == "focus-column-or-monitor-left"@ {
        Some(Action::FocusColumnOrMonitorLeft)
    } else if name == "focus-column-or-monitor-right"@ {
        Some(Action::FocusColumnOrMonitorRight)
    } else if name == "focus-window-down-or-column-left"@ {
        Some(Action::FocusWindowDownOrColumnLeft)
    } else if name == "focus-window-down-or-column-right"@ {
        Some(Action::FocusWindowDownOrColumnRight)
    } else if name == "focus-window-up-or-column-left"@ {
        Some(Action::FocusWindowUpOrColumnLeft)
    } else if name == "focus-window-up-or-column-right"@ {
        Some(Action::FocusWindowUpOrColumnRight)
    } else if name == "focus-window-or-workspace-down"@ {
        Some(Action::FocusWindowOrWorkspaceDown)
    } else if name == "focus-window-or-workspace-up"@ {
        Some(Action::FocusWindowOrWorkspaceUp)
    } else if name == "focus-window-top"@ {
        Some(Action::FocusWindowTop)
    } else if name == "focus-window-bottom"@ {
        Some(Action::FocusWindowBottom)
    } else if name == "focus-window-down-or-top"@ {
        Some(Action::FocusWindowDownOrTop)
    } else if name == "focus-window-up-or-bottom"@ {
        Some(Action::FocusWindowUpOrBottom)
    } else if name == "focus-window-previous"@ {
        Some(Action::FocusWindowPrevious)
    } else if name == "focus-workspace-previous"@ {
        Some(Action::FocusWorkspacePrevious)
    } else if name == "move-column-left-or-to-monitor-left"@ {
        Some(Action::MoveColumnLeftOrToMonitorLeft)
    } else if name == "move-column-right-or-to-monitor-right"@ {
        Some(Action::MoveColumnRightOrToMonitorRight)
    } else if name == "move-window-down-or-to-workspace-down"@ {
        Some(Action::MoveWindowDownOrToWorkspaceDown)
    } else if name == "move-window-up-or-to-workspace-up"@ {
        Some(Action::MoveWindowUpOrToWorkspaceUp)
    } else if name == "focus-monitor-previous"@ {
        Some(Action::FocusMonitorPrevious)
    } else if name == "focus-monitor-next"@ {
        Some(Action::FocusMonitorNext)
    } else if name == "move-column-to-monitor-previous"@ {
        Some(Action::MoveColumnToMonitorPrevious)
    } else if name == "move-column-to-monitor-next"@ {
        Some(Action::MoveColumnToMonitorNext)
    } else if name == "move-window-to-monitor-left"@ {
        Some(Action::MoveWindowToMonitorLeft)
    } else if name == "move-window-to-monitor-right"@ {
        Some(Action::MoveWindowToMonitorRight)
    } else if name == "move-window-to-monitor-down"@ {
        Some(Action::MoveWindowToMonitorDown)
    } else if name == "move-window-to-monitor-up"@ {
        Some(Action::MoveWindowToMonitorUp)
    } else if name == "move-window-to-monitor-previous"@ {
        Some(Action::MoveWindowToMonitorPrevious)
    } else if name == "move-window-to-monitor-next"@ {
        Some(Action::MoveWindowToMonitorNext)
    } else if name == "move-workspace-to-monitor-left"@ {
        Some(Action::MoveWorkspaceToMonitorLeft)
    } else if name == "move-workspace-to-monitor-right"@ {
        Some(Action::MoveWorkspaceToMonitorRight)
    } else if name == "move-workspace-to-monitor-down"@ {
        Some(Action::MoveWorkspaceToMonitorDown)
    } else if name == "move-workspace-to-monitor-up"@ {
        Some(Action::MoveWorkspaceToMonitorUp)
    } else if name == "move-workspace-to-monitor-previous"@ {
        Some(Action::MoveWorkspaceToMonitorPrevious)
    } else if name == "move-workspace-to-monitor-next"@ {
        Some(Action::MoveWorkspaceToMonitorNext)
    } else if name == "swap-window-left"@ {
        Some(Action::SwapWindowLeft)
    } else if name == "swap-window-right"@ {
        Some(Action::SwapWindowRight)
    } else if name == "center-window"@ {
        Some(Action::CenterWindow)
    } else if name == "switch-preset-column-width-back"@ {
        Some(Action::SwitchPresetColumnWidthBack)
    } else if name == "switch-preset-window-height-back"@ {
        Some(Action::SwitchPresetWindowHeightBack)
    } else if name == "maximize-window-to-edges"@ {
        Some(Action::MaximizeWindowToEdges)
    } else if name == "move-window-to-floating"@ {
        Some(Action::MoveWindowToFloating)
    } else if name == "move-window-to-tiling"@ {
        Some(Action::MoveWindowToTiling)
    } else if name == "focus-floating"@ {
        Some(Action::FocusFloating)
    } else if name == "focus-tiling"@ {
        Some(Action::FocusTiling)
    } else if name == "toggle-window-rule-opacity"@ {
        Some(Action::ToggleWindowRuleOpacity)
    } else if name == "toggle-debug-tint"@ {
        Some(Action::ToggleDebugTint)
    } else if name == "debug-toggle-opaque-regions"@ {
        Some(Action::DebugToggleOpaqueRegions)
    } else if name == "debug-toggle-damage"@ {
        Some(Action::DebugToggleDamage)
    } else {
        None
    }
}

/// The action a kebab-case name denotes without arguments.
fn kebab_simple<F>(name: &[char]) -> (r: Option<Action<F>>)
    ensures
        r == kebab_simple_action::<F>(name@),
{
    if eq_lit(name, "close-window") {
        Some(Action::CloseWindow)
    } else if eq_lit(name, "fullscreen-window") {
        Some(Action::FullscreenWindow)
    } else if eq_lit(name, "toggle-windowed-fullscreen") {
        Some(Action::ToggleWindowedFullscreen)
    } else if eq_lit(name, "toggle-window-floating") {
        Some(Action::ToggleWindowFloating)
    } else if eq_lit(name, "maximize-column") {
        Some(Action::MaximizeColumn)
    } else if eq_lit(name, "center-column") {
        Some(Action::CenterColumn)
    } else if eq_lit(name, "focus-window-down") {
        Some(Action::FocusWindowDown)
    } else if eq_lit(name, "focus-window-up") {
        Some(Action::FocusWindowUp)
    } else if eq_lit(name, "focus-column-left") {
        Some(Action::FocusColumnLeft)
    } else if eq_lit(name, "focus-column-right") {
        Some(Action::FocusColumnRight)
    } else if eq_lit(name, "focus-column-first") {
        Some(Action::FocusColumnFirst)
    } else if eq_lit(name, "focus-column-last") {
        Some(Action::FocusColumnLast)
    } else if eq_lit(name, "move-column-left") {
        Some(Action::MoveColumnLeft)
    } else if eq_lit(name, "move-column-right") {
        Some(Action::MoveColumnRight)
    } else if eq_lit(name, "move-column-to-first") {
        Some(Action::MoveColumnToFirst)
    } else if eq_lit(name, "move-column-to-last") {
        Some(Action::MoveColumnToLast)
    } else if eq_lit(name, "move-window-down") {
        Some(Action::MoveWindowDown)
    } else if eq_lit(name, "move-window-up") {
        Some(Action::MoveWindowUp)
    } else if eq_lit(name, "focus-workspace-down") {
        Some(Action::FocusWorkspaceDown)
    } else if eq_lit(name, "focus-workspace-up") {
        Some(Action::FocusWorkspaceUp)
    } else if eq_lit(name, "move-workspace-down") {
        Some(Action::MoveWorkspaceDown)
    } else if eq_lit(name, "move-workspace-up") {
        Some(Action::MoveWorkspaceUp)
    } else if eq_lit(name, "move-window-to-workspace-down") {
        Some(Action::MoveWindowToWorkspaceDown(false))
    } else if eq_lit(name, "move-window-to-workspace-up") {
        Some(Action::MoveWindowToWorkspaceUp(false))
    } else if eq_lit(name, "move-column-to-workspace-down") {
        Some(Action::MoveColumnToWorkspaceDown(true))
    } else if eq_lit(name, "move-column-to-workspace-up") {
        Some(Action::MoveColumnToWorkspaceUp(true))
    } else if eq_lit(name, "focus-monitor-left") {
        Some(Action::FocusMonitorLeft)
    } else if eq_lit(name, "focus-monitor-right") {
        Some(Action::FocusMonitorRight)
    } else if eq_lit(name, "focus-monitor-down") {
        Some(Action::FocusMonitorDown)
    } else if eq_lit(name, "focus-monitor-up") {
        Some(Action::FocusMonitorUp)
    } else if eq_lit(name, "move-column-to-monitor-left") {
        Some(Action::MoveColumnToMonitorLeft)
    } else if eq_lit(name, "move-column-to-monitor-right") {
        Some(Action::MoveColumnToMonitorRight)
    } else if eq_lit(name, "move-column-to-monitor-down") {
        Some(Action::MoveColumnToMonitorDown)
    } else if eq_lit(name, "move-column-to-monitor-up") {
        Some(Action::MoveColumnToMonitorUp)
    } else if eq_lit(name, "toggle-overview") {
        Some(Action::ToggleOverview)
    } else if eq_lit(name, "open-overview") {
        Some(Action::OpenOverview)
    } else if eq_lit(name, "close-overview") {
        Some(Action::CloseOverview)
    } else if eq_lit(name, "quit") || eq_lit(name, "exit") {
        Some(Action::Quit(false))
    } else if eq_lit(name, "power-off-monitors") {
        Some(Action::PowerOffMonitors)
    } else if eq_lit(name, "power-on-monitors") {
        Some(Action::PowerOnMonitors)
    } else if eq_lit(name, "screenshot") {
        Some(Action::Screenshot(true, None))
    } else if eq_lit(name, "screenshot-screen") {
        Some(Action::ScreenshotScreen(true, true, None))
    } else if eq_lit(name, "screenshot-window") {
        Some(Action::ScreenshotWindow(true, None))
    } else if eq_lit(name, "switch-preset-column-width") {
        Some(Action::SwitchPresetColumnWidth)
    } else if eq_lit(name, "switch-preset-window-height") {
        Some(Action::SwitchPresetWindowHeight)
    } else if eq_lit(name, "reset-window-height") {
        Some(Action::ResetWindowHeight)
    } else if eq_lit(name, "consume-window-into-column") {
        Some(Action::ConsumeWindowIntoColumn)
    } else if eq_lit(name, "expel-window-from-column") {
        Some(Action::ExpelWindowFromColumn)
    } else if eq_lit(name, "consume-or-expel-window-left") {
        Some(Action::ConsumeOrExpelWindowLeft)
    } else if eq_lit(name, "consume-or-expel-window-right") {
        Some(Action::ConsumeOrExpelWindowRight)
    } else if eq_lit(name, "show-hotkey-overlay") {
        Some(Action::ShowHotkeyOverlay)
    } else if eq_lit(name, "suspend") {
        Some(Action::Suspend)
    } else if eq_lit(name, "toggle-keyboard-shortcuts-inhibit") {
        Some(Action::ToggleKeyboardShortcutsInhibit)
    } else if eq_lit(name, "expand-column-to-available-width") {
        Some(Action::ExpandColumnToAvailableWidth)
    } else if eq_lit(name, "center-visible-columns") {
        Some(Action::CenterVisibleColumns)
    } else if eq_lit(name, "switch-focus-between-floating-and-tiling") {
        Some(Action::SwitchFocusBetweenFloatingAndTiling)
    } else if eq_lit(name, "toggle-column-tabbed-display") {
        Some(Action::ToggleColumnTabbedDisplay)
    } else if eq_lit(name, "focus-column-right-or-first") {
        Some(Action::FocusColumnRightOrFirst)
    } else if eq_lit(name, "focus-column-left-or-last") {
        Some(Action::FocusColumnLeftOrLast)
    } else if eq_lit(name, "focus-window-or-monitor-up") {
        Some(Action::FocusWindowOrMonitorUp)
    } else if eq_lit(name, "focus-window-or-monitor-down") {
        Some(Action::FocusWindowOrMonitorDown)
    } else if eq_lit(name, "focus-column-or-monitor-left") {
        Some(Action::FocusColumnOrMonitorLeft)
    } else if eq_lit(name, "focus-column-or-monitor-right") {
        Some(Action::FocusColumnOrMonitorRight)
    } else if eq_lit(name, "focus-window-down-or-column-left") {
        Some(Action::FocusWindowDownOrColumnLeft)
    } else if eq_lit(name, "focus-window-down-or-column-right") {
        Some(Action::FocusWindowDownOrColumnRight)
    } else if eq_lit(name, "focus-window-up-or-column-left") {
        Some(Action::FocusWindowUpOrColumnLeft)
    } else if eq_lit(name, "focus-window-up-or-column-right") {
        Some(Action::FocusWindowUpOrColumnRight)
    } else if eq_lit(name, "focus-window-or-workspace-down") {
        Some(Action::FocusWindowOrWorkspaceDown)
    } else if eq_lit(name, "focus-window-or-workspace-up") {
        Some(Action::FocusWindowOrWorkspaceUp)
    } else if eq_lit(name, "focus-window-top") {
        Some(Action::FocusWindowTop)
    } else if eq_lit(name, "focus-window-bottom") {
        Some(Action::FocusWindowBottom)
    } else if eq_lit(name, "focus-window-down-or-top") {
        Some(Action::FocusWindowDownOrTop)
    } else if eq_lit(name, "focus-window-up-or-bottom") {
        Some(Action::FocusWindowUpOrBottom)
    } else if eq_lit(name, "focus-window-previous") {
        Some(Action::FocusWindowPrevious)
    } else if eq_lit(name, "focus-workspace-previous") {
        Some(Action::FocusWorkspacePrevious)
    } else if eq_lit(name, "move-column-left-or-to-monitor-left") {
        Some(Action::MoveColumnLeftOrToMonitorLeft)
    } else if eq_lit(name, "move-column-right-or-to-monitor-right") {
        Some(Action::MoveColumnRightOrToMonitorRight)
    } else if eq_lit(name, "move-window-down-or-to-workspace-down") {
        Some(Action::MoveWindowDownOrToWorkspaceDown)
    } else if eq_lit(name, "move-window-up-or-to-workspace-up") {
        Some(Action::MoveWindowUpOrToWorkspaceUp)
    } else if eq_lit(name, "focus-monitor-previous") {
        Some(Action::FocusMonitorPrevious)
    } else if eq_lit(name, "focus-monitor-next") {
        Some(Action::FocusMonitorNext)
    } else if eq_lit(name, "move-column-to-monitor-previous") {
        Some(Action::MoveColumnToMonitorPrevious)
    } else if eq_lit(name, "move-column-to-monitor-next") {
        Some(Action::MoveColumnToMonitorNext)
    } else if eq_lit(name, "move-window-to-monitor-left") {
        Some(Action::MoveWindowToMonitorLeft)
    } else if eq_lit(name, "move-window-to-monitor-right") {
        Some(Action::MoveWindowToMonitorRight)
    } else if eq_lit(name, "move-window-to-monitor-down") {
        Some(Action::MoveWindowToMonitorDown)
    } else if eq_lit(name, "move-window-to-monitor-up") {
        Some(Action::MoveWindowToMonitorUp)
    } else if eq_lit(name, "move-window-to-monitor-previous") {
        Some(Action::MoveWindowToMonitorPrevious)
    } else if eq_lit(name, "move-window-to-monitor-next") {
        Some(Action::MoveWindowToMonitorNext)
    } else if eq_lit(name, "move-workspace-to-monitor-left") {
        Some(Action::MoveWorkspaceToMonitorLeft)
    } else if eq_lit(name, "move-workspace-to-monitor-right") {
        Some(Action::MoveWorkspaceToMonitorRight)
    } else if eq_lit(name, "move-workspace-to-monitor-down") {
        Some(Action::MoveWorkspaceToMonitorDown)
    } else if eq_lit(name, "move-workspace-to-monitor-up") {
        Some(Action::MoveWorkspaceToMonitorUp)
    } else if eq_lit(name, "move-workspace-to-monitor-previous") {
        Some(Action::MoveWorkspaceToMonitorPrevious)
    } else if eq_lit(name, "move-workspace-to-monitor-next") {
        Some(Action::MoveWorkspaceToMonitorNext)
    } else if eq_lit(name, "swap-window-left") {
        Some(Action::SwapWindowLeft)
    } else if eq_lit(name, "swap-window-right") {
        Some(Action::SwapWindowRight)
    } else if eq_lit(name, "center-window") {
        Some(Action::CenterWindow)
    } else if eq_lit(name, "switch-preset-column-width-back") {
        Some(Action::SwitchPresetColumnWidthBack)
    } else if eq_lit(name, "switch-preset-window-height-back") {
        Some(Action::SwitchPresetWindowHeightBack)
    } else if eq_lit(name, "maximize-window-to-edges") {
        Some(Action::MaximizeWindowToEdges)
    } else if eq_lit(name, "move-window-to-floating") {
        Some(Action::MoveWindowToFloating)
    } else if eq_lit(name, "move-window-to-tiling") {
        Some(Action::MoveWindowToTiling)
    } else if eq_lit(name, "focus-floating") {
        Some(Action::FocusFloating)
    } else if eq_lit(name, "focus-tiling") {
        Some(Action::FocusTiling)
    } else if eq_lit(name, "toggle-window-rule-opacity") {
        Some(Action::ToggleWindowRuleOpacity)
    } else if eq_lit(name, "toggle-debug-tint") {
        Some(Action::ToggleDebugTint)
    } else if eq_lit(name, "debug-toggle-opaque-regions") {
        Some(Action::DebugToggleOpaqueRegions)
    } else if eq_lit(name, "debug-toggle-damage") {
        Some(Action::DebugToggleDamage)
    } else {
        None
    }
}

/// The text of each argument.
pub open spec fn texts(args: Seq<String>) -> Seq<Seq<char>> {
    args.map_values(|s: String| s@)
}

/// The bind arguments `args` make an action of the kebab-case name `name`:
/// `spawn` and `spawn-sh` need at least one argument, the workspace actions a
/// first argument that reads as a `u8`, the size actions a first argument
/// that reads as a size change; the other names take no argument.
pub open spec fn bind_action_accepted<F>(name: Seq<char>, args: Seq<String>) -> bool {
    if name == "spawn"@ || name == "spawn-sh"@ {
        args.len() > 0
    } else if name == "focus-workspace"@ || name == "move-column-to-workspace"@
        || name == "move-window-to-workspace"@ {
        args.len() > 0 && u8_value(args[0]@) is Some
    } else if name == "set-column-width"@ || name == "set-window-height"@ {
        args.len() > 0 && size_change_text(args[0]@) is Some
    } else {
        kebab_simple_action::<F>(name) is Some
    }
}

/// `a` is the action that the name `name` with the arguments `args` denotes.
pub open spec fn bind_action_denotes<F>(name: Seq<char>, args: Seq<String>, a: Action<F>) -> bool {
    if name == "spawn"@ {
        a matches Action::Spawn(v) && v@ == args
    } else if name == "spawn-sh"@ {
        a matches Action::SpawnSh(s) && s@ == join_spaced(texts(args))
    } else if name == "focus-workspace"@ {
        a == Action::<F>::FocusWorkspace(WorkspaceReferenceArg::Index(u8_value(args[0]@).unwrap()))
    } else if name == "move-column-to-workspace"@ {
        a == Action::<F>::MoveColumnToWorkspace(
            WorkspaceReferenceArg::Index(u8_value(args[0]@).unwrap()),
            true,
        )
    } else if name == "move-window-to-workspace"@ {
        a == Action::<F>::MoveWindowToWorkspace(
            WorkspaceReferenceArg::Index(u8_value(args[0]@).unwrap()),
            false,
        )
    } else if name == "set-column-width"@ {
        a matches Action::SetColumnWidth(c) && literal_size_change(c, size_change_text(args[0]@).unwrap())
    } else if name == "set-window-height"@ {
        a matches Action::SetWindowHeight(c) && literal_size_change(c, size_change_text(args[0]@).unwrap())
    } else {
        kebab_simple_action::<F>(name) == Some(a)
    }
}

/// Copies of the arguments.
fn copy_args(args: &[String]) -> (r: Vec<String>)
    ensures
        r@ == args@,
{
    let mut r: Vec<String> = Vec::new();
    for i in 0..args.len()
        invariant
            r@ == args@.take(i as int),
    {
        r.push(args[i].clone());
        assert(r@ =~= args@.take(i + 1));
    }
    r
}

/// Appends the characters of `s` to `acc`.
fn push_chars(acc: &mut Vec<char>, s: &str)
    ensures
        final(acc)@ == old(acc)@ + s@,
{
    let cs = chars_of(s);
    let ghost start = acc@;
    for i in 0..cs.len()
        invariant
            acc@ == start + cs@.take(i as int),
    {
        acc.push(cs[i]);
        assert(acc@ =~= start + cs@.take(i + 1));
    }
    assert(cs@.take(cs@.len() as int) =~= cs@);
}

/// The arguments joined with single spaces, as `[String]::join(" ")`.
fn join_args(args: &[String]) -> (r: String)
    requires
        args@.len() > 0,
    ensures
        r@ == join_spaced(texts(args@)),
{
    let mut acc: Vec<char> = Vec::new();
    push_chars(&mut acc, args[0].as_str());
    assert(texts(args@).take(1) =~= seq![args@[0]@]);
    assert(acc@ =~= join_spaced(texts(args@).take(1)));
    let mut i: usize = 1;
    while i < args.len()
        invariant
            1 <= i <= args@.len(),
            acc@ == join_spaced(texts(args@).take(i as int)),
        decreases args@.len() - i,
    {
        let ghost before = acc@;
        acc.push(' ');
        push_chars(&mut acc, args[i].as_str());
        assert(texts(args@).take(i + 1).drop_last() =~= texts(args@).take(i as int));
        assert(acc@ =~= before + seq![' '] + args@[i as int]@);
        i = i + 1;
    }
    assert(texts(args@).take(args@.len() as int) =~= texts(args@));
    string_from_chars(&acc)
}

/// A size change whose proportions are the literals read from text.
fn literal_amounts<F>(c: SizeChange<ScaledLiteral>) -> (r: SizeChange<Amount<F>>)
    ensures
        literal_size_change(r, size_change_view(c)),
{
    match c {
        SizeChange::SetFixed(v) => SizeChange::SetFixed(v),
        SizeChange::AdjustFixed(v) => SizeChange::AdjustFixed(v),
        SizeChange::SetProportion(l) => SizeChange::SetProportion(Amount::Literal(l)),
        SizeChange::AdjustProportion(l) => SizeChange::AdjustProportion(Amount::Literal(l)),
    }
}

/// The action that a bind names with `action_str` (kebab case) and the
/// arguments `args`; `None` for an unknown name or arguments that do not fit.
pub fn parse_action_from_str<F>(action_str: &str, args: &[String]) -> (r: Option<Action<F>>)
    ensures
        r is Some <==> bind_action_accepted::<F>(action_str@, args@),
        r matches Some(a) ==> bind_action_denotes(action_str@, args@, a),
{
    let name = chars_of(action_str);
    if eq_lit(&name, "spawn") {
        if args.len() == 0 {
            return None;
        }
        Some(Action::Spawn(copy_args(args)))
    } else if eq_lit(&name, "spawn-sh") {
        if args.len() == 0 {
            return None;
        }
        Some(Action::SpawnSh(join_args(args)))
    } else if eq_lit(&name, "focus-workspace") {
        if args.len() == 0 {
            return None;
        }
        match parse_u8(args[0].as_str()) {
            Some(i) => Some(Action::FocusWorkspace(WorkspaceReferenceArg::Index(i))),
            None => None,
        }
    } else if eq_lit(&name, "move-column-to-workspace") {
        if args.len() == 0 {
            return None;
        }
        match parse_u8(args[0].as_str()) {
            Some(i) => Some(Action::MoveColumnToWorkspace(WorkspaceReferenceArg::Index(i), true)),
            None => None,
        }
    } else if eq_lit(&name, "move-window-to-workspace") {
        if args.len() == 0 {
            return None;
        }
        match parse_u8(args[0].as_str()) {
            Some(i) => Some(Action::MoveWindowToWorkspace(WorkspaceReferenceArg::Index(i), false)),
            None => None,
        }
    } else if eq_lit(&name, "set-column-width") {
        if args.len() == 0 {
            return None;
        }
        match parse_size_change(args[0].as_str()) {
            Some(c) => Some(Action::SetColumnWidth(literal_amounts(c))),
            None => None,
        }
    } else if eq_lit(&name, "set-window-height") {
        if args.len() == 0 {
            return None;
        }
        match parse_size_change(args[0].as_str()) {
            Some(c) => Some(Action::SetWindowHeight(literal_amounts(c))),
            None => None,
        }
    } else {
        kebab_simple(&name)
    }
}

} // verus!
