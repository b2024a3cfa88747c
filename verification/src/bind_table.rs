//! Actions read from a bind table of the collection API: the table's fields,
//! read by the typed field helpers, decide the action.
use vstd::prelude::*;
use vstd::string::StringExecFns;
use crate::actions::{literal_position_change, literal_size_change, Action, Amount};
use crate::numbers::parse_u8;
use crate::text::{chars_of, eq_lit, fold, fold_char, string_from_chars, trim, trimmed};
use crate::values::{
    collection_size_change_overflows, collection_size_change_text, layout_target_text,
    parse_column_display, parse_layout_switch_target, parse_layout_switch_word,
    parse_position_change_str, parse_size_change_string, position_change_text,
    position_change_view, size_change_view, u8_value, ColumnDisplay, LayoutSwitchTarget,
    PositionChange, PositionChangeError, SizeChange, WorkspaceReferenceArg,
};
use crate::text::folded;

verus! {

/// The fields of a table that names a workspace, each as the typed field
/// helpers read it: `None` where the field is absent or holds another type.
pub struct ReferenceFields {
    pub index: Option<i64>,
    pub name: Option<String>,
    pub id: Option<i64>,
    pub reference_int: Option<i64>,
    pub reference_text: Option<String>,
}

/// The Lua value given for one coordinate of a floating window's move.
pub enum PositionValue<F, E> {
    Nil,
    Integer(i64),
    Number(F),
    Text(String),
    /// A value of another type, by its Lua type name.
    Other(String),
    /// Reading the value raised this error.
    Failed(E),
}

/// The fields of a bind table that its action reads, each as the typed field
/// helpers read it (`None` where the field is absent or holds another type).
/// `args` is the `args` array (empty when absent) or the error that reading
/// it raised; `reference_table` holds the fields of a `reference` table.
pub struct ActionFields<F, E> {
    pub action: Option<String>,
    pub skip_confirmation: Option<bool>,
    pub args: Result<Vec<String>, E>,
    pub command: Option<String>,
    pub delay_ms: Option<i64>,
    pub write_to_disk: Option<bool>,
    pub show_pointer: Option<bool>,
    pub path: Option<String>,
    pub id: Option<i64>,
    pub index: Option<i64>,
    pub name: Option<String>,
    pub display: Option<String>,
    pub focus: Option<bool>,
    pub window_id: Option<i64>,
    pub reference_int: Option<i64>,
    pub reference_text: Option<String>,
    pub reference_table: Option<ReferenceFields>,
    pub output: Option<String>,
    pub fixed: Option<i64>,
    pub proportion: Option<F>,
    pub change: Option<String>,
    pub value: Option<i64>,
    pub layout_int: Option<i64>,
    pub layout_text: Option<String>,
    pub target: Option<String>,
    pub x: PositionValue<F, E>,
    pub y: PositionValue<F, E>,
}

/// Why a bind table names no action.
pub enum ActionError<E> {
    /// The table has no `action` string.
    MissingAction,
    /// Reading the table raised this error.
    Table(E),
    SpawnNeedsArgs,
    SpawnShNeedsCommand,
    /// A field that the action needs is missing; the message says which.
    MissingField(&'static str),
    InvalidColumnDisplay(String),
    NoWorkspaceReference,
    NoSizeChange,
    /// The size change text (trimmed) does not read as one.
    InvalidSizeChange(String),
    InvalidLayoutTarget(String),
    NoPosition,
    /// The position text (trimmed) does not read as a position change.
    BadPosition(PositionChangeError, String),
    /// The position is neither a number nor a string; the Lua type name.
    PositionType(String),
    UnknownAction(String),
}

/// The text of an error message, for every error but `Table`.
pub open spec fn action_error_text<E>(e: ActionError<E>) -> Seq<char> {
    match e {
        ActionError::MissingAction => "bind requires 'action' field"@,
        ActionError::Table(_) => Seq::empty(),
        ActionError::SpawnNeedsArgs => "spawn action requires 'args' array"@,
        ActionError::SpawnShNeedsCommand => "spawn_sh requires 'command' string"@,
        ActionError::MissingField(m) => m@,
        ActionError::InvalidColumnDisplay(d) => "Invalid column display: "@ + d@ + " (use 'normal' or 'tabbed')"@,
        ActionError::NoWorkspaceReference => "Workspace action requires 'index', 'name', 'id', or 'reference' field"@,
        ActionError::NoSizeChange => "Size change requires 'fixed' (int), 'proportion' (float), or 'change' (string like '+10%')"@,
        ActionError::InvalidSizeChange(s) => "Invalid size change: "@ + s@,
        ActionError::InvalidLayoutTarget(t) => "Invalid layout target: "@ + t@ + ". Use 'next', 'prev', or an index."@,
        ActionError::NoPosition => "position change requires a value"@,
        ActionError::BadPosition(PositionChangeError::Empty, _) => "position change cannot be empty"@,
        ActionError::BadPosition(PositionChangeError::InvalidProportion, s) => "invalid proportion: "@ + s@,
        ActionError::BadPosition(PositionChangeError::InvalidPosition, s) => "invalid position: "@ + s@,
        ActionError::PositionType(n) => "position change must be a number or string, got \""@ + n@ + "\""@,
        ActionError::UnknownAction(s) => "Unknown action '"@ + s@ + "'. See niri documentation for valid actions."@,
    }
}

pub(crate) fn prefixed(a: &str, b: &str) -> (r: String)
    ensures
        r@ == a@ + b@,
{
    let mut m = String::from_str(a);
    m.append(b);
    m
}

pub(crate) fn joined(a: &str, b: &str, c: &str) -> (r: String)
    ensures
        r@ == a@ + b@ + c@,
{
    let mut m = String::from_str(a);
    m.append(b);
    m.append(c);
    m
}

impl<E> ActionError<E> {
    /// The message that explains the error.
    pub fn message(&self) -> (r: String)
        requires
            !(self is Table),
        ensures
            r@ == action_error_text(*self),
    {
        match self {
            ActionError::MissingAction => String::from_str("bind requires 'action' field"),
            ActionError::Table(_) => String::new(),
            ActionError::SpawnNeedsArgs => String::from_str("spawn action requires 'args' array"),
            ActionError::SpawnShNeedsCommand => String::from_str("spawn_sh requires 'command' string"),
            ActionError::MissingField(m) => String::from_str(m),
            ActionError::InvalidColumnDisplay(d) => joined("Invalid column display: ", d.as_str(), " (use 'normal' or 'tabbed')"),
            ActionError::NoWorkspaceReference => String::from_str("Workspace action requires 'index', 'name', 'id', or 'reference' field"),
            ActionError::NoSizeChange => String::from_str("Size change requires 'fixed' (int), 'proportion' (float), or 'change' (string like '+10%')"),
            ActionError::InvalidSizeChange(s) => prefixed("Invalid size change: ", s.as_str()),
            ActionError::InvalidLayoutTarget(t) => joined("Invalid layout target: ", t.as_str(), ". Use 'next', 'prev', or an index."),
            ActionError::NoPosition => String::from_str("position change requires a value"),
            ActionError::BadPosition(PositionChangeError::Empty, _) => String::from_str("position change cannot be empty"),
            ActionError::BadPosition(PositionChangeError::InvalidProportion, s) => prefixed("invalid proportion: ", s.as_str()),
            ActionError::BadPosition(PositionChangeError::InvalidPosition, s) => prefixed("invalid position: ", s.as_str()),
            ActionError::PositionType(n) => joined("position change must be a number or string, got \"", n.as_str(), "\""),
            ActionError::UnknownAction(s) => joined("Unknown action '", s.as_str(), "'. See niri documentation for valid actions."),
        }
    }
}

/// A flag's value, `default` when the field is absent.
pub open spec fn flag_or(b: Option<bool>, default: bool) -> bool {
    match b {
        Some(v) => v,
        None => default,
    }
}

pub(crate) fn flag_or_exec(b: Option<bool>, default: bool) -> (r: bool)
    ensures
        r == flag_or(b, default),
{
    match b {
        Some(v) => v,
        None => default,
    }
}

/// A character of an action name as the match sees it: letters folded to
/// lower case, `-` and space read as `_`.
pub open spec fn key_char(c: char) -> char {
    let d = fold_char(c);
    if d == '-' || d == ' ' { '_' } else { d }
}

/// The normalized action name: `key_char` applied to each character.
pub open spec fn action_key(s: Seq<char>) -> Seq<char> {
    s.map_values(|c: char| key_char(c))
}

fn action_key_of(s: &str) -> (r: Vec<char>)
    ensures
        r@ == action_key(s@),
{
    let low = fold(&chars_of(s));
    let mut r: Vec<char> = Vec::new();
    for i in 0..low.len()
        invariant
            low@ == folded(s@),
            r@ == action_key(s@).take(i as int),
    {
        let c = low[i];
        let d = if c == '-' || c == ' ' { '_' } else { c };
        r.push(d);
        assert(r@ =~= action_key(s@).take(i + 1));
    }
    assert(action_key(s@).take(low.len() as int) =~= action_key(s@));
    r
}

/// `normal` or `tabbed` in any letter case.
pub open spec fn column_display_of(s: Seq<char>) -> Option<ColumnDisplay> {
    if folded(s) == "normal"@ {
        Some(ColumnDisplay::Normal)
    } else if folded(s) == "tabbed"@ {
        Some(ColumnDisplay::Tabbed)
    } else {
        None
    }
}

/// The workspace that a table names: by `index`, else `name`, else `id`, else
/// `reference` (a number is an index; a text is an index when it reads as a
/// `u8`, else a name).
pub open spec fn workspace_reference<E>(t: ReferenceFields) -> Result<WorkspaceReferenceArg, ActionError<E>> {
    match t.index {
        Some(i) => Ok(WorkspaceReferenceArg::Index(i as u8)),
        None => match t.name {
            Some(n) => Ok(WorkspaceReferenceArg::Name(n)),
            None => match t.id {
                Some(i) => Ok(WorkspaceReferenceArg::Id(i as u64)),
                None => match t.reference_int {
                    Some(i) => Ok(WorkspaceReferenceArg::Index(i as u8)),
                    None => match t.reference_text {
                        Some(s) => Ok(match u8_value(s@) {
                            Some(i) => WorkspaceReferenceArg::Index(i),
                            None => WorkspaceReferenceArg::Name(s),
                        }),
                        None => Err(ActionError::NoWorkspaceReference),
                    },
                },
            },
        },
    }
}

/// Reads the workspace that a table names.
pub fn reference_of<E>(t: ReferenceFields) -> (r: Result<WorkspaceReferenceArg, ActionError<E>>)
    ensures
        r == workspace_reference::<E>(t),
{
    match t.index {
        Some(i) => Ok(WorkspaceReferenceArg::Index(i as u8)),
        None => match t.name {
            Some(n) => Ok(WorkspaceReferenceArg::Name(n)),
            None => match t.id {
                Some(i) => Ok(WorkspaceReferenceArg::Id(i as u64)),
                None => match t.reference_int {
                    Some(i) => Ok(WorkspaceReferenceArg::Index(i as u8)),
                    None => match t.reference_text {
                        Some(s) => Ok(match parse_u8(s.as_str()) {
                            Some(i) => WorkspaceReferenceArg::Index(i),
                            None => WorkspaceReferenceArg::Name(s),
                        }),
                        None => Err(ActionError::NoWorkspaceReference),
                    },
                },
            },
        },
    }
}

/// The workspace fields of the bind table itself.
pub open spec fn top_reference<F, E>(f: ActionFields<F, E>) -> ReferenceFields {
    ReferenceFields {
        index: f.index,
        name: f.name,
        id: f.id,
        reference_int: f.reference_int,
        reference_text: f.reference_text,
    }
}

fn top_reference_of<F, E>(f: ActionFields<F, E>) -> (r: ReferenceFields)
    ensures
        r == top_reference(f),
{
    ReferenceFields {
        index: f.index,
        name: f.name,
        id: f.id,
        reference_int: f.reference_int,
        reference_text: f.reference_text,
    }
}

/// `next` or `prev`/`previous` in any letter case.
pub open spec fn layout_word(s: Seq<char>) -> Option<LayoutSwitchTarget> {
    if folded(s) == "next"@ {
        Some(LayoutSwitchTarget::Next)
    } else if folded(s) == "prev"@ || folded(s) == "previous"@ {
        Some(LayoutSwitchTarget::Prev)
    } else {
        None
    }
}

/// The keyboard layout that a table names: a number in `layout` is an index,
/// a text in `layout` a word or an index, a text in `target` a word; the next
/// layout when none is given.
pub open spec fn layout_target<F, E>(f: ActionFields<F, E>) -> Result<LayoutSwitchTarget, ActionError<E>> {
    match f.layout_int {
        Some(i) => Ok(LayoutSwitchTarget::Index(i as u8)),
        None => match f.layout_text {
            Some(t) => match layout_target_text(t@) {
                Some(x) => Ok(x),
                None => Err(ActionError::InvalidLayoutTarget(t)),
            },
            None => match f.target {
                Some(t) => match layout_word(t@) {
                    Some(x) => Ok(x),
                    None => Err(ActionError::InvalidLayoutTarget(t)),
                },
                None => Ok(LayoutSwitchTarget::Next),
            },
        },
    }
}

fn layout_target_of<F, E>(f: ActionFields<F, E>) -> (r: Result<LayoutSwitchTarget, ActionError<E>>)
    ensures
        r == layout_target(f),
{
    match f.layout_int {
        Some(i) => Ok(LayoutSwitchTarget::Index(i as u8)),
        None => match f.layout_text {
            Some(t) => match parse_layout_switch_target(t.as_str()) {
                Some(x) => Ok(x),
                None => Err(ActionError::InvalidLayoutTarget(t)),
            },
            None => match f.target {
                Some(t) => match parse_layout_switch_word(t.as_str()) {
                    Some(x) => Ok(x),
                    None => Err(ActionError::InvalidLayoutTarget(t)),
                },
                None => Ok(LayoutSwitchTarget::Next),
            },
        },
    }
}

/// The actions that a bind table names without reading any other field,
/// by their normalized name.
pub open spec fn plain_action<F>(k: Seq<char>) -> Option<Action<F>> {
    if k == "suspend"@ {
        Some(Action::Suspend)
    } else if k == "power_off_monitors"@ || k == "poweroffmonitors"@ {
        Some(Action::PowerOffMonitors)
    } else if k == "power_on_monitors"@ || k == "poweronmonitors"@ {
        Some(Action::PowerOnMonitors)
    } else if k == "toggle_debug_tint"@ || k == "toggledebugtint"@ {
        Some(Action::ToggleDebugTint)
    } else if k == "debug_toggle_opaque_regions"@ || k == "debugtoggleopaqueregions"@ {
        Some(Action::DebugToggleOpaqueRegions)
    } else if k == "debug_toggle_damage"@ || k == "debugtoggledamage"@ {
        Some(Action::DebugToggleDamage)
    } else if k == "cancel_screenshot"@ || k == "cancelscreenshot"@ {
        Some(Action::CancelScreenshot)
    } else if k == "screenshot_toggle_pointer"@ || k == "screenshottogglepointer"@ {
        Some(Action::ScreenshotTogglePointer)
    } else if k == "toggle_keyboard_shortcuts_inhibit"@ || k == "togglekeyboardshortcutsinhibit"@ {
        Some(Action::ToggleKeyboardShortcutsInhibit)
    } else if k == "load_config_file"@ || k == "loadconfigfile"@ {
        Some(Action::LoadConfigFile)
    } else if k == "focus_window_previous"@ || k == "focuswindowprevious"@ {
        Some(Action::FocusWindowPrevious)
    } else if k == "focus_column_left"@ || k == "focuscolumnleft"@ {
        Some(Action::FocusColumnLeft)
    } else if k == "focus_column_left_under_mouse"@ || k == "focuscolumnleftundermouse"@ {
        Some(Action::FocusColumnLeftUnderMouse)
    } else if k == "focus_column_right"@ || k == "focuscolumnright"@ {
        Some(Action::FocusColumnRight)
    } else if k == "focus_column_right_under_mouse"@ || k == "focuscolumnrightundermouse"@ {
        Some(Action::FocusColumnRightUnderMouse)
    } else if k == "focus_column_first"@ || k == "focuscolumnfirst"@ {
        Some(Action::FocusColumnFirst)
    } else if k == "focus_column_last"@ || k == "focuscolumnlast"@ {
        Some(Action::FocusColumnLast)
    } else if k == "focus_column_right_or_first"@ || k == "focuscolumnrightorfirst"@ {
        Some(Action::FocusColumnRightOrFirst)
    } else if k == "focus_column_left_or_last"@ || k == "focuscolumnleftorlast"@ {
        Some(Action::FocusColumnLeftOrLast)
    } else if k == "focus_window_or_monitor_up"@ || k == "focuswindowormonitorup"@ {
        Some(Action::FocusWindowOrMonitorUp)
    } else if k == "focus_window_or_monitor_down"@ || k == "focuswindowormonitordown"@ {
        Some(Action::FocusWindowOrMonitorDown)
    } else if k == "focus_column_or_monitor_left"@ || k == "focuscolumnormonitorleft"@ {
        Some(Action::FocusColumnOrMonitorLeft)
    } else if k == "focus_column_or_monitor_right"@ || k == "focuscolumnormonitorright"@ {
        Some(Action::FocusColumnOrMonitorRight)
    } else if k == "focus_window_down"@ || k == "focuswindowdown"@ {
        Some(Action::FocusWindowDown)
    } else if k == "focus_window_up"@ || k == "focuswindowup"@ {
        Some(Action::FocusWindowUp)
    } else if k == "focus_window_down_or_column_left"@ || k == "focuswindowdownorcolumnleft"@ {
        Some(Action::FocusWindowDownOrColumnLeft)
    } else if k == "focus_window_down_or_column_right"@ || k == "focuswindowdownorcolumnright"@ {
        Some(Action::FocusWindowDownOrColumnRight)
    } else if k == "focus_window_up_or_column_left"@ || k == "focuswindowuporcolumnleft"@ {
        Some(Action::FocusWindowUpOrColumnLeft)
    } else if k == "focus_window_up_or_column_right"@ || k == "focuswindowuporcolumnright"@ {
        Some(Action::FocusWindowUpOrColumnRight)
    } else if k == "focus_window_or_workspace_up"@ || k == "focuswindoworworkspaceup"@ {
        Some(Action::FocusWindowOrWorkspaceUp)
    } else if k == "focus_window_or_workspace_down"@ || k == "focuswindoworworkspacedown"@ {
        Some(Action::FocusWindowOrWorkspaceDown)
    } else if k == "focus_window_top"@ || k == "focuswindowtop"@ {
        Some(Action::FocusWindowTop)
    } else if k == "focus_window_bottom"@ || k == "focuswindowbottom"@ {
        Some(Action::FocusWindowBottom)
    } else if k == "focus_window_down_or_top"@ || k == "focuswindowdownortop"@ {
        Some(Action::FocusWindowDownOrTop)
    } else if k == "focus_window_up_or_bottom"@ || k == "focuswindowuporbottom"@ {
        Some(Action::FocusWindowUpOrBottom)
    } else if k == "move_column_left"@ || k == "movecolumnleft"@ {
        Some(Action::MoveColumnLeft)
    } else if k == "move_column_right"@ || k == "movecolumnright"@ {
        Some(Action::MoveColumnRight)
    } else if k == "move_column_to_first"@ || k == "movecolumntofirst"@ {
        Some(Action::MoveColumnToFirst)
    } else if k == "move_column_to_last"@ || k == "movecolumntolast"@ {
        Some(Action::MoveColumnToLast)
    } else if k == "move_column_left_or_to_monitor_left"@ || k == "movecolumnleftortomonitorleft"@ {
        Some(Action::MoveColumnLeftOrToMonitorLeft)
    } else if k == "move_column_right_or_to_monitor_right"@ || k == "movecolumnrightortomonitorright"@ {
        Some(Action::MoveColumnRightOrToMonitorRight)
    } else if k == "move_window_down"@ || k == "movewindowdown"@ {
        Some(Action::MoveWindowDown)
    } else if k == "move_window_up"@ || k == "movewindowup"@ {
        Some(Action::MoveWindowUp)
    } else if k == "move_window_down_or_to_workspace_down"@ || k == "movewindowdownortoworkspacedown"@ {
        Some(Action::MoveWindowDownOrToWorkspaceDown)
    } else if k == "move_window_up_or_to_workspace_up"@ || k == "movewindowuportoworkspaceup"@ {
        Some(Action::MoveWindowUpOrToWorkspaceUp)
    } else if k == "consume_window_into_column"@ || k == "consumewindowintocolumn"@ {
        Some(Action::ConsumeWindowIntoColumn)
    } else if k == "expel_window_from_column"@ || k == "expelwindowfromcolumn"@ {
        Some(Action::ExpelWindowFromColumn)
    } else if k == "swap_window_left"@ || k == "swapwindowleft"@ {
        Some(Action::SwapWindowLeft)
    } else if k == "swap_window_right"@ || k == "swapwindowright"@ {
        Some(Action::SwapWindowRight)
    } else if k == "toggle_column_tabbed_display"@ || k == "togglecolumntabbeddisplay"@ {
        Some(Action::ToggleColumnTabbedDisplay)
    } else if k == "center_column"@ || k == "centercolumn"@ {
        Some(Action::CenterColumn)
    } else if k == "center_visible_columns"@ || k == "centervisiblecolumns"@ {
        Some(Action::CenterVisibleColumns)
    } else if k == "expand_column_to_available_width"@ || k == "expandcolumntoavailablewidth"@ {
        Some(Action::ExpandColumnToAvailableWidth)
    } else if k == "focus_workspace_down"@ || k == "focusworkspacedown"@ {
        Some(Action::FocusWorkspaceDown)
    } else if k == "focus_workspace_down_under_mouse"@ || k == "focusworkspacedownundermouse"@ {
        Some(Action::FocusWorkspaceDownUnderMouse)
    } else if k == "focus_workspace_up"@ || k == "focusworkspaceup"@ {
        Some(Action::FocusWorkspaceUp)
    } else if k == "focus_workspace_up_under_mouse"@ || k == "focusworkspaceupundermouse"@ {
        Some(Action::FocusWorkspaceUpUnderMouse)
    } else if k == "focus_workspace_previous"@ || k == "focusworkspaceprevious"@ {
        Some(Action::FocusWorkspacePrevious)
    } else if k == "move_workspace_down"@ || k == "moveworkspacedown"@ {
        Some(Action::MoveWorkspaceDown)
    } else if k == "move_workspace_up"@ || k == "moveworkspaceup"@ {
        Some(Action::MoveWorkspaceUp)
    } else if k == "focus_monitor_left"@ || k == "focusmonitorleft"@ {
        Some(Action::FocusMonitorLeft)
    } else if k == "focus_monitor_right"@ || k == "focusmonitorright"@ {
        Some(Action::FocusMonitorRight)
    } else if k == "focus_monitor_down"@ || k == "focusmonitordown"@ {
        Some(Action::FocusMonitorDown)
    } else if k == "focus_monitor_up"@ || k == "focusmonitorup"@ {
        Some(Action::FocusMonitorUp)
    } else if k == "focus_monitor_previous"@ || k == "focusmonitorprevious"@ {
        Some(Action::FocusMonitorPrevious)
    } else if k == "focus_monitor_next"@ || k == "focusmonitornext"@ {
        Some(Action::FocusMonitorNext)
    } else if k == "move_window_to_monitor_left"@ || k == "movewindowtomonitorleft"@ {
        Some(Action::MoveWindowToMonitorLeft)
    } else if k == "move_window_to_monitor_right"@ || k == "movewindowtomonitorright"@ {
        Some(Action::MoveWindowToMonitorRight)
    } else if k == "move_window_to_monitor_down"@ || k == "movewindowtomonitordown"@ {
        Some(Action::MoveWindowToMonitorDown)
    } else if k == "move_window_to_monitor_up"@ || k == "movewindowtomonitorup"@ {
        Some(Action::MoveWindowToMonitorUp)
    } else if k == "move_window_to_monitor_previous"@ || k == "movewindowtomonitorprevious"@ {
        Some(Action::MoveWindowToMonitorPrevious)
    } else if k == "move_window_to_monitor_next"@ || k == "movewindowtomonitornext"@ {
        Some(Action::MoveWindowToMonitorNext)
    } else if k == "move_column_to_monitor_left"@ || k == "movecolumntomonitorleft"@ {
        Some(Action::MoveColumnToMonitorLeft)
    } else if k == "move_column_to_monitor_right"@ || k == "movecolumntomonitorright"@ {
        Some(Action::MoveColumnToMonitorRight)
    } else if k == "move_column_to_monitor_down"@ || k == "movecolumntomonitordown"@ {
        Some(Action::MoveColumnToMonitorDown)
    } else if k == "move_column_to_monitor_up"@ || k == "movecolumntomonitorup"@ {
        Some(Action::MoveColumnToMonitorUp)
    } else if k == "move_column_to_monitor_previous"@ || k == "movecolumntomonitorprevious"@ {
        Some(Action::MoveColumnToMonitorPrevious)
    } else if k == "move_column_to_monitor_next"@ || k == "movecolumntomonitornext"@ {
        Some(Action::MoveColumnToMonitorNext)
    } else if k == "move_workspace_to_monitor_left"@ || k == "moveworkspacetomonitorleft"@ {
        Some(Action::MoveWorkspaceToMonitorLeft)
    } else if k == "move_workspace_to_monitor_right"@ || k == "moveworkspacetomonitorright"@ {
        Some(Action::MoveWorkspaceToMonitorRight)
    } else if k == "move_workspace_to_monitor_down"@ || k == "moveworkspacetomonitordown"@ {
        Some(Action::MoveWorkspaceToMonitorDown)
    } else if k == "move_workspace_to_monitor_up"@ || k == "moveworkspacetomonitorup"@ {
        Some(Action::MoveWorkspaceToMonitorUp)
    } else if k == "move_workspace_to_monitor_previous"@ || k == "moveworkspacetomonitorprevious"@ {
        Some(Action::MoveWorkspaceToMonitorPrevious)
    } else if k == "move_workspace_to_monitor_next"@ || k == "moveworkspacetomonitornext"@ {
        Some(Action::MoveWorkspaceToMonitorNext)
    } else if k == "switch_preset_column_width"@ || k == "switchpresetcolumnwidth"@ {
        Some(Action::SwitchPresetColumnWidth)
    } else if k == "switch_preset_column_width_back"@ || k == "switchpresetcolumnwidthback"@ {
        Some(Action::SwitchPresetColumnWidthBack)
    } else if k == "maximize_column"@ || k == "maximizecolumn"@ {
        Some(Action::MaximizeColumn)
    } else if k == "show_hotkey_overlay"@ || k == "showhotkeyoverlay"@ {
        Some(Action::ShowHotkeyOverlay)
    } else if k == "focus_floating"@ || k == "focusfloating"@ {
        Some(Action::FocusFloating)
    } else if k == "focus_tiling"@ || k == "focustiling"@ {
        Some(Action::FocusTiling)
    } else if k == "switch_focus_between_floating_and_tiling"@ || k == "switchfocusbetweenfloatingandtiling"@ {
        Some(Action::SwitchFocusBetweenFloatingAndTiling)
    } else if k == "toggle_overview"@ || k == "toggleoverview"@ {
        Some(Action::ToggleOverview)
    } else if k == "open_overview"@ || k == "openoverview"@ {
        Some(Action::OpenOverview)
    } else if k == "close_overview"@ || k == "closeoverview"@ {
        Some(Action::CloseOverview)
    } else if k == "clear_dynamic_cast_target"@ || k == "cleardynamiccasttarget"@ {
        Some(Action::ClearDynamicCastTarget)
    } else {
        None
    }
}

fn plain_action_of<F>(k: &[char]) -> (r: Option<Action<F>>)
    ensures
        r == plain_action::<F>(k@),
{
    if eq_lit(k, "suspend") {
        Some(Action::Suspend)
    } else if eq_lit(k, "power_off_monitors") || eq_lit(k, "poweroffmonitors") {
        Some(Action::PowerOffMonitors)
    } else if eq_lit(k, "power_on_monitors") || eq_lit(k, "poweronmonitors") {
        Some(Action::PowerOnMonitors)
    } else if eq_lit(k, "toggle_debug_tint") || eq_lit(k, "toggledebugtint") {
        Some(Action::ToggleDebugTint)
    } else if eq_lit(k, "debug_toggle_opaque_regions") || eq_lit(k, "debugtoggleopaqueregions") {
        Some(Action::DebugToggleOpaqueRegions)
    } else if eq_lit(k, "debug_toggle_damage") || eq_lit(k, "debugtoggledamage") {
        Some(Action::DebugToggleDamage)
    } else if eq_lit(k, "cancel_screenshot") || eq_lit(k, "cancelscreenshot") {
        Some(Action::CancelScreenshot)
    } else if eq_lit(k, "screenshot_toggle_pointer") || eq_lit(k, "screenshottogglepointer") {
        Some(Action::ScreenshotTogglePointer)
    } else if eq_lit(k, "toggle_keyboard_shortcuts_inhibit") || eq_lit(k, "togglekeyboardshortcutsinhibit") {
        Some(Action::ToggleKeyboardShortcutsInhibit)
    } else if eq_lit(k, "load_config_file") || eq_lit(k, "loadconfigfile") {
        Some(Action::LoadConfigFile)
    } else if eq_lit(k, "focus_window_previous") || eq_lit(k, "focuswindowprevious") {
        Some(Action::FocusWindowPrevious)
    } else if eq_lit(k, "focus_column_left") || eq_lit(k, "focuscolumnleft") {
        Some(Action::FocusColumnLeft)
    } else if eq_lit(k, "focus_column_left_under_mouse") || eq_lit(k, "focuscolumnleftundermouse") {
        Some(Action::FocusColumnLeftUnderMouse)
    } else if eq_lit(k, "focus_column_right") || eq_lit(k, "focuscolumnright") {
        Some(Action::FocusColumnRight)
    } else if eq_lit(k, "focus_column_right_under_mouse") || eq_lit(k, "focuscolumnrightundermouse") {
        Some(Action::FocusColumnRightUnderMouse)
    } else if eq_lit(k, "focus_column_first") || eq_lit(k, "focuscolumnfirst") {
        Some(Action::FocusColumnFirst)
    } else if eq_lit(k, "focus_column_last") || eq_lit(k, "focuscolumnlast") {
        Some(Action::FocusColumnLast)
    } else if eq_lit(k, "focus_column_right_or_first") || eq_lit(k, "focuscolumnrightorfirst") {
        Some(Action::FocusColumnRightOrFirst)
    } else if eq_lit(k, "focus_column_left_or_last") || eq_lit(k, "focuscolumnleftorlast") {
        Some(Action::FocusColumnLeftOrLast)
    } else if eq_lit(k, "focus_window_or_monitor_up") || eq_lit(k, "focuswindowormonitorup") {
        Some(Action::FocusWindowOrMonitorUp)
    } else if eq_lit(k, "focus_window_or_monitor_down") || eq_lit(k, "focuswindowormonitordown") {
        Some(Action::FocusWindowOrMonitorDown)
    } else if eq_lit(k, "focus_column_or_monitor_left") || eq_lit(k, "focuscolumnormonitorleft") {
        Some(Action::FocusColumnOrMonitorLeft)
    } else if eq_lit(k, "focus_column_or_monitor_right") || eq_lit(k, "focuscolumnormonitorright") {
        Some(Action::FocusColumnOrMonitorRight)
    } else if eq_lit(k, "focus_window_down") || eq_lit(k, "focuswindowdown") {
        Some(Action::FocusWindowDown)
    } else if eq_lit(k, "focus_window_up") || eq_lit(k, "focuswindowup") {
        Some(Action::FocusWindowUp)
    } else if eq_lit(k, "focus_window_down_or_column_left") || eq_lit(k, "focuswindowdownorcolumnleft") {
        Some(Action::FocusWindowDownOrColumnLeft)
    } else if eq_lit(k, "focus_window_down_or_column_right") || eq_lit(k, "focuswindowdownorcolumnright") {
        Some(Action::FocusWindowDownOrColumnRight)
    } else if eq_lit(k, "focus_window_up_or_column_left") || eq_lit(k, "focuswindowuporcolumnleft") {
        Some(Action::FocusWindowUpOrColumnLeft)
    } else if eq_lit(k, "focus_window_up_or_column_right") || eq_lit(k, "focuswindowuporcolumnright") {
        Some(Action::FocusWindowUpOrColumnRight)
    } else if eq_lit(k, "focus_window_or_workspace_up") || eq_lit(k, "focuswindoworworkspaceup") {
        Some(Action::FocusWindowOrWorkspaceUp)
    } else if eq_lit(k, "focus_window_or_workspace_down") || eq_lit(k, "focuswindoworworkspacedown") {
        Some(Action::FocusWindowOrWorkspaceDown)
    } else if eq_lit(k, "focus_window_top") || eq_lit(k, "focuswindowtop") {
        Some(Action::FocusWindowTop)
    } else if eq_lit(k, "focus_window_bottom") || eq_lit(k, "focuswindowbottom") {
        Some(Action::FocusWindowBottom)
    } else if eq_lit(k, "focus_window_down_or_top") || eq_lit(k, "focuswindowdownortop") {
        Some(Action::FocusWindowDownOrTop)
    } else if eq_lit(k, "focus_window_up_or_bottom") || eq_lit(k, "focuswindowuporbottom") {
        Some(Action::FocusWindowUpOrBottom)
    } else if eq_lit(k, "move_column_left") || eq_lit(k, "movecolumnleft") {
        Some(Action::MoveColumnLeft)
    } else if eq_lit(k, "move_column_right") || eq_lit(k, "movecolumnright") {
        Some(Action::MoveColumnRight)
    } else if eq_lit(k, "move_column_to_first") || eq_lit(k, "movecolumntofirst") {
        Some(Action::MoveColumnToFirst)
    } else if eq_lit(k, "move_column_to_last") || eq_lit(k, "movecolumntolast") {
        Some(Action::MoveColumnToLast)
    } else if eq_lit(k, "move_column_left_or_to_monitor_left") || eq_lit(k, "movecolumnleftortomonitorleft") {
        Some(Action::MoveColumnLeftOrToMonitorLeft)
    } else if eq_lit(k, "move_column_right_or_to_monitor_right") || eq_lit(k, "movecolumnrightortomonitorright") {
        Some(Action::MoveColumnRightOrToMonitorRight)
    } else if eq_lit(k, "move_window_down") || eq_lit(k, "movewindowdown") {
        Some(Action::MoveWindowDown)
    } else if eq_lit(k, "move_window_up") || eq_lit(k, "movewindowup") {
        Some(Action::MoveWindowUp)
    } else if eq_lit(k, "move_window_down_or_to_workspace_down") || eq_lit(k, "movewindowdownortoworkspacedown") {
        Some(Action::MoveWindowDownOrToWorkspaceDown)
    } else if eq_lit(k, "move_window_up_or_to_workspace_up") || eq_lit(k, "movewindowuportoworkspaceup") {
        Some(Action::MoveWindowUpOrToWorkspaceUp)
    } else if eq_lit(k, "consume_window_into_column") || eq_lit(k, "consumewindowintocolumn") {
        Some(Action::ConsumeWindowIntoColumn)
    } else if eq_lit(k, "expel_window_from_column") || eq_lit(k, "expelwindowfromcolumn") {
        Some(Action::ExpelWindowFromColumn)
    } else if eq_lit(k, "swap_window_left") || eq_lit(k, "swapwindowleft") {
        Some(Action::SwapWindowLeft)
    } else if eq_lit(k, "swap_window_right") || eq_lit(k, "swapwindowright") {
        Some(Action::SwapWindowRight)
    } else if eq_lit(k, "toggle_column_tabbed_display") || eq_lit(k, "togglecolumntabbeddisplay") {
        Some(Action::ToggleColumnTabbedDisplay)
    } else if eq_lit(k, "center_column") || eq_lit(k, "centercolumn") {
        Some(Action::CenterColumn)
    } else if eq_lit(k, "center_visible_columns") || eq_lit(k, "centervisiblecolumns") {
        Some(Action::CenterVisibleColumns)
    } else if eq_lit(k, "expand_column_to_available_width") || eq_lit(k, "expandcolumntoavailablewidth") {
        Some(Action::ExpandColumnToAvailableWidth)
    } else if eq_lit(k, "focus_workspace_down") || eq_lit(k, "focusworkspacedown") {
        Some(Action::FocusWorkspaceDown)
    } else if eq_lit(k, "focus_workspace_down_under_mouse") || eq_lit(k, "focusworkspacedownundermouse") {
        Some(Action::FocusWorkspaceDownUnderMouse)
    } else if eq_lit(k, "focus_workspace_up") || eq_lit(k, "focusworkspaceup") {
        Some(Action::FocusWorkspaceUp)
    } else if eq_lit(k, "focus_workspace_up_under_mouse") || eq_lit(k, "focusworkspaceupundermouse") {
        Some(Action::FocusWorkspaceUpUnderMouse)
    } else if eq_lit(k, "focus_workspace_previous") || eq_lit(k, "focusworkspaceprevious") {
        Some(Action::FocusWorkspacePrevious)
    } else if eq_lit(k, "move_workspace_down") || eq_lit(k, "moveworkspacedown") {
        Some(Action::MoveWorkspaceDown)
    } else if eq_lit(k, "move_workspace_up") || eq_lit(k, "moveworkspaceup") {
        Some(Action::MoveWorkspaceUp)
    } else if eq_lit(k, "focus_monitor_left") || eq_lit(k, "focusmonitorleft") {
        Some(Action::FocusMonitorLeft)
    } else if eq_lit(k, "focus_monitor_right") || eq_lit(k, "focusmonitorright") {
        Some(Action::FocusMonitorRight)
    } else if eq_lit(k, "focus_monitor_down") || eq_lit(k, "focusmonitordown") {
        Some(Action::FocusMonitorDown)
    } else if eq_lit(k, "focus_monitor_up") || eq_lit(k, "focusmonitorup") {
        Some(Action::FocusMonitorUp)
    } else if eq_lit(k, "focus_monitor_previous") || eq_lit(k, "focusmonitorprevious") {
        Some(Action::FocusMonitorPrevious)
    } else if eq_lit(k, "focus_monitor_next") || eq_lit(k, "focusmonitornext") {
        Some(Action::FocusMonitorNext)
    } else if eq_lit(k, "move_window_to_monitor_left") || eq_lit(k, "movewindowtomonitorleft") {
        Some(Action::MoveWindowToMonitorLeft)
    } else if eq_lit(k, "move_window_to_monitor_right") || eq_lit(k, "movewindowtomonitorright") {
        Some(Action::MoveWindowToMonitorRight)
    } else if eq_lit(k, "move_window_to_monitor_down") || eq_lit(k, "movewindowtomonitordown") {
        Some(Action::MoveWindowToMonitorDown)
    } else if eq_lit(k, "move_window_to_monitor_up") || eq_lit(k, "movewindowtomonitorup") {
        Some(Action::MoveWindowToMonitorUp)
    } else if eq_lit(k, "move_window_to_monitor_previous") || eq_lit(k, "movewindowtomonitorprevious") {
        Some(Action::MoveWindowToMonitorPrevious)
    } else if eq_lit(k, "move_window_to_monitor_next") || eq_lit(k, "movewindowtomonitornext") {
        Some(Action::MoveWindowToMonitorNext)
    } else if eq_lit(k, "move_column_to_monitor_left") || eq_lit(k, "movecolumntomonitorleft") {
        Some(Action::MoveColumnToMonitorLeft)
    } else if eq_lit(k, "move_column_to_monitor_right") || eq_lit(k, "movecolumntomonitorright") {
        Some(Action::MoveColumnToMonitorRight)
    } else if eq_lit(k, "move_column_to_monitor_down") || eq_lit(k, "movecolumntomonitordown") {
        Some(Action::MoveColumnToMonitorDown)
    } else if eq_lit(k, "move_column_to_monitor_up") || eq_lit(k, "movecolumntomonitorup") {
        Some(Action::MoveColumnToMonitorUp)
    } else if eq_lit(k, "move_column_to_monitor_previous") || eq_lit(k, "movecolumntomonitorprevious") {
        Some(Action::MoveColumnToMonitorPrevious)
    } else if eq_lit(k, "move_column_to_monitor_next") || eq_lit(k, "movecolumntomonitornext") {
        Some(Action::MoveColumnToMonitorNext)
    } else if eq_lit(k, "move_workspace_to_monitor_left") || eq_lit(k, "moveworkspacetomonitorleft") {
        Some(Action::MoveWorkspaceToMonitorLeft)
    } else if eq_lit(k, "move_workspace_to_monitor_right") || eq_lit(k, "moveworkspacetomonitorright") {
        Some(Action::MoveWorkspaceToMonitorRight)
    } else if eq_lit(k, "move_workspace_to_monitor_down") || eq_lit(k, "moveworkspacetomonitordown") {
        Some(Action::MoveWorkspaceToMonitorDown)
    } else if eq_lit(k, "move_workspace_to_monitor_up") || eq_lit(k, "moveworkspacetomonitorup") {
        Some(Action::MoveWorkspaceToMonitorUp)
    } else if eq_lit(k, "move_workspace_to_monitor_previous") || eq_lit(k, "moveworkspacetomonitorprevious") {
        Some(Action::MoveWorkspaceToMonitorPrevious)
    } else if eq_lit(k, "move_workspace_to_monitor_next") || eq_lit(k, "moveworkspacetomonitornext") {
        Some(Action::MoveWorkspaceToMonitorNext)
    } else if eq_lit(k, "switch_preset_column_width") || eq_lit(k, "switchpresetcolumnwidth") {
        Some(Action::SwitchPresetColumnWidth)
    } else if eq_lit(k, "switch_preset_column_width_back") || eq_lit(k, "switchpresetcolumnwidthback") {
        Some(Action::SwitchPresetColumnWidthBack)
    } else if eq_lit(k, "maximize_column") || eq_lit(k, "maximizecolumn") {
        Some(Action::MaximizeColumn)
    } else if eq_lit(k, "show_hotkey_overlay") || eq_lit(k, "showhotkeyoverlay") {
        Some(Action::ShowHotkeyOverlay)
    } else if eq_lit(k, "focus_floating") || eq_lit(k, "focusfloating") {
        Some(Action::FocusFloating)
    } else if eq_lit(k, "focus_tiling") || eq_lit(k, "focustiling") {
        Some(Action::FocusTiling)
    } else if eq_lit(k, "switch_focus_between_floating_and_tiling") || eq_lit(k, "switchfocusbetweenfloatingandtiling") {
        Some(Action::SwitchFocusBetweenFloatingAndTiling)
    } else if eq_lit(k, "toggle_overview") || eq_lit(k, "toggleoverview") {
        Some(Action::ToggleOverview)
    } else if eq_lit(k, "open_overview") || eq_lit(k, "openoverview") {
        Some(Action::OpenOverview)
    } else if eq_lit(k, "close_overview") || eq_lit(k, "closeoverview") {
        Some(Action::CloseOverview)
    } else if eq_lit(k, "clear_dynamic_cast_target") || eq_lit(k, "cleardynamiccasttarget") {
        Some(Action::ClearDynamicCastTarget)
    } else {
        None
    }
}

/// The actions on a window that a bind table names: the one given by its
/// `id` field when there is one, else the focused one.
pub open spec fn window_action<F>(k: Seq<char>, id: Option<i64>) -> Option<Action<F>> {
    if k == "close_window"@ || k == "closewindow"@ {
        Some(match id {
            Some(i) => Action::CloseWindowById(i as u64),
            None => Action::CloseWindow,
        })
    } else if k == "fullscreen_window"@ || k == "fullscreenwindow"@ {
        Some(match id {
            Some(i) => Action::FullscreenWindowById(i as u64),
            None => Action::FullscreenWindow,
        })
    } else if k == "toggle_windowed_fullscreen"@ || k == "togglewindowedfullscreen"@ {
        Some(match id {
            Some(i) => Action::ToggleWindowedFullscreenById(i as u64),
            None => Action::ToggleWindowedFullscreen,
        })
    } else if k == "consume_or_expel_window_left"@ || k == "consumeorexpelwindowleft"@ {
        Some(match id {
            Some(i) => Action::ConsumeOrExpelWindowLeftById(i as u64),
            None => Action::ConsumeOrExpelWindowLeft,
        })
    } else if k == "consume_or_expel_window_right"@ || k == "consumeorexpelwindowright"@ {
        Some(match id {
            Some(i) => Action::ConsumeOrExpelWindowRightById(i as u64),
            None => Action::ConsumeOrExpelWindowRight,
        })
    } else if k == "center_window"@ || k == "centerwindow"@ || k == "center_window_focused"@ || k == "centerwindowfocused"@ {
        Some(match id {
            Some(i) => Action::CenterWindowById(i as u64),
            None => Action::CenterWindow,
        })
    } else if k == "reset_window_height"@ || k == "resetwindowheight"@ {
        Some(match id {
            Some(i) => Action::ResetWindowHeightById(i as u64),
            None => Action::ResetWindowHeight,
        })
    } else if k == "switch_preset_window_width"@ || k == "switchpresetwindowwidth"@ {
        Some(match id {
            Some(i) => Action::SwitchPresetWindowWidthById(i as u64),
            None => Action::SwitchPresetWindowWidth,
        })
    } else if k == "switch_preset_window_width_back"@ || k == "switchpresetwindowwidthback"@ {
        Some(match id {
            Some(i) => Action::SwitchPresetWindowWidthBackById(i as u64),
            None => Action::SwitchPresetWindowWidthBack,
        })
    } else if k == "switch_preset_window_height"@ || k == "switchpresetwindowheight"@ {
        Some(match id {
            Some(i) => Action::SwitchPresetWindowHeightById(i as u64),
            None => Action::SwitchPresetWindowHeight,
        })
    } else if k == "switch_preset_window_height_back"@ || k == "switchpresetwindowheightback"@ {
        Some(match id {
            Some(i) => Action::SwitchPresetWindowHeightBackById(i as u64),
            None => Action::SwitchPresetWindowHeightBack,
        })
    } else if k == "maximize_window_to_edges"@ || k == "maximizewindowtoedges"@ {
        Some(match id {
            Some(i) => Action::MaximizeWindowToEdgesById(i as u64),
            None => Action::MaximizeWindowToEdges,
        })
    } else if k == "toggle_window_floating"@ || k == "togglewindowfloating"@ {
        Some(match id {
            Some(i) => Action::ToggleWindowFloatingById(i as u64),
            None => Action::ToggleWindowFloating,
        })
    } else if k == "move_window_to_floating"@ || k == "movewindowtofloating"@ {
        Some(match id {
            Some(i) => Action::MoveWindowToFloatingById(i as u64),
            None => Action::MoveWindowToFloating,
        })
    } else if k == "move_window_to_tiling"@ || k == "movewindowtotiling"@ {
        Some(match id {
            Some(i) => Action::MoveWindowToTilingById(i as u64),
            None => Action::MoveWindowToTiling,
        })
    } else if k == "toggle_window_rule_opacity"@ || k == "togglewindowruleopacity"@ {
        Some(match id {
            Some(i) => Action::ToggleWindowRuleOpacityById(i as u64),
            None => Action::ToggleWindowRuleOpacity,
        })
    } else if k == "set_dynamic_cast_window"@ || k == "setdynamiccastwindow"@ {
        Some(match id {
            Some(i) => Action::SetDynamicCastWindowById(i as u64),
            None => Action::SetDynamicCastWindow,
        })
    } else {
        None
    }
}

fn window_action_of<F>(k: &[char], id: Option<i64>) -> (r: Option<Action<F>>)
    ensures
        r == window_action::<F>(k@, id),
{
    if eq_lit(k, "close_window") || eq_lit(k, "closewindow") {
        Some(match id {
            Some(i) => Action::CloseWindowById(i as u64),
            None => Action::CloseWindow,
        })
    } else if eq_lit(k, "fullscreen_window") || eq_lit(k, "fullscreenwindow") {
        Some(match id {
            Some(i) => Action::FullscreenWindowById(i as u64),
            None => Action::FullscreenWindow,
        })
    } else if eq_lit(k, "toggle_windowed_fullscreen") || eq_lit(k, "togglewindowedfullscreen") {
        Some(match id {
            Some(i) => Action::ToggleWindowedFullscreenById(i as u64),
            None => Action::ToggleWindowedFullscreen,
        })
    } else if eq_lit(k, "consume_or_expel_window_left") || eq_lit(k, "consumeorexpelwindowleft") {
        Some(match id {
            Some(i) => Action::ConsumeOrExpelWindowLeftById(i as u64),
            None => Action::ConsumeOrExpelWindowLeft,
        })
    } else if eq_lit(k, "consume_or_expel_window_right") || eq_lit(k, "consumeorexpelwindowright") {
        Some(match id {
            Some(i) => Action::ConsumeOrExpelWindowRightById(i as u64),
            None => Action::ConsumeOrExpelWindowRight,
        })
    } else if eq_lit(k, "center_window") || eq_lit(k, "centerwindow") || eq_lit(k, "center_window_focused") || eq_lit(k, "centerwindowfocused") {
        Some(match id {
            Some(i) => Action::CenterWindowById(i as u64),
            None => Action::CenterWindow,
        })
    } else if eq_lit(k, "reset_window_height") || eq_lit(k, "resetwindowheight") {
        Some(match id {
            Some(i) => Action::ResetWindowHeightById(i as u64),
            None => Action::ResetWindowHeight,
        })
    } else if eq_lit(k, "switch_preset_window_width") || eq_lit(k, "switchpresetwindowwidth") {
        Some(match id {
            Some(i) => Action::SwitchPresetWindowWidthById(i as u64),
            None => Action::SwitchPresetWindowWidth,
        })
    } else if eq_lit(k, "switch_preset_window_width_back") || eq_lit(k, "switchpresetwindowwidthback") {
        Some(match id {
            Some(i) => Action::SwitchPresetWindowWidthBackById(i as u64),
            None => Action::SwitchPresetWindowWidthBack,
        })
    } else if eq_lit(k, "switch_preset_window_height") || eq_lit(k, "switchpresetwindowheight") {
        Some(match id {
            Some(i) => Action::SwitchPresetWindowHeightById(i as u64),
            None => Action::SwitchPresetWindowHeight,
        })
    } else if eq_lit(k, "switch_preset_window_height_back") || eq_lit(k, "switchpresetwindowheightback") {
        Some(match id {
            Some(i) => Action::SwitchPresetWindowHeightBackById(i as u64),
            None => Action::SwitchPresetWindowHeightBack,
        })
    } else if eq_lit(k, "maximize_window_to_edges") || eq_lit(k, "maximizewindowtoedges") {
        Some(match id {
            Some(i) => Action::MaximizeWindowToEdgesById(i as u64),
            None => Action::MaximizeWindowToEdges,
        })
    } else if eq_lit(k, "toggle_window_floating") || eq_lit(k, "togglewindowfloating") {
        Some(match id {
            Some(i) => Action::ToggleWindowFloatingById(i as u64),
            None => Action::ToggleWindowFloating,
        })
    } else if eq_lit(k, "move_window_to_floating") || eq_lit(k, "movewindowtofloating") {
        Some(match id {
            Some(i) => Action::MoveWindowToFloatingById(i as u64),
            None => Action::MoveWindowToFloating,
        })
    } else if eq_lit(k, "move_window_to_tiling") || eq_lit(k, "movewindowtotiling") {
        Some(match id {
            Some(i) => Action::MoveWindowToTilingById(i as u64),
            None => Action::MoveWindowToTiling,
        })
    } else if eq_lit(k, "toggle_window_rule_opacity") || eq_lit(k, "togglewindowruleopacity") {
        Some(match id {
            Some(i) => Action::ToggleWindowRuleOpacityById(i as u64),
            None => Action::ToggleWindowRuleOpacity,
        })
    } else if eq_lit(k, "set_dynamic_cast_window") || eq_lit(k, "setdynamiccastwindow") {
        Some(match id {
            Some(i) => Action::SetDynamicCastWindowById(i as u64),
            None => Action::SetDynamicCastWindow,
        })
    } else {
        None
    }
}
/// The names of the actions that read fields of the table and need no
/// number read from text.
pub open spec fn is_field_key(k: Seq<char>) -> bool {
    k == "quit"@
        || k == "spawn"@
        || k == "spawn_sh"@ || k == "spawnsh"@
        || k == "do_screen_transition"@ || k == "doscreentransition"@
        || k == "confirm_screenshot"@ || k == "confirmscreenshot"@
        || k == "screenshot"@
        || k == "screenshot_screen"@ || k == "screenshotscreen"@
        || k == "screenshot_window"@ || k == "screenshotwindow"@
        || k == "focus_window"@ || k == "focuswindow"@
        || k == "focus_window_in_column"@ || k == "focuswindowincolumn"@
        || k == "focus_column"@ || k == "focuscolumn"@
        || k == "move_column_to_index"@ || k == "movecolumntoindex"@
        || k == "set_column_display"@ || k == "setcolumndisplay"@
        || k == "focus_workspace"@ || k == "focusworkspace"@
        || k == "move_window_to_workspace_down"@ || k == "movewindowtoworkspacedown"@
        || k == "move_window_to_workspace_up"@ || k == "movewindowtoworkspaceup"@
        || k == "move_window_to_workspace"@ || k == "movewindowtoworkspace"@
        || k == "move_column_to_workspace_down"@ || k == "movecolumntoworkspacedown"@
        || k == "move_column_to_workspace_up"@ || k == "movecolumntoworkspaceup"@
        || k == "move_column_to_workspace"@ || k == "movecolumntoworkspace"@
        || k == "move_workspace_to_index"@ || k == "moveworkspacetoindex"@
        || k == "set_workspace_name"@ || k == "setworkspacename"@
        || k == "unset_workspace_name"@ || k == "unsetworkspacename"@
        || k == "focus_monitor"@ || k == "focusmonitor"@
        || k == "move_window_to_monitor"@ || k == "movewindowtomonitor"@
        || k == "move_column_to_monitor"@ || k == "movecolumntomonitor"@
        || k == "move_workspace_to_monitor"@ || k == "moveworkspacetomonitor"@
        || k == "switch_layout"@ || k == "switchlayout"@
        || k == "set_dynamic_cast_monitor"@ || k == "setdynamiccastmonitor"@
        || k == "toggle_window_urgent"@ || k == "togglewindowurgent"@
        || k == "set_window_urgent"@ || k == "setwindowurgent"@
        || k == "unset_window_urgent"@ || k == "unsetwindowurgent"@
}

fn field_key(k: &[char]) -> (r: bool)
    ensures
        r == is_field_key(k@),
{
    eq_lit(k, "quit")
        || eq_lit(k, "spawn")
        || eq_lit(k, "spawn_sh") || eq_lit(k, "spawnsh")
        || eq_lit(k, "do_screen_transition") || eq_lit(k, "doscreentransition")
        || eq_lit(k, "confirm_screenshot") || eq_lit(k, "confirmscreenshot")
        || eq_lit(k, "screenshot")
        || eq_lit(k, "screenshot_screen") || eq_lit(k, "screenshotscreen")
        || eq_lit(k, "screenshot_window") || eq_lit(k, "screenshotwindow")
        || eq_lit(k, "focus_window") || eq_lit(k, "focuswindow")
        || eq_lit(k, "focus_window_in_column") || eq_lit(k, "focuswindowincolumn")
        || eq_lit(k, "focus_column") || eq_lit(k, "focuscolumn")
        || eq_lit(k, "move_column_to_index") || eq_lit(k, "movecolumntoindex")
        || eq_lit(k, "set_column_display") || eq_lit(k, "setcolumndisplay")
        || eq_lit(k, "focus_workspace") || eq_lit(k, "focusworkspace")
        || eq_lit(k, "move_window_to_workspace_down") || eq_lit(k, "movewindowtoworkspacedown")
        || eq_lit(k, "move_window_to_workspace_up") || eq_lit(k, "movewindowtoworkspaceup")
        || eq_lit(k, "move_window_to_workspace") || eq_lit(k, "movewindowtoworkspace")
        || eq_lit(k, "move_column_to_workspace_down") || eq_lit(k, "movecolumntoworkspacedown")
        || eq_lit(k, "move_column_to_workspace_up") || eq_lit(k, "movecolumntoworkspaceup")
        || eq_lit(k, "move_column_to_workspace") || eq_lit(k, "movecolumntoworkspace")
        || eq_lit(k, "move_workspace_to_index") || eq_lit(k, "moveworkspacetoindex")
        || eq_lit(k, "set_workspace_name") || eq_lit(k, "setworkspacename")
        || eq_lit(k, "unset_workspace_name") || eq_lit(k, "unsetworkspacename")
        || eq_lit(k, "focus_monitor") || eq_lit(k, "focusmonitor")
        || eq_lit(k, "move_window_to_monitor") || eq_lit(k, "movewindowtomonitor")
        || eq_lit(k, "move_column_to_monitor") || eq_lit(k, "movecolumntomonitor")
        || eq_lit(k, "move_workspace_to_monitor") || eq_lit(k, "moveworkspacetomonitor")
        || eq_lit(k, "switch_layout") || eq_lit(k, "switchlayout")
        || eq_lit(k, "set_dynamic_cast_monitor") || eq_lit(k, "setdynamiccastmonitor")
        || eq_lit(k, "toggle_window_urgent") || eq_lit(k, "togglewindowurgent")
        || eq_lit(k, "set_window_urgent") || eq_lit(k, "setwindowurgent")
        || eq_lit(k, "unset_window_urgent") || eq_lit(k, "unsetwindowurgent")
}

/// What a bind table whose action has the normalized name `k` (one of
/// `is_field_key`) gives.
pub open spec fn field_action<F, E>(k: Seq<char>, f: ActionFields<F, E>) -> Result<Action<F>, ActionError<E>> {
    if k == "quit"@ {
        Ok(Action::Quit(flag_or(f.skip_confirmation, false)))
    } else if k == "spawn"@ {
        match f.args {
            Err(e) => Err(ActionError::Table(e)),
            Ok(v) => if v.len() == 0 { Err(ActionError::SpawnNeedsArgs) } else { Ok(Action::Spawn(v)) },
        }
    } else if k == "spawn_sh"@ || k == "spawnsh"@ {
        match f.command {
            Some(c) => Ok(Action::SpawnSh(c)),
            None => match f.args {
                Ok(v) => if v.len() > 0 { Ok(Action::SpawnSh(v@[0])) } else { Err(ActionError::SpawnShNeedsCommand) },
                Err(_) => Err(ActionError::SpawnShNeedsCommand),
            },
        }
    } else if k == "do_screen_transition"@ || k == "doscreentransition"@ {
        Ok(Action::DoScreenTransition(match f.delay_ms {
            Some(v) => Some(v as u16),
            None => None,
        }))
    } else if k == "confirm_screenshot"@ || k == "confirmscreenshot"@ {
        Ok(Action::ConfirmScreenshot { write_to_disk: flag_or(f.write_to_disk, true) })
    } else if k == "screenshot"@ {
        Ok(Action::Screenshot(flag_or(f.show_pointer, true), f.path))
    } else if k == "screenshot_screen"@ || k == "screenshotscreen"@ {
        Ok(Action::ScreenshotScreen(flag_or(f.write_to_disk, true), flag_or(f.show_pointer, true), f.path))
    } else if k == "screenshot_window"@ || k == "screenshotwindow"@ {
        match f.id {
            Some(i) => Ok(Action::ScreenshotWindowById { id: i as u64, write_to_disk: flag_or(f.write_to_disk, true), path: f.path }),
            None => Ok(Action::ScreenshotWindow(flag_or(f.write_to_disk, true), f.path)),
        }
    } else if k == "focus_window"@ || k == "focuswindow"@ {
        match f.id {
            Some(i) => Ok(Action::FocusWindow(i as u64)),
            None => Err(ActionError::MissingField("focus_window requires 'id' field (u64)")),
        }
    } else if k == "focus_window_in_column"@ || k == "focuswindowincolumn"@ {
        match f.index {
            Some(i) => Ok(Action::FocusWindowInColumn(i as u8)),
            None => Err(ActionError::MissingField("focus_window_in_column requires 'index'")),
        }
    } else if k == "focus_column"@ || k == "focuscolumn"@ {
        match f.index {
            Some(i) => Ok(Action::FocusColumn(i as usize)),
            None => Err(ActionError::MissingField("focus_column requires 'index'")),
        }
    } else if k == "move_column_to_index"@ || k == "movecolumntoindex"@ {
        match f.index {
            Some(i) => Ok(Action::MoveColumnToIndex(i as usize)),
            None => Err(ActionError::MissingField("move_column_to_index requires 'index'")),
        }
    } else if k == "set_column_display"@ || k == "setcolumndisplay"@ {
        match f.display {
            None => Err(ActionError::MissingField("set_column_display requires 'display'")),
            Some(d) => match column_display_of(d@) {
                Some(c) => Ok(Action::SetColumnDisplay(c)),
                None => Err(ActionError::InvalidColumnDisplay(d)),
            },
        }
    } else if k == "focus_workspace"@ || k == "focusworkspace"@ {
        match workspace_reference(top_reference(f)) {
            Ok(r) => Ok(Action::FocusWorkspace(r)),
            Err(e) => Err(e),
        }
    } else if k == "move_window_to_workspace_down"@ || k == "movewindowtoworkspacedown"@ {
        Ok(Action::MoveWindowToWorkspaceDown(flag_or(f.focus, true)))
    } else if k == "move_window_to_workspace_up"@ || k == "movewindowtoworkspaceup"@ {
        Ok(Action::MoveWindowToWorkspaceUp(flag_or(f.focus, true)))
    } else if k == "move_window_to_workspace"@ || k == "movewindowtoworkspace"@ {
        match workspace_reference(top_reference(f)) {
            Err(e) => Err(e),
            Ok(r) => match f.window_id {
                Some(w) => Ok(Action::MoveWindowToWorkspaceById { window_id: w as u64, reference: r, focus: flag_or(f.focus, true) }),
                None => Ok(Action::MoveWindowToWorkspace(r, flag_or(f.focus, true))),
            },
        }
    } else if k == "move_column_to_workspace_down"@ || k == "movecolumntoworkspacedown"@ {
        Ok(Action::MoveColumnToWorkspaceDown(flag_or(f.focus, true)))
    } else if k == "move_column_to_workspace_up"@ || k == "movecolumntoworkspaceup"@ {
        Ok(Action::MoveColumnToWorkspaceUp(flag_or(f.focus, true)))
    } else if k == "move_column_to_workspace"@ || k == "movecolumntoworkspace"@ {
        match workspace_reference(top_reference(f)) {
            Err(e) => Err(e),
            Ok(r) => Ok(Action::MoveColumnToWorkspace(r, flag_or(f.focus, true))),
        }
    } else if k == "move_workspace_to_index"@ || k == "moveworkspacetoindex"@ {
        match f.index {
            None => Err(ActionError::MissingField("move_workspace_to_index requires 'index'")),
            Some(i) => match f.reference_table {
                None => Ok(Action::MoveWorkspaceToIndex(i as usize)),
                Some(t) => match workspace_reference(t) {
                    Ok(r) => Ok(Action::MoveWorkspaceToIndexByRef { new_idx: i as usize, reference: r }),
                    Err(e) => Err(e),
                },
            },
        }
    } else if k == "set_workspace_name"@ || k == "setworkspacename"@ {
        match f.name {
            None => Err(ActionError::MissingField("set_workspace_name requires 'name'")),
            Some(n) => match f.reference_table {
                None => Ok(Action::SetWorkspaceName(n)),
                Some(t) => match workspace_reference(t) {
                    Ok(r) => Ok(Action::SetWorkspaceNameByRef { name: n, reference: r }),
                    Err(e) => Err(e),
                },
            },
        }
    } else if k == "unset_workspace_name"@ || k == "unsetworkspacename"@ {
        match f.reference_table {
            None => Ok(Action::UnsetWorkspaceName),
            Some(t) => match workspace_reference(t) {
                Ok(r) => Ok(Action::UnsetWorkSpaceNameByRef(r)),
                Err(e) => Err(e),
            },
        }
    } else if k == "focus_monitor"@ || k == "focusmonitor"@ {
        match f.output {
            None => Err(ActionError::MissingField("focus_monitor requires 'output'")),
            Some(o) => Ok(Action::FocusMonitor(o)),
        }
    } else if k == "move_window_to_monitor"@ || k == "movewindowtomonitor"@ {
        match f.output {
            None => Err(ActionError::MissingField("move_window_to_monitor requires 'output'")),
            Some(o) => match f.id {
                Some(i) => Ok(Action::MoveWindowToMonitorById { id: i as u64, output: o }),
                None => Ok(Action::MoveWindowToMonitor(o)),
            },
        }
    } else if k == "move_column_to_monitor"@ || k == "movecolumntomonitor"@ {
        match f.output {
            None => Err(ActionError::MissingField("move_column_to_monitor requires 'output'")),
            Some(o) => Ok(Action::MoveColumnToMonitor(o)),
        }
    } else if k == "move_workspace_to_monitor"@ || k == "moveworkspacetomonitor"@ {
        match f.output {
            None => Err(ActionError::MissingField("move_workspace_to_monitor requires 'output'")),
            Some(o) => match f.reference_table {
                None => Ok(Action::MoveWorkspaceToMonitor(o)),
                Some(t) => match workspace_reference(t) {
                    Ok(r) => Ok(Action::MoveWorkspaceToMonitorByRef { output_name: o, reference: r }),
                    Err(e) => Err(e),
                },
            },
        }
    } else if k == "switch_layout"@ || k == "switchlayout"@ {
        match layout_target(f) {
            Ok(t) => Ok(Action::SwitchLayout(t)),
            Err(e) => Err(e),
        }
    } else if k == "set_dynamic_cast_monitor"@ || k == "setdynamiccastmonitor"@ {
        Ok(Action::SetDynamicCastMonitor(f.output))
    } else if k == "toggle_window_urgent"@ || k == "togglewindowurgent"@ {
        match f.id {
            Some(i) => Ok(Action::ToggleWindowUrgent(i as u64)),
            None => Err(ActionError::MissingField("toggle_window_urgent requires 'id'")),
        }
    } else if k == "set_window_urgent"@ || k == "setwindowurgent"@ {
        match f.id {
            Some(i) => Ok(Action::SetWindowUrgent(i as u64)),
            None => Err(ActionError::MissingField("set_window_urgent requires 'id'")),
        }
    } else if k == "unset_window_urgent"@ || k == "unsetwindowurgent"@ {
        match f.id {
            Some(i) => Ok(Action::UnsetWindowUrgent(i as u64)),
            None => Err(ActionError::MissingField("unset_window_urgent requires 'id'")),
        }
    } else {
        Err(ActionError::MissingAction)
    }
}

fn field_action_of<F, E>(k: &[char], fields: ActionFields<F, E>) -> (r: Result<Action<F>, ActionError<E>>)
    ensures
        r == field_action(k@, fields),
{
    if eq_lit(k, "quit") {
        Ok(Action::Quit(flag_or_exec(fields.skip_confirmation, false)))
    } else if eq_lit(k, "spawn") {
        match fields.args {
            Err(e) => Err(ActionError::Table(e)),
            Ok(v) => if v.len() == 0 { Err(ActionError::SpawnNeedsArgs) } else { Ok(Action::Spawn(v)) },
        }
    } else if eq_lit(k, "spawn_sh") || eq_lit(k, "spawnsh") {
        match fields.command {
            Some(c) => Ok(Action::SpawnSh(c)),
            None => match fields.args {
                Ok(v) => {
                    let mut v = v;
                    if v.len() > 0 { Ok(Action::SpawnSh(v.remove(0))) } else { Err(ActionError::SpawnShNeedsCommand) }
                },
                Err(_) => Err(ActionError::SpawnShNeedsCommand),
            },
        }
    } else if eq_lit(k, "do_screen_transition") || eq_lit(k, "doscreentransition") {
        Ok(Action::DoScreenTransition(match fields.delay_ms {
            Some(v) => Some(v as u16),
            None => None,
        }))
    } else if eq_lit(k, "confirm_screenshot") || eq_lit(k, "confirmscreenshot") {
        Ok(Action::ConfirmScreenshot { write_to_disk: flag_or_exec(fields.write_to_disk, true) })
    } else if eq_lit(k, "screenshot") {
        Ok(Action::Screenshot(flag_or_exec(fields.show_pointer, true), fields.path))
    } else if eq_lit(k, "screenshot_screen") || eq_lit(k, "screenshotscreen") {
        Ok(Action::ScreenshotScreen(flag_or_exec(fields.write_to_disk, true), flag_or_exec(fields.show_pointer, true), fields.path))
    } else if eq_lit(k, "screenshot_window") || eq_lit(k, "screenshotwindow") {
        match fields.id {
            Some(i) => Ok(Action::ScreenshotWindowById { id: i as u64, write_to_disk: flag_or_exec(fields.write_to_disk, true), path: fields.path }),
            None => Ok(Action::ScreenshotWindow(flag_or_exec(fields.write_to_disk, true), fields.path)),
        }
    } else if eq_lit(k, "focus_window") || eq_lit(k, "focuswindow") {
        match fields.id {
            Some(i) => Ok(Action::FocusWindow(i as u64)),
            None => Err(ActionError::MissingField("focus_window requires 'id' field (u64)")),
        }
    } else if eq_lit(k, "focus_window_in_column") || eq_lit(k, "focuswindowincolumn") {
        match fields.index {
            Some(i) => Ok(Action::FocusWindowInColumn(i as u8)),
            None => Err(ActionError::MissingField("focus_window_in_column requires 'index'")),
        }
    } else if eq_lit(k, "focus_column") || eq_lit(k, "focuscolumn") {
        match fields.index {
            Some(i) => Ok(Action::FocusColumn(i as usize)),
            None => Err(ActionError::MissingField("focus_column requires 'index'")),
        }
    } else if eq_lit(k, "move_column_to_index") || eq_lit(k, "movecolumntoindex") {
        match fields.index {
            Some(i) => Ok(Action::MoveColumnToIndex(i as usize)),
            None => Err(ActionError::MissingField("move_column_to_index requires 'index'")),
        }
    } else if eq_lit(k, "set_column_display") || eq_lit(k, "setcolumndisplay") {
        match fields.display {
            None => Err(ActionError::MissingField("set_column_display requires 'display'")),
            Some(d) => match parse_column_display(d.as_str()) {
                Some(c) => Ok(Action::SetColumnDisplay(c)),
                None => Err(ActionError::InvalidColumnDisplay(d)),
            },
        }
    } else if eq_lit(k, "focus_workspace") || eq_lit(k, "focusworkspace") {
        match reference_of(top_reference_of(fields)) {
            Ok(r) => Ok(Action::FocusWorkspace(r)),
            Err(e) => Err(e),
        }
    } else if eq_lit(k, "move_window_to_workspace_down") || eq_lit(k, "movewindowtoworkspacedown") {
        Ok(Action::MoveWindowToWorkspaceDown(flag_or_exec(fields.focus, true)))
    } else if eq_lit(k, "move_window_to_workspace_up") || eq_lit(k, "movewindowtoworkspaceup") {
        Ok(Action::MoveWindowToWorkspaceUp(flag_or_exec(fields.focus, true)))
    } else if eq_lit(k, "move_window_to_workspace") || eq_lit(k, "movewindowtoworkspace") {
        let focus = fields.focus;
        let window_id = fields.window_id;
        match reference_of(top_reference_of(fields)) {
            Err(e) => Err(e),
            Ok(r) => match window_id {
                Some(w) => Ok(Action::MoveWindowToWorkspaceById { window_id: w as u64, reference: r, focus: flag_or_exec(focus, true) }),
                None => Ok(Action::MoveWindowToWorkspace(r, flag_or_exec(focus, true))),
            },
        }
    } else if eq_lit(k, "move_column_to_workspace_down") || eq_lit(k, "movecolumntoworkspacedown") {
        Ok(Action::MoveColumnToWorkspaceDown(flag_or_exec(fields.focus, true)))
    } else if eq_lit(k, "move_column_to_workspace_up") || eq_lit(k, "movecolumntoworkspaceup") {
        Ok(Action::MoveColumnToWorkspaceUp(flag_or_exec(fields.focus, true)))
    } else if eq_lit(k, "move_column_to_workspace") || eq_lit(k, "movecolumntoworkspace") {
        let focus = fields.focus;
        match reference_of(top_reference_of(fields)) {
            Err(e) => Err(e),
            Ok(r) => Ok(Action::MoveColumnToWorkspace(r, flag_or_exec(focus, true))),
        }
    } else if eq_lit(k, "move_workspace_to_index") || eq_lit(k, "moveworkspacetoindex") {
        match fields.index {
            None => Err(ActionError::MissingField("move_workspace_to_index requires 'index'")),
            Some(i) => match fields.reference_table {
                None => Ok(Action::MoveWorkspaceToIndex(i as usize)),
                Some(t) => match reference_of(t) {
                    Ok(r) => Ok(Action::MoveWorkspaceToIndexByRef { new_idx: i as usize, reference: r }),
                    Err(e) => Err(e),
                },
            },
        }
    } else if eq_lit(k, "set_workspace_name") || eq_lit(k, "setworkspacename") {
        match fields.name {
            None => Err(ActionError::MissingField("set_workspace_name requires 'name'")),
            Some(n) => match fields.reference_table {
                None => Ok(Action::SetWorkspaceName(n)),
                Some(t) => match reference_of(t) {
                    Ok(r) => Ok(Action::SetWorkspaceNameByRef { name: n, reference: r }),
                    Err(e) => Err(e),
                },
            },
        }
    } else if eq_lit(k, "unset_workspace_name") || eq_lit(k, "unsetworkspacename") {
        match fields.reference_table {
            None => Ok(Action::UnsetWorkspaceName),
            Some(t) => match reference_of(t) {
                Ok(r) => Ok(Action::UnsetWorkSpaceNameByRef(r)),
                Err(e) => Err(e),
            },
        }
    } else if eq_lit(k, "focus_monitor") || eq_lit(k, "focusmonitor") {
        match fields.output {
            None => Err(ActionError::MissingField("focus_monitor requires 'output'")),
            Some(o) => Ok(Action::FocusMonitor(o)),
        }
    } else if eq_lit(k, "move_window_to_monitor") || eq_lit(k, "movewindowtomonitor") {
        match fields.output {
            None => Err(ActionError::MissingField("move_window_to_monitor requires 'output'")),
            Some(o) => match fields.id {
                Some(i) => Ok(Action::MoveWindowToMonitorById { id: i as u64, output: o }),
                None => Ok(Action::MoveWindowToMonitor(o)),
            },
        }
    } else if eq_lit(k, "move_column_to_monitor") || eq_lit(k, "movecolumntomonitor") {
        match fields.output {
            None => Err(ActionError::MissingField("move_column_to_monitor requires 'output'")),
            Some(o) => Ok(Action::MoveColumnToMonitor(o)),
        }
    } else if eq_lit(k, "move_workspace_to_monitor") || eq_lit(k, "moveworkspacetomonitor") {
        match fields.output {
            None => Err(ActionError::MissingField("move_workspace_to_monitor requires 'output'")),
            Some(o) => match fields.reference_table {
                None => Ok(Action::MoveWorkspaceToMonitor(o)),
                Some(t) => match reference_of(t) {
                    Ok(r) => Ok(Action::MoveWorkspaceToMonitorByRef { output_name: o, reference: r }),
                    Err(e) => Err(e),
                },
            },
        }
    } else if eq_lit(k, "switch_layout") || eq_lit(k, "switchlayout") {
        match layout_target_of(fields) {
            Ok(t) => Ok(Action::SwitchLayout(t)),
            Err(e) => Err(e),
        }
    } else if eq_lit(k, "set_dynamic_cast_monitor") || eq_lit(k, "setdynamiccastmonitor") {
        Ok(Action::SetDynamicCastMonitor(fields.output))
    } else if eq_lit(k, "toggle_window_urgent") || eq_lit(k, "togglewindowurgent") {
        match fields.id {
            Some(i) => Ok(Action::ToggleWindowUrgent(i as u64)),
            None => Err(ActionError::MissingField("toggle_window_urgent requires 'id'")),
        }
    } else if eq_lit(k, "set_window_urgent") || eq_lit(k, "setwindowurgent") {
        match fields.id {
            Some(i) => Ok(Action::SetWindowUrgent(i as u64)),
            None => Err(ActionError::MissingField("set_window_urgent requires 'id'")),
        }
    } else if eq_lit(k, "unset_window_urgent") || eq_lit(k, "unsetwindowurgent") {
        match fields.id {
            Some(i) => Ok(Action::UnsetWindowUrgent(i as u64)),
            None => Err(ActionError::MissingField("unset_window_urgent requires 'id'")),
        }
    } else {
        Err(ActionError::MissingAction)
    }
}
/// The size change that a table gives: `fixed` pixels, else a `proportion`,
/// else a `change` text in the collection form, else `value` pixels.
pub open spec fn size_change_read<F, E>(f: ActionFields<F, E>, r: Result<SizeChange<Amount<F>>, ActionError<E>>) -> bool {
    match f.fixed {
        Some(v) => r == Ok::<_, ActionError<E>>(SizeChange::<Amount<F>>::SetFixed(v as i32)),
        None => match f.proportion {
            Some(p) => r == Ok::<_, ActionError<E>>(SizeChange::SetProportion(Amount::Number(p))),
            None => match f.change {
                Some(s) => match collection_size_change_text(s@) {
                    Some(c) => r matches Ok(x) && literal_size_change(x, c),
                    None => r matches Err(ActionError::InvalidSizeChange(t)) && t@ == trimmed(s@),
                },
                None => match f.value {
                    Some(v) => r == Ok::<_, ActionError<E>>(SizeChange::<Amount<F>>::SetFixed(v as i32)),
                    None => r == Err::<SizeChange<Amount<F>>, _>(ActionError::<E>::NoSizeChange),
                },
            },
        },
    }
}

/// Whether reading the size change would negate `i32::MIN` (an overflow).
pub open spec fn size_change_overflows<F, E>(f: ActionFields<F, E>) -> bool {
    &&& f.fixed is None
    &&& f.proportion is None
    &&& f.change matches Some(s) && collection_size_change_overflows(s@)
}

pub(crate) fn literal_size<F>(c: SizeChange<crate::values::ScaledLiteral>) -> (r: SizeChange<Amount<F>>)
    ensures
        literal_size_change(r, size_change_view(c)),
{
    match c {
        SizeChange::SetFixed(v) => SizeChange::SetFixed(v),
        SizeChange::AdjustFixed(v) => SizeChange::AdjustFixed(v),
        SizeChange::SetProportion(l) => SizeChange::SetProportion(Amount::Literal(l)),
        SizeChange::AdjustProportion(l) => SizeChange::AdjustProportion(Amount::Literal(l)),
    }
}

fn size_change_of<F, E>(fixed: Option<i64>, proportion: Option<F>, change: Option<String>, value: Option<i64>) -> (r: Result<SizeChange<Amount<F>>, ActionError<E>>)
    requires
        !(fixed is None && proportion is None && (change matches Some(s) && collection_size_change_overflows(s@))),
    ensures
        forall|f: ActionFields<F, E>| f.fixed == fixed && f.proportion == proportion && f.change == change && f.value == value
            ==> #[trigger] size_change_read(f, r),
{
    match fixed {
        Some(v) => Ok(SizeChange::SetFixed(v as i32)),
        None => match proportion {
            Some(p) => Ok(SizeChange::SetProportion(Amount::Number(p))),
            None => match change {
                Some(s) => match parse_size_change_string(s.as_str()) {
                    Some(c) => Ok(literal_size(c)),
                    None => Err(ActionError::InvalidSizeChange(string_from_chars(&trim(&chars_of(s.as_str()))))),
                },
                None => match value {
                    Some(v) => Ok(SizeChange::SetFixed(v as i32)),
                    None => Err(ActionError::NoSizeChange),
                },
            },
        },
    }
}

/// The position change that a coordinate value gives: a number sets the
/// position; a text reads as a position change.
pub open spec fn position_read<F, E>(v: PositionValue<F, E>, r: Result<PositionChange<Amount<F>>, ActionError<E>>) -> bool {
    match v {
        PositionValue::Nil => r == Err::<PositionChange<Amount<F>>, _>(ActionError::<E>::NoPosition),
        PositionValue::Integer(n) => r == Ok::<_, ActionError<E>>(PositionChange::<Amount<F>>::SetFixed(Amount::Whole(n))),
        PositionValue::Number(n) => r == Ok::<_, ActionError<E>>(PositionChange::SetFixed(Amount::Number(n))),
        PositionValue::Text(s) => match position_change_text(s@) {
            Ok(p) => r matches Ok(c) && literal_position_change(c, p),
            Err(e) => r matches Err(ActionError::BadPosition(e2, t)) && e2 == e && t@ == trimmed(s@),
        },
        PositionValue::Other(n) => r == Err::<PositionChange<Amount<F>>, _>(ActionError::<E>::PositionType(n)),
        PositionValue::Failed(e) => r == Err::<PositionChange<Amount<F>>, _>(ActionError::Table(e)),
    }
}

/// Whether a coordinate value reads as a position change.
pub open spec fn position_accepted<F, E>(v: PositionValue<F, E>) -> bool {
    match v {
        PositionValue::Integer(_) | PositionValue::Number(_) => true,
        PositionValue::Text(s) => position_change_text(s@) is Ok,
        _ => false,
    }
}

pub(crate) fn literal_position<F>(c: PositionChange<crate::values::ScaledLiteral>) -> (r: PositionChange<Amount<F>>)
    ensures
        literal_position_change(r, position_change_view(c)),
{
    match c {
        PositionChange::SetFixed(l) => PositionChange::SetFixed(Amount::Literal(l)),
        PositionChange::AdjustFixed(l) => PositionChange::AdjustFixed(Amount::Literal(l)),
        PositionChange::SetProportion(l) => PositionChange::SetProportion(Amount::Literal(l)),
        PositionChange::AdjustProportion(l) => PositionChange::AdjustProportion(Amount::Literal(l)),
    }
}

fn position_of<F, E>(v: PositionValue<F, E>) -> (r: Result<PositionChange<Amount<F>>, ActionError<E>>)
    ensures
        position_read(v, r),
        r is Ok <==> position_accepted(v),
{
    match v {
        PositionValue::Nil => Err(ActionError::NoPosition),
        PositionValue::Integer(n) => Ok(PositionChange::SetFixed(Amount::Whole(n))),
        PositionValue::Number(n) => Ok(PositionChange::SetFixed(Amount::Number(n))),
        PositionValue::Text(s) => match parse_position_change_str(s.as_str()) {
            Ok(c) => Ok(literal_position(c)),
            Err(e) => Err(ActionError::BadPosition(e, string_from_chars(&trim(&chars_of(s.as_str()))))),
        },
        PositionValue::Other(n) => Err(ActionError::PositionType(n)),
        PositionValue::Failed(e) => Err(ActionError::Table(e)),
    }
}

/// The names of the actions that read a size or a position.
pub open spec fn is_sized_key(k: Seq<char>) -> bool {
    k == "set_window_width"@ || k == "setwindowwidth"@ || k == "set_window_height"@
        || k == "setwindowheight"@ || k == "set_column_width"@ || k == "setcolumnwidth"@
        || k == "move_floating_window"@ || k == "movefloatingwindow"@
}

fn sized_key(k: &[char]) -> (r: bool)
    ensures
        r == is_sized_key(k@),
{
    eq_lit(k, "set_window_width") || eq_lit(k, "setwindowwidth") || eq_lit(k, "set_window_height")
        || eq_lit(k, "setwindowheight") || eq_lit(k, "set_column_width") || eq_lit(k, "setcolumnwidth")
        || eq_lit(k, "move_floating_window") || eq_lit(k, "movefloatingwindow")
}

/// `r` is what a bind table whose action has the normalized name `k` (one of
/// `is_sized_key`) gives: the size change (or its error) with the window of
/// `id`, or the two coordinates read in order (`x` first) with an optional
/// window.
pub open spec fn sized_action<F, E>(k: Seq<char>, f: ActionFields<F, E>, r: Result<Action<F>, ActionError<E>>) -> bool {
    if k == "set_window_width"@ || k == "setwindowwidth"@ {
        match r {
            Ok(Action::SetWindowWidthById { id, change }) => f.id matches Some(i) && id == i as u64 && size_change_read(f, Ok(change)),
            Ok(Action::SetWindowWidth(change)) => f.id is None && size_change_read(f, Ok(change)),
            Err(e) => size_change_read(f, Err(e)),
            _ => false,
        }
    } else if k == "set_window_height"@ || k == "setwindowheight"@ {
        match r {
            Ok(Action::SetWindowHeightById { id, change }) => f.id matches Some(i) && id == i as u64 && size_change_read(f, Ok(change)),
            Ok(Action::SetWindowHeight(change)) => f.id is None && size_change_read(f, Ok(change)),
            Err(e) => size_change_read(f, Err(e)),
            _ => false,
        }
    } else if k == "set_column_width"@ || k == "setcolumnwidth"@ {
        match r {
            Ok(Action::SetColumnWidth(change)) => size_change_read(f, Ok(change)),
            Err(e) => size_change_read(f, Err(e)),
            _ => false,
        }
    } else {
        match r {
            Ok(Action::MoveFloatingWindowById { id, x, y }) => {
                &&& position_read(f.x, Ok(x))
                &&& position_read(f.y, Ok(y))
                &&& id == (match f.id {
                    Some(i) => Some(i as u64),
                    None => None,
                })
            },
            Err(e) => position_read(f.x, Err(e)) || (position_accepted(f.x) && position_read(f.y, Err(e))),
            _ => false,
        }
    }
}

fn sized_action_of<F, E>(k: &[char], fields: ActionFields<F, E>) -> (r: Result<Action<F>, ActionError<E>>)
    requires
        is_sized_key(k@),
        !size_change_overflows(fields),
    ensures
        sized_action(k@, fields, r),
{
    let ghost f = fields;
    let id = fields.id;
    let width = eq_lit(k, "set_window_width") || eq_lit(k, "setwindowwidth");
    let height = !width && (eq_lit(k, "set_window_height") || eq_lit(k, "setwindowheight"));
    let column = !width && !height && (eq_lit(k, "set_column_width") || eq_lit(k, "setcolumnwidth"));
    if !width && !height && !column {
        let x = match position_of(fields.x) {
            Ok(x) => x,
            Err(e) => return Err(e),
        };
        let y = match position_of(fields.y) {
            Ok(y) => y,
            Err(e) => return Err(e),
        };
        let id = match id {
            Some(i) => Some(i as u64),
            None => None,
        };
        return Ok(Action::MoveFloatingWindowById { id, x, y });
    }
    let change = match size_change_of(fields.fixed, fields.proportion, fields.change, fields.value) {
        Ok(c) => c,
        Err(e) => {
            assert(size_change_read(f, Err(e)));
            return Err(e);
        },
    };
    assert(size_change_read(f, Ok(change)));
    if width {
        match id {
            Some(i) => Ok(Action::SetWindowWidthById { id: i as u64, change }),
            None => Ok(Action::SetWindowWidth(change)),
        }
    } else if height {
        match id {
            Some(i) => Ok(Action::SetWindowHeightById { id: i as u64, change }),
            None => Ok(Action::SetWindowHeight(change)),
        }
    } else {
        Ok(Action::SetColumnWidth(change))
    }
}

/// Whether reading the bind table's size change would negate `i32::MIN`,
/// an overflow: the action reads a size change and its `change` text does.
pub open spec fn reads_overflowing_change<F, E>(f: ActionFields<F, E>) -> bool {
    &&& f.action matches Some(s) && is_sized_key(action_key(s@))
    &&& size_change_overflows(f)
}

/// `r` is what the bind table with the fields `f` gives: the action named by
/// its normalized `action` text, read from the fields that the action takes,
/// or the error that stops it.
pub open spec fn action_extracted<F, E>(f: ActionFields<F, E>, r: Result<Action<F>, ActionError<E>>) -> bool {
    match f.action {
        None => r == Err::<Action<F>, _>(ActionError::<E>::MissingAction),
        Some(s) => {
            let k = action_key(s@);
            if plain_action::<F>(k) is Some {
                r == Ok::<_, ActionError<E>>(plain_action::<F>(k).unwrap())
            } else if window_action::<F>(k, f.id) is Some {
                r == Ok::<_, ActionError<E>>(window_action::<F>(k, f.id).unwrap())
            } else if is_field_key(k) {
                r == field_action(k, f)
            } else if is_sized_key(k) {
                sized_action(k, f, r)
            } else {
                r == Err::<Action<F>, _>(ActionError::<E>::UnknownAction(s))
            }
        },
    }
}

/// The action that a bind table names, read from its fields.
pub fn extract_action<F, E>(fields: ActionFields<F, E>) -> (r: Result<Action<F>, ActionError<E>>)
    requires
        !reads_overflowing_change(fields),
    ensures
        action_extracted(fields, r),
{
    let s = match &fields.action {
        None => return Err(ActionError::MissingAction),
        Some(s) => s.clone(),
    };
    let k = action_key_of(s.as_str());
    if let Some(a) = plain_action_of(&k) {
        return Ok(a);
    }
    if let Some(a) = window_action_of(&k, fields.id) {
        return Ok(a);
    }
    if field_key(&k) {
        return field_action_of(&k, fields);
    }
    if sized_key(&k) {
        return sized_action_of(&k, fields);
    }
    Err(ActionError::UnknownAction(s))
}

/// Whether `extract_action` would overflow on these fields.
pub fn action_change_overflows<F, E>(fields: &ActionFields<F, E>) -> (r: bool)
    ensures
        r == reads_overflowing_change(*fields),
{
    match &fields.action {
        None => false,
        Some(s) => {
            if !sized_key(&action_key_of(s.as_str())) {
                return false;
            }
            if fields.fixed.is_some() || fields.proportion.is_some() {
                return false;
            }
            match &fields.change {
                Some(c) => crate::values::collection_size_change_overflows_exec(c.as_str()),
                None => false,
            }
        },
    }
}

} // verus!
