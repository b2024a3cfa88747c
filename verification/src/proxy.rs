//! The `niri.action` proxy: each method of the proxy names an action, and
//! its arguments, read by the method's signature, fill the action's fields.
use vstd::prelude::*;
use vstd::string::StringExecFns;
use crate::actions::{literal_position_change, literal_size_change, Action, Amount};
use crate::bind_table::{flag_or, flag_or_exec, joined, literal_position, literal_size, prefixed};
use crate::numbers::parse_u8;
use crate::text::{chars_of, eq_lit, folded, string_from_chars, trim, trimmed};
use crate::values::{
    layout_target_text, parse_column_display, parse_layout_switch_target, parse_position_change_str,
    parse_size_change, position_change_text, size_change_text, u8_value, ColumnDisplay,
    LayoutSwitchTarget, PositionChange, PositionChangeError, SizeChange, WorkspaceReferenceArg,
};

verus! {

/// The fields of a table given as a workspace reference, each as reading it
/// with the field's type gives it: `None` where that read fails.
pub struct ProxyTable {
    pub id: Option<u64>,
    pub index: Option<u8>,
    pub name: Option<String>,
}

/// A Lua value handed to a method that reads it by its own rules.
pub enum ProxyValue<F, E> {
    Integer(i64),
    /// A float, and the byte that it converts to (saturating, toward zero).
    Number(F, u8),
    Text(String),
    /// A string whose text could not be read; reading it raised this error.
    Unreadable(E),
    Table(ProxyTable),
    /// A value of any other type (nil, a boolean, a function, ...).
    Other,
}

/// Why a method call names no action.
pub enum ProxyError<E> {
    /// Reading a string argument raised this error.
    Lua(E),
    /// The size change text does not read as one.
    InvalidSizeChange(String),
    SizeChangeType,
    /// The position text (trimmed) does not read as a position change.
    BadPosition(PositionChangeError, String),
    PositionType,
    ReferenceTable,
    ReferenceType,
    InvalidLayoutTarget(String),
    LayoutTargetType,
    InvalidColumnDisplay(String),
    /// The proxy has no method of this name.
    UnknownMethod,
    /// The arguments do not have the kinds that the method's signature lists.
    ArgumentKinds,
}

/// The text of an error message, for every error but `Lua`.
pub open spec fn proxy_error_text<E>(e: ProxyError<E>) -> Seq<char> {
    match e {
        ProxyError::Lua(_) => Seq::empty(),
        ProxyError::InvalidSizeChange(s) => "invalid size change: "@ + s@,
        ProxyError::SizeChangeType => "size change must be a number or string"@,
        ProxyError::BadPosition(PositionChangeError::Empty, _) => "position change cannot be empty"@,
        ProxyError::BadPosition(PositionChangeError::InvalidProportion, s) => "invalid proportion: "@ + s@,
        ProxyError::BadPosition(PositionChangeError::InvalidPosition, s) => "invalid position: "@ + s@,
        ProxyError::PositionType => "position change must be a number or string"@,
        ProxyError::ReferenceTable => "workspace reference table must have 'id', 'index', or 'name'"@,
        ProxyError::ReferenceType => "workspace reference must be a number, string, or table"@,
        ProxyError::InvalidLayoutTarget(s) => "invalid layout target: "@ + s@ + " (use 'next', 'prev', or a number)"@,
        ProxyError::LayoutTargetType => "layout target must be a number or string ('next', 'prev')"@,
        ProxyError::InvalidColumnDisplay(d) => "invalid column display: "@ + d@ + " (use 'normal' or 'tabbed')"@,
        ProxyError::UnknownMethod => "no such action method"@,
        ProxyError::ArgumentKinds => "arguments do not match the method"@,
    }
}

impl<E> ProxyError<E> {
    /// The message that explains the error.
    pub fn message(&self) -> (r: String)
        requires
            !(self is Lua),
        ensures
            r@ == proxy_error_text(*self),
    {
        match self {
            ProxyError::Lua(_) => String::new(),
            ProxyError::InvalidSizeChange(s) => prefixed("invalid size change: ", s.as_str()),
            ProxyError::SizeChangeType => String::from_str("size change must be a number or string"),
            ProxyError::BadPosition(PositionChangeError::Empty, _) => String::from_str("position change cannot be empty"),
            ProxyError::BadPosition(PositionChangeError::InvalidProportion, s) => prefixed("invalid proportion: ", s.as_str()),
            ProxyError::BadPosition(PositionChangeError::InvalidPosition, s) => prefixed("invalid position: ", s.as_str()),
            ProxyError::PositionType => String::from_str("position change must be a number or string"),
            ProxyError::ReferenceTable => String::from_str("workspace reference table must have 'id', 'index', or 'name'"),
            ProxyError::ReferenceType => String::from_str("workspace reference must be a number, string, or table"),
            ProxyError::InvalidLayoutTarget(s) => joined("invalid layout target: ", s.as_str(), " (use 'next', 'prev', or a number)"),
            ProxyError::LayoutTargetType => String::from_str("layout target must be a number or string ('next', 'prev')"),
            ProxyError::InvalidColumnDisplay(d) => joined("invalid column display: ", d.as_str(), " (use 'normal' or 'tabbed')"),
            ProxyError::UnknownMethod => String::from_str("no such action method"),
            ProxyError::ArgumentKinds => String::from_str("arguments do not match the method"),
        }
    }
}

/// The size change that a value gives: an integer sets the width in pixels
/// (truncated to 32 bits), a float sets the proportion (in per cent), a text
/// reads as a size change.
pub open spec fn proxy_size_change<F, E>(v: ProxyValue<F, E>, r: Result<SizeChange<Amount<F>>, ProxyError<E>>) -> bool {
    match v {
        ProxyValue::Integer(n) => r == Ok::<_, ProxyError<E>>(SizeChange::<Amount<F>>::SetFixed(n as i32)),
        ProxyValue::Number(n, _) => r == Ok::<_, ProxyError<E>>(SizeChange::SetProportion(Amount::Percent(n))),
        ProxyValue::Text(s) => match size_change_text(s@) {
            Some(c) => r matches Ok(x) && literal_size_change(x, c),
            None => r == Err::<SizeChange<Amount<F>>, _>(ProxyError::<E>::InvalidSizeChange(s)),
        },
        ProxyValue::Unreadable(e) => r == Err::<SizeChange<Amount<F>>, _>(ProxyError::Lua(e)),
        _ => r == Err::<SizeChange<Amount<F>>, _>(ProxyError::<E>::SizeChangeType),
    }
}

/// Reads a size change from a value.
pub fn size_change_value<F, E>(v: ProxyValue<F, E>) -> (r: Result<SizeChange<Amount<F>>, ProxyError<E>>)
    ensures
        proxy_size_change(v, r),
{
    match v {
        ProxyValue::Integer(n) => Ok(SizeChange::SetFixed(n as i32)),
        ProxyValue::Number(n, _) => Ok(SizeChange::SetProportion(Amount::Percent(n))),
        ProxyValue::Text(s) => match parse_size_change(s.as_str()) {
            Some(c) => Ok(literal_size(c)),
            None => Err(ProxyError::InvalidSizeChange(s)),
        },
        ProxyValue::Unreadable(e) => Err(ProxyError::Lua(e)),
        _ => Err(ProxyError::SizeChangeType),
    }
}

/// The position change that a value gives: a number sets the position, a
/// text reads as a position change.
pub open spec fn proxy_position_change<F, E>(v: ProxyValue<F, E>, r: Result<PositionChange<Amount<F>>, ProxyError<E>>) -> bool {
    match v {
        ProxyValue::Integer(n) => r == Ok::<_, ProxyError<E>>(PositionChange::<Amount<F>>::SetFixed(Amount::Whole(n))),
        ProxyValue::Number(n, _) => r == Ok::<_, ProxyError<E>>(PositionChange::SetFixed(Amount::Number(n))),
        ProxyValue::Text(s) => match position_change_text(s@) {
            Ok(p) => r matches Ok(c) && literal_position_change(c, p),
            Err(e) => r matches Err(ProxyError::BadPosition(e2, t)) && e2 == e && t@ == trimmed(s@),
        },
        ProxyValue::Unreadable(e) => r == Err::<PositionChange<Amount<F>>, _>(ProxyError::Lua(e)),
        _ => r == Err::<PositionChange<Amount<F>>, _>(ProxyError::<E>::PositionType),
    }
}

/// Reads a position change from a value.
pub fn position_change_value<F, E>(v: ProxyValue<F, E>) -> (r: Result<PositionChange<Amount<F>>, ProxyError<E>>)
    ensures
        proxy_position_change(v, r),
        r is Ok <==> position_reads(v),
{
    match v {
        ProxyValue::Integer(n) => Ok(PositionChange::SetFixed(Amount::Whole(n))),
        ProxyValue::Number(n, _) => Ok(PositionChange::SetFixed(Amount::Number(n))),
        ProxyValue::Text(s) => match parse_position_change_str(s.as_str()) {
            Ok(c) => Ok(literal_position(c)),
            Err(e) => Err(ProxyError::BadPosition(e, string_from_chars(&trim(&chars_of(s.as_str()))))),
        },
        ProxyValue::Unreadable(e) => Err(ProxyError::Lua(e)),
        _ => Err(ProxyError::PositionType),
    }
}

/// The workspace that a value names: a number is an index (an integer
/// truncated to a byte), a text an index when it reads as a byte and a name
/// otherwise; of a table its `id`, else its `index`, else its `name`.
pub open spec fn proxy_reference<F, E>(v: ProxyValue<F, E>) -> Result<WorkspaceReferenceArg, ProxyError<E>> {
    match v {
        ProxyValue::Integer(n) => Ok(WorkspaceReferenceArg::Index(n as u8)),
        ProxyValue::Number(_, b) => Ok(WorkspaceReferenceArg::Index(b)),
        ProxyValue::Text(s) => Ok(match u8_value(s@) {
            Some(i) => WorkspaceReferenceArg::Index(i),
            None => WorkspaceReferenceArg::Name(s),
        }),
        ProxyValue::Unreadable(e) => Err(ProxyError::Lua(e)),
        ProxyValue::Table(t) => match t.id {
            Some(i) => Ok(WorkspaceReferenceArg::Id(i)),
            None => match t.index {
                Some(i) => Ok(WorkspaceReferenceArg::Index(i)),
                None => match t.name {
                    Some(n) => Ok(WorkspaceReferenceArg::Name(n)),
                    None => Err(ProxyError::ReferenceTable),
                },
            },
        },
        ProxyValue::Other => Err(ProxyError::ReferenceType),
    }
}

/// Reads a workspace reference from a value.
pub fn reference_value<F, E>(v: ProxyValue<F, E>) -> (r: Result<WorkspaceReferenceArg, ProxyError<E>>)
    ensures
        r == proxy_reference(v),
{
    match v {
        ProxyValue::Integer(n) => Ok(WorkspaceReferenceArg::Index(n as u8)),
        ProxyValue::Number(_, b) => Ok(WorkspaceReferenceArg::Index(b)),
        ProxyValue::Text(s) => Ok(match parse_u8(s.as_str()) {
            Some(i) => WorkspaceReferenceArg::Index(i),
            None => WorkspaceReferenceArg::Name(s),
        }),
        ProxyValue::Unreadable(e) => Err(ProxyError::Lua(e)),
        ProxyValue::Table(t) => match t.id {
            Some(i) => Ok(WorkspaceReferenceArg::Id(i)),
            None => match t.index {
                Some(i) => Ok(WorkspaceReferenceArg::Index(i)),
                None => match t.name {
                    Some(n) => Ok(WorkspaceReferenceArg::Name(n)),
                    None => Err(ProxyError::ReferenceTable),
                },
            },
        },
        ProxyValue::Other => Err(ProxyError::ReferenceType),
    }
}

/// An optional workspace reference: absent stays absent.
pub open spec fn proxy_optional_reference<F, E>(v: Option<ProxyValue<F, E>>) -> Result<Option<WorkspaceReferenceArg>, ProxyError<E>> {
    match v {
        None => Ok(None),
        Some(x) => match proxy_reference(x) {
            Ok(r) => Ok(Some(r)),
            Err(e) => Err(e),
        },
    }
}

fn optional_reference_value<F, E>(v: Option<ProxyValue<F, E>>) -> (r: Result<Option<WorkspaceReferenceArg>, ProxyError<E>>)
    ensures
        r == proxy_optional_reference(v),
{
    match v {
        None => Ok(None),
        Some(x) => match reference_value(x) {
            Ok(r) => Ok(Some(r)),
            Err(e) => Err(e),
        },
    }
}

/// The keyboard layout that a value names: a number is an index, a text
/// `next`, `prev`/`previous` (any letter case) or an index.
pub open spec fn proxy_layout<F, E>(v: ProxyValue<F, E>) -> Result<LayoutSwitchTarget, ProxyError<E>> {
    match v {
        ProxyValue::Integer(n) => Ok(LayoutSwitchTarget::Index(n as u8)),
        ProxyValue::Number(_, b) => Ok(LayoutSwitchTarget::Index(b)),
        ProxyValue::Text(s) => match layout_target_text(s@) {
            Some(t) => Ok(t),
            None => Err(ProxyError::InvalidLayoutTarget(s)),
        },
        ProxyValue::Unreadable(e) => Err(ProxyError::Lua(e)),
        _ => Err(ProxyError::LayoutTargetType),
    }
}

/// Reads a keyboard layout target from a value.
pub fn layout_value<F, E>(v: ProxyValue<F, E>) -> (r: Result<LayoutSwitchTarget, ProxyError<E>>)
    ensures
        r == proxy_layout(v),
{
    match v {
        ProxyValue::Integer(n) => Ok(LayoutSwitchTarget::Index(n as u8)),
        ProxyValue::Number(_, b) => Ok(LayoutSwitchTarget::Index(b)),
        ProxyValue::Text(s) => match parse_layout_switch_target(s.as_str()) {
            Some(t) => Ok(t),
            None => Err(ProxyError::InvalidLayoutTarget(s)),
        },
        ProxyValue::Unreadable(e) => Err(ProxyError::Lua(e)),
        _ => Err(ProxyError::LayoutTargetType),
    }
}

/// `normal` or `tabbed`, in any letter case.
pub open spec fn proxy_column_display<E>(s: String) -> Result<ColumnDisplay, ProxyError<E>> {
    if folded(s@) == "normal"@ {
        Ok(ColumnDisplay::Normal)
    } else if folded(s@) == "tabbed"@ {
        Ok(ColumnDisplay::Tabbed)
    } else {
        Err(ProxyError::InvalidColumnDisplay(s))
    }
}

fn column_display_value<E>(s: String) -> (r: Result<ColumnDisplay, ProxyError<E>>)
    ensures
        r == proxy_column_display::<E>(s),
{
    match parse_column_display(s.as_str()) {
        Some(d) => Ok(d),
        None => Err(ProxyError::InvalidColumnDisplay(s)),
    }
}

/// A method that takes no arguments.
pub open spec fn is_plain_method(name: Seq<char>) -> bool {
    name == "power_off_monitors"@
        || name == "power_on_monitors"@
        || name == "load_config_file"@
        || name == "focus_window_previous"@
        || name == "toggle_keyboard_shortcuts_inhibit"@
        || name == "focus_column_left"@
        || name == "focus_column_right"@
        || name == "focus_column_first"@
        || name == "focus_column_last"@
        || name == "focus_column_right_or_first"@
        || name == "focus_column_left_or_last"@
        || name == "focus_window_down"@
        || name == "focus_window_up"@
        || name == "focus_window_or_monitor_up"@
        || name == "focus_window_or_monitor_down"@
        || name == "focus_column_or_monitor_left"@
        || name == "focus_column_or_monitor_right"@
        || name == "focus_window_down_or_column_left"@
        || name == "focus_window_down_or_column_right"@
        || name == "focus_window_up_or_column_left"@
        || name == "focus_window_up_or_column_right"@
        || name == "focus_window_or_workspace_down"@
        || name == "focus_window_or_workspace_up"@
        || name == "focus_window_top"@
        || name == "focus_window_bottom"@
        || name == "focus_window_down_or_top"@
        || name == "focus_window_up_or_bottom"@
        || name == "move_column_left"@
        || name == "move_column_right"@
        || name == "move_column_to_first"@
        || name == "move_column_to_last"@
        || name == "move_column_left_or_to_monitor_left"@
        || name == "move_column_right_or_to_monitor_right"@
        || name == "move_window_down"@
        || name == "move_window_up"@
        || name == "move_window_down_or_to_workspace_down"@
        || name == "move_window_up_or_to_workspace_up"@
        || name == "consume_window_into_column"@
        || name == "expel_window_from_column"@
        || name == "swap_window_right"@
        || name == "swap_window_left"@
        || name == "toggle_column_tabbed_display"@
        || name == "center_column"@
        || name == "center_visible_columns"@
        || name == "focus_workspace_down"@
        || name == "focus_workspace_up"@
        || name == "focus_workspace_previous"@
        || name == "move_workspace_down"@
        || name == "move_workspace_up"@
        || name == "focus_monitor_left"@
        || name == "focus_monitor_right"@
        || name == "focus_monitor_down"@
        || name == "focus_monitor_up"@
        || name == "focus_monitor_previous"@
        || name == "focus_monitor_next"@
        || name == "move_window_to_monitor_left"@
        || name == "move_window_to_monitor_right"@
        || name == "move_window_to_monitor_down"@
        || name == "move_window_to_monitor_up"@
        || name == "move_window_to_monitor_previous"@
        || name == "move_window_to_monitor_next"@
        || name == "move_column_to_monitor_left"@
        || name == "move_column_to_monitor_right"@
        || name == "move_column_to_monitor_down"@
        || name == "move_column_to_monitor_up"@
        || name == "move_column_to_monitor_previous"@
        || name == "move_column_to_monitor_next"@
        || name == "switch_preset_column_width"@
        || name == "switch_preset_column_width_back"@
        || name == "maximize_column"@
        || name == "expand_column_to_available_width"@
        || name == "show_hotkey_overlay"@
        || name == "move_workspace_to_monitor_left"@
        || name == "move_workspace_to_monitor_right"@
        || name == "move_workspace_to_monitor_down"@
        || name == "move_workspace_to_monitor_up"@
        || name == "move_workspace_to_monitor_previous"@
        || name == "move_workspace_to_monitor_next"@
        || name == "toggle_debug_tint"@
        || name == "debug_toggle_opaque_regions"@
        || name == "debug_toggle_damage"@
        || name == "focus_floating"@
        || name == "focus_tiling"@
        || name == "switch_focus_between_floating_and_tiling"@
        || name == "clear_dynamic_cast_target"@
        || name == "toggle_overview"@
        || name == "open_overview"@
        || name == "close_overview"@
}

fn plain_method_name(name: &[char]) -> (r: bool)
    ensures
        r == is_plain_method(name@),
{
    eq_lit(name, "power_off_monitors")
        || eq_lit(name, "power_on_monitors")
        || eq_lit(name, "load_config_file")
        || eq_lit(name, "focus_window_previous")
        || eq_lit(name, "toggle_keyboard_shortcuts_inhibit")
        || eq_lit(name, "focus_column_left")
        || eq_lit(name, "focus_column_right")
        || eq_lit(name, "focus_column_first")
        || eq_lit(name, "focus_column_last")
        || eq_lit(name, "focus_column_right_or_first")
        || eq_lit(name, "focus_column_left_or_last")
        || eq_lit(name, "focus_window_down")
        || eq_lit(name, "focus_window_up")
        || eq_lit(name, "focus_window_or_monitor_up")
        || eq_lit(name, "focus_window_or_monitor_down")
        || eq_lit(name, "focus_column_or_monitor_left")
        || eq_lit(name, "focus_column_or_monitor_right")
        || eq_lit(name, "focus_window_down_or_column_left")
        || eq_lit(name, "focus_window_down_or_column_right")
        || eq_lit(name, "focus_window_up_or_column_left")
        || eq_lit(name, "focus_window_up_or_column_right")
        || eq_lit(name, "focus_window_or_workspace_down")
        || eq_lit(name, "focus_window_or_workspace_up")
        || eq_lit(name, "focus_window_top")
        || eq_lit(name, "focus_window_bottom")
        || eq_lit(name, "focus_window_down_or_top")
        || eq_lit(name, "focus_window_up_or_bottom")
        || eq_lit(name, "move_column_left")
        || eq_lit(name, "move_column_right")
        || eq_lit(name, "move_column_to_first")
        || eq_lit(name, "move_column_to_last")
        || eq_lit(name, "move_column_left_or_to_monitor_left")
        || eq_lit(name, "move_column_right_or_to_monitor_right")
        || eq_lit(name, "move_window_down")
        || eq_lit(name, "move_window_up")
        || eq_lit(name, "move_window_down_or_to_workspace_down")
        || eq_lit(name, "move_window_up_or_to_workspace_up")
        || eq_lit(name, "consume_window_into_column")
        || eq_lit(name, "expel_window_from_column")
        || eq_lit(name, "swap_window_right")
        || eq_lit(name, "swap_window_left")
        || eq_lit(name, "toggle_column_tabbed_display")
        || eq_lit(name, "center_column")
        || eq_lit(name, "center_visible_columns")
        || eq_lit(name, "focus_workspace_down")
        || eq_lit(name, "focus_workspace_up")
        || eq_lit(name, "focus_workspace_previous")
        || eq_lit(name, "move_workspace_down")
        || eq_lit(name, "move_workspace_up")
        || eq_lit(name, "focus_monitor_left")
        || eq_lit(name, "focus_monitor_right")
        || eq_lit(name, "focus_monitor_down")
        || eq_lit(name, "focus_monitor_up")
        || eq_lit(name, "focus_monitor_previous")
        || eq_lit(name, "focus_monitor_next")
        || eq_lit(name, "move_window_to_monitor_left")
        || eq_lit(name, "move_window_to_monitor_right")
        || eq_lit(name, "move_window_to_monitor_down")
        || eq_lit(name, "move_window_to_monitor_up")
        || eq_lit(name, "move_window_to_monitor_previous")
        || eq_lit(name, "move_window_to_monitor_next")
        || eq_lit(name, "move_column_to_monitor_left")
        || eq_lit(name, "move_column_to_monitor_right")
        || eq_lit(name, "move_column_to_monitor_down")
        || eq_lit(name, "move_column_to_monitor_up")
        || eq_lit(name, "move_column_to_monitor_previous")
        || eq_lit(name, "move_column_to_monitor_next")
        || eq_lit(name, "switch_preset_column_width")
        || eq_lit(name, "switch_preset_column_width_back")
        || eq_lit(name, "maximize_column")
        || eq_lit(name, "expand_column_to_available_width")
        || eq_lit(name, "show_hotkey_overlay")
        || eq_lit(name, "move_workspace_to_monitor_left")
        || eq_lit(name, "move_workspace_to_monitor_right")
        || eq_lit(name, "move_workspace_to_monitor_down")
        || eq_lit(name, "move_workspace_to_monitor_up")
        || eq_lit(name, "move_workspace_to_monitor_previous")
        || eq_lit(name, "move_workspace_to_monitor_next")
        || eq_lit(name, "toggle_debug_tint")
        || eq_lit(name, "debug_toggle_opaque_regions")
        || eq_lit(name, "debug_toggle_damage")
        || eq_lit(name, "focus_floating")
        || eq_lit(name, "focus_tiling")
        || eq_lit(name, "switch_focus_between_floating_and_tiling")
        || eq_lit(name, "clear_dynamic_cast_target")
        || eq_lit(name, "toggle_overview")
        || eq_lit(name, "open_overview")
        || eq_lit(name, "close_overview")
}

/// A method that takes an optional window id.
pub open spec fn is_id_method(name: Seq<char>) -> bool {
    name == "close_window"@
        || name == "fullscreen_window"@
        || name == "toggle_windowed_fullscreen"@
        || name == "consume_or_expel_window_left"@
        || name == "consume_or_expel_window_right"@
        || name == "center_window"@
        || name == "reset_window_height"@
        || name == "switch_preset_window_width"@
        || name == "switch_preset_window_width_back"@
        || name == "switch_preset_window_height"@
        || name == "switch_preset_window_height_back"@
        || name == "maximize_window_to_edges"@
        || name == "toggle_window_floating"@
        || name == "move_window_to_floating"@
        || name == "move_window_to_tiling"@
        || name == "toggle_window_rule_opacity"@
        || name == "set_dynamic_cast_window"@
}

fn id_method_name(name: &[char]) -> (r: bool)
    ensures
        r == is_id_method(name@),
{
    eq_lit(name, "close_window")
        || eq_lit(name, "fullscreen_window")
        || eq_lit(name, "toggle_windowed_fullscreen")
        || eq_lit(name, "consume_or_expel_window_left")
        || eq_lit(name, "consume_or_expel_window_right")
        || eq_lit(name, "center_window")
        || eq_lit(name, "reset_window_height")
        || eq_lit(name, "switch_preset_window_width")
        || eq_lit(name, "switch_preset_window_width_back")
        || eq_lit(name, "switch_preset_window_height")
        || eq_lit(name, "switch_preset_window_height_back")
        || eq_lit(name, "maximize_window_to_edges")
        || eq_lit(name, "toggle_window_floating")
        || eq_lit(name, "move_window_to_floating")
        || eq_lit(name, "move_window_to_tiling")
        || eq_lit(name, "toggle_window_rule_opacity")
        || eq_lit(name, "set_dynamic_cast_window")
}

/// A method that takes a focus flag.
pub open spec fn is_focus_flag_method(name: Seq<char>) -> bool {
    name == "move_window_to_workspace_down"@
        || name == "move_window_to_workspace_up"@
        || name == "move_column_to_workspace_down"@
        || name == "move_column_to_workspace_up"@
}

fn focus_flag_name(name: &[char]) -> (r: bool)
    ensures
        r == is_focus_flag_method(name@),
{
    eq_lit(name, "move_window_to_workspace_down")
        || eq_lit(name, "move_window_to_workspace_up")
        || eq_lit(name, "move_column_to_workspace_down")
        || eq_lit(name, "move_column_to_workspace_up")
}

/// A method that needs a window id.
pub open spec fn is_window_id_method(name: Seq<char>) -> bool {
    name == "focus_window"@
        || name == "toggle_window_urgent"@
        || name == "set_window_urgent"@
        || name == "unset_window_urgent"@
}

fn window_id_name(name: &[char]) -> (r: bool)
    ensures
        r == is_window_id_method(name@),
{
    eq_lit(name, "focus_window")
        || eq_lit(name, "toggle_window_urgent")
        || eq_lit(name, "set_window_urgent")
        || eq_lit(name, "unset_window_urgent")
}

/// A method that takes one text.
pub open spec fn is_text_method(name: Seq<char>) -> bool {
    name == "spawn_sh"@
        || name == "focus_monitor"@
        || name == "move_column_to_monitor"@
}

fn text_method_name(name: &[char]) -> (r: bool)
    ensures
        r == is_text_method(name@),
{
    eq_lit(name, "spawn_sh")
        || eq_lit(name, "focus_monitor")
        || eq_lit(name, "move_column_to_monitor")
}

/// A method that takes a column index.
pub open spec fn is_column_index_method(name: Seq<char>) -> bool {
    name == "focus_column"@
        || name == "move_column_to_index"@
}

fn column_index_name(name: &[char]) -> (r: bool)
    ensures
        r == is_column_index_method(name@),
{
    eq_lit(name, "focus_column")
        || eq_lit(name, "move_column_to_index")
}

/// The methods that take no arguments, and the action each names.
pub open spec fn proxy_plain_action<F>(name: Seq<char>) -> Option<Action<F>> {
    if name == "power_off_monitors"@ {
        Some(Action::PowerOffMonitors)
    } else if name == "power_on_monitors"@ {
        Some(Action::PowerOnMonitors)
    } else if name == "load_config_file"@ {
        Some(Action::LoadConfigFile)
    } else if name == "focus_window_previous"@ {
        Some(Action::FocusWindowPrevious)
    } else if name == "toggle_keyboard_shortcuts_inhibit"@ {
        Some(Action::ToggleKeyboardShortcutsInhibit)
    } else if name == "focus_column_left"@ {
        Some(Action::FocusColumnLeft)
    } else if name == "focus_column_right"@ {
        Some(Action::FocusColumnRight)
    } else if name == "focus_column_first"@ {
        Some(Action::FocusColumnFirst)
    } else if name == "focus_column_last"@ {
        Some(Action::FocusColumnLast)
    } else if name == "focus_column_right_or_first"@ {
        Some(Action::FocusColumnRightOrFirst)
    } else if name == "focus_column_left_or_last"@ {
        Some(Action::FocusColumnLeftOrLast)
    } else if name == "focus_window_down"@ {
        Some(Action::FocusWindowDown)
    } else if name == "focus_window_up"@ {
        Some(Action::FocusWindowUp)
    } else if name == "focus_window_or_monitor_up"@ {
        Some(Action::FocusWindowOrMonitorUp)
    } else if name == "focus_window_or_monitor_down"@ {
        Some(Action::FocusWindowOrMonitorDown)
    } else if name == "focus_column_or_monitor_left"@ {
        Some(Action::FocusColumnOrMonitorLeft)
    } else if name == "focus_column_or_monitor_right"@ {
        Some(Action::FocusColumnOrMonitorRight)
    } else if name == "focus_window_down_or_column_left"@ {
        Some(Action::FocusWindowDownOrColumnLeft)
    } else if name == "focus_window_down_or_column_right"@ {
        Some(Action::FocusWindowDownOrColumnRight)
    } else if name == "focus_window_up_or_column_left"@ {
        Some(Action::FocusWindowUpOrColumnLeft)
    } else if name == "focus_window_up_or_column_right"@ {
        Some(Action::FocusWindowUpOrColumnRight)
    } else if name == "focus_window_or_workspace_down"@ {
        Some(Action::FocusWindowOrWorkspaceDown)
    } else if name == "focus_window_or_workspace_up"@ {
        Some(Action::FocusWindowOrWorkspaceUp)
    } else if name == "focus_window_top"@ {
        Some(Action::FocusWindowTop)
    } else if name == "focus_window_bottom"@ {
        Some(Action::FocusWindowBottom)
    } else if name == "focus_window_down_or_top"@ {
        Some(Action::FocusWindowDownOrTop)
    } else if name == "focus_window_up_or_bottom"@ {
        Some(Action::FocusWindowUpOrBottom)
    } else if name == "move_column_left"@ {
        Some(Action::MoveColumnLeft)
    } else if name == "move_column_right"@ {
        Some(Action::MoveColumnRight)
    } else if name == "move_column_to_first"@ {
        Some(Action::MoveColumnToFirst)
    } else if name == "move_column_to_last"@ {
        Some(Action::MoveColumnToLast)
    } else if name == "move_column_left_or_to_monitor_left"@ {
        Some(Action::MoveColumnLeftOrToMonitorLeft)
    } else if name == "move_column_right_or_to_monitor_right"@ {
        Some(Action::MoveColumnRightOrToMonitorRight)
    } else if name == "move_window_down"@ {
        Some(Action::MoveWindowDown)
    } else if name == "move_window_up"@ {
        Some(Action::MoveWindowUp)
    } else if name == "move_window_down_or_to_workspace_down"@ {
        Some(Action::MoveWindowDownOrToWorkspaceDown)
    } else if name == "move_window_up_or_to_workspace_up"@ {
        Some(Action::MoveWindowUpOrToWorkspaceUp)
    } else if name == "consume_window_into_column"@ {
        Some(Action::ConsumeWindowIntoColumn)
    } else if name == "expel_window_from_column"@ {
        Some(Action::ExpelWindowFromColumn)
    } else if name == "swap_window_right"@ {
        Some(Action::SwapWindowRight)
    } else if name == "swap_window_left"@ {
        Some(Action::SwapWindowLeft)
    } else if name == "toggle_column_tabbed_display"@ {
        Some(Action::ToggleColumnTabbedDisplay)
    } else if name == "center_column"@ {
        Some(Action::CenterColumn)
    } else if name == "center_visible_columns"@ {
        Some(Action::CenterVisibleColumns)
    } else if name == "focus_workspace_down"@ {
        Some(Action::FocusWorkspaceDown)
    } else if name == "focus_workspace_up"@ {
        Some(Action::FocusWorkspaceUp)
    } else if name == "focus_workspace_previous"@ {
        Some(Action::FocusWorkspacePrevious)
    } else if name == "move_workspace_down"@ {
        Some(Action::MoveWorkspaceDown)
    } else if name == "move_workspace_up"@ {
        Some(Action::MoveWorkspaceUp)
    } else if name == "focus_monitor_left"@ {
        Some(Action::FocusMonitorLeft)
    } else if name == "focus_monitor_right"@ {
        Some(Action::FocusMonitorRight)
    } else if name == "focus_monitor_down"@ {
        Some(Action::FocusMonitorDown)
    } else if name == "focus_monitor_up"@ {
        Some(Action::FocusMonitorUp)
    } else if name == "focus_monitor_previous"@ {
        Some(Action::FocusMonitorPrevious)
    } else if name == "focus_monitor_next"@ {
        Some(Action::FocusMonitorNext)
    } else if name == "move_window_to_monitor_left"@ {
        Some(Action::MoveWindowToMonitorLeft)
    } else if name == "move_window_to_monitor_right"@ {
        Some(Action::MoveWindowToMonitorRight)
    } else if name == "move_window_to_monitor_down"@ {
        Some(Action::MoveWindowToMonitorDown)
    } else if name == "move_window_to_monitor_up"@ {
        Some(Action::MoveWindowToMonitorUp)
    } else if name == "move_window_to_monitor_previous"@ {
        Some(Action::MoveWindowToMonitorPrevious)
    } else if name == "move_window_to_monitor_next"@ {
        Some(Action::MoveWindowToMonitorNext)
    } else if name == "move_column_to_monitor_left"@ {
        Some(Action::MoveColumnToMonitorLeft)
    } else if name == "move_column_to_monitor_right"@ {
        Some(Action::MoveColumnToMonitorRight)
    } else if name == "move_column_to_monitor_down"@ {
        Some(Action::MoveColumnToMonitorDown)
    } else if name == "move_column_to_monitor_up"@ {
        Some(Action::MoveColumnToMonitorUp)
    } else if name == "move_column_to_monitor_previous"@ {
        Some(Action::MoveColumnToMonitorPrevious)
    } else if name == "move_column_to_monitor_next"@ {
        Some(Action::MoveColumnToMonitorNext)
    } else if name == "switch_preset_column_width"@ {
        Some(Action::SwitchPresetColumnWidth)
    } else if name == "switch_preset_column_width_back"@ {
        Some(Action::SwitchPresetColumnWidthBack)
    } else if name == "maximize_column"@ {
        Some(Action::MaximizeColumn)
    } else if name == "expand_column_to_available_width"@ {
        Some(Action::ExpandColumnToAvailableWidth)
    } else if name == "show_hotkey_overlay"@ {
        Some(Action::ShowHotkeyOverlay)
    } else if name == "move_workspace_to_monitor_left"@ {
        Some(Action::MoveWorkspaceToMonitorLeft)
    } else if name == "move_workspace_to_monitor_right"@ {
        Some(Action::MoveWorkspaceToMonitorRight)
    } else if name == "move_workspace_to_monitor_down"@ {
        Some(Action::MoveWorkspaceToMonitorDown)
    } else if name == "move_workspace_to_monitor_up"@ {
        Some(Action::MoveWorkspaceToMonitorUp)
    } else if name == "move_workspace_to_monitor_previous"@ {
        Some(Action::MoveWorkspaceToMonitorPrevious)
    } else if name == "move_workspace_to_monitor_next"@ {
        Some(Action::MoveWorkspaceToMonitorNext)
    } else if name == "toggle_debug_tint"@ {
        Some(Action::ToggleDebugTint)
    } else if name == "debug_toggle_opaque_regions"@ {
        Some(Action::DebugToggleOpaqueRegions)
    } else if name == "debug_toggle_damage"@ {
        Some(Action::DebugToggleDamage)
    } else if name == "focus_floating"@ {
        Some(Action::FocusFloating)
    } else if name == "focus_tiling"@ {
        Some(Action::FocusTiling)
    } else if name == "switch_focus_between_floating_and_tiling"@ {
        Some(Action::SwitchFocusBetweenFloatingAndTiling)
    } else if name == "clear_dynamic_cast_target"@ {
        Some(Action::ClearDynamicCastTarget)
    } else if name == "toggle_overview"@ {
        Some(Action::ToggleOverview)
    } else if name == "open_overview"@ {
        Some(Action::OpenOverview)
    } else if name == "close_overview"@ {
        Some(Action::CloseOverview)
    } else {
        None
    }
}

/// The action of a method without arguments.
fn plain_of<F>(name: &[char]) -> (r: Option<Action<F>>)
    ensures
        r == proxy_plain_action::<F>(name@),
{
    if eq_lit(name, "power_off_monitors") {
        Some(Action::PowerOffMonitors)
    } else if eq_lit(name, "power_on_monitors") {
        Some(Action::PowerOnMonitors)
    } else if eq_lit(name, "load_config_file") {
        Some(Action::LoadConfigFile)
    } else if eq_lit(name, "focus_window_previous") {
        Some(Action::FocusWindowPrevious)
    } else if eq_lit(name, "toggle_keyboard_shortcuts_inhibit") {
        Some(Action::ToggleKeyboardShortcutsInhibit)
    } else if eq_lit(name, "focus_column_left") {
        Some(Action::FocusColumnLeft)
    } else if eq_lit(name, "focus_column_right") {
        Some(Action::FocusColumnRight)
    } else if eq_lit(name, "focus_column_first") {
        Some(Action::FocusColumnFirst)
    } else if eq_lit(name, "focus_column_last") {
        Some(Action::FocusColumnLast)
    } else if eq_lit(name, "focus_column_right_or_first") {
        Some(Action::FocusColumnRightOrFirst)
    } else if eq_lit(name, "focus_column_left_or_last") {
        Some(Action::FocusColumnLeftOrLast)
    } else if eq_lit(name, "focus_window_down") {
        Some(Action::FocusWindowDown)
    } else if eq_lit(name, "focus_window_up") {
        Some(Action::FocusWindowUp)
    } else if eq_lit(name, "focus_window_or_monitor_up") {
        Some(Action::FocusWindowOrMonitorUp)
    } else if eq_lit(name, "focus_window_or_monitor_down") {
        Some(Action::FocusWindowOrMonitorDown)
    } else if eq_lit(name, "focus_column_or_monitor_left") {
        Some(Action::FocusColumnOrMonitorLeft)
    } else if eq_lit(name, "focus_column_or_monitor_right") {
        Some(Action::FocusColumnOrMonitorRight)
    } else if eq_lit(name, "focus_window_down_or_column_left") {
        Some(Action::FocusWindowDownOrColumnLeft)
    } else if eq_lit(name, "focus_window_down_or_column_right") {
        Some(Action::FocusWindowDownOrColumnRight)
    } else if eq_lit(name, "focus_window_up_or_column_left") {
        Some(Action::FocusWindowUpOrColumnLeft)
    } else if eq_lit(name, "focus_window_up_or_column_right") {
        Some(Action::FocusWindowUpOrColumnRight)
    } else if eq_lit(name, "focus_window_or_workspace_down") {
        Some(Action::FocusWindowOrWorkspaceDown)
    } else if eq_lit(name, "focus_window_or_workspace_up") {
        Some(Action::FocusWindowOrWorkspaceUp)
    } else if eq_lit(name, "focus_window_top") {
        Some(Action::FocusWindowTop)
    } else if eq_lit(name, "focus_window_bottom") {
        Some(Action::FocusWindowBottom)
    } else if eq_lit(name, "focus_window_down_or_top") {
        Some(Action::FocusWindowDownOrTop)
    } else if eq_lit(name, "focus_window_up_or_bottom") {
        Some(Action::FocusWindowUpOrBottom)
    } else if eq_lit(name, "move_column_left") {
        Some(Action::MoveColumnLeft)
    } else if eq_lit(name, "move_column_right") {
        Some(Action::MoveColumnRight)
    } else if eq_lit(name, "move_column_to_first") {
        Some(Action::MoveColumnToFirst)
    } else if eq_lit(name, "move_column_to_last") {
        Some(Action::MoveColumnToLast)
    } else if eq_lit(name, "move_column_left_or_to_monitor_left") {
        Some(Action::MoveColumnLeftOrToMonitorLeft)
    } else if eq_lit(name, "move_column_right_or_to_monitor_right") {
        Some(Action::MoveColumnRightOrToMonitorRight)
    } else if eq_lit(name, "move_window_down") {
        Some(Action::MoveWindowDown)
    } else if eq_lit(name, "move_window_up") {
        Some(Action::MoveWindowUp)
    } else if eq_lit(name, "move_window_down_or_to_workspace_down") {
        Some(Action::MoveWindowDownOrToWorkspaceDown)
    } else if eq_lit(name, "move_window_up_or_to_workspace_up") {
        Some(Action::MoveWindowUpOrToWorkspaceUp)
    } else if eq_lit(name, "consume_window_into_column") {
        Some(Action::ConsumeWindowIntoColumn)
    } else if eq_lit(name, "expel_window_from_column") {
        Some(Action::ExpelWindowFromColumn)
    } else if eq_lit(name, "swap_window_right") {
        Some(Action::SwapWindowRight)
    } else if eq_lit(name, "swap_window_left") {
        Some(Action::SwapWindowLeft)
    } else if eq_lit(name, "toggle_column_tabbed_display") {
        Some(Action::ToggleColumnTabbedDisplay)
    } else if eq_lit(name, "center_column") {
        Some(Action::CenterColumn)
    } else if eq_lit(name, "center_visible_columns") {
        Some(Action::CenterVisibleColumns)
    } else if eq_lit(name, "focus_workspace_down") {
        Some(Action::FocusWorkspaceDown)
    } else if eq_lit(name, "focus_workspace_up") {
        Some(Action::FocusWorkspaceUp)
    } else if eq_lit(name, "focus_workspace_previous") {
        Some(Action::FocusWorkspacePrevious)
    } else if eq_lit(name, "move_workspace_down") {
        Some(Action::MoveWorkspaceDown)
    } else if eq_lit(name, "move_workspace_up") {
        Some(Action::MoveWorkspaceUp)
    } else if eq_lit(name, "focus_monitor_left") {
        Some(Action::FocusMonitorLeft)
    } else if eq_lit(name, "focus_monitor_right") {
        Some(Action::FocusMonitorRight)
    } else if eq_lit(name, "focus_monitor_down") {
        Some(Action::FocusMonitorDown)
    } else if eq_lit(name, "focus_monitor_up") {
        Some(Action::FocusMonitorUp)
    } else if eq_lit(name, "focus_monitor_previous") {
        Some(Action::FocusMonitorPrevious)
    } else if eq_lit(name, "focus_monitor_next") {
        Some(Action::FocusMonitorNext)
    } else if eq_lit(name, "move_window_to_monitor_left") {
        Some(Action::MoveWindowToMonitorLeft)
    } else if eq_lit(name, "move_window_to_monitor_right") {
        Some(Action::MoveWindowToMonitorRight)
    } else if eq_lit(name, "move_window_to_monitor_down") {
        Some(Action::MoveWindowToMonitorDown)
    } else if eq_lit(name, "move_window_to_monitor_up") {
        Some(Action::MoveWindowToMonitorUp)
    } else if eq_lit(name, "move_window_to_monitor_previous") {
        Some(Action::MoveWindowToMonitorPrevious)
    } else if eq_lit(name, "move_window_to_monitor_next") {
        Some(Action::MoveWindowToMonitorNext)
    } else if eq_lit(name, "move_column_to_monitor_left") {
        Some(Action::MoveColumnToMonitorLeft)
    } else if eq_lit(name, "move_column_to_monitor_right") {
        Some(Action::MoveColumnToMonitorRight)
    } else if eq_lit(name, "move_column_to_monitor_down") {
        Some(Action::MoveColumnToMonitorDown)
    } else if eq_lit(name, "move_column_to_monitor_up") {
        Some(Action::MoveColumnToMonitorUp)
    } else if eq_lit(name, "move_column_to_monitor_previous") {
        Some(Action::MoveColumnToMonitorPrevious)
    } else if eq_lit(name, "move_column_to_monitor_next") {
        Some(Action::MoveColumnToMonitorNext)
    } else if eq_lit(name, "switch_preset_column_width") {
        Some(Action::SwitchPresetColumnWidth)
    } else if eq_lit(name, "switch_preset_column_width_back") {
        Some(Action::SwitchPresetColumnWidthBack)
    } else if eq_lit(name, "maximize_column") {
        Some(Action::MaximizeColumn)
    } else if eq_lit(name, "expand_column_to_available_width") {
        Some(Action::ExpandColumnToAvailableWidth)
    } else if eq_lit(name, "show_hotkey_overlay") {
        Some(Action::ShowHotkeyOverlay)
    } else if eq_lit(name, "move_workspace_to_monitor_left") {
        Some(Action::MoveWorkspaceToMonitorLeft)
    } else if eq_lit(name, "move_workspace_to_monitor_right") {
        Some(Action::MoveWorkspaceToMonitorRight)
    } else if eq_lit(name, "move_workspace_to_monitor_down") {
        Some(Action::MoveWorkspaceToMonitorDown)
    } else if eq_lit(name, "move_workspace_to_monitor_up") {
        Some(Action::MoveWorkspaceToMonitorUp)
    } else if eq_lit(name, "move_workspace_to_monitor_previous") {
        Some(Action::MoveWorkspaceToMonitorPrevious)
    } else if eq_lit(name, "move_workspace_to_monitor_next") {
        Some(Action::MoveWorkspaceToMonitorNext)
    } else if eq_lit(name, "toggle_debug_tint") {
        Some(Action::ToggleDebugTint)
    } else if eq_lit(name, "debug_toggle_opaque_regions") {
        Some(Action::DebugToggleOpaqueRegions)
    } else if eq_lit(name, "debug_toggle_damage") {
        Some(Action::DebugToggleDamage)
    } else if eq_lit(name, "focus_floating") {
        Some(Action::FocusFloating)
    } else if eq_lit(name, "focus_tiling") {
        Some(Action::FocusTiling)
    } else if eq_lit(name, "switch_focus_between_floating_and_tiling") {
        Some(Action::SwitchFocusBetweenFloatingAndTiling)
    } else if eq_lit(name, "clear_dynamic_cast_target") {
        Some(Action::ClearDynamicCastTarget)
    } else if eq_lit(name, "toggle_overview") {
        Some(Action::ToggleOverview)
    } else if eq_lit(name, "open_overview") {
        Some(Action::OpenOverview)
    } else if eq_lit(name, "close_overview") {
        Some(Action::CloseOverview)
    } else {
        None
    }
}

/// The methods that take an optional window id: without one the action
/// applies to the focused window.
pub open spec fn id_method_action<F>(name: Seq<char>, id: Option<u64>) -> Option<Action<F>> {
    if name == "close_window"@ {
        Some(match id { Some(i) => Action::CloseWindowById(i), None => Action::CloseWindow })
    } else if name == "fullscreen_window"@ {
        Some(match id { Some(i) => Action::FullscreenWindowById(i), None => Action::FullscreenWindow })
    } else if name == "toggle_windowed_fullscreen"@ {
        Some(match id { Some(i) => Action::ToggleWindowedFullscreenById(i), None => Action::ToggleWindowedFullscreen })
    } else if name == "consume_or_expel_window_left"@ {
        Some(match id { Some(i) => Action::ConsumeOrExpelWindowLeftById(i), None => Action::ConsumeOrExpelWindowLeft })
    } else if name == "consume_or_expel_window_right"@ {
        Some(match id { Some(i) => Action::ConsumeOrExpelWindowRightById(i), None => Action::ConsumeOrExpelWindowRight })
    } else if name == "center_window"@ {
        Some(match id { Some(i) => Action::CenterWindowById(i), None => Action::CenterWindow })
    } else if name == "reset_window_height"@ {
        Some(match id { Some(i) => Action::ResetWindowHeightById(i), None => Action::ResetWindowHeight })
    } else if name == "switch_preset_window_width"@ {
        Some(match id { Some(i) => Action::SwitchPresetWindowWidthById(i), None => Action::SwitchPresetWindowWidth })
    } else if name == "switch_preset_window_width_back"@ {
        Some(match id { Some(i) => Action::SwitchPresetWindowWidthBackById(i), None => Action::SwitchPresetWindowWidthBack })
    } else if name == "switch_preset_window_height"@ {
        Some(match id { Some(i) => Action::SwitchPresetWindowHeightById(i), None => Action::SwitchPresetWindowHeight })
    } else if name == "switch_preset_window_height_back"@ {
        Some(match id { Some(i) => Action::SwitchPresetWindowHeightBackById(i), None => Action::SwitchPresetWindowHeightBack })
    } else if name == "maximize_window_to_edges"@ {
        Some(match id { Some(i) => Action::MaximizeWindowToEdgesById(i), None => Action::MaximizeWindowToEdges })
    } else if name == "toggle_window_floating"@ {
        Some(match id { Some(i) => Action::ToggleWindowFloatingById(i), None => Action::ToggleWindowFloating })
    } else if name == "move_window_to_floating"@ {
        Some(match id { Some(i) => Action::MoveWindowToFloatingById(i), None => Action::MoveWindowToFloating })
    } else if name == "move_window_to_tiling"@ {
        Some(match id { Some(i) => Action::MoveWindowToTilingById(i), None => Action::MoveWindowToTiling })
    } else if name == "toggle_window_rule_opacity"@ {
        Some(match id { Some(i) => Action::ToggleWindowRuleOpacityById(i), None => Action::ToggleWindowRuleOpacity })
    } else if name == "set_dynamic_cast_window"@ {
        Some(match id { Some(i) => Action::SetDynamicCastWindowById(i), None => Action::SetDynamicCastWindow })
    } else {
        None
    }
}

/// The action of a method that takes an optional window id.
fn id_method_of<F>(name: &[char], id: Option<u64>) -> (r: Option<Action<F>>)
    ensures
        r == id_method_action::<F>(name@, id),
{
    if eq_lit(name, "close_window") {
        Some(match id { Some(i) => Action::CloseWindowById(i), None => Action::CloseWindow })
    } else if eq_lit(name, "fullscreen_window") {
        Some(match id { Some(i) => Action::FullscreenWindowById(i), None => Action::FullscreenWindow })
    } else if eq_lit(name, "toggle_windowed_fullscreen") {
        Some(match id { Some(i) => Action::ToggleWindowedFullscreenById(i), None => Action::ToggleWindowedFullscreen })
    } else if eq_lit(name, "consume_or_expel_window_left") {
        Some(match id { Some(i) => Action::ConsumeOrExpelWindowLeftById(i), None => Action::ConsumeOrExpelWindowLeft })
    } else if eq_lit(name, "consume_or_expel_window_right") {
        Some(match id { Some(i) => Action::ConsumeOrExpelWindowRightById(i), None => Action::ConsumeOrExpelWindowRight })
    } else if eq_lit(name, "center_window") {
        Some(match id { Some(i) => Action::CenterWindowById(i), None => Action::CenterWindow })
    } else if eq_lit(name, "reset_window_height") {
        Some(match id { Some(i) => Action::ResetWindowHeightById(i), None => Action::ResetWindowHeight })
    } else if eq_lit(name, "switch_preset_window_width") {
        Some(match id { Some(i) => Action::SwitchPresetWindowWidthById(i), None => Action::SwitchPresetWindowWidth })
    } else if eq_lit(name, "switch_preset_window_width_back") {
        Some(match id { Some(i) => Action::SwitchPresetWindowWidthBackById(i), None => Action::SwitchPresetWindowWidthBack })
    } else if eq_lit(name, "switch_preset_window_height") {
        Some(match id { Some(i) => Action::SwitchPresetWindowHeightById(i), None => Action::SwitchPresetWindowHeight })
    } else if eq_lit(name, "switch_preset_window_height_back") {
        Some(match id { Some(i) => Action::SwitchPresetWindowHeightBackById(i), None => Action::SwitchPresetWindowHeightBack })
    } else if eq_lit(name, "maximize_window_to_edges") {
        Some(match id { Some(i) => Action::MaximizeWindowToEdgesById(i), None => Action::MaximizeWindowToEdges })
    } else if eq_lit(name, "toggle_window_floating") {
        Some(match id { Some(i) => Action::ToggleWindowFloatingById(i), None => Action::ToggleWindowFloating })
    } else if eq_lit(name, "move_window_to_floating") {
        Some(match id { Some(i) => Action::MoveWindowToFloatingById(i), None => Action::MoveWindowToFloating })
    } else if eq_lit(name, "move_window_to_tiling") {
        Some(match id { Some(i) => Action::MoveWindowToTilingById(i), None => Action::MoveWindowToTiling })
    } else if eq_lit(name, "toggle_window_rule_opacity") {
        Some(match id { Some(i) => Action::ToggleWindowRuleOpacityById(i), None => Action::ToggleWindowRuleOpacity })
    } else if eq_lit(name, "set_dynamic_cast_window") {
        Some(match id { Some(i) => Action::SetDynamicCastWindowById(i), None => Action::SetDynamicCastWindow })
    } else {
        None
    }
}

/// The methods that move to a neighbouring workspace, taking whether to
/// follow the move with the focus.
pub open spec fn focus_flag_action<F>(name: Seq<char>, focus: bool) -> Option<Action<F>> {
    if name == "move_window_to_workspace_down"@ {
        Some(Action::MoveWindowToWorkspaceDown(focus))
    } else if name == "move_window_to_workspace_up"@ {
        Some(Action::MoveWindowToWorkspaceUp(focus))
    } else if name == "move_column_to_workspace_down"@ {
        Some(Action::MoveColumnToWorkspaceDown(focus))
    } else if name == "move_column_to_workspace_up"@ {
        Some(Action::MoveColumnToWorkspaceUp(focus))
    } else {
        None
    }
}

/// The action of a method that takes a focus flag.
fn focus_flag_of<F>(name: &[char], focus: bool) -> (r: Option<Action<F>>)
    ensures
        r == focus_flag_action::<F>(name@, focus),
{
    if eq_lit(name, "move_window_to_workspace_down") {
        Some(Action::MoveWindowToWorkspaceDown(focus))
    } else if eq_lit(name, "move_window_to_workspace_up") {
        Some(Action::MoveWindowToWorkspaceUp(focus))
    } else if eq_lit(name, "move_column_to_workspace_down") {
        Some(Action::MoveColumnToWorkspaceDown(focus))
    } else if eq_lit(name, "move_column_to_workspace_up") {
        Some(Action::MoveColumnToWorkspaceUp(focus))
    } else {
        None
    }
}

/// The methods that need a window id.
pub open spec fn window_id_action<F>(name: Seq<char>, id: u64) -> Option<Action<F>> {
    if name == "focus_window"@ {
        Some(Action::FocusWindow(id))
    } else if name == "toggle_window_urgent"@ {
        Some(Action::ToggleWindowUrgent(id))
    } else if name == "set_window_urgent"@ {
        Some(Action::SetWindowUrgent(id))
    } else if name == "unset_window_urgent"@ {
        Some(Action::UnsetWindowUrgent(id))
    } else {
        None
    }
}

/// The action of a method that needs a window id.
fn window_id_of<F>(name: &[char], id: u64) -> (r: Option<Action<F>>)
    ensures
        r == window_id_action::<F>(name@, id),
{
    if eq_lit(name, "focus_window") {
        Some(Action::FocusWindow(id))
    } else if eq_lit(name, "toggle_window_urgent") {
        Some(Action::ToggleWindowUrgent(id))
    } else if eq_lit(name, "set_window_urgent") {
        Some(Action::SetWindowUrgent(id))
    } else if eq_lit(name, "unset_window_urgent") {
        Some(Action::UnsetWindowUrgent(id))
    } else {
        None
    }
}

/// The methods that take one text: a command line or an output name.
pub open spec fn text_method_action<F>(name: Seq<char>, s: String) -> Option<Action<F>> {
    if name == "spawn_sh"@ {
        Some(Action::SpawnSh(s))
    } else if name == "focus_monitor"@ {
        Some(Action::FocusMonitor(s))
    } else if name == "move_column_to_monitor"@ {
        Some(Action::MoveColumnToMonitor(s))
    } else {
        None
    }
}

/// The action of a method that takes one text.
fn text_method_of<F>(name: &[char], s: String) -> (r: Option<Action<F>>)
    ensures
        r == text_method_action::<F>(name@, s),
{
    if eq_lit(name, "spawn_sh") {
        Some(Action::SpawnSh(s))
    } else if eq_lit(name, "focus_monitor") {
        Some(Action::FocusMonitor(s))
    } else if eq_lit(name, "move_column_to_monitor") {
        Some(Action::MoveColumnToMonitor(s))
    } else {
        None
    }
}

/// The methods that take a column index.
pub open spec fn column_index_action<F>(name: Seq<char>, i: usize) -> Option<Action<F>> {
    if name == "focus_column"@ {
        Some(Action::FocusColumn(i))
    } else if name == "move_column_to_index"@ {
        Some(Action::MoveColumnToIndex(i))
    } else {
        None
    }
}

/// The action of a method that takes a column index.
fn column_index_of<F>(name: &[char], i: usize) -> (r: Option<Action<F>>)
    ensures
        r == column_index_action::<F>(name@, i),
{
    if eq_lit(name, "focus_column") {
        Some(Action::FocusColumn(i))
    } else if eq_lit(name, "move_column_to_index") {
        Some(Action::MoveColumnToIndex(i))
    } else {
        None
    }
}

/// The kind of an argument, as a method's signature lists it.
#[derive(PartialEq, Eq, Structural, Clone, Copy, Debug)]
pub enum ArgKind {
    /// An optional flag.
    Flag,
    /// An optional window id.
    OptionalId,
    /// A window id.
    Id,
    /// A byte-sized index.
    Byte,
    /// A column or workspace index.
    Index,
    /// An optional delay in milliseconds.
    Delay,
    Text,
    OptionalText,
    /// An array of texts.
    Texts,
    /// A value that the method reads by its own rules.
    Value,
    OptionalValue,
}

/// An argument of a method call, converted to the kind that the method's
/// signature lists.
pub enum ProxyArg<F, E> {
    Flag(Option<bool>),
    OptionalId(Option<u64>),
    Id(u64),
    Byte(u8),
    Index(usize),
    Delay(Option<u16>),
    Text(String),
    OptionalText(Option<String>),
    Texts(Vec<String>),
    Value(ProxyValue<F, E>),
    OptionalValue(Option<ProxyValue<F, E>>),
}

/// The kind of an argument.
pub open spec fn arg_kind<F, E>(a: ProxyArg<F, E>) -> ArgKind {
    match a {
        ProxyArg::Flag(_) => ArgKind::Flag,
        ProxyArg::OptionalId(_) => ArgKind::OptionalId,
        ProxyArg::Id(_) => ArgKind::Id,
        ProxyArg::Byte(_) => ArgKind::Byte,
        ProxyArg::Index(_) => ArgKind::Index,
        ProxyArg::Delay(_) => ArgKind::Delay,
        ProxyArg::Text(_) => ArgKind::Text,
        ProxyArg::OptionalText(_) => ArgKind::OptionalText,
        ProxyArg::Texts(_) => ArgKind::Texts,
        ProxyArg::Value(_) => ArgKind::Value,
        ProxyArg::OptionalValue(_) => ArgKind::OptionalValue,
    }
}

/// The arguments have, one by one, the kinds of the signature.
pub open spec fn conforms<F, E>(args: Seq<ProxyArg<F, E>>, sig: Seq<ArgKind>) -> bool {
    &&& args.len() == sig.len()
    &&& forall|i: int| 0 <= i < sig.len() ==> arg_kind(#[trigger] args[i]) == sig[i]
}

/// The kinds of the arguments that a method takes, in order; `None` for a
/// name that is no method of the proxy.
pub open spec fn method_signature(name: Seq<char>) -> Option<Seq<ArgKind>> {
    if is_plain_method(name) {
        Some(Seq::empty())
    } else if is_id_method(name) {
        Some(seq![ArgKind::OptionalId])
    } else if is_focus_flag_method(name) {
        Some(seq![ArgKind::Flag])
    } else if is_window_id_method(name) {
        Some(seq![ArgKind::Id])
    } else if is_text_method(name) {
        Some(seq![ArgKind::Text])
    } else if is_column_index_method(name) {
        Some(seq![ArgKind::Index])
    } else if name == "quit"@ {
        Some(seq![ArgKind::Flag])
    } else if name == "spawn"@ {
        Some(seq![ArgKind::Texts])
    } else if name == "do_screen_transition"@ {
        Some(seq![ArgKind::Delay])
    } else if name == "screenshot"@ {
        Some(seq![ArgKind::Flag, ArgKind::OptionalText])
    } else if name == "screenshot_screen"@ {
        Some(seq![ArgKind::Flag, ArgKind::Flag, ArgKind::OptionalText])
    } else if name == "screenshot_window"@ {
        Some(seq![ArgKind::OptionalId, ArgKind::Flag, ArgKind::OptionalText])
    } else if name == "focus_window_in_column"@ {
        Some(seq![ArgKind::Byte])
    } else if name == "set_column_display"@ {
        Some(seq![ArgKind::Text])
    } else if name == "focus_workspace"@ {
        Some(seq![ArgKind::Value])
    } else if name == "move_window_to_workspace"@ {
        Some(seq![ArgKind::Value, ArgKind::OptionalId, ArgKind::Flag])
    } else if name == "move_column_to_workspace"@ {
        Some(seq![ArgKind::Value, ArgKind::Flag])
    } else if name == "move_workspace_to_index"@ {
        Some(seq![ArgKind::Index, ArgKind::OptionalValue])
    } else if name == "set_workspace_name"@ {
        Some(seq![ArgKind::Text, ArgKind::OptionalValue])
    } else if name == "unset_workspace_name"@ {
        Some(seq![ArgKind::OptionalValue])
    } else if name == "move_window_to_monitor"@ {
        Some(seq![ArgKind::Text, ArgKind::OptionalId])
    } else if name == "set_window_width"@ {
        Some(seq![ArgKind::Value, ArgKind::OptionalId])
    } else if name == "set_window_height"@ {
        Some(seq![ArgKind::Value, ArgKind::OptionalId])
    } else if name == "set_column_width"@ {
        Some(seq![ArgKind::Value])
    } else if name == "switch_layout"@ {
        Some(seq![ArgKind::Value])
    } else if name == "move_workspace_to_monitor"@ {
        Some(seq![ArgKind::Text, ArgKind::OptionalValue])
    } else if name == "move_floating_window"@ {
        Some(seq![ArgKind::Value, ArgKind::Value, ArgKind::OptionalId])
    } else if name == "set_dynamic_cast_monitor"@ {
        Some(seq![ArgKind::OptionalText])
    } else {
        None
    }
}

fn kinds1(a: ArgKind) -> (r: Option<Vec<ArgKind>>)
    ensures
        r matches Some(v) && v@ == seq![a],
{
    let mut v: Vec<ArgKind> = Vec::new();
    v.push(a);
    Some(v)
}

fn kinds2(a: ArgKind, b: ArgKind) -> (r: Option<Vec<ArgKind>>)
    ensures
        r matches Some(v) && v@ == seq![a, b],
{
    let mut v: Vec<ArgKind> = Vec::new();
    v.push(a);
    v.push(b);
    Some(v)
}

fn kinds3(a: ArgKind, b: ArgKind, c: ArgKind) -> (r: Option<Vec<ArgKind>>)
    ensures
        r matches Some(v) && v@ == seq![a, b, c],
{
    let mut v: Vec<ArgKind> = Vec::new();
    v.push(a);
    v.push(b);
    v.push(c);
    Some(v)
}

/// The kinds of the arguments that a method takes, in order; `None` for a
/// name that is no method of the proxy.
pub fn signature_of(name: &str) -> (r: Option<Vec<ArgKind>>)
    ensures
        match r {
            Some(v) => method_signature(name@) == Some(v@),
            None => method_signature(name@) is None,
        },
{
    let n = chars_of(name);
    if plain_method_name(&n) {
        Some(Vec::new())
    } else if id_method_name(&n) {
        kinds1(ArgKind::OptionalId)
    } else if focus_flag_name(&n) {
        kinds1(ArgKind::Flag)
    } else if window_id_name(&n) {
        kinds1(ArgKind::Id)
    } else if text_method_name(&n) {
        kinds1(ArgKind::Text)
    } else if column_index_name(&n) {
        kinds1(ArgKind::Index)
    } else if eq_lit(&n, "quit") {
        kinds1(ArgKind::Flag)
    } else if eq_lit(&n, "spawn") {
        kinds1(ArgKind::Texts)
    } else if eq_lit(&n, "do_screen_transition") {
        kinds1(ArgKind::Delay)
    } else if eq_lit(&n, "screenshot") {
        kinds2(ArgKind::Flag, ArgKind::OptionalText)
    } else if eq_lit(&n, "screenshot_screen") {
        kinds3(ArgKind::Flag, ArgKind::Flag, ArgKind::OptionalText)
    } else if eq_lit(&n, "screenshot_window") {
        kinds3(ArgKind::OptionalId, ArgKind::Flag, ArgKind::OptionalText)
    } else if eq_lit(&n, "focus_window_in_column") {
        kinds1(ArgKind::Byte)
    } else if eq_lit(&n, "set_column_display") {
        kinds1(ArgKind::Text)
    } else if eq_lit(&n, "focus_workspace") {
        kinds1(ArgKind::Value)
    } else if eq_lit(&n, "move_window_to_workspace") {
        kinds3(ArgKind::Value, ArgKind::OptionalId, ArgKind::Flag)
    } else if eq_lit(&n, "move_column_to_workspace") {
        kinds2(ArgKind::Value, ArgKind::Flag)
    } else if eq_lit(&n, "move_workspace_to_index") {
        kinds2(ArgKind::Index, ArgKind::OptionalValue)
    } else if eq_lit(&n, "set_workspace_name") {
        kinds2(ArgKind::Text, ArgKind::OptionalValue)
    } else if eq_lit(&n, "unset_workspace_name") {
        kinds1(ArgKind::OptionalValue)
    } else if eq_lit(&n, "move_window_to_monitor") {
        kinds2(ArgKind::Text, ArgKind::OptionalId)
    } else if eq_lit(&n, "set_window_width") {
        kinds2(ArgKind::Value, ArgKind::OptionalId)
    } else if eq_lit(&n, "set_window_height") {
        kinds2(ArgKind::Value, ArgKind::OptionalId)
    } else if eq_lit(&n, "set_column_width") {
        kinds1(ArgKind::Value)
    } else if eq_lit(&n, "switch_layout") {
        kinds1(ArgKind::Value)
    } else if eq_lit(&n, "move_workspace_to_monitor") {
        kinds2(ArgKind::Text, ArgKind::OptionalValue)
    } else if eq_lit(&n, "move_floating_window") {
        kinds3(ArgKind::Value, ArgKind::Value, ArgKind::OptionalId)
    } else if eq_lit(&n, "set_dynamic_cast_monitor") {
        kinds1(ArgKind::OptionalText)
    } else {
        None
    }
}

/// A position value that reads as a position change.
pub open spec fn position_reads<F, E>(v: ProxyValue<F, E>) -> bool {
    match v {
        ProxyValue::Integer(_) | ProxyValue::Number(_, _) => true,
        ProxyValue::Text(s) => position_change_text(s@) is Ok,
        _ => false,
    }
}

/// The call was refused for the kinds of its arguments.
pub open spec fn refused<F, E>(r: Result<Action<F>, ProxyError<E>>) -> bool {
    r == Err::<Action<F>, _>(ProxyError::<E>::ArgumentKinds)
}

/// The only argument.
pub open spec fn one_arg<F, E>(args: Seq<ProxyArg<F, E>>) -> Option<ProxyArg<F, E>> {
    if args.len() == 1 { Some(args[0]) } else { None }
}

/// The two arguments.
pub open spec fn two_args<F, E>(args: Seq<ProxyArg<F, E>>) -> Option<(ProxyArg<F, E>, ProxyArg<F, E>)> {
    if args.len() == 2 { Some((args[0], args[1])) } else { None }
}

/// The three arguments.
pub open spec fn three_args<F, E>(args: Seq<ProxyArg<F, E>>) -> Option<(ProxyArg<F, E>, ProxyArg<F, E>, ProxyArg<F, E>)> {
    if args.len() == 3 { Some((args[0], args[1], args[2])) } else { None }
}

/// `r` is the action made from the reference that `x` gives, or the error
/// that `x` gives.
pub open spec fn with_reference<F, E>(x: Result<WorkspaceReferenceArg, ProxyError<E>>, r: Result<Action<F>, ProxyError<E>>, a: spec_fn(WorkspaceReferenceArg) -> Action<F>) -> bool {
    match x {
        Ok(w) => r == Ok::<_, ProxyError<E>>(a(w)),
        Err(e) => r == Err::<Action<F>, _>(e),
    }
}

/// What a call of one of the methods with their own argument lists gives.
pub open spec fn single_outcome<F, E>(name: Seq<char>, args: Seq<ProxyArg<F, E>>, r: Result<Action<F>, ProxyError<E>>) -> bool {
    if name == "quit"@ {
        match one_arg(args) {
            Some(ProxyArg::Flag(b)) => r == Ok::<_, ProxyError<E>>(Action::<F>::Quit(flag_or(b, false))),
            _ => refused(r),
        }
    } else if name == "spawn"@ {
        match one_arg(args) {
            Some(ProxyArg::Texts(v)) => r == Ok::<_, ProxyError<E>>(Action::<F>::Spawn(v)),
            _ => refused(r),
        }
    } else if name == "do_screen_transition"@ {
        match one_arg(args) {
            Some(ProxyArg::Delay(d)) => r == Ok::<_, ProxyError<E>>(Action::<F>::DoScreenTransition(d)),
            _ => refused(r),
        }
    } else if name == "screenshot"@ {
        match two_args(args) {
            Some((ProxyArg::Flag(p), ProxyArg::OptionalText(path))) => r == Ok::<_, ProxyError<E>>(Action::<F>::Screenshot(flag_or(p, true), path)),
            _ => refused(r),
        }
    } else if name == "screenshot_screen"@ {
        match three_args(args) {
            Some((ProxyArg::Flag(w), ProxyArg::Flag(p), ProxyArg::OptionalText(path))) =>
                r == Ok::<_, ProxyError<E>>(Action::<F>::ScreenshotScreen(flag_or(w, true), flag_or(p, true), path)),
            _ => refused(r),
        }
    } else if name == "screenshot_window"@ {
        match three_args(args) {
            Some((ProxyArg::OptionalId(id), ProxyArg::Flag(w), ProxyArg::OptionalText(path))) => r == Ok::<_, ProxyError<E>>(match id {
                Some(i) => Action::<F>::ScreenshotWindowById { id: i, write_to_disk: flag_or(w, true), path },
                None => Action::<F>::ScreenshotWindow(flag_or(w, true), path),
            }),
            _ => refused(r),
        }
    } else if name == "focus_window_in_column"@ {
        match one_arg(args) {
            Some(ProxyArg::Byte(i)) => r == Ok::<_, ProxyError<E>>(Action::<F>::FocusWindowInColumn(i)),
            _ => refused(r),
        }
    } else if name == "set_column_display"@ {
        match one_arg(args) {
            Some(ProxyArg::Text(s)) => match proxy_column_display::<E>(s) {
                Ok(d) => r == Ok::<_, ProxyError<E>>(Action::<F>::SetColumnDisplay(d)),
                Err(e) => r == Err::<Action<F>, _>(e),
            },
            _ => refused(r),
        }
    } else if name == "focus_workspace"@ {
        match one_arg(args) {
            Some(ProxyArg::Value(v)) => with_reference(proxy_reference(v), r, |w: WorkspaceReferenceArg| Action::<F>::FocusWorkspace(w)),
            _ => refused(r),
        }
    } else if name == "move_window_to_workspace"@ {
        match three_args(args) {
            Some((ProxyArg::Value(v), ProxyArg::OptionalId(id), ProxyArg::Flag(f))) => with_reference(proxy_reference(v), r, |w: WorkspaceReferenceArg| match id {
                Some(i) => Action::<F>::MoveWindowToWorkspaceById { window_id: i, reference: w, focus: flag_or(f, true) },
                None => Action::<F>::MoveWindowToWorkspace(w, flag_or(f, true)),
            }),
            _ => refused(r),
        }
    } else if name == "move_column_to_workspace"@ {
        match two_args(args) {
            Some((ProxyArg::Value(v), ProxyArg::Flag(f))) => with_reference(proxy_reference(v), r, |w: WorkspaceReferenceArg| Action::<F>::MoveColumnToWorkspace(w, flag_or(f, true))),
            _ => refused(r),
        }
    } else if name == "move_workspace_to_index"@ {
        match two_args(args) {
            Some((ProxyArg::Index(i), ProxyArg::OptionalValue(o))) => match proxy_optional_reference(o) {
                Ok(Some(w)) => r == Ok::<_, ProxyError<E>>(Action::<F>::MoveWorkspaceToIndexByRef { new_idx: i, reference: w }),
                Ok(None) => r == Ok::<_, ProxyError<E>>(Action::<F>::MoveWorkspaceToIndex(i)),
                Err(e) => r == Err::<Action<F>, _>(e),
            },
            _ => refused(r),
        }
    } else if name == "set_workspace_name"@ {
        match two_args(args) {
            Some((ProxyArg::Text(s), ProxyArg::OptionalValue(o))) => match proxy_optional_reference(o) {
                Ok(Some(w)) => r == Ok::<_, ProxyError<E>>(Action::<F>::SetWorkspaceNameByRef { name: s, reference: w }),
                Ok(None) => r == Ok::<_, ProxyError<E>>(Action::<F>::SetWorkspaceName(s)),
                Err(e) => r == Err::<Action<F>, _>(e),
            },
            _ => refused(r),
        }
    } else if name == "unset_workspace_name"@ {
        match one_arg(args) {
            Some(ProxyArg::OptionalValue(o)) => match proxy_optional_reference(o) {
                Ok(Some(w)) => r == Ok::<_, ProxyError<E>>(Action::<F>::UnsetWorkSpaceNameByRef(w)),
                Ok(None) => r == Ok::<_, ProxyError<E>>(Action::<F>::UnsetWorkspaceName),
                Err(e) => r == Err::<Action<F>, _>(e),
            },
            _ => refused(r),
        }
    } else if name == "move_window_to_monitor"@ {
        match two_args(args) {
            Some((ProxyArg::Text(o), ProxyArg::OptionalId(id))) => r == Ok::<_, ProxyError<E>>(match id {
                Some(i) => Action::<F>::MoveWindowToMonitorById { id: i, output: o },
                None => Action::<F>::MoveWindowToMonitor(o),
            }),
            _ => refused(r),
        }
    } else if name == "set_window_width"@ {
        match two_args(args) {
            Some((ProxyArg::Value(v), ProxyArg::OptionalId(id))) => {
                ||| (r matches Ok(Action::SetWindowWidthById { id: j, change: c }) && id == Some(j) && proxy_size_change(v, Ok::<_, ProxyError<E>>(c)))
                ||| (r matches Ok(Action::SetWindowWidth(c)) && id is None && proxy_size_change(v, Ok::<_, ProxyError<E>>(c)))
                ||| (r matches Err(e) && proxy_size_change(v, Err::<SizeChange<Amount<F>>, _>(e)))
            },
            _ => refused(r),
        }
    } else if name == "set_window_height"@ {
        match two_args(args) {
            Some((ProxyArg::Value(v), ProxyArg::OptionalId(id))) => {
                ||| (r matches Ok(Action::SetWindowHeightById { id: j, change: c }) && id == Some(j) && proxy_size_change(v, Ok::<_, ProxyError<E>>(c)))
                ||| (r matches Ok(Action::SetWindowHeight(c)) && id is None && proxy_size_change(v, Ok::<_, ProxyError<E>>(c)))
                ||| (r matches Err(e) && proxy_size_change(v, Err::<SizeChange<Amount<F>>, _>(e)))
            },
            _ => refused(r),
        }
    } else if name == "set_column_width"@ {
        match one_arg(args) {
            Some(ProxyArg::Value(v)) => {
                ||| (r matches Ok(Action::SetColumnWidth(c)) && proxy_size_change(v, Ok::<_, ProxyError<E>>(c)))
                ||| (r matches Err(e) && proxy_size_change(v, Err::<SizeChange<Amount<F>>, _>(e)))
            },
            _ => refused(r),
        }
    } else if name == "switch_layout"@ {
        match one_arg(args) {
            Some(ProxyArg::Value(v)) => match proxy_layout(v) {
                Ok(t) => r == Ok::<_, ProxyError<E>>(Action::<F>::SwitchLayout(t)),
                Err(e) => r == Err::<Action<F>, _>(e),
            },
            _ => refused(r),
        }
    } else if name == "move_workspace_to_monitor"@ {
        match two_args(args) {
            Some((ProxyArg::Text(o), ProxyArg::OptionalValue(ov))) => match proxy_optional_reference(ov) {
                Ok(Some(w)) => r == Ok::<_, ProxyError<E>>(Action::<F>::MoveWorkspaceToMonitorByRef { output_name: o, reference: w }),
                Ok(None) => r == Ok::<_, ProxyError<E>>(Action::<F>::MoveWorkspaceToMonitor(o)),
                Err(e) => r == Err::<Action<F>, _>(e),
            },
            _ => refused(r),
        }
    } else if name == "move_floating_window"@ {
        match three_args(args) {
            Some((ProxyArg::Value(x), ProxyArg::Value(y), ProxyArg::OptionalId(id))) => {
                ||| (r matches Ok(Action::MoveFloatingWindowById { id: j, x: cx, y: cy }) && j == id
                    && proxy_position_change(x, Ok::<_, ProxyError<E>>(cx)) && proxy_position_change(y, Ok::<_, ProxyError<E>>(cy)))
                ||| (r matches Err(e) && !position_reads(x) && proxy_position_change(x, Err::<PositionChange<Amount<F>>, _>(e)))
                ||| (r matches Err(e) && position_reads(x) && proxy_position_change(y, Err::<PositionChange<Amount<F>>, _>(e)))
            },
            _ => refused(r),
        }
    } else if name == "set_dynamic_cast_monitor"@ {
        match one_arg(args) {
            Some(ProxyArg::OptionalText(o)) => r == Ok::<_, ProxyError<E>>(Action::<F>::SetDynamicCastMonitor(o)),
            _ => refused(r),
        }
    } else {
        r == Err::<Action<F>, _>(ProxyError::<E>::UnknownMethod)
    }
}

/// What a call of the method `name` with `args` gives: the action that the
/// method names, filled from the arguments, or why there is none.
pub open spec fn proxy_outcome<F, E>(name: Seq<char>, args: Seq<ProxyArg<F, E>>, r: Result<Action<F>, ProxyError<E>>) -> bool {
    if is_plain_method(name) {
        r == Ok::<_, ProxyError<E>>(proxy_plain_action::<F>(name).unwrap())
    } else if is_id_method(name) {
        match one_arg(args) {
            Some(ProxyArg::OptionalId(id)) => r == Ok::<_, ProxyError<E>>(id_method_action::<F>(name, id).unwrap()),
            _ => refused(r),
        }
    } else if is_focus_flag_method(name) {
        match one_arg(args) {
            Some(ProxyArg::Flag(f)) => r == Ok::<_, ProxyError<E>>(focus_flag_action::<F>(name, flag_or(f, true)).unwrap()),
            _ => refused(r),
        }
    } else if is_window_id_method(name) {
        match one_arg(args) {
            Some(ProxyArg::Id(i)) => r == Ok::<_, ProxyError<E>>(window_id_action::<F>(name, i).unwrap()),
            _ => refused(r),
        }
    } else if is_text_method(name) {
        match one_arg(args) {
            Some(ProxyArg::Text(s)) => r == Ok::<_, ProxyError<E>>(text_method_action::<F>(name, s).unwrap()),
            _ => refused(r),
        }
    } else if is_column_index_method(name) {
        match one_arg(args) {
            Some(ProxyArg::Index(i)) => r == Ok::<_, ProxyError<E>>(column_index_action::<F>(name, i).unwrap()),
            _ => refused(r),
        }
    } else {
        single_outcome(name, args, r)
    }
}

fn one<F, E>(args: Vec<ProxyArg<F, E>>) -> (r: ProxyArg<F, E>)
    requires
        args@.len() == 1,
    ensures
        r == args@[0],
{
    let mut a = args;
    a.pop().unwrap()
}

fn two<F, E>(args: Vec<ProxyArg<F, E>>) -> (r: (ProxyArg<F, E>, ProxyArg<F, E>))
    requires
        args@.len() == 2,
    ensures
        r.0 == args@[0],
        r.1 == args@[1],
{
    let mut a = args;
    let second = a.pop().unwrap();
    let first = a.pop().unwrap();
    (first, second)
}

fn three<F, E>(args: Vec<ProxyArg<F, E>>) -> (r: (ProxyArg<F, E>, ProxyArg<F, E>, ProxyArg<F, E>))
    requires
        args@.len() == 3,
    ensures
        r.0 == args@[0],
        r.1 == args@[1],
        r.2 == args@[2],
{
    let mut a = args;
    let third = a.pop().unwrap();
    let second = a.pop().unwrap();
    let first = a.pop().unwrap();
    (first, second, third)
}

fn single_call<F, E>(n: &[char], args: Vec<ProxyArg<F, E>>) -> (r: Result<Action<F>, ProxyError<E>>)
    ensures
        single_outcome(n@, args@, r),
{
    if eq_lit(n, "quit") {
        if args.len() != 1 {
            return Err(ProxyError::ArgumentKinds);
        }
        match one(args) {
            ProxyArg::Flag(b) => Ok(Action::Quit(flag_or_exec(b, false))),
            _ => Err(ProxyError::ArgumentKinds),
        }
    } else if eq_lit(n, "spawn") {
        if args.len() != 1 {
            return Err(ProxyError::ArgumentKinds);
        }
        match one(args) {
            ProxyArg::Texts(v) => Ok(Action::Spawn(v)),
            _ => Err(ProxyError::ArgumentKinds),
        }
    } else if eq_lit(n, "do_screen_transition") {
        if args.len() != 1 {
            return Err(ProxyError::ArgumentKinds);
        }
        match one(args) {
            ProxyArg::Delay(d) => Ok(Action::DoScreenTransition(d)),
            _ => Err(ProxyError::ArgumentKinds),
        }
    } else if eq_lit(n, "screenshot") {
        if args.len() != 2 {
            return Err(ProxyError::ArgumentKinds);
        }
        match two(args) {
            (ProxyArg::Flag(p), ProxyArg::OptionalText(path)) => Ok(Action::Screenshot(flag_or_exec(p, true), path)),
            _ => Err(ProxyError::ArgumentKinds),
        }
    } else if eq_lit(n, "screenshot_screen") {
        if args.len() != 3 {
            return Err(ProxyError::ArgumentKinds);
        }
        match three(args) {
            (ProxyArg::Flag(w), ProxyArg::Flag(p), ProxyArg::OptionalText(path)) =>
                Ok(Action::ScreenshotScreen(flag_or_exec(w, true), flag_or_exec(p, true), path)),
            _ => Err(ProxyError::ArgumentKinds),
        }
    } else if eq_lit(n, "screenshot_window") {
        if args.len() != 3 {
            return Err(ProxyError::ArgumentKinds);
        }
        match three(args) {
            (ProxyArg::OptionalId(id), ProxyArg::Flag(w), ProxyArg::OptionalText(path)) => Ok(match id {
                Some(i) => Action::ScreenshotWindowById { id: i, write_to_disk: flag_or_exec(w, true), path },
                None => Action::ScreenshotWindow(flag_or_exec(w, true), path),
            }),
            _ => Err(ProxyError::ArgumentKinds),
        }
    } else if eq_lit(n, "focus_window_in_column") {
        if args.len() != 1 {
            return Err(ProxyError::ArgumentKinds);
        }
        match one(args) {
            ProxyArg::Byte(i) => Ok(Action::FocusWindowInColumn(i)),
            _ => Err(ProxyError::ArgumentKinds),
        }
    } else if eq_lit(n, "set_column_display") {
        if args.len() != 1 {
            return Err(ProxyError::ArgumentKinds);
        }
        match one(args) {
            ProxyArg::Text(s) => match column_display_value(s) {
                Ok(d) => Ok(Action::SetColumnDisplay(d)),
                Err(e) => Err(e),
            },
            _ => Err(ProxyError::ArgumentKinds),
        }
    } else if eq_lit(n, "focus_workspace") {
        if args.len() != 1 {
            return Err(ProxyError::ArgumentKinds);
        }
        match one(args) {
            ProxyArg::Value(v) => match reference_value(v) {
                Ok(w) => Ok(Action::FocusWorkspace(w)),
                Err(e) => Err(e),
            },
            _ => Err(ProxyError::ArgumentKinds),
        }
    } else if eq_lit(n, "move_window_to_workspace") {
        if args.len() != 3 {
            return Err(ProxyError::ArgumentKinds);
        }
        match three(args) {
            (ProxyArg::Value(v), ProxyArg::OptionalId(id), ProxyArg::Flag(f)) => match reference_value(v) {
                Ok(w) => Ok(match id {
                    Some(i) => Action::MoveWindowToWorkspaceById { window_id: i, reference: w, focus: flag_or_exec(f, true) },
                    None => Action::MoveWindowToWorkspace(w, flag_or_exec(f, true)),
                }),
                Err(e) => Err(e),
            },
            _ => Err(ProxyError::ArgumentKinds),
        }
    } else if eq_lit(n, "move_column_to_workspace") {
        if args.len() != 2 {
            return Err(ProxyError::ArgumentKinds);
        }
        match two(args) {
            (ProxyArg::Value(v), ProxyArg::Flag(f)) => match reference_value(v) {
                Ok(w) => Ok(Action::MoveColumnToWorkspace(w, flag_or_exec(f, true))),
                Err(e) => Err(e),
            },
            _ => Err(ProxyError::ArgumentKinds),
        }
    } else if eq_lit(n, "move_workspace_to_index") {
        if args.len() != 2 {
            return Err(ProxyError::ArgumentKinds);
        }
        match two(args) {
            (ProxyArg::Index(i), ProxyArg::OptionalValue(o)) => match optional_reference_value(o) {
                Ok(Some(w)) => Ok(Action::MoveWorkspaceToIndexByRef { new_idx: i, reference: w }),
                Ok(None) => Ok(Action::MoveWorkspaceToIndex(i)),
                Err(e) => Err(e),
            },
            _ => Err(ProxyError::ArgumentKinds),
        }
    } else if eq_lit(n, "set_workspace_name") {
        if args.len() != 2 {
            return Err(ProxyError::ArgumentKinds);
        }
        match two(args) {
            (ProxyArg::Text(s), ProxyArg::OptionalValue(o)) => match optional_reference_value(o) {
                Ok(Some(w)) => Ok(Action::SetWorkspaceNameByRef { name: s, reference: w }),
                Ok(None) => Ok(Action::SetWorkspaceName(s)),
                Err(e) => Err(e),
            },
            _ => Err(ProxyError::ArgumentKinds),
        }
    } else if eq_lit(n, "unset_workspace_name") {
        if args.len() != 1 {
            return Err(ProxyError::ArgumentKinds);
        }
        match one(args) {
            ProxyArg::OptionalValue(o) => match optional_reference_value(o) {
                Ok(Some(w)) => Ok(Action::UnsetWorkSpaceNameByRef(w)),
                Ok(None) => Ok(Action::UnsetWorkspaceName),
                Err(e) => Err(e),
            },
            _ => Err(ProxyError::ArgumentKinds),
        }
    } else if eq_lit(n, "move_window_to_monitor") {
        if args.len() != 2 {
            return Err(ProxyError::ArgumentKinds);
        }
        match two(args) {
            (ProxyArg::Text(o), ProxyArg::OptionalId(id)) => Ok(match id {
                Some(i) => Action::MoveWindowToMonitorById { id: i, output: o },
                None => Action::MoveWindowToMonitor(o),
            }),
            _ => Err(ProxyError::ArgumentKinds),
        }
    } else if eq_lit(n, "set_window_width") {
        if args.len() != 2 {
            return Err(ProxyError::ArgumentKinds);
        }
        match two(args) {
            (ProxyArg::Value(v), ProxyArg::OptionalId(id)) => match size_change_value(v) {
                Ok(c) => Ok(match id {
                    Some(i) => Action::SetWindowWidthById { id: i, change: c },
                    None => Action::SetWindowWidth(c),
                }),
                Err(e) => Err(e),
            },
            _ => Err(ProxyError::ArgumentKinds),
        }
    } else if eq_lit(n, "set_window_height") {
        if args.len() != 2 {
            return Err(ProxyError::ArgumentKinds);
        }
        match two(args) {
            (ProxyArg::Value(v), ProxyArg::OptionalId(id)) => match size_change_value(v) {
                Ok(c) => Ok(match id {
                    Some(i) => Action::SetWindowHeightById { id: i, change: c },
                    None => Action::SetWindowHeight(c),
                }),
                Err(e) => Err(e),
            },
            _ => Err(ProxyError::ArgumentKinds),
        }
    } else if eq_lit(n, "set_column_width") {
        if args.len() != 1 {
            return Err(ProxyError::ArgumentKinds);
        }
        match one(args) {
            ProxyArg::Value(v) => match size_change_value(v) {
                Ok(c) => Ok(Action::SetColumnWidth(c)),
                Err(e) => Err(e),
            },
            _ => Err(ProxyError::ArgumentKinds),
        }
    } else if eq_lit(n, "switch_layout") {
        if args.len() != 1 {
            return Err(ProxyError::ArgumentKinds);
        }
        match one(args) {
            ProxyArg::Value(v) => match layout_value(v) {
                Ok(t) => Ok(Action::SwitchLayout(t)),
                Err(e) => Err(e),
            },
            _ => Err(ProxyError::ArgumentKinds),
        }
    } else if eq_lit(n, "move_workspace_to_monitor") {
        if args.len() != 2 {
            return Err(ProxyError::ArgumentKinds);
        }
        match two(args) {
            (ProxyArg::Text(o), ProxyArg::OptionalValue(ov)) => match optional_reference_value(ov) {
                Ok(Some(w)) => Ok(Action::MoveWorkspaceToMonitorByRef { output_name: o, reference: w }),
                Ok(None) => Ok(Action::MoveWorkspaceToMonitor(o)),
                Err(e) => Err(e),
            },
            _ => Err(ProxyError::ArgumentKinds),
        }
    } else if eq_lit(n, "move_floating_window") {
        if args.len() != 3 {
            return Err(ProxyError::ArgumentKinds);
        }
        match three(args) {
            (ProxyArg::Value(x), ProxyArg::Value(y), ProxyArg::OptionalId(id)) => {
                let cx = match position_change_value(x) {
                    Ok(c) => c,
                    Err(e) => return Err(e),
                };
                let cy = match position_change_value(y) {
                    Ok(c) => c,
                    Err(e) => return Err(e),
                };
                Ok(Action::MoveFloatingWindowById { id, x: cx, y: cy })
            },
            _ => Err(ProxyError::ArgumentKinds),
        }
    } else if eq_lit(n, "set_dynamic_cast_monitor") {
        if args.len() != 1 {
            return Err(ProxyError::ArgumentKinds);
        }
        match one(args) {
            ProxyArg::OptionalText(o) => Ok(Action::SetDynamicCastMonitor(o)),
            _ => Err(ProxyError::ArgumentKinds),
        }
    } else {
        Err(ProxyError::UnknownMethod)
    }
}

/// Calls the method `name` of the proxy with `args`: the action that the
/// method names, its fields filled from the arguments.
pub fn proxy_call<F, E>(name: &str, args: Vec<ProxyArg<F, E>>) -> (r: Result<Action<F>, ProxyError<E>>)
    ensures
        proxy_outcome(name@, args@, r),
{
    let n = chars_of(name);
    if plain_method_name(&n) {
        return match plain_of::<F>(&n) {
            Some(a) => Ok(a),
            None => Err(ProxyError::UnknownMethod),
        };
    }
    if id_method_name(&n) {
        if args.len() != 1 {
            return Err(ProxyError::ArgumentKinds);
        }
        return match one(args) {
            ProxyArg::OptionalId(id) => match id_method_of::<F>(&n, id) {
                Some(a) => Ok(a),
                None => Err(ProxyError::UnknownMethod),
            },
            _ => Err(ProxyError::ArgumentKinds),
        };
    }
    if focus_flag_name(&n) {
        if args.len() != 1 {
            return Err(ProxyError::ArgumentKinds);
        }
        return match one(args) {
            ProxyArg::Flag(f) => match focus_flag_of::<F>(&n, flag_or_exec(f, true)) {
                Some(a) => Ok(a),
                None => Err(ProxyError::UnknownMethod),
            },
            _ => Err(ProxyError::ArgumentKinds),
        };
    }
    if window_id_name(&n) {
        if args.len() != 1 {
            return Err(ProxyError::ArgumentKinds);
        }
        return match one(args) {
            ProxyArg::Id(i) => match window_id_of::<F>(&n, i) {
                Some(a) => Ok(a),
                None => Err(ProxyError::UnknownMethod),
            },
            _ => Err(ProxyError::ArgumentKinds),
        };
    }
    if text_method_name(&n) {
        if args.len() != 1 {
            return Err(ProxyError::ArgumentKinds);
        }
        return match one(args) {
            ProxyArg::Text(s) => match text_method_of::<F>(&n, s) {
                Some(a) => Ok(a),
                None => Err(ProxyError::UnknownMethod),
            },
            _ => Err(ProxyError::ArgumentKinds),
        };
    }
    if column_index_name(&n) {
        if args.len() != 1 {
            return Err(ProxyError::ArgumentKinds);
        }
        return match one(args) {
            ProxyArg::Index(i) => match column_index_of::<F>(&n, i) {
                Some(a) => Ok(a),
                None => Err(ProxyError::UnknownMethod),
            },
            _ => Err(ProxyError::ArgumentKinds),
        };
    }
    single_call(&n, args)
}

} // verus!
