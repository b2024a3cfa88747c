//! The properties of `niri.config`: the setting that each property path
//! reads and writes, how a value given from Lua becomes that setting's value,
//! and how the setting reads back.
//!
//! A property's value arrives as the setter converts it from Lua (the glue
//! does that conversion, as the property's `input_shape` says); what follows
//! from it is decided here: an inverted flag is stored negated, an integer
//! must fit its type, a choice must name one of its words (after turning `-`
//! into `_` and lower-casing, for the choices that normalize), and an
//! optional setting takes `nil` as unset.
use vstd::prelude::*;
use crate::dirty::{with_path, ConfigDirtyFlags, DirtyFlag};
use crate::json::JsonNumber;
use crate::pending::{lowercase_of, lowercase_text, set_in, set_setting, setting_index, setting_value, Setting};
use crate::settings::SettingValue;
use crate::text::{chars_of, str_eq, string_from_chars};

verus! {

/// The integer type of an integer property.
#[derive(PartialEq, Eq, Structural, Clone, Copy, Debug)]
pub enum IntRange {
    U8,
    U16,
    U32,
}

/// The largest value of an integer type.
pub open spec fn int_max(t: IntRange) -> int {
    match t {
        IntRange::U8 => 255,
        IntRange::U16 => 65535,
        IntRange::U32 => 4294967295,
    }
}

/// How a property reads and writes its setting.
#[derive(PartialEq, Eq, Structural, Clone, Copy, Debug)]
pub enum AccessorKind {
    /// A boolean.
    Flag,
    /// A boolean, stored negated (`layout.shadow.off` stores `layout.shadow.on`).
    InvertedFlag,
    /// A boolean, or `nil` for unset.
    OptionalFlag,
    /// An integer of the given type.
    Integer(IntRange),
    /// An integer of the given type, or `nil` for unset.
    OptionalInteger(IntRange),
    /// A number.
    Number,
    /// A string.
    Text,
    /// A string, or `nil` for unset.
    OptionalText,
    /// One of the words of `set`; `optional` admits `nil` for unset, and
    /// `normalize` turns `-` into `_` and lower-cases the text first.
    Choice { set: ChoiceSet, optional: bool, normalize: bool },
}

/// The shape of the value a property's setter takes from Lua.
#[derive(PartialEq, Eq, Structural, Clone, Copy, Debug)]
pub enum InputShape {
    Flag,
    OptionalFlag,
    Integer,
    OptionalInteger,
    Number,
    Text,
    OptionalText,
}

/// A value given to a property, as its setter converts it from Lua.
pub enum PropertyInput<F> {
    Flag(bool),
    OptionalFlag(Option<bool>),
    Integer(i64),
    OptionalInteger(Option<i64>),
    Number(F),
    Text(String),
    OptionalText(Option<String>),
}

/// Why a value given to a property is refused.
pub enum PropertyError {
    /// The path names no property.
    Unknown,
    /// The value does not have the shape the property takes.
    WrongInput,
    /// The integer does not fit the property's type.
    OutOfRange,
    /// The text names none of the property's words: the message
    /// `invalid <path> value: <text>`.
    InvalidChoice(String),
}

/// The shape of value that a property of kind `k` takes.
pub open spec fn shape_of(k: AccessorKind) -> InputShape {
    match k {
        AccessorKind::Flag | AccessorKind::InvertedFlag => InputShape::Flag,
        AccessorKind::OptionalFlag => InputShape::OptionalFlag,
        AccessorKind::Integer(_) => InputShape::Integer,
        AccessorKind::OptionalInteger(_) => InputShape::OptionalInteger,
        AccessorKind::Number => InputShape::Number,
        AccessorKind::Text => InputShape::Text,
        AccessorKind::OptionalText => InputShape::OptionalText,
        AccessorKind::Choice { optional, .. } => if optional { InputShape::OptionalText } else { InputShape::Text },
    }
}

/// The shape of value that a property of kind `k` takes.
pub fn input_shape(k: AccessorKind) -> (r: InputShape)
    ensures
        r == shape_of(k),
{
    match k {
        AccessorKind::Flag | AccessorKind::InvertedFlag => InputShape::Flag,
        AccessorKind::OptionalFlag => InputShape::OptionalFlag,
        AccessorKind::Integer(_) => InputShape::Integer,
        AccessorKind::OptionalInteger(_) => InputShape::OptionalInteger,
        AccessorKind::Number => InputShape::Number,
        AccessorKind::Text => InputShape::Text,
        AccessorKind::OptionalText => InputShape::OptionalText,
        AccessorKind::Choice { optional, .. } => if optional { InputShape::OptionalText } else { InputShape::Text },
    }
}

/// The shape of a given value.
pub open spec fn shape_of_input<F>(v: PropertyInput<F>) -> InputShape {
    match v {
        PropertyInput::Flag(_) => InputShape::Flag,
        PropertyInput::OptionalFlag(_) => InputShape::OptionalFlag,
        PropertyInput::Integer(_) => InputShape::Integer,
        PropertyInput::OptionalInteger(_) => InputShape::OptionalInteger,
        PropertyInput::Number(_) => InputShape::Number,
        PropertyInput::Text(_) => InputShape::Text,
        PropertyInput::OptionalText(_) => InputShape::OptionalText,
    }
}

/// `s` with every `-` turned into `_`.
pub open spec fn dashes_to_underscores(s: Seq<char>) -> Seq<char> {
    s.map_values(|c: char| if c == '-' { '_' } else { c })
}

/// The text that a choice compares with its words.
pub open spec fn choice_text(t: Seq<char>, normalize: bool) -> Seq<char> {
    if normalize { lowercase_text(dashes_to_underscores(t)) } else { t }
}

/// The first of `words` that is `t`.
pub open spec fn word_matching(words: Seq<&'static str>, t: Seq<char>) -> Option<&'static str>
    decreases words.len(),
{
    if words.len() == 0 {
        None
    } else if words[0]@ == t {
        Some(words[0])
    } else {
        word_matching(words.drop_first(), t)
    }
}

/// The setting value that a property of kind `k` takes from `v`; `None` when
/// the value is refused.
pub open spec fn accessor_value<F>(k: AccessorKind, v: PropertyInput<F>) -> Option<SettingValue<F>> {
    match (k, v) {
        (AccessorKind::Flag, PropertyInput::Flag(b)) => Some(SettingValue::Flag(b)),
        (AccessorKind::InvertedFlag, PropertyInput::Flag(b)) => Some(SettingValue::Flag(!b)),
        (AccessorKind::OptionalFlag, PropertyInput::OptionalFlag(o)) => Some(
            match o { Some(b) => SettingValue::Flag(b), None => SettingValue::Unset },
        ),
        (AccessorKind::Integer(t), PropertyInput::Integer(i)) => if 0 <= i <= int_max(t) {
            Some(stored_integer(t, i))
        } else {
            None
        },
        (AccessorKind::OptionalInteger(t), PropertyInput::OptionalInteger(o)) => match o {
            Some(i) => if 0 <= i <= int_max(t) { Some(stored_integer(t, i)) } else { None },
            None => Some(SettingValue::Unset),
        },
        (AccessorKind::Number, PropertyInput::Number(f)) => Some(SettingValue::Number(JsonNumber::Float(f))),
        (AccessorKind::Text, PropertyInput::Text(s)) => Some(SettingValue::Text(s)),
        (AccessorKind::OptionalText, PropertyInput::OptionalText(o)) => Some(
            match o { Some(s) => SettingValue::Text(s), None => SettingValue::Unset },
        ),
        (AccessorKind::Choice { set, optional, normalize }, PropertyInput::Text(s)) => if !optional {
            match word_matching(choice_words(set), choice_text(s@, normalize)) {
                Some(w) => Some(SettingValue::Word(Some(w))),
                None => None,
            }
        } else {
            None
        },
        (AccessorKind::Choice { set, optional, normalize }, PropertyInput::OptionalText(o)) => if optional {
            match o {
                Some(s) => match word_matching(choice_words(set), choice_text(s@, normalize)) {
                    Some(w) => Some(SettingValue::Word(Some(w))),
                    None => None,
                },
                None => Some(SettingValue::Word(None)),
            }
        } else {
            None
        },
        _ => None,
    }
}

/// How an integer of type `t` is stored.
pub open spec fn stored_integer<F>(t: IntRange, i: i64) -> SettingValue<F> {
    match t {
        IntRange::U8 => SettingValue::Byte(i as u8),
        IntRange::U16 => SettingValue::Short(i as u16),
        IntRange::U32 => SettingValue::Wide(i as u32),
    }
}

/// The message for a text that names none of a property's words.
pub open spec fn invalid_choice_text(path: Seq<char>, t: Seq<char>) -> Seq<char> {
    "invalid "@ + path + " value: "@ + t
}

/// `e` is the error for the refused value `v` of a property of kind `k` at
/// `path`: a value of another shape, an integer outside its type, or a text
/// (after normalizing, where the choice normalizes) that names no word.
pub open spec fn refusal<F>(path: Seq<char>, k: AccessorKind, v: PropertyInput<F>, e: PropertyError) -> bool {
    if shape_of_input(v) != shape_of(k) {
        e is WrongInput
    } else {
        match (k, v) {
            (AccessorKind::Choice { normalize, .. }, PropertyInput::Text(s)) =>
                e matches PropertyError::InvalidChoice(m) && m@ == invalid_choice_text(path, choice_text(s@, normalize)),
            (AccessorKind::Choice { normalize, .. }, PropertyInput::OptionalText(Some(s))) =>
                e matches PropertyError::InvalidChoice(m) && m@ == invalid_choice_text(path, choice_text(s@, normalize)),
            _ => e is OutOfRange,
        }
    }
}

/// What a property shows when read.
pub enum PropertyOutput<F> {
    Nil,
    Boolean(bool),
    Integer(i64),
    Number(F),
    Text(String),
}

/// The contents of what a property shows.
pub enum OutputView<F> {
    Nil,
    Boolean(bool),
    Integer(i64),
    Number(F),
    Text(Seq<char>),
}

/// The contents of a read.
pub open spec fn output_view<F>(r: Option<PropertyOutput<F>>) -> Option<OutputView<F>> {
    match r {
        None => None,
        Some(PropertyOutput::Nil) => Some(OutputView::Nil),
        Some(PropertyOutput::Boolean(b)) => Some(OutputView::Boolean(b)),
        Some(PropertyOutput::Integer(i)) => Some(OutputView::Integer(i)),
        Some(PropertyOutput::Number(f)) => Some(OutputView::Number(f)),
        Some(PropertyOutput::Text(s)) => Some(OutputView::Text(s@)),
    }
}

/// What a property of kind `k` shows of its setting's value `v`: a whole
/// number that the pending changes recorded for a number property shows as
/// an integer, and a choice word recorded with dashes (as the pending
/// changes record it) shows with underscores, as the property's words are
/// written; `None` for a value recorded in a form that the property does not
/// read (a whole number beyond the integers of Lua).
pub open spec fn shown<F>(k: AccessorKind, v: SettingValue<F>) -> Option<OutputView<F>> {
    match (k, v) {
        (AccessorKind::Flag, SettingValue::Flag(b)) => Some(OutputView::Boolean(b)),
        (AccessorKind::OptionalFlag, SettingValue::Flag(b)) => Some(OutputView::Boolean(b)),
        (AccessorKind::InvertedFlag, SettingValue::Flag(b)) => Some(OutputView::Boolean(!b)),
        (AccessorKind::Integer(_), SettingValue::Byte(b)) => Some(OutputView::Integer(b as i64)),
        (AccessorKind::Integer(_), SettingValue::Short(b)) => Some(OutputView::Integer(b as i64)),
        (AccessorKind::Integer(_), SettingValue::Wide(b)) => Some(OutputView::Integer(b as i64)),
        (AccessorKind::OptionalInteger(_), SettingValue::Byte(b)) => Some(OutputView::Integer(b as i64)),
        (AccessorKind::OptionalInteger(_), SettingValue::Short(b)) => Some(OutputView::Integer(b as i64)),
        (AccessorKind::OptionalInteger(_), SettingValue::Wide(b)) => Some(OutputView::Integer(b as i64)),
        (AccessorKind::Number, SettingValue::Number(JsonNumber::Float(f))) => Some(OutputView::Number(f)),
        (AccessorKind::Number, SettingValue::Number(JsonNumber::NegInt(i))) => Some(OutputView::Integer(i)),
        (AccessorKind::Number, SettingValue::Number(JsonNumber::PosInt(u))) => if u <= i64::MAX {
            Some(OutputView::Integer(u as i64))
        } else {
            None
        },
        (AccessorKind::Text, SettingValue::Text(s)) => Some(OutputView::Text(s@)),
        (AccessorKind::OptionalText, SettingValue::Text(s)) => Some(OutputView::Text(s@)),
        (AccessorKind::Choice { .. }, SettingValue::Word(Some(w))) => Some(OutputView::Text(dashes_to_underscores(w@))),
        (AccessorKind::Choice { optional, .. }, SettingValue::Word(None)) => if optional { Some(OutputView::Nil) } else { None },
        (AccessorKind::OptionalFlag, SettingValue::Unset) => Some(OutputView::Nil),
        (AccessorKind::OptionalInteger(_), SettingValue::Unset) => Some(OutputView::Nil),
        (AccessorKind::OptionalText, SettingValue::Unset) => Some(OutputView::Nil),
        _ => None,
    }
}

/// What reading the property at `path` gives, when `settings` records the
/// values set and `defaults` the configuration's values before any was set:
/// the setting's value from `settings`, or else from `defaults`; `None` when
/// the path names no property, neither records its setting, or the value is
/// in a form that the property does not read.
pub open spec fn property_view<F>(settings: Seq<Setting<F>>, defaults: Seq<Setting<F>>, path: Seq<char>) -> Option<OutputView<F>> {
    match accessor_of(path) {
        None => None,
        Some((field, k)) => match setting_value(settings, field) {
            Some(v) => shown(k, v),
            None => match setting_value(defaults, field) {
                Some(v) => shown(k, v),
                None => None,
            },
        },
    }
}

/// The kinds of choice that properties offer.
#[derive(PartialEq, Eq, Structural, Clone, Copy, Debug)]
pub enum ChoiceSet {
    AccelProfile,
    ScrollMethod,
    TapButtonMap,
    PreviewRender,
    CenterFocusedColumn,
    TabIndicatorPosition,
    ColumnDisplay,
}

/// The words of a choice, in the order they are tried.
pub open spec fn choice_words(c: ChoiceSet) -> Seq<&'static str> {
    match c {
        ChoiceSet::AccelProfile => seq!["adaptive", "flat"],
        ChoiceSet::ScrollMethod => seq!["no_scroll", "two_finger", "edge", "on_button_down"],
        ChoiceSet::TapButtonMap => seq!["left_right_middle", "left_middle_right"],
        ChoiceSet::PreviewRender => seq!["screencast", "screen_capture"],
        ChoiceSet::CenterFocusedColumn => seq!["never", "always", "on_overflow"],
        ChoiceSet::TabIndicatorPosition => seq!["left", "right", "top", "bottom"],
        ChoiceSet::ColumnDisplay => seq!["normal", "tabbed"],
    }
}

/// The words of a choice.
pub fn choice_list(c: ChoiceSet) -> (r: Vec<&'static str>)
    ensures
        r@ == choice_words(c),
{
    match c {
        ChoiceSet::AccelProfile => vec!["adaptive", "flat"],
        ChoiceSet::ScrollMethod => vec!["no_scroll", "two_finger", "edge", "on_button_down"],
        ChoiceSet::TapButtonMap => vec!["left_right_middle", "left_middle_right"],
        ChoiceSet::PreviewRender => vec!["screencast", "screen_capture"],
        ChoiceSet::CenterFocusedColumn => vec!["never", "always", "on_overflow"],
        ChoiceSet::TabIndicatorPosition => vec!["left", "right", "top", "bottom"],
        ChoiceSet::ColumnDisplay => vec!["normal", "tabbed"],
    }
}

/// The setting that the property at `path` reads and writes, and its kind;
/// `None` for a path that names no property.
pub open spec fn accessor_of(path: Seq<char>) -> Option<(&'static str, AccessorKind)> {
    if path == "animations.off"@ {
        Some(("animations.off", AccessorKind::Flag))
    } else if path == "animations.slowdown"@ {
        Some(("animations.slowdown", AccessorKind::Number))
    } else if path == "input.mouse.natural_scroll"@ {
        Some(("input.mouse.natural_scroll", AccessorKind::Flag))
    } else if path == "input.mouse.accel_speed"@ {
        Some(("input.mouse.accel_speed", AccessorKind::Number))
    } else if path == "input.mouse.accel_profile"@ {
        Some(("input.mouse.accel_profile", AccessorKind::Choice { set: ChoiceSet::AccelProfile, optional: true, normalize: false }))
    } else if path == "input.mouse.scroll_method"@ {
        Some(("input.mouse.scroll_method", AccessorKind::Choice { set: ChoiceSet::ScrollMethod, optional: true, normalize: true }))
    } else if path == "input.touchpad.tap"@ {
        Some(("input.touchpad.tap", AccessorKind::Flag))
    } else if path == "input.touchpad.dwt"@ {
        Some(("input.touchpad.dwt", AccessorKind::Flag))
    } else if path == "input.touchpad.dwtp"@ {
        Some(("input.touchpad.dwtp", AccessorKind::Flag))
    } else if path == "input.touchpad.drag"@ {
        Some(("input.touchpad.drag", AccessorKind::OptionalFlag))
    } else if path == "input.touchpad.drag_lock"@ {
        Some(("input.touchpad.drag_lock", AccessorKind::Flag))
    } else if path == "input.touchpad.natural_scroll"@ {
        Some(("input.touchpad.natural_scroll", AccessorKind::Flag))
    } else if path == "input.touchpad.accel_speed"@ {
        Some(("input.touchpad.accel_speed", AccessorKind::Number))
    } else if path == "input.touchpad.accel_profile"@ {
        Some(("input.touchpad.accel_profile", AccessorKind::Choice { set: ChoiceSet::AccelProfile, optional: true, normalize: false }))
    } else if path == "input.touchpad.tap_button_map"@ {
        Some(("input.touchpad.tap_button_map", AccessorKind::Choice { set: ChoiceSet::TapButtonMap, optional: true, normalize: true }))
    } else if path == "input.touchpad.scroll_method"@ {
        Some(("input.touchpad.scroll_method", AccessorKind::Choice { set: ChoiceSet::ScrollMethod, optional: true, normalize: true }))
    } else if path == "input.touch.off"@ {
        Some(("input.touch.off", AccessorKind::Flag))
    } else if path == "input.touch.natural_scroll"@ {
        Some(("input.touch.natural_scroll", AccessorKind::Flag))
    } else if path == "input.touch.map_to_output"@ {
        Some(("input.touch.map_to_output", AccessorKind::OptionalText))
    } else if path == "input.trackpoint.natural_scroll"@ {
        Some(("input.trackpoint.natural_scroll", AccessorKind::Flag))
    } else if path == "input.trackpoint.accel_speed"@ {
        Some(("input.trackpoint.accel_speed", AccessorKind::Number))
    } else if path == "input.trackpoint.accel_profile"@ {
        Some(("input.trackpoint.accel_profile", AccessorKind::Choice { set: ChoiceSet::AccelProfile, optional: true, normalize: false }))
    } else if path == "input.trackball.natural_scroll"@ {
        Some(("input.trackball.natural_scroll", AccessorKind::Flag))
    } else if path == "input.trackball.accel_speed"@ {
        Some(("input.trackball.accel_speed", AccessorKind::Number))
    } else if path == "input.trackball.accel_profile"@ {
        Some(("input.trackball.accel_profile", AccessorKind::Choice { set: ChoiceSet::AccelProfile, optional: true, normalize: false }))
    } else if path == "clipboard.disable_primary"@ {
        Some(("clipboard.disable_primary", AccessorKind::Flag))
    } else if path == "screenshot_path"@ {
        Some(("screenshot_path", AccessorKind::OptionalText))
    } else if path == "hotkey_overlay.skip_at_startup"@ {
        Some(("hotkey_overlay.skip_at_startup", AccessorKind::Flag))
    } else if path == "config_notification.disable_failed"@ {
        Some(("config_notification.disable_failed", AccessorKind::Flag))
    } else if path == "cursor.xcursor_theme"@ {
        Some(("cursor.xcursor_theme", AccessorKind::Text))
    } else if path == "cursor.xcursor_size"@ {
        Some(("cursor.xcursor_size", AccessorKind::Integer(IntRange::U8)))
    } else if path == "cursor.hide_when_typing"@ {
        Some(("cursor.hide_when_typing", AccessorKind::Flag))
    } else if path == "cursor.hide_after_inactive_ms"@ {
        Some(("cursor.hide_after_inactive_ms", AccessorKind::OptionalInteger(IntRange::U32)))
    } else if path == "debug.preview_render"@ {
        Some(("debug.preview_render", AccessorKind::Choice { set: ChoiceSet::PreviewRender, optional: true, normalize: false }))
    } else if path == "debug.dbus_interfaces_in_non_session_instances"@ {
        Some(("debug.dbus_interfaces_in_non_session_instances", AccessorKind::Flag))
    } else if path == "debug.wait_for_frame_completion_before_queueing"@ {
        Some(("debug.wait_for_frame_completion_before_queueing", AccessorKind::Flag))
    } else if path == "debug.enable_overlay_planes"@ {
        Some(("debug.enable_overlay_planes", AccessorKind::Flag))
    } else if path == "debug.disable_cursor_plane"@ {
        Some(("debug.disable_cursor_plane", AccessorKind::Flag))
    } else if path == "debug.disable_direct_scanout"@ {
        Some(("debug.disable_direct_scanout", AccessorKind::Flag))
    } else if path == "debug.keep_max_bpc_unchanged"@ {
        Some(("debug.keep_max_bpc_unchanged", AccessorKind::Flag))
    } else if path == "debug.restrict_primary_scanout_to_matching_format"@ {
        Some(("debug.restrict_primary_scanout_to_matching_format", AccessorKind::Flag))
    } else if path == "debug.force_disable_connectors_on_resume"@ {
        Some(("debug.force_disable_connectors_on_resume", AccessorKind::Flag))
    } else if path == "debug.render_drm_device"@ {
        Some(("debug.render_drm_device", AccessorKind::OptionalText))
    } else if path == "debug.force_pipewire_invalid_modifier"@ {
        Some(("debug.force_pipewire_invalid_modifier", AccessorKind::Flag))
    } else if path == "debug.emulate_zero_presentation_time"@ {
        Some(("debug.emulate_zero_presentation_time", AccessorKind::Flag))
    } else if path == "debug.disable_resize_throttling"@ {
        Some(("debug.disable_resize_throttling", AccessorKind::Flag))
    } else if path == "debug.disable_transactions"@ {
        Some(("debug.disable_transactions", AccessorKind::Flag))
    } else if path == "debug.keep_laptop_panel_on_when_lid_is_closed"@ {
        Some(("debug.keep_laptop_panel_on_when_lid_is_closed", AccessorKind::Flag))
    } else if path == "debug.disable_monitor_names"@ {
        Some(("debug.disable_monitor_names", AccessorKind::Flag))
    } else if path == "debug.strict_new_window_focus_policy"@ {
        Some(("debug.strict_new_window_focus_policy", AccessorKind::Flag))
    } else if path == "debug.honor_xdg_activation_with_invalid_serial"@ {
        Some(("debug.honor_xdg_activation_with_invalid_serial", AccessorKind::Flag))
    } else if path == "debug.deactivate_unfocused_windows"@ {
        Some(("debug.deactivate_unfocused_windows", AccessorKind::Flag))
    } else if path == "debug.skip_cursor_only_updates_during_vrr"@ {
        Some(("debug.skip_cursor_only_updates_during_vrr", AccessorKind::Flag))
    } else if path == "layout.gaps"@ {
        Some(("layout.gaps", AccessorKind::Number))
    } else if path == "layout.center_focused_column"@ {
        Some(("layout.center_focused_column", AccessorKind::Choice { set: ChoiceSet::CenterFocusedColumn, optional: false, normalize: false }))
    } else if path == "layout.struts.left"@ {
        Some(("layout.struts.left", AccessorKind::Number))
    } else if path == "layout.struts.right"@ {
        Some(("layout.struts.right", AccessorKind::Number))
    } else if path == "layout.struts.top"@ {
        Some(("layout.struts.top", AccessorKind::Number))
    } else if path == "layout.struts.bottom"@ {
        Some(("layout.struts.bottom", AccessorKind::Number))
    } else if path == "layout.shadow.on"@ {
        Some(("layout.shadow.on", AccessorKind::Flag))
    } else if path == "layout.shadow.off"@ {
        Some(("layout.shadow.on", AccessorKind::InvertedFlag))
    } else if path == "layout.shadow.softness"@ {
        Some(("layout.shadow.softness", AccessorKind::Number))
    } else if path == "layout.shadow.spread"@ {
        Some(("layout.shadow.spread", AccessorKind::Number))
    } else if path == "layout.shadow.draw_behind_window"@ {
        Some(("layout.shadow.draw_behind_window", AccessorKind::Flag))
    } else if path == "layout.shadow.offset.x"@ {
        Some(("layout.shadow.offset.x", AccessorKind::Number))
    } else if path == "layout.shadow.offset.y"@ {
        Some(("layout.shadow.offset.y", AccessorKind::Number))
    } else if path == "layout.focus_ring.off"@ {
        Some(("layout.focus_ring.off", AccessorKind::Flag))
    } else if path == "layout.focus_ring.width"@ {
        Some(("layout.focus_ring.width", AccessorKind::Number))
    } else if path == "layout.border.off"@ {
        Some(("layout.border.off", AccessorKind::Flag))
    } else if path == "layout.border.width"@ {
        Some(("layout.border.width", AccessorKind::Number))
    } else if path == "layout.always_center_single_column"@ {
        Some(("layout.always_center_single_column", AccessorKind::Flag))
    } else if path == "layout.empty_workspace_above_first"@ {
        Some(("layout.empty_workspace_above_first", AccessorKind::Flag))
    } else if path == "layout.tab_indicator.off"@ {
        Some(("layout.tab_indicator.off", AccessorKind::Flag))
    } else if path == "layout.tab_indicator.hide_when_single_tab"@ {
        Some(("layout.tab_indicator.hide_when_single_tab", AccessorKind::Flag))
    } else if path == "layout.tab_indicator.place_within_column"@ {
        Some(("layout.tab_indicator.place_within_column", AccessorKind::Flag))
    } else if path == "layout.tab_indicator.gap"@ {
        Some(("layout.tab_indicator.gap", AccessorKind::Number))
    } else if path == "layout.tab_indicator.width"@ {
        Some(("layout.tab_indicator.width", AccessorKind::Number))
    } else if path == "layout.tab_indicator.gaps_between_tabs"@ {
        Some(("layout.tab_indicator.gaps_between_tabs", AccessorKind::Number))
    } else if path == "layout.tab_indicator.corner_radius"@ {
        Some(("layout.tab_indicator.corner_radius", AccessorKind::Number))
    } else if path == "layout.tab_indicator.position"@ {
        Some(("layout.tab_indicator.position", AccessorKind::Choice { set: ChoiceSet::TabIndicatorPosition, optional: false, normalize: false }))
    } else if path == "layout.insert_hint.off"@ {
        Some(("layout.insert_hint.off", AccessorKind::Flag))
    } else if path == "gestures.dnd_edge_view_scroll.trigger_width"@ {
        Some(("gestures.dnd_edge_view_scroll.trigger_width", AccessorKind::Number))
    } else if path == "gestures.dnd_edge_view_scroll.delay_ms"@ {
        Some(("gestures.dnd_edge_view_scroll.delay_ms", AccessorKind::Integer(IntRange::U16)))
    } else if path == "gestures.dnd_edge_view_scroll.max_speed"@ {
        Some(("gestures.dnd_edge_view_scroll.max_speed", AccessorKind::Number))
    } else if path == "gestures.dnd_edge_workspace_switch.trigger_height"@ {
        Some(("gestures.dnd_edge_workspace_switch.trigger_height", AccessorKind::Number))
    } else if path == "gestures.dnd_edge_workspace_switch.delay_ms"@ {
        Some(("gestures.dnd_edge_workspace_switch.delay_ms", AccessorKind::Integer(IntRange::U16)))
    } else if path == "gestures.dnd_edge_workspace_switch.max_speed"@ {
        Some(("gestures.dnd_edge_workspace_switch.max_speed", AccessorKind::Number))
    } else if path == "gestures.hot_corners.off"@ {
        Some(("gestures.hot_corners.off", AccessorKind::Flag))
    } else if path == "gestures.hot_corners.top_left"@ {
        Some(("gestures.hot_corners.top_left", AccessorKind::Flag))
    } else if path == "gestures.hot_corners.top_right"@ {
        Some(("gestures.hot_corners.top_right", AccessorKind::Flag))
    } else if path == "gestures.hot_corners.bottom_left"@ {
        Some(("gestures.hot_corners.bottom_left", AccessorKind::Flag))
    } else if path == "gestures.hot_corners.bottom_right"@ {
        Some(("gestures.hot_corners.bottom_right", AccessorKind::Flag))
    } else if path == "overview.zoom"@ {
        Some(("overview.zoom", AccessorKind::Number))
    } else if path == "overview.workspace_shadow.off"@ {
        Some(("overview.workspace_shadow.off", AccessorKind::Flag))
    } else if path == "overview.workspace_shadow.softness"@ {
        Some(("overview.workspace_shadow.softness", AccessorKind::Number))
    } else if path == "overview.workspace_shadow.spread"@ {
        Some(("overview.workspace_shadow.spread", AccessorKind::Number))
    } else if path == "overview.workspace_shadow.offset.x"@ {
        Some(("overview.workspace_shadow.offset.x", AccessorKind::Number))
    } else if path == "overview.workspace_shadow.offset.y"@ {
        Some(("overview.workspace_shadow.offset.y", AccessorKind::Number))
    } else if path == "hotkey_overlay.hide_not_bound"@ {
        Some(("hotkey_overlay.hide_not_bound", AccessorKind::Flag))
    } else if path == "layout.default_column_display"@ {
        Some(("layout.default_column_display", AccessorKind::Choice { set: ChoiceSet::ColumnDisplay, optional: false, normalize: false }))
    } else {
        None
    }
}

/// The setting that the property at `path` reads and writes, and its kind.
pub fn accessor_lookup(path: &str) -> (r: Option<(&'static str, AccessorKind)>)
    ensures
        r == accessor_of(path@),
{
    if str_eq(path, "animations.off") {
        Some(("animations.off", AccessorKind::Flag))
    } else if str_eq(path, "animations.slowdown") {
        Some(("animations.slowdown", AccessorKind::Number))
    } else if str_eq(path, "input.mouse.natural_scroll") {
        Some(("input.mouse.natural_scroll", AccessorKind::Flag))
    } else if str_eq(path, "input.mouse.accel_speed") {
        Some(("input.mouse.accel_speed", AccessorKind::Number))
    } else if str_eq(path, "input.mouse.accel_profile") {
        Some(("input.mouse.accel_profile", AccessorKind::Choice { set: ChoiceSet::AccelProfile, optional: true, normalize: false }))
    } else if str_eq(path, "input.mouse.scroll_method") {
        Some(("input.mouse.scroll_method", AccessorKind::Choice { set: ChoiceSet::ScrollMethod, optional: true, normalize: true }))
    } else if str_eq(path, "input.touchpad.tap") {
        Some(("input.touchpad.tap", AccessorKind::Flag))
    } else if str_eq(path, "input.touchpad.dwt") {
        Some(("input.touchpad.dwt", AccessorKind::Flag))
    } else if str_eq(path, "input.touchpad.dwtp") {
        Some(("input.touchpad.dwtp", AccessorKind::Flag))
    } else if str_eq(path, "input.touchpad.drag") {
        Some(("input.touchpad.drag", AccessorKind::OptionalFlag))
    } else if str_eq(path, "input.touchpad.drag_lock") {
        Some(("input.touchpad.drag_lock", AccessorKind::Flag))
    } else if str_eq(path, "input.touchpad.natural_scroll") {
        Some(("input.touchpad.natural_scroll", AccessorKind::Flag))
    } else if str_eq(path, "input.touchpad.accel_speed") {
        Some(("input.touchpad.accel_speed", AccessorKind::Number))
    } else if str_eq(path, "input.touchpad.accel_profile") {
        Some(("input.touchpad.accel_profile", AccessorKind::Choice { set: ChoiceSet::AccelProfile, optional: true, normalize: false }))
    } else if str_eq(path, "input.touchpad.tap_button_map") {
        Some(("input.touchpad.tap_button_map", AccessorKind::Choice { set: ChoiceSet::TapButtonMap, optional: true, normalize: true }))
    } else if str_eq(path, "input.touchpad.scroll_method") {
        Some(("input.touchpad.scroll_method", AccessorKind::Choice { set: ChoiceSet::ScrollMethod, optional: true, normalize: true }))
    } else if str_eq(path, "input.touch.off") {
        Some(("input.touch.off", AccessorKind::Flag))
    } else if str_eq(path, "input.touch.natural_scroll") {
        Some(("input.touch.natural_scroll", AccessorKind::Flag))
    } else if str_eq(path, "input.touch.map_to_output") {
        Some(("input.touch.map_to_output", AccessorKind::OptionalText))
    } else if str_eq(path, "input.trackpoint.natural_scroll") {
        Some(("input.trackpoint.natural_scroll", AccessorKind::Flag))
    } else if str_eq(path, "input.trackpoint.accel_speed") {
        Some(("input.trackpoint.accel_speed", AccessorKind::Number))
    } else if str_eq(path, "input.trackpoint.accel_profile") {
        Some(("input.trackpoint.accel_profile", AccessorKind::Choice { set: ChoiceSet::AccelProfile, optional: true, normalize: false }))
    } else if str_eq(path, "input.trackball.natural_scroll") {
        Some(("input.trackball.natural_scroll", AccessorKind::Flag))
    } else if str_eq(path, "input.trackball.accel_speed") {
        Some(("input.trackball.accel_speed", AccessorKind::Number))
    } else if str_eq(path, "input.trackball.accel_profile") {
        Some(("input.trackball.accel_profile", AccessorKind::Choice { set: ChoiceSet::AccelProfile, optional: true, normalize: false }))
    } else if str_eq(path, "clipboard.disable_primary") {
        Some(("clipboard.disable_primary", AccessorKind::Flag))
    } else if str_eq(path, "screenshot_path") {
        Some(("screenshot_path", AccessorKind::OptionalText))
    } else if str_eq(path, "hotkey_overlay.skip_at_startup") {
        Some(("hotkey_overlay.skip_at_startup", AccessorKind::Flag))
    } else if str_eq(path, "config_notification.disable_failed") {
        Some(("config_notification.disable_failed", AccessorKind::Flag))
    } else if str_eq(path, "cursor.xcursor_theme") {
        Some(("cursor.xcursor_theme", AccessorKind::Text))
    } else if str_eq(path, "cursor.xcursor_size") {
        Some(("cursor.xcursor_size", AccessorKind::Integer(IntRange::U8)))
    } else if str_eq(path, "cursor.hide_when_typing") {
        Some(("cursor.hide_when_typing", AccessorKind::Flag))
    } else if str_eq(path, "cursor.hide_after_inactive_ms") {
        Some(("cursor.hide_after_inactive_ms", AccessorKind::OptionalInteger(IntRange::U32)))
    } else if str_eq(path, "debug.preview_render") {
        Some(("debug.preview_render", AccessorKind::Choice { set: ChoiceSet::PreviewRender, optional: true, normalize: false }))
    } else if str_eq(path, "debug.dbus_interfaces_in_non_session_instances") {
        Some(("debug.dbus_interfaces_in_non_session_instances", AccessorKind::Flag))
    } else if str_eq(path, "debug.wait_for_frame_completion_before_queueing") {
        Some(("debug.wait_for_frame_completion_before_queueing", AccessorKind::Flag))
    } else if str_eq(path, "debug.enable_overlay_planes") {
        Some(("debug.enable_overlay_planes", AccessorKind::Flag))
    } else if str_eq(path, "debug.disable_cursor_plane") {
        Some(("debug.disable_cursor_plane", AccessorKind::Flag))
    } else if str_eq(path, "debug.disable_direct_scanout") {
        Some(("debug.disable_direct_scanout", AccessorKind::Flag))
    } else if str_eq(path, "debug.keep_max_bpc_unchanged") {
        Some(("debug.keep_max_bpc_unchanged", AccessorKind::Flag))
    } else if str_eq(path, "debug.restrict_primary_scanout_to_matching_format") {
        Some(("debug.restrict_primary_scanout_to_matching_format", AccessorKind::Flag))
    } else if str_eq(path, "debug.force_disable_connectors_on_resume") {
        Some(("debug.force_disable_connectors_on_resume", AccessorKind::Flag))
    } else if str_eq(path, "debug.render_drm_device") {
        Some(("debug.render_drm_device", AccessorKind::OptionalText))
    } else if str_eq(path, "debug.force_pipewire_invalid_modifier") {
        Some(("debug.force_pipewire_invalid_modifier", AccessorKind::Flag))
    } else if str_eq(path, "debug.emulate_zero_presentation_time") {
        Some(("debug.emulate_zero_presentation_time", AccessorKind::Flag))
    } else if str_eq(path, "debug.disable_resize_throttling") {
        Some(("debug.disable_resize_throttling", AccessorKind::Flag))
    } else if str_eq(path, "debug.disable_transactions") {
        Some(("debug.disable_transactions", AccessorKind::Flag))
    } else if str_eq(path, "debug.keep_laptop_panel_on_when_lid_is_closed") {
        Some(("debug.keep_laptop_panel_on_when_lid_is_closed", AccessorKind::Flag))
    } else if str_eq(path, "debug.disable_monitor_names") {
        Some(("debug.disable_monitor_names", AccessorKind::Flag))
    } else if str_eq(path, "debug.strict_new_window_focus_policy") {
        Some(("debug.strict_new_window_focus_policy", AccessorKind::Flag))
    } else if str_eq(path, "debug.honor_xdg_activation_with_invalid_serial") {
        Some(("debug.honor_xdg_activation_with_invalid_serial", AccessorKind::Flag))
    } else if str_eq(path, "debug.deactivate_unfocused_windows") {
        Some(("debug.deactivate_unfocused_windows", AccessorKind::Flag))
    } else if str_eq(path, "debug.skip_cursor_only_updates_during_vrr") {
        Some(("debug.skip_cursor_only_updates_during_vrr", AccessorKind::Flag))
    } else if str_eq(path, "layout.gaps") {
        Some(("layout.gaps", AccessorKind::Number))
    } else if str_eq(path, "layout.center_focused_column") {
        Some(("layout.center_focused_column", AccessorKind::Choice { set: ChoiceSet::CenterFocusedColumn, optional: false, normalize: false }))
    } else if str_eq(path, "layout.struts.left") {
        Some(("layout.struts.left", AccessorKind::Number))
    } else if str_eq(path, "layout.struts.right") {
        Some(("layout.struts.right", AccessorKind::Number))
    } else if str_eq(path, "layout.struts.top") {
        Some(("layout.struts.top", AccessorKind::Number))
    } else if str_eq(path, "layout.struts.bottom") {
        Some(("layout.struts.bottom", AccessorKind::Number))
    } else if str_eq(path, "layout.shadow.on") {
        Some(("layout.shadow.on", AccessorKind::Flag))
    } else if str_eq(path, "layout.shadow.off") {
        Some(("layout.shadow.on", AccessorKind::InvertedFlag))
    } else if str_eq(path, "layout.shadow.softness") {
        Some(("layout.shadow.softness", AccessorKind::Number))
    } else if str_eq(path, "layout.shadow.spread") {
        Some(("layout.shadow.spread", AccessorKind::Number))
    } else if str_eq(path, "layout.shadow.draw_behind_window") {
        Some(("layout.shadow.draw_behind_window", AccessorKind::Flag))
    } else if str_eq(path, "layout.shadow.offset.x") {
        Some(("layout.shadow.offset.x", AccessorKind::Number))
    } else if str_eq(path, "layout.shadow.offset.y") {
        Some(("layout.shadow.offset.y", AccessorKind::Number))
    } else if str_eq(path, "layout.focus_ring.off") {
        Some(("layout.focus_ring.off", AccessorKind::Flag))
    } else if str_eq(path, "layout.focus_ring.width") {
        Some(("layout.focus_ring.width", AccessorKind::Number))
    } else if str_eq(path, "layout.border.off") {
        Some(("layout.border.off", AccessorKind::Flag))
    } else if str_eq(path, "layout.border.width") {
        Some(("layout.border.width", AccessorKind::Number))
    } else if str_eq(path, "layout.always_center_single_column") {
        Some(("layout.always_center_single_column", AccessorKind::Flag))
    } else if str_eq(path, "layout.empty_workspace_above_first") {
        Some(("layout.empty_workspace_above_first", AccessorKind::Flag))
    } else if str_eq(path, "layout.tab_indicator.off") {
        Some(("layout.tab_indicator.off", AccessorKind::Flag))
    } else if str_eq(path, "layout.tab_indicator.hide_when_single_tab") {
        Some(("layout.tab_indicator.hide_when_single_tab", AccessorKind::Flag))
    } else if str_eq(path, "layout.tab_indicator.place_within_column") {
        Some(("layout.tab_indicator.place_within_column", AccessorKind::Flag))
    } else if str_eq(path, "layout.tab_indicator.gap") {
        Some(("layout.tab_indicator.gap", AccessorKind::Number))
    } else if str_eq(path, "layout.tab_indicator.width") {
        Some(("layout.tab_indicator.width", AccessorKind::Number))
    } else if str_eq(path, "layout.tab_indicator.gaps_between_tabs") {
        Some(("layout.tab_indicator.gaps_between_tabs", AccessorKind::Number))
    } else if str_eq(path, "layout.tab_indicator.corner_radius") {
        Some(("layout.tab_indicator.corner_radius", AccessorKind::Number))
    } else if str_eq(path, "layout.tab_indicator.position") {
        Some(("layout.tab_indicator.position", AccessorKind::Choice { set: ChoiceSet::TabIndicatorPosition, optional: false, normalize: false }))
    } else if str_eq(path, "layout.insert_hint.off") {
        Some(("layout.insert_hint.off", AccessorKind::Flag))
    } else if str_eq(path, "gestures.dnd_edge_view_scroll.trigger_width") {
        Some(("gestures.dnd_edge_view_scroll.trigger_width", AccessorKind::Number))
    } else if str_eq(path, "gestures.dnd_edge_view_scroll.delay_ms") {
        Some(("gestures.dnd_edge_view_scroll.delay_ms", AccessorKind::Integer(IntRange::U16)))
    } else if str_eq(path, "gestures.dnd_edge_view_scroll.max_speed") {
        Some(("gestures.dnd_edge_view_scroll.max_speed", AccessorKind::Number))
    } else if str_eq(path, "gestures.dnd_edge_workspace_switch.trigger_height") {
        Some(("gestures.dnd_edge_workspace_switch.trigger_height", AccessorKind::Number))
    } else if str_eq(path, "gestures.dnd_edge_workspace_switch.delay_ms") {
        Some(("gestures.dnd_edge_workspace_switch.delay_ms", AccessorKind::Integer(IntRange::U16)))
    } else if str_eq(path, "gestures.dnd_edge_workspace_switch.max_speed") {
        Some(("gestures.dnd_edge_workspace_switch.max_speed", AccessorKind::Number))
    } else if str_eq(path, "gestures.hot_corners.off") {
        Some(("gestures.hot_corners.off", AccessorKind::Flag))
    } else if str_eq(path, "gestures.hot_corners.top_left") {
        Some(("gestures.hot_corners.top_left", AccessorKind::Flag))
    } else if str_eq(path, "gestures.hot_corners.top_right") {
        Some(("gestures.hot_corners.top_right", AccessorKind::Flag))
    } else if str_eq(path, "gestures.hot_corners.bottom_left") {
        Some(("gestures.hot_corners.bottom_left", AccessorKind::Flag))
    } else if str_eq(path, "gestures.hot_corners.bottom_right") {
        Some(("gestures.hot_corners.bottom_right", AccessorKind::Flag))
    } else if str_eq(path, "overview.zoom") {
        Some(("overview.zoom", AccessorKind::Number))
    } else if str_eq(path, "overview.workspace_shadow.off") {
        Some(("overview.workspace_shadow.off", AccessorKind::Flag))
    } else if str_eq(path, "overview.workspace_shadow.softness") {
        Some(("overview.workspace_shadow.softness", AccessorKind::Number))
    } else if str_eq(path, "overview.workspace_shadow.spread") {
        Some(("overview.workspace_shadow.spread", AccessorKind::Number))
    } else if str_eq(path, "overview.workspace_shadow.offset.x") {
        Some(("overview.workspace_shadow.offset.x", AccessorKind::Number))
    } else if str_eq(path, "overview.workspace_shadow.offset.y") {
        Some(("overview.workspace_shadow.offset.y", AccessorKind::Number))
    } else if str_eq(path, "hotkey_overlay.hide_not_bound") {
        Some(("hotkey_overlay.hide_not_bound", AccessorKind::Flag))
    } else if str_eq(path, "layout.default_column_display") {
        Some(("layout.default_column_display", AccessorKind::Choice { set: ChoiceSet::ColumnDisplay, optional: false, normalize: false }))
    } else {
        None
    }
}

/// The first of `words` that is `t`.
fn choose_word(words: &Vec<&'static str>, t: &str) -> (r: Option<&'static str>)
    ensures
        r == word_matching(words@, t@),
{
    let mut i: usize = 0;
    assert(words@.skip(0) =~= words@);
    while i < words.len()
        invariant
            i <= words@.len(),
            word_matching(words@, t@) == word_matching(words@.skip(i as int), t@),
        decreases words@.len() - i,
    {
        assert(words@.skip(i as int).drop_first() =~= words@.skip(i + 1));
        if str_eq(words[i], t) {
            return Some(words[i]);
        }
        i = i + 1;
    }
    None
}

/// `s` with every `-` turned into `_`, then lower-cased.
fn normalized_text(s: &str) -> (r: String)
    ensures
        r@ == lowercase_text(dashes_to_underscores(s@)),
{
    let cs = chars_of(s);
    let mut out: Vec<char> = Vec::new();
    let mut i: usize = 0;
    while i < cs.len()
        invariant
            i <= cs@.len(),
            cs@ == s@,
            out@ == dashes_to_underscores(cs@.take(i as int)),
        decreases cs@.len() - i,
    {
        let c = cs[i];
        out.push(if c == '-' { '_' } else { c });
        assert(dashes_to_underscores(cs@.take(i + 1)) =~= dashes_to_underscores(cs@.take(i as int)).push(
            if c == '-' { '_' } else { c },
        ));
        i = i + 1;
    }
    assert(cs@.take(cs@.len() as int) =~= cs@);
    let joined = string_from_chars(out.as_slice());
    lowercase_of(joined.as_str())
}

/// The largest value of an integer type.
fn int_limit(t: IntRange) -> (r: i64)
    ensures
        r == int_max(t),
{
    match t {
        IntRange::U8 => 255,
        IntRange::U16 => 65535,
        IntRange::U32 => 4294967295,
    }
}

fn store_integer<F>(t: IntRange, i: i64) -> (r: SettingValue<F>)
    requires
        0 <= i <= int_max(t),
    ensures
        r == stored_integer::<F>(t, i),
{
    match t {
        IntRange::U8 => SettingValue::Byte(i as u8),
        IntRange::U16 => SettingValue::Short(i as u16),
        IntRange::U32 => SettingValue::Wide(i as u32),
    }
}

fn pick_word(path: &str, set: ChoiceSet, normalize: bool, s: String) -> (r: Result<&'static str, PropertyError>)
    ensures
        match word_matching(choice_words(set), choice_text(s@, normalize)) {
            Some(w) => r == Ok::<&'static str, PropertyError>(w),
            None => r matches Err(PropertyError::InvalidChoice(m))
                && m@ == invalid_choice_text(path@, choice_text(s@, normalize)),
        },
{
    let t = if normalize { normalized_text(s.as_str()) } else { s };
    let words = choice_list(set);
    match choose_word(&words, t.as_str()) {
        Some(w) => Ok(w),
        None => {
            let mut m = String::from_str("invalid ");
            m.append(path);
            m.append(" value: ");
            m.append(t.as_str());
            Err(PropertyError::InvalidChoice(m))
        },
    }
}

/// The setting value that a property of kind `k` at `path` takes from `v`.
fn property_value<F: Copy>(path: &str, k: AccessorKind, v: PropertyInput<F>) -> (r: Result<SettingValue<F>, PropertyError>)
    ensures
        match accessor_value(k, v) {
            Some(x) => r matches Ok(y) && y == x,
            None => r matches Err(e) && refusal(path@, k, v, e),
        },
{
    match (k, v) {
        (AccessorKind::Flag, PropertyInput::Flag(b)) => Ok(SettingValue::Flag(b)),
        (AccessorKind::InvertedFlag, PropertyInput::Flag(b)) => Ok(SettingValue::Flag(!b)),
        (AccessorKind::OptionalFlag, PropertyInput::OptionalFlag(o)) => Ok(
            match o { Some(b) => SettingValue::Flag(b), None => SettingValue::Unset },
        ),
        (AccessorKind::Integer(t), PropertyInput::Integer(i)) => if 0 <= i && i <= int_limit(t) {
            Ok(store_integer(t, i))
        } else {
            Err(PropertyError::OutOfRange)
        },
        (AccessorKind::OptionalInteger(t), PropertyInput::OptionalInteger(o)) => match o {
            Some(i) => if 0 <= i && i <= int_limit(t) { Ok(store_integer(t, i)) } else { Err(PropertyError::OutOfRange) },
            None => Ok(SettingValue::Unset),
        },
        (AccessorKind::Number, PropertyInput::Number(f)) => Ok(SettingValue::Number(JsonNumber::Float(f))),
        (AccessorKind::Text, PropertyInput::Text(s)) => Ok(SettingValue::Text(s)),
        (AccessorKind::OptionalText, PropertyInput::OptionalText(o)) => Ok(
            match o { Some(s) => SettingValue::Text(s), None => SettingValue::Unset },
        ),
        (AccessorKind::Choice { set, optional, normalize }, PropertyInput::Text(s)) => if !optional {
            match pick_word(path, set, normalize, s) {
                Ok(w) => Ok(SettingValue::Word(Some(w))),
                Err(e) => Err(e),
            }
        } else {
            Err(PropertyError::WrongInput)
        },
        (AccessorKind::Choice { set, optional, normalize }, PropertyInput::OptionalText(o)) => if optional {
            match o {
                Some(s) => match pick_word(path, set, normalize, s) {
                    Ok(w) => Ok(SettingValue::Word(Some(w))),
                    Err(e) => Err(e),
                },
                None => Ok(SettingValue::Word(None)),
            }
        } else {
            Err(PropertyError::WrongInput)
        },
        _ => Err(PropertyError::WrongInput),
    }
}

/// Write `value` to the property at `path`: its setting takes the value, or,
/// when the path names no property or the value is refused, nothing changes.
pub fn write_property<F: Copy>(settings: &mut Vec<Setting<F>>, path: &str, value: PropertyInput<F>) -> (r: Result<(), PropertyError>)
    ensures
        match accessor_of(path@) {
            None => r matches Err(PropertyError::Unknown) && final(settings)@ == old(settings)@,
            Some((field, k)) => match accessor_value(k, value) {
                Some(x) => r is Ok && final(settings)@ == set_in(old(settings)@, field, x),
                None => r matches Err(e) && refusal(path@, k, value, e) && final(settings)@ == old(settings)@,
            },
        },
{
    let (field, k) = match accessor_lookup(path) {
        Some(p) => p,
        None => return Err(PropertyError::Unknown),
    };
    match property_value(path, k, value) {
        Ok(x) => {
            set_setting(settings, field, x);
            Ok(())
        },
        Err(e) => Err(e),
    }
}

/// Assign `value` to the property at `path` through the configuration
/// proxy: the property is written, and then its section (`dirty_flag`, as
/// the property registry gives it) and its path are marked dirty; a refused
/// value changes nothing.
pub fn assign_property<F: Copy>(
    settings: &mut Vec<Setting<F>>,
    flags: &mut ConfigDirtyFlags,
    path: &str,
    dirty_flag: DirtyFlag,
    value: PropertyInput<F>,
) -> (r: Result<(), PropertyError>)
    ensures
        match accessor_of(path@) {
            None => r matches Err(PropertyError::Unknown),
            Some((field, k)) => match accessor_value(k, value) {
                Some(x) => r is Ok && final(settings)@ == set_in(old(settings)@, field, x),
                None => r matches Err(e) && refusal(path@, k, value, e),
            },
        },
        r is Ok ==> final(flags).same_flags(old(flags).with_flag(dirty_flag))
            && final(flags).paths() == with_path(old(flags).paths(), path@),
        r is Err ==> final(settings)@ == old(settings)@ && *final(flags) == *old(flags),
{
    let r = write_property(settings, path, value);
    if r.is_ok() {
        flags.mark(dirty_flag);
        flags.mark_dirty(path);
    }
    r
}

fn find_setting<F>(settings: &Vec<Setting<F>>, field: &'static str) -> (r: Option<usize>)
    ensures
        match r {
            Some(i) => i == setting_index(settings@, field) && i < settings@.len(),
            None => setting_index(settings@, field) == -1,
        },
{
    proof { crate::pending::lemma_setting_index(settings@, field); }
    let f = chars_of(field);
    let mut i: usize = 0;
    while i < settings.len()
        invariant
            i <= settings@.len(),
            f@ == field@,
            forall|j: int| 0 <= j < i ==> #[trigger] settings@[j].field@ != field@,
        decreases settings@.len() - i,
    {
        let g = chars_of(settings[i].field);
        if crate::text::eq_lit(&g, field) {
            proof {
                crate::pending::lemma_setting_index(settings@, field);
                let k = setting_index(settings@, field);
                assert(settings@[i as int].field@ == field@);
                if k >= 0 && k < i {
                    assert(settings@[k].field@ != field@);
                }
            }
            return Some(i);
        }
        i = i + 1;
    }
    proof {
        crate::pending::lemma_setting_index(settings@, field);
        let k = setting_index(settings@, field);
        if k >= 0 {
            assert(settings@[k].field@ != field@);
        }
    }
    None
}

/// `s` with every `-` turned into `_`.
fn underscored(s: &str) -> (r: String)
    ensures
        r@ == dashes_to_underscores(s@),
{
    let cs = chars_of(s);
    let mut out: Vec<char> = Vec::new();
    let mut i: usize = 0;
    while i < cs.len()
        invariant
            i <= cs@.len(),
            cs@ == s@,
            out@ == dashes_to_underscores(cs@.take(i as int)),
        decreases cs@.len() - i,
    {
        let c = cs[i];
        out.push(if c == '-' { '_' } else { c });
        assert(dashes_to_underscores(cs@.take(i + 1)) =~= dashes_to_underscores(cs@.take(i as int)).push(
            if c == '-' { '_' } else { c },
        ));
        i = i + 1;
    }
    assert(cs@.take(cs@.len() as int) =~= cs@);
    string_from_chars(out.as_slice())
}

fn show<F: Copy>(k: AccessorKind, v: &SettingValue<F>) -> (r: Option<PropertyOutput<F>>)
    ensures
        output_view(r) == shown(k, *v),
{
    match (k, v) {
        (AccessorKind::Flag, SettingValue::Flag(b)) => Some(PropertyOutput::Boolean(*b)),
        (AccessorKind::OptionalFlag, SettingValue::Flag(b)) => Some(PropertyOutput::Boolean(*b)),
        (AccessorKind::InvertedFlag, SettingValue::Flag(b)) => Some(PropertyOutput::Boolean(!*b)),
        (AccessorKind::Integer(_), SettingValue::Byte(b)) => Some(PropertyOutput::Integer(*b as i64)),
        (AccessorKind::Integer(_), SettingValue::Short(b)) => Some(PropertyOutput::Integer(*b as i64)),
        (AccessorKind::Integer(_), SettingValue::Wide(b)) => Some(PropertyOutput::Integer(*b as i64)),
        (AccessorKind::OptionalInteger(_), SettingValue::Byte(b)) => Some(PropertyOutput::Integer(*b as i64)),
        (AccessorKind::OptionalInteger(_), SettingValue::Short(b)) => Some(PropertyOutput::Integer(*b as i64)),
        (AccessorKind::OptionalInteger(_), SettingValue::Wide(b)) => Some(PropertyOutput::Integer(*b as i64)),
        (AccessorKind::Number, SettingValue::Number(JsonNumber::Float(f))) => Some(PropertyOutput::Number(*f)),
        (AccessorKind::Number, SettingValue::Number(JsonNumber::NegInt(i))) => Some(PropertyOutput::Integer(*i)),
        (AccessorKind::Number, SettingValue::Number(JsonNumber::PosInt(u))) => if *u <= 9223372036854775807u64 {
            Some(PropertyOutput::Integer(*u as i64))
        } else {
            None
        },
        (AccessorKind::Text, SettingValue::Text(s)) => Some(PropertyOutput::Text(s.clone())),
        (AccessorKind::OptionalText, SettingValue::Text(s)) => Some(PropertyOutput::Text(s.clone())),
        (AccessorKind::Choice { .. }, SettingValue::Word(Some(w))) => Some(PropertyOutput::Text(underscored(w))),
        (AccessorKind::Choice { optional, .. }, SettingValue::Word(None)) => if optional {
            Some(PropertyOutput::Nil)
        } else {
            None
        },
        (AccessorKind::OptionalFlag, SettingValue::Unset) => Some(PropertyOutput::Nil),
        (AccessorKind::OptionalInteger(_), SettingValue::Unset) => Some(PropertyOutput::Nil),
        (AccessorKind::OptionalText, SettingValue::Unset) => Some(PropertyOutput::Nil),
        _ => None,
    }
}

/// Read the property at `path`: from the values set (`settings`), or else
/// from the configuration's values before any was set (`defaults`).
pub fn read_property<F: Copy>(settings: &Vec<Setting<F>>, defaults: &Vec<Setting<F>>, path: &str) -> (r: Option<PropertyOutput<F>>)
    ensures
        output_view(r) == property_view(settings@, defaults@, path@),
{
    let (field, k) = match accessor_lookup(path) {
        Some(p) => p,
        None => return None,
    };
    match find_setting(settings, field) {
        Some(i) => show(k, &settings[i].value),
        None => match find_setting(defaults, field) {
            Some(i) => show(k, &defaults[i].value),
            None => None,
        },
    }
}

} // verus!
