//! Scalar configuration settings named by dotted paths, as the reactive
//! configuration API records them: which setting a path names, and the value
//! it takes from a JSON value.
use vstd::prelude::*;
use vstd::utf8::encode_utf8;
use crate::color::{color_text, color_text_cuts, color_text_cuts_char, parse_hex_color, Rgba8};
use crate::json::{as_bool, as_i64, as_text, as_u64, field_of, Json, JsonNumber};
use crate::text::{chars_of, eq_lit, split_chars, split_on};

verus! {

/// How a setting reads its JSON value.
#[derive(PartialEq, Eq, Structural, Clone, Copy, Debug)]
pub enum LeafKind {
    /// A boolean.
    Flag,
    /// A boolean, stored negated.
    InvertedFlag,
    /// Any number.
    Number,
    /// A non-negative integer, truncated to 16 bits.
    Short,
    /// A non-negative integer, truncated to 8 bits.
    Byte,
    /// A non-negative integer, truncated to 32 bits.
    OptionalWide,
    /// A string.
    Text,
    /// A string, for an optional setting.
    OptionalText,
    /// A color.
    Color,
    /// A color, for an optional setting.
    OptionalColor,
    /// `never`, `always` or `on-overflow`; another string is refused.
    CenterFocusedColumn,
    /// `adaptive` or `flat`; another string unsets the setting.
    AccelProfile,
    /// `left-right-middle` or `left-middle-right`; another string unsets it.
    TapButtonMap,
    /// `no-scroll`, `two-finger`, `edge` or `on-button-down`; another string
    /// unsets it.
    ScrollMethod,
    /// `no-scroll` or `on-button-down`; another string unsets it.
    TrackpointScrollMethod,
    /// `button-areas` or `clickfinger`; another string unsets it.
    ClickMethod,
    /// An array of preset sizes (elements that are none are skipped).
    Presets,
    /// A preset size.
    Preset,
    /// A table with an optional `max_scroll_amount` number, or a boolean.
    FocusFollowsMouse,
    /// A boolean.
    WarpMouseToFocus,
}

/// A preset size: a proportion, a fixed size in pixels, or a float that is a
/// proportion when it lies in (0, 1] and a fixed size (truncated) otherwise.
#[derive(Clone, Copy)]
pub enum PresetSize<F> {
    Proportion(JsonNumber<F>),
    Fixed(i32),
    Number(F),
}

/// The value that a setting takes.
pub enum SettingValue<F> {
    Flag(bool),
    Number(JsonNumber<F>),
    Short(u16),
    Byte(u8),
    Wide(u32),
    Text(String),
    Color(Rgba8),
    /// The word that names the choice, or none for an unknown word.
    Word(Option<&'static str>),
    /// An optional setting that is unset.
    Unset,
    Presets(Vec<PresetSize<F>>),
    Preset(PresetSize<F>),
    /// Unset, or set with an optional maximum scroll amount.
    FollowMouse(Option<Option<JsonNumber<F>>>),
    Warp(bool),
}

/// The texts of a sequence of character vectors.
pub open spec fn views(parts: Seq<Vec<char>>) -> Seq<Seq<char>> {
    parts.map_values(|v: Vec<char>| v@)
}

/// `parts` starts with the components `l`.
pub open spec fn has_prefix(parts: Seq<Seq<char>>, l: Seq<Seq<char>>) -> bool {
    l.len() <= parts.len() && parts.take(l.len() as int) =~= l
}

proof fn lemma_prefix_at(parts: Seq<Seq<char>>, l: Seq<Seq<char>>, i: int)
    requires
        has_prefix(parts, l),
        0 <= i < l.len(),
    ensures
        parts[i] == l[i],
{
    assert(parts.take(l.len() as int)[i] == l[i]);
}

fn prefix1(parts: &Vec<Vec<char>>, a: &str) -> (r: bool)
    ensures
        r == has_prefix(views(parts@), seq![a@]),
{
    proof {
        if has_prefix(views(parts@), seq![a@]) {
            lemma_prefix_at(views(parts@), seq![a@], 0);
        }
    }
    let r = parts.len() >= 1 && eq_lit(&parts[0], a);
    assert(r ==> views(parts@).take(1) =~= seq![a@]);
    r
}

fn prefix2(parts: &Vec<Vec<char>>, a: &str, b: &str) -> (r: bool)
    ensures
        r == has_prefix(views(parts@), seq![a@, b@]),
{
    proof {
        if has_prefix(views(parts@), seq![a@, b@]) {
            lemma_prefix_at(views(parts@), seq![a@, b@], 0);
            lemma_prefix_at(views(parts@), seq![a@, b@], 1);
        }
    }
    let r = parts.len() >= 2 && eq_lit(&parts[0], a) && eq_lit(&parts[1], b);
    assert(r ==> views(parts@).take(2) =~= seq![a@, b@]);
    r
}

fn prefix3(parts: &Vec<Vec<char>>, a: &str, b: &str, c: &str) -> (r: bool)
    ensures
        r == has_prefix(views(parts@), seq![a@, b@, c@]),
{
    proof {
        if has_prefix(views(parts@), seq![a@, b@, c@]) {
            lemma_prefix_at(views(parts@), seq![a@, b@, c@], 0);
            lemma_prefix_at(views(parts@), seq![a@, b@, c@], 1);
            lemma_prefix_at(views(parts@), seq![a@, b@, c@], 2);
        }
    }
    let r = parts.len() >= 3 && eq_lit(&parts[0], a) && eq_lit(&parts[1], b) && eq_lit(&parts[2], c);
    assert(r ==> views(parts@).take(3) =~= seq![a@, b@, c@]);
    r
}

fn prefix4(parts: &Vec<Vec<char>>, a: &str, b: &str, c: &str, d: &str) -> (r: bool)
    ensures
        r == has_prefix(views(parts@), seq![a@, b@, c@, d@]),
{
    proof {
        if has_prefix(views(parts@), seq![a@, b@, c@, d@]) {
            lemma_prefix_at(views(parts@), seq![a@, b@, c@, d@], 0);
            lemma_prefix_at(views(parts@), seq![a@, b@, c@, d@], 1);
            lemma_prefix_at(views(parts@), seq![a@, b@, c@, d@], 2);
            lemma_prefix_at(views(parts@), seq![a@, b@, c@, d@], 3);
        }
    }
    let r = parts.len() >= 4 && eq_lit(&parts[0], a) && eq_lit(&parts[1], b) && eq_lit(&parts[2], c)
        && eq_lit(&parts[3], d);
    assert(r ==> views(parts@).take(4) =~= seq![a@, b@, c@, d@]);
    r
}

/// The scalar setting that a change path names (its components, split at
/// `.`), with how it reads its value: the first component is the section,
/// the setting's components must follow it; further components are ignored.
pub open spec fn leaf_of(parts: Seq<Seq<char>>) -> Option<(&'static str, LeafKind)> {
    if has_prefix(parts, seq!["layout"@, "gaps"@]) {
        Some(("layout.gaps", LeafKind::Number))
    } else if has_prefix(parts, seq!["layout"@, "struts"@, "left"@]) {
        Some(("layout.struts.left", LeafKind::Number))
    } else if has_prefix(parts, seq!["layout"@, "struts"@, "right"@]) {
        Some(("layout.struts.right", LeafKind::Number))
    } else if has_prefix(parts, seq!["layout"@, "struts"@, "top"@]) {
        Some(("layout.struts.top", LeafKind::Number))
    } else if has_prefix(parts, seq!["layout"@, "struts"@, "bottom"@]) {
        Some(("layout.struts.bottom", LeafKind::Number))
    } else if has_prefix(parts, seq!["layout"@, "focus_ring"@, "off"@]) {
        Some(("layout.focus_ring.off", LeafKind::Flag))
    } else if has_prefix(parts, seq!["layout"@, "focus_ring"@, "width"@]) {
        Some(("layout.focus_ring.width", LeafKind::Number))
    } else if has_prefix(parts, seq!["layout"@, "focus_ring"@, "active_color"@]) {
        Some(("layout.focus_ring.active_color", LeafKind::Color))
    } else if has_prefix(parts, seq!["layout"@, "focus_ring"@, "inactive_color"@]) {
        Some(("layout.focus_ring.inactive_color", LeafKind::Color))
    } else if has_prefix(parts, seq!["layout"@, "border"@, "off"@]) {
        Some(("layout.border.off", LeafKind::Flag))
    } else if has_prefix(parts, seq!["layout"@, "border"@, "width"@]) {
        Some(("layout.border.width", LeafKind::Number))
    } else if has_prefix(parts, seq!["layout"@, "border"@, "active_color"@]) {
        Some(("layout.border.active_color", LeafKind::Color))
    } else if has_prefix(parts, seq!["layout"@, "border"@, "inactive_color"@]) {
        Some(("layout.border.inactive_color", LeafKind::Color))
    } else if has_prefix(parts, seq!["layout"@, "border"@, "urgent_color"@]) {
        Some(("layout.border.urgent_color", LeafKind::Color))
    } else if has_prefix(parts, seq!["layout"@, "shadow"@, "on"@]) {
        Some(("layout.shadow.on", LeafKind::Flag))
    } else if has_prefix(parts, seq!["layout"@, "shadow"@, "softness"@]) {
        Some(("layout.shadow.softness", LeafKind::Number))
    } else if has_prefix(parts, seq!["layout"@, "shadow"@, "spread"@]) {
        Some(("layout.shadow.spread", LeafKind::Number))
    } else if has_prefix(parts, seq!["layout"@, "shadow"@, "offset"@, "x"@]) {
        Some(("layout.shadow.offset.x", LeafKind::Number))
    } else if has_prefix(parts, seq!["layout"@, "shadow"@, "offset"@, "y"@]) {
        Some(("layout.shadow.offset.y", LeafKind::Number))
    } else if has_prefix(parts, seq!["layout"@, "shadow"@, "color"@]) {
        Some(("layout.shadow.color", LeafKind::Color))
    } else if has_prefix(parts, seq!["layout"@, "shadow"@, "inactive_color"@]) {
        Some(("layout.shadow.inactive_color", LeafKind::OptionalColor))
    } else if has_prefix(parts, seq!["layout"@, "always_center_single_column"@]) {
        Some(("layout.always_center_single_column", LeafKind::Flag))
    } else if has_prefix(parts, seq!["layout"@, "empty_workspace_above_first"@]) {
        Some(("layout.empty_workspace_above_first", LeafKind::Flag))
    } else if has_prefix(parts, seq!["layout"@, "center_focused_column"@]) {
        Some(("layout.center_focused_column", LeafKind::CenterFocusedColumn))
    } else if has_prefix(parts, seq!["layout"@, "preset_column_widths"@]) {
        Some(("layout.preset_column_widths", LeafKind::Presets))
    } else if has_prefix(parts, seq!["layout"@, "default_column_width"@]) {
        Some(("layout.default_column_width", LeafKind::Preset))
    } else if has_prefix(parts, seq!["layout"@, "preset_window_heights"@]) {
        Some(("layout.preset_window_heights", LeafKind::Presets))
    } else if has_prefix(parts, seq!["animations"@, "off"@]) {
        Some(("animations.off", LeafKind::Flag))
    } else if has_prefix(parts, seq!["animations"@, "slowdown"@]) {
        Some(("animations.slowdown", LeafKind::Number))
    } else if has_prefix(parts, seq!["input"@, "keyboard"@, "repeat_delay"@]) {
        Some(("input.keyboard.repeat_delay", LeafKind::Short))
    } else if has_prefix(parts, seq!["input"@, "keyboard"@, "repeat_rate"@]) {
        Some(("input.keyboard.repeat_rate", LeafKind::Byte))
    } else if has_prefix(parts, seq!["input"@, "keyboard"@, "numlock"@]) {
        Some(("input.keyboard.numlock", LeafKind::Flag))
    } else if has_prefix(parts, seq!["input"@, "keyboard"@, "xkb"@, "layout"@]) {
        Some(("input.keyboard.xkb.layout", LeafKind::Text))
    } else if has_prefix(parts, seq!["input"@, "keyboard"@, "xkb"@, "model"@]) {
        Some(("input.keyboard.xkb.model", LeafKind::Text))
    } else if has_prefix(parts, seq!["input"@, "keyboard"@, "xkb"@, "rules"@]) {
        Some(("input.keyboard.xkb.rules", LeafKind::Text))
    } else if has_prefix(parts, seq!["input"@, "keyboard"@, "xkb"@, "variant"@]) {
        Some(("input.keyboard.xkb.variant", LeafKind::Text))
    } else if has_prefix(parts, seq!["input"@, "keyboard"@, "xkb"@, "options"@]) {
        Some(("input.keyboard.xkb.options", LeafKind::OptionalText))
    } else if has_prefix(parts, seq!["input"@, "touchpad"@, "tap"@]) {
        Some(("input.touchpad.tap", LeafKind::Flag))
    } else if has_prefix(parts, seq!["input"@, "touchpad"@, "natural_scroll"@]) {
        Some(("input.touchpad.natural_scroll", LeafKind::Flag))
    } else if has_prefix(parts, seq!["input"@, "touchpad"@, "dwt"@]) {
        Some(("input.touchpad.dwt", LeafKind::Flag))
    } else if has_prefix(parts, seq!["input"@, "touchpad"@, "dwtp"@]) {
        Some(("input.touchpad.dwtp", LeafKind::Flag))
    } else if has_prefix(parts, seq!["input"@, "touchpad"@, "accel_speed"@]) {
        Some(("input.touchpad.accel_speed", LeafKind::Number))
    } else if has_prefix(parts, seq!["input"@, "touchpad"@, "accel_profile"@]) {
        Some(("input.touchpad.accel_profile", LeafKind::AccelProfile))
    } else if has_prefix(parts, seq!["input"@, "touchpad"@, "tap_button_map"@]) {
        Some(("input.touchpad.tap_button_map", LeafKind::TapButtonMap))
    } else if has_prefix(parts, seq!["input"@, "touchpad"@, "scroll_method"@]) {
        Some(("input.touchpad.scroll_method", LeafKind::ScrollMethod))
    } else if has_prefix(parts, seq!["input"@, "touchpad"@, "disabled_on_external_mouse"@]) {
        Some(("input.touchpad.disabled_on_external_mouse", LeafKind::Flag))
    } else if has_prefix(parts, seq!["input"@, "touchpad"@, "click_method"@]) {
        Some(("input.touchpad.click_method", LeafKind::ClickMethod))
    } else if has_prefix(parts, seq!["input"@, "mouse"@, "natural_scroll"@]) {
        Some(("input.mouse.natural_scroll", LeafKind::Flag))
    } else if has_prefix(parts, seq!["input"@, "mouse"@, "accel_speed"@]) {
        Some(("input.mouse.accel_speed", LeafKind::Number))
    } else if has_prefix(parts, seq!["input"@, "mouse"@, "accel_profile"@]) {
        Some(("input.mouse.accel_profile", LeafKind::AccelProfile))
    } else if has_prefix(parts, seq!["input"@, "mouse"@, "scroll_method"@]) {
        Some(("input.mouse.scroll_method", LeafKind::ScrollMethod))
    } else if has_prefix(parts, seq!["input"@, "trackpoint"@, "natural_scroll"@]) {
        Some(("input.trackpoint.natural_scroll", LeafKind::Flag))
    } else if has_prefix(parts, seq!["input"@, "trackpoint"@, "accel_speed"@]) {
        Some(("input.trackpoint.accel_speed", LeafKind::Number))
    } else if has_prefix(parts, seq!["input"@, "trackpoint"@, "accel_profile"@]) {
        Some(("input.trackpoint.accel_profile", LeafKind::AccelProfile))
    } else if has_prefix(parts, seq!["input"@, "trackpoint"@, "scroll_method"@]) {
        Some(("input.trackpoint.scroll_method", LeafKind::TrackpointScrollMethod))
    } else if has_prefix(parts, seq!["input"@, "touch"@, "off"@]) {
        Some(("input.touch.off", LeafKind::Flag))
    } else if has_prefix(parts, seq!["input"@, "touch"@, "natural_scroll"@]) {
        Some(("input.touch.natural_scroll", LeafKind::Flag))
    } else if has_prefix(parts, seq!["input"@, "touch"@, "map_to_output"@]) {
        Some(("input.touch.map_to_output", LeafKind::OptionalText))
    } else if has_prefix(parts, seq!["input"@, "workspace_auto_back_and_forth"@]) {
        Some(("input.workspace_auto_back_and_forth", LeafKind::Flag))
    } else if has_prefix(parts, seq!["input"@, "focus_follows_mouse"@]) {
        Some(("input.focus_follows_mouse", LeafKind::FocusFollowsMouse))
    } else if has_prefix(parts, seq!["input"@, "warp_mouse_to_focus"@]) {
        Some(("input.warp_mouse_to_focus", LeafKind::WarpMouseToFocus))
    } else if has_prefix(parts, seq!["cursor"@, "xcursor_theme"@]) {
        Some(("cursor.xcursor_theme", LeafKind::Text))
    } else if has_prefix(parts, seq!["cursor"@, "xcursor_size"@]) {
        Some(("cursor.xcursor_size", LeafKind::Byte))
    } else if has_prefix(parts, seq!["cursor"@, "hide_when_typing"@]) {
        Some(("cursor.hide_when_typing", LeafKind::Flag))
    } else if has_prefix(parts, seq!["cursor"@, "hide_after_inactive_ms"@]) {
        Some(("cursor.hide_after_inactive_ms", LeafKind::OptionalWide))
    } else if has_prefix(parts, seq!["gestures"@, "dnd_edge_view_scroll"@, "trigger_width"@]) {
        Some(("gestures.dnd_edge_view_scroll.trigger_width", LeafKind::Number))
    } else if has_prefix(parts, seq!["gestures"@, "dnd_edge_view_scroll"@, "delay_ms"@]) {
        Some(("gestures.dnd_edge_view_scroll.delay_ms", LeafKind::Short))
    } else if has_prefix(parts, seq!["gestures"@, "dnd_edge_view_scroll"@, "max_speed"@]) {
        Some(("gestures.dnd_edge_view_scroll.max_speed", LeafKind::Number))
    } else if has_prefix(parts, seq!["gestures"@, "dnd_edge_workspace_switch"@, "trigger_height"@]) {
        Some(("gestures.dnd_edge_workspace_switch.trigger_height", LeafKind::Number))
    } else if has_prefix(parts, seq!["gestures"@, "dnd_edge_workspace_switch"@, "delay_ms"@]) {
        Some(("gestures.dnd_edge_workspace_switch.delay_ms", LeafKind::Short))
    } else if has_prefix(parts, seq!["gestures"@, "dnd_edge_workspace_switch"@, "max_speed"@]) {
        Some(("gestures.dnd_edge_workspace_switch.max_speed", LeafKind::Number))
    } else if has_prefix(parts, seq!["gestures"@, "hot_corners"@, "off"@]) {
        Some(("gestures.hot_corners.off", LeafKind::Flag))
    } else if has_prefix(parts, seq!["overview"@, "zoom"@]) {
        Some(("overview.zoom", LeafKind::Number))
    } else if has_prefix(parts, seq!["overview"@, "backdrop_color"@]) {
        Some(("overview.backdrop_color", LeafKind::Color))
    } else if has_prefix(parts, seq!["overview"@, "workspace_shadow"@, "off"@]) {
        Some(("overview.workspace_shadow.off", LeafKind::Flag))
    } else if has_prefix(parts, seq!["overview"@, "workspace_shadow"@, "softness"@]) {
        Some(("overview.workspace_shadow.softness", LeafKind::Number))
    } else if has_prefix(parts, seq!["overview"@, "workspace_shadow"@, "spread"@]) {
        Some(("overview.workspace_shadow.spread", LeafKind::Number))
    } else if has_prefix(parts, seq!["overview"@, "workspace_shadow"@, "color"@]) {
        Some(("overview.workspace_shadow.color", LeafKind::Color))
    } else if has_prefix(parts, seq!["recent_windows"@, "off"@]) {
        Some(("recent_windows.off", LeafKind::InvertedFlag))
    } else if has_prefix(parts, seq!["recent_windows"@, "debounce_ms"@]) {
        Some(("recent_windows.debounce_ms", LeafKind::Short))
    } else if has_prefix(parts, seq!["recent_windows"@, "open_delay_ms"@]) {
        Some(("recent_windows.open_delay_ms", LeafKind::Short))
    } else if has_prefix(parts, seq!["recent_windows"@, "highlight"@, "active_color"@]) {
        Some(("recent_windows.highlight.active_color", LeafKind::Color))
    } else if has_prefix(parts, seq!["recent_windows"@, "highlight"@, "urgent_color"@]) {
        Some(("recent_windows.highlight.urgent_color", LeafKind::Color))
    } else if has_prefix(parts, seq!["recent_windows"@, "highlight"@, "padding"@]) {
        Some(("recent_windows.highlight.padding", LeafKind::Number))
    } else if has_prefix(parts, seq!["recent_windows"@, "highlight"@, "corner_radius"@]) {
        Some(("recent_windows.highlight.corner_radius", LeafKind::Number))
    } else if has_prefix(parts, seq!["recent_windows"@, "previews"@, "max_height"@]) {
        Some(("recent_windows.previews.max_height", LeafKind::Number))
    } else if has_prefix(parts, seq!["recent_windows"@, "previews"@, "max_scale"@]) {
        Some(("recent_windows.previews.max_scale", LeafKind::Number))
    } else if has_prefix(parts, seq!["clipboard"@, "disable_primary"@]) {
        Some(("clipboard.disable_primary", LeafKind::Flag))
    } else if has_prefix(parts, seq!["hotkey_overlay"@, "skip_at_startup"@]) {
        Some(("hotkey_overlay.skip_at_startup", LeafKind::Flag))
    } else if has_prefix(parts, seq!["config_notification"@, "disable_failed"@]) {
        Some(("config_notification.disable_failed", LeafKind::Flag))
    } else if has_prefix(parts, seq!["debug"@, "wait_for_frame_completion_before_queueing"@]) {
        Some(("debug.wait_for_frame_completion_before_queueing", LeafKind::Flag))
    } else if has_prefix(parts, seq!["debug"@, "enable_overlay_planes"@]) {
        Some(("debug.enable_overlay_planes", LeafKind::Flag))
    } else if has_prefix(parts, seq!["debug"@, "disable_cursor_plane"@]) {
        Some(("debug.disable_cursor_plane", LeafKind::Flag))
    } else if has_prefix(parts, seq!["debug"@, "render_drm_device"@]) {
        Some(("debug.render_drm_device", LeafKind::OptionalText))
    } else if has_prefix(parts, seq!["debug"@, "emulate_zero_presentation_time"@]) {
        Some(("debug.emulate_zero_presentation_time", LeafKind::Flag))
    } else if has_prefix(parts, seq!["xwayland_satellite"@, "off"@]) {
        Some(("xwayland_satellite.off", LeafKind::Flag))
    } else if has_prefix(parts, seq!["xwayland_satellite"@, "path"@]) {
        Some(("xwayland_satellite.path", LeafKind::Text))
    } else if has_prefix(parts, seq!["prefer_no_csd"@]) {
        Some(("prefer_no_csd", LeafKind::Flag))
    } else if has_prefix(parts, seq!["screenshot_path"@]) {
        Some(("screenshot_path", LeafKind::OptionalText))
    } else {
        None
    }
}

/// The scalar setting that the components of a change path name.
pub fn leaf_of_parts(parts: &Vec<Vec<char>>) -> (r: Option<(&'static str, LeafKind)>)
    ensures
        r == leaf_of(views(parts@)),
{
    if prefix2(parts, "layout", "gaps") {
        Some(("layout.gaps", LeafKind::Number))
    } else if prefix3(parts, "layout", "struts", "left") {
        Some(("layout.struts.left", LeafKind::Number))
    } else if prefix3(parts, "layout", "struts", "right") {
        Some(("layout.struts.right", LeafKind::Number))
    } else if prefix3(parts, "layout", "struts", "top") {
        Some(("layout.struts.top", LeafKind::Number))
    } else if prefix3(parts, "layout", "struts", "bottom") {
        Some(("layout.struts.bottom", LeafKind::Number))
    } else if prefix3(parts, "layout", "focus_ring", "off") {
        Some(("layout.focus_ring.off", LeafKind::Flag))
    } else if prefix3(parts, "layout", "focus_ring", "width") {
        Some(("layout.focus_ring.width", LeafKind::Number))
    } else if prefix3(parts, "layout", "focus_ring", "active_color") {
        Some(("layout.focus_ring.active_color", LeafKind::Color))
    } else if prefix3(parts, "layout", "focus_ring", "inactive_color") {
        Some(("layout.focus_ring.inactive_color", LeafKind::Color))
    } else if prefix3(parts, "layout", "border", "off") {
        Some(("layout.border.off", LeafKind::Flag))
    } else if prefix3(parts, "layout", "border", "width") {
        Some(("layout.border.width", LeafKind::Number))
    } else if prefix3(parts, "layout", "border", "active_color") {
        Some(("layout.border.active_color", LeafKind::Color))
    } else if prefix3(parts, "layout", "border", "inactive_color") {
        Some(("layout.border.inactive_color", LeafKind::Color))
    } else if prefix3(parts, "layout", "border", "urgent_color") {
        Some(("layout.border.urgent_color", LeafKind::Color))
    } else if prefix3(parts, "layout", "shadow", "on") {
        Some(("layout.shadow.on", LeafKind::Flag))
    } else if prefix3(parts, "layout", "shadow", "softness") {
        Some(("layout.shadow.softness", LeafKind::Number))
    } else if prefix3(parts, "layout", "shadow", "spread") {
        Some(("layout.shadow.spread", LeafKind::Number))
    } else if prefix4(parts, "layout", "shadow", "offset", "x") {
        Some(("layout.shadow.offset.x", LeafKind::Number))
    } else if prefix4(parts, "layout", "shadow", "offset", "y") {
        Some(("layout.shadow.offset.y", LeafKind::Number))
    } else if prefix3(parts, "layout", "shadow", "color") {
        Some(("layout.shadow.color", LeafKind::Color))
    } else if prefix3(parts, "layout", "shadow", "inactive_color") {
        Some(("layout.shadow.inactive_color", LeafKind::OptionalColor))
    } else if prefix2(parts, "layout", "always_center_single_column") {
        Some(("layout.always_center_single_column", LeafKind::Flag))
    } else if prefix2(parts, "layout", "empty_workspace_above_first") {
        Some(("layout.empty_workspace_above_first", LeafKind::Flag))
    } else if prefix2(parts, "layout", "center_focused_column") {
        Some(("layout.center_focused_column", LeafKind::CenterFocusedColumn))
    } else if prefix2(parts, "layout", "preset_column_widths") {
        Some(("layout.preset_column_widths", LeafKind::Presets))
    } else if prefix2(parts, "layout", "default_column_width") {
        Some(("layout.default_column_width", LeafKind::Preset))
    } else if prefix2(parts, "layout", "preset_window_heights") {
        Some(("layout.preset_window_heights", LeafKind::Presets))
    } else if prefix2(parts, "animations", "off") {
        Some(("animations.off", LeafKind::Flag))
    } else if prefix2(parts, "animations", "slowdown") {
        Some(("animations.slowdown", LeafKind::Number))
    } else if prefix3(parts, "input", "keyboard", "repeat_delay") {
        Some(("input.keyboard.repeat_delay", LeafKind::Short))
    } else if prefix3(parts, "input", "keyboard", "repeat_rate") {
        Some(("input.keyboard.repeat_rate", LeafKind::Byte))
    } else if prefix3(parts, "input", "keyboard", "numlock") {
        Some(("input.keyboard.numlock", LeafKind::Flag))
    } else if prefix4(parts, "input", "keyboard", "xkb", "layout") {
        Some(("input.keyboard.xkb.layout", LeafKind::Text))
    } else if prefix4(parts, "input", "keyboard", "xkb", "model") {
        Some(("input.keyboard.xkb.model", LeafKind::Text))
    } else if prefix4(parts, "input", "keyboard", "xkb", "rules") {
        Some(("input.keyboard.xkb.rules", LeafKind::Text))
    } else if prefix4(parts, "input", "keyboard", "xkb", "variant") {
        Some(("input.keyboard.xkb.variant", LeafKind::Text))
    } else if prefix4(parts, "input", "keyboard", "xkb", "options") {
        Some(("input.keyboard.xkb.options", LeafKind::OptionalText))
    } else if prefix3(parts, "input", "touchpad", "tap") {
        Some(("input.touchpad.tap", LeafKind::Flag))
    } else if prefix3(parts, "input", "touchpad", "natural_scroll") {
        Some(("input.touchpad.natural_scroll", LeafKind::Flag))
    } else if prefix3(parts, "input", "touchpad", "dwt") {
        Some(("input.touchpad.dwt", LeafKind::Flag))
    } else if prefix3(parts, "input", "touchpad", "dwtp") {
        Some(("input.touchpad.dwtp", LeafKind::Flag))
    } else if prefix3(parts, "input", "touchpad", "accel_speed") {
        Some(("input.touchpad.accel_speed", LeafKind::Number))
    } else if prefix3(parts, "input", "touchpad", "accel_profile") {
        Some(("input.touchpad.accel_profile", LeafKind::AccelProfile))
    } else if prefix3(parts, "input", "touchpad", "tap_button_map") {
        Some(("input.touchpad.tap_button_map", LeafKind::TapButtonMap))
    } else if prefix3(parts, "input", "touchpad", "scroll_method") {
        Some(("input.touchpad.scroll_method", LeafKind::ScrollMethod))
    } else if prefix3(parts, "input", "touchpad", "disabled_on_external_mouse") {
        Some(("input.touchpad.disabled_on_external_mouse", LeafKind::Flag))
    } else if prefix3(parts, "input", "touchpad", "click_method") {
        Some(("input.touchpad.click_method", LeafKind::ClickMethod))
    } else if prefix3(parts, "input", "mouse", "natural_scroll") {
        Some(("input.mouse.natural_scroll", LeafKind::Flag))
    } else if prefix3(parts, "input", "mouse", "accel_speed") {
        Some(("input.mouse.accel_speed", LeafKind::Number))
    } else if prefix3(parts, "input", "mouse", "accel_profile") {
        Some(("input.mouse.accel_profile", LeafKind::AccelProfile))
    } else if prefix3(parts, "input", "mouse", "scroll_method") {
        Some(("input.mouse.scroll_method", LeafKind::ScrollMethod))
    } else if prefix3(parts, "input", "trackpoint", "natural_scroll") {
        Some(("input.trackpoint.natural_scroll", LeafKind::Flag))
    } else if prefix3(parts, "input", "trackpoint", "accel_speed") {
        Some(("input.trackpoint.accel_speed", LeafKind::Number))
    } else if prefix3(parts, "input", "trackpoint", "accel_profile") {
        Some(("input.trackpoint.accel_profile", LeafKind::AccelProfile))
    } else if prefix3(parts, "input", "trackpoint", "scroll_method") {
        Some(("input.trackpoint.scroll_method", LeafKind::TrackpointScrollMethod))
    } else if prefix3(parts, "input", "touch", "off") {
        Some(("input.touch.off", LeafKind::Flag))
    } else if prefix3(parts, "input", "touch", "natural_scroll") {
        Some(("input.touch.natural_scroll", LeafKind::Flag))
    } else if prefix3(parts, "input", "touch", "map_to_output") {
        Some(("input.touch.map_to_output", LeafKind::OptionalText))
    } else if prefix2(parts, "input", "workspace_auto_back_and_forth") {
        Some(("input.workspace_auto_back_and_forth", LeafKind::Flag))
    } else if prefix2(parts, "input", "focus_follows_mouse") {
        Some(("input.focus_follows_mouse", LeafKind::FocusFollowsMouse))
    } else if prefix2(parts, "input", "warp_mouse_to_focus") {
        Some(("input.warp_mouse_to_focus", LeafKind::WarpMouseToFocus))
    } else if prefix2(parts, "cursor", "xcursor_theme") {
        Some(("cursor.xcursor_theme", LeafKind::Text))
    } else if prefix2(parts, "cursor", "xcursor_size") {
        Some(("cursor.xcursor_size", LeafKind::Byte))
    } else if prefix2(parts, "cursor", "hide_when_typing") {
        Some(("cursor.hide_when_typing", LeafKind::Flag))
    } else if prefix2(parts, "cursor", "hide_after_inactive_ms") {
        Some(("cursor.hide_after_inactive_ms", LeafKind::OptionalWide))
    } else if prefix3(parts, "gestures", "dnd_edge_view_scroll", "trigger_width") {
        Some(("gestures.dnd_edge_view_scroll.trigger_width", LeafKind::Number))
    } else if prefix3(parts, "gestures", "dnd_edge_view_scroll", "delay_ms") {
        Some(("gestures.dnd_edge_view_scroll.delay_ms", LeafKind::Short))
    } else if prefix3(parts, "gestures", "dnd_edge_view_scroll", "max_speed") {
        Some(("gestures.dnd_edge_view_scroll.max_speed", LeafKind::Number))
    } else if prefix3(parts, "gestures", "dnd_edge_workspace_switch", "trigger_height") {
        Some(("gestures.dnd_edge_workspace_switch.trigger_height", LeafKind::Number))
    } else if prefix3(parts, "gestures", "dnd_edge_workspace_switch", "delay_ms") {
        Some(("gestures.dnd_edge_workspace_switch.delay_ms", LeafKind::Short))
    } else if prefix3(parts, "gestures", "dnd_edge_workspace_switch", "max_speed") {
        Some(("gestures.dnd_edge_workspace_switch.max_speed", LeafKind::Number))
    } else if prefix3(parts, "gestures", "hot_corners", "off") {
        Some(("gestures.hot_corners.off", LeafKind::Flag))
    } else if prefix2(parts, "overview", "zoom") {
        Some(("overview.zoom", LeafKind::Number))
    } else if prefix2(parts, "overview", "backdrop_color") {
        Some(("overview.backdrop_color", LeafKind::Color))
    } else if prefix3(parts, "overview", "workspace_shadow", "off") {
        Some(("overview.workspace_shadow.off", LeafKind::Flag))
    } else if prefix3(parts, "overview", "workspace_shadow", "softness") {
        Some(("overview.workspace_shadow.softness", LeafKind::Number))
    } else if prefix3(parts, "overview", "workspace_shadow", "spread") {
        Some(("overview.workspace_shadow.spread", LeafKind::Number))
    } else if prefix3(parts, "overview", "workspace_shadow", "color") {
        Some(("overview.workspace_shadow.color", LeafKind::Color))
    } else if prefix2(parts, "recent_windows", "off") {
        Some(("recent_windows.off", LeafKind::InvertedFlag))
    } else if prefix2(parts, "recent_windows", "debounce_ms") {
        Some(("recent_windows.debounce_ms", LeafKind::Short))
    } else if prefix2(parts, "recent_windows", "open_delay_ms") {
        Some(("recent_windows.open_delay_ms", LeafKind::Short))
    } else if prefix3(parts, "recent_windows", "highlight", "active_color") {
        Some(("recent_windows.highlight.active_color", LeafKind::Color))
    } else if prefix3(parts, "recent_windows", "highlight", "urgent_color") {
        Some(("recent_windows.highlight.urgent_color", LeafKind::Color))
    } else if prefix3(parts, "recent_windows", "highlight", "padding") {
        Some(("recent_windows.highlight.padding", LeafKind::Number))
    } else if prefix3(parts, "recent_windows", "highlight", "corner_radius") {
        Some(("recent_windows.highlight.corner_radius", LeafKind::Number))
    } else if prefix3(parts, "recent_windows", "previews", "max_height") {
        Some(("recent_windows.previews.max_height", LeafKind::Number))
    } else if prefix3(parts, "recent_windows", "previews", "max_scale") {
        Some(("recent_windows.previews.max_scale", LeafKind::Number))
    } else if prefix2(parts, "clipboard", "disable_primary") {
        Some(("clipboard.disable_primary", LeafKind::Flag))
    } else if prefix2(parts, "hotkey_overlay", "skip_at_startup") {
        Some(("hotkey_overlay.skip_at_startup", LeafKind::Flag))
    } else if prefix2(parts, "config_notification", "disable_failed") {
        Some(("config_notification.disable_failed", LeafKind::Flag))
    } else if prefix2(parts, "debug", "wait_for_frame_completion_before_queueing") {
        Some(("debug.wait_for_frame_completion_before_queueing", LeafKind::Flag))
    } else if prefix2(parts, "debug", "enable_overlay_planes") {
        Some(("debug.enable_overlay_planes", LeafKind::Flag))
    } else if prefix2(parts, "debug", "disable_cursor_plane") {
        Some(("debug.disable_cursor_plane", LeafKind::Flag))
    } else if prefix2(parts, "debug", "render_drm_device") {
        Some(("debug.render_drm_device", LeafKind::OptionalText))
    } else if prefix2(parts, "debug", "emulate_zero_presentation_time") {
        Some(("debug.emulate_zero_presentation_time", LeafKind::Flag))
    } else if prefix2(parts, "xwayland_satellite", "off") {
        Some(("xwayland_satellite.off", LeafKind::Flag))
    } else if prefix2(parts, "xwayland_satellite", "path") {
        Some(("xwayland_satellite.path", LeafKind::Text))
    } else if prefix1(parts, "prefer_no_csd") {
        Some(("prefer_no_csd", LeafKind::Flag))
    } else if prefix1(parts, "screenshot_path") {
        Some(("screenshot_path", LeafKind::OptionalText))
    } else {
        None
    }
}
/// `u8` truncation of a JSON component read with `as_u64`, `default` when
/// the component is absent or not a non-negative integer.
pub open spec fn component<F>(v: Option<Json<F>>, default: u8) -> u8 {
    match v {
        Some(x) => match as_u64(x) {
            Some(u) => u as u8,
            None => default,
        },
        None => default,
    }
}

/// The color that a JSON value gives: a `#rrggbb`/`#rrggbbaa` string, an
/// object with `r`, `g`, `b` (default 0) and `a` (default 255) components,
/// or an array of at least three components (alpha fourth, default 255);
/// components are non-negative integers truncated to 8 bits.
pub open spec fn json_color<F>(v: Json<F>) -> Option<Rgba8> {
    match v {
        Json::String(s) => color_text(encode_utf8(s@)),
        Json::Object(_) => Some(
            Rgba8 {
                r: component(field_of(v, "r"@), 0),
                g: component(field_of(v, "g"@), 0),
                b: component(field_of(v, "b"@), 0),
                a: component(field_of(v, "a"@), 255),
            },
        ),
        Json::Array(items) => if items@.len() >= 3 {
            Some(
                Rgba8 {
                    r: component(Some(items@[0]), 0),
                    g: component(Some(items@[1]), 0),
                    b: component(Some(items@[2]), 0),
                    a: component(if items@.len() > 3 { Some(items@[3]) } else { None }, 255),
                },
            )
        } else {
            None
        },
        _ => None,
    }
}

/// Reading the color of `v` would cut a character of its text (a panic).
pub open spec fn json_color_cuts<F>(v: Json<F>) -> bool {
    match v {
        Json::String(s) => color_text_cuts_char(encode_utf8(s@)),
        _ => false,
    }
}

fn component_of<F: Copy>(v: Option<&Json<F>>, default: u8) -> (r: u8)
    ensures
        r == component(
            match v {
                Some(x) => Some(*x),
                None => None,
            },
            default,
        ),
{
    match v {
        Some(x) => match x.as_u64() {
            Some(u) => u as u8,
            None => default,
        },
        None => default,
    }
}

/// Convert a JSON value to a color.
pub fn json_to_color<F: Copy>(value: &Json<F>) -> (r: Option<Rgba8>)
    requires
        !json_color_cuts(*value),
    ensures
        r == json_color(*value),
{
    match value {
        Json::String(s) => parse_hex_color(s.as_str()),
        Json::Object(_) => Some(
            Rgba8 {
                r: component_of(value.get("r"), 0),
                g: component_of(value.get("g"), 0),
                b: component_of(value.get("b"), 0),
                a: component_of(value.get("a"), 255),
            },
        ),
        Json::Array(items) => {
            if items.len() >= 3 {
                let a = if items.len() > 3 {
                    component_of(Some(&items[3]), 255)
                } else {
                    255
                };
                Some(
                    Rgba8 {
                        r: component_of(Some(&items[0]), 0),
                        g: component_of(Some(&items[1]), 0),
                        b: component_of(Some(&items[2]), 0),
                        a,
                    },
                )
            } else {
                None
            }
        },
        _ => None,
    }
}

/// `f64 as i32` of a whole number: saturating at the bounds of `i32`.
pub open spec fn saturate_i32(v: int) -> i32 {
    if v > i32::MAX {
        i32::MAX
    } else if v < i32::MIN {
        i32::MIN
    } else {
        v as i32
    }
}

/// The preset size that a JSON value gives: an object's `proportion` (any
/// number), else its `fixed` (an `i64`, truncated to `i32`); else a plain
/// number: a whole number is a proportion when it is 1 and a fixed size
/// otherwise, a float is left to its value.
pub open spec fn preset_size_of<F>(v: Json<F>) -> Option<PresetSize<F>> {
    let from_object = match v {
        Json::Object(_) => match field_of(v, "proportion"@) {
            Some(Json::Number(n)) => Some(PresetSize::Proportion(n)),
            _ => match field_of(v, "fixed"@) {
                Some(x) => match as_i64(x) {
                    Some(i) => Some(PresetSize::Fixed(i as i32)),
                    None => None,
                },
                None => None,
            },
        },
        _ => None,
    };
    if from_object is Some {
        from_object
    } else {
        match v {
            Json::Number(JsonNumber::PosInt(u)) => if u == 1 {
                Some(PresetSize::Proportion(JsonNumber::PosInt(1)))
            } else {
                Some(PresetSize::Fixed(saturate_i32(u as int)))
            },
            Json::Number(JsonNumber::NegInt(i)) => Some(PresetSize::Fixed(saturate_i32(i as int))),
            Json::Number(JsonNumber::Float(f)) => Some(PresetSize::Number(f)),
            _ => None,
        }
    }
}

/// Convert a JSON value to a preset size.
pub fn json_to_preset_size<F: Copy>(value: &Json<F>) -> (r: Option<PresetSize<F>>)
    ensures
        r == preset_size_of(*value),
{
    if let Json::Object(_) = value {
        match value.get("proportion") {
            Some(Json::Number(n)) => {
                return Some(PresetSize::Proportion(*n));
            },
            _ => {},
        }
        match value.get("fixed") {
            Some(x) => match x.as_i64() {
                Some(i) => {
                    return Some(PresetSize::Fixed(i as i32));
                },
                None => {},
            },
            None => {},
        }
    }
    match value {
        Json::Number(JsonNumber::PosInt(u)) => if *u == 1 {
            Some(PresetSize::Proportion(JsonNumber::PosInt(1)))
        } else if *u > 0x7fff_ffff {
            Some(PresetSize::Fixed(0x7fff_ffff))
        } else {
            Some(PresetSize::Fixed(*u as i32))
        },
        Json::Number(JsonNumber::NegInt(i)) => if *i < -0x8000_0000 {
            Some(PresetSize::Fixed(-0x8000_0000))
        } else if *i > 0x7fff_ffff {
            Some(PresetSize::Fixed(0x7fff_ffff))
        } else {
            Some(PresetSize::Fixed(*i as i32))
        },
        Json::Number(JsonNumber::Float(f)) => Some(PresetSize::Number(*f)),
        _ => None,
    }
}

/// The preset sizes of the elements that give one, in order.
pub open spec fn presets_of<F>(items: Seq<Json<F>>) -> Seq<PresetSize<F>>
    decreases items.len(),
{
    if items.len() == 0 {
        Seq::empty()
    } else {
        let rest = presets_of(items.drop_last());
        match preset_size_of(items.last()) {
            Some(p) => rest.push(p),
            None => rest,
        }
    }
}

fn presets_from<F: Copy>(items: &Vec<Json<F>>) -> (r: Vec<PresetSize<F>>)
    ensures
        r@ == presets_of(items@),
{
    let mut r: Vec<PresetSize<F>> = Vec::new();
    for i in 0..items.len()
        invariant
            r@ == presets_of(items@.take(i as int)),
    {
        assert(items@.take(i + 1).drop_last() =~= items@.take(i as int));
        match json_to_preset_size(&items[i]) {
            Some(p) => r.push(p),
            None => {},
        }
    }
    assert(items@.take(items@.len() as int) =~= items@);
    r
}

/// The word of `s` among `words`, if any.
pub open spec fn word_in(s: Seq<char>, words: Seq<&'static str>) -> Option<&'static str>
    decreases words.len(),
{
    if words.len() == 0 {
        None
    } else if s == words[0]@ {
        Some(words[0])
    } else {
        word_in(s, words.drop_first())
    }
}

/// The words that a choice setting knows.
pub open spec fn choice_words(kind: LeafKind) -> Seq<&'static str> {
    match kind {
        LeafKind::CenterFocusedColumn => seq!["never", "always", "on-overflow"],
        LeafKind::AccelProfile => seq!["adaptive", "flat"],
        LeafKind::TapButtonMap => seq!["left-right-middle", "left-middle-right"],
        LeafKind::ScrollMethod => seq!["no-scroll", "two-finger", "edge", "on-button-down"],
        LeafKind::TrackpointScrollMethod => seq!["no-scroll", "on-button-down"],
        LeafKind::ClickMethod => seq!["button-areas", "clickfinger"],
        _ => Seq::empty(),
    }
}

fn choice_words_of(kind: LeafKind) -> (r: Vec<&'static str>)
    ensures
        r@ == choice_words(kind),
{
    let r = match kind {
        LeafKind::CenterFocusedColumn => vec!["never", "always", "on-overflow"],
        LeafKind::AccelProfile => vec!["adaptive", "flat"],
        LeafKind::TapButtonMap => vec!["left-right-middle", "left-middle-right"],
        LeafKind::ScrollMethod => vec!["no-scroll", "two-finger", "edge", "on-button-down"],
        LeafKind::TrackpointScrollMethod => vec!["no-scroll", "on-button-down"],
        LeafKind::ClickMethod => vec!["button-areas", "clickfinger"],
        _ => Vec::new(),
    };
    assert(r@ =~= choice_words(kind));
    r
}

fn word_of(s: &str, words: &Vec<&'static str>) -> (r: Option<&'static str>)
    ensures
        r == word_in(s@, words@),
{
    let cs = chars_of(s);
    let mut i: usize = 0;
    assert(words@.skip(0) =~= words@);
    while i < words.len()
        invariant
            i <= words@.len(),
            cs@ == s@,
            word_in(s@, words@) == word_in(s@, words@.skip(i as int)),
        decreases words@.len() - i,
    {
        assert(words@.skip(i as int).drop_first() =~= words@.skip(i + 1));
        assert(words@.skip(i as int)[0] == words@[i as int]);
        if eq_lit(&cs, words[i]) {
            return Some(words[i]);
        }
        i = i + 1;
    }
    None
}

/// `r` is the value that a setting of kind `kind` takes from `v`, or none
/// when `v` does not fit it.
pub open spec fn setting_read<F>(kind: LeafKind, v: Json<F>, r: Option<SettingValue<F>>) -> bool {
    match kind {
        LeafKind::Flag | LeafKind::WarpMouseToFocus => match as_bool(v) {
            Some(b) => r == Some(if kind == LeafKind::Flag { SettingValue::<F>::Flag(b) } else { SettingValue::<F>::Warp(b) }),
            None => r is None,
        },
        LeafKind::InvertedFlag => match as_bool(v) {
            Some(b) => r == Some(SettingValue::<F>::Flag(!b)),
            None => r is None,
        },
        LeafKind::Number => match v {
            Json::Number(n) => r == Some(SettingValue::Number(n)),
            _ => r is None,
        },
        LeafKind::Short => match as_u64(v) {
            Some(u) => r == Some(SettingValue::<F>::Short(u as u16)),
            None => r is None,
        },
        LeafKind::Byte => match as_u64(v) {
            Some(u) => r == Some(SettingValue::<F>::Byte(u as u8)),
            None => r is None,
        },
        LeafKind::OptionalWide => match as_u64(v) {
            Some(u) => r == Some(SettingValue::<F>::Wide(u as u32)),
            None => r is None,
        },
        LeafKind::Text | LeafKind::OptionalText => match as_text(v) {
            Some(s) => r == Some(SettingValue::<F>::Text(s)),
            None => r is None,
        },
        LeafKind::Color | LeafKind::OptionalColor => match json_color(v) {
            Some(c) => r == Some(SettingValue::<F>::Color(c)),
            None => r is None,
        },
        LeafKind::CenterFocusedColumn => match as_text(v) {
            Some(s) => match word_in(s@, choice_words(kind)) {
                Some(w) => r == Some(SettingValue::<F>::Word(Some(w))),
                None => r is None,
            },
            None => r is None,
        },
        LeafKind::AccelProfile | LeafKind::TapButtonMap | LeafKind::ScrollMethod
        | LeafKind::TrackpointScrollMethod | LeafKind::ClickMethod => match as_text(v) {
            Some(s) => r == Some(SettingValue::<F>::Word(word_in(s@, choice_words(kind)))),
            None => r is None,
        },
        LeafKind::Presets => match v {
            Json::Array(items) => r matches Some(SettingValue::Presets(ps)) && ps@ == presets_of(items@),
            _ => r is None,
        },
        LeafKind::Preset => match preset_size_of(v) {
            Some(p) => r == Some(SettingValue::Preset(p)),
            None => r is None,
        },
        LeafKind::FocusFollowsMouse => match v {
            Json::Object(_) => r == Some(SettingValue::FollowMouse(Some(match field_of(v, "max_scroll_amount"@) {
                Some(Json::Number(n)) => Some(n),
                _ => None,
            }))),
            Json::Bool(b) => r == Some(SettingValue::<F>::FollowMouse(if b { Some(None) } else { None })),
            _ => r is None,
        },
    }
}

/// Reading the value would panic: a color text that its reading cuts.
pub open spec fn setting_panics<F>(kind: LeafKind, v: Json<F>) -> bool {
    (kind == LeafKind::Color || kind == LeafKind::OptionalColor) && json_color_cuts(v)
}

/// Whether reading `v` as a setting of kind `kind` would panic.
pub fn setting_would_panic<F>(kind: LeafKind, v: &Json<F>) -> (r: bool)
    ensures
        r == setting_panics(kind, *v),
{
    match v {
        Json::String(s) => (kind == LeafKind::Color || kind == LeafKind::OptionalColor) && color_text_cuts(s.as_str()),
        _ => false,
    }
}

/// The value that a setting of kind `kind` takes from `value`.
pub fn read_setting<F: Copy>(kind: LeafKind, value: &Json<F>) -> (r: Option<SettingValue<F>>)
    requires
        !setting_panics(kind, *value),
    ensures
        setting_read(kind, *value, r),
{
    match kind {
        LeafKind::Flag => match value.as_bool() {
            Some(b) => Some(SettingValue::Flag(b)),
            None => None,
        },
        LeafKind::WarpMouseToFocus => match value.as_bool() {
            Some(b) => Some(SettingValue::Warp(b)),
            None => None,
        },
        LeafKind::InvertedFlag => match value.as_bool() {
            Some(b) => Some(SettingValue::Flag(!b)),
            None => None,
        },
        LeafKind::Number => match value.as_number() {
            Some(n) => Some(SettingValue::Number(n)),
            None => None,
        },
        LeafKind::Short => match value.as_u64() {
            Some(u) => Some(SettingValue::Short(u as u16)),
            None => None,
        },
        LeafKind::Byte => match value.as_u64() {
            Some(u) => Some(SettingValue::Byte(u as u8)),
            None => None,
        },
        LeafKind::OptionalWide => match value.as_u64() {
            Some(u) => Some(SettingValue::Wide(u as u32)),
            None => None,
        },
        LeafKind::Text | LeafKind::OptionalText => match value.text() {
            Some(s) => Some(SettingValue::Text(s)),
            None => None,
        },
        LeafKind::Color | LeafKind::OptionalColor => match json_to_color(value) {
            Some(c) => Some(SettingValue::Color(c)),
            None => None,
        },
        LeafKind::CenterFocusedColumn => match value.as_str() {
            Some(s) => match word_of(s, &choice_words_of(kind)) {
                Some(w) => Some(SettingValue::Word(Some(w))),
                None => None,
            },
            None => None,
        },
        LeafKind::AccelProfile | LeafKind::TapButtonMap | LeafKind::ScrollMethod
        | LeafKind::TrackpointScrollMethod | LeafKind::ClickMethod => match value.as_str() {
            Some(s) => Some(SettingValue::Word(word_of(s, &choice_words_of(kind)))),
            None => None,
        },
        LeafKind::Presets => match value {
            Json::Array(items) => Some(SettingValue::Presets(presets_from(items))),
            _ => None,
        },
        LeafKind::Preset => match json_to_preset_size(value) {
            Some(p) => Some(SettingValue::Preset(p)),
            None => None,
        },
        LeafKind::FocusFollowsMouse => match value {
            Json::Object(_) => {
                let max = match value.get("max_scroll_amount") {
                    Some(Json::Number(n)) => Some(*n),
                    _ => None,
                };
                Some(SettingValue::FollowMouse(Some(max)))
            },
            Json::Bool(b) => Some(SettingValue::FollowMouse(if *b { Some(None) } else { None })),
            _ => None,
        },
    }
}

/// The components of a dotted path, as `str::split('.')` yields them.
pub open spec fn split_dots(s: Seq<char>) -> Seq<Seq<char>> {
    split_on(s, '.')
}

/// Split a dotted path into its components.
pub fn split_path(s: &str) -> (r: Vec<Vec<char>>)
    ensures
        views(r@) == split_dots(s@),
{
    split_chars(s, '.')
}

} // verus!
