//! What becomes of a table that a configuration script returns: its
//! configuration fields are set as globals, as if the script had set them.
use vstd::prelude::*;

verus! {

/// Where a configuration script was read from.
#[derive(PartialEq, Eq, Structural, Clone, Copy, Debug)]
pub enum ConfigSource {
    File,
    Text,
}

/// The fields of a returned table that are set as globals of the same name,
/// in order.
pub open spec fn returned_fields(source: ConfigSource) -> Seq<Seq<char>> {
    match source {
        ConfigSource::File => seq!["binds"@, "startup"@, "spawn_at_startup"@, "spawn_sh_at_startup"@, "input"@, "outputs"@, "layout"@, "animations"@, "gestures"@, "clipboard"@, "hotkey_overlay"@, "config_notification"@, "screenshot"@, "window_rules"@, "layer_rules"@, "prefer_no_csd"@, "cursor"@, "screenshot_path"@, "environment"@, "debug"@, "workspaces"@, "xwayland_satellite"@, "recent_windows"@, "overview"@],
        ConfigSource::Text => seq!["binds"@, "startup"@, "input"@, "outputs"@, "layout"@, "animations"@, "gestures"@, "clipboard"@, "hotkey_overlay"@, "config_notification"@, "screenshot"@, "window_rules"@, "prefer_no_csd"@, "cursor"@, "screenshot_path"@, "environment"@, "debug"@, "workspaces"@],
    }
}

/// The pairs (field of the returned table, global that it is set as), in
/// the order in which they are set: every listed field under its own name,
/// then `startup_commands` as `startup`.
pub open spec fn promotions(source: ConfigSource) -> Seq<(Seq<char>, Seq<char>)> {
    returned_fields(source).map_values(|f: Seq<char>| (f, f)).push(("startup_commands"@, "startup"@))
}

/// The pairs (field of the returned table, global that it is set as) in the
/// order in which a returned table's fields that are not nil are set.
pub fn promoted_fields(source: ConfigSource) -> (r: Vec<(&'static str, &'static str)>)
    ensures
        r@.map_values(|p: (&'static str, &'static str)| (p.0@, p.1@)) == promotions(source),
{
    let mut v: Vec<(&'static str, &'static str)> = Vec::new();
    if source == ConfigSource::File {
        v.push(("binds", "binds"));
        v.push(("startup", "startup"));
        v.push(("spawn_at_startup", "spawn_at_startup"));
        v.push(("spawn_sh_at_startup", "spawn_sh_at_startup"));
        v.push(("input", "input"));
        v.push(("outputs", "outputs"));
        v.push(("layout", "layout"));
        v.push(("animations", "animations"));
        v.push(("gestures", "gestures"));
        v.push(("clipboard", "clipboard"));
        v.push(("hotkey_overlay", "hotkey_overlay"));
        v.push(("config_notification", "config_notification"));
        v.push(("screenshot", "screenshot"));
        v.push(("window_rules", "window_rules"));
        v.push(("layer_rules", "layer_rules"));
        v.push(("prefer_no_csd", "prefer_no_csd"));
        v.push(("cursor", "cursor"));
        v.push(("screenshot_path", "screenshot_path"));
        v.push(("environment", "environment"));
        v.push(("debug", "debug"));
        v.push(("workspaces", "workspaces"));
        v.push(("xwayland_satellite", "xwayland_satellite"));
        v.push(("recent_windows", "recent_windows"));
        v.push(("overview", "overview"));
    } else {
        v.push(("binds", "binds"));
        v.push(("startup", "startup"));
        v.push(("input", "input"));
        v.push(("outputs", "outputs"));
        v.push(("layout", "layout"));
        v.push(("animations", "animations"));
        v.push(("gestures", "gestures"));
        v.push(("clipboard", "clipboard"));
        v.push(("hotkey_overlay", "hotkey_overlay"));
        v.push(("config_notification", "config_notification"));
        v.push(("screenshot", "screenshot"));
        v.push(("window_rules", "window_rules"));
        v.push(("prefer_no_csd", "prefer_no_csd"));
        v.push(("cursor", "cursor"));
        v.push(("screenshot_path", "screenshot_path"));
        v.push(("environment", "environment"));
        v.push(("debug", "debug"));
        v.push(("workspaces", "workspaces"));
    }
    v.push(("startup_commands", "startup"));
    assert(v@.map_values(|p: (&'static str, &'static str)| (p.0@, p.1@)) =~= promotions(source));
    v
}

} // verus!
