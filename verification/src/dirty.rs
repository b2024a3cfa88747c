//! Dirty-flag tracking for configuration changes.
//!
//! When a script modifies config values, section-level flags record which
//! compositor subsystems must be refreshed, and an insertion-ordered,
//! duplicate-free set records the exact field paths that changed.
use vstd::prelude::*;
use indexmap::IndexSet;

verus! {

#[verifier::external_type_specification]
#[verifier::external_body]
#[verifier::reject_recursive_types(T)]
#[verifier::reject_recursive_types(S)]
pub struct ExIndexSet<T, S>(IndexSet<T, S>);

/// The paths held by an `IndexSet<String>`, in insertion order.
pub uninterp spec fn path_set_contents(s: IndexSet<String>) -> Seq<Seq<char>>;

/// Calls `IndexSet::new`; the set it returns is empty.
#[verifier::external_body]
fn path_set_new() -> (r: IndexSet<String>)
    ensures
        path_set_contents(r) == Seq::<Seq<char>>::empty(),
{
    IndexSet::new()
}

/// Calls `IndexSet::insert`. Its documentation: when an equal item is already
/// present the set is left unchanged and `false` is returned; otherwise the item
/// is appended at the end of the insertion order and `true` is returned.
/// `String` equality is equality of contents.
#[verifier::external_body]
fn path_set_insert(s: &mut IndexSet<String>, p: String) -> (r: bool)
    ensures
        r == !path_set_contents(*old(s)).contains(p@),
        path_set_contents(*final(s)) == (if r {
            path_set_contents(*old(s)).push(p@)
        } else {
            path_set_contents(*old(s))
        }),
{
    s.insert(p)
}

/// Calls `IndexSet::len`: the number of items in the set.
#[verifier::external_body]
fn path_set_len(s: &IndexSet<String>) -> (r: usize)
    ensures
        r == path_set_contents(*s).len(),
{
    s.len()
}

/// Consumes the set through `IndexSet::into_iter`, which yields the items in
/// insertion order, and collects them into a `Vec`.
#[verifier::external_body]
fn path_set_into_vec(s: IndexSet<String>) -> (r: Vec<String>)
    ensures
        r@.len() == path_set_contents(s).len(),
        forall|i: int| 0 <= i < r@.len() ==> #[trigger] r@[i]@ == path_set_contents(s)[i],
{
    s.into_iter().collect()
}

/// Which part of the configuration has been modified.
#[derive(Debug, Clone, Copy, PartialEq, Eq, Hash)]
pub enum DirtyFlag {
    Input,
    Outputs,
    Layout,
    Animations,
    WindowRules,
    LayerRules,
    Binds,
    Cursor,
    Keyboard,
    Gestures,
    Overview,
    RecentWindows,
    Clipboard,
    HotkeyOverlay,
    ConfigNotification,
    Debug,
    XwaylandSatellite,
    Misc,
    SpawnAtStartup,
    Environment,
    Workspaces,
}

/// Errors when the shared configuration state cannot be borrowed.
#[derive(Debug, Clone, Copy, PartialEq, Eq)]
pub enum ConfigStateError {
    ConfigBorrowError,
    DirtyFlagsBorrowError,
}

impl ConfigStateError {
    /// The text that the error displays.
    pub fn message(&self) -> (r: &'static str)
        ensures
            r@ == (match *self {
                ConfigStateError::ConfigBorrowError => "config borrow error"@,
                ConfigStateError::DirtyFlagsBorrowError => "dirty flags borrow error"@,
            }),
    {
        match self {
            ConfigStateError::ConfigBorrowError => "config borrow error",
            ConfigStateError::DirtyFlagsBorrowError => "dirty flags borrow error",
        }
    }
}

/// Tracks which config subsystems have been modified, and which field paths.
pub struct ConfigDirtyFlags {
    pub layout: bool,
    pub input: bool,
    pub cursor: bool,
    pub keyboard: bool,
    pub outputs: bool,
    pub animations: bool,
    pub window_rules: bool,
    pub layer_rules: bool,
    pub binds: bool,
    pub gestures: bool,
    pub overview: bool,
    pub recent_windows: bool,
    pub clipboard: bool,
    pub hotkey_overlay: bool,
    pub config_notification: bool,
    pub debug: bool,
    pub xwayland_satellite: bool,
    pub misc: bool,
    pub spawn_at_startup: bool,
    pub environment: bool,
    pub workspaces: bool,
    /// Field-level dirty paths such as `layout.gaps`, in the order first marked.
    pub dirty_paths: IndexSet<String>,
}

/// The recorded paths after `path` is recorded: unchanged when it is
/// already there, else with it added at the end.
pub open spec fn with_path(paths: Seq<Seq<char>>, path: Seq<char>) -> Seq<Seq<char>> {
    if paths.contains(path) {
        paths
    } else {
        paths.push(path)
    }
}

impl ConfigDirtyFlags {
    /// The section flag that `f` names.
    pub open spec fn flag(self, f: DirtyFlag) -> bool {
        match f {
            DirtyFlag::Input => self.input,
            DirtyFlag::Outputs => self.outputs,
            DirtyFlag::Layout => self.layout,
            DirtyFlag::Animations => self.animations,
            DirtyFlag::WindowRules => self.window_rules,
            DirtyFlag::LayerRules => self.layer_rules,
            DirtyFlag::Binds => self.binds,
            DirtyFlag::Cursor => self.cursor,
            DirtyFlag::Keyboard => self.keyboard,
            DirtyFlag::Gestures => self.gestures,
            DirtyFlag::Overview => self.overview,
            DirtyFlag::RecentWindows => self.recent_windows,
            DirtyFlag::Clipboard => self.clipboard,
            DirtyFlag::HotkeyOverlay => self.hotkey_overlay,
            DirtyFlag::ConfigNotification => self.config_notification,
            DirtyFlag::Debug => self.debug,
            DirtyFlag::XwaylandSatellite => self.xwayland_satellite,
            DirtyFlag::Misc => self.misc,
            DirtyFlag::SpawnAtStartup => self.spawn_at_startup,
            DirtyFlag::Environment => self.environment,
            DirtyFlag::Workspaces => self.workspaces,
        }
    }

    /// `self` with the section flag that `f` names set.
    pub open spec fn with_flag(self, f: DirtyFlag) -> Self {
        match f {
            DirtyFlag::Input => ConfigDirtyFlags { input: true, ..self },
            DirtyFlag::Outputs => ConfigDirtyFlags { outputs: true, ..self },
            DirtyFlag::Layout => ConfigDirtyFlags { layout: true, ..self },
            DirtyFlag::Animations => ConfigDirtyFlags { animations: true, ..self },
            DirtyFlag::WindowRules => ConfigDirtyFlags { window_rules: true, ..self },
            DirtyFlag::LayerRules => ConfigDirtyFlags { layer_rules: true, ..self },
            DirtyFlag::Binds => ConfigDirtyFlags { binds: true, ..self },
            DirtyFlag::Cursor => ConfigDirtyFlags { cursor: true, ..self },
            DirtyFlag::Keyboard => ConfigDirtyFlags { keyboard: true, ..self },
            DirtyFlag::Gestures => ConfigDirtyFlags { gestures: true, ..self },
            DirtyFlag::Overview => ConfigDirtyFlags { overview: true, ..self },
            DirtyFlag::RecentWindows => ConfigDirtyFlags { recent_windows: true, ..self },
            DirtyFlag::Clipboard => ConfigDirtyFlags { clipboard: true, ..self },
            DirtyFlag::HotkeyOverlay => ConfigDirtyFlags { hotkey_overlay: true, ..self },
            DirtyFlag::ConfigNotification => ConfigDirtyFlags { config_notification: true, ..self },
            DirtyFlag::Debug => ConfigDirtyFlags { debug: true, ..self },
            DirtyFlag::XwaylandSatellite => ConfigDirtyFlags { xwayland_satellite: true, ..self },
            DirtyFlag::Misc => ConfigDirtyFlags { misc: true, ..self },
            DirtyFlag::SpawnAtStartup => ConfigDirtyFlags { spawn_at_startup: true, ..self },
            DirtyFlag::Environment => ConfigDirtyFlags { environment: true, ..self },
            DirtyFlag::Workspaces => ConfigDirtyFlags { workspaces: true, ..self },
        }
    }

    /// The recorded field paths, in insertion order.
    pub open spec fn paths(self) -> Seq<Seq<char>> {
        path_set_contents(self.dirty_paths)
    }

    /// Every section flag agrees between `self` and `other`.
    pub open spec fn same_flags(self, other: Self) -> bool {
        &&& self.layout == other.layout
        &&& self.input == other.input
        &&& self.cursor == other.cursor
        &&& self.keyboard == other.keyboard
        &&& self.outputs == other.outputs
        &&& self.animations == other.animations
        &&& self.window_rules == other.window_rules
        &&& self.layer_rules == other.layer_rules
        &&& self.binds == other.binds
        &&& self.gestures == other.gestures
        &&& self.overview == other.overview
        &&& self.recent_windows == other.recent_windows
        &&& self.clipboard == other.clipboard
        &&& self.hotkey_overlay == other.hotkey_overlay
        &&& self.config_notification == other.config_notification
        &&& self.debug == other.debug
        &&& self.xwayland_satellite == other.xwayland_satellite
        &&& self.misc == other.misc
        &&& self.spawn_at_startup == other.spawn_at_startup
        &&& self.environment == other.environment
        &&& self.workspaces == other.workspaces
    }

    /// Some section flag is set.
    pub open spec fn any_flag(self) -> bool {
        ||| self.layout
        ||| self.input
        ||| self.cursor
        ||| self.keyboard
        ||| self.outputs
        ||| self.animations
        ||| self.window_rules
        ||| self.layer_rules
        ||| self.binds
        ||| self.gestures
        ||| self.overview
        ||| self.recent_windows
        ||| self.clipboard
        ||| self.hotkey_overlay
        ||| self.config_notification
        ||| self.debug
        ||| self.xwayland_satellite
        ||| self.misc
        ||| self.spawn_at_startup
        ||| self.environment
        ||| self.workspaces
    }

    /// Some section flag is set or some path is recorded.
    pub open spec fn is_any(self) -> bool {
        self.any_flag() || self.paths().len() > 0
    }

    /// No section flag is set and no path is recorded.
    pub open spec fn is_clear(self) -> bool {
        !self.any_flag() && self.paths().len() == 0
    }

    /// A set of flags with every flag cleared and no path recorded.
    pub fn new() -> (r: Self)
        ensures
            r.is_clear(),
    {
        ConfigDirtyFlags {
            layout: false,
            input: false,
            cursor: false,
            keyboard: false,
            outputs: false,
            animations: false,
            window_rules: false,
            layer_rules: false,
            binds: false,
            gestures: false,
            overview: false,
            recent_windows: false,
            clipboard: false,
            hotkey_overlay: false,
            config_notification: false,
            debug: false,
            xwayland_satellite: false,
            misc: false,
            spawn_at_startup: false,
            environment: false,
            workspaces: false,
            dirty_paths: path_set_new(),
        }
    }

    /// Record that the field at `path` changed; a path already recorded keeps
    /// its place and is not recorded twice.
    pub fn mark_dirty(&mut self, path: &str)
        ensures
            final(self).same_flags(*old(self)),
            final(self).paths() == with_path(old(self).paths(), path@),
    {
        let p = path.to_string();
        path_set_insert(&mut self.dirty_paths, p);
    }

    /// Return the recorded paths in insertion order and forget them.
    pub fn take_dirty_paths(&mut self) -> (r: Vec<String>)
        ensures
            final(self).same_flags(*old(self)),
            final(self).paths().len() == 0,
            r@.len() == old(self).paths().len(),
            forall|i: int| 0 <= i < r@.len() ==> #[trigger] r@[i]@ == old(self).paths()[i],
    {
        let mut taken = path_set_new();
        std::mem::swap(&mut taken, &mut self.dirty_paths);
        path_set_into_vec(taken)
    }

    /// Whether any section flag is set or any path is recorded.
    pub fn any(&self) -> (r: bool)
        ensures
            r == self.is_any(),
    {
        let r = self.layout || self.input || self.cursor || self.keyboard || self.outputs
            || self.animations || self.window_rules || self.layer_rules || self.binds
            || self.gestures || self.overview || self.recent_windows || self.clipboard
            || self.hotkey_overlay || self.config_notification || self.debug
            || self.xwayland_satellite || self.misc || self.spawn_at_startup
            || self.environment || self.workspaces || path_set_len(&self.dirty_paths) != 0;
        r
    }

    /// Clear every flag and every recorded path.
    pub fn clear(&mut self)
        ensures
            final(self).is_clear(),
    {
        *self = Self::new();
    }

    /// Return the current flags and paths, leaving everything cleared.
    pub fn take(&mut self) -> (r: Self)
        ensures
            r == *old(self),
            final(self).is_clear(),
    {
        let mut r = Self::new();
        std::mem::swap(&mut r, self);
        r
    }

    /// Set the section flag that `f` names; nothing else changes.
    pub fn mark(&mut self, f: DirtyFlag)
        ensures
            *final(self) == old(self).with_flag(f),
    {
        match f {
            DirtyFlag::Input => {
                self.input = true;
                assert(*self == old(self).with_flag(f));
            },
            DirtyFlag::Outputs => {
                self.outputs = true;
                assert(*self == old(self).with_flag(f));
            },
            DirtyFlag::Layout => {
                self.layout = true;
                assert(*self == old(self).with_flag(f));
            },
            DirtyFlag::Animations => {
                self.animations = true;
                assert(*self == old(self).with_flag(f));
            },
            DirtyFlag::WindowRules => {
                self.window_rules = true;
                assert(*self == old(self).with_flag(f));
            },
            DirtyFlag::LayerRules => {
                self.layer_rules = true;
                assert(*self == old(self).with_flag(f));
            },
            DirtyFlag::Binds => {
                self.binds = true;
                assert(*self == old(self).with_flag(f));
            },
            DirtyFlag::Cursor => {
                self.cursor = true;
                assert(*self == old(self).with_flag(f));
            },
            DirtyFlag::Keyboard => {
                self.keyboard = true;
                assert(*self == old(self).with_flag(f));
            },
            DirtyFlag::Gestures => {
                self.gestures = true;
                assert(*self == old(self).with_flag(f));
            },
            DirtyFlag::Overview => {
                self.overview = true;
                assert(*self == old(self).with_flag(f));
            },
            DirtyFlag::RecentWindows => {
                self.recent_windows = true;
                assert(*self == old(self).with_flag(f));
            },
            DirtyFlag::Clipboard => {
                self.clipboard = true;
                assert(*self == old(self).with_flag(f));
            },
            DirtyFlag::HotkeyOverlay => {
                self.hotkey_overlay = true;
                assert(*self == old(self).with_flag(f));
            },
            DirtyFlag::ConfigNotification => {
                self.config_notification = true;
                assert(*self == old(self).with_flag(f));
            },
            DirtyFlag::Debug => {
                self.debug = true;
                assert(*self == old(self).with_flag(f));
            },
            DirtyFlag::XwaylandSatellite => {
                self.xwayland_satellite = true;
                assert(*self == old(self).with_flag(f));
            },
            DirtyFlag::Misc => {
                self.misc = true;
                assert(*self == old(self).with_flag(f));
            },
            DirtyFlag::SpawnAtStartup => {
                self.spawn_at_startup = true;
                assert(*self == old(self).with_flag(f));
            },
            DirtyFlag::Environment => {
                self.environment = true;
                assert(*self == old(self).with_flag(f));
            },
            DirtyFlag::Workspaces => {
                self.workspaces = true;
                assert(*self == old(self).with_flag(f));
            },
        }
    }

    /// Whether the section flag that `f` names is set.
    pub fn is_dirty(&self, f: DirtyFlag) -> (r: bool)
        ensures
            r == self.flag(f),
    {
        match f {
            DirtyFlag::Input => self.input,
            DirtyFlag::Outputs => self.outputs,
            DirtyFlag::Layout => self.layout,
            DirtyFlag::Animations => self.animations,
            DirtyFlag::WindowRules => self.window_rules,
            DirtyFlag::LayerRules => self.layer_rules,
            DirtyFlag::Binds => self.binds,
            DirtyFlag::Cursor => self.cursor,
            DirtyFlag::Keyboard => self.keyboard,
            DirtyFlag::Gestures => self.gestures,
            DirtyFlag::Overview => self.overview,
            DirtyFlag::RecentWindows => self.recent_windows,
            DirtyFlag::Clipboard => self.clipboard,
            DirtyFlag::HotkeyOverlay => self.hotkey_overlay,
            DirtyFlag::ConfigNotification => self.config_notification,
            DirtyFlag::Debug => self.debug,
            DirtyFlag::XwaylandSatellite => self.xwayland_satellite,
            DirtyFlag::Misc => self.misc,
            DirtyFlag::SpawnAtStartup => self.spawn_at_startup,
            DirtyFlag::Environment => self.environment,
            DirtyFlag::Workspaces => self.workspaces,
        }
    }
}

impl Default for ConfigDirtyFlags {
    fn default() -> (r: Self)
        ensures
            r.is_clear(),
    {
        Self::new()
    }
}

} // verus!
