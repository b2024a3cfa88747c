use niri_lua::dirty::{ConfigDirtyFlags, DirtyFlag};


#[test]
fn test_default_flags_are_false() {
    let flags = ConfigDirtyFlags::default();
    assert!(!flags.layout);
    assert!(!flags.input);
    assert!(!flags.cursor);
    assert!(!flags.keyboard);
    assert!(!flags.outputs);
    assert!(!flags.animations);
    assert!(!flags.window_rules);
    assert!(!flags.misc);
}

#[test]
fn test_any_returns_false_when_all_clear() {
    let flags = ConfigDirtyFlags::default();
    assert!(!flags.any());
}

#[test]
fn test_any_returns_true_when_one_set() {
    let flags = ConfigDirtyFlags {
        layout: true,
        ..Default::default()
    };
    assert!(flags.any());
}

#[test]
fn test_clear_resets_all_flags() {
    let mut flags = ConfigDirtyFlags {
        layout: true,
        input: true,
        cursor: true,
        ..Default::default()
    };
    flags.clear();
    assert!(!flags.any());
}

#[test]
fn test_take_returns_current_and_resets() {
    let mut flags = ConfigDirtyFlags {
        layout: true,
        animations: true,
        ..Default::default()
    };

    let taken = flags.take();

    // The flags taken from are cleared
    assert!(!flags.any());
    assert!(!flags.layout);

    // Taken should have the values
    assert!(taken.layout);
    assert!(taken.animations);
}

#[test]
fn test_mark_dirty_adds_path() {
    let mut flags = ConfigDirtyFlags::default();
    flags.mark_dirty("layout.gaps");
    flags.mark_dirty("input.touchpad.natural_scroll");

    assert!(flags.dirty_paths.contains("layout.gaps"));
    assert!(flags.dirty_paths.contains("input.touchpad.natural_scroll"));
    assert_eq!(flags.dirty_paths.len(), 2);
}

#[test]
fn test_mark_dirty_deduplicates() {
    let mut flags = ConfigDirtyFlags::default();
    flags.mark_dirty("layout.gaps");
    flags.mark_dirty("layout.gaps");
    flags.mark_dirty("layout.gaps");

    assert_eq!(flags.dirty_paths.len(), 1);
}

#[test]
fn test_take_dirty_paths_returns_and_clears() {
    let mut flags = ConfigDirtyFlags::default();
    flags.mark_dirty("layout.gaps");
    flags.mark_dirty("layout.border");

    let paths = flags.take_dirty_paths();

    assert_eq!(paths.len(), 2);
    assert!(paths.contains(&"layout.gaps".to_string()));
    assert!(paths.contains(&"layout.border".to_string()));
    assert!(flags.dirty_paths.is_empty());
}

#[test]
fn test_any_returns_true_when_dirty_paths_set() {
    let mut flags = ConfigDirtyFlags::default();
    assert!(!flags.any());

    flags.mark_dirty("layout.gaps");
    assert!(flags.any());
}

#[test]
fn test_clear_also_clears_dirty_paths() {
    let mut flags = ConfigDirtyFlags::default();
    flags.layout = true;
    flags.mark_dirty("layout.gaps");

    flags.clear();

    assert!(!flags.layout);
    assert!(flags.dirty_paths.is_empty());
    assert!(!flags.any());
}

#[test]
fn test_config_state_creation() {
    let flags = ConfigDirtyFlags::default();
    assert!(!flags.any());
}

#[test]
fn test_mark_dirty() {
    let mut flags = ConfigDirtyFlags::default();
    assert!(!flags.any());

    flags.mark(DirtyFlag::Layout);
    assert!(flags.any());
    assert!(flags.layout);

    flags.mark(DirtyFlag::Animations);
    assert!(flags.animations);
}

#[test]
fn test_all_dirty_flags() {
    let mut flags = ConfigDirtyFlags::default();
    let all = [
        DirtyFlag::Input,
        DirtyFlag::Outputs,
        DirtyFlag::Layout,
        DirtyFlag::Animations,
        DirtyFlag::WindowRules,
        DirtyFlag::LayerRules,
        DirtyFlag::Binds,
        DirtyFlag::Cursor,
        DirtyFlag::Keyboard,
        DirtyFlag::Gestures,
        DirtyFlag::Overview,
        DirtyFlag::RecentWindows,
        DirtyFlag::Clipboard,
        DirtyFlag::HotkeyOverlay,
        DirtyFlag::ConfigNotification,
        DirtyFlag::Debug,
        DirtyFlag::XwaylandSatellite,
        DirtyFlag::Misc,
        DirtyFlag::SpawnAtStartup,
        DirtyFlag::Environment,
        DirtyFlag::Workspaces,
    ];
    for flag in all {
        flags.mark(flag);
        assert!(flags.is_dirty(flag));
    }
    assert!(flags.any());
}
