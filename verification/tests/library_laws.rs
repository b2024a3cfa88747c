use mlua::Lua;
use mlua::Value as LuaValue;
use niri_lua::actions::Action;
use niri_lua::bind_table::{extract_action, ActionError, ActionFields, PositionValue};
use niri_lua::callbacks::CallbackRegistry;
use niri_lua::color::{color_to_hex, color_to_hex_noalpha, parse_hex_color, Rgba8};
use niri_lua::config_load::{promoted_fields, ConfigSource};
use niri_lua::dirty::{ConfigDirtyFlags, DirtyFlag};
use niri_lua::events::EventHandlers;
use niri_lua::numbers::{i64_text, parse_u16, u64_text};
use niri_lua::proxy::{proxy_call, signature_of, ArgKind, ProxyArg, ProxyError, ProxyValue};

fn fields(action: &str) -> ActionFields<f64, String> {
    ActionFields {
        action: Some(action.to_string()),
        skip_confirmation: None,
        args: Ok(vec![]),
        command: None,
        delay_ms: None,
        write_to_disk: None,
        show_pointer: None,
        path: None,
        id: None,
        index: None,
        name: None,
        display: None,
        focus: None,
        window_id: None,
        reference_int: None,
        reference_text: None,
        reference_table: None,
        output: None,
        fixed: None,
        proportion: None,
        change: None,
        value: None,
        layout_int: None,
        layout_text: None,
        target: None,
        x: PositionValue::Nil,
        y: PositionValue::Nil,
    }
}

#[test]
fn marking_a_path_twice_records_it_once() {
    let mut d = ConfigDirtyFlags::new();
    d.mark_dirty("layout.gaps");
    d.mark_dirty("layout.gaps");
    assert_eq!(d.take_dirty_paths(), vec!["layout.gaps".to_string()]);
}

#[test]
fn marking_a_flag_makes_it_dirty_and_clearing_cleans() {
    let mut d = ConfigDirtyFlags::new();
    d.mark(DirtyFlag::Layout);
    assert!(d.is_dirty(DirtyFlag::Layout));
    assert!(!d.is_dirty(DirtyFlag::Input));
    assert!(d.any());
    d.clear();
    assert!(!d.any());
    assert!(!d.is_dirty(DirtyFlag::Layout));
}

#[test]
fn unregistering_undoes_registering() {
    let lua = Lua::new();
    let mut handlers = EventHandlers::new();
    let f = lua.create_function(|_, ()| Ok(())).unwrap();
    handlers.register_handler("ev", f.clone(), false);
    let before = handlers.handler_count("ev");
    let id = handlers.register_handler("ev", f, false);
    assert!(handlers.unregister_handler("ev", id));
    assert_eq!(handlers.handler_count("ev"), before);
    assert!(!handlers.unregister_handler("ev", id));
}

#[test]
fn handler_ids_are_distinct() {
    let lua = Lua::new();
    let mut handlers = EventHandlers::new();
    let f = lua.create_function(|_, ()| Ok(())).unwrap();
    let a = handlers.register_handler("ev", f.clone(), false);
    let b = handlers.register_handler("ev", f.clone(), true);
    let c = handlers.register_handler("other", f, false);
    assert!(a != b && b != c && a != c);
}

#[test]
fn emission_keeps_persistent_and_drops_once_handlers() {
    let lua = Lua::new();
    let mut handlers = EventHandlers::new();
    let f = lua.create_function(|_, ()| Ok(())).unwrap();
    handlers.register_handler("ev", f.clone(), false);
    handlers.register_handler("ev", f.clone(), true);
    handlers.register_handler("ev", f, false);
    handlers.emit_event(&lua, "ev", LuaValue::Nil).ok();
    assert_eq!(handlers.handler_count("ev"), 2);
}

#[test]
fn failing_handler_does_not_stop_the_others() {
    let lua = Lua::new();
    let mut handlers = EventHandlers::new();
    lua.globals().set("ran", 0).unwrap();
    let failing = lua.create_function(|_, ()| -> mlua::Result<()> { Err(mlua::Error::runtime("boom")) }).unwrap();
    let counting = lua
        .create_function(|lua, ()| {
            let n: i64 = lua.globals().get("ran")?;
            lua.globals().set("ran", n + 1)
        })
        .unwrap();
    handlers.register_handler("ev", failing, true);
    handlers.register_handler("ev", counting, false);
    assert!(handlers.emit_event(&lua, "ev", LuaValue::Nil).is_ok());
    assert_eq!(lua.globals().get::<i64>("ran").unwrap(), 1);
    // The failing one-time handler ran, so it is removed; the other stays.
    assert_eq!(handlers.handler_count("ev"), 1);
    assert_eq!(handlers.total_handlers(), 1);
}

#[test]
fn next_callback_id_is_unused() {
    let lua = Lua::new();
    let mut registry = CallbackRegistry::new();
    for _ in 0..3 {
        let f = lua.create_function(|_, ()| Ok(())).unwrap();
        registry.register(&lua, f).unwrap();
    }
    registry.unregister(2);
    assert!(!registry.contains(registry.next_id()));
    assert_eq!(registry.next_id(), 4);
}

#[test]
fn hex_colors_read_back() {
    let c = Rgba8 { r: 0x12, g: 0xab, b: 0x00, a: 0x7f };
    let hex = color_to_hex(c);
    assert_eq!(hex, "#12ab007f");
    let back = parse_hex_color(&hex).unwrap();
    assert_eq!((back.r, back.g, back.b, back.a), (0x12, 0xab, 0x00, 0x7f));
    let no_alpha = color_to_hex_noalpha(c);
    assert_eq!(no_alpha, "#12ab00");
    let back = parse_hex_color(&no_alpha).unwrap();
    assert_eq!((back.r, back.g, back.b, back.a), (0x12, 0xab, 0x00, 0xff));
}

#[test]
fn decimals_read_back() {
    assert_eq!(u64_text(300), "300");
    assert_eq!(parse_u16(&u64_text(300)), Some(300));
    assert_eq!(i64_text(-42), "-42");
    assert_eq!(u64_text(0), "0");
}

#[test]
fn action_names_are_normalized() {
    for name in ["focus_column_left", "Focus-Column-Left", "FOCUS COLUMN LEFT", "focuscolumnleft"] {
        assert!(matches!(extract_action(fields(name)), Ok(Action::FocusColumnLeft)), "{name}");
    }
    match extract_action(fields("Fly-Away")) {
        Err(ActionError::UnknownAction(s)) => assert_eq!(s, "Fly-Away"),
        _ => panic!("expected an unknown action"),
    }
}

#[test]
fn proxy_accepts_exactly_its_signature() {
    let sig = signature_of("move_column_to_workspace").unwrap();
    assert_eq!(sig, vec![ArgKind::Value, ArgKind::Flag]);
    let ok = proxy_call::<f64, String>("move_column_to_workspace", vec![
        ProxyArg::Value(ProxyValue::Integer(3)),
        ProxyArg::Flag(None),
    ]);
    assert!(ok.is_ok());
    let swapped = proxy_call::<f64, String>("move_column_to_workspace", vec![
        ProxyArg::Flag(None),
        ProxyArg::Value(ProxyValue::Integer(3)),
    ]);
    assert!(matches!(swapped, Err(ProxyError::ArgumentKinds)));
}

#[test]
fn returned_table_fields_become_globals() {
    let file = promoted_fields(ConfigSource::File);
    let text = promoted_fields(ConfigSource::Text);
    assert_eq!(file.first(), Some(&("binds", "binds")));
    assert_eq!(file.last(), Some(&("startup_commands", "startup")));
    assert_eq!(text.last(), Some(&("startup_commands", "startup")));
    assert!(file.contains(&("layer_rules", "layer_rules")));
    assert!(!text.contains(&("layer_rules", "layer_rules")));
    assert_eq!(file.len(), 25);
    assert_eq!(text.len(), 19);
}

#[test]
fn handlers_run_once_each_in_registration_order() {
    let lua = Lua::new();
    let mut handlers = EventHandlers::new();
    lua.load("calls = {}").exec().unwrap();
    for name in ["first", "second", "third"] {
        let f = lua
            .create_function(move |lua, data: LuaValue| {
                let calls: mlua::Table = lua.globals().get("calls")?;
                let n: i64 = match data {
                    LuaValue::Integer(i) => i,
                    _ => -1,
                };
                calls.push(format!("{}:{}", name, n))
            })
            .unwrap();
        handlers.register_handler("ev", f, name == "second");
    }
    assert!(handlers.emit_event(&lua, "ev", LuaValue::Integer(7)).is_ok());
    let calls: Vec<String> = lua.load("return calls").eval().unwrap();
    assert_eq!(calls, vec!["first:7", "second:7", "third:7"]);
    assert_eq!(handlers.handler_count("ev"), 2);
}
