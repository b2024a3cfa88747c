use mlua::Lua;
use mlua::Value as LuaValue;
use niri_lua::events::EventHandlers;


#[test]
fn test_new_empty() {
    let handlers = EventHandlers::new();
    assert_eq!(handlers.total_handlers(), 0);
    assert_eq!(handlers.handler_count("test"), 0);
}

#[test]
fn test_register_handler() {
    let lua = Lua::new();
    let mut handlers = EventHandlers::new();

    let callback = lua.create_function(|_, ()| Ok(())).unwrap();
    let id1 = handlers.register_handler("test_event", callback.clone(), false);
    let id2 = handlers.register_handler("test_event", callback, false);

    assert_eq!(id1, 1);
    assert_eq!(id2, 2);
    assert_eq!(handlers.handler_count("test_event"), 2);
}

#[test]
fn test_unregister_handler() {
    let lua = Lua::new();
    let mut handlers = EventHandlers::new();

    let callback = lua.create_function(|_, ()| Ok(())).unwrap();
    let id = handlers.register_handler("test_event", callback, false);

    assert_eq!(handlers.handler_count("test_event"), 1);
    assert!(handlers.unregister_handler("test_event", id));
    assert_eq!(handlers.handler_count("test_event"), 0);
}

#[test]
fn test_unregister_nonexistent() {
    let mut handlers = EventHandlers::new();
    assert!(!handlers.unregister_handler("test_event", 999));
}

#[test]
fn emit_calls_handlers() {
    let lua = Lua::new();
    let mut handlers = EventHandlers::new();

    // Create a Lua table to track if handler was called
    let called = lua.create_table().unwrap();
    called.set("value", false).unwrap();

    let called_clone = called.clone();
    let callback = lua
        .create_function(move |_, ()| {
            called_clone.set("value", true).unwrap();
            Ok(())
        })
        .unwrap();

    handlers.register_handler("test", callback, false);

    let data = lua.create_table().unwrap();
    handlers.emit_event(&lua, "test", LuaValue::Table(data)).ok();

    let value: bool = called.get("value").unwrap();
    assert!(value);
}

#[test]
fn test_once_handler_removal() {
    let lua = Lua::new();
    let mut handlers = EventHandlers::new();

    let callback = lua.create_function(|_, ()| Ok(())).unwrap();
    handlers.register_handler("once_event", callback, true);

    assert_eq!(handlers.handler_count("once_event"), 1);

    let data = lua.create_table().unwrap();
    handlers.emit_event(&lua, "once_event", LuaValue::Table(data)).ok();

    // Handler should be removed after execution
    assert_eq!(handlers.handler_count("once_event"), 0);
}

#[test]
fn test_clear_event() {
    let lua = Lua::new();
    let mut handlers = EventHandlers::new();

    let callback = lua.create_function(|_, ()| Ok(())).unwrap();
    handlers.register_handler("event1", callback.clone(), false);
    handlers.register_handler("event1", callback.clone(), false);
    handlers.register_handler("event2", callback, false);

    assert_eq!(handlers.handler_count("event1"), 2);
    assert_eq!(handlers.handler_count("event2"), 1);

    handlers.clear_event("event1");

    assert_eq!(handlers.handler_count("event1"), 0);
    assert_eq!(handlers.handler_count("event2"), 1);
}

#[test]
fn test_clear_all() {
    let lua = Lua::new();
    let mut handlers = EventHandlers::new();

    let callback = lua.create_function(|_, ()| Ok(())).unwrap();
    handlers.register_handler("event1", callback.clone(), false);
    handlers.register_handler("event2", callback, false);

    assert_eq!(handlers.total_handlers(), 2);
    handlers.clear_all();
    assert_eq!(handlers.total_handlers(), 0);
}

#[test]
fn test_event_types() {
    let lua = Lua::new();
    let mut handlers = EventHandlers::new();

    let callback = lua.create_function(|_, ()| Ok(())).unwrap();
    handlers.register_handler("event1", callback.clone(), false);
    handlers.register_handler("event2", callback, false);

    let mut types = handlers.event_types();
    types.sort();

    assert_eq!(types, vec!["event1".to_string(), "event2".to_string()]);
}

#[test]
fn test_event_system_new() {
    let handlers = EventHandlers::new();
    let stats = handlers.stats();
    assert_eq!(stats.total_handlers, 0);
    assert_eq!(stats.event_types, 0);
}

#[test]
fn test_event_system_emit_no_handlers() {
    let lua = Lua::new();
    let mut handlers = EventHandlers::new();
    let data = lua.create_table().unwrap();
    let result = handlers.emit_event(&lua, "test_event", LuaValue::Table(data));
    assert!(result.is_ok());
}

#[test]
fn test_event_system_stats() {
    let handlers = EventHandlers::new();
    let stats = handlers.stats();
    assert_eq!(stats.total_handlers, 0);
    assert_eq!(stats.event_types, 0);
}

#[test]
fn handlers_of_another_runtime_cannot_be_emitted() {
    let lua = Lua::new();
    let other = Lua::new();
    let mut handlers = EventHandlers::new();
    let f = lua.create_function(|_, ()| Ok(())).unwrap();
    handlers.register_handler("ev", f, false);
    assert!(handlers.can_emit(&lua, "ev", &LuaValue::Nil));
    assert!(!handlers.can_emit(&other, "ev", &LuaValue::Nil));
    let t = other.create_table().unwrap();
    assert!(!handlers.can_emit(&lua, "ev", &LuaValue::Table(t)));
    assert!(handlers.can_emit(&other, "nothing", &LuaValue::Integer(1)));
}
