use mlua::Function as LuaFunction;
use mlua::Lua;
use niri_lua::callbacks::CallbackRegistry;


#[test]
fn test_callback_registry_new() {
    let registry = CallbackRegistry::new();
    assert_eq!(registry.next_id(), 1);
    assert!((registry.len() == 0));
}

#[test]
fn test_callback_registry_register() {
    let lua = Lua::new();
    let mut registry = CallbackRegistry::new();

    let func: LuaFunction = lua.create_function(|_, ()| Ok(42)).unwrap();
    let id = registry.register(&lua, func).unwrap();
    assert_eq!(id, 1);
    assert_eq!(registry.len(), 1);
    assert!(registry.contains(1));
}

#[test]
fn test_callback_registry_get() {
    let lua = Lua::new();
    let mut registry = CallbackRegistry::new();

    let func: LuaFunction = lua
        .create_function(|_, ()| Ok("hello".to_string()))
        .unwrap();
    let id = registry.register(&lua, func).unwrap();

    let retrieved = registry.get(&lua, id).0.unwrap().unwrap();
    let result: String = retrieved.call(()).unwrap();
    assert_eq!(result, "hello");
}

#[test]
fn test_callback_registry_get_nonexistent() {
    let lua = Lua::new();
    let registry = CallbackRegistry::new();

    let result = registry.get(&lua, 999).0.unwrap();
    assert!(result.is_none());
}

#[test]
fn test_callback_registry_unregister() {
    let lua = Lua::new();
    let mut registry = CallbackRegistry::new();

    let func: LuaFunction = lua.create_function(|_, ()| Ok(true)).unwrap();
    let id = registry.register(&lua, func).unwrap();
    assert!(registry.contains(id));

    let key = registry.unregister(id);
    assert!(key.is_some());
    assert!(!registry.contains(id));

    let retrieved = registry.get(&lua, id).0.unwrap();
    assert!(retrieved.is_none());
}

#[test]
fn test_callback_registry_unregister_nonexistent() {
    let mut registry = CallbackRegistry::new();
    let key = registry.unregister(999);
    assert!(key.is_none());
}

#[test]
fn test_callback_registry_clear() {
    let lua = Lua::new();
    let mut registry = CallbackRegistry::new();

    for i in 0..3 {
        let func: LuaFunction = lua.create_function(move |_, ()| Ok(i)).unwrap();
        registry.register(&lua, func).unwrap();
    }
    assert_eq!(registry.len(), 3);

    let keys = registry.clear();
    assert_eq!(keys.len(), 3);
    assert!((registry.len() == 0));
}

#[test]
fn test_callback_registry_unique_ids() {
    let lua = Lua::new();
    let mut registry = CallbackRegistry::new();

    let mut ids = Vec::new();
    for _ in 0..5 {
        let func: LuaFunction = lua.create_function(|_, ()| Ok(())).unwrap();
        let id = registry.register(&lua, func).unwrap();
        ids.push(id);
    }

    let mut sorted_ids = ids.clone();
    sorted_ids.sort();
    sorted_ids.dedup();
    assert_eq!(sorted_ids.len(), ids.len());
    assert_eq!(ids, vec![1, 2, 3, 4, 5]);
}

#[test]
fn functions_register_only_in_their_own_runtime() {
    let lua = Lua::new();
    let other = Lua::new();
    let f = lua.create_function(|_, ()| Ok(())).unwrap();
    assert!(niri_lua::lua::belongs_to_runtime(&lua, &f));
    assert!(!niri_lua::lua::belongs_to_runtime(&other, &f));
}
