//! The handles of the Lua runtime that the library stores and calls.
use vstd::prelude::*;
use mlua::{Error, Function, Lua, RegistryKey, Value};

verus! {

#[verifier::external_type_specification]
#[verifier::external_body]
pub struct ExLuaFunction(Function);

#[verifier::external_type_specification]
#[verifier::external_body]
pub struct ExLuaValue(Value);

#[verifier::external_type_specification]
#[verifier::external_body]
pub struct ExLua(Lua);

#[verifier::external_type_specification]
#[verifier::external_body]
pub struct ExLuaRegistryKey(RegistryKey);

#[verifier::external_type_specification]
#[verifier::external_body]
pub struct ExLuaError(Error);

/// Whether the function `f` belongs to the runtime `lua`: its handle refers
/// to the same main Lua state (`Function::weak_lua` equals `Lua::weak`).
pub uninterp spec fn function_of_runtime(f: Function, lua: Lua) -> bool;

/// Whether the value `v` can be handed to the runtime `lua`: it holds no
/// reference into a Lua state, or one into the same main state
/// (`Value::weak_lua` is `None` or equals `Lua::weak`).
pub uninterp spec fn value_of_runtime(v: Value, lua: Lua) -> bool;

/// Compares `Function::weak_lua` with `Lua::weak` (`WeakLua` equality, which
/// compares the two weak handles of the state).
#[verifier::external_body]
pub(crate) fn function_belongs(lua: &Lua, f: &Function) -> (r: bool)
    ensures
        r == function_of_runtime(*f, *lua),
{
    *f.weak_lua() == lua.weak()
}

/// Compares `Value::weak_lua` with `Lua::weak`; a value without a reference
/// (`None`) can be handed to any runtime.
#[verifier::external_body]
pub(crate) fn value_belongs(lua: &Lua, v: &Value) -> (r: bool)
    ensures
        r == value_of_runtime(*v, *lua),
{
    match v.weak_lua() {
        Some(w) => *w == lua.weak(),
        None => true,
    }
}

/// Calls `Function::call` with a clone of `data` as its one argument and no
/// result. `Function::call` panics when the function's Lua state is gone or
/// when the argument refers to another main state; both are left out: the
/// function and the data belong to `lua`, which the caller holds alive. What
/// the call returns depends on the Lua code of the function and the state of
/// the runtime, so nothing is promised of it; the second part of the result
/// records, as ghost values, the function that was called and the data it
/// was given.
#[verifier::external_body]
pub(crate) fn call_handler(lua: &Lua, f: &Function, data: &Value) -> (r: (Result<(), Error>, Ghost<(Function, Value)>))
    requires
        function_of_runtime(*f, *lua),
        value_of_runtime(*data, *lua),
    ensures
        r.1@ == (*f, *data),
{
    (f.call::<()>(data.clone()), Ghost((*f, *data)))
}

/// Calls `Lua::create_registry_value` to store a function in the registry of
/// the runtime. Pushing a function of another main Lua state panics, so the
/// function must belong to `lua`. Whether it succeeds depends on the
/// runtime's state, so nothing is promised of it; the second part of the
/// result records, as a ghost value, the function that was handed to the
/// registry.
#[verifier::external_body]
pub(crate) fn store_in_registry(lua: &Lua, f: Function) -> (r: (Result<RegistryKey, Error>, Ghost<Function>))
    requires
        function_of_runtime(f, *lua),
    ensures
        r.1@ == f,
{
    let record = Ghost(f);
    (lua.create_registry_value(f), record)
}

/// Calls `Lua::registry_value` to read back a function stored in the
/// registry. The result depends on the runtime's state; a function it gives
/// is a reference into `lua`'s state, so it belongs to `lua`. The second
/// part of the result records, as a ghost value, the key that was read.
#[verifier::external_body]
pub(crate) fn load_from_registry(lua: &Lua, key: &RegistryKey) -> (r: (Result<Function, Error>, Ghost<RegistryKey>))
    ensures
        r.0 matches Ok(f) ==> function_of_runtime(f, *lua),
        r.1@ == *key,
{
    (lua.registry_value::<Function>(key), Ghost(*key))
}

/// Whether the function `f` belongs to the runtime `lua`, as registering it
/// requires.
pub fn belongs_to_runtime(lua: &Lua, f: &Function) -> (r: bool)
    ensures
        r == function_of_runtime(*f, *lua),
{
    function_belongs(lua, f)
}

} // verus!
