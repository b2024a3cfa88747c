# niri_lua

The decisions behind niri's Lua scripting, verified with Verus: how script
values become compositor actions, how pending configuration changes are
applied, how event handlers and callbacks are kept, and what the derive
macros generate.

## Layout

- `src/` — the verified library.
  - `text`, `numbers`, `color`, `values`: reading and writing the small
    textual values that scripts use (integers, hex colors, size and position
    changes, transforms, layout targets).
  - `actions`, `bind_table`, `proxy`: the actions that key bindings, bind
    tables and the `niri.action` methods name.
  - `accessors`: the `niri.config.*` properties, the setting each reads and
    writes, and how a value given from Lua becomes it; reads fall back to
    the configuration's values that the embedder supplies.
  - `animations`: easing curves, easing parameters, the spring-or-easing
    choice and the overrides of one animation.
  - `json`, `settings`, `pending`, `collection_items`: pending configuration
    changes and their application to a configuration model, and the items
    that the configuration collections hold.
  - `dirty`, `events`, `callbacks`, `lua`, `event_data`: dirty flags, event
    handlers, the callback registry (Lua functions are carried, not
    inspected) and the kinds of events the compositor emits.
  - `rename`, `derive_plan`, `property_plan`: the plans of the derive macros.
  - `api_schema`, `config_load`, `config_access`: the documented Lua API,
    what a returned configuration table becomes, and how the `niri.config`
    table and its section proxies resolve reads, assignments and tables
    applied to sections.
  - `laws`: properties that relate several operations.
- `app/` — the glue to mlua, niri-ipc, serde_json and syn/quote: the
  configuration loading, the `niri.config` proxies and collections, the
  animation tables, the action proxy, the event system
  and the derive macros' token output.
- `tests/` — tests of the library.

Floating-point values are carried as a type parameter `F`: the library never
computes with them, the glue does.
