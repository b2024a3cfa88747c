use niri_lua::json::Json;
use niri_lua::pending::{apply_pending_lua_config, bind_matches_criteria, Bind, ConfigModel, PendingConfigChanges};

fn text(s: &str) -> Json<f64> {
    Json::String(s.to_string())
}

fn obj(entries: Vec<(&str, Json<f64>)>) -> Json<f64> {
    Json::Object(entries.into_iter().map(|(k, v)| (k.to_string(), v)).collect())
}

fn arr(items: Vec<Json<f64>>) -> Json<f64> {
    Json::Array(items)
}

#[test]
fn criteria_must_be_an_object() {
    assert!(!bind_matches_criteria("Mod+T", "Spawn", &text("Mod+T")));
    assert!(bind_matches_criteria("Mod+T", "Spawn", &obj(vec![])));
}

#[test]
fn key_criteria_match_by_containment() {
    let c = obj(vec![("key", text("Mod+T"))]);
    assert!(bind_matches_criteria("Key { Mod+T }", "Spawn", &c));
    assert!(!bind_matches_criteria("Key { Mod+Q }", "Spawn", &c));
    let ignored = obj(vec![("key", Json::Bool(true))]);
    assert!(bind_matches_criteria("anything", "Spawn", &ignored));
}

#[test]
fn action_criteria_ignore_letter_case() {
    let c = obj(vec![("action", text("FOCUSCOLUMN"))]);
    assert!(bind_matches_criteria("Mod+H", "FocusColumnLeft", &c));
    assert!(!bind_matches_criteria("Mod+H", "MoveColumnLeft", &c));
    let both = obj(vec![("key", text("Mod+H")), ("action", text("focus"))]);
    assert!(bind_matches_criteria("Mod+H", "FocusColumnLeft", &both));
    assert!(!bind_matches_criteria("Mod+L", "FocusColumnLeft", &both));
}

#[test]
fn removal_uses_the_criteria() {
    let mut config: ConfigModel<f64> = ConfigModel::new();
    let mut add = PendingConfigChanges::new();
    add.collection_additions.push(("binds".to_string(), vec![
        obj(vec![("key", text("Mod+T")), ("action", text("spawn")), ("args", arr(vec![text("alacritty")]))]),
        obj(vec![("key", text("Mod+Q")), ("action", text("close-window"))]),
    ]));
    let matcher = |b: &Bind<f64>, c: &Json<f64>| bind_matches_criteria(&b.key, "", c);
    apply_pending_lua_config(&mut add, &mut config, &matcher);
    let before = config.binds.len();
    let mut remove = PendingConfigChanges::new();
    remove.collection_removals.push(("binds".to_string(), vec![obj(vec![("key", text("Mod+Q"))])]));
    apply_pending_lua_config(&mut remove, &mut config, &matcher);
    assert_eq!(config.binds.len(), before - 1);
    assert!(config.binds.iter().all(|b| b.key != "Mod+Q"));
}

#[test]
fn removals_are_not_counted() {
    let mut config: ConfigModel<f64> = ConfigModel::new();
    let matcher = |b: &Bind<f64>, c: &Json<f64>| bind_matches_criteria(&b.key, "", c);
    let mut add = PendingConfigChanges::new();
    add.record_additions("binds".to_string(), vec![obj(vec![("key", text("Mod+Q")), ("action", text("close-window"))])]);
    assert_eq!(apply_pending_lua_config(&mut add, &mut config, &matcher), 1);
    let mut remove = PendingConfigChanges::new();
    remove.record_removals("binds".to_string(), vec![obj(vec![("key", text("Mod+Q"))])]);
    assert_eq!(apply_pending_lua_config(&mut remove, &mut config, &matcher), 0);
    assert!(config.binds.is_empty());
    // Applying again, with nothing recorded, changes nothing.
    assert_eq!(apply_pending_lua_config(&mut remove, &mut config, &matcher), 0);
}

#[test]
fn recording_keeps_one_entry_per_name() {
    let mut p: PendingConfigChanges<f64> = PendingConfigChanges::new();
    p.record_scalar_change("layout.gaps".to_string(), Json::Bool(true));
    p.record_scalar_change("layout.gaps".to_string(), text("x"));
    p.record_scalar_change("prefer_no_csd".to_string(), Json::Bool(true));
    assert_eq!(p.scalar_changes.len(), 2);
    assert!(matches!(&p.scalar_changes[0].1, Json::String(s) if s == "x"));
    p.record_additions("binds".to_string(), vec![text("a")]);
    p.record_additions("binds".to_string(), vec![text("b"), text("c")]);
    assert_eq!(p.collection_additions.len(), 1);
    assert_eq!(p.collection_additions[0].1.len(), 3);
    p.record_replacement("workspaces".to_string(), vec![text("a")]);
    p.record_replacement("workspaces".to_string(), vec![]);
    assert_eq!(p.collection_replacements.len(), 1);
    assert!(p.collection_replacements[0].1.is_empty());
}
