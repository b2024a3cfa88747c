use niri_lua::config_access::{
    change_event_name, child_path, proxy_display, read_outcome, snapshot_lists, unknown_property_message,
    write_outcome, AssignedValue, PathEntry, ReadOutcome, WriteOutcome,
};
use niri_lua::config_access::{root_read_outcome, root_write_outcome, table_step, TableStep};
use niri_lua::dirty::DirtyFlag;

fn leaf(signal: bool) -> PathEntry {
    PathEntry::Property { nested: false, signal, dirty_flag: DirtyFlag::Layout }
}

fn nested() -> PathEntry {
    PathEntry::Property { nested: true, signal: false, dirty_flag: DirtyFlag::Layout }
}

#[test]
fn child_paths() {
    assert_eq!(child_path("", "layout"), "layout");
    assert_eq!(child_path("layout", "gaps"), "layout.gaps");
    assert_eq!(child_path("layout.focus_ring", "width"), "layout.focus_ring.width");
}

#[test]
fn reading_keys() {
    assert_eq!(read_outcome(&leaf(true)), ReadOutcome::Value);
    assert_eq!(read_outcome(&nested()), ReadOutcome::NestedProxy);
    assert_eq!(read_outcome(&PathEntry::Section), ReadOutcome::NestedProxy);
    assert_eq!(read_outcome(&PathEntry::Unknown), ReadOutcome::Unknown);
    assert_eq!(unknown_property_message("layout.gapz"), "unknown config property: layout.gapz");
}

#[test]
fn assigning_to_properties() {
    match write_outcome("layout.gaps", &leaf(true), &AssignedValue::Other("number".to_string())) {
        WriteOutcome::Assign { dirty_flag, signal } => {
            assert_eq!(dirty_flag, DirtyFlag::Layout);
            assert!(signal);
        }
        _ => panic!("expected the value to be set"),
    }
    assert!(matches!(write_outcome("layout", &nested(), &AssignedValue::Table), WriteOutcome::ApplyTable));
    match write_outcome("layout", &nested(), &AssignedValue::Other("number".to_string())) {
        WriteOutcome::Refused(m) => assert_eq!(m, "cannot assign number to nested config section 'layout', expected table"),
        _ => panic!("expected a refusal"),
    }
}

#[test]
fn assigning_to_sections() {
    assert!(matches!(write_outcome("input", &PathEntry::Section, &AssignedValue::Table), WriteOutcome::ApplyTable));
    assert!(matches!(write_outcome("input", &PathEntry::Section, &AssignedValue::Proxy("input".to_string())), WriteOutcome::Unchanged));
    match write_outcome("input", &PathEntry::Section, &AssignedValue::Proxy("layout".to_string())) {
        WriteOutcome::Refused(m) => assert_eq!(m, "cannot assign userdata to nested config section 'input', expected table"),
        _ => panic!("expected a refusal"),
    }
    match write_outcome("nope", &PathEntry::Unknown, &AssignedValue::Table) {
        WriteOutcome::Refused(m) => assert_eq!(m, "unknown config property: nope"),
        _ => panic!("expected a refusal"),
    }
}

#[test]
fn snapshots_and_names() {
    assert!(snapshot_lists(&leaf(false)));
    assert!(!snapshot_lists(&nested()));
    assert!(!snapshot_lists(&PathEntry::Section));
    assert_eq!(change_event_name("layout.gaps"), "config::layout.gaps");
    assert_eq!(proxy_display(""), "ConfigProxy(root)");
    assert_eq!(proxy_display("layout"), "ConfigProxy(layout)");
}

#[test]
fn root_table_reads_and_writes() {
    assert_eq!(root_read_outcome(&leaf(false)), Some(ReadOutcome::Value));
    assert_eq!(root_read_outcome(&PathEntry::Section), Some(ReadOutcome::NestedProxy));
    assert_eq!(root_read_outcome(&PathEntry::Unknown), None);
    match root_write_outcome("prefer_no_csd", &leaf(true), &AssignedValue::Other("boolean".to_string())) {
        WriteOutcome::Assign { dirty_flag, signal } => {
            assert_eq!(dirty_flag, DirtyFlag::Layout);
            assert!(!signal);
        }
        _ => panic!("expected an assignment"),
    }
    assert!(matches!(root_write_outcome("layout", &nested(), &AssignedValue::Proxy("layout".to_string())), WriteOutcome::Unchanged));
    assert!(matches!(root_write_outcome("layout", &nested(), &AssignedValue::Table), WriteOutcome::ApplyTable));
    match root_write_outcome("layout", &nested(), &AssignedValue::Other("string".to_string())) {
        WriteOutcome::Refused(m) => assert_eq!(m, "cannot assign string to nested config section 'layout', expected table"),
        _ => panic!("expected a refusal"),
    }
    match root_write_outcome("bogus", &PathEntry::Unknown, &AssignedValue::Table) {
        WriteOutcome::Refused(m) => assert_eq!(m, "attempt to set an unknown field 'bogus'"),
        _ => panic!("expected a refusal"),
    }
}

#[test]
fn table_entries_applied_to_sections() {
    match table_step("layout.gaps", &leaf(true), &AssignedValue::Other("number".to_string())) {
        TableStep::Assign { dirty_flag } => assert_eq!(dirty_flag, DirtyFlag::Layout),
        _ => panic!("expected an assignment"),
    }
    assert!(matches!(table_step("layout.focus_ring", &nested(), &AssignedValue::Table), TableStep::Descend));
    assert!(matches!(table_step("input.keyboard", &PathEntry::Section, &AssignedValue::Table), TableStep::Descend));
    match table_step("input.keyboard", &PathEntry::Section, &AssignedValue::Proxy("input.keyboard".to_string())) {
        TableStep::Refused(m) => assert_eq!(m, "cannot assign userdata to nested config section 'input.keyboard', expected table"),
        _ => panic!("expected a refusal"),
    }
    match table_step("layout.gapz", &PathEntry::Unknown, &AssignedValue::Other("number".to_string())) {
        TableStep::Refused(m) => assert_eq!(m, "unknown config property: layout.gapz"),
        _ => panic!("expected a refusal"),
    }
}

#[test]
fn test_nested_table_assignment_rejects_non_table() {
    // `cursor` is a section of the registry.
    let result = write_outcome("cursor", &PathEntry::Section, &AssignedValue::Other("number".to_string()));
    match result {
        WriteOutcome::Refused(err) => assert!(err.contains("expected table") || err.contains("cannot assign")),
        _ => panic!("expected a refusal"),
    }
}

#[test]
fn test_nested_table_assignment_unknown_property_error() {
    // `config.cursor = { nonexistent_field = true }`: the table goes into the
    // section, and its entry names nothing.
    assert!(matches!(write_outcome("cursor", &PathEntry::Section, &AssignedValue::Table), WriteOutcome::ApplyTable));
    let path = child_path("cursor", "nonexistent_field");
    match table_step(&path, &PathEntry::Unknown, &AssignedValue::Other("boolean".to_string())) {
        TableStep::Refused(err) => assert!(err.contains("unknown") || err.contains("nonexistent_field")),
        _ => panic!("expected a refusal"),
    }
}
