//! The decisions of the `niri.config` proxy: a proxy stands for a dotted
//! path of the configuration; reading a key gives a nested proxy, a value or
//! an error, and assigning to a key sets a value, applies a table to a
//! section, or is refused, as the property registry describes the path.
use vstd::prelude::*;
use vstd::string::StringExecFns;
use crate::dirty::DirtyFlag;
use crate::text::str_eq;

verus! {

/// What the property registry knows of a path.
pub enum PathEntry {
    /// A registered property: whether it is a nested section, whether a
    /// change of it is announced, and the section it dirties.
    Property { nested: bool, signal: bool, dirty_flag: DirtyFlag },
    /// No property, but the prefix of registered properties.
    Section,
    /// Nothing is registered under the path.
    Unknown,
}

/// The path of key `key` under the proxy of path `current`.
pub open spec fn child_path_text(current: Seq<char>, key: Seq<char>) -> Seq<char> {
    if current.len() == 0 { key } else { current + "."@ + key }
}

/// The path of key `key` under the proxy of path `current`: the key itself
/// under the root, else the two joined with a dot.
pub fn child_path(current: &str, key: &str) -> (r: String)
    ensures
        r@ == child_path_text(current@, key@),
{
    if current.unicode_len() == 0 {
        String::from_str(key)
    } else {
        let mut s = String::from_str(current);
        s.append(".");
        s.append(key);
        s
    }
}

/// What reading a key gives.
#[derive(PartialEq, Eq, Structural, Clone, Copy, Debug)]
pub enum ReadOutcome {
    /// A proxy for the nested section.
    NestedProxy,
    /// The property's value, read by its getter.
    Value,
    /// An error: "unknown config property".
    Unknown,
}

/// What reading a path gives: a nested proxy for a nested property or a
/// section, the value of another property, an error for an unknown path.
pub open spec fn read_outcome_of(entry: PathEntry) -> ReadOutcome {
    match entry {
        PathEntry::Property { nested, .. } => if nested { ReadOutcome::NestedProxy } else { ReadOutcome::Value },
        PathEntry::Section => ReadOutcome::NestedProxy,
        PathEntry::Unknown => ReadOutcome::Unknown,
    }
}

/// What reading a path gives.
pub fn read_outcome(entry: &PathEntry) -> (r: ReadOutcome)
    ensures
        r == read_outcome_of(*entry),
{
    match entry {
        PathEntry::Property { nested, .. } => if *nested { ReadOutcome::NestedProxy } else { ReadOutcome::Value },
        PathEntry::Section => ReadOutcome::NestedProxy,
        PathEntry::Unknown => ReadOutcome::Unknown,
    }
}

/// The message for a path that names nothing.
pub open spec fn unknown_property_text(path: Seq<char>) -> Seq<char> {
    "unknown config property: "@ + path
}

/// The message for a path that names nothing.
pub fn unknown_property_message(path: &str) -> (r: String)
    ensures
        r@ == unknown_property_text(path@),
{
    let mut s = String::from_str("unknown config property: ");
    s.append(path);
    s
}

/// The value assigned to a key, as far as the decision looks at it.
pub enum AssignedValue {
    Table,
    /// A config proxy, with its path.
    Proxy(String),
    /// Any other value, with its Lua type name.
    Other(String),
}

/// The Lua type name of an assigned value.
pub open spec fn assigned_lua_type(v: AssignedValue) -> Seq<char> {
    match v {
        AssignedValue::Table => "table"@,
        AssignedValue::Proxy(_) => "userdata"@,
        AssignedValue::Other(n) => n@,
    }
}

/// What assigning a value to a key does.
pub enum WriteOutcome {
    /// Apply the table to the section.
    ApplyTable,
    /// Set the property through its setter; then mark its section and its
    /// path dirty, and announce the change when `signal`.
    Assign { dirty_flag: DirtyFlag, signal: bool },
    /// Nothing: a section assigned its own proxy.
    Unchanged,
    /// An error with this message.
    Refused(String),
}

/// The message for a value that is not a table assigned to a section.
pub open spec fn expected_table_text(lua_type: Seq<char>, path: Seq<char>) -> Seq<char> {
    "cannot assign "@ + lua_type + " to nested config section '"@ + path + "', expected table"@
}

/// What assigning `v` to a nested section at `path` does: a table is applied
/// to it, its own proxy changes nothing, anything else is refused.
pub open spec fn section_write_of(path: Seq<char>, v: AssignedValue, r: WriteOutcome) -> bool {
    match v {
        AssignedValue::Table => r is ApplyTable,
        AssignedValue::Proxy(p) => if p@ == path {
            r is Unchanged
        } else {
            r matches WriteOutcome::Refused(m) && m@ == expected_table_text(assigned_lua_type(v), path)
        },
        AssignedValue::Other(_) => r matches WriteOutcome::Refused(m) && m@ == expected_table_text(assigned_lua_type(v), path),
    }
}

fn section_write(path: &str, v: &AssignedValue) -> (r: WriteOutcome)
    ensures
        section_write_of(path@, *v, r),
{
    match v {
        AssignedValue::Table => WriteOutcome::ApplyTable,
        AssignedValue::Proxy(p) => if str_eq(p.as_str(), path) {
            WriteOutcome::Unchanged
        } else {
            expected_table(v, path)
        },
        AssignedValue::Other(_) => expected_table(v, path),
    }
}

/// What assigning `v` to the property or section at `path` does: a nested
/// property or a section takes a table (a section also its own proxy, which
/// changes nothing) and refuses anything else; another property is set; an
/// unknown path is refused.
pub open spec fn write_outcome_of(path: Seq<char>, entry: PathEntry, v: AssignedValue, r: WriteOutcome) -> bool {
    match entry {
        PathEntry::Property { nested, signal, dirty_flag } => if nested {
            match v {
                AssignedValue::Table => r is ApplyTable,
                _ => r matches WriteOutcome::Refused(m) && m@ == expected_table_text(assigned_lua_type(v), path),
            }
        } else {
            r == (WriteOutcome::Assign { dirty_flag, signal })
        },
        PathEntry::Section => section_write_of(path, v, r),
        PathEntry::Unknown => r matches WriteOutcome::Refused(m) && m@ == unknown_property_text(path),
    }
}

fn expected_table(v: &AssignedValue, path: &str) -> (r: WriteOutcome)
    ensures
        r matches WriteOutcome::Refused(m) && m@ == expected_table_text(assigned_lua_type(*v), path@),
{
    let mut s = String::from_str("cannot assign ");
    match v {
        AssignedValue::Table => s.append("table"),
        AssignedValue::Proxy(_) => s.append("userdata"),
        AssignedValue::Other(n) => s.append(n.as_str()),
    }
    s.append(" to nested config section '");
    s.append(path);
    s.append("', expected table");
    WriteOutcome::Refused(s)
}

/// What assigning `v` to the key whose path is `path` does.
pub fn write_outcome(path: &str, entry: &PathEntry, v: &AssignedValue) -> (r: WriteOutcome)
    ensures
        write_outcome_of(path@, *entry, *v, r),
{
    match entry {
        PathEntry::Property { nested, signal, dirty_flag } => if *nested {
            match v {
                AssignedValue::Table => WriteOutcome::ApplyTable,
                _ => expected_table(v, path),
            }
        } else {
            WriteOutcome::Assign { dirty_flag: *dirty_flag, signal: *signal }
        },
        PathEntry::Section => section_write(path, v),
        PathEntry::Unknown => WriteOutcome::Refused(unknown_property_message(path)),
    }
}

/// What the configuration table itself answers for a key: as a proxy of the
/// root does, except that a key that names nothing reads as `nil` (`None`).
pub open spec fn root_read_outcome_of(entry: PathEntry) -> Option<ReadOutcome> {
    match entry {
        PathEntry::Unknown => None,
        _ => Some(read_outcome_of(entry)),
    }
}

/// What reading key of the configuration table itself gives; `None` is `nil`.
pub fn root_read_outcome(entry: &PathEntry) -> (r: Option<ReadOutcome>)
    ensures
        r == root_read_outcome_of(*entry),
{
    match entry {
        PathEntry::Unknown => None,
        _ => Some(read_outcome(entry)),
    }
}

/// The message for a key of the configuration table that names nothing.
pub open spec fn unknown_field_text(key: Seq<char>) -> Seq<char> {
    "attempt to set an unknown field '"@ + key + "'"@
}

/// What assigning `v` to key `key` of the configuration table itself does:
/// a property that is not nested is set, and its change is not announced; a
/// nested property or a section is written as a section is; a key that names
/// nothing is refused.
pub open spec fn root_write_outcome_of(key: Seq<char>, entry: PathEntry, v: AssignedValue, r: WriteOutcome) -> bool {
    match entry {
        PathEntry::Property { nested, dirty_flag, .. } => if nested {
            section_write_of(key, v, r)
        } else {
            r == (WriteOutcome::Assign { dirty_flag, signal: false })
        },
        PathEntry::Section => section_write_of(key, v, r),
        PathEntry::Unknown => r matches WriteOutcome::Refused(m) && m@ == unknown_field_text(key),
    }
}

/// What assigning `v` to key `key` of the configuration table itself does.
pub fn root_write_outcome(key: &str, entry: &PathEntry, v: &AssignedValue) -> (r: WriteOutcome)
    ensures
        root_write_outcome_of(key@, *entry, *v, r),
{
    match entry {
        PathEntry::Property { nested, dirty_flag, .. } => if *nested {
            section_write(key, v)
        } else {
            WriteOutcome::Assign { dirty_flag: *dirty_flag, signal: false }
        },
        PathEntry::Section => section_write(key, v),
        PathEntry::Unknown => {
            let mut s = String::from_str("attempt to set an unknown field '");
            s.append(key);
            s.append("'");
            WriteOutcome::Refused(s)
        },
    }
}

/// What applying one entry of a table to a section does, for the entry's
/// path below the section.
pub enum TableStep {
    /// Apply the entry's value, a table, to the nested section at the path.
    Descend,
    /// Set the property through its setter, then mark its section and its
    /// path dirty (the change is not announced).
    Assign { dirty_flag: DirtyFlag },
    /// An error with this message; the entries applied before it stay.
    Refused(String),
}

/// What applying the entry with value `v` whose path is `path` does: a
/// nested property or a section takes only a table, into which the walk
/// descends; another property is set; a path that names nothing is refused.
pub open spec fn table_step_of(path: Seq<char>, entry: PathEntry, v: AssignedValue, r: TableStep) -> bool {
    let section = match v {
        AssignedValue::Table => r is Descend,
        _ => r matches TableStep::Refused(m) && m@ == expected_table_text(assigned_lua_type(v), path),
    };
    match entry {
        PathEntry::Property { nested, dirty_flag, .. } => if nested {
            section
        } else {
            r == (TableStep::Assign { dirty_flag })
        },
        PathEntry::Section => section,
        PathEntry::Unknown => r matches TableStep::Refused(m) && m@ == unknown_property_text(path),
    }
}

/// What applying the entry with value `v` whose path is `path` does.
pub fn table_step(path: &str, entry: &PathEntry, v: &AssignedValue) -> (r: TableStep)
    ensures
        table_step_of(path@, *entry, *v, r),
{
    let is_table = match v {
        AssignedValue::Table => true,
        _ => false,
    };
    let section = match entry {
        PathEntry::Property { nested, dirty_flag, .. } => {
            if !*nested {
                return TableStep::Assign { dirty_flag: *dirty_flag };
            }
            true
        },
        PathEntry::Section => true,
        PathEntry::Unknown => false,
    };
    if !section {
        return TableStep::Refused(unknown_property_message(path));
    }
    if is_table {
        TableStep::Descend
    } else {
        match expected_table(v, path) {
            WriteOutcome::Refused(m) => TableStep::Refused(m),
            _ => TableStep::Descend,
        }
    }
}

/// Whether a snapshot of a section lists the entry of a child key: only
/// properties that are not nested.
pub open spec fn in_snapshot(entry: PathEntry) -> bool {
    entry matches PathEntry::Property { nested, .. } && !nested
}

/// Whether a snapshot lists the entry of a child key.
pub fn snapshot_lists(entry: &PathEntry) -> (r: bool)
    ensures
        r == in_snapshot(*entry),
{
    match entry {
        PathEntry::Property { nested, .. } => !*nested,
        _ => false,
    }
}

/// The name of the event that announces a change of the property at `path`.
pub fn change_event_name(path: &str) -> (r: String)
    ensures
        r@ == "config::"@ + path@,
{
    let mut s = String::from_str("config::");
    s.append(path);
    s
}

/// How a proxy prints: `ConfigProxy(root)` for the root, else its path in
/// the parentheses.
pub fn proxy_display(current: &str) -> (r: String)
    ensures
        r@ == (if current@.len() == 0 { "ConfigProxy(root)"@ } else { "ConfigProxy("@ + current@ + ")"@ }),
{
    if current.unicode_len() == 0 {
        String::from_str("ConfigProxy(root)")
    } else {
        let mut s = String::from_str("ConfigProxy(");
        s.append(current);
        s.append(")");
        s
    }
}

} // verus!
