//! The items of the configuration collections that scripts edit through
//! `niri.config.<collection>`: how an item is read from its table's fields,
//! and how the collection operations find, replace and remove items.
use vstd::prelude::*;
use vstd::string::StringExecFns;
use crate::bind_table::{flag_or, flag_or_exec};
use crate::pending::{regex_check, regex_error, EnvironmentVariable, Output, Workspace};
use crate::numbers::{decimal, u64_text};
use crate::values::{parse_block_out_from, BlockOutFrom};
use crate::text::{chars_of, find_char, first_index, lemma_first_index, slice_chars, str_eq, string_from_chars};
use crate::values::{mode_parts, mode_text, parse_mode_string, parse_transform, transform_name, vrr_from_collection_text, ModeError, ModeText, Transform, Vrr};
use crate::text::folded;

verus! {

/// An output as the collection API records it.
pub struct OutputEntry<F> {
    pub name: String,
    pub mode: Option<ModeText>,
    pub scale: Option<F>,
    pub transform: Transform,
    pub position: Option<(i32, i32)>,
    pub vrr: Option<Vrr>,
    pub off: bool,
    pub focus_at_startup: bool,
}

/// The fields of an output table, each as the typed field helpers read it
/// (`None` where the field is absent or holds another type).
pub struct OutputFields<F> {
    pub name: Option<String>,
    pub mode: Option<String>,
    pub scale: Option<F>,
    pub transform: Option<String>,
    /// The `x` and `y` of the `position` table, when there is one.
    pub position: Option<(Option<i64>, Option<i64>)>,
    pub vrr_text: Option<String>,
    pub vrr_flag: Option<bool>,
    pub off: Option<bool>,
    pub focus_at_startup: Option<bool>,
}

/// Why an output table gives no output.
pub enum OutputError {
    /// "output requires 'name' field"
    MissingName,
    /// The mode text does not read as a mode.
    Mode(ModeError, String),
    /// The transform text names no transform.
    UnknownTransform(String),
}

/// The transform that a collection table names: any letter case, `0` for
/// `normal`.
pub open spec fn collection_transform(s: Seq<char>) -> Option<Transform> {
    if folded(s) == "0"@ { Some(Transform::Normal) } else { transform_name(folded(s)) }
}

/// The variable refresh rate that an output table gives: a text (see
/// `vrr_from_collection_text`), else a flag (on demand when true).
pub open spec fn output_vrr(text: Option<String>, flag: Option<bool>) -> Option<Vrr> {
    match text {
        Some(t) => if t@ == "on-demand"@ || t@ == "on_demand"@ {
            Some(Vrr { on_demand: true })
        } else if t@ == "always"@ {
            Some(Vrr { on_demand: false })
        } else {
            None
        },
        None => match flag {
            Some(true) => Some(Vrr { on_demand: true }),
            _ => None,
        },
    }
}

/// A position coordinate: absent is 0, else truncated to 32 bits.
pub open spec fn coordinate(v: Option<i64>) -> i32 {
    match v {
        Some(x) => x as i32,
        None => 0,
    }
}

/// The output that a table's fields give: its name is required, its mode
/// and transform must read; an absent transform is `normal`, absent flags
/// are false.
pub open spec fn output_read<F>(f: OutputFields<F>, r: Result<OutputEntry<F>, OutputError>) -> bool {
    match f.name {
        None => r is Err && r->Err_0 is MissingName,
        Some(name) => {
            let mode_ok = match f.mode {
                Some(m) => mode_text(m@) is Ok,
                None => true,
            };
            if !mode_ok {
                r matches Err(OutputError::Mode(e, t)) && Some(t) == f.mode && mode_text(t@) == Err::<(u16, u16, Option<Seq<char>>), _>(e)
            } else if f.transform matches Some(t) && collection_transform(t@) is None {
                r matches Err(OutputError::UnknownTransform(t)) && Some(t) == f.transform
            } else {
                r matches Ok(o) && {
                    &&& o.name == name
                    &&& match f.mode {
                        Some(m) => o.mode matches Some(x) && mode_text(m@) == Ok::<_, ModeError>((x.width, x.height, match x.refresh {
                            Some(t) => Some(t@),
                            None => None,
                        })),
                        None => o.mode is None,
                    }
                    &&& o.scale == f.scale
                    &&& o.transform == match f.transform {
                        Some(t) => collection_transform(t@).unwrap(),
                        None => Transform::Normal,
                    }
                    &&& o.position == match f.position {
                        Some((x, y)) => Some((coordinate(x), coordinate(y))),
                        None => None,
                    }
                    &&& o.vrr == output_vrr(f.vrr_text, f.vrr_flag)
                    &&& o.off == flag_or(f.off, false)
                    &&& o.focus_at_startup == flag_or(f.focus_at_startup, false)
                }
            }
        },
    }
}

fn coordinate_of(v: Option<i64>) -> (r: i32)
    ensures
        r == coordinate(v),
{
    match v {
        Some(x) => x as i32,
        None => 0,
    }
}

/// Reads an output from the fields of its table.
pub fn extract_output<F>(f: OutputFields<F>) -> (r: Result<OutputEntry<F>, OutputError>)
    ensures
        output_read(f, r),
{
    let ghost g = f;
    let name = match f.name {
        Some(n) => n,
        None => return Err(OutputError::MissingName),
    };
    let mode = match f.mode {
        Some(m) => match parse_mode_string(m.as_str()) {
            Ok(x) => Some(x),
            Err(e) => return Err(OutputError::Mode(e, m)),
        },
        None => None,
    };
    let transform = match f.transform {
        Some(t) => match parse_transform(t.as_str()) {
            Some(x) => x,
            None => return Err(OutputError::UnknownTransform(t)),
        },
        None => Transform::Normal,
    };
    let position = match f.position {
        Some((x, y)) => Some((coordinate_of(x), coordinate_of(y))),
        None => None,
    };
    let vrr = match &f.vrr_text {
        Some(t) => vrr_from_collection_text(t.as_str()),
        None => match f.vrr_flag {
            Some(true) => Some(Vrr { on_demand: true }),
            _ => None,
        },
    };
    assert(vrr == output_vrr(g.vrr_text, g.vrr_flag));
    Ok(OutputEntry {
        name,
        mode,
        scale: f.scale,
        transform,
        position,
        vrr,
        off: flag_or_exec(f.off, false),
        focus_at_startup: flag_or_exec(f.focus_at_startup, false),
    })
}

/// The text of a mode error for the mode text `s`: the refresh text, the
/// whole text, or the width or height part that failed.
pub open spec fn mode_error_text(s: Seq<char>, e: ModeError) -> Seq<char> {
    let (res, rate) = mode_parts(s);
    let x = first_index(res, 'x');
    match e {
        ModeError::InvalidRefresh => "Invalid refresh rate: "@ + match rate {
            Some(t) => t,
            None => Seq::empty(),
        },
        ModeError::InvalidFormat => "Invalid mode format: "@ + s + ". Expected WIDTHxHEIGHT[@REFRESH]"@,
        ModeError::InvalidWidth => "Invalid width: "@ + (if x >= 0 { res.take(x) } else { res }),
        ModeError::InvalidHeight => "Invalid height: "@ + (if x >= 0 { res.skip(x + 1) } else { Seq::empty() }),
    }
}

/// The text of an output error.
pub open spec fn output_error_text(e: OutputError) -> Seq<char> {
    match e {
        OutputError::MissingName => "output requires 'name' field"@,
        OutputError::Mode(m, s) => mode_error_text(s@, m),
        OutputError::UnknownTransform(t) => "Unknown transform: "@ + t@,
    }
}

fn joined_text(a: &str, b: &[char]) -> (r: String)
    ensures
        r@ == a@ + b@,
{
    let mut s = String::from_str(a);
    let t = string_from_chars(b);
    s.append(t.as_str());
    s
}

impl OutputError {
    /// The message that explains the error.
    pub fn message(&self) -> (r: String)
        ensures
            r@ == output_error_text(*self),
    {
        match self {
            OutputError::MissingName => String::from_str("output requires 'name' field"),
            OutputError::UnknownTransform(t) => {
                let mut s = String::from_str("Unknown transform: ");
                s.append(t.as_str());
                s
            },
            OutputError::Mode(m, text) => {
                let cs = chars_of(text.as_str());
                proof { lemma_first_index(cs@, '@'); }
                let ghost parts = mode_parts(text@);
                let res = match find_char(&cs, '@') {
                    Some(at) => {
                        let r = slice_chars(&cs, 0, at);
                        assert(r@ =~= parts.0);
                        r
                    },
                    None => cs.clone(),
                };
                assert(res@ == parts.0);
                match m {
                    ModeError::InvalidRefresh => {
                        let rate = match find_char(&cs, '@') {
                            Some(at) => {
                                proof { lemma_first_index(cs@, '@'); }
                                let n = cs.len();
                                assert(at < n);
                                let r = slice_chars(&cs, at + 1, n);
                                assert(r@ =~= cs@.skip(at + 1));
                                r
                            },
                            None => {
                                let v: Vec<char> = Vec::new();
                                assert(v@ =~= Seq::<char>::empty());
                                v
                            },
                        };
                        joined_text("Invalid refresh rate: ", &rate)
                    },
                    ModeError::InvalidFormat => {
                        let mut s = String::from_str("Invalid mode format: ");
                        s.append(text.as_str());
                        s.append(". Expected WIDTHxHEIGHT[@REFRESH]");
                        s
                    },
                    ModeError::InvalidWidth | ModeError::InvalidHeight => {
                        proof { lemma_first_index(res@, 'x'); }
                        let found = find_char(&res, 'x');
                        match m {
                            ModeError::InvalidWidth => {
                                let w = match found {
                                    Some(x) => slice_chars(&res, 0, x),
                                    None => res.clone(),
                                };
                                assert(w@ =~= (if first_index(res@, 'x') >= 0 { res@.take(first_index(res@, 'x')) } else { res@ }));
                                joined_text("Invalid width: ", &w)
                            },
                            _ => {
                                let h = match found {
                                    Some(x) => slice_chars(&res, x + 1, res.len()),
                                    None => Vec::new(),
                                };
                                assert(h@ =~= (if first_index(res@, 'x') >= 0 { res@.skip(first_index(res@, 'x') + 1) } else { Seq::empty() }));
                                joined_text("Invalid height: ", &h)
                            },
                        }
                    },
                }
            },
        }
    }
}

/// Why a workspace or environment table gives no item.
#[derive(PartialEq, Eq, Structural, Clone, Copy, Debug)]
pub enum NamedItemError {
    /// "workspace requires 'name' field"
    WorkspaceName,
    /// "environment requires 'name' field"
    EnvironmentName,
}

/// Reads a workspace from the `name` and `open_on_output` fields of its
/// table; the name is required.
pub fn extract_workspace(name: Option<String>, open_on_output: Option<String>) -> (r: Result<Workspace, NamedItemError>)
    ensures
        match name {
            Some(n) => r == Ok::<_, NamedItemError>(Workspace { name: n, open_on_output }),
            None => r == Err::<Workspace, _>(NamedItemError::WorkspaceName),
        },
{
    match name {
        Some(n) => Ok(Workspace { name: n, open_on_output }),
        None => Err(NamedItemError::WorkspaceName),
    }
}

/// Reads an environment variable from the `name` and `value` fields of its
/// table; the name is required.
pub fn extract_environment_variable(name: Option<String>, value: Option<String>) -> (r: Result<EnvironmentVariable, NamedItemError>)
    ensures
        match name {
            Some(n) => r == Ok::<_, NamedItemError>(EnvironmentVariable { name: n, value }),
            None => r == Err::<EnvironmentVariable, _>(NamedItemError::EnvironmentName),
        },
{
    match name {
        Some(n) => Ok(EnvironmentVariable { name: n, value }),
        None => Err(NamedItemError::EnvironmentName),
    }
}

/// The position of the first item named `name`, or -1.
pub open spec fn first_named(names: Seq<Seq<char>>, name: Seq<char>) -> int
    decreases names.len(),
{
    if names.len() == 0 {
        -1
    } else if names[0] == name {
        0
    } else {
        let i = first_named(names.drop_first(), name);
        if i < 0 { -1 } else { i + 1 }
    }
}

pub proof fn lemma_first_named(names: Seq<Seq<char>>, name: Seq<char>)
    ensures
        -1 <= first_named(names, name) < names.len(),
        first_named(names, name) >= 0 ==> names[first_named(names, name)] == name,
        forall|j: int| 0 <= j < names.len() && (first_named(names, name) < 0 || j < first_named(names, name))
            ==> names[j] != name,
    decreases names.len(),
{
    if names.len() > 0 && names[0] != name {
        lemma_first_named(names.drop_first(), name);
        assert forall|j: int| 0 <= j < names.len() && (first_named(names, name) < 0 || j < first_named(names, name))
            implies names[j] != name by {
            if j > 0 {
                assert(names[j] == names.drop_first()[j - 1]);
            }
        }
    }
}

/// The names of the environment variables.
pub open spec fn env_names(env: Seq<EnvironmentVariable>) -> Seq<Seq<char>> {
    env.map_values(|e: EnvironmentVariable| e.name@)
}

/// The names of the workspaces.
pub open spec fn workspace_names(ws: Seq<Workspace>) -> Seq<Seq<char>> {
    ws.map_values(|w: Workspace| w.name@)
}

/// The variables after setting `name` to `value`: the first variable of
/// that name takes the value, or, when there is none, the variable is added
/// at the end.
pub open spec fn env_after_set(env: Seq<EnvironmentVariable>, name: String, value: Option<String>) -> Seq<EnvironmentVariable> {
    let i = first_named(env_names(env), name@);
    if i >= 0 {
        env.update(i, EnvironmentVariable { name: env[i].name, value })
    } else {
        env.push(EnvironmentVariable { name, value })
    }
}

/// Sets the variable `name` to `value`.
pub fn set_environment(env: &mut Vec<EnvironmentVariable>, name: String, value: Option<String>)
    ensures
        final(env)@ == env_after_set(old(env)@, name, value),
{
    let ghost orig = env@;
    proof { lemma_first_named(env_names(orig), name@); }
    let mut i: usize = 0;
    while i < env.len()
        invariant
            env@ == orig,
            orig == old(env)@,
            i <= env@.len(),
            forall|j: int| 0 <= j < i ==> env@[j].name@ != name@,
        decreases env@.len() - i,
    {
        if str_eq(env[i].name.as_str(), name.as_str()) {
            proof {
                lemma_first_named(env_names(orig), name@);
                assert(env_names(orig)[i as int] == name@);
                let f = first_named(env_names(orig), name@);
                if f >= 0 {
                    assert(env_names(orig)[f] == orig[f].name@);
                }
                assert(f == i);
            }
            let mut e = env.remove(i);
            e.value = value;
            env.insert(i, e);
            assert(env@ =~= orig.update(i as int, EnvironmentVariable { name: orig[i as int].name, value }));
            return;
        }
        assert(env_names(orig)[i as int] == env@[i as int].name@);
        i = i + 1;
    }
    proof {
        lemma_first_named(env_names(orig), name@);
        if first_named(env_names(orig), name@) >= 0 {
            let k = first_named(env_names(orig), name@);
            assert(env_names(orig)[k] == orig[k].name@);
        }
    }
    env.push(EnvironmentVariable { name, value });
}

/// How a workspace is looked up: by its 1-based index, by its name, or by a
/// value of another type.
pub enum WorkspaceKey {
    Index(i64),
    Name(String),
    Other,
}

/// The position of the workspace that a key finds: an index below 1, or
/// past the end once lowered by one and converted to `usize`, finds none; a
/// name finds the first workspace of that name.
pub open spec fn workspace_lookup(ws: Seq<Workspace>, key: WorkspaceKey) -> Option<Option<int>> {
    match key {
        WorkspaceKey::Index(i) => if i < 1 || (#[verifier::truncate] ((i - 1) as usize)) >= ws.len() {
            Some(None)
        } else {
            Some(Some((#[verifier::truncate] ((i - 1) as usize)) as int))
        },
        WorkspaceKey::Name(n) => {
            let k = first_named(workspace_names(ws), n@);
            Some(if k < 0 { None } else { Some(k) })
        },
        WorkspaceKey::Other => None,
    }
}

/// Finds a workspace: `Ok` of its position (or of `None`), `Err` for a key
/// that is neither an index nor a name ("get() expects an index (number) or
/// workspace name (string)").
pub fn find_workspace(ws: &Vec<Workspace>, key: &WorkspaceKey) -> (r: Result<Option<usize>, ()>)
    ensures
        match workspace_lookup(ws@, *key) {
            Some(Some(i)) => r == Ok::<Option<usize>, ()>(Some(i as usize)),
            Some(None) => r == Ok::<Option<usize>, ()>(None),
            None => r is Err,
        },
{
    match key {
        WorkspaceKey::Index(i) => {
            if *i < 1 {
                return Ok(None);
            }
            #[verifier::truncate]
            let j = (*i - 1) as usize;
            if j >= ws.len() { Ok(None) } else { Ok(Some(j)) }
        },
        WorkspaceKey::Name(n) => {
            proof { lemma_first_named(workspace_names(ws@), n@); }
            let mut k: usize = 0;
            while k < ws.len()
                invariant
                    *key == WorkspaceKey::Name(*n),
                    k <= ws@.len(),
                    forall|j: int| 0 <= j < k ==> ws@[j].name@ != n@,
                decreases ws@.len() - k,
            {
                assert(workspace_names(ws@)[k as int] == ws@[k as int].name@);
                if str_eq(ws[k].name.as_str(), n.as_str()) {
                    proof {
                        lemma_first_named(workspace_names(ws@), n@);
                        let f = first_named(workspace_names(ws@), n@);
                        assert(workspace_names(ws@)[k as int] == n@);
                        if f >= 0 {
                            assert(workspace_names(ws@)[f] == ws@[f].name@);
                        }
                        assert(f == k);
                    }
                    return Ok(Some(k));
                }
                k = k + 1;
            }
            proof {
                lemma_first_named(workspace_names(ws@), n@);
                let f = first_named(workspace_names(ws@), n@);
                if f >= 0 {
                    assert(workspace_names(ws@)[f] == ws@[f].name@);
                }
            }
            Ok(None)
        },
        WorkspaceKey::Other => Err(()),
    }
}

/// The `command` field of a startup table, as read: an array of strings
/// (or the error that reading it raised), a string, nil, another value, or
/// the error that reading the field raised.
pub enum CommandValue<E> {
    Texts(Result<Vec<String>, E>),
    Text(Result<String, E>),
    Nil,
    Other,
    Failed(E),
}

/// An item given to the startup collection: a table (its `command` field,
/// and its array part when it has an item at index 1), a string, or another
/// value.
pub enum SpawnItem<E> {
    Table { command: CommandValue<E>, array: Option<Result<Vec<String>, E>> },
    Text(Result<String, E>),
    Other,
}

/// Why an item gives no command.
pub enum SpawnError<E> {
    /// Reading the item raised this error.
    Lua(E),
    /// "spawn_at_startup requires a 'command' field or array of strings"
    NoCommand,
    /// "spawn_at_startup command must be a string or array of strings"
    CommandType,
    /// "spawn_at_startup item must be a table or string"
    ItemType,
}

/// The texts of a vector of strings.
pub open spec fn texts_of(v: Vec<String>) -> Seq<Seq<char>> {
    v@.map_values(|x: String| x@)
}

/// The command that a startup table gives: its `command` array or string;
/// without a `command`, its own array part.
pub open spec fn table_command<E>(command: CommandValue<E>, array: Option<Result<Vec<String>, E>>) -> Result<Seq<Seq<char>>, SpawnError<E>> {
    match command {
        CommandValue::Texts(Ok(v)) => Ok(texts_of(v)),
        CommandValue::Texts(Err(e)) => Err(SpawnError::Lua(e)),
        CommandValue::Text(Ok(s)) => Ok(seq![s@]),
        CommandValue::Text(Err(e)) => Err(SpawnError::Lua(e)),
        CommandValue::Nil => match array {
            Some(Ok(v)) => Ok(texts_of(v)),
            Some(Err(e)) => Err(SpawnError::Lua(e)),
            None => Err(SpawnError::NoCommand),
        },
        CommandValue::Other => Err(SpawnError::CommandType),
        CommandValue::Failed(e) => Err(SpawnError::Lua(e)),
    }
}

/// The command that a startup item gives: a table's command, or a string
/// as the whole command line.
pub open spec fn item_command<E>(item: SpawnItem<E>) -> Result<Seq<Seq<char>>, SpawnError<E>> {
    match item {
        SpawnItem::Table { command, array } => table_command(command, array),
        SpawnItem::Text(Ok(s)) => Ok(seq![s@]),
        SpawnItem::Text(Err(e)) => Err(SpawnError::Lua(e)),
        SpawnItem::Other => Err(SpawnError::ItemType),
    }
}

fn single(s: String) -> (r: Vec<String>)
    ensures
        texts_of(r) == seq![s@],
{
    let mut v: Vec<String> = Vec::new();
    v.push(s);
    assert(texts_of(v) =~= seq![s@]);
    v
}

/// The command that a startup table gives.
pub fn extract_spawn_at_startup_from_table<E>(command: CommandValue<E>, array: Option<Result<Vec<String>, E>>) -> (r: Result<Vec<String>, SpawnError<E>>)
    ensures
        match r {
            Ok(v) => table_command(command, array) == Ok::<_, SpawnError<E>>(texts_of(v)),
            Err(e) => table_command(command, array) == Err::<Seq<Seq<char>>, _>(e),
        },
{
    match command {
        CommandValue::Texts(Ok(v)) => Ok(v),
        CommandValue::Texts(Err(e)) => Err(SpawnError::Lua(e)),
        CommandValue::Text(Ok(s)) => Ok(single(s)),
        CommandValue::Text(Err(e)) => Err(SpawnError::Lua(e)),
        CommandValue::Nil => match array {
            Some(Ok(v)) => Ok(v),
            Some(Err(e)) => Err(SpawnError::Lua(e)),
            None => Err(SpawnError::NoCommand),
        },
        CommandValue::Other => Err(SpawnError::CommandType),
        CommandValue::Failed(e) => Err(SpawnError::Lua(e)),
    }
}

/// The command that a startup item gives.
pub fn extract_spawn_at_startup<E>(item: SpawnItem<E>) -> (r: Result<Vec<String>, SpawnError<E>>)
    ensures
        match r {
            Ok(v) => item_command(item) == Ok::<_, SpawnError<E>>(texts_of(v)),
            Err(e) => item_command(item) == Err::<Seq<Seq<char>>, _>(e),
        },
{
    match item {
        SpawnItem::Table { command, array } => extract_spawn_at_startup_from_table(command, array),
        SpawnItem::Text(Ok(s)) => Ok(single(s)),
        SpawnItem::Text(Err(e)) => Err(SpawnError::Lua(e)),
        SpawnItem::Other => Err(SpawnError::ItemType),
    }
}

/// The text of a startup item error, for every error but `Lua`.
pub open spec fn spawn_error_text<E>(e: SpawnError<E>) -> Seq<char> {
    match e {
        SpawnError::Lua(_) => Seq::empty(),
        SpawnError::NoCommand => "spawn_at_startup requires a 'command' field or array of strings"@,
        SpawnError::CommandType => "spawn_at_startup command must be a string or array of strings"@,
        SpawnError::ItemType => "spawn_at_startup item must be a table or string"@,
    }
}

impl<E> SpawnError<E> {
    /// The message that explains the error.
    pub fn message(&self) -> (r: String)
        requires
            !(self is Lua),
        ensures
            r@ == spawn_error_text(*self),
    {
        match self {
            SpawnError::Lua(_) => String::new(),
            SpawnError::NoCommand => String::from_str("spawn_at_startup requires a 'command' field or array of strings"),
            SpawnError::CommandType => String::from_str("spawn_at_startup command must be a string or array of strings"),
            SpawnError::ItemType => String::from_str("spawn_at_startup item must be a table or string"),
        }
    }
}

/// The text of a workspace or environment error.
pub open spec fn named_item_error_text(e: NamedItemError) -> Seq<char> {
    match e {
        NamedItemError::WorkspaceName => "workspace requires 'name' field"@,
        NamedItemError::EnvironmentName => "environment requires 'name' field"@,
    }
}

impl NamedItemError {
    /// The message that explains the error.
    pub fn message(&self) -> (r: &'static str)
        ensures
            r@ == named_item_error_text(*self),
    {
        match self {
            NamedItemError::WorkspaceName => "workspace requires 'name' field",
            NamedItemError::EnvironmentName => "environment requires 'name' field",
        }
    }
}

/// A window match of a collection window rule: its patterns (each compiles)
/// and flags.
pub struct WindowMatch {
    pub app_id: Option<String>,
    pub title: Option<String>,
    pub at_startup: Option<bool>,
    pub is_floating: Option<bool>,
}

/// A window rule as the collection API records it.
pub struct WindowRuleEntry {
    pub matches: Vec<WindowMatch>,
    pub excludes: Vec<WindowMatch>,
    /// The default column width is set to the window's own choice.
    pub default_width_from_window: bool,
    pub open_floating: Option<bool>,
    pub open_fullscreen: Option<bool>,
    pub open_maximized: Option<bool>,
}

/// The fields of a window rule table: its `match` and `exclude` tables,
/// whether its `default_column_width` table is empty (when it has one), and
/// its flags.
pub struct WindowRuleFields {
    pub match_table: Option<WindowMatch>,
    pub exclude_table: Option<WindowMatch>,
    pub default_column_width_empty: Option<bool>,
    pub open_floating: Option<bool>,
    pub open_fullscreen: Option<bool>,
    pub open_maximized: Option<bool>,
}

/// A layer match: its namespace pattern (which compiles) and flag.
pub struct LayerMatch {
    pub namespace: Option<String>,
    pub at_startup: Option<bool>,
}

/// A layer rule as the collection API records it.
pub struct LayerRuleEntry {
    pub matches: Vec<LayerMatch>,
    pub excludes: Vec<LayerMatch>,
    pub block_out_from: Option<BlockOutFrom>,
}

/// The fields of a layer rule table.
pub struct LayerRuleFields {
    pub match_table: Option<LayerMatch>,
    pub exclude_table: Option<LayerMatch>,
    pub block_out_from: Option<String>,
}

/// Why a rule table gives no rule.
pub enum RuleError {
    /// A pattern does not compile: the field (`app_id`, `title` or
    /// `namespace`) and the error's text.
    Regex(&'static str, String),
    /// The `block_out_from` text names nothing.
    BlockOutFrom(String),
}

/// The text of a rule error.
pub open spec fn rule_error_text(e: RuleError) -> Seq<char> {
    match e {
        RuleError::Regex(field, m) => "Invalid "@ + field@ + " regex: "@ + m@,
        RuleError::BlockOutFrom(s) => "Invalid block_out_from value: "@ + s@,
    }
}

impl RuleError {
    /// The message that explains the error.
    pub fn message(&self) -> (r: String)
        ensures
            r@ == rule_error_text(*self),
    {
        match self {
            RuleError::Regex(field, m) => {
                let mut s = String::from_str("Invalid ");
                s.append(field);
                s.append(" regex: ");
                s.append(m.as_str());
                s
            },
            RuleError::BlockOutFrom(v) => {
                let mut s = String::from_str("Invalid block_out_from value: ");
                s.append(v.as_str());
                s
            },
        }
    }
}

/// A pattern field is absent or compiles.
pub open spec fn pattern_ok(p: Option<String>) -> bool {
    match p {
        Some(s) => regex_error(s@) is None,
        None => true,
    }
}

/// `e` is the error for the pattern field `field` that does not compile.
pub open spec fn pattern_error(field: &'static str, p: Option<String>, e: RuleError) -> bool {
    &&& p matches Some(s) && regex_error(s@) is Some
    &&& e matches RuleError::Regex(f, t) && f == field && Some(t@) == regex_error(p.unwrap()@)
}

fn check_pattern(field: &'static str, p: &Option<String>) -> (r: Option<RuleError>)
    ensures
        match r {
            Some(e) => pattern_error(field, *p, e),
            None => pattern_ok(*p),
        },
{
    match p {
        Some(s) => match regex_check(s.as_str()) {
            Some(m) => Some(RuleError::Regex(field, m)),
            None => None,
        },
        None => None,
    }
}

/// The patterns of a window match compile.
pub open spec fn window_match_ok(m: WindowMatch) -> bool {
    pattern_ok(m.app_id) && pattern_ok(m.title)
}

/// `e` is the error of a window match whose patterns do not all compile:
/// that of `app_id` first.
pub open spec fn window_match_error(m: WindowMatch, e: RuleError) -> bool {
    if !pattern_ok(m.app_id) { pattern_error("app_id", m.app_id, e) } else { pattern_error("title", m.title, e) }
}

fn check_window_match(m: &WindowMatch) -> (r: Option<RuleError>)
    ensures
        match r {
            Some(e) => !window_match_ok(*m) && window_match_error(*m, e),
            None => window_match_ok(*m),
        },
{
    match check_pattern("app_id", &m.app_id) {
        Some(e) => Some(e),
        None => check_pattern("title", &m.title),
    }
}

/// The optional table as a sequence of at most one item.
pub open spec fn listed<T>(t: Option<T>) -> Seq<T> {
    match t {
        Some(x) => seq![x],
        None => Seq::empty(),
    }
}

fn listed_vec<T>(t: Option<T>) -> (r: Vec<T>)
    ensures
        r@ == listed(t),
{
    let mut v: Vec<T> = Vec::new();
    match t {
        Some(x) => {
            v.push(x);
            assert(v@ =~= seq![x]);
        },
        None => {
            assert(v@ =~= Seq::<T>::empty());
        },
    }
    v
}

/// The window rule that a table's fields give: its `match` and `exclude`
/// tables (whose patterns must compile, the `match` table's first), the
/// window's own default width when its `default_column_width` table is
/// empty, and its flags.
pub open spec fn window_rule_read(f: WindowRuleFields, r: Result<WindowRuleEntry, RuleError>) -> bool {
    if f.match_table matches Some(m) && !window_match_ok(m) {
        r matches Err(e) && window_match_error(f.match_table.unwrap(), e)
    } else if f.exclude_table matches Some(m) && !window_match_ok(m) {
        r matches Err(e) && window_match_error(f.exclude_table.unwrap(), e)
    } else {
        r matches Ok(rule) && {
            &&& rule.matches@ == listed(f.match_table)
            &&& rule.excludes@ == listed(f.exclude_table)
            &&& rule.default_width_from_window == (f.default_column_width_empty == Some(true))
            &&& rule.open_floating == f.open_floating
            &&& rule.open_fullscreen == f.open_fullscreen
            &&& rule.open_maximized == f.open_maximized
        }
    }
}

/// Reads a window rule from the fields of its table.
pub fn extract_window_rule(f: WindowRuleFields) -> (r: Result<WindowRuleEntry, RuleError>)
    ensures
        window_rule_read(f, r),
{
    if let Some(m) = &f.match_table {
        if let Some(e) = check_window_match(m) {
            return Err(e);
        }
    }
    if let Some(m) = &f.exclude_table {
        if let Some(e) = check_window_match(m) {
            return Err(e);
        }
    }
    let default_width_from_window = match f.default_column_width_empty {
        Some(true) => true,
        _ => false,
    };
    Ok(WindowRuleEntry {
        matches: listed_vec(f.match_table),
        excludes: listed_vec(f.exclude_table),
        default_width_from_window,
        open_floating: f.open_floating,
        open_fullscreen: f.open_fullscreen,
        open_maximized: f.open_maximized,
    })
}

/// The layer rule that a table's fields give: its `match` and `exclude`
/// tables (whose namespace patterns must compile), and what it is blocked
/// out from (`screencast`, or `screen_capture`/`screen-capture`, in any
/// letter case).
pub open spec fn layer_rule_read(f: LayerRuleFields, r: Result<LayerRuleEntry, RuleError>) -> bool {
    if f.match_table matches Some(m) && !pattern_ok(m.namespace) {
        r matches Err(e) && pattern_error("namespace", f.match_table.unwrap().namespace, e)
    } else if f.exclude_table matches Some(m) && !pattern_ok(m.namespace) {
        r matches Err(e) && pattern_error("namespace", f.exclude_table.unwrap().namespace, e)
    } else {
        match f.block_out_from {
            Some(s) => if folded(s@) == "screencast"@ {
                r matches Ok(rule) && rule.matches@ == listed(f.match_table) && rule.excludes@ == listed(f.exclude_table)
                    && rule.block_out_from == Some(BlockOutFrom::Screencast)
            } else if folded(s@) == "screen_capture"@ || folded(s@) == "screen-capture"@ {
                r matches Ok(rule) && rule.matches@ == listed(f.match_table) && rule.excludes@ == listed(f.exclude_table)
                    && rule.block_out_from == Some(BlockOutFrom::ScreenCapture)
            } else {
                r matches Err(RuleError::BlockOutFrom(t)) && t == s
            },
            None => r matches Ok(rule) && rule.matches@ == listed(f.match_table) && rule.excludes@ == listed(f.exclude_table)
                && rule.block_out_from is None,
        }
    }
}

/// Reads a layer rule from the fields of its table.
pub fn extract_layer_rule(f: LayerRuleFields) -> (r: Result<LayerRuleEntry, RuleError>)
    ensures
        layer_rule_read(f, r),
{
    if let Some(m) = &f.match_table {
        if let Some(e) = check_pattern("namespace", &m.namespace) {
            return Err(e);
        }
    }
    if let Some(m) = &f.exclude_table {
        if let Some(e) = check_pattern("namespace", &m.namespace) {
            return Err(e);
        }
    }
    let block_out_from = match f.block_out_from {
        Some(s) => match parse_block_out_from(s.as_str()) {
            Some(b) => Some(b),
            None => return Err(RuleError::BlockOutFrom(s)),
        },
        None => None,
    };
    Ok(LayerRuleEntry { matches: listed_vec(f.match_table), excludes: listed_vec(f.exclude_table), block_out_from })
}


/// The workspaces other than those named `name`, in order.
pub open spec fn workspaces_without(s: Seq<Workspace>, name: Seq<char>) -> Seq<Workspace>
    decreases s.len(),
{
    if s.len() == 0 {
        s
    } else if s.last().name@ == name {
        workspaces_without(s.drop_last(), name)
    } else {
        workspaces_without(s.drop_last(), name).push(s.last())
    }
}

/// Remove every one of the workspaces named `name`; the others keep their order.
pub fn remove_workspace(s: &mut Vec<Workspace>, name: &str)
    ensures
        final(s)@ == workspaces_without(old(s)@, name@),
{
    let mut rest: Vec<Workspace> = Vec::new();
    std::mem::swap(&mut rest, s);
    let ghost orig = rest@;
    let mut kept: Vec<Workspace> = Vec::new();
    let mut i: usize = 0;
    let mut items = rest;
    assert(orig.len() == items.len());
    assert(orig.take(0) =~= Seq::<Workspace>::empty());
    assert(orig.skip(0) =~= orig);
    while items.len() > 0
        invariant
            i <= orig.len(),
            orig.len() <= usize::MAX,
            items@ == orig.skip(i as int),
            kept@ == workspaces_without(orig.take(i as int), name@),
        decreases items@.len(),
    {
        let item = items.remove(0);
        assert(orig.skip(i + 1) =~= orig.skip(i as int).drop_first());
        assert(item == orig[i as int]);
        assert(orig.take(i + 1).drop_last() =~= orig.take(i as int));
        if !str_eq(item.name.as_str(), name) {
            kept.push(item);
        }
        i = i + 1;
    }
    assert(orig.take(orig.len() as int) =~= orig);
    *s = kept;
}


/// The environment variables other than those named `name`, in order.
pub open spec fn environment_without(s: Seq<EnvironmentVariable>, name: Seq<char>) -> Seq<EnvironmentVariable>
    decreases s.len(),
{
    if s.len() == 0 {
        s
    } else if s.last().name@ == name {
        environment_without(s.drop_last(), name)
    } else {
        environment_without(s.drop_last(), name).push(s.last())
    }
}

/// Remove every one of the environment variables named `name`; the others keep their order.
pub fn remove_environment_variable(s: &mut Vec<EnvironmentVariable>, name: &str)
    ensures
        final(s)@ == environment_without(old(s)@, name@),
{
    let mut rest: Vec<EnvironmentVariable> = Vec::new();
    std::mem::swap(&mut rest, s);
    let ghost orig = rest@;
    let mut kept: Vec<EnvironmentVariable> = Vec::new();
    let mut i: usize = 0;
    let mut items = rest;
    assert(orig.len() == items.len());
    assert(orig.take(0) =~= Seq::<EnvironmentVariable>::empty());
    assert(orig.skip(0) =~= orig);
    while items.len() > 0
        invariant
            i <= orig.len(),
            orig.len() <= usize::MAX,
            items@ == orig.skip(i as int),
            kept@ == environment_without(orig.take(i as int), name@),
        decreases items@.len(),
    {
        let item = items.remove(0);
        assert(orig.skip(i + 1) =~= orig.skip(i as int).drop_first());
        assert(item == orig[i as int]);
        assert(orig.take(i + 1).drop_last() =~= orig.take(i as int));
        if !str_eq(item.name.as_str(), name) {
            kept.push(item);
        }
        i = i + 1;
    }
    assert(orig.take(orig.len() as int) =~= orig);
    *s = kept;
}


/// The outputs other than those named `name`, in order.
pub open spec fn outputs_without<F>(s: Seq<Output<F>>, name: Seq<char>) -> Seq<Output<F>>
    decreases s.len(),
{
    if s.len() == 0 {
        s
    } else if s.last().name@ == name {
        outputs_without(s.drop_last(), name)
    } else {
        outputs_without(s.drop_last(), name).push(s.last())
    }
}

/// Remove every one of the outputs named `name`; the others keep their order.
pub fn remove_output<F>(s: &mut Vec<Output<F>>, name: &str)
    ensures
        final(s)@ == outputs_without(old(s)@, name@),
{
    let mut rest: Vec<Output<F>> = Vec::new();
    std::mem::swap(&mut rest, s);
    let ghost orig = rest@;
    let mut kept: Vec<Output<F>> = Vec::new();
    let mut i: usize = 0;
    let mut items = rest;
    assert(orig.len() == items.len());
    assert(orig.take(0) =~= Seq::<Output<F>>::empty());
    assert(orig.skip(0) =~= orig);
    while items.len() > 0
        invariant
            i <= orig.len(),
            orig.len() <= usize::MAX,
            items@ == orig.skip(i as int),
            kept@ == outputs_without(orig.take(i as int), name@),
        decreases items@.len(),
    {
        let item = items.remove(0);
        assert(orig.skip(i + 1) =~= orig.skip(i as int).drop_first());
        assert(item == orig[i as int]);
        assert(orig.take(i + 1).drop_last() =~= orig.take(i as int));
        if !str_eq(item.name.as_str(), name) {
            kept.push(item);
        }
        i = i + 1;
    }
    assert(orig.take(orig.len() as int) =~= orig);
    *s = kept;
}

/// The message for a startup command index outside `1..=len`.
pub open spec fn spawn_index_text(index: nat, len: nat) -> Seq<char> {
    "spawn_at_startup index "@ + decimal(index) + " out of bounds (1-"@ + decimal(len) + ")"@
}

/// The startup command at the 1-based `index`; `None` outside `1..=len`.
pub fn spawn_at(spawns: &Vec<Vec<String>>, index: usize) -> (r: Option<&Vec<String>>)
    ensures
        match r {
            Some(c) => 1 <= index <= spawns@.len() && *c == spawns@[index - 1],
            None => index == 0 || index > spawns@.len(),
        },
{
    if index == 0 || index > spawns.len() {
        None
    } else {
        Some(&spawns[index - 1])
    }
}

/// Remove the startup command at the 1-based `index`, or refuse an index
/// outside `1..=len` with a message that names the bounds.
pub fn remove_spawn(spawns: &mut Vec<Vec<String>>, index: usize) -> (r: Result<(), String>)
    ensures
        1 <= index <= old(spawns)@.len() ==> r is Ok && final(spawns)@ == old(spawns)@.remove(index - 1),
        !(1 <= index <= old(spawns)@.len()) ==> final(spawns)@ == old(spawns)@
            && (r matches Err(m) && m@ == spawn_index_text(index as nat, old(spawns)@.len())),
{
    if index == 0 || index > spawns.len() {
        let mut m = String::from_str("spawn_at_startup index ");
        let a = u64_text(index as u64);
        m.append(a.as_str());
        m.append(" out of bounds (1-");
        let b = u64_text(spawns.len() as u64);
        m.append(b.as_str());
        m.append(")");
        return Err(m);
    }
    let _removed = spawns.remove(index - 1);
    Ok(())
}

} // verus!
