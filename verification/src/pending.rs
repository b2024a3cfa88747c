//! The configuration that the reactive Lua API changes, and how its pending
//! changes apply: scalar settings by dotted path, and additions, removals and
//! replacements of collection items given as JSON values.
use vstd::prelude::*;
use crate::actions::{bind_action_accepted, bind_action_denotes, parse_action_from_str, Action};
use crate::json::{as_bool, as_i64, as_text, as_u64, field_of, Json, JsonNumber};
use crate::numbers::{decimal, i64_text, signed_decimal, u64_text};
use crate::settings::{json_to_preset_size, leaf_of, leaf_of_parts, preset_size_of, read_setting, setting_panics, setting_read, split_dots, split_path, views, PresetSize, SettingValue};
use crate::values::{transform_name, transform_or_normal, Transform};
use crate::derive_plan::{contains_chars, contains_text};
use crate::text::{chars_of, folded, str_eq};
use vstd::utf8::is_ascii_chars;

verus! {

/// A key binding.
pub struct Bind<F> {
    /// The key, as written (`Mod+T`).
    pub key: String,
    pub action: Action<F>,
    pub repeat: bool,
    pub allow_when_locked: bool,
    pub allow_inhibiting: bool,
}

/// A window match of a window rule: the sources of its regular expressions.
pub struct RuleMatch {
    pub app_id: Option<String>,
    pub title: Option<String>,
}

/// A window rule.
pub struct WindowRule<F> {
    pub matches: Vec<RuleMatch>,
    pub open_on_output: Option<String>,
    pub open_maximized: Option<bool>,
    pub open_fullscreen: Option<bool>,
    pub open_floating: Option<bool>,
    /// Unset, or set to a size (none: the window's own choice).
    pub default_column_width: Option<Option<PresetSize<F>>>,
}

/// An output mode.
pub struct OutputMode<F> {
    pub width: u16,
    pub height: u16,
    pub refresh: Option<JsonNumber<F>>,
}

/// An output.
pub struct Output<F> {
    pub name: String,
    pub off: bool,
    pub scale: Option<JsonNumber<F>>,
    /// Variable refresh rate is on (with its default settings).
    pub vrr: bool,
    pub position: Option<(i32, i32)>,
    pub mode: Option<OutputMode<F>>,
    pub transform: Transform,
}

/// An environment variable to set (or unset when it has no value).
pub struct EnvironmentVariable {
    pub name: String,
    pub value: Option<String>,
}

/// A named workspace.
pub struct Workspace {
    pub name: String,
    pub open_on_output: Option<String>,
}

/// What the `args` of a bind give: strings as they are, integers in
/// decimal, floats as `Display` writes them; other values are skipped.
pub open spec fn args_read<F: std::fmt::Display>(items: Seq<Json<F>>, args: Seq<String>) -> bool
    decreases items.len(),
{
    if items.len() == 0 {
        args.len() == 0
    } else {
        let v = items.last();
        match v {
            Json::String(s) => args.len() > 0 && args.last() == s && args_read(items.drop_last(), args.drop_last()),
            Json::Number(JsonNumber::PosInt(u)) => args.len() > 0 && args.last()@ == decimal(u as nat)
                && args_read(items.drop_last(), args.drop_last()),
            Json::Number(JsonNumber::NegInt(i)) => args.len() > 0 && args.last()@ == signed_decimal(i as int)
                && args_read(items.drop_last(), args.drop_last()),
            Json::Number(JsonNumber::Float(f)) => args.len() > 0
                && vstd::string::to_string_from_display_ensures::<F>(&f, args.last())
                && args_read(items.drop_last(), args.drop_last()),
            _ => args_read(items.drop_last(), args),
        }
    }
}

/// The items of a bind's `args` array (none when absent or not an array).
pub open spec fn arg_items<F>(v: Json<F>) -> Seq<Json<F>> {
    match field_of(v, "args"@) {
        Some(Json::Array(items)) => items@,
        _ => Seq::empty(),
    }
}

/// The text of a JSON value that is an argument.
fn arg_text<F: Copy + std::fmt::Display>(v: &Json<F>) -> (r: Option<String>)
    ensures
        match *v {
            Json::String(s) => r == Some(s),
            Json::Number(JsonNumber::PosInt(u)) => r matches Some(t) && t@ == decimal(u as nat),
            Json::Number(JsonNumber::NegInt(i)) => r matches Some(t) && t@ == signed_decimal(i as int),
            Json::Number(JsonNumber::Float(f)) => r matches Some(t)
                && vstd::string::to_string_from_display_ensures::<F>(&f, t),
            _ => r is None,
        },
{
    match v {
        Json::String(s) => Some(s.clone()),
        Json::Number(JsonNumber::PosInt(u)) => if *u <= 0x7fff_ffff_ffff_ffff {
            let t = i64_text(*u as i64);
            Some(t)
        } else {
            Some(u64_text(*u))
        },
        Json::Number(JsonNumber::NegInt(i)) => Some(i64_text(*i)),
        Json::Number(JsonNumber::Float(f)) => Some(f.to_string()),
        _ => None,
    }
}

fn args_of<F: Copy + std::fmt::Display>(v: &Json<F>) -> (r: Vec<String>)
    ensures
        args_read(arg_items(*v), r@),
{
    match v.get("args") {
        Some(Json::Array(items)) => {
            let mut r: Vec<String> = Vec::new();
            for i in 0..items.len()
                invariant
                    args_read(items@.take(i as int), r@),
            {
                let ghost before = r@;
                assert(items@.take(i + 1).drop_last() =~= items@.take(i as int));
                match arg_text(&items[i]) {
                    Some(t) => {
                        r.push(t);
                        assert(r@.drop_last() =~= before);
                    },
                    None => {},
                }
            }
            assert(items@.take(items@.len() as int) =~= items@);
            r
        },
        _ => Vec::new(),
    }
}

/// A flag of a JSON object, `default` when absent or not a boolean.
pub open spec fn flag_field<F>(v: Json<F>, key: Seq<char>, default: bool) -> bool {
    match field_of(v, key) {
        Some(x) => match as_bool(x) {
            Some(b) => b,
            None => default,
        },
        None => default,
    }
}

fn flag_field_of<F: Copy>(v: &Json<F>, key: &str, default: bool) -> (r: bool)
    ensures
        r == flag_field(*v, key@, default),
{
    match v.get(key) {
        Some(x) => match x.as_bool() {
            Some(b) => b,
            None => default,
        },
        None => default,
    }
}

/// The text of a field of a JSON object, when it is a string.
pub open spec fn text_field<F>(v: Json<F>, key: Seq<char>) -> Option<String> {
    match field_of(v, key) {
        Some(x) => as_text(x),
        None => None,
    }
}

fn text_field_of<F: Copy>(v: &Json<F>, key: &str) -> (r: Option<String>)
    ensures
        r == text_field(*v, key@),
{
    match v.get(key) {
        Some(x) => x.text(),
        None => None,
    }
}

/// `r` is what the JSON value `v` makes as a bind: none unless `v` is an
/// object with a `key` text and an `action` text that, with the `args`,
/// names an action; else the bind of that key and action, `repeat` (default
/// true), `allow_when_locked` (default false) and `allow_inhibiting`
/// (default true).
pub open spec fn bind_result<F: std::fmt::Display>(v: Json<F>, r: Option<Bind<F>>) -> bool {
    match r {
        Some(b) => {
            &&& v is Object
            &&& text_field(v, "key"@) == Some(b.key)
            &&& text_field(v, "action"@) matches Some(a) && exists|args: Seq<String>|
                args_read(arg_items(v), args) && bind_action_accepted::<F>(a@, args)
                && #[trigger] bind_action_denotes(a@, args, b.action)
            &&& b.repeat == flag_field(v, "repeat"@, true)
            &&& b.allow_when_locked == flag_field(v, "allow_when_locked"@, false)
            &&& b.allow_inhibiting == flag_field(v, "allow_inhibiting"@, true)
        },
        None => {
            ||| !(v is Object)
            ||| text_field(v, "key"@) is None
            ||| text_field(v, "action"@) is None
            ||| (text_field(v, "action"@) matches Some(a) && exists|args: Seq<String>|
                args_read(arg_items(v), args) && !#[trigger] bind_action_accepted::<F>(a@, args))
        },
    }
}

/// Convert a JSON value to a bind.
pub fn json_to_bind<F: Copy + std::fmt::Display>(json: &Json<F>) -> (r: Option<Bind<F>>)
    ensures
        bind_result(*json, r),
{
    if let Json::Object(_) = json {
    } else {
        return None;
    }
    let key = match text_field_of(json, "key") {
        Some(k) => k,
        None => return None,
    };
    let action_str = match text_field_of(json, "action") {
        Some(a) => a,
        None => return None,
    };
    let args = args_of(json);
    let action = match parse_action_from_str(action_str.as_str(), args.as_slice()) {
        Some(a) => a,
        None => return None,
    };
    let repeat = flag_field_of(json, "repeat", true);
    let allow_when_locked = flag_field_of(json, "allow_when_locked", false);
    let allow_inhibiting = flag_field_of(json, "allow_inhibiting", true);
    Some(Bind { key, action, repeat, allow_when_locked, allow_inhibiting })
}


/// What `regex::Regex::new` answers for a pattern: `None` when it compiles,
/// else the text of its error.
pub uninterp spec fn regex_error(pattern: Seq<char>) -> Option<Seq<char>>;

/// Whether a pattern compiles as a regular expression.
pub open spec fn regex_compiles(pattern: Seq<char>) -> bool {
    regex_error(pattern) is None
}

/// Calls `regex::Regex::new` and, when it fails, writes its error with
/// `Display`. The contract claims only that the answer is a function of the
/// pattern (`regex_error`).
#[verifier::external_body]
pub(crate) fn regex_check(pattern: &str) -> (r: Option<String>)
    ensures
        match r {
            Some(m) => regex_error(pattern@) == Some(m@),
            None => regex_error(pattern@) is None,
        },
{
    match regex::Regex::new(pattern) {
        Ok(_) => None,
        Err(e) => Some(e.to_string()),
    }
}

/// A pattern field of a match object, kept when it compiles.
pub open spec fn pattern_field<F>(m: Json<F>, key: Seq<char>) -> Option<String> {
    match text_field(m, key) {
        Some(s) => if regex_compiles(s@) { Some(s) } else { None },
        None => None,
    }
}

fn pattern_field_of<F: Copy>(m: &Json<F>, key: &str) -> (r: Option<String>)
    ensures
        r == pattern_field(*m, key@),
{
    match text_field_of(m, key) {
        Some(s) => if regex_check(s.as_str()).is_none() { Some(s) } else { None },
        None => None,
    }
}

/// The window match that a match object gives: its `app_id` and `title`
/// patterns that compile, when it has one of them.
pub open spec fn rule_match_of<F>(m: Json<F>) -> Option<RuleMatch> {
    let app_id = pattern_field(m, "app_id"@);
    let title = pattern_field(m, "title"@);
    if m is Object && (app_id is Some || title is Some) {
        Some(RuleMatch { app_id, title })
    } else {
        None
    }
}

fn rule_match<F: Copy>(m: &Json<F>) -> (r: Option<RuleMatch>)
    ensures
        r == rule_match_of(*m),
{
    if let Json::Object(_) = m {
        let app_id = pattern_field_of(m, "app_id");
        let title = pattern_field_of(m, "title");
        if app_id.is_some() || title.is_some() {
            return Some(RuleMatch { app_id, title });
        }
    }
    None
}

/// The window matches of the objects among `items`, in order.
pub open spec fn matches_from<F>(items: Seq<Json<F>>) -> Seq<RuleMatch>
    decreases items.len(),
{
    if items.len() == 0 {
        Seq::empty()
    } else {
        let rest = matches_from(items.drop_last());
        match rule_match_of(items.last()) {
            Some(m) => rest.push(m),
            None => rest,
        }
    }
}

/// The window matches of a rule: from its `matches` array, else from its
/// `match` object.
pub open spec fn rule_matches_of<F>(v: Json<F>) -> Seq<RuleMatch> {
    match field_of(v, "matches"@) {
        Some(Json::Array(items)) => matches_from(items@),
        _ => match field_of(v, "match"@) {
            Some(m) => match rule_match_of(m) {
                Some(x) => seq![x],
                None => Seq::empty(),
            },
            None => Seq::empty(),
        },
    }
}

/// An optional flag of a JSON object: its value when it is a boolean.
pub open spec fn option_flag<F>(v: Json<F>, key: Seq<char>) -> Option<bool> {
    match field_of(v, key) {
        Some(x) => as_bool(x),
        None => None,
    }
}

fn option_flag_of<F: Copy>(v: &Json<F>, key: &str) -> (r: Option<bool>)
    ensures
        r == option_flag(*v, key@),
{
    match v.get(key) {
        Some(x) => x.as_bool(),
        None => None,
    }
}

/// The default column width of a rule: a preset size, else the window's
/// own choice for an object or null, else unset.
pub open spec fn column_width_of<F>(v: Json<F>) -> Option<Option<PresetSize<F>>> {
    match field_of(v, "default_column_width"@) {
        Some(w) => match preset_size_of(w) {
            Some(p) => Some(Some(p)),
            None => if w is Object || w is Null { Some(None) } else { None },
        },
        None => None,
    }
}

/// `r` is the window rule that a JSON value makes: none unless it is an
/// object; else its matches, `open_on_output`, the three `open_*` flags and
/// the default column width.
pub open spec fn window_rule_result<F>(v: Json<F>, r: Option<WindowRule<F>>) -> bool {
    match r {
        None => !(v is Object),
        Some(rule) => {
            &&& v is Object
            &&& rule.matches@ == rule_matches_of(v)
            &&& rule.open_on_output == text_field(v, "open_on_output"@)
            &&& rule.open_maximized == option_flag(v, "open_maximized"@)
            &&& rule.open_fullscreen == option_flag(v, "open_fullscreen"@)
            &&& rule.open_floating == option_flag(v, "open_floating"@)
            &&& rule.default_column_width == column_width_of(v)
        },
    }
}

/// Convert a JSON value to a window rule.
pub fn json_to_window_rule<F: Copy>(json: &Json<F>) -> (r: Option<WindowRule<F>>)
    ensures
        window_rule_result(*json, r),
{
    if let Json::Object(_) = json {
    } else {
        return None;
    }
    let mut matches: Vec<RuleMatch> = Vec::new();
    match json.get("matches") {
        Some(Json::Array(items)) => {
            for i in 0..items.len()
                invariant
                    matches@ == matches_from(items@.take(i as int)),
            {
                assert(items@.take(i + 1).drop_last() =~= items@.take(i as int));
                match rule_match(&items[i]) {
                    Some(m) => matches.push(m),
                    None => {},
                }
            }
            assert(items@.take(items@.len() as int) =~= items@);
        },
        _ => {
            match json.get("match") {
                Some(m) => match rule_match(m) {
                    Some(x) => {
                        matches.push(x);
                        assert(matches@ =~= seq![x]);
                    },
                    None => {},
                },
                None => {},
            }
        },
    }
    let default_column_width = match json.get("default_column_width") {
        Some(w) => match json_to_preset_size(w) {
            Some(p) => Some(Some(p)),
            None => match w {
                Json::Object(_) | Json::Null => Some(None),
                _ => None,
            },
        },
        None => None,
    };
    Some(WindowRule {
        matches,
        open_on_output: text_field_of(json, "open_on_output"),
        open_maximized: option_flag_of(json, "open_maximized"),
        open_fullscreen: option_flag_of(json, "open_fullscreen"),
        open_floating: option_flag_of(json, "open_floating"),
        default_column_width,
    })
}

/// An integer field read with `as_i64`, 0 when absent, truncated to `i32`.
pub open spec fn int_field<F>(v: Json<F>, key: Seq<char>) -> i32 {
    match field_of(v, key) {
        Some(x) => match as_i64(x) {
            Some(i) => i as i32,
            None => 0,
        },
        None => 0,
    }
}

fn int_field_of<F: Copy>(v: &Json<F>, key: &str) -> (r: i32)
    ensures
        r == int_field(*v, key@),
{
    match v.get(key) {
        Some(x) => match x.as_i64() {
            Some(i) => i as i32,
            None => 0,
        },
        None => 0,
    }
}

/// A size field read with `as_u64`, 0 when absent, truncated to `u16`.
pub open spec fn size_field<F>(v: Json<F>, key: Seq<char>) -> u16 {
    match field_of(v, key) {
        Some(x) => match as_u64(x) {
            Some(u) => u as u16,
            None => 0,
        },
        None => 0,
    }
}

fn size_field_of<F: Copy>(v: &Json<F>, key: &str) -> (r: u16)
    ensures
        r == size_field(*v, key@),
{
    match v.get(key) {
        Some(x) => match x.as_u64() {
            Some(u) => u as u16,
            None => 0,
        },
        None => 0,
    }
}

/// A number field of a JSON object.
pub open spec fn number_field<F>(v: Json<F>, key: Seq<char>) -> Option<JsonNumber<F>> {
    match field_of(v, key) {
        Some(Json::Number(n)) => Some(n),
        _ => None,
    }
}

fn number_field_of<F: Copy>(v: &Json<F>, key: &str) -> (r: Option<JsonNumber<F>>)
    ensures
        r == number_field(*v, key@),
{
    match v.get(key) {
        Some(x) => x.as_number(),
        None => None,
    }
}

/// The position of an output: an object with `x` and `y`.
pub open spec fn position_of<F>(v: Json<F>) -> Option<(i32, i32)> {
    match field_of(v, "position"@) {
        Some(p) => if p is Object { Some((int_field(p, "x"@), int_field(p, "y"@))) } else { None },
        None => None,
    }
}

/// The mode of an output: an object with `width`, `height` and `refresh`.
pub open spec fn mode_of<F>(v: Json<F>) -> Option<OutputMode<F>> {
    match field_of(v, "mode"@) {
        Some(m) => if m is Object {
            Some(OutputMode { width: size_field(m, "width"@), height: size_field(m, "height"@), refresh: number_field(m, "refresh"@) })
        } else {
            None
        },
        None => None,
    }
}

/// The transform of an output: an exact transform name, else normal.
pub open spec fn output_transform_of<F>(v: Json<F>) -> Transform {
    match text_field(v, "transform"@) {
        Some(s) => match transform_name(s@) {
            Some(t) => t,
            None => Transform::Normal,
        },
        None => Transform::Normal,
    }
}

/// `r` is the output that a JSON value makes: none unless it is an object;
/// else its `name` (empty when absent), `off`, `scale`, `vrr`, `position`,
/// `mode` and `transform`.
pub open spec fn output_result<F>(v: Json<F>, r: Option<Output<F>>) -> bool {
    match r {
        None => !(v is Object),
        Some(o) => {
            &&& v is Object
            &&& match text_field(v, "name"@) {
                Some(n) => o.name == n,
                None => o.name@ == Seq::<char>::empty(),
            }
            &&& o.off == flag_field(v, "off"@, false)
            &&& o.scale == number_field(v, "scale"@)
            &&& o.vrr == flag_field(v, "vrr"@, false)
            &&& o.position == position_of(v)
            &&& o.mode == mode_of(v)
            &&& o.transform == output_transform_of(v)
        },
    }
}

/// Convert a JSON value to an output.
pub fn json_to_output<F: Copy>(json: &Json<F>) -> (r: Option<Output<F>>)
    ensures
        output_result(*json, r),
{
    if let Json::Object(_) = json {
    } else {
        return None;
    }
    let name = match text_field_of(json, "name") {
        Some(n) => n,
        None => String::new(),
    };
    let position = match json.get("position") {
        Some(p) => match p {
            Json::Object(_) => Some((int_field_of(p, "x"), int_field_of(p, "y"))),
            _ => None,
        },
        None => None,
    };
    let mode = match json.get("mode") {
        Some(m) => match m {
            Json::Object(_) => Some(OutputMode {
                width: size_field_of(m, "width"),
                height: size_field_of(m, "height"),
                refresh: number_field_of(m, "refresh"),
            }),
            _ => None,
        },
        None => None,
    };
    let transform = match json.get("transform") {
        Some(t) => match t.as_str() {
            Some(s) => transform_or_normal(s),
            None => Transform::Normal,
        },
        None => Transform::Normal,
    };
    Some(Output {
        name,
        off: flag_field_of(json, "off", false),
        scale: number_field_of(json, "scale"),
        vrr: flag_field_of(json, "vrr", false),
        position,
        mode,
        transform,
    })
}

/// The strings among `items`, in order.
pub open spec fn strings_of<F>(items: Seq<Json<F>>) -> Seq<String>
    decreases items.len(),
{
    if items.len() == 0 {
        Seq::empty()
    } else {
        let rest = strings_of(items.drop_last());
        match items.last() {
            Json::String(s) => rest.push(s),
            _ => rest,
        }
    }
}

fn strings_from<F: Copy>(items: &Vec<Json<F>>) -> (r: Vec<String>)
    ensures
        r@ == strings_of(items@),
{
    let mut r: Vec<String> = Vec::new();
    for i in 0..items.len()
        invariant
            r@ == strings_of(items@.take(i as int)),
    {
        assert(items@.take(i + 1).drop_last() =~= items@.take(i as int));
        match items[i].text() {
            Some(s) => r.push(s),
            None => {},
        }
    }
    assert(items@.take(items@.len() as int) =~= items@);
    r
}

/// The command that a JSON value gives to spawn at startup: a string, a
/// non-empty array of strings (other elements skipped), or an object whose
/// `command` is one of these.
pub open spec fn spawn_command_of<F>(v: Json<F>) -> Option<Seq<String>> {
    let direct = match v {
        Json::String(s) => Some(seq![s]),
        Json::Array(items) => if strings_of(items@).len() > 0 { Some(strings_of(items@)) } else { None },
        _ => None,
    };
    if direct is Some {
        direct
    } else if v is Object {
        match field_of(v, "command"@) {
            Some(Json::String(s)) => Some(seq![s]),
            Some(Json::Array(items)) => if strings_of(items@).len() > 0 { Some(strings_of(items@)) } else { None },
            _ => None,
        }
    } else {
        None
    }
}

fn command_of<F: Copy>(v: &Json<F>) -> (r: Option<Vec<String>>)
    ensures
        match v {
            Json::String(s) => r matches Some(c) && c@ == seq![*s],
            Json::Array(items) => if strings_of(items@).len() > 0 {
                r matches Some(c) && c@ == strings_of(items@)
            } else {
                r is None
            },
            _ => r is None,
        },
{
    match v {
        Json::String(s) => {
            let mut c: Vec<String> = Vec::new();
            c.push(s.clone());
            assert(c@ =~= seq![*s]);
            Some(c)
        },
        Json::Array(items) => {
            let c = strings_from(items);
            if c.len() > 0 { Some(c) } else { None }
        },
        _ => None,
    }
}

/// Convert a JSON value to a command to spawn at startup.
pub fn json_to_spawn<F: Copy>(json: &Json<F>) -> (r: Option<Vec<String>>)
    ensures
        match spawn_command_of(*json) {
            Some(c) => r matches Some(x) && x@ == c,
            None => r is None,
        },
{
    match command_of(json) {
        Some(c) => return Some(c),
        None => {},
    }
    if let Json::Object(_) = json {
        match json.get("command") {
            Some(cmd) => command_of(cmd),
            None => None,
        }
    } else {
        None
    }
}

/// The environment variable that a JSON object gives: its `key` (needed)
/// and `value` texts.
pub open spec fn environment_of<F>(v: Json<F>) -> Option<EnvironmentVariable> {
    if v is Object {
        match text_field(v, "key"@) {
            Some(name) => Some(EnvironmentVariable { name, value: text_field(v, "value"@) }),
            None => None,
        }
    } else {
        None
    }
}

/// Convert a JSON value to an environment variable.
pub fn json_to_environment<F: Copy>(json: &Json<F>) -> (r: Option<EnvironmentVariable>)
    ensures
        r == environment_of(*json),
{
    if let Json::Object(_) = json {
        match text_field_of(json, "key") {
            Some(name) => Some(EnvironmentVariable { name, value: text_field_of(json, "value") }),
            None => None,
        }
    } else {
        None
    }
}

/// The workspace that a JSON object gives: its `name` (needed) and
/// `open_on_output` texts.
pub open spec fn workspace_of<F>(v: Json<F>) -> Option<Workspace> {
    if v is Object {
        match text_field(v, "name"@) {
            Some(name) => Some(Workspace { name, open_on_output: text_field(v, "open_on_output"@) }),
            None => None,
        }
    } else {
        None
    }
}

/// Convert a JSON value to a workspace.
pub fn json_to_workspace<F: Copy>(json: &Json<F>) -> (r: Option<Workspace>)
    ensures
        r == workspace_of(*json),
{
    if let Json::Object(_) = json {
        match text_field_of(json, "name") {
            Some(name) => Some(Workspace { name, open_on_output: text_field_of(json, "open_on_output") }),
            None => None,
        }
    } else {
        None
    }
}


/// A scalar setting, by its dotted name, and its value.
pub struct Setting<F> {
    pub field: &'static str,
    pub value: SettingValue<F>,
}

/// The configuration that the pending changes apply to: the scalar settings
/// that were set (each name once), and the collections.
pub struct ConfigModel<F> {
    pub settings: Vec<Setting<F>>,
    pub binds: Vec<Bind<F>>,
    pub window_rules: Vec<WindowRule<F>>,
    pub outputs: Vec<Output<F>>,
    pub spawn_at_startup: Vec<Vec<String>>,
    pub environment: Vec<EnvironmentVariable>,
    pub workspaces: Vec<Workspace>,
}

/// The contents of a configuration.
pub struct ConfigView<F> {
    pub settings: Seq<Setting<F>>,
    pub binds: Seq<Bind<F>>,
    pub window_rules: Seq<WindowRule<F>>,
    pub outputs: Seq<Output<F>>,
    pub spawn_at_startup: Seq<Vec<String>>,
    pub environment: Seq<EnvironmentVariable>,
    pub workspaces: Seq<Workspace>,
}

impl<F> View for ConfigModel<F> {
    type V = ConfigView<F>;

    open spec fn view(&self) -> ConfigView<F> {
        ConfigView {
            settings: self.settings@,
            binds: self.binds@,
            window_rules: self.window_rules@,
            outputs: self.outputs@,
            spawn_at_startup: self.spawn_at_startup@,
            environment: self.environment@,
            workspaces: self.workspaces@,
        }
    }
}

impl<F> ConfigModel<F> {
    /// An empty configuration.
    pub fn new() -> (r: Self)
        ensures
            r@.settings.len() == 0,
            r@.binds.len() == 0,
            r@.window_rules.len() == 0,
            r@.outputs.len() == 0,
            r@.spawn_at_startup.len() == 0,
            r@.environment.len() == 0,
            r@.workspaces.len() == 0,
    {
        ConfigModel {
            settings: Vec::new(),
            binds: Vec::new(),
            window_rules: Vec::new(),
            outputs: Vec::new(),
            spawn_at_startup: Vec::new(),
            environment: Vec::new(),
            workspaces: Vec::new(),
        }
    }
}

/// Changes recorded by the reactive configuration API and not applied yet:
/// scalar changes by dotted path, and per collection name the items added,
/// the criteria of items removed and the items that replace the collection.
pub struct PendingConfigChanges<F> {
    pub scalar_changes: Vec<(String, Json<F>)>,
    pub collection_additions: Vec<(String, Vec<Json<F>>)>,
    pub collection_removals: Vec<(String, Vec<Json<F>>)>,
    pub collection_replacements: Vec<(String, Vec<Json<F>>)>,
}

impl<F> PendingConfigChanges<F> {
    /// No change recorded.
    pub fn new() -> (r: Self)
        ensures
            !r.has_changes_spec(),
            r.scalar_changes@.len() == 0,
            r.wf(),
    {
        PendingConfigChanges {
            scalar_changes: Vec::new(),
            collection_additions: Vec::new(),
            collection_removals: Vec::new(),
            collection_replacements: Vec::new(),
        }
    }

    /// Some change is recorded.
    pub open spec fn has_changes_spec(&self) -> bool {
        self.scalar_changes@.len() > 0 || self.collection_additions@.len() > 0
            || self.collection_removals@.len() > 0 || self.collection_replacements@.len() > 0
    }

    /// The invariant of recorded changes: a path has one scalar change, and a
    /// collection name one entry in each list.
    pub open spec fn wf(&self) -> bool {
        &&& keys_distinct(self.scalar_changes@)
        &&& keys_distinct(self.collection_additions@)
        &&& keys_distinct(self.collection_removals@)
        &&& keys_distinct(self.collection_replacements@)
    }

    /// Record that the setting at `path` changes to `value`; a change already
    /// recorded for the path is replaced, in its place.
    pub fn record_scalar_change(&mut self, path: String, value: Json<F>)
        requires
            old(self).wf(),
        ensures
            final(self).wf(),
            final(self).scalar_changes@ == keyed_set(old(self).scalar_changes@, path, value),
            final(self).collection_additions@ == old(self).collection_additions@,
            final(self).collection_removals@ == old(self).collection_removals@,
            final(self).collection_replacements@ == old(self).collection_replacements@,
    {
        keyed_put(&mut self.scalar_changes, path, value);
    }

    /// Record that `items` are added to the collection `name`, after those
    /// already recorded for it.
    pub fn record_additions(&mut self, name: String, items: Vec<Json<F>>)
        requires
            old(self).wf(),
        ensures
            final(self).wf(),
            final(self).collection_additions@.map_values(|e: (String, Vec<Json<F>>)| (e.0, e.1@)) == keyed_append(old(self).collection_additions@, name, items@),
            final(self).scalar_changes@ == old(self).scalar_changes@,
            final(self).collection_removals@ == old(self).collection_removals@,
            final(self).collection_replacements@ == old(self).collection_replacements@,
    {
        keyed_extend(&mut self.collection_additions, name, items);
    }

    /// Record removal criteria for the collection `name`, after those already
    /// recorded for it.
    pub fn record_removals(&mut self, name: String, criteria: Vec<Json<F>>)
        requires
            old(self).wf(),
        ensures
            final(self).wf(),
            final(self).collection_removals@.map_values(|e: (String, Vec<Json<F>>)| (e.0, e.1@)) == keyed_append(old(self).collection_removals@, name, criteria@),
            final(self).scalar_changes@ == old(self).scalar_changes@,
            final(self).collection_additions@ == old(self).collection_additions@,
            final(self).collection_replacements@ == old(self).collection_replacements@,
    {
        keyed_extend(&mut self.collection_removals, name, criteria);
    }

    /// Record that the collection `name` is replaced by `items`; a replacement
    /// already recorded for it is replaced, in its place.
    pub fn record_replacement(&mut self, name: String, items: Vec<Json<F>>)
        requires
            old(self).wf(),
        ensures
            final(self).wf(),
            final(self).collection_replacements@ == keyed_set(old(self).collection_replacements@, name, items),
            final(self).scalar_changes@ == old(self).scalar_changes@,
            final(self).collection_additions@ == old(self).collection_additions@,
            final(self).collection_removals@ == old(self).collection_removals@,
    {
        keyed_put(&mut self.collection_replacements, name, items);
    }

    /// Whether some change is recorded.
    pub fn has_changes(&self) -> (r: bool)
        ensures
            r == self.has_changes_spec(),
    {
        self.scalar_changes.len() > 0 || self.collection_additions.len() > 0
            || self.collection_removals.len() > 0 || self.collection_replacements.len() > 0
    }
}

/// No two entries have the same key.
pub open spec fn keys_distinct<V>(v: Seq<(String, V)>) -> bool {
    forall|i: int, j: int| 0 <= i < j < v.len() ==> #[trigger] v[i].0@ != #[trigger] v[j].0@
}

/// The position of the entry with key `k`, or -1.
pub open spec fn key_index<V>(v: Seq<(String, V)>, k: Seq<char>) -> int
    decreases v.len(),
{
    if v.len() == 0 {
        -1
    } else if v.last().0@ == k {
        v.len() - 1
    } else {
        key_index(v.drop_last(), k)
    }
}

/// The entries with key `k` holding `x`: its entry's value replaced, or a new
/// entry at the end.
pub open spec fn keyed_set<V>(v: Seq<(String, V)>, k: String, x: V) -> Seq<(String, V)> {
    let i = key_index(v, k@);
    if i >= 0 { v.update(i, (v[i].0, x)) } else { v.push((k, x)) }
}

/// The entries with `items` appended to the list of key `k`, or a new entry
/// for `k` at the end.
pub open spec fn keyed_append<T>(v: Seq<(String, Vec<T>)>, k: String, items: Seq<T>) -> Seq<(String, Seq<T>)> {
    let w = v.map_values(|e: (String, Vec<T>)| (e.0, e.1@));
    let i = key_index(w, k@);
    if i >= 0 { w.update(i, (w[i].0, w[i].1 + items)) } else { w.push((k, items)) }
}

proof fn lemma_key_index<V>(v: Seq<(String, V)>, k: Seq<char>)
    ensures
        -1 <= key_index(v, k) < v.len(),
        key_index(v, k) >= 0 ==> v[key_index(v, k)].0@ == k,
        key_index(v, k) == -1 ==> forall|j: int| 0 <= j < v.len() ==> #[trigger] v[j].0@ != k,
    decreases v.len(),
{
    if v.len() > 0 && v.last().0@ != k {
        lemma_key_index(v.drop_last(), k);
        if key_index(v, k) == -1 {
            assert forall|j: int| 0 <= j < v.len() implies #[trigger] v[j].0@ != k by {
                if j < v.len() - 1 {
                    assert(v[j] == v.drop_last()[j]);
                }
            }
        }
    }
}

fn find_key<V>(v: &Vec<(String, V)>, k: &str) -> (r: Option<usize>)
    requires
        keys_distinct(v@),
    ensures
        match r {
            Some(i) => i == key_index(v@, k@) && i < v@.len(),
            None => key_index(v@, k@) == -1,
        },
{
    proof { lemma_key_index(v@, k@); }
    let mut i: usize = 0;
    while i < v.len()
        invariant
            i <= v@.len(),
            keys_distinct(v@),
            forall|j: int| 0 <= j < i ==> #[trigger] v@[j].0@ != k@,
        decreases v@.len() - i,
    {
        if str_eq(v[i].0.as_str(), k) {
            proof {
                lemma_key_index(v@, k@);
                let x = key_index(v@, k@);
                if x >= 0 && x != i {
                    assert(v@[x].0@ == v@[i as int].0@);
                }
            }
            return Some(i);
        }
        i = i + 1;
    }
    proof {
        lemma_key_index(v@, k@);
        let x = key_index(v@, k@);
        if x >= 0 {
            assert(v@[x].0@ != k@);
        }
    }
    None
}

fn keyed_put<V>(v: &mut Vec<(String, V)>, k: String, x: V)
    requires
        keys_distinct(old(v)@),
    ensures
        keys_distinct(final(v)@),
        final(v)@ == keyed_set(old(v)@, k, x),
{
    match find_key(v, k.as_str()) {
        Some(i) => {
            let (name, _) = v.remove(i);
            v.insert(i, (name, x));
            assert(v@ =~= keyed_set(old(v)@, k, x));
            assert forall|a: int, b: int| 0 <= a < b < v@.len() implies #[trigger] v@[a].0@ != #[trigger] v@[b].0@ by {
                assert(v@[a].0 == old(v)@[a].0 && v@[b].0 == old(v)@[b].0);
            }
        },
        None => {
            proof { lemma_key_index(v@, k@); }
            v.push((k, x));
            assert forall|a: int, b: int| 0 <= a < b < v@.len() implies #[trigger] v@[a].0@ != #[trigger] v@[b].0@ by {
                if b == v@.len() - 1 {
                    assert(v@[a] == old(v)@[a]);
                }
            }
        },
    }
}

fn keyed_extend<T>(v: &mut Vec<(String, Vec<T>)>, k: String, items: Vec<T>)
    requires
        keys_distinct(old(v)@),
    ensures
        keys_distinct(final(v)@),
        final(v)@.map_values(|e: (String, Vec<T>)| (e.0, e.1@)) == keyed_append(old(v)@, k, items@),
{
    let ghost w = old(v)@.map_values(|e: (String, Vec<T>)| (e.0, e.1@));
    proof {
        assert forall|a: int, b: int| 0 <= a < b < w.len() implies #[trigger] w[a].0@ != #[trigger] w[b].0@ by {
            assert(w[a].0 == old(v)@[a].0 && w[b].0 == old(v)@[b].0);
        }
        lemma_key_index(w, k@);
    }
    match find_key(v, k.as_str()) {
        Some(i) => {
            proof { lemma_key_index(old(v)@, k@); lemma_key_index_map(old(v)@, k@); }
            let (name, mut list) = v.remove(i);
            let ghost before = list@;
            let mut more = items;
            list.append(&mut more);
            v.insert(i, (name, list));
            assert(v@.map_values(|e: (String, Vec<T>)| (e.0, e.1@)) =~= keyed_append(old(v)@, k, items@));
            assert forall|a: int, b: int| 0 <= a < b < v@.len() implies #[trigger] v@[a].0@ != #[trigger] v@[b].0@ by {
                assert(v@[a].0 == old(v)@[a].0 && v@[b].0 == old(v)@[b].0);
            }
        },
        None => {
            proof { lemma_key_index(old(v)@, k@); lemma_key_index_map(old(v)@, k@); }
            v.push((k, items));
            assert(v@.map_values(|e: (String, Vec<T>)| (e.0, e.1@)) =~= keyed_append(old(v)@, k, items@));
            assert forall|a: int, b: int| 0 <= a < b < v@.len() implies #[trigger] v@[a].0@ != #[trigger] v@[b].0@ by {
                if b == v@.len() - 1 {
                    assert(v@[a] == old(v)@[a]);
                }
            }
        },
    }
}

proof fn lemma_key_index_map<T>(v: Seq<(String, Vec<T>)>, k: Seq<char>)
    ensures
        key_index(v.map_values(|e: (String, Vec<T>)| (e.0, e.1@)), k) == key_index(v, k),
    decreases v.len(),
{
    if v.len() > 0 {
        assert(v.map_values(|e: (String, Vec<T>)| (e.0, e.1@)).drop_last()
            =~= v.drop_last().map_values(|e: (String, Vec<T>)| (e.0, e.1@)));
        lemma_key_index_map(v.drop_last(), k);
    }
}

/// The position of the first setting named `field`, or -1.
pub open spec fn setting_index<F>(s: Seq<Setting<F>>, field: &'static str) -> int
    decreases s.len(),
{
    if s.len() == 0 {
        -1
    } else if s[0].field@ == field@ {
        0
    } else {
        let i = setting_index(s.drop_first(), field);
        if i < 0 { -1 } else { i + 1 }
    }
}

pub(crate) proof fn lemma_setting_index<F>(s: Seq<Setting<F>>, field: &'static str)
    ensures
        -1 <= setting_index(s, field) < s.len(),
        setting_index(s, field) >= 0 ==> s[setting_index(s, field)].field@ == field@,
        forall|j: int| 0 <= j < s.len() && (setting_index(s, field) < 0 || j < setting_index(s, field))
            ==> #[trigger] s[j].field@ != field@,
    decreases s.len(),
{
    if s.len() > 0 && s[0].field@ != field@ {
        lemma_setting_index(s.drop_first(), field);
        assert forall|j: int| 0 <= j < s.len() && (setting_index(s, field) < 0 || j < setting_index(s, field))
            implies #[trigger] s[j].field@ != field@ by {
            if j > 0 {
                let t = s.drop_first();
                assert(s[j] == t[j - 1]);
                assert(setting_index(t, field) < 0 || j - 1 < setting_index(t, field));
                assert(t[j - 1].field@ != field@);
            }
        }
    }
}

/// The value of setting `field` in `s`: that of its first entry.
pub open spec fn setting_value<F>(s: Seq<Setting<F>>, field: &'static str) -> Option<SettingValue<F>> {
    let i = setting_index(s, field);
    if 0 <= i < s.len() { Some(s[i].value) } else { None }
}

/// The settings with `field` set to `value`: the setting of that name
/// replaced, or a new one added at the end.
pub open spec fn set_in<F>(s: Seq<Setting<F>>, field: &'static str, value: SettingValue<F>) -> Seq<Setting<F>> {
    let i = setting_index(s, field);
    if i >= 0 {
        s.update(i, Setting { field, value })
    } else {
        s.push(Setting { field, value })
    }
}

/// The position of a setting lies within the settings, or is -1.
pub proof fn lemma_setting_index_bounds<F>(s: Seq<Setting<F>>, field: &'static str)
    ensures
        -1 <= setting_index(s, field) < s.len(),
{
    lemma_setting_index(s, field);
}

/// The position of a setting in the settings after a write.
pub proof fn lemma_setting_index_of_set<F>(s: Seq<Setting<F>>, field: &'static str, v: SettingValue<F>, other: &'static str)
    ensures
        ({
            let t = set_in(s, field, v);
            let i = setting_index(t, field);
            &&& 0 <= i < t.len()
            &&& t[i].value == v
            &&& other@ != field@ ==> setting_index(t, other) == setting_index(s, other)
            &&& other@ != field@ && 0 <= setting_index(s, other) ==> t[setting_index(s, other)] == s[setting_index(s, other)]
        }),
{
    lemma_setting_index(s, field);
    lemma_setting_index(s, other);
    let t = set_in(s, field, v);
    lemma_setting_index(t, field);
    lemma_setting_index(t, other);
    let i = setting_index(s, field);
    let pos = if i >= 0 { i } else { s.len() as int };
    assert(t[pos].field@ == field@);
    assert forall|j: int| 0 <= j < pos implies #[trigger] t[j].field@ != field@ by {
        assert(t[j] == s[j]);
    }
    assert(setting_index(t, field) == pos) by {
        if setting_index(t, field) < pos {
            let k = setting_index(t, field);
            if k >= 0 {
                assert(t[k].field@ == field@);
            }
        }
    }
    if other@ != field@ {
        let o = setting_index(s, other);
        assert forall|j: int| 0 <= j < t.len() implies (#[trigger] t[j].field@ == other@) == (j < s.len() && s[j].field@ == other@) by {
            if j < s.len() && j != pos {
                assert(t[j] == s[j]);
            }
        }
        if o >= 0 {
            assert(t[o] == s[o]);
            assert(t[o].field@ == other@);
        }
        let p2 = setting_index(t, other);
        if p2 >= 0 {
            assert(t[p2].field@ == other@);
        }
    }
}

pub(crate) fn set_setting<F>(settings: &mut Vec<Setting<F>>, field: &'static str, value: SettingValue<F>)
    ensures
        final(settings)@ == set_in(old(settings)@, field, value),
{
    proof {
        lemma_setting_index(settings@, field);
    }
    let f = crate::text::chars_of(field);
    let mut i: usize = 0;
    while i < settings.len()
        invariant
            i <= settings@.len(),
            settings@ == old(settings)@,
            f@ == field@,
            forall|j: int| 0 <= j < i ==> #[trigger] settings@[j].field@ != field@,
        decreases settings@.len() - i,
    {
        let g = crate::text::chars_of(settings[i].field);
        if crate::text::eq_lit(&g, field) {
            proof {
                lemma_setting_index(settings@, field);
            }
            settings.set(i, Setting { field, value });
            return;
        }
        i = i + 1;
    }
    settings.push(Setting { field, value });
}

/// Applying the change would panic: its setting reads a color text that the
/// reading cuts.
pub open spec fn scalar_change_panics<F>(path: Seq<char>, v: Json<F>) -> bool {
    match leaf_of(split_dots(path)) {
        Some((_, kind)) => setting_panics(kind, v),
        None => false,
    }
}

/// Whether applying the change of `path` to `v` would panic.
pub fn scalar_change_would_panic<F>(path: &str, v: &Json<F>) -> (r: bool)
    ensures
        r == scalar_change_panics(path@, *v),
{
    let parts = crate::settings::split_path(path);
    match crate::settings::leaf_of_parts(&parts) {
        Some((_, kind)) => crate::settings::setting_would_panic(kind, v),
        None => false,
    }
}

/// `new` is the settings `old` after the change of `path` to `v`, and
/// `applied` whether the change applied: the setting that the path names
/// takes the value read from `v`; nothing changes for a path that names no
/// setting or a value that does not fit it.
pub open spec fn scalar_step<F>(old: Seq<Setting<F>>, path: Seq<char>, v: Json<F>, new: Seq<Setting<F>>, applied: bool) -> bool {
    match leaf_of(split_dots(path)) {
        None => new == old && !applied,
        Some((field, kind)) => exists|r: Option<SettingValue<F>>| #[trigger] setting_read(kind, v, r) && match r {
            None => new == old && !applied,
            Some(x) => new == set_in(old, field, x) && applied,
        },
    }
}

/// Apply one scalar change to the settings; whether it applied.
pub fn apply_scalar_change<F: Copy>(settings: &mut Vec<Setting<F>>, path: &str, value: &Json<F>) -> (r: bool)
    requires
        !scalar_change_panics(path@, *value),
    ensures
        scalar_step(old(settings)@, path@, *value, final(settings)@, r),
{
    let parts = split_path(path);
    match leaf_of_parts(&parts) {
        None => false,
        Some((field, kind)) => {
            let read = read_setting(kind, value);
            assert(setting_read(kind, *value, read));
            match read {
                None => false,
                Some(x) => {
                    set_setting(settings, field, x);
                    true
                },
            }
        },
    }
}

/// The number of `true` flags.
pub open spec fn count_true(flags: Seq<bool>) -> nat
    decreases flags.len(),
{
    if flags.len() == 0 {
        0
    } else {
        count_true(flags.drop_last()) + if flags.last() { 1nat } else { 0nat }
    }
}

/// `states` and `applied` trace the changes `changes` applied in order from
/// `old`: `states[i + 1]` is `states[i]` after change `i`, and `applied[i]`
/// whether that change applied.
pub open spec fn scalars_trace<F>(old: Seq<Setting<F>>, changes: Seq<(String, Json<F>)>, states: Seq<Seq<Setting<F>>>, applied: Seq<bool>) -> bool {
    &&& states.len() == changes.len() + 1
    &&& applied.len() == changes.len()
    &&& states[0] == old
    &&& forall|i: int| 0 <= i < changes.len() ==> #[trigger] scalar_step(states[i], changes[i].0@, changes[i].1, states[i + 1], applied[i])
}

/// `new` and `n` are the settings and the count of applied changes after
/// the changes `changes`, in order, starting from `old`.
pub open spec fn scalars_applied<F>(old: Seq<Setting<F>>, changes: Seq<(String, Json<F>)>, new: Seq<Setting<F>>, n: nat) -> bool {
    exists|states: Seq<Seq<Setting<F>>>, applied: Seq<bool>|
        #[trigger] scalars_trace(old, changes, states, applied) && states.last() == new && n == count_true(applied)
}

fn apply_scalar_changes<F: Copy>(settings: &mut Vec<Setting<F>>, changes: &Vec<(String, Json<F>)>) -> (n: usize)
    requires
        forall|i: int| 0 <= i < changes@.len() ==> !scalar_change_panics(#[trigger] changes@[i].0@, changes@[i].1),
    ensures
        scalars_applied(old(settings)@, changes@, final(settings)@, n as nat),
        n <= changes@.len(),
{
    let mut n: usize = 0;
    let ghost mut states: Seq<Seq<Setting<F>>> = seq![settings@];
    let ghost mut flags: Seq<bool> = Seq::empty();
    for i in 0..changes.len()
        invariant
            forall|k: int| 0 <= k < changes@.len() ==> !scalar_change_panics(#[trigger] changes@[k].0@, changes@[k].1),
            scalars_trace(old(settings)@, changes@.take(i as int), states, flags),
            states.last() == settings@,
            n as nat == count_true(flags),
            n <= i,
    {
        let applied = apply_scalar_change(settings, changes[i].0.as_str(), &changes[i].1);
        if applied {
            n = n + 1;
        }
        proof {
            let old_flags = flags;
            states = states.push(settings@);
            flags = flags.push(applied);
            assert(flags.drop_last() =~= old_flags);
            assert forall|k: int| 0 <= k < i + 1 implies #[trigger] scalar_step(states[k], changes@.take(i + 1)[k].0@, changes@.take(i + 1)[k].1, states[k + 1], flags[k]) by {
                if k < i {
                    assert(changes@.take(i + 1)[k] == changes@.take(i as int)[k]);
                }
            }
        }
    }
    assert(changes@.take(changes@.len() as int) =~= changes@);
    n
}


/// `b` is `a` after the item `v` of collection `name` was added, and
/// `added` whether it was: a bind, window rule, output, startup command,
/// environment variable or workspace that the item makes, at the end of its
/// collection; nothing for an item that makes none or an unknown collection.
pub open spec fn item_added<F: std::fmt::Display>(a: ConfigView<F>, name: Seq<char>, v: Json<F>, b: ConfigView<F>, added: bool) -> bool {
    if name == "binds"@ {
        exists|r: Option<Bind<F>>| #[trigger] bind_result(v, r) && match r {
            Some(x) => b == ConfigView { binds: a.binds.push(x), ..a } && added,
            None => b == a && !added,
        }
    } else if name == "window_rules"@ {
        exists|r: Option<WindowRule<F>>| #[trigger] window_rule_result(v, r) && match r {
            Some(x) => b == ConfigView { window_rules: a.window_rules.push(x), ..a } && added,
            None => b == a && !added,
        }
    } else if name == "outputs"@ {
        exists|r: Option<Output<F>>| #[trigger] output_result(v, r) && match r {
            Some(x) => b == ConfigView { outputs: a.outputs.push(x), ..a } && added,
            None => b == a && !added,
        }
    } else if name == "spawn_at_startup"@ {
        match spawn_command_of(v) {
            Some(c) => added && b.spawn_at_startup.len() == a.spawn_at_startup.len() + 1
                && b.spawn_at_startup.last()@ == c && b == ConfigView { spawn_at_startup: a.spawn_at_startup.push(b.spawn_at_startup.last()), ..a },
            None => b == a && !added,
        }
    } else if name == "environment"@ {
        match environment_of(v) {
            Some(e) => b == ConfigView { environment: a.environment.push(e), ..a } && added,
            None => b == a && !added,
        }
    } else if name == "workspaces"@ {
        match workspace_of(v) {
            Some(w) => b == ConfigView { workspaces: a.workspaces.push(w), ..a } && added,
            None => b == a && !added,
        }
    } else {
        b == a && !added
    }
}

fn add_item<F: Copy + std::fmt::Display>(config: &mut ConfigModel<F>, name: &str, v: &Json<F>) -> (added: bool)
    ensures
        item_added(old(config)@, name@, *v, final(config)@, added),
        final(config)@.binds.len() + final(config)@.window_rules.len() <= old(config)@.binds.len()
            + old(config)@.window_rules.len() + if added { 1int } else { 0int },
{
    let n = crate::text::chars_of(name);
    if crate::text::eq_lit(&n, "binds") {
        let r = json_to_bind(v);
        assert(bind_result(*v, r));
        match r {
            Some(x) => {
                config.binds.push(x);
                assert(config@ == ConfigView { binds: old(config)@.binds.push(x), ..old(config)@ });
                true
            },
            None => false,
        }
    } else if crate::text::eq_lit(&n, "window_rules") {
        let r = json_to_window_rule(v);
        assert(window_rule_result(*v, r));
        match r {
            Some(x) => {
                config.window_rules.push(x);
                assert(config@ == ConfigView { window_rules: old(config)@.window_rules.push(x), ..old(config)@ });
                true
            },
            None => false,
        }
    } else if crate::text::eq_lit(&n, "outputs") {
        let r = json_to_output(v);
        assert(output_result(*v, r));
        match r {
            Some(x) => {
                config.outputs.push(x);
                assert(config@ == ConfigView { outputs: old(config)@.outputs.push(x), ..old(config)@ });
                true
            },
            None => false,
        }
    } else if crate::text::eq_lit(&n, "spawn_at_startup") {
        match json_to_spawn(v) {
            Some(x) => {
                config.spawn_at_startup.push(x);
                assert(config@ == ConfigView { spawn_at_startup: old(config)@.spawn_at_startup.push(config@.spawn_at_startup.last()), ..old(config)@ });
                true
            },
            None => false,
        }
    } else if crate::text::eq_lit(&n, "environment") {
        match json_to_environment(v) {
            Some(x) => {
                config.environment.push(x);
                assert(config@ == ConfigView { environment: old(config)@.environment.push(x), ..old(config)@ });
                true
            },
            None => false,
        }
    } else if crate::text::eq_lit(&n, "workspaces") {
        match json_to_workspace(v) {
            Some(x) => {
                config.workspaces.push(x);
                assert(config@ == ConfigView { workspaces: old(config)@.workspaces.push(x), ..old(config)@ });
                true
            },
            None => false,
        }
    } else {
        false
    }
}

/// The items of the collection entries, each with the name of its
/// collection, in order.
pub open spec fn entry_items<F>(entries: Seq<(String, Vec<Json<F>>)>) -> Seq<(String, Json<F>)>
    decreases entries.len(),
{
    if entries.len() == 0 {
        Seq::empty()
    } else {
        let e = entries.last();
        entry_items(entries.drop_last()) + e.1@.map_values(|v: Json<F>| (e.0, v))
    }
}

proof fn lemma_entry_items_prefix<F>(entries: Seq<(String, Vec<Json<F>>)>, k: int)
    requires
        0 <= k <= entries.len(),
    ensures
        entry_items(entries.take(k)).len() <= entry_items(entries).len(),
    decreases entries.len() - k,
{
    if k < entries.len() {
        lemma_entry_items_prefix(entries, k + 1);
        assert(entries.take(k + 1).drop_last() =~= entries.take(k));
    } else {
        assert(entries.take(k) =~= entries);
    }
}

/// `states` and `added` trace the items `items` added in order from `old`.
pub open spec fn additions_trace<F: std::fmt::Display>(old: ConfigView<F>, items: Seq<(String, Json<F>)>, states: Seq<ConfigView<F>>, added: Seq<bool>) -> bool {
    &&& states.len() == items.len() + 1
    &&& added.len() == items.len()
    &&& states[0] == old
    &&& forall|i: int| 0 <= i < items.len() ==> #[trigger] item_added(states[i], items[i].0@, items[i].1, states[i + 1], added[i])
}

/// `new` and `n` are the configuration and the count of added items after
/// the items of the collection entries `entries` were added, in order, to
/// `old`.
pub open spec fn additions_applied<F: std::fmt::Display>(old: ConfigView<F>, entries: Seq<(String, Vec<Json<F>>)>, new: ConfigView<F>, n: nat) -> bool {
    exists|states: Seq<ConfigView<F>>, added: Seq<bool>|
        #[trigger] additions_trace(old, entry_items(entries), states, added) && states.last() == new && n == count_true(added)
}

fn apply_additions<F: Copy + std::fmt::Display>(config: &mut ConfigModel<F>, entries: &Vec<(String, Vec<Json<F>>)>) -> (n: usize)
    requires
        entry_items(entries@).len() <= usize::MAX,
    ensures
        additions_applied(old(config)@, entries@, final(config)@, n as nat),
        n <= entry_items(entries@).len(),
        final(config)@.binds.len() + final(config)@.window_rules.len() <= old(config)@.binds.len()
            + old(config)@.window_rules.len() + n,
{
    let mut n: usize = 0;
    let ghost mut states: Seq<ConfigView<F>> = seq![config@];
    let ghost mut flags: Seq<bool> = Seq::empty();
    for i in 0..entries.len()
        invariant
            entry_items(entries@).len() <= usize::MAX,
            additions_trace(old(config)@, entry_items(entries@.take(i as int)), states, flags),
            states.last() == config@,
            n as nat == count_true(flags),
            n <= entry_items(entries@.take(i as int)).len(),
            config@.binds.len() + config@.window_rules.len() <= old(config)@.binds.len()
                + old(config)@.window_rules.len() + n,
    {
        let name = entries[i].0.as_str();
        let items = &entries[i].1;
        let ghost done = entry_items(entries@.take(i as int));
        let ghost tail = items@.map_values(|v: Json<F>| (entries@[i as int].0, v));
        assert(entries@.take(i + 1).drop_last() =~= entries@.take(i as int));
        assert(entry_items(entries@.take(i + 1)) == done + tail);
        proof {
            lemma_entry_items_prefix(entries@, i + 1);
        }
        for j in 0..items.len()
            invariant
                done.len() + tail.len() <= usize::MAX,
                additions_trace(old(config)@, done + tail.take(j as int), states, flags),
                states.last() == config@,
                n as nat == count_true(flags),
                n <= done.len() + j,
                config@.binds.len() + config@.window_rules.len() <= old(config)@.binds.len()
                    + old(config)@.window_rules.len() + n,
                tail == items@.map_values(|v: Json<F>| (entries@[i as int].0, v)),
                name@ == entries@[i as int].0@,
                items@ == entries@[i as int].1@,
        {
            let added = add_item(config, name, &items[j]);
            if added {
                n = n + 1;
            }
            proof {
                let old_flags = flags;
                let old_states = states;
                states = states.push(config@);
                flags = flags.push(added);
                assert(flags.drop_last() =~= old_flags);
                let seen = done + tail.take(j + 1);
                assert(seen.drop_last() =~= done + tail.take(j as int));
                assert(seen[seen.len() - 1] == (entries@[i as int].0, items@[j as int]));
                assert forall|k: int| 0 <= k < seen.len() implies #[trigger] item_added(states[k], seen[k].0@, seen[k].1, states[k + 1], flags[k]) by {
                    if k < seen.len() - 1 {
                        assert(seen[k] == (done + tail.take(j as int))[k]);
                        assert(states[k] == old_states[k]);
                        assert(states[k + 1] == old_states[k + 1]);
                    }
                }
            }
        }
        assert(tail.take(items@.len() as int) =~= tail);
    }
    assert(entries@.take(entries@.len() as int) =~= entries@);
    n
}


/// The items of `s` whose flag is `false`, in order.
pub open spec fn kept<T>(s: Seq<T>, flags: Seq<bool>) -> Seq<T>
    decreases s.len(),
{
    if s.len() == 0 || flags.len() == 0 {
        Seq::empty()
    } else {
        let rest = kept(s.drop_last(), flags.drop_last());
        if flags.last() { rest } else { rest.push(s.last()) }
    }
}

proof fn lemma_kept_len<T>(s: Seq<T>, flags: Seq<bool>)
    ensures
        kept(s, flags).len() <= s.len(),
    decreases s.len(),
{
    if s.len() > 0 && flags.len() > 0 {
        lemma_kept_len(s.drop_last(), flags.drop_last());
    }
}

/// A window rule meets removal criteria: they are an object, and one of the
/// rule's matches has the `app_id` pattern given, and one the `title`
/// pattern given (each when given).
pub open spec fn rule_criteria_match<F>(rule: WindowRule<F>, c: Json<F>) -> bool {
    &&& c is Object
    &&& match text_field(c, "app_id"@) {
        Some(a) => has_pattern_in(rule.matches@, a@, false),
        None => true,
    }
    &&& match text_field(c, "title"@) {
        Some(t) => has_pattern_in(rule.matches@, t@, true),
        None => true,
    }
}

/// The match's `title` (or `app_id`) pattern is `text`.
pub open spec fn pattern_is(m: RuleMatch, text: Seq<char>, title: bool) -> bool {
    match (if title { m.title } else { m.app_id }) {
        Some(p) => p@ == text,
        None => false,
    }
}

/// One of the matches has the `title` (or `app_id`) pattern `text`.
pub open spec fn has_pattern_in(ms: Seq<RuleMatch>, text: Seq<char>, title: bool) -> bool {
    exists|i: int| 0 <= i < ms.len() && #[trigger] pattern_is(ms[i], text, title)
}

fn has_pattern(matches: &Vec<RuleMatch>, text: &str, title: bool) -> (r: bool)
    ensures
        r == has_pattern_in(matches@, text@, title),
{
    let mut i: usize = 0;
    while i < matches.len()
        invariant
            i <= matches@.len(),
            forall|k: int| 0 <= k < i ==> !#[trigger] pattern_is(matches@[k], text@, title),
        decreases matches@.len() - i,
    {
        let pattern = if title { &matches[i].title } else { &matches[i].app_id };
        match pattern {
            Some(p) => {
                if crate::text::str_eq(p.as_str(), text) {
                    assert(pattern_is(matches@[i as int], text@, title));
                    return true;
                }
            },
            None => {},
        }
        i = i + 1;
    }
    false
}

/// Whether a window rule meets removal criteria.
pub fn window_rule_matches_criteria<F: Copy>(rule: &WindowRule<F>, criteria: &Json<F>) -> (r: bool)
    ensures
        r == rule_criteria_match(*rule, *criteria),
{
    if let Json::Object(_) = criteria {
    } else {
        return false;
    }
    match criteria.get("app_id") {
        Some(x) => match x.as_str() {
            Some(a) => {
                if !has_pattern(&rule.matches, a, false) {
                    return false;
                }
            },
            None => {},
        },
        None => {},
    }
    match criteria.get("title") {
        Some(x) => match x.as_str() {
            Some(t) => {
                if !has_pattern(&rule.matches, t, true) {
                    return false;
                }
            },
            None => {},
        },
        None => {},
    }
    true
}

/// The matching flags of window rules for criteria `c`.
pub open spec fn rule_flags<F>(rules: Seq<WindowRule<F>>, c: Json<F>) -> Seq<bool> {
    rules.map_values(|r: WindowRule<F>| rule_criteria_match(r, c))
}

/// What `str::to_lowercase` makes of a text.
pub uninterp spec fn lowercase_text(s: Seq<char>) -> Seq<char>;

/// Calls `str::to_lowercase`. The contract claims that the result is a
/// function of the text (`lowercase_text`), and what the std documentation
/// gives for ASCII text: capitals become small letters, every other
/// character stays.
#[verifier::external_body]
pub(crate) fn lowercase_of(s: &str) -> (r: String)
    ensures
        r@ == lowercase_text(s@),
        is_ascii_chars(s@) ==> r@ == folded(s@),
{
    s.to_lowercase()
}

/// Whether a bind meets removal criteria, given the debug texts of its key
/// and of its action: the criteria are an object; a `key` text occurs in the
/// key's text (or equals it); an `action` text, lower-cased, occurs in the
/// lower-cased action text. Criteria fields that are not texts are ignored.
pub open spec fn bind_criteria_met<F>(key_text: Seq<char>, action_text: Seq<char>, criteria: Json<F>) -> bool {
    &&& criteria is Object
    &&& match field_of(criteria, "key"@) {
        Some(k) => match as_text(k) {
            Some(t) => contains_text(key_text, t@) || t@ == key_text,
            None => true,
        },
        None => true,
    }
    &&& match field_of(criteria, "action"@) {
        Some(a) => match as_text(a) {
            Some(t) => contains_text(lowercase_text(action_text), lowercase_text(t@)),
            None => true,
        },
        None => true,
    }
}

/// Whether a bind meets removal criteria, given the debug texts of its key
/// and of its action.
pub fn bind_matches_criteria<F: Copy>(key_text: &str, action_text: &str, criteria: &Json<F>) -> (r: bool)
    ensures
        r == bind_criteria_met(key_text@, action_text@, *criteria),
{
    match criteria {
        Json::Object(_) => {},
        _ => return false,
    }
    if let Some(k) = criteria.get("key") {
        if let Some(t) = k.as_str() {
            let kc = chars_of(key_text);
            if !contains_chars(&kc, t) && !str_eq(t, key_text) {
                return false;
            }
        }
    }
    if let Some(a) = criteria.get("action") {
        if let Some(t) = a.as_str() {
            let hay = chars_of(lowercase_of(action_text).as_str());
            let pat = lowercase_of(t);
            if !contains_chars(&hay, pat.as_str()) {
                return false;
            }
        }
    }
    true
}

/// `b` is `a` after the items of collection `name` that meet the criteria
/// `c` were removed, and `removed` how many were: binds for which
/// `matches` answers true, window rules that `rule_criteria_match`; nothing
/// for another collection.
pub open spec fn item_removed<F, P: Fn(&Bind<F>, &Json<F>) -> bool>(a: ConfigView<F>, name: Seq<char>, c: Json<F>, b: ConfigView<F>, removed: nat, matches: P) -> bool {
    if name == "binds"@ {
        exists|flags: Seq<bool>|
            flags.len() == a.binds.len()
            && (forall|i: int| 0 <= i < flags.len() ==> matches.ensures((&a.binds[i], &c), #[trigger] flags[i]))
            && b == ConfigView { binds: kept(a.binds, flags), ..a }
            && removed == a.binds.len() - b.binds.len()
    } else if name == "window_rules"@ {
        &&& b == ConfigView { window_rules: kept(a.window_rules, rule_flags(a.window_rules, c)), ..a }
        &&& removed == a.window_rules.len() - b.window_rules.len()
    } else {
        b == a && removed == 0
    }
}

fn remove_binds<F: Copy, P: Fn(&Bind<F>, &Json<F>) -> bool>(binds: &mut Vec<Bind<F>>, c: &Json<F>, matches: &P) -> (flags: Ghost<Seq<bool>>)
    requires
        forall|b: &Bind<F>, x: &Json<F>| matches.requires((b, x)),
    ensures
        flags@.len() == old(binds)@.len(),
        forall|i: int| 0 <= i < flags@.len() ==> matches.ensures((&old(binds)@[i], c), #[trigger] flags@[i]),
        final(binds)@ == kept(old(binds)@, flags@),
{
    let ghost orig = binds@;
    let mut rest: Vec<Bind<F>> = Vec::new();
    std::mem::swap(&mut rest, binds);
    let ghost mut flags: Seq<bool> = Seq::empty();
    let mut i: usize = 0;
    let n = rest.len();
    while i < n
        invariant
            forall|b: &Bind<F>, x: &Json<F>| matches.requires((b, x)),
            i <= n,
            n == orig.len(),
            rest@ == orig.skip(i as int),
            flags.len() == i,
            forall|k: int| 0 <= k < i ==> matches.ensures((&orig[k], c), #[trigger] flags[k]),
            binds@ == kept(orig.take(i as int), flags),
        decreases n - i,
    {
        let b = rest.remove(0);
        assert(b == orig[i as int]);
        let hit = matches(&b, c);
        let ghost old_flags = flags;
        let ghost old_kept = binds@;
        proof {
            flags = flags.push(hit);
        }
        if !hit {
            binds.push(b);
        }
        assert(orig.skip(i as int).drop_first() =~= orig.skip(i + 1));
        assert(orig.take(i + 1).drop_last() =~= orig.take(i as int));
        assert(flags.drop_last() =~= old_flags);
        i = i + 1;
    }
    assert(orig.take(n as int) =~= orig);
    Ghost(flags)
}

fn remove_rules<F: Copy>(rules: &mut Vec<WindowRule<F>>, c: &Json<F>)
    ensures
        final(rules)@ == kept(old(rules)@, rule_flags(old(rules)@, *c)),
{
    let ghost orig = rules@;
    let mut rest: Vec<WindowRule<F>> = Vec::new();
    std::mem::swap(&mut rest, rules);
    let mut i: usize = 0;
    let n = rest.len();
    while i < n
        invariant
            i <= n,
            n == orig.len(),
            rest@ == orig.skip(i as int),
            rules@ == kept(orig.take(i as int), rule_flags(orig.take(i as int), *c)),
        decreases n - i,
    {
        let r = rest.remove(0);
        assert(r == orig[i as int]);
        let hit = window_rule_matches_criteria(&r, c);
        if !hit {
            rules.push(r);
        }
        assert(orig.skip(i as int).drop_first() =~= orig.skip(i + 1));
        assert(orig.take(i + 1).drop_last() =~= orig.take(i as int));
        assert(rule_flags(orig.take(i + 1), *c).drop_last() =~= rule_flags(orig.take(i as int), *c));
        i = i + 1;
    }
    assert(orig.take(n as int) =~= orig);
}

fn remove_items<F: Copy, P: Fn(&Bind<F>, &Json<F>) -> bool>(config: &mut ConfigModel<F>, name: &str, c: &Json<F>, matches: &P) -> (removed: usize)
    requires
        forall|b: &Bind<F>, x: &Json<F>| matches.requires((b, x)),
    ensures
        item_removed(old(config)@, name@, *c, final(config)@, removed as nat, *matches),
        removed + final(config)@.binds.len() + final(config)@.window_rules.len() == old(config)@.binds.len()
            + old(config)@.window_rules.len(),
{
    let n = crate::text::chars_of(name);
    if crate::text::eq_lit(&n, "binds") {
        let before = config.binds.len();
        let flags = remove_binds(&mut config.binds, c, matches);
        proof {
            lemma_kept_len(old(config)@.binds, flags@);
        }
        assert(config@ == ConfigView { binds: kept(old(config)@.binds, flags@), ..old(config)@ });
        before - config.binds.len()
    } else if crate::text::eq_lit(&n, "window_rules") {
        let before = config.window_rules.len();
        remove_rules(&mut config.window_rules, c);
        proof {
            lemma_kept_len(old(config)@.window_rules, rule_flags(old(config)@.window_rules, *c));
        }
        assert(config@ == ConfigView { window_rules: kept(old(config)@.window_rules, rule_flags(old(config)@.window_rules, *c)), ..old(config)@ });
        before - config.window_rules.len()
    } else {
        0
    }
}

/// `states` and `removed` trace the removal criteria `items` applied in
/// order from `old`.
pub open spec fn removals_trace<F, P: Fn(&Bind<F>, &Json<F>) -> bool>(old: ConfigView<F>, items: Seq<(String, Json<F>)>, states: Seq<ConfigView<F>>, removed: Seq<nat>, matches: P) -> bool {
    &&& states.len() == items.len() + 1
    &&& removed.len() == items.len()
    &&& states[0] == old
    &&& forall|i: int| 0 <= i < items.len() ==> #[trigger] item_removed(states[i], items[i].0@, items[i].1, states[i + 1], removed[i], matches)
}

/// The sum of the counts.
pub open spec fn total(counts: Seq<nat>) -> nat
    decreases counts.len(),
{
    if counts.len() == 0 {
        0
    } else {
        total(counts.drop_last()) + counts.last()
    }
}

/// `new` and `n` are the configuration and the count of removed items after
/// the criteria of the collection entries `entries` were applied, in order,
/// to `old`.
pub open spec fn removals_applied<F, P: Fn(&Bind<F>, &Json<F>) -> bool>(old: ConfigView<F>, entries: Seq<(String, Vec<Json<F>>)>, new: ConfigView<F>, n: nat, matches: P) -> bool {
    exists|states: Seq<ConfigView<F>>, removed: Seq<nat>|
        #[trigger] removals_trace(old, entry_items(entries), states, removed, matches) && states.last() == new && n == total(removed)
}

fn apply_removals<F: Copy, P: Fn(&Bind<F>, &Json<F>) -> bool>(config: &mut ConfigModel<F>, entries: &Vec<(String, Vec<Json<F>>)>, matches: &P) -> (n: usize)
    requires
        forall|b: &Bind<F>, x: &Json<F>| matches.requires((b, x)),
        old(config)@.binds.len() + old(config)@.window_rules.len() <= usize::MAX,
    ensures
        removals_applied(old(config)@, entries@, final(config)@, n as nat, *matches),
        n + final(config)@.binds.len() + final(config)@.window_rules.len() == old(config)@.binds.len()
            + old(config)@.window_rules.len(),
{
    let mut n: usize = 0;
    let ghost mut states: Seq<ConfigView<F>> = seq![config@];
    let ghost mut counts: Seq<nat> = Seq::empty();
    for i in 0..entries.len()
        invariant
            forall|b: &Bind<F>, x: &Json<F>| matches.requires((b, x)),
            old(config)@.binds.len() + old(config)@.window_rules.len() <= usize::MAX,
            removals_trace(old(config)@, entry_items(entries@.take(i as int)), states, counts, *matches),
            states.last() == config@,
            n as nat == total(counts),
            n + config@.binds.len() + config@.window_rules.len() == old(config)@.binds.len()
                + old(config)@.window_rules.len(),
    {
        let name = entries[i].0.as_str();
        let items = &entries[i].1;
        let ghost done = entry_items(entries@.take(i as int));
        let ghost tail = items@.map_values(|v: Json<F>| (entries@[i as int].0, v));
        assert(entries@.take(i + 1).drop_last() =~= entries@.take(i as int));
        assert(entry_items(entries@.take(i + 1)) == done + tail);
        for j in 0..items.len()
            invariant
                forall|b: &Bind<F>, x: &Json<F>| matches.requires((b, x)),
                old(config)@.binds.len() + old(config)@.window_rules.len() <= usize::MAX,
                removals_trace(old(config)@, done + tail.take(j as int), states, counts, *matches),
                states.last() == config@,
                n as nat == total(counts),
                n + config@.binds.len() + config@.window_rules.len() == old(config)@.binds.len()
                    + old(config)@.window_rules.len(),
                tail == items@.map_values(|v: Json<F>| (entries@[i as int].0, v)),
                name@ == entries@[i as int].0@,
                items@ == entries@[i as int].1@,
        {
            let removed = remove_items(config, name, &items[j], matches);
            n = n + removed;
            proof {
                let old_counts = counts;
                let old_states = states;
                states = states.push(config@);
                counts = counts.push(removed as nat);
                assert(counts.drop_last() =~= old_counts);
                let seen = done + tail.take(j + 1);
                assert(seen.drop_last() =~= done + tail.take(j as int));
                assert(seen[seen.len() - 1] == (entries@[i as int].0, items@[j as int]));
                assert forall|k: int| 0 <= k < seen.len() implies #[trigger] item_removed(states[k], seen[k].0@, seen[k].1, states[k + 1], counts[k], *matches) by {
                    if k < seen.len() - 1 {
                        assert(seen[k] == (done + tail.take(j as int))[k]);
                        assert(states[k] == old_states[k]);
                        assert(states[k + 1] == old_states[k + 1]);
                    }
                }
            }
        }
        assert(tail.take(items@.len() as int) =~= tail);
    }
    assert(entries@.take(entries@.len() as int) =~= entries@);
    n
}


/// The steps of the replacements, in order: for each entry of the binds or
/// the window rules, the collection cleared (no item), then each of its
/// items added; entries of other collections are ignored.
pub open spec fn replacement_steps<F>(entries: Seq<(String, Vec<Json<F>>)>) -> Seq<(String, Option<Json<F>>)>
    decreases entries.len(),
{
    if entries.len() == 0 {
        Seq::empty()
    } else {
        let e = entries.last();
        let rest = replacement_steps(entries.drop_last());
        if e.0@ == "binds"@ || e.0@ == "window_rules"@ {
            rest + seq![(e.0, None::<Json<F>>)] + e.1@.map_values(|v: Json<F>| (e.0, Some(v)))
        } else {
            rest
        }
    }
}

proof fn lemma_replacement_steps_prefix<F>(entries: Seq<(String, Vec<Json<F>>)>, k: int)
    requires
        0 <= k <= entries.len(),
    ensures
        replacement_steps(entries.take(k)).len() <= replacement_steps(entries).len(),
    decreases entries.len() - k,
{
    if k < entries.len() {
        lemma_replacement_steps_prefix(entries, k + 1);
        assert(entries.take(k + 1).drop_last() =~= entries.take(k));
    } else {
        assert(entries.take(k) =~= entries);
    }
}

/// `b` is `a` after a replacement step of collection `name`, and `added`
/// whether an item was added: no item clears the binds (or the window
/// rules); an item is added as `item_added` says.
pub open spec fn item_replaced<F: std::fmt::Display>(a: ConfigView<F>, name: Seq<char>, step: Option<Json<F>>, b: ConfigView<F>, added: bool) -> bool {
    match step {
        None => !added && if name == "binds"@ {
            b == ConfigView { binds: Seq::empty(), ..a }
        } else {
            b == ConfigView { window_rules: Seq::empty(), ..a }
        },
        Some(v) => item_added(a, name, v, b, added),
    }
}

/// `states` and `added` trace the replacement steps `steps` from `old`.
pub open spec fn replacements_trace<F: std::fmt::Display>(old: ConfigView<F>, steps: Seq<(String, Option<Json<F>>)>, states: Seq<ConfigView<F>>, added: Seq<bool>) -> bool {
    &&& states.len() == steps.len() + 1
    &&& added.len() == steps.len()
    &&& states[0] == old
    &&& forall|i: int| 0 <= i < steps.len() ==> #[trigger] item_replaced(states[i], steps[i].0@, steps[i].1, states[i + 1], added[i])
}

/// `new` and `n` are the configuration and the count of added items after
/// the replacements `entries` were applied, in order, to `old`.
pub open spec fn replacements_applied<F: std::fmt::Display>(old: ConfigView<F>, entries: Seq<(String, Vec<Json<F>>)>, new: ConfigView<F>, n: nat) -> bool {
    exists|states: Seq<ConfigView<F>>, added: Seq<bool>|
        #[trigger] replacements_trace(old, replacement_steps(entries), states, added) && states.last() == new && n == count_true(added)
}

fn apply_replacements<F: Copy + std::fmt::Display>(config: &mut ConfigModel<F>, entries: &Vec<(String, Vec<Json<F>>)>) -> (n: usize)
    requires
        replacement_steps(entries@).len() <= usize::MAX,
    ensures
        replacements_applied(old(config)@, entries@, final(config)@, n as nat),
        n <= replacement_steps(entries@).len(),
{
    let mut n: usize = 0;
    let ghost mut states: Seq<ConfigView<F>> = seq![config@];
    let ghost mut flags: Seq<bool> = Seq::empty();
    for i in 0..entries.len()
        invariant
            replacement_steps(entries@).len() <= usize::MAX,
            replacements_trace(old(config)@, replacement_steps(entries@.take(i as int)), states, flags),
            states.last() == config@,
            n as nat == count_true(flags),
            n <= replacement_steps(entries@.take(i as int)).len(),
    {
        let name = entries[i].0.as_str();
        let items = &entries[i].1;
        let ghost done = replacement_steps(entries@.take(i as int));
        assert(entries@.take(i + 1).drop_last() =~= entries@.take(i as int));
        proof {
            lemma_replacement_steps_prefix(entries@, i + 1);
        }
        let cs = crate::text::chars_of(name);
        let binds = crate::text::eq_lit(&cs, "binds");
        let rules = !binds && crate::text::eq_lit(&cs, "window_rules");
        if binds || rules {
            let ghost tail = items@.map_values(|v: Json<F>| (entries@[i as int].0, Some(v)));
            let ghost head = done + seq![(entries@[i as int].0, None::<Json<F>>)];
            assert(replacement_steps(entries@.take(i + 1)) == head + tail);
            if binds {
                config.binds.clear();
            } else {
                config.window_rules.clear();
            }
            proof {
                let old_flags = flags;
                let old_states = states;
                states = states.push(config@);
                flags = flags.push(false);
                assert(flags.drop_last() =~= old_flags);
                assert(head.drop_last() =~= done);
                assert(config@ == if binds {
                    ConfigView { binds: Seq::empty(), ..old_states.last() }
                } else {
                    ConfigView { window_rules: Seq::empty(), ..old_states.last() }
                });
                assert forall|k: int| 0 <= k < head.len() implies #[trigger] item_replaced(states[k], head[k].0@, head[k].1, states[k + 1], flags[k]) by {
                    if k < head.len() - 1 {
                        assert(head[k] == done[k]);
                        assert(states[k] == old_states[k]);
                        assert(states[k + 1] == old_states[k + 1]);
                    }
                }
                assert(head + tail.take(0) =~= head);
            }
            for j in 0..items.len()
                invariant
                    head.len() + tail.len() <= usize::MAX,
                    replacements_trace(old(config)@, head + tail.take(j as int), states, flags),
                    states.last() == config@,
                    n as nat == count_true(flags),
                    n <= head.len() + j,
                    tail == items@.map_values(|v: Json<F>| (entries@[i as int].0, Some(v))),
                    name@ == entries@[i as int].0@,
                    items@ == entries@[i as int].1@,
            {
                let added = add_item(config, name, &items[j]);
                if added {
                    n = n + 1;
                }
                proof {
                    let old_flags = flags;
                    let old_states = states;
                    states = states.push(config@);
                    flags = flags.push(added);
                    assert(flags.drop_last() =~= old_flags);
                    let seen = head + tail.take(j + 1);
                    assert(seen.drop_last() =~= head + tail.take(j as int));
                    assert(seen[seen.len() - 1] == (entries@[i as int].0, Some(items@[j as int])));
                    assert forall|k: int| 0 <= k < seen.len() implies #[trigger] item_replaced(states[k], seen[k].0@, seen[k].1, states[k + 1], flags[k]) by {
                        if k < seen.len() - 1 {
                            assert(seen[k] == (head + tail.take(j as int))[k]);
                            assert(states[k] == old_states[k]);
                            assert(states[k + 1] == old_states[k + 1]);
                        }
                    }
                }
            }
            assert(tail.take(items@.len() as int) =~= tail);
        } else {
            assert(replacement_steps(entries@.take(i + 1)) == done);
        }
    }
    assert(entries@.take(entries@.len() as int) =~= entries@);
    n
}

/// The number of items of the collection entries.
pub open spec fn item_count<F>(entries: Seq<(String, Vec<Json<F>>)>) -> nat {
    entry_items(entries).len()
}

/// Applying the pending changes `ch` to the configuration `old` gives `new`
/// and applies `n` changes: the scalar changes in order, then the
/// additions, the removals and the replacements, each in order; `n` counts
/// the scalar changes that applied and the items added (removals and
/// replacements are carried out but not counted).
pub open spec fn pending_applied<F: std::fmt::Display, P: Fn(&Bind<F>, &Json<F>) -> bool>(old: ConfigView<F>, ch: PendingConfigChanges<F>, new: ConfigView<F>, n: nat, matches: P) -> bool {
    exists|s1: ConfigView<F>, s2: ConfigView<F>, s3: ConfigView<F>, n1: nat, n2: nat, n3: nat, n4: nat|
        #![trigger scalars_applied(old.settings, ch.scalar_changes@, s1.settings, n1), additions_applied(s1, ch.collection_additions@, s2, n2), removals_applied(s2, ch.collection_removals@, s3, n3, matches), replacements_applied(s3, ch.collection_replacements@, new, n4)]
        scalars_applied(old.settings, ch.scalar_changes@, s1.settings, n1)
        && s1 == ConfigView { settings: s1.settings, ..old }
        && additions_applied(s1, ch.collection_additions@, s2, n2)
        && removals_applied(s2, ch.collection_removals@, s3, n3, matches)
        && replacements_applied(s3, ch.collection_replacements@, new, n4)
        && n == n1 + n2
}

/// What applying pending changes does: with nothing pending, nothing
/// changes and the count is 0; otherwise the changes are taken (nothing is
/// pending afterwards) and applied as `pending_applied` says.
pub open spec fn apply_outcome<F: std::fmt::Display, P: Fn(&Bind<F>, &Json<F>) -> bool>(
    old_pending: PendingConfigChanges<F>,
    old_config: ConfigView<F>,
    new_pending: PendingConfigChanges<F>,
    new_config: ConfigView<F>,
    n: nat,
    matches: P,
) -> bool {
    &&& !old_pending.has_changes_spec() ==> n == 0 && new_config == old_config && new_pending == old_pending
    &&& old_pending.has_changes_spec() ==> !new_pending.has_changes_spec()
        && pending_applied(old_config, old_pending, new_config, n, matches)
}

/// Apply the pending configuration changes to `config`, and return the
/// number of changes applied: scalar changes and collection additions. When changes are pending, they are taken: `pending` is
/// left empty. `bind_matches` says whether a bind meets removal criteria.
pub fn apply_pending_lua_config<F: Copy + std::fmt::Display, P: Fn(&Bind<F>, &Json<F>) -> bool>(
    pending: &mut PendingConfigChanges<F>,
    config: &mut ConfigModel<F>,
    bind_matches: &P,
) -> (r: usize)
    requires
        forall|b: &Bind<F>, c: &Json<F>| bind_matches.requires((b, c)),
        forall|i: int| 0 <= i < old(pending).scalar_changes@.len() ==> !scalar_change_panics(
            #[trigger] old(pending).scalar_changes@[i].0@,
            old(pending).scalar_changes@[i].1,
        ),
        old(pending).scalar_changes@.len() + 2 * item_count(old(pending).collection_additions@)
            + old(config)@.binds.len() + old(config)@.window_rules.len()
            + replacement_steps(old(pending).collection_replacements@).len() <= usize::MAX,
    ensures
        apply_outcome(*old(pending), old(config)@, *final(pending), final(config)@, r as nat, *bind_matches),
        old(pending).wf() ==> final(pending).wf(),
{
    if !pending.has_changes() {
        return 0;
    }
    let mut ch = PendingConfigChanges::new();
    std::mem::swap(&mut ch, pending);
    let ghost start = config@;
    let n1 = apply_scalar_changes(&mut config.settings, &ch.scalar_changes);
    let ghost s1 = config@;
    assert(s1 == ConfigView { settings: s1.settings, ..start });
    let n2 = apply_additions(config, &ch.collection_additions);
    let ghost s2 = config@;
    let n3 = apply_removals(config, &ch.collection_removals, bind_matches);
    let ghost s3 = config@;
    let n4 = apply_replacements(config, &ch.collection_replacements);
    assert(scalars_applied(start.settings, ch.scalar_changes@, s1.settings, n1 as nat)
        && s1 == ConfigView { settings: s1.settings, ..start }
        && additions_applied(s1, ch.collection_additions@, s2, n2 as nat)
        && removals_applied(s2, ch.collection_removals@, s3, n3 as nat, *bind_matches)
        && replacements_applied(s3, ch.collection_replacements@, config@, n4 as nat));
    n1 + n2
}

} // verus!
