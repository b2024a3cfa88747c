//! Properties that relate several operations of the library, stated over the
//! spec functions that the operations' contracts use.
use vstd::prelude::*;
use crate::bind_table::{action_extracted, action_key, ActionError, ActionFields};
use crate::actions::Action;
use crate::callbacks::CallbackRegistry;
use crate::numbers::{all_digits, decimal, digits_value, is_digit, signed_decimal, signed_text_value, unsigned_text_value};
use crate::color::{color_text, hex_char, hex_digit, hex_pair, hex_pair_chars, hex_rgb, hex_rgba, Rgba8};
use vstd::utf8::{encode_utf8, is_ascii_chars, is_ascii_chars_encode_utf8};
use crate::dirty::{with_path, ConfigDirtyFlags, DirtyFlag};
use crate::events::{distinct_ids, has_id, persistent, without_id, EventHandlers, LuaEventHandler};
use crate::pending::{apply_outcome, set_in, setting_index, setting_value, Bind, ConfigView, PendingConfigChanges, Setting};
use crate::json::Json;
use crate::settings::SettingValue;
use crate::collection_items::{env_after_set, env_names, first_named, lemma_first_named};
use crate::pending::EnvironmentVariable;
use crate::config_access::{
    read_outcome_of, root_read_outcome_of, root_write_outcome_of, table_step_of, write_outcome_of, AssignedValue,
    PathEntry, ReadOutcome, TableStep, WriteOutcome,
};
use crate::proxy::{conforms, method_signature, proxy_outcome, refused, ProxyArg, ProxyError};

use crate::actions::{action_name, action_name_joined};
use crate::proxy::proxy_plain_action;
use crate::bind_table::plain_action;
use crate::settings::json_color;
use crate::json::{field_of, JsonNumber};
use crate::rename::{ascii_upper, pascal_ascii, pascal_ascii_from};
use crate::derive_plan::kebab_ascii;
use crate::text::{fold_char, folded};
use crate::accessors::{
    accessor_of, accessor_value, choice_text, choice_words, dashes_to_underscores, property_view, word_matching, AccessorKind,
    ChoiceSet, OutputView, PropertyInput,
};

verus! {

/// Recording a dirty path twice records it once: the second recording
/// changes nothing, and the path is recorded.
pub proof fn law_mark_dirty_idempotent(paths: Seq<Seq<char>>, path: Seq<char>)
    ensures
        with_path(with_path(paths, path), path) == with_path(paths, path),
        with_path(paths, path).contains(path),
{
    if !paths.contains(path) {
        assert(paths.push(path)[paths.len() as int] == path);
    }
}

/// Marking a section dirty sets its flag, keeps the recorded paths, and
/// makes the flags dirty.
pub proof fn law_mark_sets_flag(d: ConfigDirtyFlags, f: DirtyFlag)
    ensures
        d.with_flag(f).flag(f),
        d.with_flag(f).is_any(),
        d.with_flag(f).paths() == d.paths(),
{
    match f {
        DirtyFlag::Input => {},
        DirtyFlag::Outputs => {},
        DirtyFlag::Layout => {},
        DirtyFlag::Animations => {},
        DirtyFlag::WindowRules => {},
        DirtyFlag::LayerRules => {},
        DirtyFlag::Binds => {},
        DirtyFlag::Cursor => {},
        DirtyFlag::Keyboard => {},
        DirtyFlag::Gestures => {},
        DirtyFlag::Overview => {},
        DirtyFlag::RecentWindows => {},
        DirtyFlag::Clipboard => {},
        DirtyFlag::HotkeyOverlay => {},
        DirtyFlag::ConfigNotification => {},
        DirtyFlag::Debug => {},
        DirtyFlag::XwaylandSatellite => {},
        DirtyFlag::Misc => {},
        DirtyFlag::SpawnAtStartup => {},
        DirtyFlag::Environment => {},
        DirtyFlag::Workspaces => {},
    }
}

/// Cleared flags are not dirty.
pub proof fn law_clear_means_clean(d: ConfigDirtyFlags)
    ensures
        d.is_clear() ==> !d.is_any(),
{
}

/// Unregistering the handler that a registration returned undoes the
/// registration: the event's handlers are those it had before.
pub proof fn law_unregister_undoes_register(s: EventHandlers, name: Seq<char>, h: LuaEventHandler)
    requires
        s.wf(),
        h.id == s.next_id(),
    ensures
        without_id(s.handlers_of(name).push(h), h.id) == s.handlers_of(name),
{
    s.lemma_next_id_fresh(name);
    crate::events::lemma_without_id_absent_push(s.handlers_of(name), h);
}

/// The handlers of an event have distinct ids.
pub proof fn law_handler_ids_distinct(s: EventHandlers, name: Seq<char>)
    requires
        s.wf(),
    ensures
        distinct_ids(s.handlers_of(name)),
{
    s.lemma_handlers_distinct(name);
}

/// An emission keeps every handler that is not `once`, in order, and keeps
/// only handlers it had.
pub proof fn law_emit_keeps_persistent_handlers(hs: Seq<LuaEventHandler>, i: int)
    requires
        0 <= i < hs.len(),
    ensures
        !hs[i].once ==> persistent(hs).contains(hs[i]),
        persistent(hs).len() <= hs.len(),
        forall|j: int| 0 <= j < persistent(hs).len() ==> hs.contains(#[trigger] persistent(hs)[j]),
    decreases hs.len(),
{
    let n = hs.len() - 1;
    let rest = persistent(hs.drop_last());
    if n > 0 {
        if i < n {
            law_emit_keeps_persistent_handlers(hs.drop_last(), i);
        } else {
            law_emit_keeps_persistent_handlers(hs.drop_last(), 0);
        }
    }
    if !hs.last().once {
        assert(persistent(hs) == rest.push(hs.last()));
        if i == n {
            assert(persistent(hs)[rest.len() as int] == hs[i]);
        } else if !hs[i].once {
            let k = choose|k: int| 0 <= k < rest.len() && rest[k] == hs.drop_last()[i];
            assert(persistent(hs)[k] == hs[i]);
        }
    } else if i < n && !hs[i].once {
        let k = choose|k: int| 0 <= k < rest.len() && rest[k] == hs.drop_last()[i];
        assert(persistent(hs)[k] == hs[i]);
    }
    assert forall|j: int| 0 <= j < persistent(hs).len() implies hs.contains(#[trigger] persistent(hs)[j]) by {
        if j < rest.len() {
            if n > 0 {
                let x = rest[j];
                assert(hs.drop_last().contains(x));
                let k = choose|k: int| 0 <= k < hs.drop_last().len() && hs.drop_last()[k] == x;
                assert(hs[k] == x);
            }
        } else {
            assert(hs[n] == hs.last());
        }
    }
}

/// A `once` handler is gone after an emission of its event.
pub proof fn law_emit_drops_once_handlers(hs: Seq<LuaEventHandler>, i: int)
    requires
        distinct_ids(hs),
        0 <= i < hs.len(),
        hs[i].once,
    ensures
        !has_id(persistent(hs), hs[i].id),
{
    lemma_persistent_ids(hs, i);
}

proof fn lemma_persistent_ids(hs: Seq<LuaEventHandler>, i: int)
    requires
        distinct_ids(hs),
        0 <= i < hs.len(),
        hs[i].once,
    ensures
        !has_id(persistent(hs), hs[i].id),
    decreases hs.len(),
{
    let n = hs.len() - 1;
    let rest = persistent(hs.drop_last());
    assert(distinct_ids(hs.drop_last())) by {
        assert forall|a: int, b: int| 0 <= a < b < hs.drop_last().len() implies #[trigger] hs.drop_last()[a].id
            != #[trigger] hs.drop_last()[b].id by {
            assert(hs.drop_last()[a] == hs[a] && hs.drop_last()[b] == hs[b]);
        }
    }
    if i < n {
        lemma_persistent_ids(hs.drop_last(), i);
        assert(hs[n].id != hs[i].id);
        if !hs.last().once {
            assert forall|j: int| 0 <= j < persistent(hs).len() implies #[trigger] persistent(hs)[j].id != hs[i].id by {
                if j < rest.len() {
                    assert(persistent(hs)[j] == rest[j]);
                    assert(!has_id(rest, hs[i].id));
                }
            }
        }
    } else if n > 0 {
        law_emit_keeps_persistent_handlers(hs.drop_last(), 0);
        assert forall|j: int| 0 <= j < rest.len() implies #[trigger] rest[j].id != hs[i].id by {
            let x = rest[j];
            assert(hs.drop_last().contains(x));
            let k = choose|k: int| 0 <= k < hs.drop_last().len() && hs.drop_last()[k] == x;
            assert(hs[k] == x);
        }
    }
}

/// The id that the next callback registration hands out is not in use.
pub proof fn law_fresh_callback_id(r: CallbackRegistry)
    requires
        r.wf(),
    ensures
        !r.keys().contains_key(r.upcoming_id()),
{
    r.lemma_fresh_id();
}


/// Reading a setting after writing it gives the value written; the other
/// settings keep their values.
pub proof fn law_setting_read_after_write<F>(s: Seq<Setting<F>>, field: &'static str, v: SettingValue<F>, other: &'static str)
    ensures
        setting_value(set_in(s, field, v), field) == Some(v),
        other@ != field@ ==> setting_value(set_in(s, field, v), other) == setting_value(s, other),
{
    crate::pending::lemma_setting_index_of_set(s, field, v, other);
    let t = set_in(s, field, v);
    if other@ != field@ {
        let o = setting_index(s, other);
        assert(setting_index(t, other) == o);
        crate::pending::lemma_setting_index_bounds(s, other);
        crate::pending::lemma_setting_index_bounds(s, field);
        if 0 <= o {
            assert(t.len() >= s.len());
            assert(t[o] == s[o]);
            assert(setting_value(t, other) == Some(t[o].value));
        }
    }
}

/// The action that a bind table names does not depend on the letter case of
/// its name, nor on writing `-`, ` ` or `_` between its words: two tables
/// that differ only in names with the same normalized form give the same
/// action, or fail the same way unless the name is unknown.
pub proof fn law_action_name_normalized<F, E>(f: ActionFields<F, E>, t: String, r: Result<Action<F>, ActionError<E>>)
    requires
        f.action matches Some(s) && action_key(s@) == action_key(t@),
        action_extracted(f, r),
        !(r matches Err(ActionError::UnknownAction(_))),
    ensures
        action_extracted(ActionFields { action: Some(t), ..f }, r),
{
}

/// Two bind tables whose action names have the same normalized form both
/// succeed or both fail, and an action read from the one is read from the
/// other.
pub proof fn law_action_name_normalized_results<F, E>(
    f: ActionFields<F, E>,
    t: String,
    r: Result<Action<F>, ActionError<E>>,
    r2: Result<Action<F>, ActionError<E>>,
)
    requires
        f.action matches Some(s) && action_key(s@) == action_key(t@),
        action_extracted(f, r),
        action_extracted(ActionFields { action: Some(t), ..f }, r2),
    ensures
        r is Ok <==> r2 is Ok,
        r is Ok ==> action_extracted(ActionFields { action: Some(t), ..f }, r),
{
    if r is Ok {
        law_action_name_normalized(f, t, r);
    }
}

proof fn lemma_hex_char(v: int)
    requires
        0 <= v < 16,
    ensures
        '\0' <= hex_char(v) <= '\u{7f}',
        hex_digit(hex_char(v) as u8) == Some(v),
        hex_char(v) as u8 != 43,
{
}

proof fn lemma_hex_pair_chars(v: u8)
    ensures
        is_ascii_chars(hex_pair_chars(v)),
        hex_pair(hex_pair_chars(v)[0] as u8, hex_pair_chars(v)[1] as u8) == Some(v),
{
    lemma_hex_char((v / 16) as int);
    lemma_hex_char((v % 16) as int);
    assert((v / 16) * 16 + v % 16 == v);
}

/// A color written as `#rrggbbaa` (as `color_to_hex` writes it) reads back
/// as the same color; written as `#rrggbb` (as `color_to_hex_noalpha` writes
/// it), as the same color with full alpha.
pub proof fn law_hex_color_round_trip(c: Rgba8)
    ensures
        color_text(encode_utf8(hex_rgba(c))) == Some(c),
        color_text(encode_utf8(hex_rgb(c))) == Some(Rgba8 { a: 255, ..c }),
{
    lemma_hex_pair_chars(c.r);
    lemma_hex_pair_chars(c.g);
    lemma_hex_pair_chars(c.b);
    lemma_hex_pair_chars(c.a);
    let full = hex_rgba(c);
    let short = hex_rgb(c);
    assert(is_ascii_chars(full)) by {
        assert forall|i: int| 0 <= i < full.len() implies '\0' <= #[trigger] full[i] <= '\u{7f}' by {
            if i > 0 {
                let k = (i - 1) % 2;
                let which = (i - 1) / 2;
                if which == 0 { assert(full[i] == hex_pair_chars(c.r)[k]); }
                else if which == 1 { assert(full[i] == hex_pair_chars(c.g)[k]); }
                else if which == 2 { assert(full[i] == hex_pair_chars(c.b)[k]); }
                else { assert(full[i] == hex_pair_chars(c.a)[k]); }
            }
        }
    }
    assert(is_ascii_chars(short)) by {
        assert forall|i: int| 0 <= i < short.len() implies '\0' <= #[trigger] short[i] <= '\u{7f}' by {
            if i > 0 {
                let k = (i - 1) % 2;
                let which = (i - 1) / 2;
                if which == 0 { assert(short[i] == hex_pair_chars(c.r)[k]); }
                else if which == 1 { assert(short[i] == hex_pair_chars(c.g)[k]); }
                else { assert(short[i] == hex_pair_chars(c.b)[k]); }
            }
        }
    }
    is_ascii_chars_encode_utf8(full);
    is_ascii_chars_encode_utf8(short);
    let fb = encode_utf8(full);
    let sb = encode_utf8(short);
    assert(fb[0] == full[0] as u8);
    assert(fb.drop_first()[0] == full[1] as u8 && fb.drop_first()[1] == full[2] as u8);
    assert(fb.drop_first()[2] == full[3] as u8 && fb.drop_first()[3] == full[4] as u8);
    assert(fb.drop_first()[4] == full[5] as u8 && fb.drop_first()[5] == full[6] as u8);
    assert(fb.drop_first()[6] == full[7] as u8 && fb.drop_first()[7] == full[8] as u8);
    assert(sb[0] == short[0] as u8);
    assert(sb.drop_first()[0] == short[1] as u8 && sb.drop_first()[1] == short[2] as u8);
    assert(sb.drop_first()[2] == short[3] as u8 && sb.drop_first()[3] == short[4] as u8);
    assert(sb.drop_first()[4] == short[5] as u8 && sb.drop_first()[5] == short[6] as u8);
}

proof fn lemma_decimal_digits(n: nat)
    ensures
        decimal(n).len() > 0,
        all_digits(decimal(n)),
        digits_value(decimal(n)) == n,
    decreases n,
{
    if n >= 10 {
        lemma_decimal_digits(n / 10);
        let s = decimal(n / 10);
        let d = ((n % 10) + 48) as char;
        assert(decimal(n) == s.push(d));
        assert(s.push(d).drop_last() =~= s);
        assert forall|i: int| 0 <= i < s.push(d).len() implies is_digit(#[trigger] s.push(d)[i]) by {
            if i < s.len() {
                assert(s.push(d)[i] == s[i]);
            }
        }
        assert((n / 10) * 10 + n % 10 == n);
        assert(d as int == (n % 10) + 48);
        assert(digits_value(s.push(d)) == digits_value(s) * 10 + (d as int - 48));
        assert(digits_value(s) * 10 == (n / 10) * 10);
        assert(digits_value(decimal(n)) == n);
    } else {
        let d = (n + 48) as char;
        assert(d as int == n + 48);
        assert(decimal(n) == seq![d]);
        assert(seq![d].drop_last() =~= Seq::<char>::empty());
        assert(digits_value(seq![d]) == digits_value(Seq::<char>::empty()) * 10 + (d as int - 48));
        assert(digits_value(decimal(n)) == n);
    }
}

/// An integer written in decimal (as `to_string` writes it, and as a bind's
/// integer argument becomes text) reads back as the same integer.
pub proof fn law_decimal_reads_back(n: nat, i: int)
    ensures
        unsigned_text_value(decimal(n)) == Some(n as int),
        signed_text_value(signed_decimal(i)) == Some(i),
{
    lemma_decimal_digits(n);
    if i < 0 {
        lemma_decimal_digits((-i) as nat);
        assert((seq!['-'] + decimal((-i) as nat)).drop_first() =~= decimal((-i) as nat));
    } else {
        lemma_decimal_digits(i as nat);
    }
}

/// A method of the action proxy takes exactly the arguments its signature
/// lists: a call of a method that takes arguments is refused for its
/// arguments if and only if their kinds differ from the signature's, and a
/// call of a listed method is never answered as unknown.
pub proof fn law_proxy_signature_decides<F, E>(name: Seq<char>, args: Seq<ProxyArg<F, E>>, r: Result<Action<F>, ProxyError<E>>)
    requires
        proxy_outcome(name, args, r),
    ensures
        method_signature(name) is Some && method_signature(name).unwrap().len() > 0
            ==> (refused(r) <==> !conforms(args, method_signature(name).unwrap())),
        method_signature(name) is Some ==> r != Err::<Action<F>, _>(ProxyError::<E>::UnknownMethod),
        method_signature(name) is None ==> r == Err::<Action<F>, _>(ProxyError::<E>::UnknownMethod),
{
}
/// Setting an environment variable and then looking it up by name finds the
/// value written; the other variables keep their names and values, and the
/// collection grows by one exactly when the name was not there.
pub proof fn law_environment_set_then_get(env: Seq<EnvironmentVariable>, name: String, value: Option<String>)
    ensures
        ({
            let new = env_after_set(env, name, value);
            let i = first_named(env_names(new), name@);
            &&& i >= 0
            &&& new[i].name@ == name@
            &&& new[i].value == value
            &&& new.len() == (if first_named(env_names(env), name@) >= 0 { env.len() } else { env.len() + 1 })
            &&& forall|j: int| 0 <= j < env.len() && j != i ==> #[trigger] new[j] == env[j]
        }),
{
    let new = env_after_set(env, name, value);
    lemma_first_named(env_names(env), name@);
    lemma_first_named(env_names(new), name@);
    let k = first_named(env_names(env), name@);
    if k >= 0 {
        assert(env_names(env)[k] == env[k].name@);
        assert(env_names(new)[k] == new[k].name@);
        let i = first_named(env_names(new), name@);
        if i >= 0 && i != k {
            assert(env_names(new)[i] == new[i].name@);
            if i < k {
                assert(env_names(env)[i] == env[i].name@);
            }
        }
        if i < 0 {
            assert(env_names(new)[k] == name@);
        }
    } else {
        let n = env.len() as int;
        assert(env_names(new)[n] == new[n].name@);
        let i = first_named(env_names(new), name@);
        if i >= 0 && i < n {
            assert(env_names(new)[i] == new[i].name@);
            assert(env_names(env)[i] == env[i].name@);
        }
    }
}

/// A key of the configuration proxy reads as a value exactly when assigning
/// to it sets a property (whatever is assigned); when reading it fails,
/// assigning to it is refused.
pub proof fn law_config_read_write_agree(path: Seq<char>, entry: PathEntry, v: AssignedValue, r: WriteOutcome)
    requires
        write_outcome_of(path, entry, v, r),
    ensures
        (read_outcome_of(entry) == ReadOutcome::Value) == (r is Assign),
        read_outcome_of(entry) == ReadOutcome::Unknown ==> r is Refused,
{
}

/// Applying an entry of a table to a section does what assigning the same
/// value to the entry's path through the proxy does: a property is set with
/// the same section marked dirty, a table goes into a nested section, and a
/// path that names nothing is refused with the same message; the one
/// difference is that a section's own proxy is refused there.
pub proof fn law_table_step_follows_proxy_write(
    path: Seq<char>,
    entry: PathEntry,
    v: AssignedValue,
    w: WriteOutcome,
    t: TableStep,
)
    requires
        write_outcome_of(path, entry, v, w),
        table_step_of(path, entry, v, t),
    ensures
        (w is ApplyTable) == (t is Descend),
        w is Assign ==> t == (TableStep::Assign { dirty_flag: w->dirty_flag }),
        t is Assign ==> w is Assign,
        entry is Unknown ==> (w matches WriteOutcome::Refused(a) && t matches TableStep::Refused(b) && a@ == b@),
        w is Unchanged ==> t is Refused,
{
}

/// The configuration table itself reads a key as a proxy of the root reads
/// it, except that a key that names nothing reads as `nil`; and assigning to
/// one of its keys sets the same property, with the same section dirtied, as
/// the proxy does, applies a table where the proxy does, and treats a value
/// given to a section as the proxy does.
pub proof fn law_root_follows_proxy(
    key: Seq<char>,
    entry: PathEntry,
    v: AssignedValue,
    w: WriteOutcome,
    root: WriteOutcome,
)
    requires
        write_outcome_of(key, entry, v, w),
        root_write_outcome_of(key, entry, v, root),
    ensures
        root_read_outcome_of(entry) == (if entry is Unknown { None } else { Some(read_outcome_of(entry)) }),
        (w is Assign) == (root is Assign),
        w is Assign ==> root == (WriteOutcome::Assign { dirty_flag: w->dirty_flag, signal: false }),
        (w is ApplyTable) == (root is ApplyTable),
        entry is Section ==> (w is Unchanged) == (root is Unchanged),
        entry is Section ==> (w matches WriteOutcome::Refused(a) ==> (root matches WriteOutcome::Refused(b) && a@ == b@)),
{
}

/// What reading a property gives back after a value `v` was written to it:
/// the flag written (also for an inverted flag, which is stored negated),
/// the integer, number or text written, `nil` for an unset optional value,
/// and for a choice the text it was matched as.
pub open spec fn read_back<F>(k: AccessorKind, v: PropertyInput<F>) -> Option<OutputView<F>> {
    match (k, v) {
        (AccessorKind::Choice { normalize, .. }, PropertyInput::Text(s)) => Some(OutputView::Text(choice_text(s@, normalize))),
        (AccessorKind::Choice { normalize, .. }, PropertyInput::OptionalText(Some(s))) => Some(
            OutputView::Text(choice_text(s@, normalize)),
        ),
        (_, PropertyInput::Flag(b)) => Some(OutputView::Boolean(b)),
        (_, PropertyInput::OptionalFlag(Some(b))) => Some(OutputView::Boolean(b)),
        (_, PropertyInput::Integer(i)) => Some(OutputView::Integer(i)),
        (_, PropertyInput::OptionalInteger(Some(i))) => Some(OutputView::Integer(i)),
        (_, PropertyInput::Number(f)) => Some(OutputView::Number(f)),
        (_, PropertyInput::Text(s)) => Some(OutputView::Text(s@)),
        (_, PropertyInput::OptionalText(Some(s))) => Some(OutputView::Text(s@)),
        _ => Some(OutputView::Nil),
    }
}

proof fn lemma_word_matching(words: Seq<&'static str>, t: Seq<char>)
    ensures
        word_matching(words, t) matches Some(w) ==> w@ == t && words.contains(w),
    decreases words.len(),
{
    if words.len() > 0 && words[0]@ != t {
        lemma_word_matching(words.drop_first(), t);
        if word_matching(words, t) is Some {
            let w = word_matching(words, t).unwrap();
            let j = choose|j: int| 0 <= j < words.drop_first().len() && words.drop_first()[j] == w;
            assert(words[j + 1] == w);
        }
    } else if words.len() > 0 {
        assert(words[0] == words[0]);
    }
}

proof fn lemma_no_dash(w: &'static str)
    requires
        forall|i: int| 0 <= i < w@.len() ==> w@[i] != '-',
    ensures
        dashes_to_underscores(w@) == w@,
{
    assert(dashes_to_underscores(w@) =~= w@);
}


/// Reading a property after a value was written to it gives back the value
/// written (see `read_back`); in particular `layout.shadow.off` reads back
/// what was written to it, though it stores `layout.shadow.on` negated.
pub proof fn law_property_read_after_write<F>(s: Seq<Setting<F>>, d: Seq<Setting<F>>, path: Seq<char>, v: PropertyInput<F>)
    requires
        accessor_of(path) is Some,
        accessor_value(accessor_of(path).unwrap().1, v) is Some,
    ensures
        ({
            let (field, k) = accessor_of(path).unwrap();
            property_view(set_in(s, field, accessor_value(k, v).unwrap()), d, path) == read_back(k, v)
        }),
{
    let (field, k) = accessor_of(path).unwrap();
    let x = accessor_value(k, v).unwrap();
    law_setting_read_after_write(s, field, x, field);
    if let AccessorKind::Choice { set, normalize, .. } = k {
        match v {
            PropertyInput::Text(t) => {
                lemma_word_matching(choice_words(set), choice_text(t@, normalize));
                lemma_words_without_dashes(set);
            },
            PropertyInput::OptionalText(Some(t)) => {
                lemma_word_matching(choice_words(set), choice_text(t@, normalize));
                lemma_words_without_dashes(set);
            },
            _ => {},
        }
    }
}

/// Applying the pending changes a second time, with nothing recorded in
/// between, changes nothing and counts no change.
pub proof fn law_apply_pending_twice<F: std::fmt::Display, P: Fn(&Bind<F>, &Json<F>) -> bool>(
    p0: PendingConfigChanges<F>,
    c0: ConfigView<F>,
    p1: PendingConfigChanges<F>,
    c1: ConfigView<F>,
    n1: nat,
    p2: PendingConfigChanges<F>,
    c2: ConfigView<F>,
    n2: nat,
    matches: P,
)
    requires
        apply_outcome(p0, c0, p1, c1, n1, matches),
        apply_outcome(p1, c1, p2, c2, n2, matches),
    ensures
        n2 == 0,
        c2 == c1,
        p2 == p1,
{
}
/// The words of every choice are written without dashes.
proof fn lemma_words_without_dashes(set: ChoiceSet)
    ensures
        forall|i: int| 0 <= i < choice_words(set).len() ==> dashes_to_underscores(#[trigger] choice_words(set)[i]@) == choice_words(set)[i]@,
{
    reveal_strlit("adaptive");
    lemma_no_dash("adaptive");
    reveal_strlit("flat");
    lemma_no_dash("flat");
    reveal_strlit("no_scroll");
    lemma_no_dash("no_scroll");
    reveal_strlit("two_finger");
    lemma_no_dash("two_finger");
    reveal_strlit("edge");
    lemma_no_dash("edge");
    reveal_strlit("on_button_down");
    lemma_no_dash("on_button_down");
    reveal_strlit("left_right_middle");
    lemma_no_dash("left_right_middle");
    reveal_strlit("left_middle_right");
    lemma_no_dash("left_middle_right");
    reveal_strlit("screencast");
    lemma_no_dash("screencast");
    reveal_strlit("screen_capture");
    lemma_no_dash("screen_capture");
    reveal_strlit("never");
    lemma_no_dash("never");
    reveal_strlit("always");
    lemma_no_dash("always");
    reveal_strlit("on_overflow");
    lemma_no_dash("on_overflow");
    reveal_strlit("left");
    lemma_no_dash("left");
    reveal_strlit("right");
    lemma_no_dash("right");
    reveal_strlit("top");
    lemma_no_dash("top");
    reveal_strlit("bottom");
    lemma_no_dash("bottom");
    reveal_strlit("normal");
    lemma_no_dash("normal");
    reveal_strlit("tabbed");
    lemma_no_dash("tabbed");
}

/// `s` without its `_` characters.
pub open spec fn without_underscores(s: Seq<char>) -> Seq<char>
    decreases s.len(),
{
    if s.len() == 0 {
        s
    } else if s[0] == '_' {
        without_underscores(s.drop_first())
    } else {
        seq![s[0]] + without_underscores(s.drop_first())
    }
}

/// `s` with every `_` turned into `-`.
pub open spec fn underscores_to_dashes(s: Seq<char>) -> Seq<char> {
    s.map_values(|c: char| if c == '_' { '-' } else { c })
}

/// A PascalCase name made from an ASCII text (see `to_pascal_case`) has no
/// `_`, one character for each character of the text that is not `_`, and
/// the same letters as those characters when letter case is ignored.
pub proof fn law_pascal_case_letters(s: Seq<char>, at_start: bool)
    ensures
        pascal_ascii_from(s, at_start).len() == without_underscores(s).len(),
        !pascal_ascii_from(s, at_start).contains('_'),
        folded(pascal_ascii_from(s, at_start)) == folded(without_underscores(s)),
    decreases s.len(),
{
    if s.len() > 0 {
        let rest = s.drop_first();
        if s[0] == '_' {
            law_pascal_case_letters(rest, true);
        } else {
            let nb = false;
            law_pascal_case_letters(rest, nb);
            let x = if at_start { ascii_upper(s[0]) } else { s[0] };
            let p = pascal_ascii_from(rest, nb);
            let w = without_underscores(rest);
            assert(pascal_ascii_from(s, at_start) == seq![x] + p);
            assert(without_underscores(s) == seq![s[0]] + w);
            assert(fold_char(x) == fold_char(s[0]));
            assert(folded(seq![x] + p) =~= seq![fold_char(x)] + folded(p));
            assert(folded(seq![s[0]] + w) =~= seq![fold_char(s[0])] + folded(w));
            if (seq![x] + p).contains('_') {
                let j = choose|j: int| 0 <= j < (seq![x] + p).len() && (seq![x] + p)[j] == '_';
                if j > 0 {
                    assert(p[j - 1] == '_');
                }
            }
        }
    }
}

/// The state after `s`: at a word start when `s` is empty and the walk
/// started at one, or when `s` ends with `_`.
pub open spec fn starts_after(s: Seq<char>, at_start: bool) -> bool {
    if s.len() == 0 { at_start } else { s.last() == '_' }
}

proof fn lemma_pascal_push(s: Seq<char>, c: char, at_start: bool)
    ensures
        pascal_ascii_from(s.push(c), at_start) == if c == '_' {
            pascal_ascii_from(s, at_start)
        } else if starts_after(s, at_start) {
            pascal_ascii_from(s, at_start).push(ascii_upper(c))
        } else {
            pascal_ascii_from(s, at_start).push(c)
        },
    decreases s.len(),
{
    let t = s.push(c);
    if s.len() == 0 {
        assert(t.drop_first() =~= Seq::<char>::empty());
        assert(pascal_ascii_from(t.drop_first(), true) =~= Seq::<char>::empty());
        assert(pascal_ascii_from(t.drop_first(), false) =~= Seq::<char>::empty());
        assert(pascal_ascii_from(s, at_start) =~= Seq::<char>::empty());
        assert(seq![ascii_upper(c)] + Seq::<char>::empty() =~= Seq::<char>::empty().push(ascii_upper(c)));
        assert(seq![c] + Seq::<char>::empty() =~= Seq::<char>::empty().push(c));
    } else {
        assert(t[0] == s[0]);
        assert(t.drop_first() =~= s.drop_first().push(c));
        let nb = if s[0] == '_' { true } else { false };
        lemma_pascal_push(s.drop_first(), c, nb);
        let p = pascal_ascii_from(s.drop_first(), nb);
        if s[0] != '_' {
            let x = if at_start { ascii_upper(s[0]) } else { s[0] };
            assert(seq![x] + p.push(ascii_upper(c)) =~= (seq![x] + p).push(ascii_upper(c)));
            assert(seq![x] + p.push(c) =~= (seq![x] + p).push(c));
        }
        if s.drop_first().len() > 0 {
            assert(s.drop_first().last() == s.last());
        }
    }
}

/// A text whose characters are small ASCII letters and `_`, which does not
/// start with `_` and has no two `_` in a row.
pub open spec fn snake_prefix(t: Seq<char>) -> bool {
    &&& forall|i: int| 0 <= i < t.len() ==> ('a' <= #[trigger] t[i] <= 'z' || t[i] == '_')
    &&& t.len() > 0 ==> t[0] != '_'
    &&& forall|i: int| 0 <= i < t.len() - 1 ==> !(#[trigger] t[i] == '_' && t[i + 1] == '_')
}

/// A snake_case name: words of small ASCII letters joined by single `_`.
pub open spec fn snake_name(t: Seq<char>) -> bool {
    snake_prefix(t) && (t.len() > 0 ==> t.last() != '_')
}

proof fn lemma_snake_drop_last(t: Seq<char>)
    requires
        snake_prefix(t),
        t.len() > 0,
    ensures
        snake_prefix(t.drop_last()),
{
    let u = t.drop_last();
    assert forall|i: int| 0 <= i < u.len() implies ('a' <= #[trigger] u[i] <= 'z' || u[i] == '_') by {
        assert(u[i] == t[i]);
    }
    assert forall|i: int| 0 <= i < u.len() - 1 implies !(#[trigger] u[i] == '_' && u[i + 1] == '_') by {
        assert(u[i] == t[i] && u[i + 1] == t[i + 1]);
    }
    if u.len() > 0 {
        assert(u[0] == t[0]);
    }
}

/// The kebab-case name of a text with no capital letter is the text with
/// every `_` turned into `-` (see `to_kebab_case`).
pub proof fn law_kebab_of_small_letters(s: Seq<char>)
    requires
        forall|i: int| 0 <= i < s.len() ==> !('A' <= #[trigger] s[i] <= 'Z'),
    ensures
        kebab_ascii(s) == underscores_to_dashes(s),
    decreases s.len(),
{
    if s.len() > 0 {
        let u = s.drop_last();
        assert forall|i: int| 0 <= i < u.len() implies !('A' <= #[trigger] u[i] <= 'Z') by {
            assert(u[i] == s[i]);
        }
        law_kebab_of_small_letters(u);
        assert(underscores_to_dashes(s) =~= underscores_to_dashes(u).push(
            if s.last() == '_' { '-' } else { s.last() },
        ));
    }
}

/// The kebab-case name of the PascalCase name of a snake_case name is the
/// snake_case name with every `_` turned into `-` (see `to_kebab_case` and
/// `to_pascal_case`).
pub proof fn law_kebab_of_pascal(t: Seq<char>)
    requires
        snake_name(t),
    ensures
        kebab_ascii(pascal_ascii(t)) == underscores_to_dashes(t),
    decreases t.len(),
{
    if t.len() > 0 {
        let c = t.last();
        let t0 = t.drop_last();
        assert(t == t0.push(c));
        assert('a' <= c <= 'z') by {
            assert('a' <= t[t.len() - 1] <= 'z' || t[t.len() - 1] == '_');
        }
        lemma_snake_drop_last(t);
        lemma_pascal_push(t0, c, true);
        let upper = ((c as u32) - 32) as char;
        if t0.len() == 0 {
            assert(pascal_ascii_from(t0, true) =~= Seq::<char>::empty());
            assert(pascal_ascii(t) =~= seq![upper]);
            assert(seq![upper].drop_last() =~= Seq::<char>::empty());
            assert(kebab_ascii(Seq::<char>::empty()) =~= Seq::<char>::empty());
            assert(underscores_to_dashes(t) =~= seq![c]);
            assert(kebab_ascii(seq![upper]) =~= seq![c]);
        } else if t0.last() == '_' {
            let u = t0.drop_last();
            assert(t0 == u.push('_'));
            assert(t0.len() >= 2) by {
                assert(t0[0] == t[0]);
            }
            assert(u.last() != '_') by {
                assert(t[t0.len() - 2] == u.last());
                assert(t[t0.len() - 1] == '_');
            }
            lemma_snake_drop_last(t0);
            law_kebab_of_pascal(u);
            lemma_pascal_push(u, '_', true);
            let x = pascal_ascii(u);
            law_pascal_case_letters(u, true);
            assert(without_underscores(u).len() > 0) by {
                assert(u[0] == t[0]);
            }
            assert(pascal_ascii(t) == x.push(upper));
            assert(x.push(upper).drop_last() =~= x);
            assert(kebab_ascii(x.push(upper)) =~= kebab_ascii(x).push('-').push(c));
            assert(underscores_to_dashes(t) =~= underscores_to_dashes(u).push('-').push(c));
        } else {
            law_kebab_of_pascal(t0);
            let x = pascal_ascii(t0);
            assert(pascal_ascii(t) == x.push(c));
            assert(x.push(c).drop_last() =~= x);
            assert(underscores_to_dashes(t) =~= underscores_to_dashes(t0).push(c));
        }
    }
}


/// Marking a section sets exactly the flag field named after it, and
/// leaves every other flag and the recorded paths as they were (see
/// `ConfigDirtyFlags::mark`); reading a section's flag reads the field
/// named after it (see `ConfigDirtyFlags::is_dirty`).
pub proof fn law_mark_sets_the_named_field(d: ConfigDirtyFlags)
    ensures
        d.with_flag(DirtyFlag::Input) == (ConfigDirtyFlags { input: true, ..d }),
        d.with_flag(DirtyFlag::Outputs) == (ConfigDirtyFlags { outputs: true, ..d }),
        d.with_flag(DirtyFlag::Layout) == (ConfigDirtyFlags { layout: true, ..d }),
        d.with_flag(DirtyFlag::Animations) == (ConfigDirtyFlags { animations: true, ..d }),
        d.with_flag(DirtyFlag::WindowRules) == (ConfigDirtyFlags { window_rules: true, ..d }),
        d.with_flag(DirtyFlag::LayerRules) == (ConfigDirtyFlags { layer_rules: true, ..d }),
        d.with_flag(DirtyFlag::Binds) == (ConfigDirtyFlags { binds: true, ..d }),
        d.with_flag(DirtyFlag::Cursor) == (ConfigDirtyFlags { cursor: true, ..d }),
        d.with_flag(DirtyFlag::Keyboard) == (ConfigDirtyFlags { keyboard: true, ..d }),
        d.with_flag(DirtyFlag::Gestures) == (ConfigDirtyFlags { gestures: true, ..d }),
        d.with_flag(DirtyFlag::Overview) == (ConfigDirtyFlags { overview: true, ..d }),
        d.with_flag(DirtyFlag::RecentWindows) == (ConfigDirtyFlags { recent_windows: true, ..d }),
        d.with_flag(DirtyFlag::Clipboard) == (ConfigDirtyFlags { clipboard: true, ..d }),
        d.with_flag(DirtyFlag::HotkeyOverlay) == (ConfigDirtyFlags { hotkey_overlay: true, ..d }),
        d.with_flag(DirtyFlag::ConfigNotification) == (ConfigDirtyFlags { config_notification: true, ..d }),
        d.with_flag(DirtyFlag::Debug) == (ConfigDirtyFlags { debug: true, ..d }),
        d.with_flag(DirtyFlag::XwaylandSatellite) == (ConfigDirtyFlags { xwayland_satellite: true, ..d }),
        d.with_flag(DirtyFlag::Misc) == (ConfigDirtyFlags { misc: true, ..d }),
        d.with_flag(DirtyFlag::SpawnAtStartup) == (ConfigDirtyFlags { spawn_at_startup: true, ..d }),
        d.with_flag(DirtyFlag::Environment) == (ConfigDirtyFlags { environment: true, ..d }),
        d.with_flag(DirtyFlag::Workspaces) == (ConfigDirtyFlags { workspaces: true, ..d }),
        d.flag(DirtyFlag::Input) == d.input,
        d.flag(DirtyFlag::Outputs) == d.outputs,
        d.flag(DirtyFlag::Layout) == d.layout,
        d.flag(DirtyFlag::Animations) == d.animations,
        d.flag(DirtyFlag::WindowRules) == d.window_rules,
        d.flag(DirtyFlag::LayerRules) == d.layer_rules,
        d.flag(DirtyFlag::Binds) == d.binds,
        d.flag(DirtyFlag::Cursor) == d.cursor,
        d.flag(DirtyFlag::Keyboard) == d.keyboard,
        d.flag(DirtyFlag::Gestures) == d.gestures,
        d.flag(DirtyFlag::Overview) == d.overview,
        d.flag(DirtyFlag::RecentWindows) == d.recent_windows,
        d.flag(DirtyFlag::Clipboard) == d.clipboard,
        d.flag(DirtyFlag::HotkeyOverlay) == d.hotkey_overlay,
        d.flag(DirtyFlag::ConfigNotification) == d.config_notification,
        d.flag(DirtyFlag::Debug) == d.debug,
        d.flag(DirtyFlag::XwaylandSatellite) == d.xwayland_satellite,
        d.flag(DirtyFlag::Misc) == d.misc,
        d.flag(DirtyFlag::SpawnAtStartup) == d.spawn_at_startup,
        d.flag(DirtyFlag::Environment) == d.environment,
        d.flag(DirtyFlag::Workspaces) == d.workspaces,
{
}

/// The no-argument method of the action proxy named `name` gives the
/// action of the same name (see `proxy_call`).
pub proof fn law_proxy_method_names_its_action<F>(name: Seq<char>)
    ensures
        proxy_plain_action::<F>(name) matches Some(a) ==> action_name(a) == name,
{
}

/// A bind table's action name, once normalized, names the action it gives:
/// the action's name in snake_case or without separators (see
/// `extract_action`).
pub proof fn law_bind_action_names_its_action<F>(k: Seq<char>)
    ensures
        plain_action::<F>(k) matches Some(a) ==> (action_name(a) == k || action_name_joined(a) == k),
{
}

/// The property at a path reads and writes the setting of that same path;
/// the one exception is `layout.shadow.off`, an inverted view of
/// `layout.shadow.on` (see `accessor_lookup`, `write_property`,
/// `read_property`).
pub proof fn law_property_names_its_setting(p: Seq<char>)
    ensures
        accessor_of(p) matches Some((field, k)) ==> (if k is InvertedFlag {
            p == "layout.shadow.off"@ && field@ == "layout.shadow.on"@
        } else {
            field@ == p
        }),
{
}

/// A JSON object gives a color whose components are read from the keys of
/// the same names: a component whose key holds an integer below 256 is that
/// integer, and a missing key gives 0 (255 for alpha) (see `json_to_color`).
pub proof fn law_object_color_components<F>(v: Json<F>, n: u64)
    requires
        v is Object,
        n < 256,
    ensures
        json_color(v) is Some,
        field_of(v, "r"@) == Some(Json::<F>::Number(JsonNumber::PosInt(n))) ==> json_color(v).unwrap().r == n,
        field_of(v, "g"@) == Some(Json::<F>::Number(JsonNumber::PosInt(n))) ==> json_color(v).unwrap().g == n,
        field_of(v, "b"@) == Some(Json::<F>::Number(JsonNumber::PosInt(n))) ==> json_color(v).unwrap().b == n,
        field_of(v, "a"@) == Some(Json::<F>::Number(JsonNumber::PosInt(n))) ==> json_color(v).unwrap().a == n,
        field_of(v, "r"@) is None ==> json_color(v).unwrap().r == 0,
        field_of(v, "g"@) is None ==> json_color(v).unwrap().g == 0,
        field_of(v, "b"@) is None ==> json_color(v).unwrap().b == 0,
        field_of(v, "a"@) is None ==> json_color(v).unwrap().a == 255,
{
}

} // verus!
