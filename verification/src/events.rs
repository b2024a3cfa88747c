//! Registration, removal and dispatch of event handlers.
//!
//! Handlers are grouped by event name. Each registration receives a fresh
//! numeric id; a handler registered as `once` is removed after it ran. A
//! failing handler never stops the others from running.
use vstd::prelude::*;
use mlua::{Error, Function, Lua, Value};
use crate::lua::{call_handler, function_belongs, function_of_runtime, value_belongs, value_of_runtime};
use crate::text::str_eq;

verus! {

/// Identifier of one registered handler.
pub type EventHandlerId = u64;

/// One registered event handler.
pub struct LuaEventHandler {
    pub id: EventHandlerId,
    pub callback: Function,
    pub once: bool,
}

/// The handlers of one event name.
struct EventEntry {
    name: String,
    handlers: Vec<LuaEventHandler>,
}

/// All registered handlers, grouped by event name.
pub struct EventHandlers {
    entries: Vec<EventEntry>,
    next_handler_id: EventHandlerId,
    /// The calls made so far, in order: the function called and the data it
    /// was given.
    calls: Ghost<Seq<(Function, Value)>>,
}

/// Statistics about the registered handlers.
pub struct EventSystemStats {
    pub total_handlers: usize,
    pub event_types: usize,
}

/// Position of the entry named `name`, or -1.
pub open spec fn index_of_name(names: Seq<Seq<char>>, name: Seq<char>) -> int
    decreases names.len(),
{
    if names.len() == 0 {
        -1
    } else if names.last() == name {
        names.len() - 1
    } else {
        index_of_name(names.drop_last(), name)
    }
}

/// The handlers that remain after one emission: every handler that is not
/// `once`, in order.
pub open spec fn persistent(hs: Seq<LuaEventHandler>) -> Seq<LuaEventHandler>
    decreases hs.len(),
{
    if hs.len() == 0 {
        Seq::empty()
    } else {
        let rest = persistent(hs.drop_last());
        if hs.last().once {
            rest
        } else {
            rest.push(hs.last())
        }
    }
}

/// The calls of the handlers `hs`, in order, each given `data`.
pub open spec fn calls_of(hs: Seq<LuaEventHandler>, data: Value) -> Seq<(Function, Value)> {
    hs.map_values(|h: LuaEventHandler| (h.callback, data))
}

/// `hs` without the first handler whose id is `id`.
pub open spec fn without_id(hs: Seq<LuaEventHandler>, id: EventHandlerId) -> Seq<LuaEventHandler>
    decreases hs.len(),
{
    if hs.len() == 0 {
        hs
    } else if hs[0].id == id {
        hs.drop_first()
    } else {
        seq![hs[0]] + without_id(hs.drop_first(), id)
    }
}

/// Whether some handler in `hs` has id `id`.
pub open spec fn has_id(hs: Seq<LuaEventHandler>, id: EventHandlerId) -> bool {
    exists|i: int| 0 <= i < hs.len() && #[trigger] hs[i].id == id
}

/// The ids in `hs` are pairwise distinct.
pub open spec fn distinct_ids(hs: Seq<LuaEventHandler>) -> bool {
    forall|i: int, j: int| 0 <= i < j < hs.len() ==> #[trigger] hs[i].id != #[trigger] hs[j].id
}

/// Number of handlers over all lists.
pub open spec fn sum_lengths(lists: Seq<Seq<LuaEventHandler>>) -> nat
    decreases lists.len(),
{
    if lists.len() == 0 {
        0
    } else {
        sum_lengths(lists.drop_last()) + lists.last().len()
    }
}

impl EventHandlers {
    /// The event names that have an entry, in the order first registered.
    pub closed spec fn names(&self) -> Seq<Seq<char>> {
        self.entries@.map_values(|e: EventEntry| e.name@)
    }

    /// The handler lists, in the order of `names`.
    pub closed spec fn lists(&self) -> Seq<Seq<LuaEventHandler>> {
        self.entries@.map_values(|e: EventEntry| e.handlers@)
    }

    /// The id the next registration receives.
    pub closed spec fn next_id(&self) -> EventHandlerId {
        self.next_handler_id
    }

    /// The calls made so far, in order: the function called and the data it
    /// was given.
    pub closed spec fn calls_made(&self) -> Seq<(Function, Value)> {
        self.calls@
    }

    /// Whether `name` has an entry.
    pub open spec fn has_event(&self, name: Seq<char>) -> bool {
        self.names().contains(name)
    }

    /// The handlers of `name`, in registration order; empty without an entry.
    pub open spec fn handlers_of(&self, name: Seq<char>) -> Seq<LuaEventHandler> {
        let i = index_of_name(self.names(), name);
        if 0 <= i { self.lists()[i] } else { Seq::empty() }
    }

    /// Number of registered handlers over all events.
    pub open spec fn total(&self) -> nat {
        sum_lengths(self.lists())
    }

    /// The registry's invariant: one entry per name, ids distinct and below the
    /// next id to be handed out, which is at least one.
    pub closed spec fn wf(&self) -> bool {
        &&& self.next_handler_id >= 1
        &&& self.names().no_duplicates()
        &&& forall|k: int, i: int|
            0 <= k < self.entries@.len() && 0 <= i < self.entries@[k].handlers@.len()
                ==> 1 <= #[trigger] self.entries@[k].handlers@[i].id < self.next_handler_id
        &&& forall|k: int| 0 <= k < self.entries@.len() ==> distinct_ids(#[trigger] self.entries@[k].handlers@)
    }

    /// Two registries agree on every event other than `name`.
    pub open spec fn same_except(&self, other: &Self, name: Seq<char>) -> bool {
        forall|n: Seq<char>| n != name ==> #[trigger] self.handlers_of(n) == other.handlers_of(n)
            && (self.has_event(n) == other.has_event(n))
    }

    /// The id that the next registration hands out is used by no handler.
    pub proof fn lemma_next_id_fresh(&self, name: Seq<char>)
        requires
            self.wf(),
        ensures
            !has_id(self.handlers_of(name), self.next_id()),
    {
        lemma_index_of_name(self.names(), name);
        let i = index_of_name(self.names(), name);
        if 0 <= i {
            assert(self.lists()[i] == self.entries@[i].handlers@);
            assert forall|j: int| 0 <= j < self.handlers_of(name).len() implies #[trigger] self.handlers_of(name)[j].id
                != self.next_id() by {
                assert(self.handlers_of(name)[j] == self.entries@[i].handlers@[j]);
            }
        }
    }

    /// The handlers of an event have distinct ids.
    pub proof fn lemma_handlers_distinct(&self, name: Seq<char>)
        requires
            self.wf(),
        ensures
            distinct_ids(self.handlers_of(name)),
    {
        lemma_index_of_name(self.names(), name);
        let i = index_of_name(self.names(), name);
        if 0 <= i {
            assert(self.lists()[i] == self.entries@[i].handlers@);
        }
    }

    /// An empty registry whose first id is 1.
    pub fn new() -> (r: Self)
        ensures
            r.wf(),
            r.names() == Seq::<Seq<char>>::empty(),
            r.next_id() == 1,
            r.total() == 0,
            r.calls_made() == Seq::<(Function, Value)>::empty(),
            forall|n: Seq<char>| #[trigger] r.handlers_of(n) == Seq::<LuaEventHandler>::empty(),
    {
        let r = EventHandlers { entries: Vec::new(), next_handler_id: 1, calls: Ghost(Seq::empty()) };
        assert(r.names() =~= Seq::<Seq<char>>::empty());
        r
    }

    fn find(&self, name: &str) -> (r: Option<usize>)
        ensures
            match r {
                Some(i) => i < self.entries@.len() && index_of_name(self.names(), name@) == i,
                None => index_of_name(self.names(), name@) == -1,
            },
    {
        let mut i = self.entries.len();
        assert(self.names().take(i as int) =~= self.names());
        while i > 0
            invariant
                i <= self.entries@.len(),
                index_of_name(self.names(), name@) == index_of_name(self.names().take(i as int), name@),
            decreases i,
        {
            let j = i - 1;
            assert(self.names().take(i as int).drop_last() =~= self.names().take(j as int));
            if str_eq(self.entries[j].name.as_str(), name) {
                return Some(j);
            }
            i = j;
        }
        None
    }

    /// Register `callback` for `event_type`; returns the id it received.
    pub fn register_handler(&mut self, event_type: &str, callback: Function, once: bool) -> (r: EventHandlerId)
        requires
            old(self).wf(),
            old(self).next_id() < u64::MAX,
        ensures
            final(self).wf(),
            r == old(self).next_id(),
            final(self).next_id() == old(self).next_id() + 1,
            final(self).handlers_of(event_type@) == old(self).handlers_of(event_type@).push(
                LuaEventHandler { id: r, callback: callback, once: once },
            ),
            final(self).has_event(event_type@),
            final(self).same_except(old(self), event_type@),
            final(self).total() == old(self).total() + 1,
            final(self).calls_made() == old(self).calls_made(),
    {
        let ghost old_self = *self;
        let handler_id = self.next_handler_id;
        self.next_handler_id = self.next_handler_id + 1;
        let handler = LuaEventHandler { id: handler_id, callback, once };
        proof { lemma_index_of_name(old_self.names(), event_type@); }
        match self.find(event_type) {
            Some(i) => {
                self.entries[i].handlers.push(handler);
                assert(self.names() =~= old_self.names());
                assert(self.lists() =~= old_self.lists().update(i as int, self.entries@[i as int].handlers@));
                proof { lemma_sum_update(old_self.lists(), i as int, self.entries@[i as int].handlers@); }
                assert forall|n: Seq<char>| n != event_type@ implies #[trigger] self.handlers_of(n)
                    == old_self.handlers_of(n) && (self.has_event(n) == old_self.has_event(n)) by {
                    lemma_index_of_name(old_self.names(), n);
                }
                assert forall|k: int| 0 <= k < self.entries@.len() implies distinct_ids(
                    #[trigger] self.entries@[k].handlers@) by {
                    if k == i {
                        assert(self.entries@[k].handlers@ == old_self.entries@[k].handlers@.push(handler));
                    }
                }
            },
            None => {
                let mut hs: Vec<LuaEventHandler> = Vec::new();
                hs.push(handler);
                self.entries.push(EventEntry { name: event_type.to_string(), handlers: hs });
                assert(self.names() =~= old_self.names().push(event_type@));
                assert(self.lists() =~= old_self.lists().push(hs@));
                proof { lemma_sum_push(old_self.lists(), hs@); }
                assert(self.names().drop_last() =~= old_self.names());
                assert(self.names()[old_self.names().len() as int] == event_type@);
                assert forall|n: Seq<char>| n != event_type@ implies #[trigger] self.handlers_of(n)
                    == old_self.handlers_of(n) && (self.has_event(n) == old_self.has_event(n)) by {
                    lemma_index_of_name(old_self.names(), n);
                    if self.names().contains(n) {
                        let j = choose|j: int| 0 <= j < self.names().len() && self.names()[j] == n;
                        assert(old_self.names()[j] == n);
                    }
                }
                proof {
                    lemma_no_duplicates_push(old_self.names(), event_type@);
                }
            },
        }
        handler_id
    }

    /// Remove the handler with id `handler_id` from `event_type`; whether it
    /// was found. The event keeps its entry, even when its list becomes empty.
    pub fn unregister_handler(&mut self, event_type: &str, handler_id: EventHandlerId) -> (r: bool)
        requires
            old(self).wf(),
        ensures
            final(self).wf(),
            r == has_id(old(self).handlers_of(event_type@), handler_id),
            final(self).handlers_of(event_type@) == without_id(old(self).handlers_of(event_type@), handler_id),
            final(self).has_event(event_type@) == old(self).has_event(event_type@),
            final(self).same_except(old(self), event_type@),
            final(self).next_id() == old(self).next_id(),
            final(self).total() == old(self).total() - (if r { 1int } else { 0int }),
            final(self).calls_made() == old(self).calls_made(),
    {
        let ghost old_self = *self;
        proof { lemma_index_of_name(old_self.names(), event_type@); }
        match self.find(event_type) {
            Some(i) => {
                let ghost hs = old_self.entries@[i as int].handlers@;
                assert(old_self.lists()[i as int] == hs);
                assert(old_self.handlers_of(event_type@) == hs);
                let mut pos: usize = 0;
                let len = self.entries[i].handlers.len();
                while pos < len
                    invariant
                        i < self.entries@.len(),
                        *self == old_self,
                        old_self.wf(),
                        index_of_name(old_self.names(), event_type@) == i,
                        old_self.names()[i as int] == event_type@,
                        old_self.handlers_of(event_type@) == hs,
                        old_self == *old(self),
                        len == hs.len(),
                        hs == self.entries@[i as int].handlers@,
                        pos <= len,
                        forall|j: int| 0 <= j < pos ==> #[trigger] hs[j].id != handler_id,
                    decreases len - pos,
                {
                    if self.entries[i].handlers[pos].id == handler_id {
                        proof { lemma_without_id_at(hs, handler_id, pos as int); }
                        let _removed = self.entries[i].handlers.remove(pos);
                        assert(self.names() =~= old_self.names());
                        assert(self.lists() =~= old_self.lists().update(i as int, self.entries@[i as int].handlers@));
                        proof { lemma_sum_update(old_self.lists(), i as int, self.entries@[i as int].handlers@); }
                        assert forall|n: Seq<char>| n != event_type@ implies #[trigger] self.handlers_of(n)
                            == old_self.handlers_of(n) && (self.has_event(n) == old_self.has_event(n)) by {
                            lemma_index_of_name(old_self.names(), n);
                        }
                        assert(self.handlers_of(event_type@) == without_id(hs, handler_id));
                        assert forall|k: int| 0 <= k < self.entries@.len() implies distinct_ids(
                            #[trigger] self.entries@[k].handlers@) by {
                            if k == i {
                                assert forall|a: int, b: int| 0 <= a < b < self.entries@[k].handlers@.len()
                                    implies #[trigger] self.entries@[k].handlers@[a].id
                                    != #[trigger] self.entries@[k].handlers@[b].id by {
                                    let a0 = if a < pos { a } else { a + 1 };
                                    let b0 = if b < pos { b } else { b + 1 };
                                    assert(self.entries@[k].handlers@[a] == hs[a0]);
                                    assert(self.entries@[k].handlers@[b] == hs[b0]);
                                }
                            }
                        }
                        assert forall|k: int, j: int|
                            0 <= k < self.entries@.len() && 0 <= j < self.entries@[k].handlers@.len()
                            implies 1 <= #[trigger] self.entries@[k].handlers@[j].id < self.next_handler_id by {
                            if k == i {
                                let j0 = if j < pos { j } else { j + 1 };
                                assert(self.entries@[k].handlers@[j] == hs[j0]);
                            }
                        }
                        return true;
                    }
                    pos = pos + 1;
                }
                proof { lemma_without_id_absent(hs, handler_id); }
                false
            },
            None => {
                assert(old_self.handlers_of(event_type@) =~= Seq::<LuaEventHandler>::empty());
                false
            },
        }
    }

    /// Number of handlers registered for `event_type`.
    pub fn handler_count(&self, event_type: &str) -> (r: usize)
        requires
            self.wf(),
        ensures
            r == self.handlers_of(event_type@).len(),
    {
        proof { lemma_index_of_name(self.names(), event_type@); }
        match self.find(event_type) {
            Some(i) => self.entries[i].handlers.len(),
            None => 0,
        }
    }

    /// Number of handlers registered over all events.
    pub fn total_handlers(&self) -> (r: usize)
        requires
            self.wf(),
            self.total() <= usize::MAX,
        ensures
            r == self.total(),
    {
        let mut sum: usize = 0;
        let mut k: usize = 0;
        while k < self.entries.len()
            invariant
                k <= self.entries@.len(),
                sum == sum_lengths(self.lists().take(k as int)),
                self.total() <= usize::MAX,
            decreases self.entries@.len() - k,
        {
            assert(self.lists().take(k + 1).drop_last() =~= self.lists().take(k as int));
            proof { lemma_sum_lengths_prefix(self.lists(), k as int + 1); }
            sum = sum + self.entries[k].handlers.len();
            k = k + 1;
        }
        assert(self.lists().take(k as int) =~= self.lists());
        sum
    }

    /// Remove every handler of `event_type`, and its entry.
    pub fn clear_event(&mut self, event_type: &str)
        requires
            old(self).wf(),
        ensures
            final(self).wf(),
            !final(self).has_event(event_type@),
            final(self).handlers_of(event_type@) == Seq::<LuaEventHandler>::empty(),
            final(self).same_except(old(self), event_type@),
            final(self).next_id() == old(self).next_id(),
            final(self).total() == old(self).total() - old(self).handlers_of(event_type@).len(),
            final(self).calls_made() == old(self).calls_made(),
    {
        let ghost old_self = *self;
        proof { lemma_index_of_name(old_self.names(), event_type@); }
        if let Some(i) = self.find(event_type) {
            let _removed = self.entries.remove(i);
            assert(self.names() =~= old_self.names().remove(i as int));
            assert(self.lists() =~= old_self.lists().remove(i as int));
            proof {
                lemma_sum_remove(old_self.lists(), i as int);
                lemma_remove_name(old_self.names(), old_self.lists(), i as int);
                lemma_index_of_name(self.names(), event_type@);
            }
            assert forall|k: int, j: int|
                0 <= k < self.entries@.len() && 0 <= j < self.entries@[k].handlers@.len()
                implies 1 <= #[trigger] self.entries@[k].handlers@[j].id < self.next_handler_id by {
                let k0 = if k < i { k } else { k + 1 };
                assert(self.entries@[k] == old_self.entries@[k0]);
            }
            assert forall|k: int| 0 <= k < self.entries@.len() implies distinct_ids(
                #[trigger] self.entries@[k].handlers@) by {
                let k0 = if k < i { k } else { k + 1 };
                assert(self.entries@[k] == old_self.entries@[k0]);
            }
        }
    }

    /// Remove every handler of every event and hand out ids from 1 again.
    pub fn clear_all(&mut self)
        requires
            old(self).wf(),
        ensures
            final(self).wf(),
            final(self).names() == Seq::<Seq<char>>::empty(),
            final(self).next_id() == 1,
            final(self).total() == 0,
            final(self).calls_made() == old(self).calls_made(),
            forall|n: Seq<char>| #[trigger] final(self).handlers_of(n) == Seq::<LuaEventHandler>::empty(),
    {
        self.entries = Vec::new();
        self.next_handler_id = 1;
        assert(self.names() =~= Seq::<Seq<char>>::empty());
        assert(self.lists() =~= Seq::<Seq<LuaEventHandler>>::empty());
    }

    /// The event names that have an entry.
    pub fn event_types(&self) -> (r: Vec<String>)
        ensures
            r@.len() == self.names().len(),
            forall|i: int| 0 <= i < r@.len() ==> #[trigger] r@[i]@ == self.names()[i],
    {
        let mut r: Vec<String> = Vec::new();
        let mut k: usize = 0;
        while k < self.entries.len()
            invariant
                k <= self.entries@.len(),
                r@.len() == k,
                forall|i: int| 0 <= i < k ==> #[trigger] r@[i]@ == self.names()[i],
            decreases self.entries@.len() - k,
        {
            r.push(self.entries[k].name.clone());
            k = k + 1;
        }
        r
    }

    /// Statistics about the registered handlers.
    pub fn stats(&self) -> (r: EventSystemStats)
        requires
            self.wf(),
            self.total() <= usize::MAX,
        ensures
            r.total_handlers == self.total(),
            r.event_types == self.names().len(),
    {
        EventSystemStats { total_handlers: self.total_handlers(), event_types: self.entries.len() }
    }

    /// Every handler of `name` belongs to the runtime `lua`.
    pub open spec fn callable_from(&self, lua: Lua, name: Seq<char>) -> bool {
        forall|j: int| 0 <= j < self.handlers_of(name).len() ==> function_of_runtime(
            #[trigger] self.handlers_of(name)[j].callback,
            lua,
        )
    }

    /// Whether `event_type` can be emitted with `event_data` in the runtime
    /// `lua`: the data and every handler of the event belong to it.
    pub fn can_emit(&self, lua: &Lua, event_type: &str, event_data: &Value) -> (r: bool)
        requires
            self.wf(),
        ensures
            r == (self.callable_from(*lua, event_type@) && value_of_runtime(*event_data, *lua)),
    {
        proof { lemma_index_of_name(self.names(), event_type@); }
        if !value_belongs(lua, event_data) {
            return false;
        }
        match self.find(event_type) {
            None => {
                assert(self.handlers_of(event_type@) =~= Seq::<LuaEventHandler>::empty());
                true
            },
            Some(i) => {
                assert(self.lists()[i as int] == self.entries@[i as int].handlers@);
                let mut k: usize = 0;
                while k < self.entries[i].handlers.len()
                    invariant
                        i < self.entries@.len(),
                        self.handlers_of(event_type@) == self.entries@[i as int].handlers@,
                        k <= self.entries@[i as int].handlers@.len(),
                        forall|j: int| 0 <= j < k ==> function_of_runtime(
                            #[trigger] self.handlers_of(event_type@)[j].callback,
                            *lua,
                        ),
                    decreases self.entries@[i as int].handlers@.len() - k,
                {
                    if !function_belongs(lua, &self.entries[i].handlers[k].callback) {
                        return false;
                    }
                    k = k + 1;
                }
                true
            },
        }
    }

    /// Call every handler of `event_type` with `event_data`, in registration
    /// order: each is called once, with `event_data`. A failing handler does
    /// not stop the others; every `once` handler is removed after it ran.
    /// Always returns `Ok`. The handlers and the data must belong to the
    /// runtime `lua` (a call with a handle of another Lua state panics).
    pub fn emit_event(&mut self, lua: &Lua, event_type: &str, event_data: Value) -> (r: Result<(), Error>)
        requires
            old(self).wf(),
            old(self).callable_from(*lua, event_type@),
            value_of_runtime(event_data, *lua),
        ensures
            final(self).wf(),
            r is Ok,
            final(self).calls_made() == old(self).calls_made() + calls_of(old(self).handlers_of(event_type@), event_data),
            final(self).handlers_of(event_type@) == persistent(old(self).handlers_of(event_type@)),
            final(self).next_id() == old(self).next_id(),
            final(self).has_event(event_type@) == old(self).has_event(event_type@),
            final(self).same_except(old(self), event_type@),
            final(self).total() == old(self).total() - old(self).handlers_of(event_type@).len()
                + persistent(old(self).handlers_of(event_type@)).len(),
    {
        let ghost old_self = *self;
        proof { lemma_index_of_name(old_self.names(), event_type@); }
        match self.find(event_type) {
            None => {
                assert(old_self.handlers_of(event_type@) =~= Seq::<LuaEventHandler>::empty());
                assert(persistent(Seq::<LuaEventHandler>::empty()) =~= Seq::<LuaEventHandler>::empty());
                assert(calls_of(Seq::<LuaEventHandler>::empty(), event_data) =~= Seq::<(Function, Value)>::empty());
                assert(self.calls@ + Seq::<(Function, Value)>::empty() =~= self.calls@);
            },
            Some(i) => {
                let ghost orig = old_self.entries@[i as int].handlers@;
                assert(old_self.lists()[i as int] == orig);
                assert(old_self.handlers_of(event_type@) == orig);
                let mut rest: Vec<LuaEventHandler> = Vec::new();
                std::mem::swap(&mut rest, &mut self.entries[i].handlers);
                assert(rest@ == orig);
                let mut kept: Vec<LuaEventHandler> = Vec::new();
                let ghost mut n: int = 0;
                let ghost mut called: Seq<(Function, Value)> = Seq::empty();
                assert(orig.skip(0) =~= orig);
                assert(orig.take(0) =~= Seq::<LuaEventHandler>::empty());
                assert(calls_of(orig.take(0), event_data) =~= called);
                while rest.len() > 0
                    invariant
                        0 <= n <= orig.len(),
                        rest@ == orig.skip(n),
                        kept@ == persistent(orig.take(n)),
                        called == calls_of(orig.take(n), event_data),
                        forall|j: int| 0 <= j < orig.len() ==> function_of_runtime(#[trigger] orig[j].callback, *lua),
                        value_of_runtime(event_data, *lua),
                    decreases rest@.len(),
                {
                    let h = rest.remove(0);
                    assert(h == orig[n]);
                    let (_outcome, record) = call_handler(lua, &h.callback, &event_data);
                    proof {
                        called = called.push(record@);
                        assert(orig.take(n + 1).drop_last() =~= orig.take(n));
                        assert(calls_of(orig.take(n + 1), event_data) =~= calls_of(orig.take(n), event_data).push(
                            (h.callback, event_data),
                        ));
                        assert(orig.skip(n + 1) =~= orig.skip(n).drop_first());
                        n = n + 1;
                    }
                    if !h.once {
                        kept.push(h);
                    }
                }
                assert(orig.take(n) =~= orig);
                proof { lemma_persistent(orig); }
                self.entries[i].handlers = kept;
                self.calls = Ghost(self.calls@ + called);
                assert(self.names() =~= old_self.names());
                assert(self.lists() =~= old_self.lists().update(i as int, kept@));
                proof { lemma_sum_update(old_self.lists(), i as int, kept@); }
                assert forall|m: Seq<char>| m != event_type@ implies #[trigger] self.handlers_of(m)
                    == old_self.handlers_of(m) && (self.has_event(m) == old_self.has_event(m)) by {
                    lemma_index_of_name(old_self.names(), m);
                }
                assert(old_self.handlers_of(event_type@) == orig);
                assert(self.handlers_of(event_type@) == persistent(orig));
                assert forall|k: int, j: int|
                    0 <= k < self.entries@.len() && 0 <= j < self.entries@[k].handlers@.len()
                    implies 1 <= #[trigger] self.entries@[k].handlers@[j].id < self.next_handler_id by {
                    if k == i {
                        let j0 = choose|j0: int| 0 <= j0 < orig.len() && kept@[j] == orig[j0];
                        assert(old_self.entries@[k].handlers@[j0] == orig[j0]);
                    }
                }
            },
        }
        Ok(())
    }
}

impl Default for EventHandlers {
    fn default() -> (r: Self)
        ensures
            r.wf(),
            r.names() == Seq::<Seq<char>>::empty(),
            r.next_id() == 1,
    {
        Self::new()
    }
}

proof fn lemma_sum_update(lists: Seq<Seq<LuaEventHandler>>, i: int, l: Seq<LuaEventHandler>)
    requires
        0 <= i < lists.len(),
    ensures
        sum_lengths(lists.update(i, l)) == sum_lengths(lists) - lists[i].len() + l.len(),
    decreases lists.len(),
{
    if i == lists.len() - 1 {
        assert(lists.update(i, l).drop_last() =~= lists.drop_last());
    } else {
        lemma_sum_update(lists.drop_last(), i, l);
        assert(lists.update(i, l).drop_last() =~= lists.drop_last().update(i, l));
    }
}

proof fn lemma_sum_push(lists: Seq<Seq<LuaEventHandler>>, l: Seq<LuaEventHandler>)
    ensures
        sum_lengths(lists.push(l)) == sum_lengths(lists) + l.len(),
{
    assert(lists.push(l).drop_last() =~= lists);
}

proof fn lemma_sum_remove(lists: Seq<Seq<LuaEventHandler>>, i: int)
    requires
        0 <= i < lists.len(),
    ensures
        sum_lengths(lists.remove(i)) == sum_lengths(lists) - lists[i].len(),
    decreases lists.len(),
{
    if i == lists.len() - 1 {
        assert(lists.remove(i) =~= lists.drop_last());
    } else {
        lemma_sum_remove(lists.drop_last(), i);
        assert(lists.remove(i).drop_last() =~= lists.drop_last().remove(i));
        assert(lists.remove(i).last() == lists.last());
    }
}

proof fn lemma_sum_lengths_prefix(lists: Seq<Seq<LuaEventHandler>>, k: int)
    requires
        0 < k <= lists.len(),
    ensures
        sum_lengths(lists.take(k)) == sum_lengths(lists.take(k - 1)) + lists[k - 1].len(),
        sum_lengths(lists.take(k)) <= sum_lengths(lists),
    decreases lists.len() - k,
{
    assert(lists.take(k).drop_last() =~= lists.take(k - 1));
    if k < lists.len() {
        lemma_sum_lengths_prefix(lists, k + 1);
    } else {
        assert(lists.take(k) =~= lists);
    }
}

proof fn lemma_remove_name(names: Seq<Seq<char>>, lists: Seq<Seq<LuaEventHandler>>, i: int)
    requires
        names.no_duplicates(),
        names.len() == lists.len(),
        0 <= i < names.len(),
    ensures
        names.remove(i).no_duplicates(),
        !names.remove(i).contains(names[i]),
        forall|n: Seq<char>| n != names[i] ==> (#[trigger] names.remove(i).contains(n) == names.contains(n)),
        forall|n: Seq<char>| #![trigger index_of_name(names, n)] n != names[i] ==> {
            let a = index_of_name(names.remove(i), n);
            let b = index_of_name(names, n);
            (a >= 0 ==> lists.remove(i)[a] == lists[b]) && (a >= 0 <==> b >= 0)
        },
{
    let r = names.remove(i);
    assert forall|a: int, b: int| 0 <= a < b < r.len() implies r[a] != r[b] by {
        let a0 = if a < i { a } else { a + 1 };
        let b0 = if b < i { b } else { b + 1 };
        assert(r[a] == names[a0] && r[b] == names[b0]);
    }
    if r.contains(names[i]) {
        let j = choose|j: int| 0 <= j < r.len() && r[j] == names[i];
        let j0 = if j < i { j } else { j + 1 };
        assert(names[j0] == names[i]);
    }
    assert forall|n: Seq<char>| n != names[i] implies (#[trigger] r.contains(n) == names.contains(n)) by {
        if r.contains(n) {
            let j = choose|j: int| 0 <= j < r.len() && r[j] == n;
            let j0 = if j < i { j } else { j + 1 };
            assert(names[j0] == n);
        }
        if names.contains(n) {
            let j = choose|j: int| 0 <= j < names.len() && names[j] == n;
            let j1 = if j < i { j } else { j - 1 };
            assert(r[j1] == n);
        }
    }
    assert forall|n: Seq<char>| #![trigger index_of_name(names, n)] n != names[i] implies {
        let a = index_of_name(names.remove(i), n);
        let b = index_of_name(names, n);
        (a >= 0 ==> lists.remove(i)[a] == lists[b]) && (a >= 0 <==> b >= 0)
    } by {
        lemma_index_of_name(r, n);
        lemma_index_of_name(names, n);
        let a = index_of_name(r, n);
        if a >= 0 {
            let a0 = if a < i { a } else { a + 1 };
            assert(names[a0] == n);
            assert(lists.remove(i)[a] == lists[a0]);
        }
    }
}

proof fn lemma_persistent(hs: Seq<LuaEventHandler>)
    ensures
        forall|j: int| 0 <= j < persistent(hs).len() ==> exists|k: int|
            0 <= k < hs.len() && #[trigger] persistent(hs)[j] == hs[k],
        distinct_ids(hs) ==> distinct_ids(persistent(hs)),
    decreases hs.len(),
{
    if hs.len() > 0 {
        let init = hs.drop_last();
        lemma_persistent(init);
        let rest = persistent(init);
        let r = persistent(hs);
        assert forall|j: int| 0 <= j < r.len() implies exists|k: int|
            0 <= k < hs.len() && #[trigger] r[j] == hs[k] by {
            if j < rest.len() {
                let k = choose|k: int| 0 <= k < init.len() && rest[j] == init[k];
                assert(r[j] == hs[k]);
            } else {
                assert(r[j] == hs[hs.len() - 1]);
            }
        }
        if distinct_ids(hs) {
            assert(distinct_ids(init));
            assert forall|a: int, b: int| 0 <= a < b < r.len() implies #[trigger] r[a].id != #[trigger] r[b].id by {
                if b < rest.len() {
                    assert(r[a] == rest[a] && r[b] == rest[b]);
                } else {
                    let ka = choose|k: int| 0 <= k < init.len() && rest[a] == init[k];
                    assert(r[a] == hs[ka]);
                    assert(r[b] == hs[hs.len() - 1]);
                }
            }
        }
    }
}

proof fn lemma_index_of_name(names: Seq<Seq<char>>, n: Seq<char>)
    ensures
        -1 <= index_of_name(names, n) < names.len(),
        index_of_name(names, n) >= 0 ==> names[index_of_name(names, n)] == n,
        (index_of_name(names, n) == -1) == !names.contains(n),
        names.no_duplicates() ==> forall|j: int|
            0 <= j < names.len() && #[trigger] names[j] == n ==> j == index_of_name(names, n),
    decreases names.len(),
{
    if names.len() > 0 {
        let init = names.drop_last();
        lemma_index_of_name(init, n);
        if names.last() != n {
            if names.contains(n) {
                let j = choose|j: int| 0 <= j < names.len() && names[j] == n;
                assert(init[j] == n);
            }
            if init.contains(n) {
                let j = choose|j: int| 0 <= j < init.len() && init[j] == n;
                assert(names[j] == n);
            }
        } else {
            assert(names[names.len() - 1] == n);
        }
    }
}

proof fn lemma_no_duplicates_push(names: Seq<Seq<char>>, n: Seq<char>)
    requires
        names.no_duplicates(),
        !names.contains(n),
    ensures
        names.push(n).no_duplicates(),
{
    assert forall|i: int, j: int| 0 <= i < j < names.push(n).len() implies names.push(n)[i]
        != names.push(n)[j] by {
        if j == names.len() {
            assert(names[i] == names.push(n)[i]);
        }
    }
}

proof fn lemma_without_id_at(hs: Seq<LuaEventHandler>, id: EventHandlerId, pos: int)
    requires
        0 <= pos < hs.len(),
        hs[pos].id == id,
        forall|j: int| 0 <= j < pos ==> #[trigger] hs[j].id != id,
    ensures
        without_id(hs, id) == hs.remove(pos),
        has_id(hs, id),
    decreases pos,
{
    if pos > 0 {
        lemma_without_id_at(hs.drop_first(), id, pos - 1);
        assert(hs.remove(pos) =~= seq![hs[0]] + hs.drop_first().remove(pos - 1));
    } else {
        assert(hs.remove(0) =~= hs.drop_first());
    }
}

/// Removing the id of a handler added at the end of a list that lacks that id
/// gives the list back.
pub proof fn lemma_without_id_absent_push(hs: Seq<LuaEventHandler>, h: LuaEventHandler)
    requires
        !has_id(hs, h.id),
    ensures
        without_id(hs.push(h), h.id) == hs,
{
    lemma_without_id_at(hs.push(h), h.id, hs.len() as int);
    assert(hs.push(h).remove(hs.len() as int) =~= hs);
}

proof fn lemma_without_id_absent(hs: Seq<LuaEventHandler>, id: EventHandlerId)
    requires
        forall|j: int| 0 <= j < hs.len() ==> #[trigger] hs[j].id != id,
    ensures
        without_id(hs, id) == hs,
        !has_id(hs, id),
    decreases hs.len(),
{
    if hs.len() > 0 {
        lemma_without_id_absent(hs.drop_first(), id);
        assert(hs =~= seq![hs[0]] + hs.drop_first());
    }
}

} // verus!
