//! The DOM `Event` and `EventTarget` interfaces: the listener list of a target, adding and
//! removing listeners, and dispatching an event to the listeners at the target.

use vstd::prelude::*;
use crate::value::{spec_to_boolean, CallArgs, ErrorKind, HostRequest, JsError, JsValue, ObjectRef, Reason};

verus! {

/// The `NONE` constant of `Event`: no event phase.
pub const NONE: u32 = 0;

/// The `CAPTURING_PHASE` constant of `Event`.
pub const CAPTURING_PHASE: u32 = 1;

/// The `AT_TARGET` constant of `Event`.
pub const AT_TARGET: u32 = 2;

/// The `BUBBLING_PHASE` constant of `Event`.
pub const BUBBLING_PHASE: u32 = 3;

/// The phase an event is in.
#[derive(Debug, Clone, Copy, PartialEq, Eq, Structural)]
pub enum EventPhase {
    /// Not being dispatched (`NONE`).
    Idle,
    /// Going down towards the target.
    CapturingPhase,
    /// At the target.
    AtTarget,
    /// Going up from the target.
    BubblingPhase,
}

/// The state of an `Event` object.
pub struct Event {
    /// The event's `type`.
    pub event_type: String,
    /// The `bubbles` attribute.
    pub bubbles: bool,
    /// The `cancelable` attribute.
    pub cancelable: bool,
    /// The `composed` attribute.
    pub composed: bool,
    /// The `target` attribute.
    pub target: Option<ObjectRef>,
    /// The dispatch flag.
    pub dispatch_flag: bool,
    /// The initialized flag.
    pub initialized_flag: bool,
    /// The `isTrusted` attribute.
    pub is_trusted: bool,
    /// The stop propagation flag.
    pub stop_propagation_flag: bool,
    /// The stop immediate propagation flag.
    pub stop_immediate_propagation_flag: bool,
    /// The canceled flag.
    pub cancelled_flag: bool,
    /// The in passive listener flag.
    pub in_passive_listener_flag: bool,
    /// The `eventPhase` attribute.
    pub event_phase: EventPhase,
}

/// The state of an event as a mathematical value.
pub struct EventView {
    /// The event's type.
    pub event_type: Seq<char>,
    /// `bubbles`.
    pub bubbles: bool,
    /// `cancelable`.
    pub cancelable: bool,
    /// `composed`.
    pub composed: bool,
    /// `target`.
    pub target: Option<ObjectRef>,
    /// The dispatch flag.
    pub dispatch_flag: bool,
    /// The initialized flag.
    pub initialized_flag: bool,
    /// `isTrusted`.
    pub is_trusted: bool,
    /// The stop propagation flag.
    pub stop_propagation_flag: bool,
    /// The stop immediate propagation flag.
    pub stop_immediate_propagation_flag: bool,
    /// The canceled flag.
    pub cancelled_flag: bool,
    /// The in passive listener flag.
    pub in_passive_listener_flag: bool,
    /// `eventPhase`.
    pub event_phase: EventPhase,
}

impl View for Event {
    type V = EventView;

    open spec fn view(&self) -> EventView {
        EventView {
            event_type: self.event_type@,
            bubbles: self.bubbles,
            cancelable: self.cancelable,
            composed: self.composed,
            target: self.target,
            dispatch_flag: self.dispatch_flag,
            initialized_flag: self.initialized_flag,
            is_trusted: self.is_trusted,
            stop_propagation_flag: self.stop_propagation_flag,
            stop_immediate_propagation_flag: self.stop_immediate_propagation_flag,
            cancelled_flag: self.cancelled_flag,
            in_passive_listener_flag: self.in_passive_listener_flag,
            event_phase: self.event_phase,
        }
    }
}

/// The `eventInitDict` of the `Event` constructor, as read by the engine.
#[derive(Debug, Clone, Copy, PartialEq, Eq, Structural)]
pub struct EventInit {
    /// `bubbles`, false by default.
    pub bubbles: bool,
    /// `cancelable`, false by default.
    pub cancelable: bool,
    /// `composed`, false by default.
    pub composed: bool,
}

/// The number of an event phase, as `eventPhase` gives it.
pub open spec fn phase_number(p: EventPhase) -> u32 {
    match p {
        EventPhase::Idle => NONE,
        EventPhase::CapturingPhase => CAPTURING_PHASE,
        EventPhase::AtTarget => AT_TARGET,
        EventPhase::BubblingPhase => BUBBLING_PHASE,
    }
}

/// `eventPhase` numbers the phases as the `Event` constants do: `NONE` is 0, `CAPTURING_PHASE`
/// 1, `AT_TARGET` 2 and `BUBBLING_PHASE` 3, and no two phases share a number.
pub proof fn lemma_phase_numbers(p: EventPhase, q: EventPhase)
    ensures
        phase_number(EventPhase::Idle) == 0 && NONE == 0,
        phase_number(EventPhase::CapturingPhase) == 1 && CAPTURING_PHASE == 1,
        phase_number(EventPhase::AtTarget) == 2 && AT_TARGET == 2,
        phase_number(EventPhase::BubblingPhase) == 3 && BUBBLING_PHASE == 3,
        phase_number(p) == phase_number(q) ==> p == q,
{
}

impl Event {
    /// The `Event(type, eventInitDict)` constructor: an initialized, untrusted event of
    /// that type, with the given flags, no target, not in any phase.
    pub fn constructor(event_type: String, init: EventInit) -> (r: Event)
        ensures
            r@ == (EventView {
                event_type: event_type@,
                bubbles: init.bubbles,
                cancelable: init.cancelable,
                composed: init.composed,
                target: None,
                dispatch_flag: false,
                initialized_flag: true,
                is_trusted: false,
                stop_propagation_flag: false,
                stop_immediate_propagation_flag: false,
                cancelled_flag: false,
                in_passive_listener_flag: false,
                event_phase: EventPhase::Idle,
            }),
    {
        Event {
            event_type,
            bubbles: init.bubbles,
            cancelable: init.cancelable,
            composed: init.composed,
            target: None,
            dispatch_flag: false,
            initialized_flag: true,
            is_trusted: false,
            stop_propagation_flag: false,
            stop_immediate_propagation_flag: false,
            cancelled_flag: false,
            in_passive_listener_flag: false,
            event_phase: EventPhase::Idle,
        }
    }

    /// The `type` getter.
    pub fn event_type(&self) -> (r: String)
        ensures
            r@ == self@.event_type,
    {
        self.event_type.clone()
    }

    /// The `bubbles` getter.
    pub fn bubbles(&self) -> (r: bool)
        ensures
            r == self@.bubbles,
    {
        self.bubbles
    }

    /// The `cancelable` getter.
    pub fn cancelable(&self) -> (r: bool)
        ensures
            r == self@.cancelable,
    {
        self.cancelable
    }

    /// The `composed` getter.
    pub fn composed(&self) -> (r: bool)
        ensures
            r == self@.composed,
    {
        self.composed
    }

    /// The `isTrusted` getter.
    pub fn is_trusted(&self) -> (r: bool)
        ensures
            r == self@.is_trusted,
    {
        self.is_trusted
    }

    /// The `target` getter: `None` stands for `null`.
    pub fn target(&self) -> (r: Option<ObjectRef>)
        ensures
            r == self@.target,
    {
        self.target
    }

    /// The `eventPhase` getter.
    pub fn event_phase(&self) -> (r: u32)
        ensures
            r == phase_number(self@.event_phase),
            r == (match self@.event_phase {
                EventPhase::Idle => 0u32,
                EventPhase::CapturingPhase => 1u32,
                EventPhase::AtTarget => 2u32,
                EventPhase::BubblingPhase => 3u32,
            }),
    {
        match self.event_phase {
            EventPhase::Idle => NONE,
            EventPhase::CapturingPhase => CAPTURING_PHASE,
            EventPhase::AtTarget => AT_TARGET,
            EventPhase::BubblingPhase => BUBBLING_PHASE,
        }
    }

    /// The `defaultPrevented` getter: the canceled flag.
    pub fn default_prevented(&self) -> (r: bool)
        ensures
            r == self@.cancelled_flag,
    {
        self.cancelled_flag
    }

    /// `preventDefault()`: sets the canceled flag if the event is cancelable and no
    /// passive listener is running.
    pub fn prevent_default(&mut self)
        ensures
            final(self)@ == (EventView {
                cancelled_flag: old(self)@.cancelled_flag || (old(self)@.cancelable && !old(self)@.in_passive_listener_flag),
                ..old(self)@
            }),
    {
        if self.cancelable && !self.in_passive_listener_flag {
            self.cancelled_flag = true;
        }
    }

    /// `stopPropagation()`: sets the stop propagation flag.
    pub fn stop_propagation(&mut self)
        ensures
            final(self)@ == (EventView { stop_propagation_flag: true, ..old(self)@ }),
    {
        self.stop_propagation_flag = true;
    }

    /// `stopImmediatePropagation()`: sets the stop propagation and stop immediate
    /// propagation flags.
    pub fn stop_immediate_propagation(&mut self)
        ensures
            final(self)@ == (EventView { stop_propagation_flag: true, stop_immediate_propagation_flag: true, ..old(self)@ }),
    {
        self.stop_propagation_flag = true;
        self.stop_immediate_propagation_flag = true;
    }

    /// `initEvent(type, bubbles, cancelable)`: no effect while the event is being
    /// dispatched; otherwise the event is initialized anew with these values, its
    /// propagation and canceled flags unset, untrusted and without target.
    pub fn init_event(&mut self, event_type: String, bubbles: bool, cancelable: bool)
        ensures
            old(self)@.dispatch_flag ==> final(self)@ == old(self)@,
            !old(self)@.dispatch_flag ==> final(self)@ == (EventView {
                event_type: event_type@,
                bubbles,
                cancelable,
                initialized_flag: true,
                stop_propagation_flag: false,
                stop_immediate_propagation_flag: false,
                cancelled_flag: false,
                is_trusted: false,
                target: None,
                ..old(self)@
            }),
    {
        if self.dispatch_flag {
            return;
        }
        self.initialized_flag = true;
        self.stop_propagation_flag = false;
        self.stop_immediate_propagation_flag = false;
        self.cancelled_flag = false;
        self.is_trusted = false;
        self.target = None;
        self.event_type = event_type;
        self.bubbles = bubbles;
        self.cancelable = cancelable;
    }

    /// The names of the constants of the `Event` constructor, in order.
    pub fn constant_names() -> (r: Vec<&'static str>)
        ensures
            r@.len() == 4,
            r@[0]@ == "NONE"@,
            r@[1]@ == "CAPTURING_PHASE"@,
            r@[2]@ == "AT_TARGET"@,
            r@[3]@ == "BUBBLING_PHASE"@,
    {
        let mut v: Vec<&'static str> = Vec::new();
        v.push("NONE");
        v.push("CAPTURING_PHASE");
        v.push("AT_TARGET");
        v.push("BUBBLING_PHASE");
        v
    }
}

/// An event listener.
#[derive(Debug, Clone, Copy, PartialEq, Eq, Structural)]
pub struct EventListener {
    /// The callback function.
    pub callback: ObjectRef,
    /// Whether it listens in the capturing phase.
    pub capture: bool,
    /// Whether it is passive.
    pub passive: bool,
    /// Whether it is removed once it has been invoked.
    pub once: bool,
}

/// Two listeners are the same listener when they have the same callback object
/// (`SameValue`) and the same `capture`.
pub open spec fn same_listener(a: EventListener, b: EventListener) -> bool {
    a.callback.id == b.callback.id && a.capture == b.capture
}

/// Whether a list holds a listener that is the same as `l`.
pub open spec fn contains_same(s: Seq<EventListener>, l: EventListener) -> bool {
    exists|i: int| 0 <= i < s.len() && same_listener(#[trigger] s[i], l)
}

/// The list without any listener that is the same as `l`, in order.
pub open spec fn without(s: Seq<EventListener>, l: EventListener) -> Seq<EventListener>
    decreases s.len(),
{
    if s.len() == 0 {
        s
    } else {
        let rest = without(s.drop_last(), l);
        if same_listener(s.last(), l) { rest } else { rest.push(s.last()) }
    }
}

/// No two listeners of a list are the same.
pub open spec fn no_duplicates(s: Seq<EventListener>) -> bool {
    forall|i: int, j: int| 0 <= i < j < s.len() ==> !same_listener(#[trigger] s[i], #[trigger] s[j])
}

/// The listeners registered for one event type.
pub struct ListenerEntry {
    /// The event type.
    pub event_type: String,
    /// The listeners, in the order they were added.
    pub listeners: Vec<EventListener>,
}

/// The listener lists of a target: a type and its listeners per entry.
pub type ListenerMap = Seq<(Seq<char>, Seq<EventListener>)>;

/// An `EventTarget`: its listener lists, one per event type, with no type twice.
pub struct EventTarget {
    /// The listener lists.
    pub entries: Vec<ListenerEntry>,
}

impl View for EventTarget {
    type V = ListenerMap;

    open spec fn view(&self) -> ListenerMap {
        Seq::new(self.entries@.len(), |i: int| (self.entries@[i].event_type@, self.entries@[i].listeners@))
    }
}

/// No event type has two entries.
pub open spec fn wf(m: ListenerMap) -> bool {
    forall|i: int, j: int| 0 <= i < j < m.len() ==> (#[trigger] m[i]).0 != (#[trigger] m[j]).0
}

/// Whether there is an entry for `t`.
pub open spec fn has_type(m: ListenerMap, t: Seq<char>) -> bool {
    exists|i: int| 0 <= i < m.len() && (#[trigger] m[i]).0 == t
}

/// The position of the entry for `t`, when there is one.
pub open spec fn type_index(m: ListenerMap, t: Seq<char>) -> int {
    choose|i: int| 0 <= i < m.len() && (#[trigger] m[i]).0 == t
}

/// The listeners registered for `t`: empty when there is no entry.
pub open spec fn listeners_of(m: ListenerMap, t: Seq<char>) -> Seq<EventListener> {
    if has_type(m, t) { m[type_index(m, t)].1 } else { Seq::empty() }
}

/// `addEventListener` on the listener lists: the listener is appended to the list of its
/// type unless the same listener is already there; the entry is created if missing.
pub open spec fn spec_add(m: ListenerMap, t: Seq<char>, l: EventListener) -> ListenerMap {
    if has_type(m, t) {
        let k = type_index(m, t);
        if contains_same(m[k].1, l) { m } else { m.update(k, (t, m[k].1.push(l))) }
    } else {
        m.push((t, seq![l]))
    }
}

/// `removeEventListener` on the listener lists: the same listener is removed from the list
/// of its type, and an entry left empty is dropped.
pub open spec fn spec_remove(m: ListenerMap, t: Seq<char>, l: EventListener) -> ListenerMap {
    if has_type(m, t) {
        let k = type_index(m, t);
        let nl = without(m[k].1, l);
        if nl.len() == 0 { m.remove(k) } else { m.update(k, (t, nl)) }
    } else {
        m
    }
}

/// The removal of a `once` listener after it ran: as `spec_remove`, but the entry stays
/// even when it is left empty.
pub open spec fn spec_remove_keep_entry(m: ListenerMap, t: Seq<char>, l: EventListener) -> ListenerMap {
    if has_type(m, t) {
        let k = type_index(m, t);
        m.update(k, (t, without(m[k].1, l)))
    } else {
        m
    }
}

/// What `addEventListener` and `removeEventListener` read of their `options` argument:
/// for an object, the values of its `capture`, `passive` and `once` properties (read in
/// that order by the engine); otherwise the argument itself.
#[derive(Debug, Clone, Copy, PartialEq, Eq, Structural)]
pub enum ListenerOptions {
    /// An options object and the values of its properties.
    Object { capture: JsValue, passive: JsValue, once: JsValue },
    /// Any other value.
    Value(JsValue),
}

/// The flags that flattening the options gives: `(capture, passive, once)`.
pub open spec fn spec_flatten(options: ListenerOptions) -> (bool, bool, bool) {
    match options {
        ListenerOptions::Object { capture, passive, once } => (spec_to_boolean(capture), spec_to_boolean(passive), spec_to_boolean(once)),
        ListenerOptions::Value(JsValue::Boolean(b)) => (b, false, false),
        ListenerOptions::Value(_) => (false, false, false),
    }
}

/// Flattens the options of `addEventListener`: an object gives its three flags; a Boolean
/// is the legacy `capture` flag; anything else leaves every flag unset.
pub fn flatten_options(options: ListenerOptions) -> (r: (bool, bool, bool))
    ensures
        r == spec_flatten(options),
{
    match options {
        ListenerOptions::Object { capture, passive, once } => (capture.to_boolean(), passive.to_boolean(), once.to_boolean()),
        ListenerOptions::Value(JsValue::Boolean(b)) => (b, false, false),
        ListenerOptions::Value(_) => (false, false, false),
    }
}

impl EventTarget {
    /// The `EventTarget()` constructor: no listeners.
    pub fn constructor() -> (r: EventTarget)
        ensures
            r@ == Seq::<(Seq<char>, Seq<EventListener>)>::empty(),
    {
        EventTarget { entries: Vec::new() }
    }

    /// The position of the entry for `t`, if there is one.
    fn find(&self, t: &String) -> (r: Option<usize>)
        requires
            wf(self@),
        ensures
            r matches Some(k) ==> has_type(self@, t@) && k == type_index(self@, t@) && k < self@.len(),
            r is None ==> !has_type(self@, t@),
    {
        let mut i: usize = 0;
        while i < self.entries.len()
            invariant
                i <= self.entries@.len(),
                wf(self@),
                forall|j: int| 0 <= j < i ==> (#[trigger] self@[j]).0 != t@,
            decreases self.entries@.len() - i,
        {
            if self.entries[i].event_type == *t {
                assert(self@[i as int].0 == t@);
                assert(has_type(self@, t@));
                let ghost j = type_index(self@, t@);
                assert(self@[j].0 == t@);
                assert(j == i as int) by {
                    if j < i as int {
                        assert(self@[j].0 != self@[i as int].0);
                    } else if j > i as int {
                        assert(self@[i as int].0 != self@[j].0);
                    }
                }
                return Some(i);
            }
            i = i + 1;
        }
        None
    }

    /// Whether `list` holds a listener that is the same as `l`.
    fn list_contains(list: &Vec<EventListener>, l: EventListener) -> (r: bool)
        ensures
            r == contains_same(list@, l),
    {
        let mut i: usize = 0;
        while i < list.len()
            invariant
                i <= list@.len(),
                forall|j: int| 0 <= j < i ==> !same_listener(#[trigger] list@[j], l),
            decreases list@.len() - i,
        {
            if list[i].callback.id == l.callback.id && list[i].capture == l.capture {
                assert(same_listener(list@[i as int], l));
                return true;
            }
            i = i + 1;
        }
        false
    }

    /// `list` without the listeners that are the same as `l`.
    fn list_without(list: &Vec<EventListener>, l: EventListener) -> (r: Vec<EventListener>)
        ensures
            r@ == without(list@, l),
    {
        let mut out: Vec<EventListener> = Vec::new();
        let mut i: usize = 0;
        while i < list.len()
            invariant
                i <= list@.len(),
                out@ == without(list@.take(i as int), l),
            decreases list@.len() - i,
        {
            assert(list@.take(i as int + 1).drop_last() =~= list@.take(i as int));
            let x = list[i];
            if !(x.callback.id == l.callback.id && x.capture == l.capture) {
                out.push(x);
            }
            i = i + 1;
        }
        assert(list@.take(list@.len() as int) =~= list@);
        out
    }

    /// Replaces the listeners of entry `k`.
    fn set_listeners(&mut self, k: usize, listeners: Vec<EventListener>)
        requires
            k < old(self)@.len(),
        ensures
            final(self)@ == old(self)@.update(k as int, (old(self)@[k as int].0, listeners@)),
    {
        let entry = self.entries.remove(k);
        self.entries.insert(k, ListenerEntry { event_type: entry.event_type, listeners });
        assert(final(self)@ =~= old(self)@.update(k as int, (old(self)@[k as int].0, listeners@)));
    }

    /// `addEventListener(type, callback, options)` once the options have been flattened
    /// into `(capture, passive, once)`: a callback that is not an object leaves the target
    /// as it is; otherwise the listener is added unless the same one is already there.
    pub fn add_event_listener(&mut self, event_type: String, callback: JsValue, flags: (bool, bool, bool))
        requires
            wf(old(self)@),
        ensures
            wf(final(self)@),
            match callback {
                JsValue::Object(cb) => final(self)@ == spec_add(old(self)@, event_type@,
                    EventListener { callback: cb, capture: flags.0, passive: flags.1, once: flags.2 }),
                _ => final(self)@ == old(self)@,
            },
    {
        let cb = match callback {
            JsValue::Object(o) => o,
            _ => return,
        };
        let listener = EventListener { callback: cb, capture: flags.0, passive: flags.1, once: flags.2 };
        match self.find(&event_type) {
            Some(k) => {
                let exists = Self::list_contains(&self.entries[k].listeners, listener);
                if !exists {
                    let mut list = Self::list_without(&self.entries[k].listeners, listener);
                    proof { lemma_without_absent(self@[k as int].1, listener); }
                    list.push(listener);
                    self.set_listeners(k, list);
                    assert(self@[k as int].0 == event_type@);
                }
            },
            None => {
                let mut list: Vec<EventListener> = Vec::new();
                list.push(listener);
                let ghost old_view = self@;
                self.entries.push(ListenerEntry { event_type, listeners: list });
                assert(self@ =~= old_view.push((event_type@, seq![listener])));
            },
        }
    }

    /// `removeEventListener(type, callback, options)` once `capture` has been read from
    /// the options: a callback that is not an object leaves the target as it is; otherwise
    /// the same listener is removed, and the entry for the type is dropped if left empty.
    pub fn remove_event_listener(&mut self, event_type: String, callback: JsValue, capture: bool)
        requires
            wf(old(self)@),
        ensures
            wf(final(self)@),
            match callback {
                JsValue::Object(cb) => final(self)@ == spec_remove(old(self)@, event_type@,
                    EventListener { callback: cb, capture, passive: false, once: false }),
                _ => final(self)@ == old(self)@,
            },
    {
        let cb = match callback {
            JsValue::Object(o) => o,
            _ => return,
        };
        let listener = EventListener { callback: cb, capture, passive: false, once: false };
        match self.find(&event_type) {
            Some(k) => {
                let list = Self::list_without(&self.entries[k].listeners, listener);
                if list.len() == 0 {
                    let ghost old_view = self@;
                    self.entries.remove(k);
                    assert(self@ =~= old_view.remove(k as int));
                } else {
                    self.set_listeners(k, list);
                }
            },
            None => {},
        }
    }

    /// Removes the listener that is the same as `l` from the list of `t`, keeping the entry.
    pub fn remove_listener_keep_entry(&mut self, t: &String, l: EventListener)
        requires
            wf(old(self)@),
        ensures
            wf(final(self)@),
            final(self)@ == spec_remove_keep_entry(old(self)@, t@, l),
    {
        match self.find(t) {
            Some(k) => {
                let list = Self::list_without(&self.entries[k].listeners, l);
                self.set_listeners(k, list);
            },
            None => {},
        }
    }

    /// A copy of the listeners registered for `t`.
    pub fn listeners_for(&self, t: &String) -> (r: Vec<EventListener>)
        requires
            wf(self@),
        ensures
            r@ == listeners_of(self@, t@),
    {
        match self.find(t) {
            Some(k) => {
                let list = &self.entries[k].listeners;
                let mut out: Vec<EventListener> = Vec::new();
                let mut i: usize = 0;
                while i < list.len()
                    invariant
                        i <= list@.len(),
                        out@ == list@.take(i as int),
                    decreases list@.len() - i,
                {
                    out.push(list[i]);
                    i = i + 1;
                    assert(out@ =~= list@.take(i as int));
                }
                assert(list@.take(list@.len() as int) =~= list@);
                out
            },
            None => Vec::new(),
        }
    }
}

/// A list without any listener the same as `l` is its own `without`.
pub proof fn lemma_without_absent(s: Seq<EventListener>, l: EventListener)
    requires
        !contains_same(s, l),
    ensures
        without(s, l) == s,
    decreases s.len(),
{
    if s.len() > 0 {
        assert(!contains_same(s.drop_last(), l)) by {
            if contains_same(s.drop_last(), l) {
                let i = choose|i: int| 0 <= i < s.drop_last().len() && same_listener(#[trigger] s.drop_last()[i], l);
                assert(s[i] == s.drop_last()[i]);
            }
        }
        lemma_without_absent(s.drop_last(), l);
        assert(!same_listener(s[s.len() - 1], l));
        assert(s.drop_last().push(s.last()) =~= s);
    }
}

/// `without` removes every listener the same as `l`.
pub proof fn lemma_without_removes(s: Seq<EventListener>, l: EventListener)
    ensures
        !contains_same(without(s, l), l),
        without(s, l).len() <= s.len(),
    decreases s.len(),
{
    if s.len() > 0 {
        lemma_without_removes(s.drop_last(), l);
        let rest = without(s.drop_last(), l);
        if !same_listener(s.last(), l) {
            assert forall|i: int| 0 <= i < rest.push(s.last()).len() implies !same_listener(#[trigger] rest.push(s.last())[i], l) by {
                if i < rest.len() {
                    assert(rest.push(s.last())[i] == rest[i]);
                }
            }
        }
    }
}

/// The listener that `removeEventListener` looks for: only the callback and `capture` count.
pub open spec fn removal_key(l: EventListener) -> EventListener {
    EventListener { callback: l.callback, capture: l.capture, passive: false, once: false }
}

/// `without` only looks at the callback and `capture` of the listener it removes.
pub proof fn lemma_without_key(s: Seq<EventListener>, l: EventListener)
    ensures
        without(s, l) == without(s, removal_key(l)),
    decreases s.len(),
{
    if s.len() > 0 {
        lemma_without_key(s.drop_last(), l);
    }
}

/// The entry for `t` is the only one with that type.
pub proof fn lemma_type_index_unique(m: ListenerMap, t: Seq<char>, k: int)
    requires
        wf(m),
        0 <= k < m.len(),
        m[k].0 == t,
    ensures
        has_type(m, t),
        type_index(m, t) == k,
{
    assert(m[k].0 == t);
    let j = type_index(m, t);
    assert(m[j].0 == t);
    if j < k {
        assert(m[j].0 != m[k].0);
    } else if j > k {
        assert(m[k].0 != m[j].0);
    }
}

/// Adding a listener keeps the types unique and registers the listener under its type.
pub proof fn lemma_add_registers(m: ListenerMap, t: Seq<char>, l: EventListener)
    requires
        wf(m),
    ensures
        wf(spec_add(m, t, l)),
        has_type(spec_add(m, t, l), t),
        contains_same(listeners_of(spec_add(m, t, l), t), l),
        no_duplicates(listeners_of(m, t)) ==> no_duplicates(listeners_of(spec_add(m, t, l), t)),
{
    let m2 = spec_add(m, t, l);
    if has_type(m, t) {
        let k = type_index(m, t);
        lemma_type_index_unique(m, t, k);
        assert(wf(m2)) by {
            assert forall|i: int, j: int| 0 <= i < j < m2.len() implies (#[trigger] m2[i]).0 != (#[trigger] m2[j]).0 by {
                assert(m[i].0 != m[j].0);
            }
        }
        lemma_type_index_unique(m2, t, k);
        if !contains_same(m[k].1, l) {
            let s = m[k].1;
            assert(m2[k].1 == s.push(l));
            assert(same_listener(s.push(l)[s.len() as int], l));
            if no_duplicates(s) {
                assert forall|i: int, j: int| 0 <= i < j < s.push(l).len() implies !same_listener(#[trigger] s.push(l)[i], #[trigger] s.push(l)[j]) by {
                    if j == s.len() {
                        assert(s.push(l)[i] == s[i]);
                        assert(!same_listener(s[i], l));
                    } else {
                        assert(s.push(l)[i] == s[i]);
                        assert(s.push(l)[j] == s[j]);
                    }
                }
            }
        }
    } else {
        assert(wf(m2)) by {
            assert forall|i: int, j: int| 0 <= i < j < m2.len() implies (#[trigger] m2[i]).0 != (#[trigger] m2[j]).0 by {
                if j == m.len() {
                    assert(m2[i] == m[i]);
                    assert(m[i].0 != t);
                } else {
                    assert(m2[i] == m[i] && m2[j] == m[j]);
                }
            }
        }
        lemma_type_index_unique(m2, t, m.len() as int);
        assert(same_listener(seq![l][0], l));
    }
}

/// Adding a listener twice is the same as adding it once.
pub proof fn lemma_add_idempotent(m: ListenerMap, t: Seq<char>, l: EventListener)
    requires
        wf(m),
    ensures
        spec_add(spec_add(m, t, l), t, l) == spec_add(m, t, l),
{
    lemma_add_registers(m, t, l);
    let m2 = spec_add(m, t, l);
    let k2 = type_index(m2, t);
    assert(contains_same(m2[k2].1, l));
}

/// Removing a listener that was just added gives the listener lists back as they were,
/// provided the listener was not registered already and its type had no entry left empty.
pub proof fn lemma_add_then_remove(m: ListenerMap, t: Seq<char>, l: EventListener)
    requires
        wf(m),
        !contains_same(listeners_of(m, t), l),
        has_type(m, t) ==> listeners_of(m, t).len() > 0,
    ensures
        spec_remove(spec_add(m, t, l), t, removal_key(l)) == m,
{
    let m2 = spec_add(m, t, l);
    lemma_add_registers(m, t, l);
    if has_type(m, t) {
        let k = type_index(m, t);
        let s = m[k].1;
        lemma_type_index_unique(m2, t, k);
        assert(s.push(l).drop_last() =~= s);
        lemma_without_absent(s, l);
        lemma_without_key(s.push(l), l);
        assert(without(s.push(l), l) == s);
        assert(m2.update(k, (t, s)) =~= m);
    } else {
        let k = m.len() as int;
        lemma_type_index_unique(m2, t, k);
        assert(seq![l].drop_last() =~= Seq::<EventListener>::empty());
        lemma_without_key(seq![l], l);
        assert(seq![l].last() == l);
        assert(without(Seq::<EventListener>::empty(), l) == Seq::<EventListener>::empty());
        assert(without(seq![l], l) =~= Seq::<EventListener>::empty());
        assert(m2.remove(k) =~= m);
    }
}

/// After `removeEventListener`, the listener is no longer registered under its type, and
/// the types stay unique.
pub proof fn lemma_remove_unregisters(m: ListenerMap, t: Seq<char>, l: EventListener)
    requires
        wf(m),
    ensures
        wf(spec_remove(m, t, l)),
        !contains_same(listeners_of(spec_remove(m, t, l), t), l),
{
    let m2 = spec_remove(m, t, l);
    if has_type(m, t) {
        let k = type_index(m, t);
        lemma_type_index_unique(m, t, k);
        let nl = without(m[k].1, l);
        lemma_without_removes(m[k].1, l);
        if nl.len() == 0 {
            assert(wf(m2)) by {
                assert forall|i: int, j: int| 0 <= i < j < m2.len() implies (#[trigger] m2[i]).0 != (#[trigger] m2[j]).0 by {
                    let ii = if i < k { i } else { i + 1 };
                    let jj = if j < k { j } else { j + 1 };
                    assert(m2[i] == m[ii] && m2[j] == m[jj]);
                    assert(m[ii].0 != m[jj].0);
                }
            }
            if has_type(m2, t) {
                let j = type_index(m2, t);
                let jj = if j < k { j } else { j + 1 };
                assert(m2[j] == m[jj]);
                assert(m[jj].0 != m[k].0);
            }
        } else {
            assert(wf(m2)) by {
                assert forall|i: int, j: int| 0 <= i < j < m2.len() implies (#[trigger] m2[i]).0 != (#[trigger] m2[j]).0 by {
                    assert(m[i].0 != m[j].0);
                }
            }
            lemma_type_index_unique(m2, t, k);
        }
    }
}

/// Removing a listener that is not registered under its type leaves the listeners of
/// every type as they were; the listener lists themselves stay exactly as they were,
/// unless the type's entry had been left empty, which is then dropped.
pub proof fn lemma_remove_absent_keeps_listeners(m: ListenerMap, t: Seq<char>, l: EventListener, t2: Seq<char>)
    requires
        wf(m),
        !contains_same(listeners_of(m, t), l),
    ensures
        listeners_of(spec_remove(m, t, l), t2) == listeners_of(m, t2),
        (!has_type(m, t) || listeners_of(m, t).len() > 0) ==> spec_remove(m, t, l) == m,
{
    if has_type(m, t) {
        let k = type_index(m, t);
        lemma_type_index_unique(m, t, k);
        lemma_without_absent(m[k].1, l);
        let m2 = spec_remove(m, t, l);
        if m[k].1.len() == 0 {
            assert(m2 == m.remove(k));
            if has_type(m2, t2) {
                let j = type_index(m2, t2);
                let jj = if j < k { j } else { j + 1 };
                assert(m2[j] == m[jj]);
                assert(m[jj].0 == t2);
                lemma_type_index_unique(m, t2, jj);
                if t2 == t {
                    assert(jj == k);
                    assert(false);
                }
            } else if has_type(m, t2) {
                let j = type_index(m, t2);
                lemma_type_index_unique(m, t2, j);
                if j != k {
                    let j2 = if j < k { j } else { j - 1 };
                    assert(m2[j2] == m[j]);
                    assert(m2[j2].0 == t2);
                    assert(false);
                }
            }
        } else {
            assert(m.update(k, (t, m[k].1)) =~= m);
        }
    }
}

/// After a `once` listener has run, it is no longer registered under its type, and the
/// types stay unique.
pub proof fn lemma_once_unregisters(m: ListenerMap, t: Seq<char>, l: EventListener)
    requires
        wf(m),
    ensures
        wf(spec_remove_keep_entry(m, t, l)),
        !contains_same(listeners_of(spec_remove_keep_entry(m, t, l), t), l),
{
    let m2 = spec_remove_keep_entry(m, t, l);
    if has_type(m, t) {
        let k = type_index(m, t);
        lemma_type_index_unique(m, t, k);
        lemma_without_removes(m[k].1, l);
        assert(wf(m2)) by {
            assert forall|i: int, j: int| 0 <= i < j < m2.len() implies (#[trigger] m2[i]).0 != (#[trigger] m2[j]).0 by {
                assert(m[i].0 != m[j].0);
            }
        }
        lemma_type_index_unique(m2, t, k);
    }
}

/// A dispatch of an event to the listeners at a target, in progress.
pub struct Dispatch {
    /// The event object, passed to each listener.
    pub event_object: ObjectRef,
    /// The event's type.
    pub event_type: String,
    /// The listeners registered when the dispatch began, in order.
    pub snapshot: Vec<EventListener>,
    /// The position of the next listener to invoke.
    pub pos: usize,
}

/// What the engine is to do next for a dispatch.
#[derive(Debug, Clone, Copy)]
pub enum DispatchAction {
    /// Invoke a listener with this call, ignore what it throws, then call `after_invoke`.
    Invoke(HostRequest),
    /// All listeners have run: call `finish`.
    Finished,
}

/// `dispatchEvent(event)`, step 1: `event` must be an object holding an `Event`.
pub fn dispatch_event_check(event: JsValue, is_event: bool) -> (r: Result<ObjectRef, JsError>)
    ensures
        match event {
            JsValue::Object(o) => if is_event { r == Ok::<ObjectRef, JsError>(o) } else {
                r == Err::<ObjectRef, JsError>(JsError::Native { kind: ErrorKind::Type, reason: Reason::NotAnEvent })
            },
            _ => r == Err::<ObjectRef, JsError>(JsError::Native { kind: ErrorKind::Type, reason: Reason::EventNotObject }),
        },
{
    match event {
        JsValue::Object(o) => if is_event {
            Ok(o)
        } else {
            Err(JsError::Native { kind: ErrorKind::Type, reason: Reason::NotAnEvent })
        },
        _ => Err(JsError::Native { kind: ErrorKind::Type, reason: Reason::EventNotObject }),
    }
}

impl EventTarget {
    /// `dispatchEvent(event)` up to the invocation of listeners: an event being dispatched
    /// or not initialized is an `InvalidStateError`; otherwise the event is marked
    /// untrusted, being dispatched and at its target, and the listeners registered for
    /// its type are taken, in order.
    pub fn begin_dispatch(&self, event_object: ObjectRef, event: &mut Event) -> (r: Result<Dispatch, JsError>)
        requires
            wf(self@),
        ensures
            old(event)@.dispatch_flag ==> r == Err::<Dispatch, JsError>(JsError::Native { kind: ErrorKind::Error, reason: Reason::EventAlreadyDispatching })
                && final(event)@ == old(event)@,
            !old(event)@.dispatch_flag && !old(event)@.initialized_flag ==> r == Err::<Dispatch, JsError>(JsError::Native { kind: ErrorKind::Error, reason: Reason::EventNotInitialized })
                && final(event)@ == old(event)@,
            !old(event)@.dispatch_flag && old(event)@.initialized_flag ==> (r matches Ok(d)
                && d.event_object == event_object && d.event_type@ == old(event)@.event_type
                && d.snapshot@ == listeners_of(self@, old(event)@.event_type) && d.pos == 0
                && final(event)@ == (EventView { is_trusted: false, dispatch_flag: true, event_phase: EventPhase::AtTarget, ..old(event)@ })
                && phase_number(final(event)@.event_phase) == 2),
    {
        if event.dispatch_flag {
            return Err(JsError::Native { kind: ErrorKind::Error, reason: Reason::EventAlreadyDispatching });
        }
        if !event.initialized_flag {
            return Err(JsError::Native { kind: ErrorKind::Error, reason: Reason::EventNotInitialized });
        }
        event.is_trusted = false;
        event.dispatch_flag = true;
        let event_type = event.event_type.clone();
        event.event_phase = EventPhase::AtTarget;
        let snapshot = self.listeners_for(&event_type);
        Ok(Dispatch { event_object, event_type, snapshot, pos: 0 })
    }
}

impl Dispatch {
    /// The next listener to invoke: it is called with `undefined` as `this` and the event
    /// as argument, with the in passive listener flag set for a passive listener.
    pub fn next(&self, event: &mut Event) -> (r: DispatchAction)
        ensures
            self.pos < self.snapshot@.len() ==> (r matches DispatchAction::Invoke(q)
                && q == (HostRequest::Call {
                    function: JsValue::Object(self.snapshot@[self.pos as int].callback),
                    this: JsValue::Undefined,
                    args: CallArgs::One(JsValue::Object(self.event_object)),
                })
                && final(event)@ == (if self.snapshot@[self.pos as int].passive {
                    EventView { in_passive_listener_flag: true, ..old(event)@ }
                } else {
                    old(event)@
                })),
            self.pos >= self.snapshot@.len() ==> (r is Finished && final(event)@ == old(event)@),
    {
        if self.pos < self.snapshot.len() {
            let l = self.snapshot[self.pos];
            if l.passive {
                event.in_passive_listener_flag = true;
            }
            DispatchAction::Invoke(HostRequest::Call {
                function: JsValue::Object(l.callback),
                this: JsValue::Undefined,
                args: CallArgs::One(JsValue::Object(self.event_object)),
            })
        } else {
            DispatchAction::Finished
        }
    }

    /// After the listener at `pos` has run: the in passive listener flag is unset for a
    /// passive listener, a `once` listener is removed from the target, and the dispatch
    /// moves on to the next listener, or stops if immediate propagation was stopped.
    pub fn after_invoke(&mut self, target: &mut EventTarget, event: &mut Event)
        requires
            old(self).pos < old(self).snapshot@.len(),
            wf(old(target)@),
        ensures
            ({
                let l = old(self).snapshot@[old(self).pos as int];
                &&& final(event)@ == (if l.passive {
                    EventView { in_passive_listener_flag: false, ..old(event)@ }
                } else {
                    old(event)@
                })
                &&& final(target)@ == (if l.once {
                    spec_remove_keep_entry(old(target)@, old(self).event_type@, l)
                } else {
                    old(target)@
                })
                &&& wf(final(target)@)
                &&& final(self).pos == (if old(event)@.stop_immediate_propagation_flag {
                    old(self).snapshot@.len() as usize
                } else {
                    (old(self).pos + 1) as usize
                })
                &&& final(self).snapshot@ == old(self).snapshot@
                &&& final(self).event_type@ == old(self).event_type@
                &&& final(self).event_object == old(self).event_object
            }),
    {
        let n = self.snapshot.len();
        let l = self.snapshot[self.pos];
        if l.passive {
            event.in_passive_listener_flag = false;
        }
        if l.once {
            target.remove_listener_keep_entry(&self.event_type, l);
        }
        if event.stop_immediate_propagation_flag {
            self.pos = n;
        } else {
            self.pos = self.pos + 1;
        }
    }

    /// Ends the dispatch: the event has no phase, its dispatch and propagation flags are
    /// unset, and the result is whether it was not canceled.
    pub fn finish(event: &mut Event) -> (r: bool)
        ensures
            r == !old(event)@.cancelled_flag,
            final(event)@ == (EventView {
                event_phase: EventPhase::Idle,
                dispatch_flag: false,
                stop_propagation_flag: false,
                stop_immediate_propagation_flag: false,
                ..old(event)@
            }),
    {
        event.event_phase = EventPhase::Idle;
        event.dispatch_flag = false;
        event.stop_propagation_flag = false;
        event.stop_immediate_propagation_flag = false;
        !event.cancelled_flag
    }
}

} // verus!
