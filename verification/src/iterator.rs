//! The `%Iterator%` constructor and the methods of `%Iterator.prototype%` that consume an
//! iterator (`some`, `every`, `find`, `forEach`, `toArray`), `Iterator.from`,
//! `Iterator.prototype.concat`, `%WrapForValidIteratorPrototype%` and the
//! `@@toStringTag` accessor.

use vstd::prelude::*;
use crate::value::{
    make_type_error, spec_is_callable, spec_to_boolean, type_error, CallArgs, Completion,
    HostRequest, JsError, JsResult, JsValue, ObjectRef, PropertyKey, Reason,
};
use crate::record::{
    spec_close_after_call, spec_close_after_get_method, spec_next_request, spec_step_value,
    CloseStep, IteratorRecord, ListCollector, StepPhase, StepValueStep,
};
use crate::helpers::{create_iter_result_object, spec_counter_next, IterResultObject, IteratorHelper};
use crate::acquire::{
    get_iterator_direct, get_iterator_flattenable, AcquireStep, Acquired, Acquisition,
    StringHandling,
};

verus! {

/// Which consuming method of `%Iterator.prototype%` runs.
#[derive(Debug, Clone, Copy, PartialEq, Eq, Structural)]
pub enum ConsumerKind {
    /// `some ( predicate )`.
    Any,
    /// `every ( predicate )`.
    All,
    /// `find ( predicate )`.
    Find,
    /// `forEach ( procedure )`.
    ForEach,
}

/// Where a consuming method stands.
#[derive(Debug, Clone, Copy)]
pub enum ConsumerPhase {
    /// Waiting for `Get(O, "next")`.
    AwaitNextMethod,
    /// Stepping the iterator.
    Stepping(StepPhase),
    /// Waiting for the callback's result on this value.
    Calling(JsValue),
    /// Closing the iterator with this completion: waiting for `GetMethod(iterator, "return")`.
    ClosingGet(Completion),
    /// Closing the iterator with this completion: waiting for the call of `return`.
    ClosingCall(Completion),
}

/// A consuming method of `%Iterator.prototype%` in progress.
#[derive(Debug, Clone, Copy)]
pub struct IteratorConsumer {
    /// Which method runs.
    pub kind: ConsumerKind,
    /// The callback: the predicate or the procedure.
    pub callback: JsValue,
    /// The iterator being consumed.
    pub record: IteratorRecord,
    /// How many values have been passed to the callback.
    pub counter: u64,
    /// Where the method stands.
    pub phase: ConsumerPhase,
}

/// The outcome of a step of a consuming method.
#[derive(Debug, Clone, Copy)]
pub enum ConsumerStep {
    /// Ask the engine for this, then resume.
    Request(IteratorConsumer, HostRequest),
    /// Finished with the method's result, or an abrupt completion.
    Finished(Completion),
}

/// The `TypeError` reason for a callback that cannot be called.
pub open spec fn spec_not_callable_reason(kind: ConsumerKind) -> Reason {
    match kind {
        ConsumerKind::ForEach => Reason::ProcedureNotCallable,
        _ => Reason::PredicateNotCallable,
    }
}

/// The result when the iterator is exhausted: `some` gives false, `every` true, and `find`
/// and `forEach` `undefined`.
pub open spec fn spec_exhausted_result(kind: ConsumerKind) -> JsValue {
    match kind {
        ConsumerKind::Any => JsValue::Boolean(false),
        ConsumerKind::All => JsValue::Boolean(true),
        _ => JsValue::Undefined,
    }
}

/// The completion with which the callback's result `r` on `v` closes the iterator, if it
/// does: `some` on a truthy result with true, `every` on a falsy one with false, `find` on
/// a truthy one with `v`.
pub open spec fn spec_verdict(kind: ConsumerKind, v: JsValue, r: JsValue) -> Option<JsValue> {
    match kind {
        ConsumerKind::Any => if spec_to_boolean(r) { Some(JsValue::Boolean(true)) } else { None },
        ConsumerKind::All => if !spec_to_boolean(r) { Some(JsValue::Boolean(false)) } else { None },
        ConsumerKind::Find => if spec_to_boolean(r) { Some(v) } else { None },
        ConsumerKind::ForEach => None,
    }
}

/// The consumer starting to step its iterator.
pub open spec fn spec_consumer_step(c: IteratorConsumer) -> ConsumerStep {
    ConsumerStep::Request(
        IteratorConsumer { phase: ConsumerPhase::Stepping(StepPhase::AwaitNext), ..c },
        spec_next_request(c.record, None),
    )
}

/// The consumer closing its iterator with `completion`.
pub open spec fn spec_consumer_close(c: IteratorConsumer, completion: Completion) -> ConsumerStep {
    ConsumerStep::Request(
        IteratorConsumer { phase: ConsumerPhase::ClosingGet(completion), ..c },
        HostRequest::GetMethod { value: JsValue::Object(c.record.iterator), key: PropertyKey::Return },
    )
}

/// One transition of a consuming method, given the engine's answer.
pub open spec fn spec_consumer_resume(c: IteratorConsumer, reply: Completion) -> ConsumerStep {
    match c.phase {
        ConsumerPhase::AwaitNextMethod => match reply {
            Err(e) => ConsumerStep::Finished(Err(e)),
            Ok(nm) => {
                let c2 = IteratorConsumer { record: IteratorRecord { next_method: nm, ..c.record }, ..c };
                if !spec_is_callable(c.callback) {
                    ConsumerStep::Finished(Err(type_error(spec_not_callable_reason(c.kind))))
                } else {
                    spec_consumer_step(c2)
                }
            },
        },
        ConsumerPhase::Stepping(p) => {
            let (rec2, s) = spec_step_value(c.record, p, reply);
            let c2 = IteratorConsumer { record: rec2, ..c };
            match s {
                StepValueStep::Request(p2, q) => ConsumerStep::Request(IteratorConsumer { phase: ConsumerPhase::Stepping(p2), ..c2 }, q),
                StepValueStep::Finished(Err(e)) => spec_consumer_close(c2, Err(e)),
                StepValueStep::Finished(Ok(None)) => ConsumerStep::Finished(Ok(spec_exhausted_result(c.kind))),
                StepValueStep::Finished(Ok(Some(v))) => ConsumerStep::Request(
                    IteratorConsumer { phase: ConsumerPhase::Calling(v), ..c2 },
                    HostRequest::Call { function: c.callback, this: JsValue::Undefined, args: CallArgs::Two(v, JsValue::Integer(c.counter as i64)) },
                ),
            }
        },
        ConsumerPhase::Calling(v) => match reply {
            Err(e) => spec_consumer_close(c, Err(e)),
            Ok(r) => match spec_verdict(c.kind, v, r) {
                Some(out) => spec_consumer_close(c, Ok(out)),
                None => spec_consumer_step(IteratorConsumer { counter: spec_counter_next(c.counter), ..c }),
            },
        },
        ConsumerPhase::ClosingGet(completion) => match spec_close_after_get_method(c.record.iterator, completion, reply) {
            CloseStep::Finished(out) => ConsumerStep::Finished(out),
            CloseStep::Call(q) => ConsumerStep::Request(IteratorConsumer { phase: ConsumerPhase::ClosingCall(completion), ..c }, q),
        },
        ConsumerPhase::ClosingCall(completion) => ConsumerStep::Finished(spec_close_after_call(completion, reply)),
    }
}

impl IteratorConsumer {
    /// Begins `some`, `every`, `find` or `forEach` on `this` with `callback`:
    /// `GetIteratorDirect(this)` reads `next` first.
    pub fn start(kind: ConsumerKind, this: JsValue, callback: JsValue) -> (r: ConsumerStep)
        ensures
            match this {
                JsValue::Object(o) => r matches ConsumerStep::Request(c, q) && c.kind == kind
                    && c.callback == callback && c.record == IteratorRecord { iterator: o, next_method: JsValue::Undefined, done: false, last_result: None }
                    && c.counter == 0 && c.phase is AwaitNextMethod
                    && q == (HostRequest::Get { object: o, key: PropertyKey::Next }),
                _ => r matches ConsumerStep::Finished(Err(e)) && e == type_error(Reason::ThisNotObject),
            },
    {
        match this {
            JsValue::Object(o) => {
                let c = IteratorConsumer {
                    kind,
                    callback,
                    record: IteratorRecord::new(o, JsValue::Undefined),
                    counter: 0,
                    phase: ConsumerPhase::AwaitNextMethod,
                };
                ConsumerStep::Request(c, HostRequest::Get { object: o, key: PropertyKey::Next })
            },
            _ => ConsumerStep::Finished(Err(make_type_error(Reason::ThisNotObject))),
        }
    }

    /// The consumer starting to step its iterator.
    fn step(self) -> (r: ConsumerStep)
        ensures
            r == spec_consumer_step(self),
    {
        let (p, q) = self.record.step_start();
        ConsumerStep::Request(IteratorConsumer { phase: ConsumerPhase::Stepping(p), ..self }, q)
    }

    /// The consumer closing its iterator with `completion`.
    fn close(self, completion: Completion) -> (r: ConsumerStep)
        ensures
            r == spec_consumer_close(self, completion),
    {
        let q = self.record.close_start();
        ConsumerStep::Request(IteratorConsumer { phase: ConsumerPhase::ClosingGet(completion), ..self }, q)
    }

    /// Resumes the method with the engine's answer.
    ///
    /// An abrupt step or callback closes the iterator with that completion; a verdict
    /// closes it with the method's result; an exhausted iterator ends the method.
    pub fn resume(self, reply: Completion) -> (r: ConsumerStep)
        ensures
            r == spec_consumer_resume(self, reply),
            self.phase matches ConsumerPhase::Stepping(p) ==> (spec_step_value(self.record, p, reply).1 matches StepValueStep::Finished(Ok(None))
                ==> r == ConsumerStep::Finished(Ok(match self.kind {
                    ConsumerKind::Any => JsValue::Boolean(false),
                    ConsumerKind::All => JsValue::Boolean(true),
                    _ => JsValue::Undefined,
                }))),
            self.phase matches ConsumerPhase::Calling(v) ==> (reply matches Ok(res) ==> match self.kind {
                ConsumerKind::Any => if spec_to_boolean(res) {
                    r matches ConsumerStep::Request(c2, _) && c2.phase == ConsumerPhase::ClosingGet(Ok(JsValue::Boolean(true)))
                } else {
                    r matches ConsumerStep::Request(c2, _) && c2.phase == ConsumerPhase::Stepping(StepPhase::AwaitNext)
                },
                ConsumerKind::All => if spec_to_boolean(res) {
                    r matches ConsumerStep::Request(c2, _) && c2.phase == ConsumerPhase::Stepping(StepPhase::AwaitNext)
                } else {
                    r matches ConsumerStep::Request(c2, _) && c2.phase == ConsumerPhase::ClosingGet(Ok(JsValue::Boolean(false)))
                },
                ConsumerKind::Find => if spec_to_boolean(res) {
                    r matches ConsumerStep::Request(c2, _) && c2.phase == ConsumerPhase::ClosingGet(Ok(v))
                } else {
                    r matches ConsumerStep::Request(c2, _) && c2.phase == ConsumerPhase::Stepping(StepPhase::AwaitNext)
                },
                ConsumerKind::ForEach =>
                    r matches ConsumerStep::Request(c2, _) && c2.phase == ConsumerPhase::Stepping(StepPhase::AwaitNext),
            }),
    {
        match self.phase {
            ConsumerPhase::AwaitNextMethod => match reply {
                Err(e) => ConsumerStep::Finished(Err(e)),
                Ok(nm) => {
                    let c2 = IteratorConsumer { record: IteratorRecord { next_method: nm, ..self.record }, ..self };
                    if self.callback.as_callable().is_none() {
                        let reason = match self.kind {
                            ConsumerKind::ForEach => Reason::ProcedureNotCallable,
                            _ => Reason::PredicateNotCallable,
                        };
                        ConsumerStep::Finished(Err(make_type_error(reason)))
                    } else {
                        c2.step()
                    }
                },
            },
            ConsumerPhase::Stepping(p) => {
                let mut rec = self.record;
                let s = rec.step_value(p, reply);
                let c2 = IteratorConsumer { record: rec, ..self };
                match s {
                    StepValueStep::Request(p2, q) => ConsumerStep::Request(IteratorConsumer { phase: ConsumerPhase::Stepping(p2), ..c2 }, q),
                    StepValueStep::Finished(Err(e)) => c2.close(Err(e)),
                    StepValueStep::Finished(Ok(None)) => {
                        let out = match self.kind {
                            ConsumerKind::Any => JsValue::Boolean(false),
                            ConsumerKind::All => JsValue::Boolean(true),
                            _ => JsValue::Undefined,
                        };
                        ConsumerStep::Finished(Ok(out))
                    },
                    StepValueStep::Finished(Ok(Some(v))) => ConsumerStep::Request(
                        IteratorConsumer { phase: ConsumerPhase::Calling(v), ..c2 },
                        HostRequest::Call { function: self.callback, this: JsValue::Undefined, args: CallArgs::Two(v, JsValue::Integer(self.counter as i64)) },
                    ),
                }
            },
            ConsumerPhase::Calling(v) => match reply {
                Err(e) => self.close(Err(e)),
                Ok(r) => {
                    let truthy = r.to_boolean();
                    let verdict = match self.kind {
                        ConsumerKind::Any => if truthy { Some(JsValue::Boolean(true)) } else { None },
                        ConsumerKind::All => if !truthy { Some(JsValue::Boolean(false)) } else { None },
                        ConsumerKind::Find => if truthy { Some(v) } else { None },
                        ConsumerKind::ForEach => None,
                    };
                    match verdict {
                        Some(out) => self.close(Ok(out)),
                        None => IteratorConsumer { counter: self.counter.wrapping_add(1), ..self }.step(),
                    }
                },
            },
            ConsumerPhase::ClosingGet(completion) => match self.record.close_after_get_method(completion, reply) {
                CloseStep::Finished(out) => ConsumerStep::Finished(out),
                CloseStep::Call(q) => ConsumerStep::Request(IteratorConsumer { phase: ConsumerPhase::ClosingCall(completion), ..self }, q),
            },
            ConsumerPhase::ClosingCall(completion) => ConsumerStep::Finished(IteratorRecord::close_after_call(completion, reply)),
        }
    }
}

/// `some`, `every` and `find` only decide on a verdict of the callback, and the value a
/// decision carries is what the method promises: `some` true on a truthy result, `every`
/// false on a falsy one, `find` the value on a truthy one; `forEach` never decides early.
pub proof fn lemma_verdicts(kind: ConsumerKind, v: JsValue, r: JsValue)
    ensures
        spec_verdict(kind, v, r) matches Some(out) ==> match kind {
            ConsumerKind::Any => spec_to_boolean(r) && out == JsValue::Boolean(true),
            ConsumerKind::All => !spec_to_boolean(r) && out == JsValue::Boolean(false),
            ConsumerKind::Find => spec_to_boolean(r) && out == v,
            ConsumerKind::ForEach => false,
        },
        kind == ConsumerKind::ForEach ==> spec_verdict(kind, v, r) is None,
{
}

/// A consuming method that ends early always closes the iterator first: once a verdict
/// or an abrupt callback has been seen, the next request asks for the iterator's
/// `return` method, and an abrupt callback's completion is what the method ends with.
pub proof fn lemma_consumer_closes_on_exit(c: IteratorConsumer, v: JsValue, reply: Completion)
    requires
        c.phase == ConsumerPhase::Calling(v),
    ensures
        match reply {
            Err(e) => spec_consumer_resume(c, reply) matches ConsumerStep::Request(c2, q)
                && c2.phase == ConsumerPhase::ClosingGet(Err(e))
                && q == (HostRequest::GetMethod { value: JsValue::Object(c.record.iterator), key: PropertyKey::Return }),
            Ok(r) => spec_verdict(c.kind, v, r) is Some ==> (spec_consumer_resume(c, reply) matches ConsumerStep::Request(c2, q)
                && c2.phase matches ConsumerPhase::ClosingGet(Ok(_))
                && q == (HostRequest::GetMethod { value: JsValue::Object(c.record.iterator), key: PropertyKey::Return })),
        },
{
}

/// Closing after an abrupt callback ends the method with that completion, whatever the
/// iterator's `return` method does.
pub proof fn lemma_consumer_abrupt_wins(c: IteratorConsumer, e: JsError, reply: Completion)
    requires
        c.phase == ConsumerPhase::ClosingGet(Err(e)) || c.phase == ConsumerPhase::ClosingCall(Err(e)),
    ensures
        match spec_consumer_resume(c, reply) {
            ConsumerStep::Finished(out) => out == Err::<JsValue, JsError>(e),
            ConsumerStep::Request(c2, _) => c2.phase == ConsumerPhase::ClosingCall(Err(e)),
        },
{
}

/// How `some`, `every`, `find` and `forEach` end. An exhausted iterator ends `every` with
/// true and `some` with false whatever values came before, and `find` and `forEach` with
/// `undefined`. A callback result only ends the method early through `ToBoolean`: `every`
/// closes the iterator with false on a falsy result and goes on on a truthy one, `some`
/// closes with true on a truthy result and goes on on a falsy one, `find` closes with the
/// value on a truthy result, and `forEach` always goes on.
pub proof fn lemma_consumer_outcomes(c: IteratorConsumer, reply: Completion)
    ensures
        c.phase matches ConsumerPhase::Stepping(p) ==> (spec_step_value(c.record, p, reply).1 matches StepValueStep::Finished(Ok(None))
            ==> spec_consumer_resume(c, reply) == ConsumerStep::Finished(Ok(match c.kind {
                ConsumerKind::Any => JsValue::Boolean(false),
                ConsumerKind::All => JsValue::Boolean(true),
                _ => JsValue::Undefined,
            }))),
        c.phase matches ConsumerPhase::Calling(v) ==> (reply matches Ok(res) ==> ({
            let closes_with = match c.kind {
                ConsumerKind::Any => if spec_to_boolean(res) { Some(JsValue::Boolean(true)) } else { None },
                ConsumerKind::All => if spec_to_boolean(res) { None } else { Some(JsValue::Boolean(false)) },
                ConsumerKind::Find => if spec_to_boolean(res) { Some(v) } else { None },
                ConsumerKind::ForEach => None::<JsValue>,
            };
            match closes_with {
                Some(out) => spec_consumer_resume(c, reply) matches ConsumerStep::Request(c2, q)
                    && c2.phase == ConsumerPhase::ClosingGet(Ok(out))
                    && q == (HostRequest::GetMethod { value: JsValue::Object(c.record.iterator), key: PropertyKey::Return }),
                None => spec_consumer_resume(c, reply) matches ConsumerStep::Request(c2, q)
                    && c2.phase == ConsumerPhase::Stepping(StepPhase::AwaitNext)
                    && c2.counter == spec_counter_next(c.counter)
                    && q == spec_next_request(c.record, None),
            }
        })),
{
}

/// `Iterator.prototype.toArray ( )`: how it begins. `GetIteratorDirect(this)` reads
/// `next`; once it has answered, `to_array_collect` drains the iterator.
pub fn to_array_start(this: JsValue) -> (r: JsResult<(ObjectRef, HostRequest)>)
    ensures
        match this {
            JsValue::Object(o) => r == Ok::<(ObjectRef, HostRequest), JsError>((o, HostRequest::Get { object: o, key: PropertyKey::Next })),
            _ => r == Err::<(ObjectRef, HostRequest), JsError>(type_error(Reason::ThisNotObject)),
        },
{
    match this {
        JsValue::Object(o) => Ok((o, HostRequest::Get { object: o, key: PropertyKey::Next })),
        _ => Err(make_type_error(Reason::ThisNotObject)),
    }
}

/// `Iterator.prototype.toArray ( )` once `next` has been read: `IteratorToList` on the
/// record; the engine makes an array of the list.
pub fn to_array_collect(object: ObjectRef, got: Completion) -> (r: JsResult<(ListCollector, HostRequest)>)
    ensures
        match got {
            Err(e) => r matches Err(e2) && e2 == e,
            Ok(nm) => r matches Ok((c, q)) && c.record == IteratorRecord { iterator: object, next_method: nm, done: false, last_result: None }
                && c.values@ == Seq::<JsValue>::empty() && c.phase == StepPhase::AwaitNext
                && q == spec_next_request(c.record, None),
        },
{
    let nm = got?;
    Ok(ListCollector::start(IteratorRecord::new(object, nm)))
}

/// `Iterator.prototype.concat ( ...items )` in progress: the records gathered so far and
/// the operation that obtains the next one.
pub struct ConcatBuilder {
    /// The items, in order.
    pub items: Vec<JsValue>,
    /// How many items have been handed to `GetIteratorFlattenable`.
    pub pos: usize,
    /// The records obtained so far, `this`'s first.
    pub records: Vec<IteratorRecord>,
    /// The operation under way.
    pub current: Acquisition,
}

/// The outcome of a step of `concat`.
pub enum ConcatStep {
    /// Ask the engine for this, then resume.
    Continue(ConcatBuilder, HostRequest),
    /// Finished with the helper, or an abrupt completion.
    Finished(JsResult<IteratorHelper>),
}

/// How `concat` treats an item: objects must be iterable objects, other values may be
/// strings.
pub open spec fn spec_item_handling(item: JsValue) -> StringHandling {
    if item is Object { StringHandling::RejectStrings } else { StringHandling::IterateStrings }
}

impl ConcatBuilder {
    /// `Iterator.prototype.concat ( ...items )`: how it begins, with `GetIteratorDirect(this)`.
    pub fn start(this: JsValue, items: Vec<JsValue>) -> (r: ConcatStep)
        ensures
            match this {
                JsValue::Object(o) => r matches ConcatStep::Continue(b, q) && b.items@ == items@ && b.pos == 0
                    && b.records@ == Seq::<IteratorRecord>::empty()
                    && spec_acquire_start_direct(o) == AcquireStep::Request(b.current, q),
                _ => r matches ConcatStep::Finished(Err(e)) && e == type_error(Reason::ThisNotObject),
            },
    {
        match this {
            JsValue::Object(o) => match get_iterator_direct(o) {
                AcquireStep::Request(a, q) => ConcatStep::Continue(ConcatBuilder { items, pos: 0, records: Vec::new(), current: a }, q),
                AcquireStep::Finished(_) => ConcatStep::Finished(Err(make_type_error(Reason::ThisNotObject))),
            },
            _ => ConcatStep::Finished(Err(make_type_error(Reason::ThisNotObject))),
        }
    }

    /// Resumes `concat` with the engine's answer: each record obtained is appended; the
    /// next item is then handed to `GetIteratorFlattenable`, and once all have been, the
    /// helper is created over the records in order. An abrupt completion ends it.
    pub fn resume(self, reply: Completion) -> (r: ConcatStep)
        requires
            self.pos <= self.items@.len(),
        ensures
            match crate::acquire::spec_acquire_resume(self.current, reply) {
                AcquireStep::Request(a, q) => r matches ConcatStep::Continue(b, q2) && b.current == a && q2 == q
                    && b.pos == self.pos && b.items@ == self.items@ && b.records@ == self.records@,
                AcquireStep::Finished(Err(e)) => r matches ConcatStep::Finished(Err(e2)) && e2 == e,
                AcquireStep::Finished(Ok(acq)) => {
                    let rec = match acq { Acquired::Record(x) => x, Acquired::AsyncFromSync(x) => x };
                    let records2 = self.records@.push(rec);
                    if self.pos == self.items@.len() {
                        r matches ConcatStep::Finished(Ok(h)) && h@.underlying is None && h@.iterables == records2
                            && h@.kind is Concat && h@.counter == 0
                    } else {
                        let item = self.items@[self.pos as int];
                        match crate::acquire::spec_acquire_start(item, crate::acquire::AcquireMode::Flattenable(spec_item_handling(item)), JsValue::Undefined) {
                            AcquireStep::Request(a, q) => r matches ConcatStep::Continue(b, q2) && b.current == a && q2 == q
                                && b.pos == self.pos + 1 && b.items@ == self.items@ && b.records@ == records2,
                            AcquireStep::Finished(Err(e)) => r matches ConcatStep::Finished(Err(e2)) && e2 == e,
                            AcquireStep::Finished(Ok(_)) => false,
                        }
                    }
                },
            },
    {
        let ConcatBuilder { items, pos, mut records, current } = self;
        match current.resume(reply) {
            AcquireStep::Request(a, q) => ConcatStep::Continue(ConcatBuilder { items, pos, records, current: a }, q),
            AcquireStep::Finished(Err(e)) => ConcatStep::Finished(Err(e)),
            AcquireStep::Finished(Ok(acq)) => {
                let rec = match acq {
                    Acquired::Record(x) => x,
                    Acquired::AsyncFromSync(x) => x,
                };
                records.push(rec);
                if pos == items.len() {
                    ConcatStep::Finished(Ok(IteratorHelper::create_concat(records)))
                } else {
                    let item = items[pos];
                    let handling = if item.is_object() { StringHandling::RejectStrings } else { StringHandling::IterateStrings };
                    match get_iterator_flattenable(item, handling) {
                        AcquireStep::Request(a, q) => ConcatStep::Continue(ConcatBuilder { items, pos: pos + 1, records, current: a }, q),
                        AcquireStep::Finished(Err(e)) => ConcatStep::Finished(Err(e)),
                        AcquireStep::Finished(Ok(_)) => ConcatStep::Finished(Err(make_type_error(Reason::NotObjectOrString))),
                    }
                }
            },
        }
    }
}

/// How `GetIteratorDirect` begins on an object.
pub open spec fn spec_acquire_start_direct(o: ObjectRef) -> AcquireStep {
    crate::acquire::spec_acquire_start(JsValue::Object(o), crate::acquire::AcquireMode::Direct, JsValue::Undefined)
}

/// The `WrapForValidIterator` object's state: `[[Iterated]]`.
#[derive(Debug, Clone, Copy, PartialEq, Eq, Structural)]
pub struct WrapForValidIterator {
    /// `[[Iterated]]`.
    pub iterated: IteratorRecord,
}

impl WrapForValidIterator {
    /// Creates the wrapper.
    pub fn new(iterated: IteratorRecord) -> (r: WrapForValidIterator)
        ensures
            r.iterated == iterated,
    {
        WrapForValidIterator { iterated }
    }

    /// `[[Iterated]]`.
    pub fn iterated(&self) -> (r: IteratorRecord)
        ensures
            r == self.iterated,
    {
        self.iterated
    }
}

/// `RequireInternalSlot(O, [[Iterated]])` for the `this` value of the wrapper's methods;
/// `slot` is the engine's reading of the object's state, if it is a wrapper.
pub open spec fn spec_require_iterated(this: JsValue, slot: Option<WrapForValidIterator>) -> JsResult<WrapForValidIterator> {
    match this {
        JsValue::Object(_) => match slot {
            Some(w) => Ok(w),
            None => Err(type_error(Reason::NoIteratedSlot)),
        },
        _ => Err(type_error(Reason::ThisNotObject)),
    }
}

/// `%WrapForValidIteratorPrototype%.next ( )`: the call of `[[Iterated]].[[NextMethod]]`
/// on `[[Iterated]].[[Iterator]]`, whose answer is the method's result.
pub fn wrap_next(this: JsValue, slot: Option<WrapForValidIterator>) -> (r: JsResult<HostRequest>)
    ensures
        match spec_require_iterated(this, slot) {
            Err(e) => r == Err::<HostRequest, JsError>(e),
            Ok(w) => if spec_is_callable(w.iterated.next_method) {
                r == Ok::<HostRequest, JsError>(HostRequest::Call { function: w.iterated.next_method, this: JsValue::Object(w.iterated.iterator), args: CallArgs::Empty })
            } else {
                r == Err::<HostRequest, JsError>(type_error(Reason::NextNotCallable))
            },
        },
{
    if !this.is_object() {
        return Err(make_type_error(Reason::ThisNotObject));
    }
    let w = match slot {
        Some(w) => w,
        None => return Err(make_type_error(Reason::NoIteratedSlot)),
    };
    let rec = w.iterated;
    if rec.next_method.as_callable().is_none() {
        return Err(make_type_error(Reason::NextNotCallable));
    }
    Ok(HostRequest::Call { function: rec.next_method, this: JsValue::Object(rec.iterator), args: CallArgs::Empty })
}

/// What `%WrapForValidIteratorPrototype%.return` or `%IteratorHelperPrototype%.return`
/// does once `GetMethod(iterator, "return")` has answered.
#[derive(Debug, Clone, Copy)]
pub enum ReturnFnStep {
    /// Call the `return` method; its answer is the result.
    Call(HostRequest),
    /// Finished with the result object, or an abrupt completion.
    Finished(JsResult<IterResultObject>),
}

/// `%WrapForValidIteratorPrototype%.return ( )`: how it begins, with
/// `GetMethod(iterator, "return")`.
pub fn wrap_return_start(this: JsValue, slot: Option<WrapForValidIterator>) -> (r: JsResult<(ObjectRef, HostRequest)>)
    ensures
        match spec_require_iterated(this, slot) {
            Err(e) => r == Err::<(ObjectRef, HostRequest), JsError>(e),
            Ok(w) => r == Ok::<(ObjectRef, HostRequest), JsError>((w.iterated.iterator,
                HostRequest::GetMethod { value: JsValue::Object(w.iterated.iterator), key: PropertyKey::Return })),
        },
{
    if !this.is_object() {
        return Err(make_type_error(Reason::ThisNotObject));
    }
    match slot {
        Some(w) => {
            let it = w.iterated.iterator;
            Ok((it, HostRequest::GetMethod { value: JsValue::Object(it), key: PropertyKey::Return }))
        },
        None => Err(make_type_error(Reason::NoIteratedSlot)),
    }
}

/// `%WrapForValidIteratorPrototype%.return ( )` once `GetMethod` has answered: without a
/// `return` method the result is `{ value: undefined, done: true }`.
pub fn wrap_return_resume(iterator: ObjectRef, got: Completion) -> (r: ReturnFnStep)
    ensures
        match got {
            Err(e) => r matches ReturnFnStep::Finished(Err(e2)) && e2 == e,
            Ok(JsValue::Undefined) => r matches ReturnFnStep::Finished(Ok(res)) && res.value == JsValue::Undefined && res.done,
            Ok(f) => r matches ReturnFnStep::Call(q)
                && q == (HostRequest::Call { function: f, this: JsValue::Object(iterator), args: CallArgs::Empty }),
        },
{
    match got {
        Err(e) => ReturnFnStep::Finished(Err(e)),
        Ok(JsValue::Undefined) => ReturnFnStep::Finished(Ok(create_iter_result_object(JsValue::Undefined, true))),
        Ok(f) => ReturnFnStep::Call(HostRequest::Call { function: f, this: JsValue::Object(iterator), args: CallArgs::Empty }),
    }
}

/// `RequireInternalSlot(O, [[UnderlyingIterator]])` for the `this` value of the helper's
/// methods; `is_helper` is the engine's reading of whether the object is a helper.
pub fn require_helper(this: JsValue, is_helper: bool) -> (r: JsResult<ObjectRef>)
    ensures
        match this {
            JsValue::Object(o) => if is_helper { r == Ok::<ObjectRef, JsError>(o) } else {
                r == Err::<ObjectRef, JsError>(type_error(Reason::NotIteratorHelper))
            },
            _ => r == Err::<ObjectRef, JsError>(type_error(Reason::ThisNotObject)),
        },
{
    match this {
        JsValue::Object(o) => if is_helper { Ok(o) } else { Err(make_type_error(Reason::NotIteratorHelper)) },
        _ => Err(make_type_error(Reason::ThisNotObject)),
    }
}

/// What `Iterator.from` gives.
#[derive(Debug, Clone, Copy, PartialEq, Eq, Structural)]
pub enum FromResult {
    /// The iterator itself, which already inherits from `%Iterator.prototype%`.
    Iterator(ObjectRef),
    /// A new object with `%WrapForValidIteratorPrototype%` as prototype and this state.
    Wrapped(WrapForValidIterator),
}

/// `Iterator.from ( O )` once `GetIteratorFlattenable(O, iterate-strings)` has given
/// `record`: the request of `OrdinaryHasInstance(%Iterator%, record.[[Iterator]])`.
pub fn from_has_instance_request(record: IteratorRecord) -> (r: HostRequest)
    ensures
        r == (HostRequest::IsIteratorInstance { object: record.iterator }),
{
    HostRequest::IsIteratorInstance { object: record.iterator }
}

/// `Iterator.from ( O )` once `OrdinaryHasInstance` has answered: the iterator itself
/// when it is an instance of `%Iterator%`, a wrapper around the record otherwise.
pub fn from_finish(record: IteratorRecord, has_instance: Completion) -> (r: JsResult<FromResult>)
    ensures
        match has_instance {
            Err(e) => r == Err::<FromResult, JsError>(e),
            Ok(b) => if spec_to_boolean(b) {
                r == Ok::<FromResult, JsError>(FromResult::Iterator(record.iterator))
            } else {
                r == Ok::<FromResult, JsError>(FromResult::Wrapped(WrapForValidIterator { iterated: record }))
            },
        },
{
    let b = has_instance?;
    if b.to_boolean() {
        Ok(FromResult::Iterator(record.iterator))
    } else {
        Ok(FromResult::Wrapped(WrapForValidIterator::new(record)))
    }
}

/// `Iterator ( )`: `NewTarget` must be defined and must not be `%Iterator%` itself
/// (`active_function`, the function being run); the engine then creates the object from
/// `NewTarget`.
pub fn constructor_check(new_target: JsValue, active_function: Option<ObjectRef>) -> (r: JsResult<()>)
    ensures
        new_target is Undefined ==> r == Err::<(), JsError>(type_error(Reason::ConstructorWithoutNew)),
        !(new_target is Undefined) ==> match (new_target, active_function) {
            (JsValue::Object(nt), Some(af)) => if nt.id == af.id {
                r == Err::<(), JsError>(type_error(Reason::AbstractIterator))
            } else {
                r is Ok
            },
            _ => r is Ok,
        },
{
    if new_target.is_undefined() {
        return Err(make_type_error(Reason::ConstructorWithoutNew));
    }
    match (new_target, active_function) {
        (JsValue::Object(nt), Some(af)) => if nt.id == af.id {
            Err(make_type_error(Reason::AbstractIterator))
        } else {
            Ok(())
        },
        _ => Ok(()),
    }
}

/// `Iterator.prototype [ @@iterator ] ( )` and `AsyncIteratorPrototype [ @@asyncIterator ] ( )`:
/// the `this` value.
pub fn iterator_identity(this: JsValue) -> (r: JsValue)
    ensures
        r == this,
{
    this
}

/// `get Iterator.prototype [ @@toStringTag ]`: `"Iterator"`.
pub fn get_to_string_tag() -> (r: &'static str)
    ensures
        r@ == "Iterator"@,
{
    "Iterator"
}

/// `SetterThatIgnoresPrototypeProperties ( this, home, p, v )`: how it begins. `this`
/// must be an object other than `home`.
pub fn setter_start(this: JsValue, home: ObjectRef, p: PropertyKey) -> (r: JsResult<(ObjectRef, HostRequest)>)
    ensures
        match this {
            JsValue::Object(o) => if o.id == home.id {
                r == Err::<(ObjectRef, HostRequest), JsError>(type_error(Reason::SetOnHomeObject))
            } else {
                r == Ok::<(ObjectRef, HostRequest), JsError>((o, HostRequest::HasOwnProperty { object: o, key: p }))
            },
            _ => r == Err::<(ObjectRef, HostRequest), JsError>(type_error(Reason::ThisNotObject)),
        },
{
    match this {
        JsValue::Object(o) => if o.id == home.id {
            Err(make_type_error(Reason::SetOnHomeObject))
        } else {
            Ok((o, HostRequest::HasOwnProperty { object: o, key: p }))
        },
        _ => Err(make_type_error(Reason::ThisNotObject)),
    }
}

/// `SetterThatIgnoresPrototypeProperties` once the own property lookup has answered:
/// without an own property `p` is created as a data property, otherwise it is `Set`.
pub fn setter_write(object: ObjectRef, p: PropertyKey, v: JsValue, has_own: Completion) -> (r: JsResult<HostRequest>)
    ensures
        match has_own {
            Err(e) => r == Err::<HostRequest, JsError>(e),
            Ok(h) => if spec_to_boolean(h) {
                r == Ok::<HostRequest, JsError>(HostRequest::SetProperty { object, key: p, value: v })
            } else {
                r == Ok::<HostRequest, JsError>(HostRequest::CreateDataProperty { object, key: p, value: v })
            },
        },
{
    let h = has_own?;
    if h.to_boolean() {
        Ok(HostRequest::SetProperty { object, key: p, value: v })
    } else {
        Ok(HostRequest::CreateDataProperty { object, key: p, value: v })
    }
}

/// `SetterThatIgnoresPrototypeProperties` once the write has answered: `undefined`.
pub fn setter_finish(written: Completion) -> (r: Completion)
    ensures
        match written {
            Err(e) => r == Err::<JsValue, JsError>(e),
            Ok(_) => r == Ok::<JsValue, JsError>(JsValue::Undefined),
        },
{
    let _ = written?;
    Ok(JsValue::Undefined)
}

/// `set Iterator.prototype [ @@toStringTag ] ( v )`: the setter above with
/// `%Iterator.prototype%` as home and `@@toStringTag` as key.
pub fn set_to_string_tag_start(this: JsValue, iterator_prototype: ObjectRef) -> (r: JsResult<(ObjectRef, HostRequest)>)
    ensures
        match this {
            JsValue::Object(o) => if o.id == iterator_prototype.id {
                r == Err::<(ObjectRef, HostRequest), JsError>(type_error(Reason::SetOnHomeObject))
            } else {
                r == Ok::<(ObjectRef, HostRequest), JsError>((o, HostRequest::HasOwnProperty { object: o, key: PropertyKey::SymbolToStringTag }))
            },
            _ => r == Err::<(ObjectRef, HostRequest), JsError>(type_error(Reason::ThisNotObject)),
        },
{
    setter_start(this, iterator_prototype, PropertyKey::SymbolToStringTag)
}

} // verus!
