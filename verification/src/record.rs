//! Iterator Records and the abstract operations on them: `IteratorNext`,
//! `IteratorComplete`, `IteratorValue`, `IteratorStep`, `IteratorStepValue`,
//! `IteratorClose` and `IteratorToList`.
//!
//! Each operation that has to run JavaScript is split at the points where it asks the
//! engine for something: a `*_start` function gives the first request, and a resume
//! function takes the engine's answer and gives the next request or the final result.

use vstd::prelude::*;
use crate::value::{
    make_type_error, spec_as_object, spec_to_boolean, type_error, CallArgs, Completion, HostRequest,
    JsError, JsResult, JsValue, ObjectRef, PropertyKey, Reason,
};

verus! {

/// The result object returned by an iterator's `next` method.
#[derive(Debug, Clone, Copy, PartialEq, Eq, Structural)]
pub struct IteratorResult {
    /// The result object.
    pub object: ObjectRef,
}

/// What `IteratorResult::from_value` gives for a value.
pub open spec fn spec_result_from_value(value: JsValue) -> JsResult<IteratorResult> {
    match value {
        JsValue::Object(o) => Ok(IteratorResult { object: o }),
        _ => Err(type_error(Reason::NextResultNotObject)),
    }
}

/// What `IteratorComplete` gives once `Get(iterResult, "done")` has answered.
pub open spec fn spec_complete(got: Completion) -> JsResult<bool> {
    match got {
        Ok(v) => Ok(spec_to_boolean(v)),
        Err(e) => Err(e),
    }
}

impl IteratorResult {
    /// Wraps a value returned by `next`; a value that is not an object is a `TypeError`.
    pub fn from_value(value: JsValue) -> (r: JsResult<IteratorResult>)
        ensures
            r == spec_result_from_value(value),
    {
        match value {
            JsValue::Object(o) => Ok(IteratorResult { object: o }),
            _ => Err(make_type_error(Reason::NextResultNotObject)),
        }
    }

    /// The result object.
    pub fn object(&self) -> (r: ObjectRef)
        ensures
            r == self.object,
    {
        self.object
    }

    /// The request of `IteratorComplete ( iterResult )`: `Get(iterResult, "done")`.
    pub fn complete_request(&self) -> (r: HostRequest)
        ensures
            r == (HostRequest::Get { object: self.object, key: PropertyKey::Done }),
    {
        HostRequest::Get { object: self.object, key: PropertyKey::Done }
    }

    /// `IteratorComplete ( iterResult )`, given the answer to `complete_request`:
    /// `ToBoolean` of the `done` property.
    pub fn complete(&self, got: Completion) -> (r: JsResult<bool>)
        ensures
            r == spec_complete(got),
    {
        match got {
            Ok(v) => Ok(v.to_boolean()),
            Err(e) => Err(e),
        }
    }

    /// The request of `IteratorValue ( iterResult )`: `Get(iterResult, "value")`.
    pub fn value_request(&self) -> (r: HostRequest)
        ensures
            r == (HostRequest::Get { object: self.object, key: PropertyKey::Value }),
    {
        HostRequest::Get { object: self.object, key: PropertyKey::Value }
    }

    /// `IteratorValue ( iterResult )`, given the answer to `value_request`: that answer.
    pub fn value(&self, got: Completion) -> (r: Completion)
        ensures
            r == got,
    {
        got
    }
}

/// An Iterator Record: an iterator, its `next` method, whether it is done, and the last
/// result that `next` returned (`None` before the first one).
#[derive(Debug, Clone, Copy, PartialEq, Eq, Structural)]
pub struct IteratorRecord {
    /// `[[Iterator]]`.
    pub iterator: ObjectRef,
    /// `[[NextMethod]]`.
    pub next_method: JsValue,
    /// `[[Done]]`.
    pub done: bool,
    /// The result of the last call to `next`.
    pub last_result: Option<IteratorResult>,
}

/// The record with `done` set.
pub open spec fn spec_set_done(rec: IteratorRecord) -> IteratorRecord {
    IteratorRecord { done: true, ..rec }
}

/// Where `IteratorStep` / `IteratorStepValue` stand: waiting for the answer to the call
/// of `next`, to `Get(result, "done")`, or to `Get(result, "value")`.
#[derive(Debug, Clone, Copy, PartialEq, Eq, Structural)]
pub enum StepPhase {
    /// Waiting for the call of `next`.
    AwaitNext,
    /// Waiting for `Get(result, "done")`.
    AwaitDone(IteratorResult),
    /// Waiting for `Get(result, "value")`.
    AwaitValue(IteratorResult),
}

/// The outcome of a step of `IteratorStepValue`.
#[derive(Debug, Clone, Copy)]
pub enum StepValueStep {
    /// Ask the engine for this, then resume in this phase.
    Request(StepPhase, HostRequest),
    /// Finished: the next value, `None` when the iterator is done, or an abrupt completion.
    Finished(JsResult<Option<JsValue>>),
}

/// The outcome of a step of `IteratorStep`.
#[derive(Debug, Clone, Copy)]
pub enum StepStep {
    /// Ask the engine for this, then resume in this phase.
    Request(StepPhase, HostRequest),
    /// Finished: whether the iterator reported `done`, or an abrupt completion.
    Finished(JsResult<bool>),
}

/// The request of `IteratorNext ( iteratorRecord [ , value ] )`: the call of `next`.
pub open spec fn spec_next_request(rec: IteratorRecord, value: Option<JsValue>) -> HostRequest {
    HostRequest::Call {
        function: rec.next_method,
        this: JsValue::Object(rec.iterator),
        args: match value {
            Some(v) => CallArgs::One(v),
            None => CallArgs::Empty,
        },
    }
}

/// `IteratorNext`, given the answer to the call of `next`: the new record and the result.
pub open spec fn spec_next_finish(rec: IteratorRecord, reply: Completion) -> (IteratorRecord, JsResult<IteratorResult>) {
    match reply {
        Err(e) => (spec_set_done(rec), Err(e)),
        Ok(v) => match spec_result_from_value(v) {
            Ok(r) => (rec, Ok(r)),
            Err(e) => (spec_set_done(rec), Err(e)),
        },
    }
}

/// One transition of `IteratorStepValue`.
pub open spec fn spec_step_value(rec: IteratorRecord, phase: StepPhase, reply: Completion) -> (IteratorRecord, StepValueStep) {
    match phase {
        StepPhase::AwaitNext => {
            let (rec2, res) = spec_next_finish(rec, reply);
            match res {
                Err(e) => (rec2, StepValueStep::Finished(Err(e))),
                Ok(r) => (rec2, StepValueStep::Request(StepPhase::AwaitDone(r), HostRequest::Get { object: r.object, key: PropertyKey::Done })),
            }
        },
        StepPhase::AwaitDone(r) => match reply {
            Err(e) => (spec_set_done(rec), StepValueStep::Finished(Err(e))),
            Ok(v) => {
                let d = spec_to_boolean(v);
                let rec2 = IteratorRecord { done: d, last_result: Some(r), ..rec };
                if d {
                    (rec2, StepValueStep::Finished(Ok(None)))
                } else {
                    (rec2, StepValueStep::Request(StepPhase::AwaitValue(r), HostRequest::Get { object: r.object, key: PropertyKey::Value }))
                }
            },
        },
        StepPhase::AwaitValue(r) => match reply {
            Err(e) => (spec_set_done(rec), StepValueStep::Finished(Err(e))),
            Ok(v) => (rec, StepValueStep::Finished(Ok(Some(v)))),
        },
    }
}

/// One transition of `IteratorStep`: as `IteratorStepValue`, but it finishes once `done`
/// is known and gives it.
pub open spec fn spec_step(rec: IteratorRecord, phase: StepPhase, reply: Completion) -> (IteratorRecord, StepStep) {
    match phase {
        StepPhase::AwaitDone(r) => match reply {
            Err(e) => (spec_set_done(rec), StepStep::Finished(Err(e))),
            Ok(v) => {
                let d = spec_to_boolean(v);
                (IteratorRecord { done: d, last_result: Some(r), ..rec }, StepStep::Finished(Ok(d)))
            },
        },
        _ => {
            let (rec2, s) = spec_step_value(rec, StepPhase::AwaitNext, reply);
            (rec2, match s {
                StepValueStep::Request(p, q) => StepStep::Request(p, q),
                StepValueStep::Finished(Err(e)) => StepStep::Finished(Err(e)),
                StepValueStep::Finished(Ok(_)) => StepStep::Finished(Ok(true)),
            })
        },
    }
}

/// What `IteratorClose` does once `GetMethod(iterator, "return")` has answered.
#[derive(Debug, Clone, Copy)]
pub enum CloseStep {
    /// Call the `return` method with this request, then finish with `close_after_call`.
    Call(HostRequest),
    /// Finished with this completion.
    Finished(Completion),
}

/// `IteratorClose`, once `GetMethod(iterator, "return")` has answered `got`.
pub open spec fn spec_close_after_get_method(iterator: ObjectRef, completion: Completion, got: Completion) -> CloseStep {
    match got {
        Ok(JsValue::Undefined) => CloseStep::Finished(completion),
        Ok(f) => CloseStep::Call(HostRequest::Call { function: f, this: JsValue::Object(iterator), args: CallArgs::Empty }),
        Err(e) => match completion {
            Err(c) => CloseStep::Finished(Err(c)),
            Ok(_) => CloseStep::Finished(Err(e)),
        },
    }
}

/// `IteratorClose`, once the call of `return` has answered `inner`.
pub open spec fn spec_close_after_call(completion: Completion, inner: Completion) -> Completion {
    match completion {
        Err(c) => Err(c),
        Ok(v) => match inner {
            Err(e) => Err(e),
            Ok(JsValue::Object(_)) => Ok(v),
            Ok(_) => Err(type_error(Reason::InnerResultNotObject)),
        },
    }
}

impl IteratorRecord {
    /// Creates a record for an iterator and its `next` method, not done.
    pub fn new(iterator: ObjectRef, next_method: JsValue) -> (r: IteratorRecord)
        ensures
            r.iterator == iterator,
            r.next_method == next_method,
            !r.done,
            r.last_result is None,
    {
        IteratorRecord { iterator, next_method, done: false, last_result: None }
    }

    /// `[[Iterator]]`.
    pub fn iterator(&self) -> (r: ObjectRef)
        ensures
            r == self.iterator,
    {
        self.iterator
    }

    /// `[[NextMethod]]`.
    pub fn next_method(&self) -> (r: JsValue)
        ensures
            r == self.next_method,
    {
        self.next_method
    }

    /// The last result that `next` returned.
    pub fn last_result(&self) -> (r: Option<IteratorResult>)
        ensures
            r == self.last_result,
    {
        self.last_result
    }

    /// `[[Done]]`.
    pub fn done(&self) -> (r: bool)
        ensures
            r == self.done,
    {
        self.done
    }

    /// Sets `[[Done]]` when `result` is abrupt, and passes `result` on.
    pub fn set_done_on_err<T>(&mut self, result: JsResult<T>) -> (r: JsResult<T>)
        ensures
            r == result,
            *final(self) == (if result is Err { spec_set_done(*old(self)) } else { *old(self) }),
    {
        if result.is_err() {
            self.done = true;
        }
        result
    }

    /// The request that reads the value of the last result, if there is one; before the
    /// first call of `next` the value is `undefined` and nothing has to be asked.
    pub fn value_request(&self) -> (r: Option<HostRequest>)
        ensures
            r == (match self.last_result {
                Some(res) => Some(HostRequest::Get { object: res.object, key: PropertyKey::Value }),
                None => None,
            }),
    {
        match self.last_result {
            Some(res) => Some(res.value_request()),
            None => None,
        }
    }

    /// The current value of the record, given the answer to `value_request` (or
    /// `Ok(undefined)` when there was nothing to ask); an abrupt answer marks the record done.
    pub fn value(&mut self, got: Completion) -> (r: Completion)
        ensures
            r == got,
            *final(self) == (if got is Err { spec_set_done(*old(self)) } else { *old(self) }),
    {
        self.set_done_on_err(got)
    }

    /// The request of `IteratorNext`: the call of `next`, with `value` as its argument if given.
    pub fn next_request(&self, value: Option<JsValue>) -> (r: HostRequest)
        ensures
            r == spec_next_request(*self, value),
    {
        HostRequest::Call {
            function: self.next_method,
            this: JsValue::Object(self.iterator),
            args: match value {
                Some(v) => CallArgs::One(v),
                None => CallArgs::Empty,
            },
        }
    }

    /// `IteratorNext`, given the answer to `next_request`: an abrupt answer or an answer
    /// that is not an object marks the record done.
    pub fn next(&mut self, reply: Completion) -> (r: JsResult<IteratorResult>)
        ensures
            (*final(self), r) == spec_next_finish(*old(self), reply),
    {
        match reply {
            Err(e) => {
                self.done = true;
                Err(e)
            },
            Ok(v) => {
                let res = IteratorResult::from_value(v);
                self.set_done_on_err(res)
            },
        }
    }

    /// The first request of `IteratorStep` and `IteratorStepValue`.
    pub fn step_start(&self) -> (r: (StepPhase, HostRequest))
        ensures
            r == (StepPhase::AwaitNext, spec_next_request(*self, None)),
    {
        (StepPhase::AwaitNext, self.next_request(None))
    }

    /// Resumes `IteratorStepValue` in `phase` with the engine's answer.
    pub fn step_value(&mut self, phase: StepPhase, reply: Completion) -> (r: StepValueStep)
        ensures
            (*final(self), r) == spec_step_value(*old(self), phase, reply),
    {
        match phase {
            StepPhase::AwaitNext => {
                match self.next(reply) {
                    Err(e) => StepValueStep::Finished(Err(e)),
                    Ok(r) => StepValueStep::Request(StepPhase::AwaitDone(r), r.complete_request()),
                }
            },
            StepPhase::AwaitDone(r) => {
                match r.complete(reply) {
                    Err(e) => {
                        self.done = true;
                        StepValueStep::Finished(Err(e))
                    },
                    Ok(d) => {
                        self.done = d;
                        self.last_result = Some(r);
                        if d {
                            StepValueStep::Finished(Ok(None))
                        } else {
                            StepValueStep::Request(StepPhase::AwaitValue(r), r.value_request())
                        }
                    },
                }
            },
            StepPhase::AwaitValue(r) => {
                match self.value(reply) {
                    Err(e) => StepValueStep::Finished(Err(e)),
                    Ok(v) => StepValueStep::Finished(Ok(Some(v))),
                }
            },
        }
    }

    /// Resumes `IteratorStep` in `phase` with the engine's answer.
    pub fn step(&mut self, phase: StepPhase, reply: Completion) -> (r: StepStep)
        ensures
            (*final(self), r) == spec_step(*old(self), phase, reply),
    {
        match phase {
            StepPhase::AwaitDone(r) => {
                match r.complete(reply) {
                    Err(e) => {
                        self.done = true;
                        StepStep::Finished(Err(e))
                    },
                    Ok(d) => {
                        self.done = d;
                        self.last_result = Some(r);
                        StepStep::Finished(Ok(d))
                    },
                }
            },
            _ => {
                match self.step_value(StepPhase::AwaitNext, reply) {
                    StepValueStep::Request(p, q) => StepStep::Request(p, q),
                    StepValueStep::Finished(Err(e)) => StepStep::Finished(Err(e)),
                    StepValueStep::Finished(Ok(_)) => StepStep::Finished(Ok(true)),
                }
            },
        }
    }

    /// The first request of `update_result`: wraps `result` and asks for its `done`
    /// property; a result that is not an object marks the record done.
    pub fn update_result_start(&mut self, result: JsValue) -> (r: JsResult<(IteratorResult, HostRequest)>)
        ensures
            match spec_result_from_value(result) {
                Ok(res) => r == Ok::<(IteratorResult, HostRequest), JsError>((res, HostRequest::Get { object: res.object, key: PropertyKey::Done }))
                    && *final(self) == *old(self),
                Err(e) => r == Err::<(IteratorResult, HostRequest), JsError>(e) && *final(self) == spec_set_done(*old(self)),
            },
    {
        match IteratorResult::from_value(result) {
            Ok(res) => Ok((res, res.complete_request())),
            Err(e) => {
                self.done = true;
                Err(e)
            },
        }
    }

    /// Finishes `update_result` with the answer to `Get(result, "done")`: records the
    /// result and whether it is done.
    pub fn update_result(&mut self, result: IteratorResult, got: Completion) -> (r: JsResult<()>)
        ensures
            match spec_complete(got) {
                Ok(d) => r is Ok && *final(self) == IteratorRecord { done: d, last_result: Some(result), ..*old(self) },
                Err(e) => r == Err::<(), JsError>(e) && *final(self) == spec_set_done(*old(self)),
            },
    {
        match result.complete(got) {
            Ok(d) => {
                self.done = d;
                self.last_result = Some(result);
                Ok(())
            },
            Err(e) => {
                self.done = true;
                Err(e)
            },
        }
    }

    /// The first request of `IteratorClose`: `GetMethod(iterator, "return")`.
    pub fn close_start(&self) -> (r: HostRequest)
        ensures
            r == (HostRequest::GetMethod { value: JsValue::Object(self.iterator), key: PropertyKey::Return }),
    {
        HostRequest::GetMethod { value: JsValue::Object(self.iterator), key: PropertyKey::Return }
    }

    /// `IteratorClose ( iteratorRecord, completion )` once `GetMethod(iterator, "return")`
    /// has answered `got`: without a `return` method the completion stands; otherwise
    /// the method is called.
    pub fn close_after_get_method(&self, completion: Completion, got: Completion) -> (r: CloseStep)
        ensures
            r == spec_close_after_get_method(self.iterator, completion, got),
    {
        match got {
            Ok(JsValue::Undefined) => CloseStep::Finished(completion),
            Ok(f) => CloseStep::Call(HostRequest::Call { function: f, this: JsValue::Object(self.iterator), args: CallArgs::Empty }),
            Err(e) => match completion {
                Err(c) => CloseStep::Finished(Err(c)),
                Ok(_) => CloseStep::Finished(Err(e)),
            },
        }
    }

    /// `IteratorClose` once the call of `return` has answered `inner`: an abrupt
    /// completion stands, then an abrupt `inner`, then a `TypeError` when `inner` is not
    /// an object; otherwise the completion stands.
    pub fn close_after_call(completion: Completion, inner: Completion) -> (r: Completion)
        ensures
            r == spec_close_after_call(completion, inner),
    {
        match completion {
            Err(c) => Err(c),
            Ok(v) => match inner {
                Err(e) => Err(e),
                Ok(JsValue::Object(_)) => Ok(v),
                Ok(_) => Err(make_type_error(Reason::InnerResultNotObject)),
            },
        }
    }
}

/// `IteratorClose` never replaces a throw completion: whatever `GetMethod` and the call of
/// `return` answer, closing with an abrupt completion gives that completion back.
pub proof fn lemma_close_keeps_throw(iterator: ObjectRef, e: JsError, got: Completion, inner: Completion)
    ensures
        spec_close_after_get_method(iterator, Err(e), got) is Call
            || spec_close_after_get_method(iterator, Err(e), got) == CloseStep::Finished(Err(e)),
        spec_close_after_call(Err(e), inner) == Err::<JsValue, JsError>(e),
{
}

/// Any abrupt outcome of a step marks the record done, as `IteratorStepValue` requires;
/// a step that finds no value leaves it done, and a value is only ever found once the
/// `value` property has been read, leaving `done` as the `done` property set it.
pub proof fn lemma_step_value_done_flag(rec: IteratorRecord, phase: StepPhase, reply: Completion)
    ensures
        ({
            let (rec2, s) = spec_step_value(rec, phase, reply);
            &&& (s matches StepValueStep::Finished(Err(_)) ==> rec2.done)
            &&& (s matches StepValueStep::Finished(Ok(None)) ==> rec2.done)
            &&& (s matches StepValueStep::Finished(Ok(Some(_))) ==> (phase is AwaitValue && rec2.done == rec.done))
        }),
{
}

/// A step never changes which iterator a record holds nor its `next` method.
pub proof fn lemma_step_keeps_iterator(rec: IteratorRecord, phase: StepPhase, reply: Completion)
    ensures
        spec_step_value(rec, phase, reply).0.iterator == rec.iterator,
        spec_step_value(rec, phase, reply).0.next_method == rec.next_method,
        spec_step(rec, phase, reply).0.iterator == rec.iterator,
        spec_step(rec, phase, reply).0.next_method == rec.next_method,
{
}

/// `IteratorToList` in progress: the values collected so far and where the current step
/// stands.
pub struct ListCollector {
    /// The record being drained.
    pub record: IteratorRecord,
    /// The values collected so far, in order.
    pub values: Vec<JsValue>,
    /// Where the current step stands.
    pub phase: StepPhase,
}

/// The outcome of a step of `IteratorToList`.
pub enum CollectStep {
    /// Ask the engine for this, then resume the collector.
    Continue(ListCollector, HostRequest),
    /// Finished: all the values, in order, or an abrupt completion.
    Finished(JsResult<Vec<JsValue>>),
}

impl ListCollector {
    /// The first request of `IteratorToList ( iteratorRecord )`.
    pub fn start(record: IteratorRecord) -> (r: (ListCollector, HostRequest))
        ensures
            r.0.record == record,
            r.0.values@ == Seq::<JsValue>::empty(),
            r.0.phase == StepPhase::AwaitNext,
            r.1 == spec_next_request(record, None),
    {
        let (phase, req) = record.step_start();
        (ListCollector { record, values: Vec::new(), phase }, req)
    }

    /// Resumes `IteratorToList` with the engine's answer: each value that a step finds
    /// is appended, and the list is given once a step finds none.
    pub fn resume(self, reply: Completion) -> (r: CollectStep)
        ensures
            ({
                let (rec2, s) = spec_step_value(self.record, self.phase, reply);
                match s {
                    StepValueStep::Request(p, q) => r matches CollectStep::Continue(c, req)
                        && c.record == rec2 && c.phase == p && req == q && c.values@ == self.values@,
                    StepValueStep::Finished(Ok(Some(v))) => r matches CollectStep::Continue(c, req)
                        && c.record == rec2 && c.phase == StepPhase::AwaitNext
                        && req == spec_next_request(rec2, None) && c.values@ == self.values@.push(v),
                    StepValueStep::Finished(Ok(None)) => r matches CollectStep::Finished(Ok(vs))
                        && vs@ == self.values@,
                    StepValueStep::Finished(Err(e)) => r matches CollectStep::Finished(Err(e2)) && e2 == e,
                }
            }),
    {
        let ListCollector { mut record, mut values, phase } = self;
        match record.step_value(phase, reply) {
            StepValueStep::Request(p, q) => CollectStep::Continue(ListCollector { record, values, phase: p }, q),
            StepValueStep::Finished(Ok(Some(v))) => {
                values.push(v);
                let (p, q) = record.step_start();
                CollectStep::Continue(ListCollector { record, values, phase: p }, q)
            },
            StepValueStep::Finished(Ok(None)) => CollectStep::Finished(Ok(values)),
            StepValueStep::Finished(Err(e)) => CollectStep::Finished(Err(e)),
        }
    }
}

} // verus!
