//! Iterator helpers: the objects that `Iterator.prototype.map`, `filter`, `take`, `drop`
//! and `concat` return, and the `next` and `return` methods of
//! `%IteratorHelperPrototype%`.

use vstd::prelude::*;
use crate::value::{
    make_range_error, make_type_error, range_error, spec_as_object, spec_is_callable,
    spec_to_boolean, type_error, CallArgs, Completion, HostRequest, JsError, JsResult, JsValue,
    ObjectRef, PropertyKey, Reason,
};
use crate::record::{spec_next_request, spec_step_value, IteratorRecord, StepPhase, StepValueStep};

verus! {

/// An integer, or one of the infinities.
#[derive(Debug, Clone, Copy, PartialEq, Eq, Structural)]
pub enum IntegerOrInfinity {
    /// `+∞`.
    PositiveInfinity,
    /// A finite integer.
    Integer(i64),
    /// `-∞`.
    NegativeInfinity,
}

/// The Number that `ToNumber(limit)` produced, as far as `take` and `drop` read it:
/// whether it is `NaN`.
#[derive(Debug, Clone, Copy, PartialEq, Eq, Structural)]
pub enum LimitNumber {
    /// `NaN`.
    NaN,
    /// Any other Number.
    Number,
}

/// What kind of helper an iterator helper is, with its per-kind state.
#[derive(Debug, Clone, Copy, PartialEq, Eq, Structural)]
pub enum HelperKind {
    /// `map`: applies `mapper` to each value.
    Mapper { mapper: ObjectRef },
    /// `concat`: yields the values of several iterators one after the other.
    Concat,
    /// `drop`: skips the first `remaining` values.
    Drop { remaining: IntegerOrInfinity },
    /// `take`: yields at most `remaining` more values.
    Take { remaining: IntegerOrInfinity },
    /// `filter`: yields the values for which `predicate` is truthy.
    Filter { predicate: ObjectRef },
}

/// The object that `CreateIterResultObject ( value, done )` creates.
#[derive(Debug, Clone, Copy, PartialEq, Eq, Structural)]
pub struct IterResultObject {
    /// The `value` property.
    pub value: JsValue,
    /// The `done` property.
    pub done: bool,
}

/// `CreateIterResultObject ( value, done )`: the properties of the object the engine creates.
pub fn create_iter_result_object(value: JsValue, done: bool) -> (r: IterResultObject)
    ensures
        r.value == value,
        r.done == done,
{
    IterResultObject { value, done }
}

/// The result that ends an iteration: `{ value: undefined, done: true }`.
pub open spec fn spec_done_result() -> IterResultObject {
    IterResultObject { value: JsValue::Undefined, done: true }
}

/// The result that carries a value: `{ value, done: false }`.
pub open spec fn spec_value_result(v: JsValue) -> IterResultObject {
    IterResultObject { value: v, done: false }
}

/// An iterator helper object's internal state.
pub struct IteratorHelper {
    /// `[[UnderlyingIterator]]`, absent for `concat`.
    pub underlying: Option<IteratorRecord>,
    /// The iterators that `concat` has still to go through, the current one first.
    pub iterables: Vec<IteratorRecord>,
    /// The kind of helper.
    pub kind: HelperKind,
    /// How many values have been passed to the mapper or predicate.
    pub counter: u64,
}

/// The state of an iterator helper as a mathematical value.
pub struct HelperView {
    /// `[[UnderlyingIterator]]`.
    pub underlying: Option<IteratorRecord>,
    /// The iterators left for `concat`.
    pub iterables: Seq<IteratorRecord>,
    /// The kind of helper.
    pub kind: HelperKind,
    /// The counter.
    pub counter: u64,
}

impl View for IteratorHelper {
    type V = HelperView;

    open spec fn view(&self) -> HelperView {
        HelperView {
            underlying: self.underlying,
            iterables: self.iterables@,
            kind: self.kind,
            counter: self.counter,
        }
    }
}

/// A limit that `take` and `drop` accept: not `-∞` and not negative.
pub open spec fn limit_ok(l: IntegerOrInfinity) -> bool {
    match l {
        IntegerOrInfinity::NegativeInfinity => false,
        IntegerOrInfinity::Integer(n) => n >= 0,
        IntegerOrInfinity::PositiveInfinity => true,
    }
}

impl HelperView {
    /// Every helper but `concat` has an underlying iterator, and the limits of `take` and
    /// `drop` are never negative.
    pub open spec fn wf(self) -> bool {
        &&& (self.kind is Concat <==> self.underlying is None)
        &&& (self.kind matches HelperKind::Drop { remaining } ==> limit_ok(remaining))
        &&& (self.kind matches HelperKind::Take { remaining } ==> limit_ok(remaining))
    }

    /// The iterator that the helper steps: the underlying one, or the first of `concat`'s.
    pub open spec fn current(self) -> IteratorRecord {
        match self.underlying {
            Some(u) => u,
            None => self.iterables[0],
        }
    }

    /// The helper with the iterator that it steps replaced.
    pub open spec fn with_current(self, rec: IteratorRecord) -> HelperView {
        match self.underlying {
            Some(_) => HelperView { underlying: Some(rec), ..self },
            None => HelperView { iterables: self.iterables.update(0, rec), ..self },
        }
    }

    /// Whether the helper has an iterator to step.
    pub open spec fn has_current(self) -> bool {
        self.underlying is Some || self.iterables.len() > 0
    }
}

/// The counter after one more call: it wraps around at `u64::MAX`.
pub open spec fn spec_counter_next(c: u64) -> u64 {
    if c == u64::MAX { 0 } else { (c + 1) as u64 }
}

/// Where a call of `next` on a helper stands.
#[derive(Debug, Clone, Copy, PartialEq, Eq, Structural)]
pub enum NextPhase {
    /// Stepping the current iterator.
    Stepping(StepPhase),
    /// Waiting for the mapper's result.
    Mapping,
    /// Waiting for the predicate's verdict on this value.
    Filtering(JsValue),
}

/// The outcome of a step of a helper's `next`.
#[derive(Debug, Clone, Copy)]
pub enum HelperStep {
    /// Ask the engine for this, then resume in this phase.
    Request(NextPhase, HostRequest),
    /// Finished with the result object, or an abrupt completion.
    Finished(JsResult<IterResultObject>),
}

/// The request that starts stepping the helper's current iterator.
pub open spec fn spec_step_current(h: HelperView) -> HelperStep {
    HelperStep::Request(NextPhase::Stepping(StepPhase::AwaitNext), spec_next_request(h.current(), None))
}

/// How a call of `next` begins.
pub open spec fn spec_next_start(h: HelperView) -> HelperStep {
    match h.kind {
        HelperKind::Concat => if h.iterables.len() == 0 {
            HelperStep::Finished(Ok(spec_done_result()))
        } else {
            spec_step_current(h)
        },
        HelperKind::Drop { remaining: IntegerOrInfinity::PositiveInfinity } => HelperStep::Finished(Ok(spec_done_result())),
        HelperKind::Take { remaining: IntegerOrInfinity::Integer(0) } => HelperStep::Finished(Ok(spec_done_result())),
        _ => spec_step_current(h),
    }
}

/// What a helper does with the outcome of a step of its current iterator: `found` is
/// the value found, or `None` when that iterator is done.
pub open spec fn spec_after_step(h: HelperView, found: Option<JsValue>) -> (HelperView, HelperStep) {
    match h.kind {
        HelperKind::Mapper { mapper } => match found {
            None => (h, HelperStep::Finished(Ok(spec_done_result()))),
            Some(v) => (
                HelperView { counter: spec_counter_next(h.counter), ..h },
                HelperStep::Request(NextPhase::Mapping, HostRequest::Call {
                    function: JsValue::Object(mapper),
                    this: JsValue::Undefined,
                    args: CallArgs::Two(v, JsValue::Integer(h.counter as i64)),
                }),
            ),
        },
        HelperKind::Filter { predicate } => match found {
            None => (h, HelperStep::Finished(Ok(spec_done_result()))),
            Some(v) => (
                HelperView { counter: spec_counter_next(h.counter), ..h },
                HelperStep::Request(NextPhase::Filtering(v), HostRequest::Call {
                    function: JsValue::Object(predicate),
                    this: JsValue::Undefined,
                    args: CallArgs::Two(v, JsValue::Integer(h.counter as i64)),
                }),
            ),
        },
        HelperKind::Concat => match found {
            Some(v) => (h, HelperStep::Finished(Ok(spec_value_result(v)))),
            None => {
                let h2 = HelperView { iterables: h.iterables.remove(0), ..h };
                if h2.iterables.len() == 0 {
                    (h2, HelperStep::Finished(Ok(spec_done_result())))
                } else {
                    (h2, spec_step_current(h2))
                }
            },
        },
        HelperKind::Drop { remaining } => match remaining {
            IntegerOrInfinity::Integer(n) => match found {
                None => (h, HelperStep::Finished(Ok(spec_done_result()))),
                Some(v) => if n == 0 {
                    (h, HelperStep::Finished(Ok(spec_value_result(v))))
                } else {
                    let h2 = HelperView { kind: HelperKind::Drop { remaining: IntegerOrInfinity::Integer((n - 1) as i64) }, ..h };
                    (h2, spec_step_current(h2))
                },
            },
            _ => (h, HelperStep::Finished(Ok(spec_done_result()))),
        },
        HelperKind::Take { remaining } => match found {
            None => (h, HelperStep::Finished(Ok(spec_done_result()))),
            Some(v) => match remaining {
                IntegerOrInfinity::Integer(n) => if n <= 0 {
                    (h, HelperStep::Finished(Ok(spec_done_result())))
                } else {
                    (
                        HelperView { kind: HelperKind::Take { remaining: IntegerOrInfinity::Integer((n - 1) as i64) }, ..h },
                        HelperStep::Finished(Ok(spec_value_result(v))),
                    )
                },
                _ => (h, HelperStep::Finished(Ok(spec_value_result(v)))),
            },
        },
    }
}

/// One transition of a helper's `next`, given the engine's answer.
pub open spec fn spec_next_resume(h: HelperView, phase: NextPhase, reply: Completion) -> (HelperView, HelperStep) {
    match phase {
        NextPhase::Stepping(p) => {
            let (rec2, s) = spec_step_value(h.current(), p, reply);
            let h2 = h.with_current(rec2);
            match s {
                StepValueStep::Request(p2, q) => (h2, HelperStep::Request(NextPhase::Stepping(p2), q)),
                StepValueStep::Finished(Err(e)) => (h2, HelperStep::Finished(Err(e))),
                StepValueStep::Finished(Ok(found)) => spec_after_step(h2, found),
            }
        },
        NextPhase::Mapping => match reply {
            Err(e) => (h, HelperStep::Finished(Err(e))),
            Ok(m) => (h, HelperStep::Finished(Ok(spec_value_result(m)))),
        },
        NextPhase::Filtering(v) => match reply {
            Err(e) => (h, HelperStep::Finished(Err(e))),
            Ok(sel) => if spec_to_boolean(sel) {
                (h, HelperStep::Finished(Ok(spec_value_result(v))))
            } else {
                (h, spec_step_current(h))
            },
        },
    }
}

/// What `%IteratorHelperPrototype%.return` has produced.
#[derive(Debug, Clone, Copy, PartialEq, Eq, Structural)]
pub enum ReturnOutcome {
    /// `CreateIterResultObject(undefined, true)`.
    Done,
    /// The value that the underlying iterator's `return` method returned.
    Returned(JsValue),
}

/// Where a call of `return` on a helper stands.
#[derive(Debug, Clone, Copy, PartialEq, Eq, Structural)]
pub enum ReturnPhase {
    /// Waiting for `GetMethod(iterator, "return")`.
    AwaitGetMethod,
    /// Waiting for the call of the `return` method.
    AwaitCall,
}

/// A call of `return` on a helper in progress.
pub struct HelperReturn {
    /// Whether the helper is a `concat` helper, which closes all its iterators.
    pub concat: bool,
    /// The iterators to close.
    pub pending: Vec<IteratorRecord>,
    /// The position of the iterator being closed in `pending`.
    pub pos: usize,
    /// Where the closing of that iterator stands.
    pub phase: ReturnPhase,
}

/// The outcome of a step of a helper's `return`.
pub enum ReturnStep {
    /// Ask the engine for this, then resume.
    Continue(HelperReturn, HostRequest),
    /// Finished, or an abrupt completion.
    Finished(JsResult<ReturnOutcome>),
}

/// The request that looks up the `return` method of an iterator.
pub open spec fn spec_get_return(rec: IteratorRecord) -> HostRequest {
    HostRequest::GetMethod { value: JsValue::Object(rec.iterator), key: PropertyKey::Return }
}

impl IteratorHelper {
    /// Creates a helper over an underlying iterator.
    pub fn create(underlying: IteratorRecord, kind: HelperKind) -> (r: IteratorHelper)
        requires
            kind !is Concat,
        ensures
            r@.underlying == Some(underlying),
            r@.iterables == Seq::<IteratorRecord>::empty(),
            r@.kind == kind,
            r@.counter == 0,
    {
        IteratorHelper { underlying: Some(underlying), iterables: Vec::new(), kind, counter: 0 }
    }

    /// Creates a `concat` helper over a list of iterators.
    pub fn create_concat(iterables: Vec<IteratorRecord>) -> (r: IteratorHelper)
        ensures
            r@.underlying is None,
            r@.iterables == iterables@,
            r@.kind == HelperKind::Concat,
            r@.counter == 0,
    {
        IteratorHelper { underlying: None, iterables, kind: HelperKind::Concat, counter: 0 }
    }

    /// The iterator that the helper steps.
    fn current(&self) -> (r: IteratorRecord)
        requires
            self@.has_current(),
        ensures
            r == self@.current(),
    {
        match self.underlying {
            Some(u) => u,
            None => self.iterables[0],
        }
    }

    /// Stores the stepped iterator back.
    fn set_current(&mut self, rec: IteratorRecord)
        requires
            old(self)@.has_current(),
        ensures
            final(self)@ == old(self)@.with_current(rec),
    {
        match self.underlying {
            Some(_) => {
                self.underlying = Some(rec);
            },
            None => {
                self.iterables.set(0, rec);
            },
        }
    }

    /// The request that starts stepping the current iterator.
    fn step_current(&self) -> (r: HelperStep)
        requires
            self@.has_current(),
        ensures
            r == spec_step_current(self@),
    {
        let (p, q) = self.current().step_start();
        HelperStep::Request(NextPhase::Stepping(p), q)
    }

    /// `%IteratorHelperPrototype%.next ( )`: how the call begins.
    pub fn next_start(&self) -> (r: HelperStep)
        requires
            self@.wf(),
        ensures
            r == spec_next_start(self@),
    {
        match self.kind {
            HelperKind::Concat => {
                if self.iterables.len() == 0 {
                    HelperStep::Finished(Ok(create_iter_result_object(JsValue::Undefined, true)))
                } else {
                    self.step_current()
                }
            },
            HelperKind::Drop { remaining: IntegerOrInfinity::PositiveInfinity } =>
                HelperStep::Finished(Ok(create_iter_result_object(JsValue::Undefined, true))),
            HelperKind::Take { remaining: IntegerOrInfinity::Integer(0) } =>
                HelperStep::Finished(Ok(create_iter_result_object(JsValue::Undefined, true))),
            _ => self.step_current(),
        }
    }

    /// What the helper does once a step of its current iterator has found `found`.
    fn after_step(&mut self, found: Option<JsValue>) -> (r: HelperStep)
        requires
            old(self)@.wf(),
            old(self)@.has_current(),
        ensures
            (final(self)@, r) == spec_after_step(old(self)@, found),
            final(self)@.wf(),
    {
        match self.kind {
            HelperKind::Mapper { mapper } => match found {
                None => HelperStep::Finished(Ok(create_iter_result_object(JsValue::Undefined, true))),
                Some(v) => {
                    let c = self.counter;
                    self.counter = c.wrapping_add(1);
                    HelperStep::Request(NextPhase::Mapping, HostRequest::Call {
                        function: JsValue::Object(mapper),
                        this: JsValue::Undefined,
                        args: CallArgs::Two(v, JsValue::Integer(c as i64)),
                    })
                },
            },
            HelperKind::Filter { predicate } => match found {
                None => HelperStep::Finished(Ok(create_iter_result_object(JsValue::Undefined, true))),
                Some(v) => {
                    let c = self.counter;
                    self.counter = c.wrapping_add(1);
                    HelperStep::Request(NextPhase::Filtering(v), HostRequest::Call {
                        function: JsValue::Object(predicate),
                        this: JsValue::Undefined,
                        args: CallArgs::Two(v, JsValue::Integer(c as i64)),
                    })
                },
            },
            HelperKind::Concat => match found {
                Some(v) => HelperStep::Finished(Ok(create_iter_result_object(v, false))),
                None => {
                    self.iterables.remove(0);
                    if self.iterables.len() == 0 {
                        HelperStep::Finished(Ok(create_iter_result_object(JsValue::Undefined, true)))
                    } else {
                        self.step_current()
                    }
                },
            },
            HelperKind::Drop { remaining } => match remaining {
                IntegerOrInfinity::Integer(n) => match found {
                    None => HelperStep::Finished(Ok(create_iter_result_object(JsValue::Undefined, true))),
                    Some(v) => if n == 0 {
                        HelperStep::Finished(Ok(create_iter_result_object(v, false)))
                    } else {
                        self.kind = HelperKind::Drop { remaining: IntegerOrInfinity::Integer(n - 1) };
                        self.step_current()
                    },
                },
                _ => HelperStep::Finished(Ok(create_iter_result_object(JsValue::Undefined, true))),
            },
            HelperKind::Take { remaining } => match found {
                None => HelperStep::Finished(Ok(create_iter_result_object(JsValue::Undefined, true))),
                Some(v) => match remaining {
                    IntegerOrInfinity::Integer(n) => if n <= 0 {
                        HelperStep::Finished(Ok(create_iter_result_object(JsValue::Undefined, true)))
                    } else {
                        self.kind = HelperKind::Take { remaining: IntegerOrInfinity::Integer(n - 1) };
                        HelperStep::Finished(Ok(create_iter_result_object(v, false)))
                    },
                    _ => HelperStep::Finished(Ok(create_iter_result_object(v, false))),
                },
            },
        }
    }

    /// `%IteratorHelperPrototype%.next ( )`: resumes the call in `phase` with the
    /// engine's answer.
    ///
    /// An abrupt step, mapper or predicate is passed on as it is.
    pub fn next_resume(&mut self, phase: NextPhase, reply: Completion) -> (r: HelperStep)
        requires
            old(self)@.wf(),
            phase !is Mapping ==> old(self)@.has_current(),
        ensures
            (final(self)@, r) == spec_next_resume(old(self)@, phase, reply),
            final(self)@.wf(),
            phase matches NextPhase::Filtering(v) ==> (reply matches Ok(sel) ==> (
                (r == HelperStep::Finished(Ok((IterResultObject { value: v, done: false })))) == spec_to_boolean(sel)
                && (!spec_to_boolean(sel) ==> r matches HelperStep::Request(NextPhase::Stepping(StepPhase::AwaitNext), _))
            )),
    {
        match phase {
            NextPhase::Stepping(p) => {
                let mut rec = self.current();
                let s = rec.step_value(p, reply);
                self.set_current(rec);
                match s {
                    StepValueStep::Request(p2, q) => HelperStep::Request(NextPhase::Stepping(p2), q),
                    StepValueStep::Finished(Err(e)) => HelperStep::Finished(Err(e)),
                    StepValueStep::Finished(Ok(found)) => self.after_step(found),
                }
            },
            NextPhase::Mapping => match reply {
                Err(e) => HelperStep::Finished(Err(e)),
                Ok(m) => HelperStep::Finished(Ok(create_iter_result_object(m, false))),
            },
            NextPhase::Filtering(v) => match reply {
                Err(e) => HelperStep::Finished(Err(e)),
                Ok(sel) => if sel.to_boolean() {
                    HelperStep::Finished(Ok(create_iter_result_object(v, false)))
                } else {
                    self.step_current()
                },
            },
        }
    }
}

impl IteratorHelper {
    /// `%IteratorHelperPrototype%.return ( )`: how the call begins.
    ///
    /// A `concat` helper hands over all its iterators to be closed one after the other and
    /// keeps none; any other helper looks up the `return` method of its underlying iterator.
    pub fn return_start(&mut self) -> (r: ReturnStep)
        requires
            old(self)@.wf(),
        ensures
            old(self)@.kind is Concat ==> final(self)@ == (HelperView { iterables: Seq::<IteratorRecord>::empty(), ..old(self)@ }),
            old(self)@.kind !is Concat ==> final(self)@ == old(self)@,
            old(self)@.kind is Concat && old(self)@.iterables.len() == 0 ==> (r matches ReturnStep::Finished(Ok(ReturnOutcome::Done))),
            old(self)@.kind is Concat && old(self)@.iterables.len() > 0 ==> (r matches ReturnStep::Continue(c, q)
                && c.concat && c.pending@ == old(self)@.iterables && c.pos == 0 && c.phase == ReturnPhase::AwaitGetMethod
                && q == spec_get_return(old(self)@.iterables[0])),
            old(self)@.kind !is Concat ==> (r matches ReturnStep::Continue(c, q)
                && !c.concat && c.pending@ == seq![old(self)@.underlying.unwrap()] && c.pos == 0
                && c.phase == ReturnPhase::AwaitGetMethod && q == spec_get_return(old(self)@.underlying.unwrap())),
    {
        match self.kind {
            HelperKind::Concat => {
                let mut pending: Vec<IteratorRecord> = Vec::new();
                std::mem::swap(&mut pending, &mut self.iterables);
                if pending.len() == 0 {
                    ReturnStep::Finished(Ok(ReturnOutcome::Done))
                } else {
                    let q = HostRequest::GetMethod { value: JsValue::Object(pending[0].iterator), key: PropertyKey::Return };
                    ReturnStep::Continue(HelperReturn { concat: true, pending, pos: 0, phase: ReturnPhase::AwaitGetMethod }, q)
                }
            },
            _ => {
                let u = self.current();
                let mut pending: Vec<IteratorRecord> = Vec::new();
                pending.push(u);
                let q = HostRequest::GetMethod { value: JsValue::Object(u.iterator), key: PropertyKey::Return };
                ReturnStep::Continue(HelperReturn { concat: false, pending, pos: 0, phase: ReturnPhase::AwaitGetMethod }, q)
            },
        }
    }
}

impl HelperReturn {
    /// Moves on to the next iterator to close, or finishes.
    fn advance(self) -> (r: ReturnStep)
        requires
            self.pos < self.pending@.len(),
        ensures
            self.pos + 1 < self.pending@.len() ==> (r matches ReturnStep::Continue(c, q)
                && c.concat == self.concat && c.pending@ == self.pending@ && c.pos == self.pos + 1
                && c.phase == ReturnPhase::AwaitGetMethod && q == spec_get_return(self.pending@[self.pos + 1])),
            self.pos + 1 >= self.pending@.len() ==> (r matches ReturnStep::Finished(Ok(ReturnOutcome::Done))),
    {
        let HelperReturn { concat, pending, pos, phase: _ } = self;
        if pos < pending.len() - 1 {
            let q = HostRequest::GetMethod { value: JsValue::Object(pending[pos + 1].iterator), key: PropertyKey::Return };
            ReturnStep::Continue(HelperReturn { concat, pending, pos: pos + 1, phase: ReturnPhase::AwaitGetMethod }, q)
        } else {
            ReturnStep::Finished(Ok(ReturnOutcome::Done))
        }
    }

    /// `%IteratorHelperPrototype%.return ( )`: resumes the call with the engine's answer.
    ///
    /// An abrupt answer ends the call with it. For `concat`, every iterator's `return`
    /// method, when it has one, is called and its result ignored, and the call ends with
    /// `{ value: undefined, done: true }`. Otherwise the underlying iterator's `return`
    /// method, when it has one, is called and its result is the call's result.
    pub fn resume(self, reply: Completion) -> (r: ReturnStep)
        requires
            self.pos < self.pending@.len(),
        ensures
            ({
                let next_or_done = if self.pos + 1 < self.pending@.len() {
                    r matches ReturnStep::Continue(c, q) && c.pos == self.pos + 1 && c.pending@ == self.pending@
                        && c.concat == self.concat && c.phase == ReturnPhase::AwaitGetMethod
                        && q == spec_get_return(self.pending@[self.pos + 1])
                } else {
                    r matches ReturnStep::Finished(Ok(ReturnOutcome::Done))
                };
                match reply {
                    Err(e) => r matches ReturnStep::Finished(Err(e2)) && e2 == e,
                    Ok(v) => match self.phase {
                        ReturnPhase::AwaitGetMethod => if v is Undefined {
                            if self.concat { next_or_done } else { r matches ReturnStep::Finished(Ok(ReturnOutcome::Done)) }
                        } else {
                            r matches ReturnStep::Continue(c, q) && c.pos == self.pos && c.pending@ == self.pending@
                                && c.concat == self.concat && c.phase == ReturnPhase::AwaitCall
                                && q == (HostRequest::Call { function: v, this: JsValue::Object(self.pending@[self.pos as int].iterator), args: CallArgs::Empty })
                        },
                        ReturnPhase::AwaitCall => if self.concat {
                            next_or_done
                        } else {
                            r matches ReturnStep::Finished(Ok(ReturnOutcome::Returned(v2))) && v2 == v
                        },
                    },
                }
            }),
    {
        match reply {
            Err(e) => ReturnStep::Finished(Err(e)),
            Ok(v) => match self.phase {
                ReturnPhase::AwaitGetMethod => {
                    if v.is_undefined() {
                        if self.concat {
                            self.advance()
                        } else {
                            ReturnStep::Finished(Ok(ReturnOutcome::Done))
                        }
                    } else {
                        let it = self.pending[self.pos].iterator;
                        let q = HostRequest::Call { function: v, this: JsValue::Object(it), args: CallArgs::Empty };
                        let HelperReturn { concat, pending, pos, phase: _ } = self;
                        ReturnStep::Continue(HelperReturn { concat, pending, pos, phase: ReturnPhase::AwaitCall }, q)
                    }
                },
                ReturnPhase::AwaitCall => {
                    if self.concat {
                        self.advance()
                    } else {
                        ReturnStep::Finished(Ok(ReturnOutcome::Returned(v)))
                    }
                },
            },
        }
    }
}

/// `Iterator.prototype.take` and `drop`, steps 3 and 4: an abrupt `ToNumber(limit)` is
/// passed on and `NaN` is a `RangeError`; otherwise the engine converts `limit` again
/// with `ToIntegerOrInfinity`.
pub open spec fn spec_check_limit_number(num: JsResult<LimitNumber>) -> JsResult<()> {
    match num {
        Err(e) => Err(e),
        Ok(LimitNumber::NaN) => Err(range_error(Reason::LimitNaN)),
        Ok(LimitNumber::Number) => Ok(()),
    }
}

/// Steps 3 and 4 of `take` and `drop` on the result of `ToNumber(limit)`.
pub fn check_limit_number(num: JsResult<LimitNumber>) -> (r: JsResult<()>)
    ensures
        r == spec_check_limit_number(num),
{
    match num {
        Err(e) => Err(e),
        Ok(LimitNumber::NaN) => Err(make_range_error(Reason::LimitNaN)),
        Ok(LimitNumber::Number) => Ok(()),
    }
}

/// `Iterator.prototype.take` and `drop`, steps 5 and 6: the result of
/// `ToIntegerOrInfinity(limit)`, which must not be negative.
pub open spec fn spec_validate_limit(limit: IntegerOrInfinity) -> JsResult<IntegerOrInfinity> {
    if limit_ok(limit) {
        Ok(limit)
    } else {
        Err(range_error(Reason::LimitNegative))
    }
}

/// Steps 5 and 6 of `take` and `drop`: a negative limit is a `RangeError`.
pub fn validate_limit(limit: IntegerOrInfinity) -> (r: JsResult<IntegerOrInfinity>)
    ensures
        r == spec_validate_limit(limit),
{
    match limit {
        IntegerOrInfinity::Integer(n) => if n < 0 {
            Err(make_range_error(Reason::LimitNegative))
        } else {
            Ok(limit)
        },
        IntegerOrInfinity::PositiveInfinity => Ok(limit),
        IntegerOrInfinity::NegativeInfinity => Err(make_range_error(Reason::LimitNegative)),
    }
}

/// A helper about to be created once `GetIteratorDirect(O)` has read `O.next`.
#[derive(Debug, Clone, Copy, PartialEq, Eq, Structural)]
pub struct HelperCreation {
    /// The object `O` whose `next` method is read.
    pub object: ObjectRef,
    /// The kind of helper to create.
    pub kind: HelperKind,
}

/// The `this` value of an iterator method as an object; anything else is a `TypeError`.
pub open spec fn spec_this_object(this: JsValue) -> JsResult<ObjectRef> {
    match this {
        JsValue::Object(o) => Ok(o),
        _ => Err(type_error(Reason::ThisNotObject)),
    }
}

/// Gives `this` as an object, or the `TypeError` that iterator methods throw.
pub fn this_object(this: JsValue) -> (r: JsResult<ObjectRef>)
    ensures
        r == spec_this_object(this),
{
    match this {
        JsValue::Object(o) => Ok(o),
        _ => Err(make_type_error(Reason::ThisNotObject)),
    }
}

/// What `Iterator.prototype.map` and `filter` do before reading `next`: `this` must be an
/// object and the function callable, in that order.
pub open spec fn spec_callback_creation(this: JsValue, f: JsValue, reason: Reason, mapper: bool) -> JsResult<HelperCreation> {
    match spec_this_object(this) {
        Err(e) => Err(e),
        Ok(o) => if !spec_is_callable(f) {
            Err(type_error(reason))
        } else {
            let fo = spec_as_object(f).unwrap();
            Ok(HelperCreation {
                object: o,
                kind: if mapper { HelperKind::Mapper { mapper: fo } } else { HelperKind::Filter { predicate: fo } },
            })
        },
    }
}

impl HelperCreation {
    /// `Iterator.prototype.map ( mapper )`, up to `GetIteratorDirect`.
    pub fn map(this: JsValue, mapper: JsValue) -> (r: JsResult<HelperCreation>)
        ensures
            r == spec_callback_creation(this, mapper, Reason::MapperNotCallable, true),
    {
        let o = this_object(this)?;
        match mapper.as_callable() {
            None => Err(make_type_error(Reason::MapperNotCallable)),
            Some(m) => Ok(HelperCreation { object: o, kind: HelperKind::Mapper { mapper: m } }),
        }
    }

    /// `Iterator.prototype.filter ( predicate )`, up to `GetIteratorDirect`.
    pub fn filter(this: JsValue, predicate: JsValue) -> (r: JsResult<HelperCreation>)
        ensures
            r == spec_callback_creation(this, predicate, Reason::PredicateNotCallable, false),
    {
        let o = this_object(this)?;
        match predicate.as_callable() {
            None => Err(make_type_error(Reason::PredicateNotCallable)),
            Some(p) => Ok(HelperCreation { object: o, kind: HelperKind::Filter { predicate: p } }),
        }
    }

    /// `Iterator.prototype.take ( limit )`, steps 5 to 8, once `this` has been checked with
    /// `this_object`, `ToNumber(limit)` with `check_limit_number`, and the engine has
    /// converted `limit` with `ToIntegerOrInfinity`.
    pub fn take(object: ObjectRef, integer_limit: JsResult<IntegerOrInfinity>) -> (r: JsResult<HelperCreation>)
        ensures
            r == (match integer_limit {
                Err(e) => Err(e),
                Ok(l) => match spec_validate_limit(l) {
                    Err(e) => Err(e),
                    Ok(n) => Ok(HelperCreation { object, kind: HelperKind::Take { remaining: n } }),
                },
            }),
    {
        let l = integer_limit?;
        let n = validate_limit(l)?;
        Ok(HelperCreation { object, kind: HelperKind::Take { remaining: n } })
    }

    /// `Iterator.prototype.drop ( limit )`, steps 5 to 8, once `this` has been checked with
    /// `this_object`, `ToNumber(limit)` with `check_limit_number`, and the engine has
    /// converted `limit` with `ToIntegerOrInfinity`.
    pub fn drop(object: ObjectRef, integer_limit: JsResult<IntegerOrInfinity>) -> (r: JsResult<HelperCreation>)
        ensures
            r == (match integer_limit {
                Err(e) => Err(e),
                Ok(l) => match spec_validate_limit(l) {
                    Err(e) => Err(e),
                    Ok(n) => Ok(HelperCreation { object, kind: HelperKind::Drop { remaining: n } }),
                },
            }),
    {
        let l = integer_limit?;
        let n = validate_limit(l)?;
        Ok(HelperCreation { object, kind: HelperKind::Drop { remaining: n } })
    }

    /// The request of `GetIteratorDirect(O)`: `Get(O, "next")`.
    pub fn request(&self) -> (r: HostRequest)
        ensures
            r == (HostRequest::Get { object: self.object, key: PropertyKey::Next }),
    {
        HostRequest::Get { object: self.object, key: PropertyKey::Next }
    }

    /// Creates the helper once `Get(O, "next")` has answered.
    pub fn finish(&self, got: Completion) -> (r: JsResult<IteratorHelper>)
        requires
            self.kind !is Concat,
        ensures
            got matches Err(e) ==> (r matches Err(e2) && e2 == e),
            got matches Ok(nm) ==> (r matches Ok(h) && h@ == (HelperView {
                underlying: Some(IteratorRecord { iterator: self.object, next_method: nm, done: false, last_result: None }),
                iterables: Seq::<IteratorRecord>::empty(),
                kind: self.kind,
                counter: 0,
            })),
    {
        let nm = got?;
        Ok(IteratorHelper::create(IteratorRecord::new(self.object, nm), self.kind))
    }
}

/// A `take` helper never yields more values than its limit: when nothing remains, `next`
/// finishes done without touching the underlying iterator, and each value it yields
/// lowers what remains by one.
pub proof fn lemma_take_within_limit(h: HelperView, p: StepPhase, reply: Completion, n: i64)
    requires
        h.wf(),
        h.kind == (HelperKind::Take { remaining: IntegerOrInfinity::Integer(n) }),
    ensures
        n == 0 ==> spec_next_start(h) == HelperStep::Finished(Ok(spec_done_result())),
        ({
            let (h2, s) = spec_next_resume(h, NextPhase::Stepping(p), reply);
            (s matches HelperStep::Finished(Ok(res)) && !res.done) ==> (n > 0
                && h2.kind == (HelperKind::Take { remaining: IntegerOrInfinity::Integer((n - 1) as i64) }))
        }),
{
}

/// A `drop` helper only yields a value once nothing remains to be skipped; each value it
/// skips lowers what remains by one.
pub proof fn lemma_drop_skips_first(h: HelperView, p: StepPhase, reply: Completion, n: i64)
    requires
        h.wf(),
        h.kind == (HelperKind::Drop { remaining: IntegerOrInfinity::Integer(n) }),
    ensures
        ({
            let (h2, s) = spec_next_resume(h, NextPhase::Stepping(p), reply);
            &&& (s matches HelperStep::Finished(Ok(res)) && !res.done) ==> n == 0
            &&& h2.kind != h.kind ==> (n > 0
                && h2.kind == (HelperKind::Drop { remaining: IntegerOrInfinity::Integer((n - 1) as i64) }))
        }),
{
}

/// A `drop` helper whose limit is `+∞` is done at once, without touching its iterator.
pub proof fn lemma_drop_infinity_done(h: HelperView)
    requires
        h.wf(),
        h.kind == (HelperKind::Drop { remaining: IntegerOrInfinity::PositiveInfinity }),
    ensures
        spec_next_start(h) == HelperStep::Finished(Ok(spec_done_result())),
{
}

/// A `filter` helper only yields a value that the predicate accepted: a stepped value
/// always goes to the predicate first, and a value is yielded only on a truthy verdict.
pub proof fn lemma_filter_yields_accepted(h: HelperView, phase: NextPhase, reply: Completion, pred: ObjectRef)
    requires
        h.wf(),
        h.kind == (HelperKind::Filter { predicate: pred }),
        phase !is Mapping,
    ensures
        ({
            let (h2, s) = spec_next_resume(h, phase, reply);
            match s {
                HelperStep::Finished(Ok(res)) => !res.done ==> (match (phase, reply) {
                    (NextPhase::Filtering(v), Ok(sel)) => res.value == v && spec_to_boolean(sel),
                    _ => false,
                }),
                _ => true,
            }
        }),
{
}

/// `filter` keeps a value exactly when `ToBoolean` of the predicate's result is true, so a
/// truthy Number, String or object selects it as `true` does: the value is yielded and
/// the helper is left as it was. On a falsy result nothing is yielded and the underlying
/// iterator is stepped again.
pub proof fn lemma_filter_selects_truthy(h: HelperView, v: JsValue, sel: JsValue, pred: ObjectRef)
    requires
        h.wf(),
        h.kind == (HelperKind::Filter { predicate: pred }),
        h.has_current(),
    ensures
        ({
            let (h2, s) = spec_next_resume(h, NextPhase::Filtering(v), Ok(sel));
            &&& spec_to_boolean(sel) ==> h2 == h && s == HelperStep::Finished(Ok((IterResultObject { value: v, done: false })))
            &&& !spec_to_boolean(sel) ==> h2 == h && s == HelperStep::Request(
                NextPhase::Stepping(StepPhase::AwaitNext), spec_next_request(h.current(), None))
            &&& (s == HelperStep::Finished(Ok((IterResultObject { value: v, done: false })))) == spec_to_boolean(sel)
        }),
        sel is Object ==> spec_next_resume(h, NextPhase::Filtering(v), Ok(sel)).1
            == HelperStep::Finished(Ok((IterResultObject { value: v, done: false }))),
        (sel matches JsValue::Integer(n) && n != 0) ==> spec_next_resume(h, NextPhase::Filtering(v), Ok(sel)).1
            == HelperStep::Finished(Ok((IterResultObject { value: v, done: false }))),
{
}

/// A `map` helper passes each value to the mapper with the count of values before it,
/// and counts one more each time.
pub proof fn lemma_map_counts_calls(h: HelperView, p: StepPhase, reply: Completion, mapper: ObjectRef)
    requires
        h.wf(),
        h.kind == (HelperKind::Mapper { mapper }),
    ensures
        ({
            let (h2, s) = spec_next_resume(h, NextPhase::Stepping(p), reply);
            &&& (s matches HelperStep::Request(NextPhase::Mapping, q) ==> (h2.counter == spec_counter_next(h.counter)
                && match q {
                    HostRequest::Call { function, this, args: CallArgs::Two(_, JsValue::Integer(c)) } =>
                        function == JsValue::Object(mapper) && this == JsValue::Undefined && c == h.counter as i64,
                    _ => false,
                }))
            &&& (!(s matches HelperStep::Request(NextPhase::Mapping, _)) ==> h2.counter == h.counter)
        }),
{
}

/// A `concat` helper goes through its iterators in order: a step either keeps the list of
/// iterators as long as it was, or drops exactly the first one, once it is exhausted.
pub proof fn lemma_concat_in_order(h: HelperView, p: StepPhase, reply: Completion)
    requires
        h.wf(),
        h.kind is Concat,
        h.iterables.len() > 0,
    ensures
        ({
            let (h2, s) = spec_next_resume(h, NextPhase::Stepping(p), reply);
            ||| h2.iterables.len() == h.iterables.len()
            ||| h2.iterables =~= h.iterables.subrange(1, h.iterables.len() as int)
        }),
{
    let (rec2, st) = spec_step_value(h.current(), p, reply);
    let hw = h.with_current(rec2);
    assert(hw.iterables.remove(0) =~= h.iterables.subrange(1, h.iterables.len() as int));
}

} // verus!
