//! Obtaining an Iterator Record from a value: `GetIterator`, `GetIteratorFromMethod`,
//! `GetIteratorDirect` and `GetIteratorFlattenable`.

use vstd::prelude::*;
use crate::value::{
    make_type_error, type_error, CallArgs, Completion, HostRequest, JsError, JsResult, JsValue,
    ObjectRef, PropertyKey, Reason,
};
use crate::record::IteratorRecord;

verus! {

/// Iterator hint for `GetIterator`.
#[derive(Debug, Clone, Copy, PartialEq, Eq, Structural)]
pub enum IteratorHint {
    /// A sync iterator.
    Sync,
    /// An async iterator.
    Async,
}

/// String handling mode for `GetIteratorFlattenable`.
#[derive(Debug, Clone, Copy, PartialEq, Eq, Structural)]
pub enum StringHandling {
    /// Iterate over strings.
    IterateStrings,
    /// Reject strings.
    RejectStrings,
}

/// Which operation obtains the record.
#[derive(Debug, Clone, Copy, PartialEq, Eq, Structural)]
pub enum AcquireMode {
    /// `GetIterator(obj, hint)`.
    GetIterator(IteratorHint),
    /// `GetIteratorFromMethod(obj, method)`.
    FromMethod,
    /// `GetIteratorDirect(obj)`.
    Direct,
    /// `GetIteratorFlattenable(obj, stringHandling)`.
    Flattenable(StringHandling),
}

/// Where the operation stands: which answer it waits for.
#[derive(Debug, Clone, Copy, PartialEq, Eq, Structural)]
pub enum AcquirePhase {
    /// `GetMethod(obj, @@asyncIterator)`.
    AwaitAsyncMethod,
    /// `GetMethod(obj, @@iterator)`.
    AwaitMethod,
    /// The call of the iterator method.
    AwaitCall,
    /// `Get(iterator, "next")`.
    AwaitNext(ObjectRef),
}

/// An operation that obtains an Iterator Record, in progress.
#[derive(Debug, Clone, Copy, PartialEq, Eq, Structural)]
pub struct Acquisition {
    /// The value the iterator is obtained from.
    pub value: JsValue,
    /// Which operation this is.
    pub mode: AcquireMode,
    /// Whether the sync iterator method was taken because the async one is missing, so
    /// that the record must be wrapped by `CreateAsyncFromSyncIterator`.
    pub from_sync: bool,
    /// Where the operation stands.
    pub phase: AcquirePhase,
}

/// The record that was obtained.
#[derive(Debug, Clone, Copy, PartialEq, Eq, Structural)]
pub enum Acquired {
    /// The record itself.
    Record(IteratorRecord),
    /// A sync record that `CreateAsyncFromSyncIterator` has to wrap.
    AsyncFromSync(IteratorRecord),
}

/// The outcome of a step of the operation.
#[derive(Debug, Clone, Copy)]
pub enum AcquireStep {
    /// Ask the engine for this, then resume.
    Request(Acquisition, HostRequest),
    /// Finished with the record, or an abrupt completion.
    Finished(JsResult<Acquired>),
}

/// The request that reads `next` of the iterator object.
pub open spec fn spec_await_next(a: Acquisition, o: ObjectRef) -> AcquireStep {
    AcquireStep::Request(Acquisition { phase: AcquirePhase::AwaitNext(o), ..a }, HostRequest::Get { object: o, key: PropertyKey::Next })
}

/// The request that calls the iterator method `m`.
pub open spec fn spec_await_call(a: Acquisition, m: JsValue) -> AcquireStep {
    AcquireStep::Request(Acquisition { phase: AcquirePhase::AwaitCall, ..a }, HostRequest::Call { function: m, this: a.value, args: CallArgs::Empty })
}

/// How the operation begins.
pub open spec fn spec_acquire_start(value: JsValue, mode: AcquireMode, method: JsValue) -> AcquireStep {
    let a = Acquisition { value, mode, from_sync: false, phase: AcquirePhase::AwaitMethod };
    match mode {
        AcquireMode::GetIterator(IteratorHint::Async) => AcquireStep::Request(
            Acquisition { phase: AcquirePhase::AwaitAsyncMethod, ..a },
            HostRequest::GetMethod { value, key: PropertyKey::SymbolAsyncIterator },
        ),
        AcquireMode::GetIterator(IteratorHint::Sync) => AcquireStep::Request(a, HostRequest::GetMethod { value, key: PropertyKey::SymbolIterator }),
        AcquireMode::FromMethod => spec_await_call(a, method),
        AcquireMode::Direct => match value {
            JsValue::Object(o) => spec_await_next(a, o),
            _ => AcquireStep::Finished(Err(type_error(Reason::ThisNotObject))),
        },
        AcquireMode::Flattenable(h) => if !(value is Object) && (h == StringHandling::RejectStrings || !(value is String)) {
            AcquireStep::Finished(Err(type_error(Reason::NotObjectOrString)))
        } else {
            AcquireStep::Request(a, HostRequest::GetMethod { value, key: PropertyKey::SymbolIterator })
        },
    }
}

/// One transition of the operation, given the engine's answer.
pub open spec fn spec_acquire_resume(a: Acquisition, reply: Completion) -> AcquireStep {
    match reply {
        Err(e) => AcquireStep::Finished(Err(e)),
        Ok(v) => match a.phase {
            AcquirePhase::AwaitAsyncMethod => if v is Undefined {
                AcquireStep::Request(
                    Acquisition { from_sync: true, phase: AcquirePhase::AwaitMethod, ..a },
                    HostRequest::GetMethod { value: a.value, key: PropertyKey::SymbolIterator },
                )
            } else {
                spec_await_call(a, v)
            },
            AcquirePhase::AwaitMethod => if v is Undefined {
                match a.mode {
                    AcquireMode::Flattenable(_) => match a.value {
                        JsValue::Object(o) => spec_await_next(a, o),
                        _ => AcquireStep::Finished(Err(type_error(Reason::IteratorNotObject))),
                    },
                    _ => AcquireStep::Finished(Err(type_error(Reason::NotIterable))),
                }
            } else {
                spec_await_call(a, v)
            },
            AcquirePhase::AwaitCall => match v {
                JsValue::Object(o) => spec_await_next(a, o),
                _ => AcquireStep::Finished(Err(type_error(Reason::IteratorNotObject))),
            },
            AcquirePhase::AwaitNext(o) => {
                let rec = IteratorRecord { iterator: o, next_method: v, done: false, last_result: None };
                AcquireStep::Finished(Ok(if a.from_sync { Acquired::AsyncFromSync(rec) } else { Acquired::Record(rec) }))
            },
        },
    }
}

impl Acquisition {
    /// Asks for `next` of the iterator object.
    fn await_next(self, o: ObjectRef) -> (r: AcquireStep)
        ensures
            r == spec_await_next(self, o),
    {
        AcquireStep::Request(Acquisition { phase: AcquirePhase::AwaitNext(o), ..self }, HostRequest::Get { object: o, key: PropertyKey::Next })
    }

    /// Asks for the call of the iterator method `m`.
    fn await_call(self, m: JsValue) -> (r: AcquireStep)
        ensures
            r == spec_await_call(self, m),
    {
        AcquireStep::Request(Acquisition { phase: AcquirePhase::AwaitCall, ..self }, HostRequest::Call { function: m, this: self.value, args: CallArgs::Empty })
    }

    /// Begins obtaining a record from `value`; `method` is only read by `FromMethod`.
    pub fn start(value: JsValue, mode: AcquireMode, method: JsValue) -> (r: AcquireStep)
        ensures
            r == spec_acquire_start(value, mode, method),
    {
        let a = Acquisition { value, mode, from_sync: false, phase: AcquirePhase::AwaitMethod };
        match mode {
            AcquireMode::GetIterator(IteratorHint::Async) => AcquireStep::Request(
                Acquisition { phase: AcquirePhase::AwaitAsyncMethod, ..a },
                HostRequest::GetMethod { value, key: PropertyKey::SymbolAsyncIterator },
            ),
            AcquireMode::GetIterator(IteratorHint::Sync) =>
                AcquireStep::Request(a, HostRequest::GetMethod { value, key: PropertyKey::SymbolIterator }),
            AcquireMode::FromMethod => a.await_call(method),
            AcquireMode::Direct => match value {
                JsValue::Object(o) => a.await_next(o),
                _ => AcquireStep::Finished(Err(make_type_error(Reason::ThisNotObject))),
            },
            AcquireMode::Flattenable(h) => {
                let reject = match h {
                    StringHandling::RejectStrings => true,
                    StringHandling::IterateStrings => false,
                };
                if !value.is_object() && (reject || !value.is_string()) {
                    AcquireStep::Finished(Err(make_type_error(Reason::NotObjectOrString)))
                } else {
                    AcquireStep::Request(a, HostRequest::GetMethod { value, key: PropertyKey::SymbolIterator })
                }
            },
        }
    }

    /// Resumes the operation with the engine's answer.
    pub fn resume(self, reply: Completion) -> (r: AcquireStep)
        ensures
            r == spec_acquire_resume(self, reply),
            self.mode is GetIterator && self.phase == AcquirePhase::AwaitMethod && reply == Ok::<JsValue, JsError>(JsValue::Undefined)
                ==> r == AcquireStep::Finished(Err(type_error(Reason::NotIterable))),
    {
        match reply {
            Err(e) => AcquireStep::Finished(Err(e)),
            Ok(v) => match self.phase {
                AcquirePhase::AwaitAsyncMethod => if v.is_undefined() {
                    AcquireStep::Request(
                        Acquisition { from_sync: true, phase: AcquirePhase::AwaitMethod, ..self },
                        HostRequest::GetMethod { value: self.value, key: PropertyKey::SymbolIterator },
                    )
                } else {
                    self.await_call(v)
                },
                AcquirePhase::AwaitMethod => if v.is_undefined() {
                    match self.mode {
                        AcquireMode::Flattenable(_) => match self.value {
                            JsValue::Object(o) => self.await_next(o),
                            _ => AcquireStep::Finished(Err(make_type_error(Reason::IteratorNotObject))),
                        },
                        _ => AcquireStep::Finished(Err(make_type_error(Reason::NotIterable))),
                    }
                } else {
                    self.await_call(v)
                },
                AcquirePhase::AwaitCall => match v {
                    JsValue::Object(o) => self.await_next(o),
                    _ => AcquireStep::Finished(Err(make_type_error(Reason::IteratorNotObject))),
                },
                AcquirePhase::AwaitNext(o) => {
                    let rec = IteratorRecord::new(o, v);
                    AcquireStep::Finished(Ok(if self.from_sync { Acquired::AsyncFromSync(rec) } else { Acquired::Record(rec) }))
                },
            },
        }
    }
}

impl JsValue {
    /// `GetIteratorFromMethod ( obj, method )`: how it begins.
    pub fn get_iterator_from_method(&self, method: JsValue) -> (r: AcquireStep)
        ensures
            r == spec_acquire_start(*self, AcquireMode::FromMethod, method),
    {
        Acquisition::start(*self, AcquireMode::FromMethod, method)
    }

    /// `GetIterator ( obj, kind )`: how it begins.
    pub fn get_iterator(&self, hint: IteratorHint) -> (r: AcquireStep)
        ensures
            r == spec_acquire_start(*self, AcquireMode::GetIterator(hint), JsValue::Undefined),
    {
        Acquisition::start(*self, AcquireMode::GetIterator(hint), JsValue::Undefined)
    }
}

/// `GetIteratorDirect ( obj )`: how it begins.
pub fn get_iterator_direct(obj: ObjectRef) -> (r: AcquireStep)
    ensures
        r == spec_acquire_start(JsValue::Object(obj), AcquireMode::Direct, JsValue::Undefined),
{
    Acquisition::start(JsValue::Object(obj), AcquireMode::Direct, JsValue::Undefined)
}

/// `GetIteratorFlattenable ( obj, stringHandling )`: how it begins.
pub fn get_iterator_flattenable(obj: JsValue, string_handling: StringHandling) -> (r: AcquireStep)
    ensures
        r == spec_acquire_start(obj, AcquireMode::Flattenable(string_handling), JsValue::Undefined),
{
    Acquisition::start(obj, AcquireMode::Flattenable(string_handling), JsValue::Undefined)
}

/// A record obtained by any of these operations is fresh: not done, with no result yet,
/// and its iterator is an object that the engine produced; `GetIteratorFromMethod` and
/// `GetIteratorDirect` never wrap it.
pub proof fn lemma_acquired_record_is_fresh(a: Acquisition, reply: Completion)
    ensures
        match spec_acquire_resume(a, reply) {
            AcquireStep::Finished(Ok(Acquired::Record(rec))) => !rec.done && rec.last_result is None
                && a.phase == AcquirePhase::AwaitNext(rec.iterator) && !a.from_sync,
            AcquireStep::Finished(Ok(Acquired::AsyncFromSync(rec))) => !rec.done && rec.last_result is None
                && a.from_sync,
            _ => true,
        },
{
}

/// Strings are only iterated by `GetIteratorFlattenable` when asked to: with
/// `reject-strings`, any value that is not an object is a `TypeError` before anything runs.
pub proof fn lemma_flattenable_rejects_primitives(value: JsValue)
    requires
        !(value is Object),
    ensures
        spec_acquire_start(value, AcquireMode::Flattenable(StringHandling::RejectStrings), JsValue::Undefined)
            == AcquireStep::Finished(Err(type_error(Reason::NotObjectOrString))),
{
}

/// `GetIterator` with the async hint only falls back to the sync iterator method when
/// the async one is missing, and then the record has to be wrapped.
pub proof fn lemma_async_fallback(a: Acquisition, reply: Completion)
    requires
        a.mode == AcquireMode::GetIterator(IteratorHint::Async),
        a.phase == AcquirePhase::AwaitAsyncMethod,
        !a.from_sync,
    ensures
        match spec_acquire_resume(a, reply) {
            AcquireStep::Request(a2, q) => a2.from_sync == (reply == Ok::<JsValue, JsError>(JsValue::Undefined)),
            _ => reply is Err,
        },
{
}

/// `GetIterator` never takes a value as its own iterator: once `GetMethod(value, @@iterator)`
/// answers `undefined`, whatever the value and the hint, it ends with the `TypeError` that
/// the value is not iterable and asks nothing more. Only `GetIteratorFlattenable` falls
/// back to an object itself.
pub proof fn lemma_get_iterator_needs_method(a: Acquisition, hint: IteratorHint)
    requires
        a.mode == AcquireMode::GetIterator(hint),
        a.phase == AcquirePhase::AwaitMethod,
    ensures
        spec_acquire_resume(a, Ok(JsValue::Undefined)) == AcquireStep::Finished(Err(type_error(Reason::NotIterable))),
        spec_acquire_resume(a, Ok(JsValue::Undefined)) is Finished,
        a.value is Object ==> (spec_acquire_resume(
            Acquisition { mode: AcquireMode::Flattenable(StringHandling::RejectStrings), ..a },
            Ok(JsValue::Undefined),
        ) matches AcquireStep::Request(_, HostRequest::Get { object, key: PropertyKey::Next }) && a.value == JsValue::Object(object)),
{
}

} // verus!
