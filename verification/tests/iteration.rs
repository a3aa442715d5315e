use boa::acquire::{
    get_iterator_direct, get_iterator_flattenable, AcquireStep, Acquired, IteratorHint,
    StringHandling,
};
use boa::helpers::{
    check_limit_number, validate_limit, HelperCreation, HelperKind, HelperStep, IntegerOrInfinity, IterResultObject,
    IteratorHelper, LimitNumber, ReturnOutcome, ReturnStep,
};
use boa::iterator::{
    constructor_check, from_finish, get_to_string_tag, iterator_identity, require_helper,
    set_to_string_tag_start, setter_finish, setter_write, to_array_collect, to_array_start,
    wrap_next, wrap_return_resume, wrap_return_start, ConcatBuilder, ConcatStep, ConsumerKind,
    ConsumerStep, FromResult, IteratorConsumer, ReturnFnStep, WrapForValidIterator,
};
use boa::record::{CloseStep, CollectStep, IteratorRecord, StepPhase, StepValueStep};
use boa::value::{
    CallArgs, Completion, ErrorKind, HostRequest, JsError, JsValue, ObjectRef, PropertyKey, Reason,
};

const MAPPER: u64 = 10;
const PREDICATE: u64 = 11;
const THROWER: u64 = 12;
const ITER_FN: u64 = 13;
const ARRAY: u64 = 14;

fn obj(id: u64) -> ObjectRef {
    ObjectRef { id, callable: false }
}

fn func(id: u64) -> JsValue {
    JsValue::Object(ObjectRef { id, callable: true })
}

fn thrown() -> JsError {
    JsError::Throw(JsValue::Integer(-1))
}

/// A small engine: a set of array iterators over integers. Iterator `k` is the object
/// `1000 * (k + 1)`; its `next` method is that id plus 1, its `return` method plus 2; the
/// result objects are that id plus 10 plus the index, and plus 9 for the final one.
struct Engine {
    iterators: Vec<(Vec<i64>, usize)>,
    has_return: bool,
    return_calls: Vec<u64>,
    callback_counters: Vec<i64>,
}

impl Engine {
    fn new(lists: Vec<Vec<i64>>) -> Engine {
        Engine {
            iterators: lists.into_iter().map(|l| (l, 0)).collect(),
            has_return: true,
            return_calls: Vec::new(),
            callback_counters: Vec::new(),
        }
    }

    fn iterator(k: usize) -> ObjectRef {
        obj(1000 * (k as u64 + 1))
    }

    fn record(k: usize) -> IteratorRecord {
        IteratorRecord::new(Engine::iterator(k), func(1000 * (k as u64 + 1) + 1))
    }

    fn answer(&mut self, q: HostRequest) -> Completion {
        match q {
            HostRequest::Get { object, key } => {
                let base = object.id / 1000 * 1000;
                let k = (base / 1000 - 1) as usize;
                let off = object.id - base;
                match key {
                    PropertyKey::Next => Ok(func(base + 1)),
                    PropertyKey::Done => Ok(JsValue::Boolean(off == 9)),
                    PropertyKey::Value => {
                        if off == 9 {
                            Ok(JsValue::Undefined)
                        } else {
                            Ok(JsValue::Integer(self.iterators[k].0[(off - 10) as usize]))
                        }
                    }
                    _ => panic!("unexpected key {:?}", key),
                }
            }
            HostRequest::GetMethod { value, key: PropertyKey::Return } => match value {
                JsValue::Object(o) if self.has_return => Ok(func(o.id + 2)),
                _ => Ok(JsValue::Undefined),
            },
            HostRequest::GetMethod { value: JsValue::Object(o), key: PropertyKey::SymbolIterator } => {
                if o.id == ARRAY {
                    Ok(func(ITER_FN))
                } else {
                    Ok(JsValue::Undefined)
                }
            }
            HostRequest::GetMethod { .. } => Ok(JsValue::Undefined),
            HostRequest::Call { function: JsValue::Object(f), this, args } => {
                if f.id == ITER_FN {
                    return Ok(JsValue::Object(Engine::iterator(0)));
                }
                if f.id == MAPPER || f.id == PREDICATE || f.id == THROWER {
                    let (x, c) = match args {
                        CallArgs::Two(JsValue::Integer(x), JsValue::Integer(c)) => (x, c),
                        other => panic!("unexpected arguments {:?}", other),
                    };
                    assert_eq!(this, JsValue::Undefined);
                    self.callback_counters.push(c);
                    return match f.id {
                        MAPPER => Ok(JsValue::Integer(2 * x)),
                        PREDICATE => Ok(JsValue::Boolean(x % 2 == 0)),
                        _ => Err(thrown()),
                    };
                }
                let base = f.id / 1000 * 1000;
                let k = (base / 1000 - 1) as usize;
                assert_eq!(this, JsValue::Object(obj(base)));
                match f.id - base {
                    1 => {
                        let (values, pos) = &mut self.iterators[k];
                        if *pos < values.len() {
                            *pos += 1;
                            Ok(JsValue::Object(obj(base + 10 + (*pos as u64 - 1))))
                        } else {
                            Ok(JsValue::Object(obj(base + 9)))
                        }
                    }
                    2 => {
                        self.return_calls.push(base);
                        Ok(JsValue::Object(obj(base)))
                    }
                    _ => panic!("unexpected call {:?}", f),
                }
            }
            other => panic!("unexpected request {:?}", other),
        }
    }
}

fn helper_next(h: &mut IteratorHelper, engine: &mut Engine) -> Result<IterResultObject, JsError> {
    let mut step = h.next_start();
    loop {
        match step {
            HelperStep::Finished(r) => return r,
            HelperStep::Request(phase, q) => {
                let reply = engine.answer(q);
                step = h.next_resume(phase, reply);
            }
        }
    }
}

fn drain(h: &mut IteratorHelper, engine: &mut Engine) -> Vec<JsValue> {
    let mut out = Vec::new();
    loop {
        let r = helper_next(h, engine).ok().expect("no error");
        if r.done {
            assert_eq!(r.value, JsValue::Undefined);
            return out;
        }
        out.push(r.value);
        assert!(out.len() < 100);
    }
}

fn ints(xs: &[i64]) -> Vec<JsValue> {
    xs.iter().map(|x| JsValue::Integer(*x)).collect()
}

fn helper(kind: HelperKind) -> IteratorHelper {
    IteratorHelper::create(Engine::record(0), kind)
}

fn consume(kind: ConsumerKind, callback: JsValue, engine: &mut Engine) -> Completion {
    let mut step = IteratorConsumer::start(kind, JsValue::Object(Engine::iterator(0)), callback);
    loop {
        match step {
            ConsumerStep::Finished(r) => return r,
            ConsumerStep::Request(c, q) => {
                let reply = engine.answer(q);
                step = c.resume(reply);
            }
        }
    }
}

#[test]
fn map_applies_mapper_with_counter() {
    let mut e = Engine::new(vec![vec![1, 2, 3]]);
    let mut h = helper(HelperKind::Mapper { mapper: ObjectRef { id: MAPPER, callable: true } });
    assert_eq!(drain(&mut h, &mut e), ints(&[2, 4, 6]));
    assert_eq!(e.callback_counters, vec![0, 1, 2]);
    assert_eq!(h.counter, 3);
    // an exhausted helper stays exhausted
    assert!(helper_next(&mut h, &mut e).ok().unwrap().done);
}

#[test]
fn filter_keeps_accepted_values() {
    let mut e = Engine::new(vec![vec![1, 2, 3, 4, 5]]);
    let mut h = helper(HelperKind::Filter { predicate: ObjectRef { id: PREDICATE, callable: true } });
    assert_eq!(drain(&mut h, &mut e), ints(&[2, 4]));
    assert_eq!(e.callback_counters, vec![0, 1, 2, 3, 4]);
}

#[test]
fn take_stops_at_limit() {
    let mut e = Engine::new(vec![vec![1, 2, 3]]);
    let mut h = helper(HelperKind::Take { remaining: IntegerOrInfinity::Integer(2) });
    assert_eq!(drain(&mut h, &mut e), ints(&[1, 2]));
    // the third value was never asked for
    assert_eq!(e.iterators[0].1, 2);
    let mut e = Engine::new(vec![vec![1, 2, 3]]);
    let mut h = helper(HelperKind::Take { remaining: IntegerOrInfinity::PositiveInfinity });
    assert_eq!(drain(&mut h, &mut e), ints(&[1, 2, 3]));
}

#[test]
fn take_zero_never_steps() {
    let h = helper(HelperKind::Take { remaining: IntegerOrInfinity::Integer(0) });
    match h.next_start() {
        HelperStep::Finished(Ok(r)) => {
            assert!(r.done);
            assert_eq!(r.value, JsValue::Undefined);
        }
        _ => panic!("expected a finished step"),
    }
}

#[test]
fn drop_skips_first_values() {
    let mut e = Engine::new(vec![vec![1, 2, 3]]);
    let mut h = helper(HelperKind::Drop { remaining: IntegerOrInfinity::Integer(1) });
    assert_eq!(drain(&mut h, &mut e), ints(&[2, 3]));
    let mut e = Engine::new(vec![vec![1, 2]]);
    let mut h = helper(HelperKind::Drop { remaining: IntegerOrInfinity::Integer(5) });
    assert_eq!(drain(&mut h, &mut e), ints(&[]));
    let h = helper(HelperKind::Drop { remaining: IntegerOrInfinity::PositiveInfinity });
    assert!(matches!(h.next_start(), HelperStep::Finished(Ok(IterResultObject { done: true, .. }))));
}

#[test]
fn concat_yields_in_order() {
    let mut e = Engine::new(vec![vec![1, 2], vec![], vec![3]]);
    let mut h = IteratorHelper::create_concat(vec![Engine::record(0), Engine::record(1), Engine::record(2)]);
    assert_eq!(drain(&mut h, &mut e), ints(&[1, 2, 3]));
    assert!(h.iterables.is_empty());
    let mut empty = IteratorHelper::create_concat(Vec::new());
    assert_eq!(drain(&mut empty, &mut e), ints(&[]));
}

#[test]
fn abrupt_mapper_is_passed_on() {
    let mut e = Engine::new(vec![vec![1]]);
    let mut h = helper(HelperKind::Mapper { mapper: ObjectRef { id: THROWER, callable: true } });
    assert_eq!(helper_next(&mut h, &mut e).err(), Some(thrown()));
}

#[test]
fn helper_return_closes_underlying() {
    let mut e = Engine::new(vec![vec![1, 2]]);
    let mut h = helper(HelperKind::Take { remaining: IntegerOrInfinity::Integer(5) });
    let mut step = h.return_start();
    let outcome = loop {
        match step {
            ReturnStep::Finished(r) => break r,
            ReturnStep::Continue(c, q) => {
                let reply = e.answer(q);
                step = c.resume(reply);
            }
        }
    };
    assert_eq!(outcome, Ok(ReturnOutcome::Returned(JsValue::Object(Engine::iterator(0)))));
    assert_eq!(e.return_calls, vec![1000]);
}

#[test]
fn concat_return_closes_every_pending_iterator() {
    let mut e = Engine::new(vec![vec![1], vec![2]]);
    let mut h = IteratorHelper::create_concat(vec![Engine::record(0), Engine::record(1)]);
    let mut step = h.return_start();
    let outcome = loop {
        match step {
            ReturnStep::Finished(r) => break r,
            ReturnStep::Continue(c, q) => {
                let reply = e.answer(q);
                step = c.resume(reply);
            }
        }
    };
    assert_eq!(outcome, Ok(ReturnOutcome::Done));
    assert_eq!(e.return_calls, vec![1000, 2000]);
    assert!(h.iterables.is_empty());
}

#[test]
fn limits_are_validated() {
    let range = |reason| Err(JsError::Native { kind: ErrorKind::Range, reason });
    assert_eq!(check_limit_number(Ok(LimitNumber::NaN)), range(Reason::LimitNaN));
    assert_eq!(check_limit_number(Ok(LimitNumber::Number)), Ok(()));
    assert_eq!(check_limit_number(Err(thrown())), Err(thrown()));
    let range = |reason| Err(JsError::Native { kind: ErrorKind::Range, reason });
    assert_eq!(validate_limit(IntegerOrInfinity::Integer(-1)), range(Reason::LimitNegative));
    assert_eq!(validate_limit(IntegerOrInfinity::NegativeInfinity), range(Reason::LimitNegative));
    assert_eq!(validate_limit(IntegerOrInfinity::Integer(0)), Ok(IntegerOrInfinity::Integer(0)));
    assert_eq!(validate_limit(IntegerOrInfinity::PositiveInfinity), Ok(IntegerOrInfinity::PositiveInfinity));
    let o = obj(5);
    assert_eq!(
        HelperCreation::take(o, Ok(IntegerOrInfinity::Integer(3))).map(|c| c.kind),
        Ok(HelperKind::Take { remaining: IntegerOrInfinity::Integer(3) })
    );
    // the second conversion of the limit decides its sign
    assert_eq!(
        HelperCreation::take(o, Ok(IntegerOrInfinity::Integer(-2))).map(|c| c.kind),
        Err(JsError::Native { kind: ErrorKind::Range, reason: Reason::LimitNegative })
    );
    assert_eq!(
        HelperCreation::drop(o, Err(thrown())).map(|c| c.kind),
        Err(thrown())
    );
}

#[test]
fn helper_creation_checks_arguments() {
    let type_error = |reason| Err(JsError::Native { kind: ErrorKind::Type, reason });
    assert_eq!(HelperCreation::map(JsValue::Null, func(MAPPER)), type_error(Reason::ThisNotObject));
    assert_eq!(
        HelperCreation::map(JsValue::Object(obj(5)), JsValue::Object(obj(6))),
        type_error(Reason::MapperNotCallable)
    );
    assert_eq!(
        HelperCreation::filter(JsValue::Object(obj(5)), JsValue::Integer(1)),
        type_error(Reason::PredicateNotCallable)
    );
    let c = HelperCreation::map(JsValue::Object(obj(5)), func(MAPPER)).ok().unwrap();
    assert_eq!(c.request(), HostRequest::Get { object: obj(5), key: PropertyKey::Next });
    let h = c.finish(Ok(func(6))).ok().unwrap();
    assert_eq!(h.underlying, Some(IteratorRecord::new(obj(5), func(6))));
    assert_eq!(h.counter, 0);
}

#[test]
fn consumers_decide_and_close() {
    let mut e = Engine::new(vec![vec![1, 3, 4, 5]]);
    assert_eq!(consume(ConsumerKind::Any, func(PREDICATE), &mut e), Ok(JsValue::Boolean(true)));
    // the iterator was closed after the verdict on the third value
    assert_eq!(e.return_calls, vec![1000]);
    assert_eq!(e.iterators[0].1, 3);

    let mut e = Engine::new(vec![vec![2, 4, 5]]);
    assert_eq!(consume(ConsumerKind::All, func(PREDICATE), &mut e), Ok(JsValue::Boolean(false)));
    assert_eq!(e.return_calls, vec![1000]);

    let mut e = Engine::new(vec![vec![1, 3, 6, 8]]);
    assert_eq!(consume(ConsumerKind::Find, func(PREDICATE), &mut e), Ok(JsValue::Integer(6)));

    let mut e = Engine::new(vec![vec![1, 3]]);
    assert_eq!(consume(ConsumerKind::Any, func(PREDICATE), &mut e), Ok(JsValue::Boolean(false)));
    assert_eq!(consume(ConsumerKind::All, func(PREDICATE), &mut Engine::new(vec![vec![]])), Ok(JsValue::Boolean(true)));
    // an exhausted iterator is not closed
    assert!(e.return_calls.is_empty());

    let mut e = Engine::new(vec![vec![1, 2, 3]]);
    assert_eq!(consume(ConsumerKind::ForEach, func(MAPPER), &mut e), Ok(JsValue::Undefined));
    assert_eq!(e.callback_counters, vec![0, 1, 2]);
}

#[test]
fn consumer_abrupt_callback_closes_and_throws() {
    let mut e = Engine::new(vec![vec![1, 2]]);
    assert_eq!(consume(ConsumerKind::ForEach, func(THROWER), &mut e), Err(thrown()));
    assert_eq!(e.return_calls, vec![1000]);
    // without a return method the completion still stands
    let mut e = Engine::new(vec![vec![1, 2]]);
    e.has_return = false;
    assert_eq!(consume(ConsumerKind::Find, func(THROWER), &mut e), Err(thrown()));
}

#[test]
fn consumer_rejects_bad_arguments() {
    let mut e = Engine::new(vec![vec![1]]);
    assert_eq!(
        consume(ConsumerKind::ForEach, JsValue::Integer(3), &mut e),
        Err(JsError::Native { kind: ErrorKind::Type, reason: Reason::ProcedureNotCallable })
    );
    assert_eq!(
        consume(ConsumerKind::Any, JsValue::Object(obj(3)), &mut e),
        Err(JsError::Native { kind: ErrorKind::Type, reason: Reason::PredicateNotCallable })
    );
    assert!(matches!(
        IteratorConsumer::start(ConsumerKind::Any, JsValue::Integer(1), func(PREDICATE)),
        ConsumerStep::Finished(Err(JsError::Native { kind: ErrorKind::Type, reason: Reason::ThisNotObject }))
    ));
}

#[test]
fn to_array_collects_all_values() {
    let mut e = Engine::new(vec![vec![7, 8, 9]]);
    let (o, q) = to_array_start(JsValue::Object(Engine::iterator(0))).ok().unwrap();
    let got = e.answer(q);
    let (mut collector, mut q) = to_array_collect(o, got).ok().unwrap();
    let values = loop {
        let reply = e.answer(q);
        match collector.resume(reply) {
            CollectStep::Continue(c, q2) => {
                collector = c;
                q = q2;
            }
            CollectStep::Finished(r) => break r.ok().unwrap(),
        }
    };
    assert_eq!(values, ints(&[7, 8, 9]));
    assert!(to_array_start(JsValue::Undefined).is_err());
}

#[test]
fn step_value_marks_done() {
    let mut e = Engine::new(vec![vec![1]]);
    let mut rec = Engine::record(0);
    let (mut phase, mut q) = rec.step_start();
    let v = loop {
        let reply = e.answer(q);
        match rec.step_value(phase, reply) {
            StepValueStep::Request(p, q2) => {
                phase = p;
                q = q2;
            }
            StepValueStep::Finished(r) => break r,
        }
    };
    assert_eq!(v, Ok(Some(JsValue::Integer(1))));
    assert!(!rec.done());
    let (mut phase, mut q) = rec.step_start();
    let v = loop {
        let reply = e.answer(q);
        match rec.step_value(phase, reply) {
            StepValueStep::Request(p, q2) => {
                phase = p;
                q = q2;
            }
            StepValueStep::Finished(r) => break r,
        }
    };
    assert_eq!(v, Ok(None));
    assert!(rec.done());
    // an abrupt next marks the record done
    let mut rec = Engine::record(0);
    assert_eq!(finished(rec.step_value(StepPhase::AwaitNext, Err(thrown()))), Some(Err(thrown())));
    assert!(rec.done());
    // a result that is not an object is a TypeError
    let mut rec = Engine::record(0);
    assert_eq!(
        finished(rec.step_value(StepPhase::AwaitNext, Ok(JsValue::Integer(1)))),
        Some(Err(JsError::Native { kind: ErrorKind::Type, reason: Reason::NextResultNotObject }))
    );
    assert!(rec.done());
}

fn finished(s: StepValueStep) -> Option<Result<Option<JsValue>, JsError>> {
    match s {
        StepValueStep::Finished(r) => Some(r),
        StepValueStep::Request(..) => None,
    }
}

#[test]
fn iterator_close_completions() {
    let rec = Engine::record(0);
    let normal: Completion = Ok(JsValue::Integer(5));
    // no return method: the completion stands
    assert!(matches!(rec.close_after_get_method(normal, Ok(JsValue::Undefined)), CloseStep::Finished(Ok(JsValue::Integer(5)))));
    // a throw completion wins over an abrupt GetMethod
    let other = JsError::Throw(JsValue::Integer(9));
    assert!(matches!(rec.close_after_get_method(Err(thrown()), Err(other)), CloseStep::Finished(Err(e)) if e == thrown()));
    assert!(matches!(rec.close_after_get_method(normal, Err(other)), CloseStep::Finished(Err(e)) if e == other));
    assert_eq!(IteratorRecord::close_after_call(Err(thrown()), Ok(JsValue::Integer(1))), Err(thrown()));
    assert_eq!(IteratorRecord::close_after_call(normal, Err(other)), Err(other));
    assert_eq!(
        IteratorRecord::close_after_call(normal, Ok(JsValue::Integer(1))),
        Err(JsError::Native { kind: ErrorKind::Type, reason: Reason::InnerResultNotObject })
    );
    assert_eq!(IteratorRecord::close_after_call(normal, Ok(JsValue::Object(obj(1)))), normal);
}

fn acquire(mut step: AcquireStep, e: &mut Engine) -> Result<Acquired, JsError> {
    loop {
        match step {
            AcquireStep::Finished(r) => return r,
            AcquireStep::Request(a, q) => {
                let reply = e.answer(q);
                step = a.resume(reply);
            }
        }
    }
}

#[test]
fn get_iterator_from_iterable() {
    let mut e = Engine::new(vec![vec![1]]);
    let r = acquire(JsValue::Object(obj(ARRAY)).get_iterator(IteratorHint::Sync), &mut e);
    assert_eq!(r, Ok(Acquired::Record(Engine::record(0))));
    // async falls back to the sync method, to be wrapped
    let r = acquire(JsValue::Object(obj(ARRAY)).get_iterator(IteratorHint::Async), &mut e);
    assert_eq!(r, Ok(Acquired::AsyncFromSync(Engine::record(0))));
    // a value without an iterator method is not iterable
    let r = acquire(JsValue::Integer(3).get_iterator(IteratorHint::Sync), &mut e);
    assert_eq!(r, Err(JsError::Native { kind: ErrorKind::Type, reason: Reason::NotIterable }));
    // from a given method
    let r = acquire(JsValue::Object(obj(ARRAY)).get_iterator_from_method(func(ITER_FN)), &mut e);
    assert_eq!(r, Ok(Acquired::Record(Engine::record(0))));
    // direct
    let r = acquire(get_iterator_direct(Engine::iterator(0)), &mut e);
    assert_eq!(r, Ok(Acquired::Record(Engine::record(0))));
}

#[test]
fn get_iterator_flattenable_string_handling() {
    let mut e = Engine::new(vec![vec![1]]);
    let s = JsValue::String { handle: 1, empty: false };
    let r = acquire(get_iterator_flattenable(s, StringHandling::RejectStrings), &mut e);
    assert_eq!(r, Err(JsError::Native { kind: ErrorKind::Type, reason: Reason::NotObjectOrString }));
    // an object without @@iterator is taken as an iterator itself
    let r = acquire(get_iterator_flattenable(JsValue::Object(Engine::iterator(0)), StringHandling::RejectStrings), &mut e);
    assert_eq!(r, Ok(Acquired::Record(Engine::record(0))));
    // a string whose @@iterator is missing is not an iterator object
    let r = acquire(get_iterator_flattenable(s, StringHandling::IterateStrings), &mut e);
    assert_eq!(r, Err(JsError::Native { kind: ErrorKind::Type, reason: Reason::IteratorNotObject }));
}

#[test]
fn concat_builder_gathers_records() {
    let mut e = Engine::new(vec![vec![1], vec![2]]);
    let mut step = ConcatBuilder::start(JsValue::Object(Engine::iterator(0)), vec![JsValue::Object(Engine::iterator(1))]);
    let mut h = loop {
        match step {
            ConcatStep::Finished(r) => break r.ok().unwrap(),
            ConcatStep::Continue(b, q) => {
                let reply = e.answer(q);
                step = b.resume(reply);
            }
        }
    };
    assert_eq!(h.iterables, vec![Engine::record(0), Engine::record(1)]);
    assert_eq!(drain(&mut h, &mut e), ints(&[1, 2]));
    let bad = ConcatBuilder::start(JsValue::Object(Engine::iterator(0)), vec![JsValue::Integer(3)]);
    let mut step = bad;
    let r = loop {
        match step {
            ConcatStep::Finished(r) => break r.err(),
            ConcatStep::Continue(b, q) => {
                let reply = e.answer(q);
                step = b.resume(reply);
            }
        }
    };
    assert_eq!(r, Some(JsError::Native { kind: ErrorKind::Type, reason: Reason::NotObjectOrString }));
}

#[test]
fn wrap_for_valid_iterator_methods() {
    let rec = Engine::record(0);
    let w = WrapForValidIterator::new(rec);
    assert_eq!(w.iterated(), rec);
    assert_eq!(
        wrap_next(JsValue::Object(obj(7)), Some(w)),
        Ok(HostRequest::Call { function: rec.next_method, this: JsValue::Object(rec.iterator), args: CallArgs::Empty })
    );
    assert_eq!(
        wrap_next(JsValue::Object(obj(7)), None),
        Err(JsError::Native { kind: ErrorKind::Type, reason: Reason::NoIteratedSlot })
    );
    let not_callable = WrapForValidIterator::new(IteratorRecord::new(obj(1), JsValue::Undefined));
    assert_eq!(
        wrap_next(JsValue::Object(obj(7)), Some(not_callable)),
        Err(JsError::Native { kind: ErrorKind::Type, reason: Reason::NextNotCallable })
    );
    let (it, q) = wrap_return_start(JsValue::Object(obj(7)), Some(w)).ok().unwrap();
    assert_eq!(q, HostRequest::GetMethod { value: JsValue::Object(it), key: PropertyKey::Return });
    assert!(matches!(
        wrap_return_resume(it, Ok(JsValue::Undefined)),
        ReturnFnStep::Finished(Ok(IterResultObject { value: JsValue::Undefined, done: true }))
    ));
    assert!(matches!(wrap_return_resume(it, Ok(func(3))), ReturnFnStep::Call(HostRequest::Call { .. })));
    assert!(wrap_return_start(JsValue::Null, Some(w)).is_err());
}

#[test]
fn iterator_from_and_constructor() {
    let rec = Engine::record(0);
    assert_eq!(from_finish(rec, Ok(JsValue::Boolean(true))), Ok(FromResult::Iterator(rec.iterator)));
    assert_eq!(
        from_finish(rec, Ok(JsValue::Boolean(false))),
        Ok(FromResult::Wrapped(WrapForValidIterator::new(rec)))
    );
    assert_eq!(from_finish(rec, Err(thrown())), Err(thrown()));
    let iterator_ctor = ObjectRef { id: 50, callable: true };
    assert_eq!(
        constructor_check(JsValue::Undefined, Some(iterator_ctor)),
        Err(JsError::Native { kind: ErrorKind::Type, reason: Reason::ConstructorWithoutNew })
    );
    assert_eq!(
        constructor_check(JsValue::Object(iterator_ctor), Some(iterator_ctor)),
        Err(JsError::Native { kind: ErrorKind::Type, reason: Reason::AbstractIterator })
    );
    assert_eq!(constructor_check(func(51), Some(iterator_ctor)), Ok(()));
    assert_eq!(require_helper(JsValue::Object(obj(1)), true), Ok(obj(1)));
    assert!(require_helper(JsValue::Object(obj(1)), false).is_err());
}

#[test]
fn to_string_tag_accessors() {
    assert_eq!(get_to_string_tag(), "Iterator");
    assert_eq!(iterator_identity(JsValue::Integer(4)), JsValue::Integer(4));
    let proto = obj(60);
    assert_eq!(
        set_to_string_tag_start(JsValue::Object(proto), proto),
        Err(JsError::Native { kind: ErrorKind::Type, reason: Reason::SetOnHomeObject })
    );
    let (o, q) = set_to_string_tag_start(JsValue::Object(obj(61)), proto).ok().unwrap();
    assert_eq!(q, HostRequest::HasOwnProperty { object: obj(61), key: PropertyKey::SymbolToStringTag });
    let v = JsValue::Integer(1);
    assert_eq!(
        setter_write(o, PropertyKey::SymbolToStringTag, v, Ok(JsValue::Boolean(false))),
        Ok(HostRequest::CreateDataProperty { object: o, key: PropertyKey::SymbolToStringTag, value: v })
    );
    assert_eq!(
        setter_write(o, PropertyKey::SymbolToStringTag, v, Ok(JsValue::Boolean(true))),
        Ok(HostRequest::SetProperty { object: o, key: PropertyKey::SymbolToStringTag, value: v })
    );
    assert_eq!(setter_finish(Ok(JsValue::Boolean(true))), Ok(JsValue::Undefined));
    assert_eq!(setter_finish(Err(thrown())), Err(thrown()));
}
