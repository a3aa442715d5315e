use boa::prototypes::IteratorPrototypes;
use boa::shape::{RootShape, Shape};
use boa::value::{make_range_error, make_type_error, ErrorKind, JsError, JsValue, ObjectRef, Reason};

fn o(id: u64) -> ObjectRef {
    ObjectRef { id, callable: false }
}

#[test]
fn to_boolean_follows_the_table() {
    assert!(!JsValue::Undefined.to_boolean());
    assert!(!JsValue::Null.to_boolean());
    assert!(JsValue::Boolean(true).to_boolean());
    assert!(!JsValue::Integer(0).to_boolean());
    assert!(JsValue::Integer(-3).to_boolean());
    assert!(!JsValue::Number { handle: 1, truthy: false }.to_boolean());
    assert!(!JsValue::String { handle: 1, empty: true }.to_boolean());
    assert!(JsValue::String { handle: 1, empty: false }.to_boolean());
    assert!(JsValue::Symbol(3).to_boolean());
    assert!(!JsValue::BigInt { handle: 1, zero: true }.to_boolean());
    assert!(JsValue::Object(o(1)).to_boolean());
}

#[test]
fn value_queries() {
    let f = ObjectRef { id: 2, callable: true };
    assert_eq!(JsValue::Object(f).as_callable(), Some(f));
    assert_eq!(JsValue::Object(o(1)).as_callable(), None);
    assert_eq!(JsValue::Object(o(1)).as_object(), Some(o(1)));
    assert_eq!(JsValue::Integer(1).as_object(), None);
    assert!(JsValue::Null.is_null_or_undefined());
    assert!(!JsValue::Boolean(false).is_null_or_undefined());
    assert!(JsValue::Boolean(false).is_boolean());
    assert!(JsValue::String { handle: 0, empty: true }.is_string());
    assert_eq!(make_type_error(Reason::NotIterable), JsError::Native { kind: ErrorKind::Type, reason: Reason::NotIterable });
    assert_eq!(make_range_error(Reason::LimitNaN), JsError::Native { kind: ErrorKind::Range, reason: Reason::LimitNaN });
}

#[test]
fn root_shape_is_root() {
    let r = RootShape::default();
    assert_eq!(*r.shape(), Shape::Root);
    assert_eq!(Shape::root(), Shape::Root);
}

#[test]
fn iterator_prototypes_hold_their_objects() {
    let p = IteratorPrototypes::new(o(1), o(2), o(3), o(4), o(5), o(6), o(7), o(8), o(9), o(10), o(11), o(12));
    assert_eq!(p.iterator(), o(1));
    assert_eq!(p.async_iterator(), o(2));
    assert_eq!(p.async_from_sync_iterator(), o(3));
    assert_eq!(p.array(), o(4));
    assert_eq!(p.set(), o(5));
    assert_eq!(p.string(), o(6));
    assert_eq!(p.regexp_string(), o(7));
    assert_eq!(p.map(), o(8));
    assert_eq!(p.for_in(), o(9));
    assert_eq!(p.wrap_for_valid_iterator(), o(10));
    assert_eq!(p.iterator_helper(), o(11));
    assert_eq!(p.segment(), o(12));
}

#[test]
fn iterator_prototypes_are_distinct_objects() {
    let p = IteratorPrototypes::new(o(1), o(2), o(3), o(4), o(5), o(6), o(7), o(8), o(9), o(10), o(11), o(12));
    let all = [
        p.iterator(), p.async_iterator(), p.async_from_sync_iterator(), p.array(), p.set(),
        p.string(), p.regexp_string(), p.map(), p.for_in(), p.wrap_for_valid_iterator(),
        p.iterator_helper(), p.segment(),
    ];
    for i in 0..all.len() {
        for j in 0..all.len() {
            assert_eq!(all[i] == all[j], i == j);
        }
    }
}
