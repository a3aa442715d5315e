use boa::event::{
    dispatch_event_check, flatten_options, Dispatch, DispatchAction, Event, EventInit,
    EventTarget, ListenerOptions, AT_TARGET, BUBBLING_PHASE, CAPTURING_PHASE, NONE,
};
use boa::value::{CallArgs, ErrorKind, HostRequest, JsError, JsValue, ObjectRef, Reason};

fn no_init() -> EventInit {
    EventInit { bubbles: false, cancelable: false, composed: false }
}

fn callback(id: u64) -> JsValue {
    JsValue::Object(ObjectRef { id, callable: true })
}

/// Runs a dispatch at `target`, calling `on_call` for each listener invoked with the id of
/// its callback; returns the result of `dispatchEvent`.
fn dispatch(
    target: &mut EventTarget,
    event: &mut Event,
    mut on_call: impl FnMut(u64, &mut Event),
) -> Result<bool, JsError> {
    let event_object = ObjectRef { id: 1000, callable: false };
    let mut d: Dispatch = target.begin_dispatch(event_object, event)?;
    loop {
        match d.next(event) {
            DispatchAction::Invoke(HostRequest::Call { function: JsValue::Object(f), this, args }) => {
                assert_eq!(this, JsValue::Undefined);
                assert_eq!(args, CallArgs::One(JsValue::Object(event_object)));
                on_call(f.id, event);
                d.after_invoke(target, event);
            }
            DispatchAction::Invoke(other) => panic!("unexpected request {:?}", other),
            DispatchAction::Finished => break,
        }
    }
    Ok(Dispatch::finish(event))
}

#[test]
fn test_event_constructor_minimal() {
    let e = Event::constructor("test".to_string(), no_init());
    assert_eq!(e.event_type(), "test");
    assert!(!e.bubbles());
    assert!(!e.cancelable());
    assert!(!e.composed());
}

#[test]
fn test_event_constructor_with_options() {
    let e = Event::constructor(
        "test".to_string(),
        EventInit { bubbles: true, cancelable: true, composed: true },
    );
    assert_eq!(e.event_type(), "test");
    assert!(e.bubbles());
    assert!(e.cancelable());
    assert!(e.composed());
}

#[test]
fn test_event_default_prevented() {
    let mut e = Event::constructor(
        "test".to_string(),
        EventInit { bubbles: false, cancelable: true, composed: false },
    );
    assert!(!e.default_prevented());
    e.prevent_default();
    assert!(e.default_prevented());
}

#[test]
fn test_event_prevent_default_non_cancelable() {
    let mut e = Event::constructor("test".to_string(), no_init());
    e.prevent_default();
    assert!(!e.default_prevented());
}

#[test]
fn test_event_stop_propagation() {
    let mut e = Event::constructor("test".to_string(), no_init());
    e.stop_propagation();
    assert!(e.stop_propagation_flag);
    assert!(!e.stop_immediate_propagation_flag);
}

#[test]
fn test_event_stop_immediate_propagation() {
    let mut e = Event::constructor("test".to_string(), no_init());
    e.stop_immediate_propagation();
    assert!(e.stop_propagation_flag);
    assert!(e.stop_immediate_propagation_flag);
}

#[test]
fn test_event_is_trusted() {
    let e = Event::constructor("test".to_string(), no_init());
    assert!(!e.is_trusted());
}

#[test]
fn test_event_event_phase() {
    let e = Event::constructor("test".to_string(), no_init());
    assert_eq!(e.event_phase(), 0);
}

#[test]
fn test_event_target() {
    let e = Event::constructor("test".to_string(), no_init());
    assert_eq!(e.target(), None);
}

#[test]
fn test_event_constants() {
    assert_eq!(NONE, 0);
    assert_eq!(CAPTURING_PHASE, 1);
    assert_eq!(AT_TARGET, 2);
    assert_eq!(BUBBLING_PHASE, 3);
}

#[test]
fn test_event_constants_are_enumerable() {
    let names = Event::constant_names();
    assert!(names.contains(&"NONE"));
    assert!(names.contains(&"CAPTURING_PHASE"));
    assert!(names.contains(&"AT_TARGET"));
    assert!(names.contains(&"BUBBLING_PHASE"));
}

#[test]
fn test_event_init_event() {
    let mut e = Event::constructor("original".to_string(), no_init());
    assert_eq!(e.event_type(), "original");
    assert!(!e.bubbles());
    assert!(!e.cancelable());
    e.init_event("modified".to_string(), true, true);
    assert_eq!(e.event_type(), "modified");
    assert!(e.bubbles());
    assert!(e.cancelable());
}

#[test]
fn test_event_init_event_during_dispatch() {
    let mut target = EventTarget::constructor();
    target.add_event_listener("test".to_string(), callback(1), (false, false, false));
    let mut evt = Event::constructor("test".to_string(), no_init());
    let mut seen: Option<(String, bool)> = None;
    let r = dispatch(&mut target, &mut evt, |_, e| {
        e.init_event("modified".to_string(), true, true);
        seen = Some((e.event_type(), e.bubbles()));
    });
    assert_eq!(r, Ok(true));
    // initEvent has no effect during dispatch
    assert_eq!(seen, Some(("test".to_string(), false)));
    assert_eq!(evt.event_type(), "test");
    assert!(!evt.bubbles());
}

#[test]
fn test_event_properties_are_readonly() {
    // The getters hand out copies: the event keeps its values.
    let e = Event::constructor(
        "test".to_string(),
        EventInit { bubbles: true, cancelable: false, composed: false },
    );
    let mut t = e.event_type();
    t.push_str("modified");
    assert_eq!(e.event_type(), "test");
    assert!(e.bubbles());
    assert_eq!(e.event_phase(), 0);
}

#[test]
fn event_target_add_and_dispatch_counts() {
    let mut target = EventTarget::constructor();
    target.add_event_listener("test".to_string(), callback(1), (false, false, false));
    target.add_event_listener("test".to_string(), callback(2), (false, false, false));
    // the same listener twice is ignored
    target.add_event_listener("test".to_string(), callback(1), (false, false, false));
    // with another capture it is another listener
    target.add_event_listener("test".to_string(), callback(1), (true, false, false));
    let mut evt = Event::constructor("test".to_string(), no_init());
    let mut calls = Vec::new();
    let r = dispatch(&mut target, &mut evt, |id, _| calls.push(id));
    assert_eq!(r, Ok(true));
    assert_eq!(calls, vec![1, 2, 1]);
    assert_eq!(evt.event_phase(), NONE);
    assert!(!evt.dispatch_flag);
}

#[test]
fn event_target_non_object_callback_is_ignored() {
    let mut target = EventTarget::constructor();
    target.add_event_listener("test".to_string(), JsValue::Null, (false, false, false));
    assert_eq!(target.listeners_for(&"test".to_string()).len(), 0);
    assert!(target.entries.is_empty());
}

#[test]
fn event_target_remove_listener() {
    let mut target = EventTarget::constructor();
    target.add_event_listener("test".to_string(), callback(1), (false, false, false));
    // another callback, or the same with another capture, removes nothing
    target.remove_event_listener("test".to_string(), callback(2), false);
    target.remove_event_listener("test".to_string(), callback(1), true);
    assert_eq!(target.listeners_for(&"test".to_string()).len(), 1);
    target.remove_event_listener("test".to_string(), callback(1), false);
    assert_eq!(target.listeners_for(&"test".to_string()).len(), 0);
    // the emptied entry is dropped
    assert!(target.entries.is_empty());
    let mut evt = Event::constructor("test".to_string(), no_init());
    let mut count = 0;
    let r = dispatch(&mut target, &mut evt, |_, _| count += 1);
    assert_eq!(r, Ok(true));
    assert_eq!(count, 0);
}

#[test]
fn event_target_once_listener_runs_once() {
    let mut target = EventTarget::constructor();
    target.add_event_listener("test".to_string(), callback(1), (false, false, true));
    let mut count = 0;
    let mut e1 = Event::constructor("test".to_string(), no_init());
    dispatch(&mut target, &mut e1, |_, _| count += 1).unwrap();
    assert_eq!(count, 1);
    let mut e2 = Event::constructor("test".to_string(), no_init());
    dispatch(&mut target, &mut e2, |_, _| count += 1).unwrap();
    assert_eq!(count, 1);
}

#[test]
fn event_target_passive_listener_cannot_cancel() {
    let mut target = EventTarget::constructor();
    target.add_event_listener("test".to_string(), callback(1), (false, true, false));
    let mut evt = Event::constructor(
        "test".to_string(),
        EventInit { bubbles: false, cancelable: true, composed: false },
    );
    let mut prevented = true;
    let r = dispatch(&mut target, &mut evt, |_, e| {
        e.prevent_default();
        prevented = e.default_prevented();
    });
    assert!(!prevented);
    assert_eq!(r, Ok(true));
}

#[test]
fn event_target_cancel_and_stop_immediate() {
    let mut target = EventTarget::constructor();
    target.add_event_listener("test".to_string(), callback(1), (false, false, false));
    target.add_event_listener("test".to_string(), callback(2), (false, false, false));
    let mut evt = Event::constructor(
        "test".to_string(),
        EventInit { bubbles: false, cancelable: true, composed: false },
    );
    let mut calls = Vec::new();
    let r = dispatch(&mut target, &mut evt, |id, e| {
        calls.push(id);
        e.prevent_default();
        e.stop_immediate_propagation();
    });
    assert_eq!(r, Ok(false));
    assert_eq!(calls, vec![1]);
    assert!(!evt.stop_immediate_propagation_flag);
}

#[test]
fn event_dispatch_errors() {
    let target = EventTarget::constructor();
    let mut evt = Event::constructor("test".to_string(), no_init());
    evt.dispatch_flag = true;
    let o = ObjectRef { id: 7, callable: false };
    assert_eq!(
        target.begin_dispatch(o, &mut evt).err(),
        Some(JsError::Native { kind: ErrorKind::Error, reason: Reason::EventAlreadyDispatching })
    );
    evt.dispatch_flag = false;
    evt.initialized_flag = false;
    assert_eq!(
        target.begin_dispatch(o, &mut evt).err(),
        Some(JsError::Native { kind: ErrorKind::Error, reason: Reason::EventNotInitialized })
    );
    assert_eq!(
        dispatch_event_check(JsValue::Integer(3), true),
        Err(JsError::Native { kind: ErrorKind::Type, reason: Reason::EventNotObject })
    );
    assert_eq!(
        dispatch_event_check(JsValue::Object(o), false),
        Err(JsError::Native { kind: ErrorKind::Type, reason: Reason::NotAnEvent })
    );
    assert_eq!(dispatch_event_check(JsValue::Object(o), true), Ok(o));
}

#[test]
fn listener_options_flatten() {
    assert_eq!(flatten_options(ListenerOptions::Value(JsValue::Boolean(true))), (true, false, false));
    assert_eq!(flatten_options(ListenerOptions::Value(JsValue::Integer(1))), (false, false, false));
    assert_eq!(flatten_options(ListenerOptions::Value(JsValue::Undefined)), (false, false, false));
    assert_eq!(
        flatten_options(ListenerOptions::Object {
            capture: JsValue::Integer(1),
            passive: JsValue::Undefined,
            once: JsValue::Boolean(true),
        }),
        (true, false, true)
    );
}

#[test]
fn removing_an_unregistered_listener_changes_nothing() {
    let mut target = EventTarget::constructor();
    target.add_event_listener("test".to_string(), callback(1), (true, false, false));
    // another callback, the same one without capture, a non-object, another type
    target.remove_event_listener("test".to_string(), callback(2), true);
    target.remove_event_listener("test".to_string(), callback(1), false);
    target.remove_event_listener("test".to_string(), JsValue::Integer(1), true);
    target.remove_event_listener("other".to_string(), callback(1), true);
    assert_eq!(target.entries.len(), 1);
    let listeners = target.listeners_for(&"test".to_string());
    assert_eq!(listeners.len(), 1);
    assert_eq!(listeners[0].callback.id, 1);
    assert!(listeners[0].capture);
    let mut evt = Event::constructor("test".to_string(), no_init());
    let mut count = 0;
    dispatch(&mut target, &mut evt, |_, _| count += 1).unwrap();
    assert_eq!(count, 1);
}
