//! The language values that the library reasons about, the errors it raises, and the
//! requests by which it asks the engine that hosts it to run JavaScript on its behalf.
//!
//! Values held by the engine (objects, strings, symbols, big integers, numbers that are
//! not integers) are referred to by handles; what the logic reads of them (whether an
//! object can be called, whether a string is empty, whether a number is truthy) is kept
//! beside the handle as a plain value.

use vstd::prelude::*;

verus! {

/// The handle of an object held by the engine.
pub type ObjectId = u64;

/// A reference to an object: its handle and whether it has a `[[Call]]` method.
#[derive(Debug, Clone, Copy, PartialEq, Eq, Structural)]
pub struct ObjectRef {
    /// The object's handle.
    pub id: ObjectId,
    /// Whether the object is callable.
    pub callable: bool,
}

/// An ECMAScript language value.
#[derive(Debug, Clone, Copy, PartialEq, Eq, Structural)]
pub enum JsValue {
    /// `undefined`.
    Undefined,
    /// `null`.
    Null,
    /// A Boolean.
    Boolean(bool),
    /// A Number whose value is an integer that fits an `i64`.
    Integer(i64),
    /// Any other Number; `truthy` is false for `NaN` and the zeros.
    Number { handle: u64, truthy: bool },
    /// A String; `empty` tells whether it has no code units.
    String { handle: u64, empty: bool },
    /// A Symbol.
    Symbol(u64),
    /// A BigInt; `zero` tells whether it is `0n`.
    BigInt { handle: u64, zero: bool },
    /// An Object.
    Object(ObjectRef),
}

/// `ToBoolean ( argument )`.
pub open spec fn spec_to_boolean(v: JsValue) -> bool {
    match v {
        JsValue::Undefined => false,
        JsValue::Null => false,
        JsValue::Boolean(b) => b,
        JsValue::Integer(i) => i != 0,
        JsValue::Number { truthy, .. } => truthy,
        JsValue::String { empty, .. } => !empty,
        JsValue::Symbol(_) => true,
        JsValue::BigInt { zero, .. } => !zero,
        JsValue::Object(_) => true,
    }
}

/// The object a value is, if it is one.
pub open spec fn spec_as_object(v: JsValue) -> Option<ObjectRef> {
    match v {
        JsValue::Object(o) => Some(o),
        _ => None,
    }
}

/// `IsCallable ( argument )`.
pub open spec fn spec_is_callable(v: JsValue) -> bool {
    match v {
        JsValue::Object(o) => o.callable,
        _ => false,
    }
}

impl JsValue {
    /// `ToBoolean ( argument )`.
    pub fn to_boolean(&self) -> (r: bool)
        ensures
            r == spec_to_boolean(*self),
    {
        match *self {
            JsValue::Undefined => false,
            JsValue::Null => false,
            JsValue::Boolean(b) => b,
            JsValue::Integer(i) => i != 0,
            JsValue::Number { truthy, .. } => truthy,
            JsValue::String { empty, .. } => !empty,
            JsValue::Symbol(_) => true,
            JsValue::BigInt { zero, .. } => !zero,
            JsValue::Object(_) => true,
        }
    }

    /// The object this value is, if it is one.
    pub fn as_object(&self) -> (r: Option<ObjectRef>)
        ensures
            r == spec_as_object(*self),
    {
        match *self {
            JsValue::Object(o) => Some(o),
            _ => None,
        }
    }

    /// The object this value is, if it is a callable one.
    pub fn as_callable(&self) -> (r: Option<ObjectRef>)
        ensures
            r == (if spec_is_callable(*self) { spec_as_object(*self) } else { None }),
    {
        match *self {
            JsValue::Object(o) => if o.callable { Some(o) } else { None },
            _ => None,
        }
    }

    /// Whether this value is an object.
    pub fn is_object(&self) -> (r: bool)
        ensures
            r == (*self is Object),
    {
        matches!(*self, JsValue::Object(_))
    }

    /// Whether this value is a String.
    pub fn is_string(&self) -> (r: bool)
        ensures
            r == (*self is String),
    {
        matches!(*self, JsValue::String { .. })
    }

    /// Whether this value is a Boolean.
    pub fn is_boolean(&self) -> (r: bool)
        ensures
            r == (*self is Boolean),
    {
        matches!(*self, JsValue::Boolean(_))
    }

    /// Whether this value is `undefined`.
    pub fn is_undefined(&self) -> (r: bool)
        ensures
            r == (*self is Undefined),
    {
        matches!(*self, JsValue::Undefined)
    }

    /// Whether this value is `null` or `undefined`.
    pub fn is_null_or_undefined(&self) -> (r: bool)
        ensures
            r == (*self is Undefined || *self is Null),
    {
        matches!(*self, JsValue::Undefined | JsValue::Null)
    }
}

/// The property keys that the library reads or writes.
#[derive(Debug, Clone, Copy, PartialEq, Eq, Structural)]
pub enum PropertyKey {
    /// `"next"`.
    Next,
    /// `"done"`.
    Done,
    /// `"value"`.
    Value,
    /// `"return"`.
    Return,
    /// `"capture"`.
    Capture,
    /// `"passive"`.
    Passive,
    /// `"once"`.
    Once,
    /// `@@iterator`.
    SymbolIterator,
    /// `@@asyncIterator`.
    SymbolAsyncIterator,
    /// `@@toStringTag`.
    SymbolToStringTag,
}

/// The constructor of a native error.
#[derive(Debug, Clone, Copy, PartialEq, Eq, Structural)]
pub enum ErrorKind {
    /// `TypeError`.
    Type,
    /// `RangeError`.
    Range,
    /// `SyntaxError`.
    Syntax,
    /// `Error`.
    Error,
}

/// Why a native error was raised.
#[derive(Debug, Clone, Copy, PartialEq, Eq, Structural)]
pub enum Reason {
    /// "this is not an object".
    ThisNotObject,
    /// "predicate is not callable".
    PredicateNotCallable,
    /// "procedure is not callable".
    ProcedureNotCallable,
    /// "mapper is not callable".
    MapperNotCallable,
    /// "next value should be an object".
    NextResultNotObject,
    /// "returned iterator is not an object".
    IteratorNotObject,
    /// "value is not an object or string".
    NotObjectOrString,
    /// "value is not iterable".
    NotIterable,
    /// "inner result was not an object".
    InnerResultNotObject,
    /// "limit must not be NaN".
    LimitNaN,
    /// "limit must be non-negative".
    LimitNegative,
    /// "Iterator constructor cannot be called without `new`".
    ConstructorWithoutNew,
    /// "Abstract class Iterator not directly constructable".
    AbstractIterator,
    /// "Cannot set property on home object".
    SetOnHomeObject,
    /// "this is not an IteratorHelper object".
    NotIteratorHelper,
    /// "`this` does not have a [[Iterated]] internal slot".
    NoIteratedSlot,
    /// "next method is not callable".
    NextNotCallable,
    /// "Event must be an object".
    EventNotObject,
    /// "Not a valid Event object".
    NotAnEvent,
    /// "InvalidStateError: Event is already being dispatched".
    EventAlreadyDispatching,
    /// "InvalidStateError: Event is not initialized".
    EventNotInitialized,
    /// "Invalid response type value".
    InvalidResponseType,
    /// "Response status must be between 200 and 599".
    StatusOutOfRange,
    /// "Response statusText contains invalid characters".
    InvalidStatusText,
    /// "Invalid status code".
    InvalidStatusCode,
    /// "Response with null body status cannot have a body".
    NullBodyStatus,
}

/// An abrupt completion: a thrown value or a native error raised by the library.
#[derive(Debug, Clone, Copy, PartialEq, Eq, Structural)]
pub enum JsError {
    /// A value thrown by JavaScript code.
    Throw(JsValue),
    /// A native error created by the library.
    Native { kind: ErrorKind, reason: Reason },
}

/// The result of an operation that may complete abruptly.
pub type JsResult<T> = Result<T, JsError>;

/// A native `TypeError`.
pub open spec fn type_error(reason: Reason) -> JsError {
    JsError::Native { kind: ErrorKind::Type, reason }
}

/// A native `RangeError`.
pub open spec fn range_error(reason: Reason) -> JsError {
    JsError::Native { kind: ErrorKind::Range, reason }
}

/// Makes a native `TypeError`.
pub fn make_type_error(reason: Reason) -> (r: JsError)
    ensures
        r == type_error(reason),
{
    JsError::Native { kind: ErrorKind::Type, reason }
}

/// Makes a native `RangeError`.
pub fn make_range_error(reason: Reason) -> (r: JsError)
    ensures
        r == range_error(reason),
{
    JsError::Native { kind: ErrorKind::Range, reason }
}

/// The arguments of a call.
#[derive(Debug, Clone, Copy, PartialEq, Eq, Structural)]
pub enum CallArgs {
    /// No argument.
    Empty,
    /// One argument.
    One(JsValue),
    /// Two arguments.
    Two(JsValue, JsValue),
}

/// An operation that only the engine can perform: it runs JavaScript or reads an object.
///
/// The engine answers each request with a completion: the value it produced, or what
/// was thrown.
#[derive(Debug, Clone, Copy, PartialEq, Eq, Structural)]
pub enum HostRequest {
    /// `Call ( F, V, argumentsList )`.
    Call { function: JsValue, this: JsValue, args: CallArgs },
    /// `Get ( O, P )`.
    Get { object: ObjectRef, key: PropertyKey },
    /// `GetMethod ( V, P )`: answered with `undefined` when there is no method.
    GetMethod { value: JsValue, key: PropertyKey },
    /// `OrdinaryHasInstance ( %Iterator%, O )`: answered with a Boolean.
    IsIteratorInstance { object: ObjectRef },
    /// `O.[[GetOwnProperty]] ( P )`: answered with whether `O` has the own property.
    HasOwnProperty { object: ObjectRef, key: PropertyKey },
    /// `CreateDataPropertyOrThrow ( O, P, V )`.
    CreateDataProperty { object: ObjectRef, key: PropertyKey, value: JsValue },
    /// `Set ( O, P, V, true )`.
    SetProperty { object: ObjectRef, key: PropertyKey, value: JsValue },
}

/// What the engine answers to a request.
pub type Completion = Result<JsValue, JsError>;

} // verus!
