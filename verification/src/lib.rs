//! A verified core of pieces of a JavaScript engine and its web runtime:
//! the iterator protocol and iterator helpers, the `DOMException` legacy codes,
//! `EventTarget` listener bookkeeping and dispatch, the Fetch `Response`
//! initialisation rules and a lexical scope analyser.

pub mod dom_exception;
pub mod value;
pub mod record;
pub mod helpers;
pub mod acquire;
pub mod iterator;
pub mod event;
pub mod response;
pub mod shape;
pub mod prototypes;
pub mod scope;
