# boa — verified engine and runtime pieces

A Verus library holding, with contracts proved by Verus, parts of a JavaScript engine
and of its web runtime:

- `value`, `record`, `acquire`, `helpers`, `iterator`: the iterator protocol
  (Iterator Records, `IteratorStep`, `IteratorClose`, `GetIterator` and its variants),
  the iterator helpers (`map`, `filter`, `take`, `drop`, `concat`) and the consuming
  methods of `Iterator.prototype`. Whatever only the engine can do (calling a function,
  reading a property) is a `HostRequest`: each operation is a state machine that hands
  the engine a request and is resumed with the engine's answer.
- `event`: `Event` and `EventTarget`, with listener bookkeeping and dispatch.
- `dom_exception`: `DOMException` and its legacy codes.
- `response`: the Fetch `Response` (initialisation, body extraction and reading).
- `scope`: the scopes of a lexical scope analysis.
- `shape`, `prototypes`: the root object shape and the iterator prototype objects.

`app/` converts between the library's types and those of the `http` crate.
`tests/` drives the state machines with a small engine written in the tests.
