//! The scopes of a lexical scope analysis: the bindings of each environment of each
//! function, and the lookup of a symbol through the environments of a function and then
//! through its enclosing functions.

use vstd::prelude::*;
use rustc_hash::{FxBuildHasher, FxHashMap};

verus! {

#[verifier::external_type_specification]
#[verifier::external_body]
pub struct ExFxBuildHasher(FxBuildHasher);

/// An interned symbol.
pub type Sym = usize;

/// A map from symbols to binding indices.
pub type SymMap = FxHashMap<Sym, u32>;

/// `FxHashMap::default()`: an empty map.
#[verifier::external_body]
fn fx_map_new() -> (r: SymMap)
    ensures
        r@ =~= Map::empty(),
{
    FxHashMap::default()
}

/// `FxHashMap::insert` (std's `HashMap::insert` with the Fx hasher): the map with the
/// key bound to the value, and the value the key had before, if any.
#[verifier::external_body]
fn fx_map_insert(m: &mut SymMap, k: Sym, v: u32) -> (r: Option<u32>)
    ensures
        final(m)@ == old(m)@.insert(k, v),
        r == (if old(m)@.contains_key(k) { Some(old(m)@[k]) } else { None::<u32> }),
{
    m.insert(k, v)
}

/// `FxHashMap::get`: the value bound to the key, if any.
#[verifier::external_body]
fn fx_map_get(m: &SymMap, k: Sym) -> (r: Option<u32>)
    ensures
        r == (if m@.contains_key(k) { Some(m@[k]) } else { None::<u32> }),
{
    m.get(&k).copied()
}

/// `FxHashMap::len`: the number of keys.
#[verifier::external_body]
fn fx_map_len(m: &SymMap) -> (r: usize)
    ensures
        r == m@.len(),
{
    m.len()
}

/// An environment: its index among its function's environments, its parent's index, and
/// the index of each symbol bound in it.
pub struct EnvironmentScope {
    /// The index of this environment.
    pub environment_index: u32,
    /// The index of the enclosing environment.
    pub parent_environment_index: Option<u32>,
    /// The bindings: each symbol and its index.
    pub map: SymMap,
}

/// An environment as a mathematical value.
pub struct EnvironmentView {
    /// The index of this environment.
    pub environment_index: u32,
    /// The index of the enclosing environment.
    pub parent_environment_index: Option<u32>,
    /// The bindings.
    pub map: Map<Sym, u32>,
}

impl View for EnvironmentScope {
    type V = EnvironmentView;

    open spec fn view(&self) -> EnvironmentView {
        EnvironmentView {
            environment_index: self.environment_index,
            parent_environment_index: self.parent_environment_index,
            map: self.map@,
        }
    }
}

impl EnvironmentScope {
    /// An environment with no bindings.
    pub fn new(environment_index: u32, parent_environment_index: Option<u32>) -> (r: EnvironmentScope)
        ensures
            r@ == (EnvironmentView { environment_index, parent_environment_index, map: Map::empty() }),
    {
        EnvironmentScope { environment_index, parent_environment_index, map: fx_map_new() }
    }

    /// Binds a symbol that is not bound here yet to the next index: the number of
    /// bindings before it, cut to 32 bits.
    pub fn insert_sym(&mut self, sym: Sym) -> (r: u32)
        requires
            !old(self)@.map.contains_key(sym),
        ensures
            r == old(self)@.map.len() as u32,
            final(self)@ == (EnvironmentView { map: old(self)@.map.insert(sym, r), ..old(self)@ }),
    {
        let n = fx_map_len(&self.map);
        let index: u32 = #[verifier::truncate] (n as u32);
        let _previous = fx_map_insert(&mut self.map, sym, index);
        index
    }

    /// The index of a symbol bound here, if it is.
    pub fn get(&self, sym: Sym) -> (r: Option<u32>)
        ensures
            r == (if self@.map.contains_key(sym) { Some(self@.map[sym]) } else { None::<u32> }),
    {
        fx_map_get(&self.map, sym)
    }
}

/// The scopes of a function: whether it is strict, its index and its parent's, the current
/// environment and all its environments.
pub struct FunctionScope {
    /// Whether the function is strict.
    pub strict: bool,
    /// The function's index.
    pub function_index: u32,
    /// The index of the enclosing function.
    pub parent_function_index: Option<u32>,
    /// The index of the current environment.
    pub environment_index: u32,
    /// The environments, in the order they were pushed.
    pub scopes: Vec<EnvironmentScope>,
}

/// A function's scopes as a mathematical value.
pub struct FunctionView {
    /// Whether the function is strict.
    pub strict: bool,
    /// The function's index.
    pub function_index: u32,
    /// The index of the enclosing function.
    pub parent_function_index: Option<u32>,
    /// The index of the current environment.
    pub environment_index: u32,
    /// The environments.
    pub scopes: Seq<EnvironmentView>,
}

impl View for FunctionScope {
    type V = FunctionView;

    open spec fn view(&self) -> FunctionView {
        FunctionView {
            strict: self.strict,
            function_index: self.function_index,
            parent_function_index: self.parent_function_index,
            environment_index: self.environment_index,
            scopes: Seq::new(self.scopes@.len(), |i: int| self.scopes@[i]@),
        }
    }
}

impl FunctionView {
    /// The current environment exists.
    pub open spec fn wf(self) -> bool {
        self.environment_index < self.scopes.len()
    }

    /// The current environment.
    pub open spec fn current(self) -> EnvironmentView {
        self.scopes[self.environment_index as int]
    }
}

/// An environment with no bindings.
pub open spec fn empty_environment(environment_index: u32, parent_environment_index: Option<u32>) -> EnvironmentView {
    EnvironmentView { environment_index, parent_environment_index, map: Map::empty() }
}

/// `push_scope` on a function: a new empty environment, whose index is the number of
/// environments cut to 32 bits and whose parent is the current one, becomes current.
pub open spec fn function_push_scope(f: FunctionView) -> FunctionView {
    let index = f.scopes.len() as u32;
    FunctionView {
        environment_index: index,
        scopes: f.scopes.push(empty_environment(index, Some(f.current().environment_index))),
        ..f
    }
}

/// `pop_scope` on a function: the function's own index is overwritten with the parent
/// environment's index (0 without one); the current environment stays current.
pub open spec fn function_pop_scope(f: FunctionView) -> FunctionView {
    FunctionView {
        function_index: match f.current().parent_environment_index { Some(p) => p, None => 0 },
        ..f
    }
}

/// `insert_sym` on a function: the symbol is bound in the current environment to the
/// number of bindings there before, cut to 32 bits.
pub open spec fn function_insert(f: FunctionView, sym: Sym) -> FunctionView {
    let env = f.current();
    FunctionView {
        scopes: f.scopes.update(f.environment_index as int, EnvironmentView { map: env.map.insert(sym, env.map.len() as u32), ..env }),
        ..f
    }
}

/// The index of `sym` in the first environment, from `from` on, that binds it.
pub open spec fn first_binding(scopes: Seq<EnvironmentView>, sym: Sym, from: int) -> Option<u32>
    decreases scopes.len() - from,
{
    if from >= scopes.len() || from < 0 {
        None
    } else if scopes[from].map.contains_key(sym) {
        Some(scopes[from].map[sym])
    } else {
        first_binding(scopes, sym, from + 1)
    }
}

/// A `u32` that a length is cut to is never more than the length.
proof fn lemma_cut_le(n: usize)
    ensures
        (n as u32) as int <= n as int,
{
    if n <= u32::MAX as usize {
        assert(n as u32 == n);
    } else {
        assert((n as u32) as int <= u32::MAX as int);
    }
}

impl FunctionScope {
    /// The scopes of the global function: index 0, no parent, one empty environment.
    pub fn global(strict: bool) -> (r: FunctionScope)
        ensures
            r@.wf(),
            r@ == (FunctionView {
                strict,
                function_index: 0,
                parent_function_index: None,
                environment_index: 0,
                scopes: seq![empty_environment(0, None)],
            }),
    {
        let mut scopes: Vec<EnvironmentScope> = Vec::new();
        scopes.push(EnvironmentScope::new(0, None));
        let r = FunctionScope { strict, function_index: 0, parent_function_index: None, environment_index: 0, scopes };
        assert(r@.scopes =~= seq![empty_environment(0, None)]);
        r
    }

    /// Pushes a new empty environment whose parent is the current one, and makes it
    /// current; gives its index.
    pub fn push_scope(&mut self) -> (r: u32)
        requires
            old(self)@.wf(),
        ensures
            final(self)@.wf(),
            r == old(self)@.scopes.len() as u32,
            final(self)@ == function_push_scope(old(self)@),
    {
        let n = self.scopes.len();
        let index: u32 = #[verifier::truncate] (n as u32);
        proof { lemma_cut_le(n); }
        let parent = self.scopes[self.environment_index as usize].environment_index;
        let ghost old_view = self@;
        self.scopes.push(EnvironmentScope::new(index, Some(parent)));
        self.environment_index = index;
        assert(self@.scopes =~= old_view.scopes.push(empty_environment(index, Some(parent))));
        index
    }

    /// Pops the current environment: the function's index is set to the parent
    /// environment's index (0 without one); the current environment is left as it is.
    pub fn pop_scope(&mut self)
        requires
            old(self)@.wf(),
        ensures
            final(self)@.wf(),
            final(self)@ == function_pop_scope(old(self)@),
    {
        let index = self.scopes[self.environment_index as usize].parent_environment_index;
        self.function_index = match index {
            Some(p) => p,
            None => 0,
        };
    }

    /// The index of `sym` in the first environment that binds it, in the order the
    /// environments were pushed.
    pub fn get_sym(&self, sym: Sym) -> (r: Option<u32>)
        ensures
            r == first_binding(self@.scopes, sym, 0),
    {
        let mut i: usize = self.scopes.len();
        let mut found: Option<u32> = None;
        while i > 0
            invariant
                i <= self.scopes@.len(),
                found == first_binding(self@.scopes, sym, i as int),
            decreases i,
        {
            i = i - 1;
            match self.scopes[i].get(sym) {
                Some(k) => {
                    found = Some(k);
                },
                None => {},
            }
        }
        found
    }

    /// Binds a symbol that the current environment does not bind yet.
    pub fn insert_sym(&mut self, sym: Sym) -> (r: u32)
        requires
            old(self)@.wf(),
            !old(self)@.current().map.contains_key(sym),
        ensures
            final(self)@.wf(),
            r == old(self)@.current().map.len() as u32,
            final(self)@ == function_insert(old(self)@, sym),
    {
        let k = self.environment_index as usize;
        let ghost old_view = self@;
        let mut env = self.scopes.remove(k);
        let r = env.insert_sym(sym);
        self.scopes.insert(k, env);
        assert(self@.scopes =~= function_insert(old_view, sym).scopes);
        r
    }
}

/// The analyser's state: the current function and the scopes of every function, in the
/// order they were pushed.
pub struct ScopeAnalyzer {
    /// The index of the current function.
    pub function_index: u32,
    /// The functions' scopes.
    pub functions: Vec<FunctionScope>,
}

/// The analyser's state as a mathematical value.
pub struct AnalyzerView {
    /// The index of the current function.
    pub function_index: u32,
    /// The functions' scopes.
    pub functions: Seq<FunctionView>,
}

impl View for ScopeAnalyzer {
    type V = AnalyzerView;

    open spec fn view(&self) -> AnalyzerView {
        AnalyzerView {
            function_index: self.function_index,
            functions: Seq::new(self.functions@.len(), |i: int| self.functions@[i]@),
        }
    }
}

impl AnalyzerView {
    /// The current function exists, and every function has a current environment.
    pub open spec fn wf(self) -> bool {
        &&& self.function_index < self.functions.len()
        &&& forall|i: int| 0 <= i < self.functions.len() ==> (#[trigger] self.functions[i]).wf()
    }

    /// The current function.
    pub open spec fn current(self) -> FunctionView {
        self.functions[self.function_index as int]
    }

    /// The state with the current function replaced.
    pub open spec fn with_current(self, f: FunctionView) -> AnalyzerView {
        AnalyzerView { functions: self.functions.update(self.function_index as int, f), ..self }
    }
}

/// `push_function`: a new function, whose index is the number of functions cut to 32
/// bits, with one empty environment, enclosed by the current function (the index that
/// function holds) and strict when that function is or `strict` is, becomes current.
pub open spec fn analyzer_push_function(a: AnalyzerView, strict: bool) -> AnalyzerView {
    let index = a.functions.len() as u32;
    AnalyzerView {
        function_index: index,
        functions: a.functions.push(FunctionView {
            strict: a.current().strict || strict,
            function_index: index,
            parent_function_index: Some(a.current().function_index),
            environment_index: 0,
            scopes: seq![empty_environment(0, None)],
        }),
    }
}

/// `pop_function`: the enclosing function of the current one (0 without one) becomes
/// current.
pub open spec fn analyzer_pop_function(a: AnalyzerView) -> AnalyzerView {
    AnalyzerView {
        function_index: match a.current().parent_function_index { Some(p) => p, None => 0 },
        ..a
    }
}

/// Looking `sym` up from the function `idx` outwards, through the enclosing functions,
/// within `fuel` functions: `Some(found)` when the lookup ends there, `None` when it would
/// go on longer or reach a function that does not exist.
pub open spec fn lookup(fs: Seq<FunctionView>, idx: Option<u32>, sym: Sym, fuel: nat) -> Option<Option<u32>>
    decreases fuel,
{
    match idx {
        None => Some(None),
        Some(i) => if fuel == 0 || i >= fs.len() {
            None
        } else {
            match first_binding(fs[i as int].scopes, sym, 0) {
                Some(k) => Some(Some(k)),
                None => lookup(fs, fs[i as int].parent_function_index, sym, (fuel - 1) as nat),
            }
        },
    }
}

/// The lookup from the current function ends: each step goes to an existing function and
/// the chain of enclosing functions ends within as many steps as there are functions.
pub open spec fn lookup_ends(a: AnalyzerView, sym: Sym) -> bool {
    lookup(a.functions, Some(a.function_index), sym, a.functions.len()) is Some
}

/// How an identifier reference is resolved: to the index of a binding, or dynamically.
#[derive(Debug, Clone, Copy, PartialEq, Eq, Structural)]
pub enum IdentifierScope {
    /// Looked up at run time.
    Dynamic,
    /// The binding with this index.
    Index(u32),
}

/// The binding of a declared variable, as the analyser reads it.
#[derive(Debug, Clone, Copy, PartialEq, Eq, Structural)]
pub enum BindingTarget {
    /// An identifier, with the scope it was given so far.
    Identifier { sym: Sym, scope: Option<IdentifierScope> },
    /// A destructuring pattern.
    Pattern,
}

/// What the analysis of a lexical declaration does with one of its variables.
#[derive(Debug, Clone, Copy, PartialEq, Eq, Structural)]
pub enum DeclareStep {
    /// The analysis stops: a pattern cannot be given an index.
    Break,
    /// The identifier is bound and gets this scope; the initialiser is visited next when
    /// `visit_init` is set.
    Bound { scope: IdentifierScope, visit_init: bool },
}

impl ScopeAnalyzer {
    /// A new analyser: the global function is the current one.
    pub fn new(strict: bool) -> (r: ScopeAnalyzer)
        ensures
            r@.wf(),
            r@.function_index == 0,
            r@.functions == seq![FunctionView {
                strict,
                function_index: 0,
                parent_function_index: None,
                environment_index: 0,
                scopes: seq![empty_environment(0, None)],
            }],
    {
        let mut functions: Vec<FunctionScope> = Vec::new();
        functions.push(FunctionScope::global(strict));
        let r = ScopeAnalyzer { function_index: 0, functions };
        assert(r@.functions =~= seq![FunctionView {
            strict,
            function_index: 0,
            parent_function_index: None,
            environment_index: 0,
            scopes: seq![empty_environment(0, None)],
        }]);
        r
    }

    /// Whether the state is well formed: the current function exists and every function
    /// has a current environment.
    pub fn is_wf(&self) -> (r: bool)
        ensures
            r == self@.wf(),
    {
        if self.function_index as usize >= self.functions.len() {
            return false;
        }
        let mut i: usize = 0;
        while i < self.functions.len()
            invariant
                i <= self.functions@.len(),
                forall|j: int| 0 <= j < i ==> (#[trigger] self@.functions[j]).wf(),
            decreases self.functions@.len() - i,
        {
            let f = &self.functions[i];
            if f.environment_index as usize >= f.scopes.len() {
                assert(!self@.functions[i as int].wf());
                return false;
            }
            i = i + 1;
        }
        true
    }

    /// Pushes the scopes of a new function and makes it current; gives its index.
    pub fn push_function(&mut self, strict: bool) -> (r: u32)
        requires
            old(self)@.wf(),
        ensures
            final(self)@.wf(),
            r == old(self)@.functions.len() as u32,
            final(self)@ == analyzer_push_function(old(self)@, strict),
    {
        let n = self.functions.len();
        let index: u32 = #[verifier::truncate] (n as u32);
        proof { lemma_cut_le(n); }
        let current = &self.functions[self.function_index as usize];
        let parent = current.function_index;
        let cur_strict = current.strict;
        let mut scopes: Vec<EnvironmentScope> = Vec::new();
        scopes.push(EnvironmentScope::new(0, None));
        let f = FunctionScope {
            function_index: index,
            parent_function_index: Some(parent),
            strict: cur_strict || strict,
            scopes,
            environment_index: 0,
        };
        assert(f@.scopes =~= seq![empty_environment(0, None)]);
        let ghost old_view = self@;
        self.functions.push(f);
        self.function_index = index;
        assert(self@.functions =~= analyzer_push_function(old_view, strict).functions);
        index
    }

    /// Pops the current function: its enclosing function (0 without one) becomes current.
    pub fn pop_function(&mut self)
        requires
            old(self)@.wf(),
        ensures
            final(self)@ == analyzer_pop_function(old(self)@),
    {
        let index = self.functions[self.function_index as usize].parent_function_index;
        self.function_index = match index {
            Some(p) => p,
            None => 0,
        };
        assert(self@.functions =~= old(self)@.functions);
    }

    /// Runs `push_scope` on the current function.
    pub fn push_scope(&mut self) -> (r: u32)
        requires
            old(self)@.wf(),
        ensures
            final(self)@.wf(),
            r == old(self)@.current().scopes.len() as u32,
            final(self)@ == old(self)@.with_current(function_push_scope(old(self)@.current())),
    {
        let k = self.function_index as usize;
        let ghost old_view = self@;
        let mut f = self.functions.remove(k);
        let r = f.push_scope();
        self.functions.insert(k, f);
        assert(self@.functions =~= old_view.functions.update(k as int, f@));
        r
    }

    /// Runs `pop_scope` on the current function.
    pub fn pop_scope(&mut self)
        requires
            old(self)@.wf(),
        ensures
            final(self)@.wf(),
            final(self)@ == old(self)@.with_current(function_pop_scope(old(self)@.current())),
    {
        let k = self.function_index as usize;
        let ghost old_view = self@;
        let mut f = self.functions.remove(k);
        f.pop_scope();
        self.functions.insert(k, f);
        assert(self@.functions =~= old_view.functions.update(k as int, f@));
    }

    /// Runs `insert_sym` on the current function: binds a symbol in its current
    /// environment, which must not bind it yet.
    pub fn insert_sym(&mut self, sym: Sym) -> (r: u32)
        requires
            old(self)@.wf(),
            !old(self)@.current().current().map.contains_key(sym),
        ensures
            final(self)@.wf(),
            r == old(self)@.current().current().map.len() as u32,
            final(self)@ == old(self)@.with_current(function_insert(old(self)@.current(), sym)),
    {
        let k = self.function_index as usize;
        let ghost old_view = self@;
        let mut f = self.functions.remove(k);
        let r = f.insert_sym(sym);
        self.functions.insert(k, f);
        assert(self@.functions =~= old_view.functions.update(k as int, f@));
        r
    }

    /// The lookup of `sym` from the current function outwards, within as many functions as
    /// there are: `Some(found)` when it ends, `None` when the chain of enclosing functions
    /// goes on longer or reaches a function that does not exist.
    pub fn lookup_bounded(&self, sym: Sym) -> (r: Option<Option<u32>>)
        ensures
            r == lookup(self@.functions, Some(self@.function_index), sym, self@.functions.len()),
    {
        let mut function_index: Option<u32> = Some(self.function_index);
        let mut fuel: usize = self.functions.len();
        while fuel > 0
            invariant
                fuel <= self@.functions.len(),
                lookup(self@.functions, function_index, sym, fuel as nat) == lookup(self@.functions, Some(self@.function_index), sym, self@.functions.len()),
            decreases fuel,
        {
            let index = match function_index {
                None => {
                    return Some(None);
                },
                Some(i) => i,
            };
            if index as usize >= self.functions.len() {
                return None;
            }
            let function = &self.functions[index as usize];
            match function.get_sym(sym) {
                Some(k) => {
                    return Some(Some(k));
                },
                None => {},
            }
            function_index = function.parent_function_index;
            fuel = fuel - 1;
        }
        match function_index {
            None => Some(None),
            Some(_) => None,
        }
    }

    /// The index of `sym` in the innermost function, from the current one outwards, that
    /// binds it in one of its environments.
    pub fn get_sym(&self, sym: Sym) -> (r: Option<u32>)
        requires
            lookup_ends(self@, sym),
        ensures
            Some(r) == lookup(self@.functions, Some(self@.function_index), sym, self@.functions.len()),
    {
        match self.lookup_bounded(sym) {
            Some(found) => found,
            None => None,
        }
    }

    /// Resolves an identifier reference: one already resolved keeps its scope; otherwise
    /// it is the index of the binding that the lookup finds, or dynamic.
    pub fn resolve_identifier(&self, existing: Option<IdentifierScope>, sym: Sym) -> (r: IdentifierScope)
        requires
            existing is None ==> lookup_ends(self@, sym),
        ensures
            match existing {
                Some(s) => r == s,
                None => match lookup(self@.functions, Some(self@.function_index), sym, self@.functions.len()) {
                    Some(Some(k)) => r == IdentifierScope::Index(k),
                    _ => r == IdentifierScope::Dynamic,
                },
            },
    {
        match existing {
            Some(s) => s,
            None => match self.get_sym(sym) {
                Some(k) => IdentifierScope::Index(k),
                None => IdentifierScope::Dynamic,
            },
        }
    }

    /// One variable of a `let` or `const` declaration: a pattern stops the analysis; an
    /// identifier, which must not have a scope yet, is bound in the current environment
    /// and gets the index of its binding, and its initialiser, which a `const` always has,
    /// is visited next.
    pub fn declare_variable(&mut self, binding: BindingTarget, constant: bool, has_init: bool) -> (r: DeclareStep)
        requires
            old(self)@.wf(),
            binding matches BindingTarget::Identifier { sym, scope } ==> scope is None
                && !old(self)@.current().current().map.contains_key(sym)
                && (constant ==> has_init),
        ensures
            final(self)@.wf(),
            match binding {
                BindingTarget::Pattern => r == DeclareStep::Break && final(self)@ == old(self)@,
                BindingTarget::Identifier { sym, .. } => r == (DeclareStep::Bound {
                    scope: IdentifierScope::Index(old(self)@.current().current().map.len() as u32),
                    visit_init: has_init,
                }) && final(self)@ == old(self)@.with_current(function_insert(old(self)@.current(), sym)),
            },
    {
        match binding {
            BindingTarget::Pattern => DeclareStep::Break,
            BindingTarget::Identifier { sym, scope: _ } => {
                let index = self.insert_sym(sym);
                DeclareStep::Bound { scope: IdentifierScope::Index(index), visit_init: has_init }
            },
        }
    }

    /// Entering a function: its scopes are pushed; a named function binds its name in its
    /// first environment and then pushes the environment of its body. Gives the function's
    /// index and, for a named function, the index of the name's binding and of the body's
    /// environment.
    pub fn enter_function(&mut self, strict: bool, name: Option<Sym>) -> (r: (u32, Option<(u32, u32)>))
        requires
            old(self)@.wf(),
            name matches Some(s) ==> !analyzer_push_function(old(self)@, strict).current().current().map.contains_key(s),
        ensures
            final(self)@.wf(),
            r.0 == old(self)@.functions.len() as u32,
            ({
                let a1 = analyzer_push_function(old(self)@, strict);
                match name {
                    None => final(self)@ == a1 && r.1 is None,
                    Some(s) => {
                        let a2 = a1.with_current(function_insert(a1.current(), s));
                        let a3 = a2.with_current(function_push_scope(a2.current()));
                        &&& final(self)@ == a3
                        &&& r.1 == Some((a1.current().current().map.len() as u32, a2.current().scopes.len() as u32))
                    },
                }
            }),
    {
        let index = self.push_function(strict);
        match name {
            None => (index, None),
            Some(s) => {
                let binding = self.insert_sym(s);
                let scope = self.push_scope();
                (index, Some((binding, scope)))
            },
        }
    }

    /// Leaving a function: a named function pops the environment of its body, then the
    /// enclosing function becomes current.
    pub fn exit_function(&mut self, named: bool)
        requires
            old(self)@.wf(),
        ensures
            named ==> final(self)@ == analyzer_pop_function(old(self)@.with_current(function_pop_scope(old(self)@.current()))),
            !named ==> final(self)@ == analyzer_pop_function(old(self)@),
    {
        if named {
            self.pop_scope();
        }
        self.pop_function();
    }
}

/// Entering a named function while fewer functions than `u32` counts exist: the function
/// gets the next index, binds its name at index 0 of its first environment, and its body's
/// environment, index 1, is current.
pub proof fn lemma_enter_named_function(a: AnalyzerView, strict: bool, s: Sym)
    requires
        a.wf(),
        a.functions.len() < u32::MAX,
    ensures
        ({
            let a1 = analyzer_push_function(a, strict);
            let a2 = a1.with_current(function_insert(a1.current(), s));
            let a3 = a2.with_current(function_push_scope(a2.current()));
            &&& !a1.current().current().map.contains_key(s)
            &&& a1.current().current().map.len() as u32 == 0
            &&& a2.current().scopes.len() as u32 == 1
            &&& a3.function_index == a.functions.len()
            &&& a3.functions.len() == a.functions.len() + 1
            &&& forall|i: int| 0 <= i < a.functions.len() ==> a3.functions[i] == a.functions[i]
            &&& a3.current().environment_index == 1
            &&& a3.current().scopes[0].map == Map::<Sym, u32>::empty().insert(s, 0)
            &&& a3.current().scopes[1] == empty_environment(1, Some(0))
            &&& a3.current().parent_function_index == Some(a.current().function_index)
        }),
{
    let n = a.functions.len();
    assert(n as u32 == n);
    let a1 = analyzer_push_function(a, strict);
    assert(a1.current().current().map == Map::<Sym, u32>::empty());
    assert(Map::<Sym, u32>::empty().len() == 0);
}

/// A lookup that finds a binding in the current function finds the first environment of
/// that function, in the order they were pushed, that binds the symbol.
pub proof fn lemma_lookup_prefers_current_function(a: AnalyzerView, sym: Sym)
    requires
        a.wf(),
        first_binding(a.current().scopes, sym, 0) is Some,
    ensures
        lookup(a.functions, Some(a.function_index), sym, a.functions.len()) == Some(first_binding(a.current().scopes, sym, 0)),
{
}

} // verus!
