use boa::scope::{
    BindingTarget, DeclareStep, EnvironmentScope, FunctionScope, IdentifierScope, ScopeAnalyzer,
};

#[test]
fn environment_bindings_are_numbered_in_order() {
    let mut env = EnvironmentScope::new(0, None);
    assert_eq!(env.insert_sym(7), 0);
    assert_eq!(env.insert_sym(3), 1);
    assert_eq!(env.get(7), Some(0));
    assert_eq!(env.get(3), Some(1));
    assert_eq!(env.get(4), None);
}

#[test]
fn function_scope_push_and_lookup() {
    let mut f = FunctionScope::global(false);
    assert_eq!(f.insert_sym(1), 0);
    assert_eq!(f.push_scope(), 1);
    assert_eq!(f.environment_index, 1);
    assert_eq!(f.scopes[1].parent_environment_index, Some(0));
    assert_eq!(f.insert_sym(2), 0);
    // a symbol bound in both environments is found in the first one pushed
    assert_eq!(f.insert_sym(1), 1);
    assert_eq!(f.get_sym(1), Some(0));
    assert_eq!(f.get_sym(2), Some(0));
    assert_eq!(f.get_sym(9), None);
}

#[test]
fn pop_scope_overwrites_function_index() {
    let mut f = FunctionScope::global(true);
    f.push_scope();
    f.push_scope();
    f.pop_scope();
    // the parent environment's index lands in the function's index, and the current
    // environment stays current
    assert_eq!(f.function_index, 1);
    assert_eq!(f.environment_index, 2);
}

#[test]
fn analyzer_resolves_through_enclosing_functions() {
    let mut a = ScopeAnalyzer::new(false);
    assert!(a.is_wf());
    a.insert_sym(10);
    let (index, binding) = a.enter_function(false, Some(20));
    assert_eq!(index, 1);
    assert_eq!(binding, Some((0, 1)));
    assert_eq!(a.function_index, 1);
    assert_eq!(a.functions[1].parent_function_index, Some(0));
    a.insert_sym(30);
    assert_eq!(a.resolve_identifier(None, 30), IdentifierScope::Index(0));
    assert_eq!(a.resolve_identifier(None, 20), IdentifierScope::Index(0));
    assert_eq!(a.resolve_identifier(None, 10), IdentifierScope::Index(0));
    assert_eq!(a.resolve_identifier(None, 99), IdentifierScope::Dynamic);
    // an identifier already resolved keeps its scope
    assert_eq!(
        a.resolve_identifier(Some(IdentifierScope::Index(5)), 30),
        IdentifierScope::Index(5)
    );
    a.exit_function(true);
    assert_eq!(a.function_index, 0);
    assert_eq!(a.resolve_identifier(None, 30), IdentifierScope::Dynamic);
    assert_eq!(a.lookup_bounded(10), Some(Some(0)));
}

#[test]
fn analyzer_strictness_is_inherited() {
    let mut a = ScopeAnalyzer::new(true);
    let (i, b) = a.enter_function(false, None);
    assert_eq!(i, 1);
    assert_eq!(b, None);
    assert!(a.functions[1].strict);
    assert_eq!(a.functions[1].scopes.len(), 1);
    a.exit_function(false);
    let mut a = ScopeAnalyzer::new(false);
    a.enter_function(false, None);
    assert!(!a.functions[1].strict);
    a.enter_function(true, None);
    assert!(a.functions[2].strict);
    assert_eq!(a.functions[2].parent_function_index, Some(1));
}

#[test]
fn analyzer_blocks_push_and_pop_environments() {
    let mut a = ScopeAnalyzer::new(false);
    assert_eq!(a.push_scope(), 1);
    assert_eq!(a.insert_sym(5), 0);
    a.pop_scope();
    assert_eq!(a.get_sym(5), Some(0));
    assert!(a.is_wf());
}

#[test]
fn lookup_bounded_reports_a_chain_that_does_not_end() {
    let mut a = ScopeAnalyzer::new(false);
    a.enter_function(false, None);
    // a chain of enclosing functions that leads back to itself
    a.functions[1].parent_function_index = Some(1);
    assert_eq!(a.lookup_bounded(3), None);
    // one that leads to a function that does not exist
    a.functions[1].parent_function_index = Some(7);
    assert_eq!(a.lookup_bounded(3), None);
    a.function_index = 9;
    assert!(!a.is_wf());
}

#[test]
fn lexical_declarations_bind_in_order() {
    let mut a = ScopeAnalyzer::new(false);
    let x = BindingTarget::Identifier { sym: 1, scope: None };
    let y = BindingTarget::Identifier { sym: 2, scope: None };
    assert_eq!(
        a.declare_variable(x, true, true),
        DeclareStep::Bound { scope: IdentifierScope::Index(0), visit_init: true }
    );
    assert_eq!(
        a.declare_variable(y, false, false),
        DeclareStep::Bound { scope: IdentifierScope::Index(1), visit_init: false }
    );
    assert_eq!(a.declare_variable(BindingTarget::Pattern, false, true), DeclareStep::Break);
    assert_eq!(a.get_sym(1), Some(0));
    assert_eq!(a.get_sym(2), Some(1));
    assert_eq!(a.functions[0].scopes[0].map.len(), 2);
}
