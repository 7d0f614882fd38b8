use vstd::prelude::*;

use crate::contexts::{contexts_view, Contexts};

verus! {

/// The value that rhai gives a guard expression, evaluated as a lone expression
/// against a scope that holds one constant map of strings per context namespace,
/// within a budget of operations; `None` where evaluation fails, runs over the
/// budget or does not yield a boolean.
pub uninterp spec fn rhai_guard_value(
    expr: Seq<char>,
    scope: Seq<(Seq<char>, Seq<(Seq<char>, Seq<char>)>)>,
    max_operations: u64,
) -> Option<bool>;

/// How many operations a guard may take before its evaluation fails.
pub const GUARD_MAX_OPERATIONS: u64 = 100000;

/// The value of a guard expression in the given scope; `None` where it fails.
pub open spec fn guard_value(expr: Seq<char>, scope: Seq<(Seq<char>, Seq<(Seq<char>, Seq<char>)>)>) -> Option<bool> {
    rhai_guard_value(expr, scope, GUARD_MAX_OPERATIONS)
}

/// Relies on rhai's `Engine::eval_expression_with_scope::<bool>`: the boolean
/// value of one expression (no statements) over the given scope, or an error.
/// The engine can reach no file (`DummyModuleResolver`) and has `eval` disabled
/// (`disable_symbol`), so the value depends on the expression, the scope and the
/// budget alone; a budget above zero (`set_max_operations`) bounds the work, so
/// the call returns.
#[verifier::external_body]
fn rhai_eval_bool(expr: &str, contexts: &Contexts, max_operations: u64) -> (r: Option<bool>)
    requires
        max_operations > 0,
    ensures
        r == rhai_guard_value(expr@, contexts_view(*contexts), max_operations),
{
    let mut scope = rhai::Scope::new();
    for space in contexts.namespaces.iter() {
        let mut map = rhai::Map::new();
        for (key, value) in space.values.iter() {
            map.insert(key.as_str().into(), value.clone().into());
        }
        scope.push_constant(space.name.clone(), map);
    }
    let mut engine = rhai::Engine::new();
    engine.set_module_resolver(rhai::module_resolvers::DummyModuleResolver::new());
    engine.disable_symbol("eval");
    engine.set_max_operations(max_operations);
    engine.eval_expression_with_scope::<bool>(&mut scope, expr).ok()
}

/// A guard expression that could not be evaluated to a boolean.
pub struct GuardError {
    pub expression: String,
}

/// Evaluates a guard expression against the contexts.
pub fn evaluate_guard(expr: &str, contexts: &Contexts) -> (r: Result<bool, GuardError>)
    ensures
        r matches Ok(b) ==> guard_value(expr@, contexts_view(*contexts)) == Some(b),
        r matches Err(e) ==> guard_value(expr@, contexts_view(*contexts)) is None
            && e.expression@ == expr@,
{
    match rhai_eval_bool(expr, contexts, GUARD_MAX_OPERATIONS) {
        Some(b) => Ok(b),
        None => Err(GuardError { expression: expr.to_string() }),
    }
}

/// A guard holds when it evaluates to true; a failed evaluation counts as false.
pub open spec fn guard_holds(expr: Seq<char>, scope: Seq<(Seq<char>, Seq<(Seq<char>, Seq<char>)>)>) -> bool {
    guard_value(expr, scope) == Some(true)
}

/// Whether a guard holds, treating an evaluation failure as false.
pub fn guard_allows(expr: &str, contexts: &Contexts) -> (r: bool)
    ensures
        r == guard_holds(expr@, contexts_view(*contexts)),
{
    match rhai_eval_bool(expr, contexts, GUARD_MAX_OPERATIONS) {
        Some(b) => b,
        None => false,
    }
}

} // verus!
