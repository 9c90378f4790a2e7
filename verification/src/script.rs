//! Trusted boundary to the embedded scripting engine and the log channel.
//!
//! The engine, its compiled scripts, scopes and dynamic values are opaque
//! here: the library stores and threads them, and every call into the
//! scripting crate goes through one of the wrappers below.  Nothing else
//! in the library touches the engine.

use vstd::prelude::*;

verus! {

#[verifier::external_type_specification]
#[verifier::external_body]
pub struct ExEngine(rhai::Engine);

#[verifier::external_type_specification]
#[verifier::external_body]
pub struct ExAst(rhai::AST);

#[verifier::external_type_specification]
#[verifier::external_body]
pub struct ExDynamic(rhai::Dynamic);

#[verifier::external_type_specification]
#[verifier::external_body]
pub struct ExScope<'a>(rhai::Scope<'a>);

#[verifier::external_type_specification]
#[verifier::external_body]
#[verifier::reject_recursive_types(T)]
pub struct ExReceiver<T>(std::sync::mpsc::Receiver<T>);

/// A loaded script: its compiled form, its isolated variable scope, and
/// the opaque state value handed to its frame callback.
#[derive(Debug)]
pub struct Mod {
    pub(crate) ast: rhai::AST,
    pub(crate) scope: rhai::Scope<'static>,
    pub(crate) state: rhai::Dynamic,
}

/// Relies on rhai::Engine::compile: parses one script text into its
/// compiled form without evaluating anything — no scope is involved.  The
/// parse error, if any, is rendered to text.
#[verifier::external_body]
pub(crate) fn compile_script(engine: &rhai::Engine, text: &str) -> (r: Result<rhai::AST, String>) {
    engine.compile(text).map_err(|e| e.to_string())
}

/// Relies on rhai::Scope::new: creates an empty scope.
#[verifier::external_body]
pub(crate) fn new_scope() -> (r: rhai::Scope<'static>) {
    rhai::Scope::new()
}

/// Relies on rhai::Engine::run_ast_with_scope: evaluates a compiled
/// script against the scope, which it may read and write arbitrarily.
/// The evaluation error, if any, is rendered to text.
#[verifier::external_body]
pub(crate) fn run_ast(
    engine: &rhai::Engine,
    scope: &mut rhai::Scope<'static>,
    ast: &rhai::AST,
) -> (r: Result<(), String>) {
    engine.run_ast_with_scope(scope, ast).map_err(|e| e.to_string())
}

/// Relies on std::sync::mpsc::Receiver::try_recv: takes the next queued
/// message without blocking, or nothing when the queue is empty or the
/// sending side is gone.
#[verifier::external_body]
pub(crate) fn try_recv_log(rx: &std::sync::mpsc::Receiver<String>) -> (r: Option<String>) {
    rx.try_recv().ok()
}

/// Relies on rhai::Engine::call_fn: invokes the script's `initial_state`
/// function with no arguments and yields the value it returns.  The
/// error, if any, is rendered to text.
#[verifier::external_body]
pub(crate) fn call_initial_state(
    engine: &rhai::Engine,
    scope: &mut rhai::Scope<'static>,
    ast: &rhai::AST,
) -> (r: Result<rhai::Dynamic, String>) {
    engine.call_fn::<rhai::Dynamic>(scope, ast, "initial_state", ()).map_err(|e| e.to_string())
}

/// Relies on rhai::Dynamic::into_shared: moves the value behind a shared
/// reference-counted cell, so that a script callback receiving a clone of
/// it mutates the same underlying value.
#[verifier::external_body]
pub(crate) fn share_dynamic(d: rhai::Dynamic) -> (r: rhai::Dynamic) {
    d.into_shared()
}

/// Relies on rhai::Engine::call_fn: invokes the script's `on_frame`
/// function with the script's shared state value; reports whether the
/// call succeeded.
#[verifier::external_body]
pub(crate) fn call_on_frame(engine: &rhai::Engine, script: &mut Mod) -> (ok: bool) {
    engine.call_fn::<rhai::Dynamic>(
        &mut script.scope,
        &script.ast,
        "on_frame",
        (script.state.clone(),),
    ).is_ok()
}

} // verus!
