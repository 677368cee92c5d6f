//! The callback trampoline and the function bridge.
//!
//! A host-supplied callback is wrapped as an engine-native function. Every
//! engine-side invocation builds a request record — a handle to the calling
//! engine context, so re-entrant calls see the correct dynamic state, plus
//! the drained arguments — invokes the host synchronously, and classifies
//! the two output slots it filled: a set error wins (any values set
//! alongside it are released) and raises an engine-level error; set values
//! become the call's results; neither set means an empty result list.

use vstd::prelude::*;

use crate::engine::clone_lua;
use crate::engine::external_error;
use crate::multivalue::GoMultiValue;

verus! {

/// The request record one engine-side invocation hands to the host: the
/// calling engine context and the drained arguments, in order.
pub struct FunctionCallbackData {
    pub lua: mlua::Lua,
    pub args: GoMultiValue,
}

/// The host's answer: the two output slots of the request record.
pub struct CallbackResponse {
    pub values: Option<GoMultiValue>,
    pub error: Option<String>,
}

/// The host side of a trampolined function: invoked synchronously, on the
/// calling thread, zero or more times while the engine-native function is
/// reachable.
pub trait HostFunction {
    /// Handles one invocation: consumes the request record and fills the
    /// answer's output slots.
    fn invoke(&self, data: FunctionCallbackData) -> CallbackResponse;
}

/// Classifies a host answer. A set error slot wins: values set alongside it
/// are released and the error message is raised; otherwise set values are
/// the call's results in order, and no values mean an empty result list.
pub fn trampoline_outcome(resp: CallbackResponse) -> (r: Result<GoMultiValue, String>)
    ensures
        resp.error matches Some(e) ==> (r matches Err(m) && m == e),
        resp.error is None ==> (resp.values matches Some(v) ==> (r matches Ok(out) && out
            == v)),
        resp.error is None && resp.values is None ==> (r matches Ok(out) && out@
            == Seq::<crate::value::GoLuaValue>::empty()),
{
    match resp.error {
        Some(e) => {
            // releasing any values set alongside the error happens by
            // dropping them with the rest of the answer
            Err(e)
        },
        None => {
            match resp.values {
                Some(v) => Ok(v),
                None => Ok(GoMultiValue::empty()),
            }
        },
    }
}

/// Runs one engine-side invocation of a host callback: marshals the calling
/// context and the arguments into the request record, invokes the host
/// synchronously, classifies its answer, and hands the engine either the
/// result values in order or an engine-level error. The request record and
/// the argument values are released on every path.
pub fn run_host_callback<H: HostFunction>(
    cb: &H,
    lua: &mlua::Lua,
    args: mlua::MultiValue,
) -> Result<mlua::MultiValue, mlua::Error> {
    let data = FunctionCallbackData {
        lua: clone_lua(lua),
        args: GoMultiValue::from_engine(args),
    };
    let resp = cb.invoke(data);
    match trampoline_outcome(resp) {
        Ok(values) => Ok(values.into_engine()),
        Err(msg) => Err(external_error(msg)),
    }
}

/// Wraps the host callback as an engine-native function.
///
/// Relies on `mlua::Lua::create_function`: the engine invokes the wrapped
/// closure synchronously on each call of the function, handing it the
/// calling context and the arguments; the closure only runs the verified
/// invocation path.
#[verifier::external_body]
pub fn luago_create_function<H: HostFunction + 'static>(lua: &mlua::Lua, cb: H) -> Result<
    mlua::Function,
    String,
> {
    lua.create_function(move |lua, args: mlua::MultiValue| run_host_callback(&cb, lua, args))
        .map_err(|e| format!("{e}"))
}

/// Calls the engine function with the given arguments, handed over in order;
/// on success the returned values come back in order as a new container.
pub fn luago_function_call(f: &mlua::Function, args: GoMultiValue) -> Result<
    GoMultiValue,
    String,
> {
    let engine_args = args.into_engine();
    match call_raw(f, engine_args) {
        Ok(out) => Ok(GoMultiValue::from_engine(out)),
        Err(e) => Err(e),
    }
}

/// Deep-clones the engine function.
pub fn luago_function_deepclone(f: &mlua::Function) -> Result<mlua::Function, String> {
    deep_clone_raw(f)
}

/// The function's environment table, when it has one.
pub fn luago_function_environment(f: &mlua::Function) -> Option<mlua::Table> {
    environment_raw(f)
}

/// Replaces the function's environment table; reports whether the engine
/// accepted the change.
pub fn luago_function_set_environment(f: &mlua::Function, table: &mlua::Table) -> Result<
    bool,
    String,
> {
    set_environment_raw(f, table)
}

/// Reports whether the two handles refer to the same engine function.
pub fn luago_function_equals(a: &mlua::Function, b: &mlua::Function) -> bool {
    function_eq_raw(a, b)
}

/// A stable address identifying the engine function, for host-side caching;
/// carries no ownership.
pub fn luago_function_to_pointer(f: &mlua::Function) -> usize {
    function_to_pointer_raw(f)
}

/// Releases the function handle.
pub fn luago_free_function(f: mlua::Function) {
    let _ = f;
}

/// Relies on `mlua::Function::call`: applies the function to the arguments
/// in order; an engine error comes back as its message.
#[verifier::external_body]
fn call_raw(f: &mlua::Function, args: mlua::MultiValue) -> Result<mlua::MultiValue, String> {
    f.call::<mlua::MultiValue>(args).map_err(|e| format!("{e}"))
}

/// Relies on `mlua::Function::deep_clone`: copies the function together with
/// its upvalues.
#[verifier::external_body]
fn deep_clone_raw(f: &mlua::Function) -> Result<mlua::Function, String> {
    f.deep_clone().map_err(|e| format!("{e}"))
}

/// Relies on `mlua::Function::environment`: the function's environment
/// table, absent for engine-native functions without one.
#[verifier::external_body]
fn environment_raw(f: &mlua::Function) -> Option<mlua::Table> {
    f.environment()
}

/// Relies on `mlua::Function::set_environment`: replaces the environment
/// with a fresh reference to the given table; reports whether the engine
/// accepted the change.
#[verifier::external_body]
fn set_environment_raw(f: &mlua::Function, table: &mlua::Table) -> Result<bool, String> {
    f.set_environment(table.clone()).map_err(|e| format!("{e}"))
}

/// Relies on `mlua::Function: PartialEq`: two handles compare equal exactly
/// when they refer to the same engine function. Both handles
/// must belong to the same engine instance: handles are instance-scoped,
/// and the engine binding panics on a comparison across instances.
#[verifier::external_body]
fn function_eq_raw(a: &mlua::Function, b: &mlua::Function) -> bool {
    a == b
}

/// Relies on `mlua::Function::to_pointer`: a stable address identifying the
/// engine function.
#[verifier::external_body]
fn function_to_pointer_raw(f: &mlua::Function) -> usize {
    f.to_pointer() as usize
}

} // verus!
