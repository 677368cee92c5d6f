//! The coroutine (engine thread) bridge.
//!
//! A thread is created from a function, resumed with a multi-value payload,
//! and reports a status code across the boundary: resumable, running,
//! finished, or failed. The status encoding is fixed and verified; the
//! engine-side operations stand behind trusted declarations.

use vstd::prelude::*;

use crate::multivalue::GoMultiValue;

verus! {

/// The lifecycle state of an engine thread, as seen across the boundary.
#[derive(Clone, Copy, PartialEq, Eq, Structural, Debug)]
pub enum GoThreadStatus {
    /// Just created or suspended: may be resumed.
    Resumable,
    /// Currently active, either running or having resumed another thread.
    Running,
    /// Finished executing.
    Finished,
    /// Raised an error during execution.
    Error,
}

/// The boundary's numeric encoding of a thread status.
pub open spec fn spec_status_code(s: GoThreadStatus) -> u8 {
    match s {
        GoThreadStatus::Resumable => 0u8,
        GoThreadStatus::Running => 1u8,
        GoThreadStatus::Finished => 2u8,
        GoThreadStatus::Error => 3u8,
    }
}

/// Encodes a thread status for transfer across the boundary.
pub fn status_code(s: GoThreadStatus) -> (code: u8)
    ensures
        code == spec_status_code(s),
{
    match s {
        GoThreadStatus::Resumable => 0,
        GoThreadStatus::Running => 1,
        GoThreadStatus::Finished => 2,
        GoThreadStatus::Error => 3,
    }
}

/// Creates a new engine thread (coroutine) that will execute the given
/// function.
pub fn luago_create_thread(lua: &mlua::Lua, func: &mlua::Function) -> Result<
    mlua::Thread,
    String,
> {
    create_thread_raw(lua, func)
}

/// Reports the thread's status as the boundary's numeric encoding: 0 when
/// resumable, 1 when running, 2 when finished, 3 when failed.
pub fn luago_thread_status(t: &mlua::Thread) -> (code: u8)
    ensures
        code <= 3,
{
    let s = engine_thread_status(t);
    status_code(s)
}

/// Resumes the thread with the given arguments, which are handed to the
/// engine in order; on success the values the thread returned or yielded
/// come back in order as a new container.
pub fn luago_thread_resume(t: &mlua::Thread, args: GoMultiValue) -> Result<
    GoMultiValue,
    String,
> {
    let engine_args = args.into_engine();
    match resume_raw(t, engine_args) {
        Ok(out) => Ok(GoMultiValue::from_engine(out)),
        Err(e) => Err(e),
    }
}

/// Reports whether the two handles refer to the same engine thread.
pub fn luago_thread_equals(a: &mlua::Thread, b: &mlua::Thread) -> bool {
    thread_eq_raw(a, b)
}

/// A stable address identifying the engine thread, for host-side caching;
/// carries no ownership.
pub fn luago_thread_to_pointer(t: &mlua::Thread) -> usize {
    thread_to_pointer_raw(t)
}

/// Releases the thread handle.
pub fn luago_free_thread(t: mlua::Thread) {
    let _ = t;
}

/// Relies on `mlua::Thread::status`: classifies the thread as resumable
/// (new or suspended), running (running, or active having resumed another
/// thread), finished, or failed.
#[verifier::external_body]
fn engine_thread_status(t: &mlua::Thread) -> GoThreadStatus {
    match t.status() {
        mlua::thread::ThreadStatus::Resumable => GoThreadStatus::Resumable,
        mlua::thread::ThreadStatus::Running => GoThreadStatus::Running,
        mlua::thread::ThreadStatus::Normal => GoThreadStatus::Running,
        mlua::thread::ThreadStatus::Finished => GoThreadStatus::Finished,
        mlua::thread::ThreadStatus::Error => GoThreadStatus::Error,
    }
}

/// Relies on `mlua::Lua::create_thread`: spawns a coroutine executing a
/// fresh reference to the given function.
#[verifier::external_body]
fn create_thread_raw(lua: &mlua::Lua, func: &mlua::Function) -> Result<mlua::Thread, String> {
    lua.create_thread(func.clone()).map_err(|e| format!("{e}"))
}

/// Relies on `mlua::Thread::resume`: hands the arguments to the suspended
/// thread and returns what it yields or returns; an engine error (including
/// resuming a non-resumable thread) comes back as its message.
#[verifier::external_body]
fn resume_raw(t: &mlua::Thread, args: mlua::MultiValue) -> Result<mlua::MultiValue, String> {
    t.resume::<mlua::MultiValue>(args).map_err(|e| format!("{e}"))
}

/// Relies on `mlua::Thread: PartialEq`: two handles compare equal exactly
/// when they refer to the same engine thread. Both handles
/// must belong to the same engine instance: handles are instance-scoped,
/// and the engine binding panics on a comparison across instances.
#[verifier::external_body]
fn thread_eq_raw(a: &mlua::Thread, b: &mlua::Thread) -> bool {
    a == b
}

/// Relies on `mlua::Thread::to_pointer`: a stable address identifying the
/// engine thread.
#[verifier::external_body]
fn thread_to_pointer_raw(t: &mlua::Thread) -> usize {
    t.to_pointer() as usize
}

} // verus!
