//! Boundary layer for embedding the Luau scripting engine in a host process.
//!
//! The host drives the engine through plain records: tagged dynamic values,
//! ordered multi-value argument lists, result envelopes that carry either a
//! payload or an error message, and callback capabilities that the engine
//! invokes synchronously. Every decision this layer makes (value tagging,
//! null-handle collapse, callback outcome classification, module-navigation
//! classification, standard-library selection) is verified; the engine itself
//! is reached only through trusted declarations.
//!
//! Handles are instance-scoped: a handle obtained from one engine instance
//! must never be mixed with another instance or used after its instance is
//! destroyed. That validity is a documented precondition of the boundary,
//! not a checked one.
//!
//! Three capabilities are absent because the engine binding does not offer
//! them: a synchronous coroutine yield initiated from host code (the
//! binding's yield is tied to its asynchronous interface), a caller-supplied
//! metatable on dynamic userdata (the binding attaches its own), and type
//! metatables for vectors and buffers (the binding supports them only for
//! booleans, light userdata, numbers, strings, functions and threads).

use vstd::prelude::*;

pub mod buffer;
pub mod engine;
pub mod function;
pub mod multivalue;
pub mod require;
pub mod result;
pub mod thread;
pub mod userdata;
pub mod vm;
pub mod value;

verus! {

/// A discriminant-only classification of a dynamic engine value.
#[derive(Clone, Copy, PartialEq, Eq, Structural, Debug)]
pub enum LuaValueType {
    Nil,
    Boolean,
    LightUserData,
    Integer,
    Number,
    Vector,
    Str,
    Table,
    Function,
    Thread,
    UserData,
    Buffer,
    Other,
}

} // verus!
