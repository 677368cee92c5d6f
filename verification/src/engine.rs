//! Declarations of the engine's opaque types.
//!
//! Every handle the engine hands out (strings, tables, functions, threads,
//! userdata, byte buffers, whole interpreter instances) is opaque to this
//! library: it is carried through, cloned, or released, never inspected.
//! These declarations let such values stand in signatures and fields.

use vstd::prelude::*;

verus! {

#[verifier::external_type_specification]
#[verifier::external_body]
pub struct ExLua(mlua::Lua);

#[verifier::external_type_specification]
#[verifier::external_body]
pub struct ExValue(mlua::Value);

#[verifier::external_type_specification]
#[verifier::external_body]
pub struct ExLuaString(mlua::LuaString);

#[verifier::external_type_specification]
#[verifier::external_body]
pub struct ExTable(mlua::Table);

#[verifier::external_type_specification]
#[verifier::external_body]
pub struct ExFunction(mlua::Function);

#[verifier::external_type_specification]
#[verifier::external_body]
pub struct ExThread(mlua::Thread);

#[verifier::external_type_specification]
#[verifier::external_body]
pub struct ExAnyUserData(mlua::AnyUserData);

#[verifier::external_type_specification]
#[verifier::external_body]
pub struct ExBuffer(mlua::Buffer);

#[verifier::external_type_specification]
#[verifier::external_body]
pub struct ExVector(mlua::Vector);

#[verifier::external_type_specification]
#[verifier::external_body]
pub struct ExLightUserData(mlua::LightUserData);

#[verifier::external_type_specification]
#[verifier::external_body]
pub struct ExMultiValue(mlua::MultiValue);

#[verifier::external_type_specification]
#[verifier::external_body]
pub struct ExError(mlua::Error);

#[verifier::external_type_specification]
#[verifier::external_body]
pub struct ExStdLib(mlua::StdLib);

#[verifier::external_type_specification]
#[verifier::external_body]
pub struct ExVmState(mlua::VmState);

#[verifier::external_type_specification]
#[verifier::external_body]
pub struct ExUserDataMetatable(mlua::userdata::UserDataMetatable);

/// Relies on `mlua::Lua: Clone`: a fresh handle to the same engine instance.
#[verifier::external_body]
pub(crate) fn clone_lua(lua: &mlua::Lua) -> mlua::Lua {
    lua.clone()
}

/// Relies on `mlua::Error::external`: wraps the message as an engine-level
/// error, which engine code observes as a normal catchable error.
#[verifier::external_body]
pub(crate) fn external_error(msg: String) -> mlua::Error {
    mlua::Error::external(msg)
}

} // verus!
