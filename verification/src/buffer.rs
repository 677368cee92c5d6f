//! The byte buffer bridge.
//!
//! An engine buffer is a block of engine-managed bytes whose size is fixed
//! when it is created. The boundary keeps that size next to the handle, so
//! every read and write can be checked against it before the engine is
//! touched: the engine binding's byte operations panic on an out-of-range
//! access, this library promises not to panic, and so such an access must
//! never be reachable from here.

use vstd::prelude::*;

verus! {

/// An engine buffer handle together with its size, which is fixed at
/// creation. The view of a `GoBuffer` is its size in bytes.
pub struct GoBuffer {
    handle: mlua::Buffer,
    len: usize,
}

impl View for GoBuffer {
    type V = nat;

    closed spec fn view(&self) -> nat {
        self.len as nat
    }
}

impl GoBuffer {
    /// The buffer's size in bytes.
    pub fn len(&self) -> (n: usize)
        ensures
            n == self@,
    {
        self.len
    }

    /// The engine handle, for operations that only identify the buffer.
    pub fn handle(&self) -> &mlua::Buffer {
        &self.handle
    }
}

/// Creates an engine buffer holding a copy of the given bytes; its size is
/// exactly the number of bytes given and never changes afterwards.
pub fn luago_create_buffer(lua: &mlua::Lua, data: &Vec<u8>) -> (r: Result<GoBuffer, String>)
    ensures
        r matches Ok(b) ==> b@ == data@.len(),
{
    let n = data.len();
    match create_buffer_raw(lua, data) {
        Ok(handle) => Ok(GoBuffer { handle, len: n }),
        Err(e) => Err(e),
    }
}

/// The buffer's size in bytes.
pub fn luago_buffer_len(b: &GoBuffer) -> (n: usize)
    ensures
        n == b@,
{
    b.len()
}

/// Copies the buffer's whole contents out; the copy has exactly the
/// buffer's size.
pub fn luago_buffer_to_bytes(b: &GoBuffer) -> (r: Vec<u8>)
    ensures
        r@.len() == b@,
{
    buffer_to_vec_raw(b)
}

/// Copies `len` bytes out of the buffer starting at `offset`: exactly the
/// selected window of one whole copy of the buffer. The range must lie
/// inside the buffer.
pub fn luago_buffer_read_bytes(b: &GoBuffer, offset: usize, len: usize) -> (r: Vec<u8>)
    requires
        offset + len <= b@,
    ensures
        r@.len() == len,
{
    let all = buffer_to_vec_raw(b);
    copy_window(&all, offset, len)
}

/// Copies the window of `len` bytes starting at `offset` out of the data,
/// exactly and in order.
fn copy_window(data: &Vec<u8>, offset: usize, len: usize) -> (r: Vec<u8>)
    requires
        offset + len <= data@.len(),
    ensures
        r@ == data@.subrange(offset as int, offset + len),
{
    let n: usize = data.len();
    let mut out: Vec<u8> = Vec::new();
    let mut i: usize = 0;
    while i < len
        invariant
            i <= len,
            offset + len <= data@.len(),
            data@.len() <= usize::MAX,
            out@ == data@.subrange(offset as int, offset + i),
        decreases len - i,
    {
        out.push(data[offset + i]);
        proof {
            assert(out@ =~= data@.subrange(offset as int, offset + i + 1));
        }
        i = i + 1;
    }
    out
}

/// Writes the given bytes into the buffer starting at `offset`. The range
/// must lie inside the buffer: the engine binding panics on an out-of-range
/// write, so the bound is a precondition, never retried against the engine.
pub fn luago_buffer_write_bytes(b: &GoBuffer, offset: usize, data: &Vec<u8>)
    requires
        offset + data@.len() <= b@,
{
    buffer_write_raw(b, offset, data)
}

/// Reports whether the two handles refer to the same engine buffer.
pub fn luago_buffer_equals(a: &GoBuffer, b: &GoBuffer) -> bool {
    buffer_eq_raw(a.handle(), b.handle())
}

/// A stable address identifying the engine buffer, for host-side caching;
/// carries no ownership.
pub fn luago_buffer_to_pointer(b: &GoBuffer) -> usize {
    buffer_to_pointer_raw(b.handle())
}

/// Releases the buffer handle.
pub fn luago_free_buffer(b: GoBuffer) {
    let _ = b;
}

/// Relies on `mlua::Lua::create_buffer`: allocates an engine buffer of
/// exactly `data.len()` bytes holding a copy of `data`; an engine buffer
/// never changes size after creation.
#[verifier::external_body]
fn create_buffer_raw(lua: &mlua::Lua, data: &Vec<u8>) -> Result<mlua::Buffer, String> {
    lua.create_buffer(data.as_slice()).map_err(|e| format!("{e}"))
}

/// Relies on `mlua::Buffer::to_vec`: copies out the whole buffer, whose size
/// is recorded in the wrapping `GoBuffer` when it is created.
#[verifier::external_body]
fn buffer_to_vec_raw(b: &GoBuffer) -> (r: Vec<u8>)
    ensures
        r@.len() == b@,
{
    b.handle().to_vec()
}

/// Relies on `mlua::Buffer::write_bytes`, which panics when the write runs
/// past the buffer's end; the precondition keeps the write inside the
/// buffer, whose size is recorded in the wrapping `GoBuffer`.
#[verifier::external_body]
fn buffer_write_raw(b: &GoBuffer, offset: usize, data: &Vec<u8>)
    requires
        offset + data@.len() <= b@,
{
    b.handle().write_bytes(offset, data.as_slice())
}

/// Relies on `mlua::Buffer: PartialEq`: two handles compare equal exactly
/// when they refer to the same engine buffer. Both handles
/// must belong to the same engine instance: handles are instance-scoped,
/// and the engine binding panics on a comparison across instances.
#[verifier::external_body]
fn buffer_eq_raw(a: &mlua::Buffer, b: &mlua::Buffer) -> bool {
    a == b
}

/// Relies on `mlua::Value::to_pointer` over a fresh reference to the
/// buffer: a stable address identifying the engine buffer.
#[verifier::external_body]
fn buffer_to_pointer_raw(b: &mlua::Buffer) -> usize {
    mlua::Value::Buffer(b.clone()).to_pointer() as usize
}

} // verus!
