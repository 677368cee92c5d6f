//! The dynamic userdata bridge.
//!
//! The host attaches an opaque integer handle, together with a one-shot
//! destructor, to an engine-managed object; the object participates in the
//! engine's garbage collection, and when the collector (or an explicit
//! release) reclaims it, final cleanup is delegated back to the host exactly
//! once. The one-shot discipline is carried by `DynamicData` itself: the
//! handle can be claimed for destruction at most once, and never when it is
//! the zero sentinel, which stands for "never assigned" or "already
//! consumed".

use vstd::prelude::*;

verus! {

/// A host-assigned handle riding on an engine-managed object, with a
/// claimed-for-destruction flag that makes the destructor one-shot.
pub struct DynamicData {
    handle: usize,
    claimed: bool,
}

impl DynamicData {
    /// The host handle stored in this record.
    pub closed spec fn handle_spec(&self) -> usize {
        self.handle
    }

    /// Whether the destructor has already been claimed.
    pub closed spec fn claimed_spec(&self) -> bool {
        self.claimed
    }

    /// Wraps a host handle; the destructor is not yet claimed.
    pub fn new(handle: usize) -> (r: DynamicData)
        ensures
            r.handle_spec() == handle,
            !r.claimed_spec(),
    {
        DynamicData { handle, claimed: false }
    }

    /// The host handle, read back without transferring ownership.
    pub fn handle(&self) -> (h: usize)
        ensures
            h == self.handle_spec(),
    {
        self.handle
    }

    /// Claims the handle for destruction. Yields the handle the first time,
    /// and only when the handle is not the zero sentinel; afterwards, and for
    /// the sentinel, it yields nothing. The claim is recorded, so the
    /// destructor backing this handle can never be invoked twice.
    pub fn take_for_drop(&mut self) -> (r: Option<usize>)
        ensures
            final(self).handle_spec() == old(self).handle_spec(),
            final(self).claimed_spec(),
            r == spec_take_result(*old(self)),
    {
        if self.claimed || self.handle == 0 {
            self.claimed = true;
            None
        } else {
            self.claimed = true;
            Some(self.handle)
        }
    }
}

/// What claiming the destructor yields in a given state: the handle exactly
/// when it was never claimed before and is not the zero sentinel.
pub open spec fn spec_take_result(d: DynamicData) -> Option<usize> {
    if d.claimed_spec() || d.handle_spec() == 0 {
        None
    } else {
        Some(d.handle_spec())
    }
}

/// The destructor fires at most once: a state that has been claimed yields
/// nothing, and every claim leaves the record claimed, so a second claim on
/// the same record never hands the handle out again.
pub proof fn lemma_destructor_fires_once(after: DynamicData)
    requires
        after.claimed_spec(),
    ensures
        spec_take_result(after) is None,
{
}

/// The zero sentinel never fires the destructor, claimed or not.
pub proof fn lemma_zero_sentinel_never_fires(d: DynamicData)
    requires
        d.handle_spec() == 0,
    ensures
        spec_take_result(d) is None,
{
}

/// Wraps a host handle and its one-shot destructor discipline as an
/// engine-managed object; the engine's collector reclaims the object at an
/// unspecified later time, which is when the host's destructor is delegated
/// back (by whoever holds the destruction side, outside this library). The
/// engine binding attaches its own metatable to such objects; a
/// caller-supplied metatable is not supported by it.
pub fn luago_create_userdata(lua: &mlua::Lua, data: DynamicData) -> Result<
    mlua::AnyUserData,
    String,
> {
    create_userdata_raw(lua, data)
}

/// The metatable the engine attached to this userdata, read back as an
/// opaque handle for host-side inspection; carries no ownership of the
/// object.
pub fn luago_userdata_metatable(ud: &mlua::AnyUserData) -> Result<
    mlua::userdata::UserDataMetatable,
    String,
> {
    userdata_metatable_raw(ud)
}

/// Reads the host handle back out of a dynamic userdata object, without
/// transferring ownership; fails when the object does not carry a
/// `DynamicData`.
pub fn luago_get_userdata_handle(ud: &mlua::AnyUserData) -> Result<usize, String> {
    userdata_handle_raw(ud)
}

/// Reports whether the two handles refer to the same engine userdata.
pub fn luago_userdata_equals(a: &mlua::AnyUserData, b: &mlua::AnyUserData) -> bool {
    userdata_eq_raw(a, b)
}

/// A stable address identifying the engine userdata, for host-side caching;
/// carries no ownership.
pub fn luago_userdata_to_pointer(ud: &mlua::AnyUserData) -> usize {
    userdata_to_pointer_raw(ud)
}

/// Releases the userdata handle; the object itself stays alive inside the
/// engine until its collector reclaims it.
pub fn luago_free_userdata(ud: mlua::AnyUserData) {
    let _ = ud;
}

/// Relies on `mlua::Lua::create_any_userdata`: moves the record into a fresh
/// engine-managed object, which the engine's collector will reclaim (and
/// thereby drop the record) exactly once.
#[verifier::external_body]
fn create_userdata_raw(lua: &mlua::Lua, data: DynamicData) -> Result<mlua::AnyUserData, String> {
    lua.create_any_userdata(data).map_err(|e| format!("{e}"))
}

/// Relies on `mlua::AnyUserData::borrow_scoped`: reads the wrapped record in
/// place; fails when the object holds no `DynamicData`.
#[verifier::external_body]
fn userdata_handle_raw(ud: &mlua::AnyUserData) -> Result<usize, String> {
    ud.borrow_scoped(|d: &DynamicData| d.handle()).map_err(|e| format!("{e}"))
}

/// Relies on `mlua::AnyUserData::metatable`: a handle to the object's
/// metatable; fails when the object's metatable is inaccessible.
#[verifier::external_body]
fn userdata_metatable_raw(ud: &mlua::AnyUserData) -> Result<
    mlua::userdata::UserDataMetatable,
    String,
> {
    ud.metatable().map_err(|e| format!("{e}"))
}

/// Relies on `mlua::AnyUserData: PartialEq`: two handles compare equal
/// exactly when they refer to the same engine userdata. Both handles
/// must belong to the same engine instance: handles are instance-scoped,
/// and the engine binding panics on a comparison across instances.
#[verifier::external_body]
fn userdata_eq_raw(a: &mlua::AnyUserData, b: &mlua::AnyUserData) -> bool {
    a == b
}

/// Relies on `mlua::AnyUserData::to_pointer`: a stable address identifying
/// the engine userdata.
#[verifier::external_body]
fn userdata_to_pointer_raw(ud: &mlua::AnyUserData) -> usize {
    ud.to_pointer() as usize
}

} // verus!
