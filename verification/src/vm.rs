//! The engine lifecycle manager.
//!
//! Creates and destroys engine instances, selects the standard-library
//! subset they load, and configures sandboxing, the memory ceiling, the
//! interrupt hook, registry values, and per-type metatables. The instance
//! wrapper keeps the host-visible configuration (the memory ceiling, the
//! sandbox switch) as plain state next to the engine handle, so queries
//! about it are answered from verified state.

use vstd::prelude::*;

use crate::engine::clone_lua;
use crate::engine::external_error;
use crate::value::GoLuaValue;
use vstd::string::StringSliceAdditionalSpecFns;
use vstd::utf8::valid_utf8;

verus! {

#[verifier::external_type_specification]
#[verifier::external_body]
pub struct ExUtf8Error(core::str::Utf8Error);

/// Relies on `core::str::from_utf8`: succeeds exactly on valid UTF-8 and
/// then views the bytes as the string's bytes.
pub assume_specification [ core::str::from_utf8 ](v: &[u8]) -> (r: Result<
    &str,
    core::str::Utf8Error,
>)
    ensures
        r matches Ok(s) ==> valid_utf8(v@) && s.spec_bytes() == v@,
        r is Err ==> !valid_utf8(v@),
;

/// Standard-library selection flag: the coroutine library.
pub const LIB_COROUTINE: u32 = 1u32;

/// Standard-library selection flag: the table library.
pub const LIB_TABLE: u32 = 1u32 << 1;

/// Standard-library selection flag: the os library.
pub const LIB_OS: u32 = 1u32 << 2;

/// Standard-library selection flag: the string library.
pub const LIB_STRING: u32 = 1u32 << 3;

/// Standard-library selection flag: the utf8 library.
pub const LIB_UTF8: u32 = 1u32 << 4;

/// Standard-library selection flag: the bit library.
pub const LIB_BIT: u32 = 1u32 << 5;

/// Standard-library selection flag: the math library.
pub const LIB_MATH: u32 = 1u32 << 6;

/// Standard-library selection flag: the buffer library.
pub const LIB_BUFFER: u32 = 1u32 << 7;

/// Standard-library selection flag: the vector library.
pub const LIB_VECTOR: u32 = 1u32 << 8;

/// Standard-library selection flag: the debug library.
pub const LIB_DEBUG: u32 = 1u32 << 9;

/// Standard-library selection flag: every safe library, overriding the
/// individual flags.
pub const LIB_ALL: u32 = 1u32 << 31;

/// Every defined standard-library selection flag.
pub const LIB_MASK: u32 = LIB_COROUTINE | LIB_TABLE | LIB_OS | LIB_STRING | LIB_UTF8 | LIB_BIT
    | LIB_MATH | LIB_BUFFER | LIB_VECTOR | LIB_DEBUG | LIB_ALL;

/// The set of standard libraries an engine instance loads, as bit flags.
pub struct GoStdLib {
    pub bits: u32,
}

/// Whether a flag set includes the given flag.
pub open spec fn spec_contains(bits: u32, flag: u32) -> bool {
    bits & flag != 0
}

/// The engine's numeric encoding of a library set: the bits behind the
/// engine binding's own flag type. The trusted flag constants and their
/// union are specified against this one observer, which pins what library
/// set a boundary selection maps to.
pub uninterp spec fn engine_libs_of(l: mlua::StdLib) -> u32;

/// The engine bits a boundary selection maps to, flag by flag, when the
/// all-safe override is not chosen.
pub open spec fn spec_engine_bits(bits: u32) -> u32 {
    let l0 = 0u32;
    let l1 = if spec_contains(bits, LIB_COROUTINE) {
        l0 | 1u32
    } else {
        l0
    };
    let l2 = if spec_contains(bits, LIB_TABLE) {
        l1 | 2u32
    } else {
        l1
    };
    let l3 = if spec_contains(bits, LIB_OS) {
        l2 | 8u32
    } else {
        l2
    };
    let l4 = if spec_contains(bits, LIB_STRING) {
        l3 | 16u32
    } else {
        l3
    };
    let l5 = if spec_contains(bits, LIB_UTF8) {
        l4 | 32u32
    } else {
        l4
    };
    let l6 = if spec_contains(bits, LIB_BIT) {
        l5 | 64u32
    } else {
        l5
    };
    let l7 = if spec_contains(bits, LIB_MATH) {
        l6 | 128u32
    } else {
        l6
    };
    let l8 = if spec_contains(bits, LIB_BUFFER) {
        l7 | 512u32
    } else {
        l7
    };
    let l9 = if spec_contains(bits, LIB_VECTOR) {
        l8 | 1024u32
    } else {
        l8
    };
    if spec_contains(bits, LIB_DEBUG) {
        l9 | 0x8000_0000u32
    } else {
        l9
    }
}

impl GoStdLib {
    /// Keeps the defined flags and drops unknown bits.
    pub fn from_bits_truncate(bits: u32) -> (r: GoStdLib)
        ensures
            r.bits == bits & LIB_MASK,
    {
        GoStdLib { bits: bits & LIB_MASK }
    }

    /// Whether this selection includes the given flag.
    pub fn contains(&self, flag: u32) -> (r: bool)
        ensures
            r == spec_contains(self.bits, flag),
    {
        self.bits & flag != 0
    }

    /// The engine's own representation of this selection: the all-safe
    /// superset when the all flag is set, otherwise exactly the union of the
    /// selected libraries' engine flags.
    pub fn to_mluau(&self) -> (r: mlua::StdLib)
        ensures
            spec_contains(self.bits, LIB_ALL) ==> engine_libs_of(r) == 0xffff_ffffu32,
            !spec_contains(self.bits, LIB_ALL) ==> engine_libs_of(r) == spec_engine_bits(
                self.bits,
            ),
    {
        if self.contains(LIB_ALL) {
            return engine_libs_all_safe();
        }
        let mut libs = engine_libs_none();
        if self.contains(LIB_COROUTINE) {
            libs = engine_libs_or(libs, engine_libs_coroutine());
        }
        if self.contains(LIB_TABLE) {
            libs = engine_libs_or(libs, engine_libs_table());
        }
        if self.contains(LIB_OS) {
            libs = engine_libs_or(libs, engine_libs_os());
        }
        if self.contains(LIB_STRING) {
            libs = engine_libs_or(libs, engine_libs_string());
        }
        if self.contains(LIB_UTF8) {
            libs = engine_libs_or(libs, engine_libs_utf8());
        }
        if self.contains(LIB_BIT) {
            libs = engine_libs_or(libs, engine_libs_bit());
        }
        if self.contains(LIB_MATH) {
            libs = engine_libs_or(libs, engine_libs_math());
        }
        if self.contains(LIB_BUFFER) {
            libs = engine_libs_or(libs, engine_libs_buffer());
        }
        if self.contains(LIB_VECTOR) {
            libs = engine_libs_or(libs, engine_libs_vector());
        }
        if self.contains(LIB_DEBUG) {
            libs = engine_libs_or(libs, engine_libs_debug());
        }
        libs
    }
}

/// One engine instance together with its host-visible configuration. The
/// engine owns every value created within it; destroying the instance
/// invalidates every handle obtained from it, so handles must not outlive
/// their instance.
pub struct GoVm {
    lua: mlua::Lua,
    memory_limit: usize,
    sandboxed: bool,
}

/// The failure of a registry access: either the boundary's own rejection of
/// a key that is not valid UTF-8 — the engine is then never touched — or
/// whatever the engine reported.
#[derive(Debug)]
pub enum GoRegistryError {
    /// The key is not valid UTF-8.
    InvalidKey,
    /// The engine failed the operation, with its message.
    Engine(String),
}

/// Whether a registry outcome is the boundary's own invalid-key rejection.
pub open spec fn is_invalid_key_error<T>(r: Result<T, GoRegistryError>) -> bool {
    match r {
        Err(GoRegistryError::InvalidKey) => true,
        _ => false,
    }
}

impl GoRegistryError {
    /// The boundary's error message for this failure.
    pub fn into_message(self) -> (r: String)
        ensures
            self is InvalidKey ==> r@ == "Invalid UTF-8 key"@,
            self matches GoRegistryError::Engine(m) ==> r == m,
    {
        match self {
            GoRegistryError::InvalidKey => {
                let e = "Invalid UTF-8 key".to_string();
                proof {
                    vstd::string::to_string_from_display_ensures_for_str("Invalid UTF-8 key", e);
                }
                e
            },
            GoRegistryError::Engine(m) => m,
        }
    }
}

/// The request record one interrupt invocation hands to the host: the
/// engine context the interrupt fired in.
pub struct InterruptData {
    pub lua: mlua::Lua,
}

/// The host's answer to an interrupt: a state selector and an optional
/// error. A set error wins and unwinds the running engine code.
pub struct InterruptResponse {
    pub vm_state: u8,
    pub error: Option<String>,
}

/// What the engine does after an interrupt: keep running or yield the
/// current thread cooperatively.
pub enum GoVmState {
    Continue,
    Yield,
}

/// The host side of the interrupt hook: invoked by the engine between
/// execution steps, synchronously, on the running thread.
pub trait InterruptHost {
    /// Handles one interrupt: consumes the request record and fills the
    /// answer.
    fn interrupt(&self, data: InterruptData) -> InterruptResponse;
}

/// Classifies an interrupt answer: a set error wins and is raised; selector
/// 0 continues, selector 1 yields, and any other selector is itself an
/// error.
pub fn interrupt_outcome(resp: InterruptResponse) -> (r: Result<GoVmState, String>)
    ensures
        resp.error matches Some(e) ==> (r matches Err(m) && m == e),
        resp.error is None && resp.vm_state == 0 ==> (r matches Ok(s) && s is Continue),
        resp.error is None && resp.vm_state == 1 ==> (r matches Ok(s) && s is Yield),
        resp.error is None && resp.vm_state > 1 ==> (r matches Err(m) && m@
            == "Invalid VM state"@),
{
    match resp.error {
        Some(e) => Err(e),
        None => {
            if resp.vm_state == 0 {
                Ok(GoVmState::Continue)
            } else if resp.vm_state == 1 {
                Ok(GoVmState::Yield)
            } else {
                let e = "Invalid VM state".to_string();
                proof {
                    vstd::string::to_string_from_display_ensures_for_str("Invalid VM state", e);
                }
                Err(e)
            }
        },
    }
}

/// Runs one interrupt invocation: hands the host the engine context,
/// classifies its answer, and gives the engine the selected next action or
/// an engine-level error.
pub fn run_interrupt<H: InterruptHost>(cb: &H, lua: &mlua::Lua) -> Result<
    mlua::VmState,
    mlua::Error,
> {
    let data = InterruptData { lua: clone_lua(lua) };
    let resp = cb.interrupt(data);
    match interrupt_outcome(resp) {
        Ok(GoVmState::Continue) => Ok(vmstate_continue()),
        Ok(GoVmState::Yield) => Ok(vmstate_yield()),
        Err(msg) => Err(external_error(msg)),
    }
}

impl GoVm {
    /// The memory ceiling last accepted by the engine; zero means no ceiling
    /// has been set.
    pub closed spec fn memory_limit_spec(&self) -> usize {
        self.memory_limit
    }

    /// Whether sandboxing was last switched on.
    pub closed spec fn sandboxed_spec(&self) -> bool {
        self.sandboxed
    }

    /// The engine handle, for operations on values of this instance.
    pub fn lua(&self) -> &mlua::Lua {
        &self.lua
    }

    /// Creates an engine instance loading the standard-library subset the
    /// flags select (unknown bits are ignored); no memory ceiling is set and
    /// sandboxing is off.
    pub fn newluavm(stdlib: u32) -> (r: Result<GoVm, String>)
        ensures
            r matches Ok(vm) ==> vm.memory_limit_spec() == 0 && !vm.sandboxed_spec(),
    {
        let flags = GoStdLib::from_bits_truncate(stdlib);
        match new_vm_raw(flags.to_mluau()) {
            Ok(lua) => Ok(GoVm { lua, memory_limit: 0, sandboxed: false }),
            Err(e) => Err(e),
        }
    }

    /// Sets the memory ceiling in bytes (zero removes it) and returns the
    /// previous ceiling. The recorded ceiling changes exactly when the
    /// engine accepts the new one.
    pub fn luavm_setmemorylimit(&mut self, limit: usize) -> (r: Result<usize, String>)
        ensures
            r is Ok ==> final(self).memory_limit_spec() == limit,
            r is Err ==> final(self).memory_limit_spec() == old(self).memory_limit_spec(),
            final(self).sandboxed_spec() == old(self).sandboxed_spec(),
    {
        match set_memory_limit_raw(&self.lua, limit) {
            Ok(previous) => {
                self.memory_limit = limit;
                Ok(previous)
            },
            Err(e) => Err(e),
        }
    }

    /// The memory ceiling last accepted by the engine.
    pub fn luago_memory_limit(&self) -> (r: usize)
        ensures
            r == self.memory_limit_spec(),
    {
        self.memory_limit
    }

    /// Switches sandboxing on or off. The recorded switch changes exactly
    /// when the engine accepts the change.
    pub fn luavm_sandbox(&mut self, enabled: bool) -> (r: Result<(), String>)
        ensures
            r is Ok ==> final(self).sandboxed_spec() == enabled,
            r is Err ==> final(self).sandboxed_spec() == old(self).sandboxed_spec(),
            final(self).memory_limit_spec() == old(self).memory_limit_spec(),
    {
        match sandbox_raw(&self.lua, enabled) {
            Ok(u) => {
                self.sandboxed = enabled;
                Ok(u)
            },
            Err(e) => Err(e),
        }
    }

    /// The bytes currently allocated inside the engine.
    pub fn luago_used_memory(&self) -> usize {
        used_memory_raw(&self.lua)
    }

    /// The instance's globals table.
    pub fn luago_globals(&self) -> mlua::Table {
        globals_raw(&self.lua)
    }

    /// Replaces the instance's globals table.
    pub fn luago_setglobals(&self, table: &mlua::Table) -> Result<(), String> {
        set_globals_raw(&self.lua, table)
    }

    /// The thread currently driving this instance.
    pub fn luago_current_thread(&self) -> mlua::Thread {
        current_thread_raw(&self.lua)
    }

    /// Installs the host interrupt hook; the engine invokes it between
    /// execution steps until it is removed.
    pub fn luago_set_interrupt<H: InterruptHost + 'static>(&self, cb: H) {
        set_interrupt_raw(&self.lua, cb)
    }

    /// Removes the interrupt hook.
    pub fn luago_remove_interrupt(&self) {
        remove_interrupt_raw(&self.lua)
    }

    /// Stores a boundary value under the given name in the engine's
    /// registry, taking ownership of it; empty handle slots are stored as
    /// nil. The invalid-key rejection comes exactly on keys that are not
    /// valid UTF-8, and on those the engine is never touched.
    pub fn luago_set_named_registry_value(&self, key: &Vec<u8>, value: GoLuaValue) -> (r:
        Result<(), GoRegistryError>)
        ensures
            is_invalid_key_error(r) <==> !valid_utf8(key@),
    {
        match core::str::from_utf8(key.as_slice()) {
            Ok(key) => {
                let engine_value = value.to_value_from_owned();
                match set_named_registry_raw(&self.lua, key, engine_value) {
                    Ok(u) => Ok(u),
                    Err(e) => Err(GoRegistryError::Engine(e)),
                }
            },
            Err(_) => Err(GoRegistryError::InvalidKey),
        }
    }

    /// Reads the boundary value stored under the given name in the engine's
    /// registry; an absent entry reads as nil. The invalid-key rejection
    /// comes exactly on keys that are not valid UTF-8, and on those the
    /// engine is never touched.
    pub fn luago_named_registry_value(&self, key: &Vec<u8>) -> (r: Result<
        GoLuaValue,
        GoRegistryError,
    >)
        ensures
            is_invalid_key_error(r) <==> !valid_utf8(key@),
    {
        match core::str::from_utf8(key.as_slice()) {
            Ok(key) => {
                match named_registry_raw(&self.lua, key) {
                    Ok(v) => Ok(GoLuaValue::from_owned(v)),
                    Err(e) => Err(GoRegistryError::Engine(e)),
                }
            },
            Err(_) => Err(GoRegistryError::InvalidKey),
        }
    }

    /// Sets (or, with no table, clears) the metatable the engine attaches to
    /// every value of the selected kind: 0 booleans, 1 light userdata, 2
    /// numbers, 4 strings, 5 functions, 6 threads. The vector and buffer
    /// selectors (3 and 7) do nothing: the engine binding offers type
    /// metatables only for the six kinds above. Unknown selectors also do
    /// nothing.
    pub fn luago_set_type_metatable(&self, typ: u8, table: Option<&mlua::Table>) {
        if typ == 0 {
            set_metatable_bool_raw(&self.lua, table)
        } else if typ == 1 {
            set_metatable_lightuserdata_raw(&self.lua, table)
        } else if typ == 2 {
            set_metatable_number_raw(&self.lua, table)
        } else if typ == 4 {
            set_metatable_string_raw(&self.lua, table)
        } else if typ == 5 {
            set_metatable_function_raw(&self.lua, table)
        } else if typ == 6 {
            set_metatable_thread_raw(&self.lua, table)
        }
    }

    /// Destroys the instance. Every handle previously obtained from it is
    /// invalid from here on.
    pub fn freeluavm(self) {
        let _ = self;
    }
}

/// Relies on `mlua::Lua::new_with`: creates an engine instance loading the
/// given libraries, with panic catching inside the engine switched off —
/// faults are contained at the boundary entry points instead.
#[verifier::external_body]
fn new_vm_raw(libs: mlua::StdLib) -> Result<mlua::Lua, String> {
    mlua::Lua::new_with(libs, mlua::LuaOptions::new().catch_rust_panics(false)).map_err(
        |e| format!("{e}"),
    )
}

/// Relies on `mlua::Lua::set_memory_limit`: installs the ceiling and returns
/// the previous one; fails when the engine build offers no memory control.
#[verifier::external_body]
fn set_memory_limit_raw(lua: &mlua::Lua, limit: usize) -> Result<usize, String> {
    lua.set_memory_limit(limit).map_err(|e| format!("{e}"))
}

/// Relies on `mlua::Lua::sandbox`: switches the engine's sandbox mode.
#[verifier::external_body]
fn sandbox_raw(lua: &mlua::Lua, enabled: bool) -> Result<(), String> {
    lua.sandbox(enabled).map_err(|e| format!("{e}"))
}

/// Relies on `mlua::Lua::used_memory`: the bytes currently allocated inside
/// the engine.
#[verifier::external_body]
fn used_memory_raw(lua: &mlua::Lua) -> usize {
    lua.used_memory()
}

/// Relies on `mlua::Lua::globals`: a fresh handle to the globals table.
#[verifier::external_body]
fn globals_raw(lua: &mlua::Lua) -> mlua::Table {
    lua.globals()
}

/// Relies on `mlua::Lua::set_globals`: replaces the globals table with a
/// fresh reference to the given one.
#[verifier::external_body]
fn set_globals_raw(lua: &mlua::Lua, table: &mlua::Table) -> Result<(), String> {
    lua.set_globals(table.clone()).map_err(|e| format!("{e}"))
}

/// Relies on `mlua::Lua::current_thread`: the thread currently driving this
/// instance.
#[verifier::external_body]
fn current_thread_raw(lua: &mlua::Lua) -> mlua::Thread {
    lua.current_thread()
}

/// Relies on `mlua::Lua::set_interrupt`: the engine invokes the closure
/// between execution steps; the closure only runs the verified interrupt
/// path.
#[verifier::external_body]
fn set_interrupt_raw<H: InterruptHost + 'static>(lua: &mlua::Lua, cb: H) {
    lua.set_interrupt(move |l| run_interrupt(&cb, l))
}

/// Relies on `mlua::Lua::remove_interrupt`: uninstalls the interrupt hook.
#[verifier::external_body]
fn remove_interrupt_raw(lua: &mlua::Lua) {
    lua.remove_interrupt()
}

/// Relies on `mlua::Lua::set_named_registry_value`: stores the value under
/// the name in the engine's registry.
#[verifier::external_body]
fn set_named_registry_raw(lua: &mlua::Lua, key: &str, value: mlua::Value) -> Result<(), String> {
    lua.set_named_registry_value(key, value).map_err(|e| format!("{e}"))
}

/// Relies on `mlua::Lua::named_registry_value`: reads the value stored under
/// the name in the engine's registry; an absent entry reads as nil.
#[verifier::external_body]
fn named_registry_raw(lua: &mlua::Lua, key: &str) -> Result<mlua::Value, String> {
    lua.named_registry_value::<mlua::Value>(key).map_err(|e| format!("{e}"))
}

/// Relies on `mlua::Lua::set_type_metatable` for booleans.
#[verifier::external_body]
fn set_metatable_bool_raw(lua: &mlua::Lua, table: Option<&mlua::Table>) {
    lua.set_type_metatable::<bool>(table.cloned())
}

/// Relies on `mlua::Lua::set_type_metatable` for light userdata.
#[verifier::external_body]
fn set_metatable_lightuserdata_raw(lua: &mlua::Lua, table: Option<&mlua::Table>) {
    lua.set_type_metatable::<mlua::LightUserData>(table.cloned())
}

/// Relies on `mlua::Lua::set_type_metatable` for numbers.
#[verifier::external_body]
fn set_metatable_number_raw(lua: &mlua::Lua, table: Option<&mlua::Table>) {
    lua.set_type_metatable::<mlua::Number>(table.cloned())
}

/// Relies on `mlua::Lua::set_type_metatable` for strings.
#[verifier::external_body]
fn set_metatable_string_raw(lua: &mlua::Lua, table: Option<&mlua::Table>) {
    lua.set_type_metatable::<mlua::LuaString>(table.cloned())
}

/// Relies on `mlua::Lua::set_type_metatable` for functions.
#[verifier::external_body]
fn set_metatable_function_raw(lua: &mlua::Lua, table: Option<&mlua::Table>) {
    lua.set_type_metatable::<mlua::Function>(table.cloned())
}

/// Relies on `mlua::Lua::set_type_metatable` for threads.
#[verifier::external_body]
fn set_metatable_thread_raw(lua: &mlua::Lua, table: Option<&mlua::Table>) {
    lua.set_type_metatable::<mlua::Thread>(table.cloned())
}

/// Relies on `mlua::VmState::Continue` selecting continued execution.
#[verifier::external_body]
fn vmstate_continue() -> mlua::VmState {
    mlua::VmState::Continue
}

/// Relies on `mlua::VmState::Yield` selecting a cooperative yield of the
/// current thread.
#[verifier::external_body]
fn vmstate_yield() -> mlua::VmState {
    mlua::VmState::Yield
}

/// Relies on `mlua::StdLib::NONE`: the empty library set.
#[verifier::external_body]
fn engine_libs_none() -> (r: mlua::StdLib)
    ensures
        engine_libs_of(r) == 0u32,
{
    mlua::StdLib::NONE
}

/// Relies on `mlua::StdLib::ALL_SAFE`: the safe superset of the libraries, every flag bit set.
#[verifier::external_body]
fn engine_libs_all_safe() -> (r: mlua::StdLib)
    ensures
        engine_libs_of(r) == 0xffff_ffffu32,
{
    mlua::StdLib::ALL_SAFE
}

/// Relies on `mlua::StdLib::COROUTINE`: flag bit 1.
#[verifier::external_body]
fn engine_libs_coroutine() -> (r: mlua::StdLib)
    ensures
        engine_libs_of(r) == 1u32,
{
    mlua::StdLib::COROUTINE
}

/// Relies on `mlua::StdLib::TABLE`: flag bit 2.
#[verifier::external_body]
fn engine_libs_table() -> (r: mlua::StdLib)
    ensures
        engine_libs_of(r) == 2u32,
{
    mlua::StdLib::TABLE
}

/// Relies on `mlua::StdLib::OS`: flag bit 8.
#[verifier::external_body]
fn engine_libs_os() -> (r: mlua::StdLib)
    ensures
        engine_libs_of(r) == 8u32,
{
    mlua::StdLib::OS
}

/// Relies on `mlua::StdLib::STRING`: flag bit 16.
#[verifier::external_body]
fn engine_libs_string() -> (r: mlua::StdLib)
    ensures
        engine_libs_of(r) == 16u32,
{
    mlua::StdLib::STRING
}

/// Relies on `mlua::StdLib::UTF8`: flag bit 32.
#[verifier::external_body]
fn engine_libs_utf8() -> (r: mlua::StdLib)
    ensures
        engine_libs_of(r) == 32u32,
{
    mlua::StdLib::UTF8
}

/// Relies on `mlua::StdLib::BIT`: flag bit 64.
#[verifier::external_body]
fn engine_libs_bit() -> (r: mlua::StdLib)
    ensures
        engine_libs_of(r) == 64u32,
{
    mlua::StdLib::BIT
}

/// Relies on `mlua::StdLib::MATH`: flag bit 128.
#[verifier::external_body]
fn engine_libs_math() -> (r: mlua::StdLib)
    ensures
        engine_libs_of(r) == 128u32,
{
    mlua::StdLib::MATH
}

/// Relies on `mlua::StdLib::BUFFER`: flag bit 512.
#[verifier::external_body]
fn engine_libs_buffer() -> (r: mlua::StdLib)
    ensures
        engine_libs_of(r) == 512u32,
{
    mlua::StdLib::BUFFER
}

/// Relies on `mlua::StdLib::VECTOR`: flag bit 1024.
#[verifier::external_body]
fn engine_libs_vector() -> (r: mlua::StdLib)
    ensures
        engine_libs_of(r) == 1024u32,
{
    mlua::StdLib::VECTOR
}

/// Relies on `mlua::StdLib::DEBUG`: the highest flag bit.
#[verifier::external_body]
fn engine_libs_debug() -> (r: mlua::StdLib)
    ensures
        engine_libs_of(r) == 0x8000_0000u32,
{
    mlua::StdLib::DEBUG
}

/// Relies on `mlua::StdLib: BitOr`: the union of the two library sets, the
/// bitwise or of their flag bits.
#[verifier::external_body]
fn engine_libs_or(a: mlua::StdLib, b: mlua::StdLib) -> (r: mlua::StdLib)
    ensures
        engine_libs_of(r) == engine_libs_of(a) | engine_libs_of(b),
{
    a | b
}

} // verus!
