//! The tagged value bridge.
//!
//! A `GoLuaValue` is the boundary representation of one dynamic engine value:
//! a discriminant plus a payload. Primitive payloads (nil, booleans, integers,
//! float bits, light userdata, vectors) are carried by value; complex payloads
//! (strings, tables, functions, threads, userdata, buffers) are independently
//! owned engine handles, and a handle slot may be empty — the host side may
//! legitimately hand back a value whose handle was never filled in. An empty
//! handle collapses to `Nil` when the value is turned back into an engine
//! value, and so does the catch-all `Other` variant.

use vstd::prelude::*;

use crate::LuaValueType;
use mlua::Value;

verus! {

/// The boundary model of an engine value: the tagged value that capturing
/// the engine value yields. The trusted conversions are specified against
/// this one observer, which makes the round trip between the two sides a
/// theorem: capturing preserves the model exactly, and handing a value back
/// produces an engine value whose model is the transfer normalization of
/// what was handed in.
pub uninterp spec fn engine_value_of(v: mlua::Value) -> GoLuaValue;

/// The boundary representation of one dynamic engine value.
///
/// The `Number` payload is the IEEE-754 bit pattern of the engine's float;
/// the bits are carried unchanged, so no rounding or comparison on floats
/// ever happens on this side of the boundary.
pub enum GoLuaValue {
    Nil,
    Boolean(bool),
    LightUserData(mlua::LightUserData),
    Integer(i64),
    Number(u64),
    Vector(mlua::Vector),
    Str(Option<mlua::LuaString>),
    Table(Option<mlua::Table>),
    Function(Option<mlua::Function>),
    Thread(Option<mlua::Thread>),
    UserData(Option<mlua::AnyUserData>),
    Buffer(Option<mlua::Buffer>),
    Other,
}

impl GoLuaValue {
    /// The discriminant of this value.
    pub open spec fn tag_spec(self) -> LuaValueType {
        match self {
            GoLuaValue::Nil => LuaValueType::Nil,
            GoLuaValue::Boolean(_) => LuaValueType::Boolean,
            GoLuaValue::LightUserData(_) => LuaValueType::LightUserData,
            GoLuaValue::Integer(_) => LuaValueType::Integer,
            GoLuaValue::Number(_) => LuaValueType::Number,
            GoLuaValue::Vector(_) => LuaValueType::Vector,
            GoLuaValue::Str(_) => LuaValueType::Str,
            GoLuaValue::Table(_) => LuaValueType::Table,
            GoLuaValue::Function(_) => LuaValueType::Function,
            GoLuaValue::Thread(_) => LuaValueType::Thread,
            GoLuaValue::UserData(_) => LuaValueType::UserData,
            GoLuaValue::Buffer(_) => LuaValueType::Buffer,
            GoLuaValue::Other => LuaValueType::Other,
        }
    }

    /// A payload carried by value, with no engine handle behind it.
    pub open spec fn is_primitive(self) -> bool {
        match self {
            GoLuaValue::Nil
            | GoLuaValue::Boolean(_)
            | GoLuaValue::LightUserData(_)
            | GoLuaValue::Integer(_)
            | GoLuaValue::Number(_)
            | GoLuaValue::Vector(_) => true,
            _ => false,
        }
    }

    /// A handle-shaped payload whose handle slot is filled.
    pub open spec fn is_full_handle(self) -> bool {
        match self {
            GoLuaValue::Str(h) => h is Some,
            GoLuaValue::Table(h) => h is Some,
            GoLuaValue::Function(h) => h is Some,
            GoLuaValue::Thread(h) => h is Some,
            GoLuaValue::UserData(h) => h is Some,
            GoLuaValue::Buffer(h) => h is Some,
            _ => false,
        }
    }

    /// A handle-shaped payload whose handle slot is empty.
    pub open spec fn is_null_handle(self) -> bool {
        match self {
            GoLuaValue::Str(h) => h is None,
            GoLuaValue::Table(h) => h is None,
            GoLuaValue::Function(h) => h is None,
            GoLuaValue::Thread(h) => h is None,
            GoLuaValue::UserData(h) => h is None,
            GoLuaValue::Buffer(h) => h is None,
            _ => false,
        }
    }

    /// What this value becomes when handed to the engine: empty handle slots
    /// and the catch-all variant collapse to `Nil`, everything else is kept.
    pub open spec fn spec_collapse(self) -> GoLuaValue {
        if self.is_null_handle() || self is Other {
            GoLuaValue::Nil
        } else {
            self
        }
    }

    /// Relates a value to an acceptable result of cloning it: primitives are
    /// copied exactly, an empty handle slot collapses to `Nil`, and a filled
    /// handle slot yields a filled slot of the same kind (a fresh handle to
    /// the same engine object).
    pub open spec fn clone_ok(self, r: GoLuaValue) -> bool {
        match self {
            GoLuaValue::Str(h) => {
                if h is Some {
                    r matches GoLuaValue::Str(Some(_))
                } else {
                    r == GoLuaValue::Nil
                }
            },
            GoLuaValue::Table(h) => {
                if h is Some {
                    r matches GoLuaValue::Table(Some(_))
                } else {
                    r == GoLuaValue::Nil
                }
            },
            GoLuaValue::Function(h) => {
                if h is Some {
                    r matches GoLuaValue::Function(Some(_))
                } else {
                    r == GoLuaValue::Nil
                }
            },
            GoLuaValue::Thread(h) => {
                if h is Some {
                    r matches GoLuaValue::Thread(Some(_))
                } else {
                    r == GoLuaValue::Nil
                }
            },
            GoLuaValue::UserData(h) => {
                if h is Some {
                    r matches GoLuaValue::UserData(Some(_))
                } else {
                    r == GoLuaValue::Nil
                }
            },
            GoLuaValue::Buffer(h) => {
                if h is Some {
                    r matches GoLuaValue::Buffer(Some(_))
                } else {
                    r == GoLuaValue::Nil
                }
            },
            _ => r == self,
        }
    }

    /// The discriminant of this value.
    pub fn tag(&self) -> (t: LuaValueType)
        ensures
            t == self.tag_spec(),
    {
        match self {
            GoLuaValue::Nil => LuaValueType::Nil,
            GoLuaValue::Boolean(_) => LuaValueType::Boolean,
            GoLuaValue::LightUserData(_) => LuaValueType::LightUserData,
            GoLuaValue::Integer(_) => LuaValueType::Integer,
            GoLuaValue::Number(_) => LuaValueType::Number,
            GoLuaValue::Vector(_) => LuaValueType::Vector,
            GoLuaValue::Str(_) => LuaValueType::Str,
            GoLuaValue::Table(_) => LuaValueType::Table,
            GoLuaValue::Function(_) => LuaValueType::Function,
            GoLuaValue::Thread(_) => LuaValueType::Thread,
            GoLuaValue::UserData(_) => LuaValueType::UserData,
            GoLuaValue::Buffer(_) => LuaValueType::Buffer,
            GoLuaValue::Other => LuaValueType::Other,
        }
    }

    /// Clones the value. Primitives are copied; a filled handle slot is
    /// cloned through the engine, which bumps the underlying reference count
    /// and yields an independently owned handle; an empty handle slot
    /// collapses to `Nil`.
    pub fn clone(&self) -> (r: GoLuaValue)
        ensures
            self.clone_ok(r),
            !(self is Other) ==> r.tag_spec() == self.spec_collapse().tag_spec(),
    {
        match self {
            GoLuaValue::Nil => GoLuaValue::Nil,
            GoLuaValue::Boolean(b) => GoLuaValue::Boolean(*b),
            GoLuaValue::LightUserData(l) => GoLuaValue::LightUserData(*l),
            GoLuaValue::Integer(i) => GoLuaValue::Integer(*i),
            GoLuaValue::Number(n) => GoLuaValue::Number(*n),
            GoLuaValue::Vector(v) => GoLuaValue::Vector(*v),
            GoLuaValue::Str(h) => {
                match h {
                    Some(s) => GoLuaValue::Str(Some(clone_string(s))),
                    None => GoLuaValue::Nil,
                }
            },
            GoLuaValue::Table(h) => {
                match h {
                    Some(t) => GoLuaValue::Table(Some(clone_table(t))),
                    None => GoLuaValue::Nil,
                }
            },
            GoLuaValue::Function(h) => {
                match h {
                    Some(f) => GoLuaValue::Function(Some(clone_function(f))),
                    None => GoLuaValue::Nil,
                }
            },
            GoLuaValue::Thread(h) => {
                match h {
                    Some(t) => GoLuaValue::Thread(Some(clone_thread(t))),
                    None => GoLuaValue::Nil,
                }
            },
            GoLuaValue::UserData(h) => {
                match h {
                    Some(u) => GoLuaValue::UserData(Some(clone_userdata(u))),
                    None => GoLuaValue::Nil,
                }
            },
            GoLuaValue::Buffer(h) => {
                match h {
                    Some(b) => GoLuaValue::Buffer(Some(clone_buffer(b))),
                    None => GoLuaValue::Nil,
                }
            },
            GoLuaValue::Other => GoLuaValue::Other,
        }
    }

    /// Normalizes the value for transfer to the engine: an empty handle slot
    /// and the catch-all variant become `Nil`; everything else is unchanged.
    pub fn collapse(self) -> (r: GoLuaValue)
        ensures
            r == self.spec_collapse(),
    {
        match self {
            GoLuaValue::Str(None) => GoLuaValue::Nil,
            GoLuaValue::Table(None) => GoLuaValue::Nil,
            GoLuaValue::Function(None) => GoLuaValue::Nil,
            GoLuaValue::Thread(None) => GoLuaValue::Nil,
            GoLuaValue::UserData(None) => GoLuaValue::Nil,
            GoLuaValue::Buffer(None) => GoLuaValue::Nil,
            GoLuaValue::Other => GoLuaValue::Nil,
            v => v,
        }
    }

    /// Consumes the value and reconstructs the engine-native value it stands
    /// for. Empty handle slots and the catch-all variant collapse to nil; on
    /// everything else the engine receives a value whose boundary model is
    /// exactly this value.
    pub fn to_value_from_owned(self) -> (r: mlua::Value)
        ensures
            engine_value_of(r) == self.spec_collapse(),
    {
        match self.collapse() {
            GoLuaValue::Nil => value_nil(),
            GoLuaValue::Boolean(b) => value_boolean(b),
            GoLuaValue::LightUserData(l) => value_light_userdata(l),
            GoLuaValue::Integer(i) => value_integer(i),
            GoLuaValue::Number(n) => value_number_bits(n),
            GoLuaValue::Vector(v) => value_vector(v),
            GoLuaValue::Str(Some(s)) => value_string(s),
            GoLuaValue::Table(Some(t)) => value_table(t),
            GoLuaValue::Function(Some(f)) => value_function(f),
            GoLuaValue::Thread(Some(t)) => value_thread(t),
            GoLuaValue::UserData(Some(u)) => value_userdata(u),
            GoLuaValue::Buffer(Some(b)) => value_buffer(b),
            _ => value_nil(),
        }
    }

    /// Releases the value: primitives need nothing, a filled handle slot
    /// gives its handle back to the engine's reference counting by being
    /// dropped. Ownership discipline (release exactly once) is enforced by
    /// moving the value in, so a second release or a use after release is
    /// ruled out by the type system rather than by a runtime flag.
    pub fn drop_owned(self) {
        let _ = self;
    }

    /// Captures an engine-native value as a boundary value, taking ownership.
    /// Complex payloads become filled handle slots; the float payload is
    /// carried as its bit pattern.
    ///
    /// Relies on the one-to-one correspondence between `mlua::Value` variants
    /// and `GoLuaValue` variants; error values and unknown extensions are
    /// both mapped to the catch-all variant. This conversion is what the
    /// boundary model denotes, so the result is the model of the input.
    #[verifier::external_body]
    pub fn from_owned(value: mlua::Value) -> (r: GoLuaValue)
        ensures
            r == engine_value_of(value),
    {
        match value {
            Value::Nil => Self::Nil,
            Value::Boolean(b) => Self::Boolean(b),
            Value::LightUserData(l) => Self::LightUserData(l),
            Value::Integer(i) => Self::Integer(i),
            Value::Number(n) => Self::Number(n.to_bits()),
            Value::Vector(v) => Self::Vector(v),
            Value::String(s) => Self::Str(Some(s)),
            Value::Table(t) => Self::Table(Some(t)),
            Value::Function(f) => Self::Function(Some(f)),
            Value::Thread(t) => Self::Thread(Some(t)),
            Value::UserData(u) => Self::UserData(Some(u)),
            Value::Buffer(b) => Self::Buffer(Some(b)),
            _ => Self::Other,
        }
    }
}

/// The boundary's numeric encoding of a value discriminant.
pub open spec fn spec_tag_code(t: LuaValueType) -> u8 {
    match t {
        LuaValueType::Nil => 0u8,
        LuaValueType::Boolean => 1u8,
        LuaValueType::LightUserData => 2u8,
        LuaValueType::Integer => 3u8,
        LuaValueType::Number => 4u8,
        LuaValueType::Vector => 5u8,
        LuaValueType::Str => 6u8,
        LuaValueType::Table => 7u8,
        LuaValueType::Function => 8u8,
        LuaValueType::Thread => 9u8,
        LuaValueType::UserData => 10u8,
        LuaValueType::Buffer => 11u8,
        LuaValueType::Other => 12u8,
    }
}

impl LuaValueType {
    /// Encodes the discriminant for transfer across the boundary.
    pub fn tag_code(self) -> (code: u8)
        ensures
            code == spec_tag_code(self),
    {
        match self {
            LuaValueType::Nil => 0,
            LuaValueType::Boolean => 1,
            LuaValueType::LightUserData => 2,
            LuaValueType::Integer => 3,
            LuaValueType::Number => 4,
            LuaValueType::Vector => 5,
            LuaValueType::Str => 6,
            LuaValueType::Table => 7,
            LuaValueType::Function => 8,
            LuaValueType::Thread => 9,
            LuaValueType::UserData => 10,
            LuaValueType::Buffer => 11,
            LuaValueType::Other => 12,
        }
    }

    /// Classifies an engine-native value without taking ownership.
    ///
    /// Relies on matching `mlua::Value` variants one by one; error values and
    /// unknown extensions both classify as the catch-all discriminant.
    #[verifier::external_body]
    pub fn from_value(value: &mlua::Value) -> LuaValueType {
        match value {
            Value::Nil => Self::Nil,
            Value::Boolean(_) => Self::Boolean,
            Value::LightUserData(_) => Self::LightUserData,
            Value::Integer(_) => Self::Integer,
            Value::Number(_) => Self::Number,
            Value::Vector(_) => Self::Vector,
            Value::String(_) => Self::Str,
            Value::Table(_) => Self::Table,
            Value::Function(_) => Self::Function,
            Value::Thread(_) => Self::Thread,
            Value::UserData(_) => Self::UserData,
            Value::Buffer(_) => Self::Buffer,
            _ => Self::Other,
        }
    }
}

impl crate::result::Errorable for GoLuaValue {
    open spec fn is_error_value(r: Self, msg: Seq<char>) -> bool {
        r is Nil
    }

    fn error_variant(msg: String) -> (r: Self) {
        GoLuaValue::Nil
    }
}

/// Handing a value to the engine loses nothing for every primitive and every
/// filled-handle value: the transfer normalization is the identity there, so
/// the engine receives exactly the captured value. Only empty handle slots
/// and the catch-all variant collapse to nil.
pub proof fn lemma_transfer_keeps_value(v: GoLuaValue)
    requires
        v.is_primitive() || v.is_full_handle(),
    ensures
        v.spec_collapse() == v,
{
}

/// The round trip: capturing an engine value (which yields its boundary
/// model, by the contract of the capture) and handing the captured value
/// straight back (which yields an engine value whose model is the transfer
/// normalization of it, by the contract of the hand-back) reproduces an
/// engine value with the very model of the original, whenever the captured
/// value is a primitive or a filled handle.
pub proof fn lemma_value_round_trip(v: mlua::Value, captured: GoLuaValue, returned: mlua::Value)
    requires
        captured == engine_value_of(v),
        engine_value_of(returned) == captured.spec_collapse(),
        captured.is_primitive() || captured.is_full_handle(),
    ensures
        engine_value_of(returned) == engine_value_of(v),
{
    lemma_transfer_keeps_value(captured);
}

/// Cloning is exact on primitives: the clone of a primitive value is the
/// value itself.
pub proof fn lemma_clone_exact_on_primitives(v: GoLuaValue, r: GoLuaValue)
    requires
        v.is_primitive(),
        v.clone_ok(r),
    ensures
        r == v,
{
}

/// Clones the boundary value; faults are contained at the outermost boundary
/// entry point, not here.
pub fn luago_value_clone(value: &GoLuaValue) -> (r: GoLuaValue)
    ensures
        value.clone_ok(r),
        !(value is Other) ==> r.tag_spec() == value.spec_collapse().tag_spec(),
{
    value.clone()
}

/// Releases the boundary value.
pub fn luago_value_destroy(value: GoLuaValue) {
    value.drop_owned()
}

/// Relies on `mlua::LuaString: Clone`: bumps the reference count of the
/// engine-side string and returns a fresh independently owned handle.
#[verifier::external_body]
fn clone_string(s: &mlua::LuaString) -> mlua::LuaString {
    s.clone()
}

/// Relies on `mlua::Table: Clone`: bumps the reference count of the
/// engine-side table and returns a fresh independently owned handle.
#[verifier::external_body]
fn clone_table(t: &mlua::Table) -> mlua::Table {
    t.clone()
}

/// Relies on `mlua::Function: Clone`: bumps the reference count of the
/// engine-side function and returns a fresh independently owned handle.
#[verifier::external_body]
fn clone_function(f: &mlua::Function) -> mlua::Function {
    f.clone()
}

/// Relies on `mlua::Thread: Clone`: bumps the reference count of the
/// engine-side coroutine and returns a fresh independently owned handle.
#[verifier::external_body]
fn clone_thread(t: &mlua::Thread) -> mlua::Thread {
    t.clone()
}

/// Relies on `mlua::AnyUserData: Clone`: bumps the reference count of the
/// engine-side userdata and returns a fresh independently owned handle.
#[verifier::external_body]
fn clone_userdata(u: &mlua::AnyUserData) -> mlua::AnyUserData {
    u.clone()
}

/// Relies on `mlua::Buffer: Clone`: bumps the reference count of the
/// engine-side buffer and returns a fresh independently owned handle.
#[verifier::external_body]
fn clone_buffer(b: &mlua::Buffer) -> mlua::Buffer {
    b.clone()
}

/// Relies on `mlua::Value::Nil` being the engine's nil value, whose
/// boundary model is `Nil`.
#[verifier::external_body]
fn value_nil() -> (r: mlua::Value)
    ensures
        engine_value_of(r) == GoLuaValue::Nil,
{
    mlua::Value::Nil
}

/// Relies on `mlua::Value::Boolean` carrying the boolean unchanged, so the
/// result's boundary model is `Boolean` of it.
#[verifier::external_body]
fn value_boolean(b: bool) -> (r: mlua::Value)
    ensures
        engine_value_of(r) == GoLuaValue::Boolean(b),
{
    mlua::Value::Boolean(b)
}

/// Relies on `mlua::Value::LightUserData` carrying the pointer unchanged,
/// so the result's boundary model is `LightUserData` of it.
#[verifier::external_body]
fn value_light_userdata(l: mlua::LightUserData) -> (r: mlua::Value)
    ensures
        engine_value_of(r) == GoLuaValue::LightUserData(l),
{
    mlua::Value::LightUserData(l)
}

/// Relies on `mlua::Value::Integer` carrying the integer unchanged, so the
/// result's boundary model is `Integer` of it.
#[verifier::external_body]
fn value_integer(i: i64) -> (r: mlua::Value)
    ensures
        engine_value_of(r) == GoLuaValue::Integer(i),
{
    mlua::Value::Integer(i)
}

/// Relies on `mlua::Value::Number` and on `from_bits`/`to_bits` being exact
/// bit-level inverses: the result's boundary model is `Number` of the same
/// bit pattern.
#[verifier::external_body]
fn value_number_bits(bits: u64) -> (r: mlua::Value)
    ensures
        engine_value_of(r) == GoLuaValue::Number(bits),
{
    mlua::Value::Number(mlua::Number::from_bits(bits))
}

/// Relies on `mlua::Value::Vector` carrying the vector unchanged, so the
/// result's boundary model is `Vector` of it.
#[verifier::external_body]
fn value_vector(v: mlua::Vector) -> (r: mlua::Value)
    ensures
        engine_value_of(r) == GoLuaValue::Vector(v),
{
    mlua::Value::Vector(v)
}

/// Relies on `mlua::Value::String` carrying the handle unchanged, so the
/// result's boundary model is a filled string slot holding it.
#[verifier::external_body]
fn value_string(s: mlua::LuaString) -> (r: mlua::Value)
    ensures
        engine_value_of(r) == GoLuaValue::Str(Some(s)),
{
    mlua::Value::String(s)
}

/// Relies on `mlua::Value::Table` carrying the handle unchanged, so the
/// result's boundary model is a filled table slot holding it.
#[verifier::external_body]
fn value_table(t: mlua::Table) -> (r: mlua::Value)
    ensures
        engine_value_of(r) == GoLuaValue::Table(Some(t)),
{
    mlua::Value::Table(t)
}

/// Relies on `mlua::Value::Function` carrying the handle unchanged, so the
/// result's boundary model is a filled function slot holding it.
#[verifier::external_body]
fn value_function(f: mlua::Function) -> (r: mlua::Value)
    ensures
        engine_value_of(r) == GoLuaValue::Function(Some(f)),
{
    mlua::Value::Function(f)
}

/// Relies on `mlua::Value::Thread` carrying the handle unchanged, so the
/// result's boundary model is a filled thread slot holding it.
#[verifier::external_body]
fn value_thread(t: mlua::Thread) -> (r: mlua::Value)
    ensures
        engine_value_of(r) == GoLuaValue::Thread(Some(t)),
{
    mlua::Value::Thread(t)
}

/// Relies on `mlua::Value::UserData` carrying the handle unchanged, so the
/// result's boundary model is a filled userdata slot holding it.
#[verifier::external_body]
fn value_userdata(u: mlua::AnyUserData) -> (r: mlua::Value)
    ensures
        engine_value_of(r) == GoLuaValue::UserData(Some(u)),
{
    mlua::Value::UserData(u)
}

/// Relies on `mlua::Value::Buffer` carrying the handle unchanged, so the
/// result's boundary model is a filled buffer slot holding it.
#[verifier::external_body]
fn value_buffer(b: mlua::Buffer) -> (r: mlua::Value)
    ensures
        engine_value_of(r) == GoLuaValue::Buffer(Some(b)),
{
    mlua::Value::Buffer(b)
}

} // verus!
