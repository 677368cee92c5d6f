//! The multi-value container.
//!
//! Call arguments, call results, and coroutine resume/yield payloads cross
//! the boundary as one ordered sequence of tagged values with a single owner.
//! The sequence is drained — its contents moved out — exactly once; draining
//! consumes the container, so a second drain or any use after draining is
//! ruled out by ownership rather than by a runtime check.

use vstd::prelude::*;

use crate::result::Errorable;
use crate::value::GoLuaValue;

verus! {

/// An ordered, single-owner sequence of tagged values.
pub struct GoMultiValue {
    values: Vec<GoLuaValue>,
}

impl View for GoMultiValue {
    type V = Seq<GoLuaValue>;

    closed spec fn view(&self) -> Seq<GoLuaValue> {
        self.values@
    }
}

impl GoMultiValue {
    /// Takes ownership of the sequence; insertion order is kept and is the
    /// call-argument / return order.
    pub fn instantiate(values: Vec<GoLuaValue>) -> (r: GoMultiValue)
        ensures
            r@ == values@,
    {
        GoMultiValue { values }
    }

    /// An empty sequence.
    pub fn empty() -> (r: GoMultiValue)
        ensures
            r@ == Seq::<GoLuaValue>::empty(),
    {
        GoMultiValue { values: Vec::new() }
    }

    /// Appends one value at the end.
    pub fn push(&mut self, value: GoLuaValue)
        ensures
            final(self)@ == old(self)@.push(value),
    {
        self.values.push(value);
    }

    pub fn len(&self) -> (n: usize)
        ensures
            n == self@.len(),
    {
        self.values.len()
    }

    /// Consumes the container and moves the values out, in the original
    /// order. Ownership makes this the single drain: the container cannot be
    /// touched afterwards.
    pub fn drain(self) -> (r: Vec<GoLuaValue>)
        ensures
            r@ == self@,
    {
        self.values
    }

    /// Captures an engine-native value list, taking ownership of every value
    /// in it. The result has one tagged value per engine value, in order.
    pub fn from_engine(mv: mlua::MultiValue) -> (r: GoMultiValue) {
        let mut raw = multi_into_vec(mv);
        let mut values: Vec<GoLuaValue> = Vec::new();
        let ghost total = raw@.len();
        while raw.len() > 0
            invariant
                values@.len() + raw@.len() == total,
            decreases raw@.len(),
        {
            let v = raw.remove(0);
            values.push(GoLuaValue::from_owned(v));
        }
        GoMultiValue { values }
    }

    /// Consumes the container and hands every value to the engine, in order,
    /// as an engine-native value list.
    pub fn into_engine(self) -> (r: mlua::MultiValue) {
        let mut raw: Vec<mlua::Value> = Vec::new();
        let mut values = self.values;
        while values.len() > 0
            decreases values@.len(),
        {
            let v = values.remove(0);
            raw.push(v.to_value_from_owned());
        }
        multi_from_vec(raw)
    }
}

impl Errorable for GoMultiValue {
    open spec fn is_error_value(r: Self, msg: Seq<char>) -> bool {
        r@ == Seq::<GoLuaValue>::empty()
    }

    fn error_variant(msg: String) -> (r: Self) {
        GoMultiValue::empty()
    }
}

/// Draining an instantiated container yields exactly the sequence it was
/// instantiated with, in the same order: `instantiate` ensures the view
/// equals the input sequence and `drain` ensures the output equals the view.
pub proof fn lemma_multivalue_round_trip(
    input: Seq<GoLuaValue>,
    container: GoMultiValue,
    output: Seq<GoLuaValue>,
)
    requires
        container@ == input,
        output == container@,
    ensures
        output == input,
{
}

/// Relies on `mlua::MultiValue::into_vec`: returns the contained values as a
/// vector in their original front-to-back order.
#[verifier::external_body]
fn multi_into_vec(mv: mlua::MultiValue) -> Vec<mlua::Value> {
    mv.into_vec()
}

/// Relies on `mlua::MultiValue::from_vec`: wraps the vector's values as an
/// engine value list in the same order.
#[verifier::external_body]
fn multi_from_vec(values: Vec<mlua::Value>) -> mlua::MultiValue {
    mlua::MultiValue::from_vec(values)
}

} // verus!
