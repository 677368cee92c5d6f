//! The result envelope and fault containment.
//!
//! Every fallible boundary operation returns either its payload or a
//! human-readable error message. When a fault (a panic, not a reported
//! error) is raised while executing a boundary call, it must never unwind
//! across the boundary: the outermost entry point intercepts it and converts
//! it into the envelope's error channel, substituting a fixed message when
//! the fault carries none, and the payload slot takes the type's designated
//! error value. The interception itself (catching the unwind) has to happen
//! outside this library; the decisions — which message, which payload —
//! are made here.

use vstd::prelude::*;

verus! {

/// Types that can stand in the payload slot of a failed envelope.
///
/// `error_variant` produces the value that fills the payload slot when the
/// operation failed with the given message: a designated null/zero value,
/// characterized per type by `is_error_value`.
pub trait Errorable: Sized {
    spec fn is_error_value(r: Self, msg: Seq<char>) -> bool;

    fn error_variant(msg: String) -> (r: Self)
        ensures
            Self::is_error_value(r, msg@),
    ;
}

impl Errorable for bool {
    open spec fn is_error_value(r: Self, msg: Seq<char>) -> bool {
        r == false
    }

    fn error_variant(msg: String) -> (r: Self) {
        false
    }
}

impl Errorable for u8 {
    open spec fn is_error_value(r: Self, msg: Seq<char>) -> bool {
        r == 0u8
    }

    fn error_variant(msg: String) -> (r: Self) {
        0
    }
}

impl Errorable for usize {
    open spec fn is_error_value(r: Self, msg: Seq<char>) -> bool {
        r == 0usize
    }

    fn error_variant(msg: String) -> (r: Self) {
        0
    }
}

impl Errorable for i64 {
    open spec fn is_error_value(r: Self, msg: Seq<char>) -> bool {
        r == 0i64
    }

    fn error_variant(msg: String) -> (r: Self) {
        0
    }
}

impl Errorable for () {
    open spec fn is_error_value(r: Self, msg: Seq<char>) -> bool {
        true
    }

    fn error_variant(msg: String) -> (r: Self) {
    }
}

/// The message a contained fault reports: what the fault carried, or a
/// fixed fallback when it carried nothing (no message, or an empty one).
pub open spec fn spec_fault_message(msg: Option<Seq<char>>) -> Seq<char> {
    match msg {
        Some(m) => if m.len() > 0 {
            m
        } else {
            "unknown fault reason"@
        },
        None => "unknown fault reason"@,
    }
}

/// A contained fault always reports a non-empty message: either the fault's
/// own, or the fixed fallback.
pub proof fn lemma_fault_message_nonempty(msg: Option<Seq<char>>)
    ensures
        spec_fault_message(msg).len() > 0,
{
    reveal_strlit("unknown fault reason");
}

/// Normalizes what a contained fault carried: its own message when it has a
/// non-empty one, the fixed fallback otherwise.
pub fn fault_message(msg: Option<String>) -> (r: String)
    ensures
        r@ == spec_fault_message(match msg {
            Some(m) => Some(m@),
            None => None,
        }),
{
    match msg {
        Some(m) => {
            if m.as_str().is_empty() {
                fallback_fault_message()
            } else {
                m
            }
        },
        None => fallback_fault_message(),
    }
}

/// The fixed fallback message of a contained fault.
fn fallback_fault_message() -> (r: String)
    ensures
        r@ == "unknown fault reason"@,
{
    let r = "unknown fault reason".to_string();
    proof {
        vstd::string::to_string_from_display_ensures_for_str("unknown fault reason", r);
    }
    r
}

/// Converts the outcome of a guarded boundary call into the envelope's
/// payload: a successful call passes its payload through; a contained fault
/// yields the payload type's designated error value together with the
/// normalized fault message.
pub fn contain_fault<T: Errorable>(outcome: Result<T, Option<String>>) -> (r: (T, Option<
    String,
>))
    ensures
        match outcome {
            Ok(t) => r.0 == t && r.1 is None,
            Err(m) => {
                &&& T::is_error_value(
                    r.0,
                    spec_fault_message(
                        match m {
                            Some(s) => Some(s@),
                            None => None,
                        },
                    ),
                )
                &&& (r.1 matches Some(e) && e@ == spec_fault_message(
                    match m {
                        Some(s) => Some(s@),
                        None => None,
                    },
                ))
            },
        },
{
    match outcome {
        Ok(t) => (t, None),
        Err(m) => {
            let msg = fault_message(m);
            let payload = T::error_variant(msg.clone());
            (payload, Some(msg))
        },
    }
}

} // verus!
