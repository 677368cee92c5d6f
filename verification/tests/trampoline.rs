use std::cell::{Cell, RefCell};
use std::rc::Rc;

use luago::function::{
    luago_create_function, luago_function_call, trampoline_outcome, CallbackResponse,
    FunctionCallbackData, HostFunction,
};
use luago::multivalue::GoMultiValue;
use luago::result::{contain_fault, fault_message, Errorable};
use luago::value::GoLuaValue;
use luago::vm::{GoVm, LIB_ALL};

fn new_vm() -> GoVm {
    GoVm::newluavm(LIB_ALL).expect("engine instance")
}

struct CountingHost {
    count: Rc<Cell<usize>>,
    seen: Rc<RefCell<Vec<Vec<i64>>>>,
}

impl HostFunction for CountingHost {
    fn invoke(&self, data: FunctionCallbackData) -> CallbackResponse {
        self.count.set(self.count.get() + 1);
        let mut ints = Vec::new();
        for v in data.args.drain() {
            if let GoLuaValue::Integer(i) = v {
                ints.push(i);
            }
        }
        self.seen.borrow_mut().push(ints);
        CallbackResponse {
            values: Some(GoMultiValue::instantiate(vec![GoLuaValue::Integer(99)])),
            error: None,
        }
    }
}

struct ErrorHost;

impl HostFunction for ErrorHost {
    fn invoke(&self, _data: FunctionCallbackData) -> CallbackResponse {
        CallbackResponse {
            values: Some(GoMultiValue::instantiate(vec![GoLuaValue::Integer(1)])),
            error: Some("host refused".to_string()),
        }
    }
}

struct SilentHost;

impl HostFunction for SilentHost {
    fn invoke(&self, _data: FunctionCallbackData) -> CallbackResponse {
        CallbackResponse { values: None, error: None }
    }
}

#[test]
fn callback_invoked_exactly_n_times_with_args_in_order() {
    let vm = new_vm();
    let count = Rc::new(Cell::new(0));
    let seen = Rc::new(RefCell::new(Vec::new()));
    let host = CountingHost { count: count.clone(), seen: seen.clone() };
    let f = luago_create_function(vm.lua(), host).expect("function");

    let n = 4;
    for k in 0..n {
        let args = GoMultiValue::instantiate(vec![
            GoLuaValue::Integer(k),
            GoLuaValue::Integer(k + 1),
        ]);
        let out = luago_function_call(&f, args).expect("call");
        let out = out.drain();
        assert_eq!(out.len(), 1);
        assert!(matches!(out[0], GoLuaValue::Integer(99)));
    }
    assert_eq!(count.get(), n as usize);
    let seen = seen.borrow();
    for k in 0..n {
        assert_eq!(seen[k as usize], vec![k, k + 1]);
    }
}

#[test]
fn host_error_becomes_engine_error() {
    let vm = new_vm();
    let f = luago_create_function(vm.lua(), ErrorHost).expect("function");
    let res = luago_function_call(&f, GoMultiValue::empty());
    match res {
        Err(msg) => assert!(msg.contains("host refused")),
        Ok(_) => panic!("the host error must surface"),
    }
}

#[test]
fn silent_host_returns_empty_results() {
    let vm = new_vm();
    let f = luago_create_function(vm.lua(), SilentHost).expect("function");
    let out = luago_function_call(&f, GoMultiValue::empty()).expect("call");
    assert_eq!(out.len(), 0);
}

#[test]
fn outcome_error_wins_and_releases_values() {
    let resp = CallbackResponse {
        values: Some(GoMultiValue::instantiate(vec![GoLuaValue::Integer(1)])),
        error: Some("boom".to_string()),
    };
    match trampoline_outcome(resp) {
        Err(m) => assert_eq!(m, "boom"),
        Ok(_) => panic!("the error slot must win"),
    }
}

#[test]
fn outcome_values_pass_through() {
    let resp = CallbackResponse {
        values: Some(GoMultiValue::instantiate(vec![
            GoLuaValue::Integer(1),
            GoLuaValue::Integer(2),
        ])),
        error: None,
    };
    match trampoline_outcome(resp) {
        Ok(vs) => {
            let vs = vs.drain();
            assert_eq!(vs.len(), 2);
            assert!(matches!(vs[0], GoLuaValue::Integer(1)));
            assert!(matches!(vs[1], GoLuaValue::Integer(2)));
        },
        Err(_) => panic!("values must pass through"),
    }
}

#[test]
fn outcome_nothing_set_is_empty_success() {
    let resp = CallbackResponse { values: None, error: None };
    match trampoline_outcome(resp) {
        Ok(vs) => assert_eq!(vs.len(), 0),
        Err(_) => panic!("nothing set means an empty result"),
    }
}

#[test]
fn fault_message_keeps_own_message() {
    assert_eq!(fault_message(Some("index out of range".to_string())), "index out of range");
}

#[test]
fn fault_message_substitutes_fallback() {
    assert_eq!(fault_message(None), "unknown fault reason");
}

#[test]
fn fault_message_substitutes_fallback_for_empty() {
    assert_eq!(fault_message(Some(String::new())), "unknown fault reason");
}

#[test]
fn contained_fault_yields_error_value_and_nonempty_message() {
    let (payload, err) = contain_fault::<bool>(Err(None));
    assert!(!payload);
    let msg = err.expect("a contained fault carries a message");
    assert!(!msg.is_empty());
    assert_eq!(msg, "unknown fault reason");
}

#[test]
fn contained_success_passes_payload() {
    let (payload, err) = contain_fault::<i64>(Ok(17));
    assert_eq!(payload, 17);
    assert!(err.is_none());
}

#[test]
fn error_variant_of_value_is_nil() {
    let v = GoLuaValue::error_variant("any".to_string());
    assert!(matches!(v, GoLuaValue::Nil));
}
