use luago::buffer::{
    luago_buffer_equals, luago_buffer_len, luago_buffer_read_bytes, luago_buffer_to_bytes,
    luago_buffer_write_bytes, luago_create_buffer,
};
use std::cell::Cell;
use std::rc::Rc;

use luago::function::luago_create_function;
use luago::function::{luago_function_call, CallbackResponse, FunctionCallbackData, HostFunction};
use luago::multivalue::GoMultiValue;
use luago::thread::{
    luago_create_thread, luago_thread_equals, luago_thread_resume, luago_thread_status,
};
use luago::value::GoLuaValue;
use luago::vm::{
    interrupt_outcome, GoRegistryError, GoStdLib, GoVm, GoVmState, InterruptData,
    InterruptHost, InterruptResponse, LIB_ALL, LIB_COROUTINE, LIB_MASK, LIB_MATH, LIB_TABLE,
};

fn new_vm() -> GoVm {
    GoVm::newluavm(LIB_ALL).expect("engine instance")
}

struct ReturnsArgs;

impl HostFunction for ReturnsArgs {
    fn invoke(&self, data: FunctionCallbackData) -> CallbackResponse {
        CallbackResponse { values: Some(data.args), error: None }
    }
}

struct FailsWith(&'static str);

impl HostFunction for FailsWith {
    fn invoke(&self, _data: FunctionCallbackData) -> CallbackResponse {
        CallbackResponse { values: None, error: Some(self.0.to_string()) }
    }
}

#[test]
fn stdlib_flags_truncate_and_contain() {
    let libs = GoStdLib::from_bits_truncate(LIB_COROUTINE | LIB_TABLE | (1 << 20));
    assert!(libs.contains(LIB_COROUTINE));
    assert!(libs.contains(LIB_TABLE));
    assert!(!libs.contains(LIB_MATH));
    assert_eq!(libs.bits & !LIB_MASK, 0);
}

#[test]
fn subset_vm_comes_up() {
    let vm = GoVm::newluavm(LIB_TABLE | LIB_MATH).expect("engine instance");
    assert!(vm.luago_used_memory() > 0);
}

#[test]
fn fresh_vm_has_no_limit_and_no_sandbox() {
    let vm = new_vm();
    assert_eq!(vm.luago_memory_limit(), 0);
}

#[test]
fn memory_limit_is_recorded_and_enforced() {
    let mut vm = new_vm();

    // with no ceiling a small allocation works
    let small = vec![0u8; 16];
    assert!(luago_create_buffer(vm.lua(), &small).is_ok());

    let limit = vm.luago_used_memory() + 100_000;
    let previous = vm.luavm_setmemorylimit(limit).expect("set limit");
    assert_eq!(previous, 0);
    assert_eq!(vm.luago_memory_limit(), limit);

    // allocating far beyond the ceiling through the engine must fail with an
    // error, not succeed silently
    let huge = vec![0u8; 4_000_000];
    let r = luago_create_buffer(vm.lua(), &huge);
    assert!(r.is_err());
}

#[test]
fn memory_limit_stops_engine_execution() {
    let mut vm = new_vm();
    let limit = vm.luago_used_memory() + 200_000;
    vm.luavm_setmemorylimit(limit).expect("set limit");
    let f = vm
        .lua()
        .load("local t = {} for i = 1, 100000000 do t[i] = i end")
        .into_function()
        .expect("chunk");
    let r = luago_function_call(&f, GoMultiValue::empty());
    assert!(r.is_err());
}

#[test]
fn callback_counted_from_engine_code() {
    struct Counting(Rc<Cell<usize>>);

    impl HostFunction for Counting {
        fn invoke(&self, _data: FunctionCallbackData) -> CallbackResponse {
            self.0.set(self.0.get() + 1);
            CallbackResponse { values: None, error: None }
        }
    }

    let vm = new_vm();
    let count = Rc::new(Cell::new(0));
    let cb = luago_create_function(vm.lua(), Counting(count.clone())).expect("function");
    vm.luago_globals().set("notify", cb).expect("set global");
    let f = vm
        .lua()
        .load("for i = 1, 5 do notify(i) end")
        .into_function()
        .expect("chunk");
    luago_function_call(&f, GoMultiValue::empty()).expect("call");
    assert_eq!(count.get(), 5);
}

#[test]
fn sandbox_switches_on() {
    let mut vm = new_vm();
    vm.luavm_sandbox(true).expect("sandbox on");
    vm.luavm_sandbox(false).expect("sandbox off");
}

#[test]
fn globals_are_a_table() {
    let vm = new_vm();
    let g = vm.luago_globals();
    g.set("answer", 41i64).expect("set global");
    let g2 = vm.luago_globals();
    let v: i64 = g2.get("answer").expect("get global");
    assert_eq!(v, 41);
}

#[test]
fn registry_round_trip() {
    let vm = new_vm();
    let key = b"k".to_vec();
    vm.luago_set_named_registry_value(&key, GoLuaValue::Integer(7)).expect("set");
    let v = vm.luago_named_registry_value(&key).expect("get");
    assert!(matches!(v, GoLuaValue::Integer(7)));
}

#[test]
fn registry_absent_reads_nil() {
    let vm = new_vm();
    let v = vm.luago_named_registry_value(&b"never-set".to_vec()).expect("get");
    assert!(matches!(v, GoLuaValue::Nil));
}

#[test]
fn registry_rejects_invalid_utf8_key() {
    let vm = new_vm();
    let bad = vec![0xffu8, 0xfe];
    match vm.luago_set_named_registry_value(&bad, GoLuaValue::Integer(1)) {
        Err(e) => {
            assert!(matches!(e, GoRegistryError::InvalidKey));
            assert_eq!(e.into_message(), "Invalid UTF-8 key");
        },
        Ok(_) => panic!("an invalid key must be rejected"),
    }
    match vm.luago_named_registry_value(&bad) {
        Err(e) => assert!(matches!(e, GoRegistryError::InvalidKey)),
        Ok(_) => panic!("an invalid key must be rejected"),
    }
}

#[test]
fn current_thread_exists() {
    let vm = new_vm();
    let t = vm.luago_current_thread();
    assert!(luago_thread_equals(&t, &vm.luago_current_thread()));
}

#[test]
fn thread_lifecycle_resumable_then_finished() {
    let vm = new_vm();
    let f = luago_create_function(vm.lua(), ReturnsArgs).expect("function");
    let t = luago_create_thread(vm.lua(), &f).expect("thread");
    assert_eq!(luago_thread_status(&t), 0);

    let args = GoMultiValue::instantiate(vec![GoLuaValue::Integer(5), GoLuaValue::Integer(6)]);
    let out = luago_thread_resume(&t, args).expect("resume");
    let out = out.drain();
    assert_eq!(out.len(), 2);
    assert!(matches!(out[0], GoLuaValue::Integer(5)));
    assert!(matches!(out[1], GoLuaValue::Integer(6)));

    assert_eq!(luago_thread_status(&t), 2);
}

#[test]
fn thread_lifecycle_error() {
    let vm = new_vm();
    let f = luago_create_function(vm.lua(), FailsWith("broken body")).expect("function");
    let t = luago_create_thread(vm.lua(), &f).expect("thread");
    assert_eq!(luago_thread_status(&t), 0);
    let r = luago_thread_resume(&t, GoMultiValue::empty());
    match r {
        Err(msg) => assert!(msg.contains("broken body")),
        Ok(_) => panic!("the raised error must surface"),
    }
    assert_eq!(luago_thread_status(&t), 3);
}

#[test]
fn thread_lifecycle_yield_keeps_resumable() {
    let vm = new_vm();
    let f = vm
        .lua()
        .load("local a = coroutine.yield(1) return a + 1")
        .into_function()
        .expect("chunk");
    let t = luago_create_thread(vm.lua(), &f).expect("thread");
    assert_eq!(luago_thread_status(&t), 0);

    // the thread yields mid-execution and stays resumable
    let out = luago_thread_resume(&t, GoMultiValue::empty()).expect("resume").drain();
    assert_eq!(out.len(), 1);
    assert!(matches!(out[0], GoLuaValue::Integer(1)));
    assert_eq!(luago_thread_status(&t), 0);

    // resuming with an argument finishes it
    let args = GoMultiValue::instantiate(vec![GoLuaValue::Integer(41)]);
    let out = luago_thread_resume(&t, args).expect("resume").drain();
    assert_eq!(out.len(), 1);
    assert!(matches!(out[0], GoLuaValue::Integer(42)));
    assert_eq!(luago_thread_status(&t), 2);
}

#[test]
fn resuming_finished_thread_fails() {
    let vm = new_vm();
    let f = luago_create_function(vm.lua(), ReturnsArgs).expect("function");
    let t = luago_create_thread(vm.lua(), &f).expect("thread");
    luago_thread_resume(&t, GoMultiValue::empty()).expect("first resume");
    assert!(luago_thread_resume(&t, GoMultiValue::empty()).is_err());
}

#[test]
fn interrupt_outcome_classifies() {
    let r = interrupt_outcome(InterruptResponse { vm_state: 0, error: None });
    assert!(matches!(r, Ok(GoVmState::Continue)));
    let r = interrupt_outcome(InterruptResponse { vm_state: 1, error: None });
    assert!(matches!(r, Ok(GoVmState::Yield)));
    let r = interrupt_outcome(InterruptResponse { vm_state: 9, error: None });
    match r {
        Err(m) => assert_eq!(m, "Invalid VM state"),
        Ok(_) => panic!("an unknown selector is an error"),
    }
    let r = interrupt_outcome(InterruptResponse {
        vm_state: 0,
        error: Some("stop now".to_string()),
    });
    match r {
        Err(m) => assert_eq!(m, "stop now"),
        Ok(_) => panic!("the error slot must win"),
    }
}

struct AlwaysContinue;

impl InterruptHost for AlwaysContinue {
    fn interrupt(&self, _data: InterruptData) -> InterruptResponse {
        InterruptResponse { vm_state: 0, error: None }
    }
}

#[test]
fn interrupt_hook_installs_and_removes() {
    let vm = new_vm();
    vm.luago_set_interrupt(AlwaysContinue);
    let f = luago_create_function(vm.lua(), ReturnsArgs).expect("function");
    let out = luago_function_call(&f, GoMultiValue::empty()).expect("call");
    assert_eq!(out.len(), 0);
    vm.luago_remove_interrupt();
}

struct StopEverything;

impl InterruptHost for StopEverything {
    fn interrupt(&self, _data: InterruptData) -> InterruptResponse {
        InterruptResponse { vm_state: 0, error: Some("interrupted by host".to_string()) }
    }
}

#[test]
fn interrupt_error_cancels_execution() {
    let vm = new_vm();
    let f = vm
        .lua()
        .load("for i = 1, 100000000 do end")
        .into_function()
        .expect("chunk");
    vm.luago_set_interrupt(StopEverything);
    let r = luago_function_call(&f, GoMultiValue::empty());
    match r {
        Err(msg) => assert!(msg.contains("interrupted by host")),
        Ok(_) => panic!("the interrupt error must cancel the call"),
    }
    vm.luago_remove_interrupt();
}

#[test]
fn buffer_contents_round_trip() {
    let vm = new_vm();
    let b = luago_create_buffer(vm.lua(), &vec![1u8, 2, 3, 4]).expect("buffer");
    assert_eq!(luago_buffer_len(&b), 4);
    assert_eq!(luago_buffer_to_bytes(&b), vec![1u8, 2, 3, 4]);
}

#[test]
fn buffer_read_and_write_ranges() {
    let vm = new_vm();
    let b = luago_create_buffer(vm.lua(), &vec![1u8, 2, 3, 4]).expect("buffer");
    assert_eq!(luago_buffer_read_bytes(&b, 1, 2), vec![2u8, 3]);
    luago_buffer_write_bytes(&b, 0, &vec![9u8]);
    assert_eq!(luago_buffer_to_bytes(&b), vec![9u8, 2, 3, 4]);
}

#[test]
fn empty_buffer_has_length_zero() {
    let vm = new_vm();
    let b = luago_create_buffer(vm.lua(), &Vec::new()).expect("buffer");
    assert_eq!(luago_buffer_len(&b), 0);
    assert!(luago_buffer_to_bytes(&b).is_empty());
}

#[test]
fn buffer_equality_is_identity() {
    let vm = new_vm();
    let a = luago_create_buffer(vm.lua(), &vec![1u8]).expect("buffer");
    let b = luago_create_buffer(vm.lua(), &vec![1u8]).expect("buffer");
    assert!(luago_buffer_equals(&a, &a));
    assert!(!luago_buffer_equals(&a, &b));
}

#[test]
fn buffer_pointer_is_stable_and_distinct() {
    let vm = new_vm();
    let a = luago_create_buffer(vm.lua(), &vec![1u8]).expect("buffer");
    let b = luago_create_buffer(vm.lua(), &vec![1u8]).expect("buffer");
    let pa = luago::buffer::luago_buffer_to_pointer(&a);
    assert!(pa != 0);
    assert_eq!(pa, luago::buffer::luago_buffer_to_pointer(&a));
    assert!(pa != luago::buffer::luago_buffer_to_pointer(&b));
}

#[test]
fn instance_destroys_cleanly() {
    let vm = new_vm();
    vm.freeluavm();
}
