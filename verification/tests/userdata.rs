use std::cell::Cell;
use std::rc::Rc;

use luago::userdata::{
    luago_create_userdata, luago_get_userdata_handle, luago_userdata_equals,
    luago_userdata_metatable, DynamicData,
};
use luago::vm::{GoVm, LIB_ALL};

fn new_vm() -> GoVm {
    GoVm::newluavm(LIB_ALL).expect("engine instance")
}

#[test]
fn take_for_drop_fires_once() {
    let mut d = DynamicData::new(5);
    assert_eq!(d.take_for_drop(), Some(5));
    assert_eq!(d.take_for_drop(), None);
    assert_eq!(d.take_for_drop(), None);
}

#[test]
fn zero_sentinel_never_fires() {
    let mut d = DynamicData::new(0);
    assert_eq!(d.take_for_drop(), None);
    assert_eq!(d.take_for_drop(), None);
}

#[test]
fn handle_reads_back() {
    let d = DynamicData::new(77);
    assert_eq!(d.handle(), 77);
}

/// The host side of a dynamic userdata: fires its destructor through the
/// one-shot guard when the engine reclaims the wrapping object.
struct HostResource {
    data: DynamicData,
    fired: Rc<Cell<u32>>,
}

impl Drop for HostResource {
    fn drop(&mut self) {
        if self.data.take_for_drop().is_some() {
            self.fired.set(self.fired.get() + 1);
        }
    }
}

#[test]
fn destructor_fires_exactly_once_on_collection() {
    let vm = new_vm();
    let fired = Rc::new(Cell::new(0));
    let resource = HostResource { data: DynamicData::new(123), fired: fired.clone() };
    let ud = vm.lua().create_any_userdata(resource).expect("userdata");
    assert_eq!(fired.get(), 0);
    drop(ud);
    vm.lua().gc_collect().expect("collect");
    vm.lua().gc_collect().expect("collect");
    assert_eq!(fired.get(), 1);
}

#[test]
fn explicit_destroy_does_not_double_fire() {
    let vm = new_vm();
    let fired = Rc::new(Cell::new(0));
    let resource = HostResource { data: DynamicData::new(9), fired: fired.clone() };
    let ud = vm.lua().create_any_userdata(resource).expect("userdata");
    ud.destroy().expect("destroy");
    vm.lua().gc_collect().expect("collect");
    vm.lua().gc_collect().expect("collect");
    assert_eq!(fired.get(), 1);
}

#[test]
fn created_userdata_hands_handle_back() {
    let vm = new_vm();
    let ud = luago_create_userdata(vm.lua(), DynamicData::new(42)).expect("userdata");
    assert_eq!(luago_get_userdata_handle(&ud).expect("handle"), 42);
}

#[test]
fn userdata_equality_is_identity() {
    let vm = new_vm();
    let a = luago_create_userdata(vm.lua(), DynamicData::new(1)).expect("userdata");
    let b = luago_create_userdata(vm.lua(), DynamicData::new(1)).expect("userdata");
    assert!(luago_userdata_equals(&a, &a.clone()));
    assert!(!luago_userdata_equals(&a, &b));
}

#[test]
fn userdata_metatable_reads_back() {
    let vm = new_vm();
    let ud = luago_create_userdata(vm.lua(), DynamicData::new(8)).expect("userdata");
    assert!(luago_userdata_metatable(&ud).is_ok());
}

#[test]
fn foreign_userdata_has_no_handle() {
    let vm = new_vm();
    let ud = vm.lua().create_any_userdata(3u32).expect("userdata");
    assert!(luago_get_userdata_handle(&ud).is_err());
}
