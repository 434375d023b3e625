//! The host-facing stack helpers and the object heap.

use angelscript_vm::module::{ScriptFunction, ScriptModule};
use angelscript_vm::pal4::Pal4Function;
use angelscript_vm::vm::ScriptVm;

fn fresh_vm() -> ScriptVm<u32, Pal4Function> {
    let module = ScriptModule::new(
        vec![ScriptFunction::new("main".to_string(), Vec::new())],
        Vec::new(),
        Vec::new(),
    );
    ScriptVm::new(module, 0, 0u32)
}

#[test]
fn push_pop_lifo_u32() {
    let mut vm = fresh_vm();
    vm.stack_push(11).unwrap();
    vm.stack_push(22).unwrap();
    vm.stack_push(33).unwrap();
    assert_eq!(vm.stack_pop().unwrap(), 33);
    assert_eq!(vm.stack_pop().unwrap(), 22);
    assert_eq!(vm.stack_pop().unwrap(), 11);
}

#[test]
fn push_pop_lifo_u64() {
    let mut vm = fresh_vm();
    vm.stack_push64(0x1122_3344_5566_7788).unwrap();
    vm.stack_push64(u64::MAX).unwrap();
    assert_eq!(vm.stack_pop64().unwrap(), u64::MAX);
    assert_eq!(vm.stack_pop64().unwrap(), 0x1122_3344_5566_7788);
}

#[test]
fn push_pop_mixed_widths() {
    let mut vm = fresh_vm();
    vm.stack_push(7).unwrap();
    vm.stack_push64(0xdead_beef_cafe_f00d).unwrap();
    assert_eq!(vm.stack_pop64().unwrap(), 0xdead_beef_cafe_f00d);
    assert_eq!(vm.stack_pop().unwrap(), 7);
}

#[test]
fn pop_on_empty_stack_fails() {
    let mut vm = fresh_vm();
    assert!(vm.stack_pop().is_err());
    assert!(vm.stack_pop64().is_err());
}

#[test]
fn peek_reads_without_popping() {
    let mut vm = fresh_vm();
    assert_eq!(vm.stack_peek(), None);
    vm.stack_push(5).unwrap();
    vm.stack_push(9).unwrap();
    assert_eq!(vm.stack_peek(), Some(9));
    assert_eq!(vm.stack_pop().unwrap(), 9);
    assert_eq!(vm.stack_pop().unwrap(), 5);
}

#[test]
fn discard_removes_words() {
    let mut vm = fresh_vm();
    vm.stack_push(1).unwrap();
    vm.stack_push(2).unwrap();
    vm.stack_push(3).unwrap();
    vm.stack_discard(2).unwrap();
    assert_eq!(vm.stack_pop().unwrap(), 1);
    assert!(vm.stack_discard(1).is_err());
}

#[test]
fn heap_reuses_lowest_free_slot() {
    let mut vm = fresh_vm();
    let a = vm.push_object("a".to_string());
    let b = vm.push_object("b".to_string());
    assert_eq!(a, 0);
    assert_eq!(b, 1);
    vm.free_object(a);
    let c = vm.push_object("c".to_string());
    assert_eq!(c, a);
    assert_eq!(vm.object_at(0), Some("c".to_string()));
    assert_eq!(vm.object_at(1), Some("b".to_string()));
}

#[test]
fn heap_grows_when_full() {
    let mut vm = fresh_vm();
    let a = vm.push_object("x".to_string());
    let b = vm.push_object("y".to_string());
    let c = vm.push_object("z".to_string());
    assert_eq!((a, b, c), (0, 1, 2));
    vm.free_object(1);
    assert_eq!(vm.object_at(1), None);
    assert_eq!(vm.push_object("w".to_string()), 1);
    assert_eq!(vm.push_object("v".to_string()), 3);
}

#[test]
fn object_at_out_of_range_is_none() {
    let vm = fresh_vm();
    assert_eq!(vm.object_at(3), None);
}

#[test]
fn object_register_round_trip() {
    let mut vm = fresh_vm();
    assert_eq!(vm.robj(), 0);
    vm.set_robj(17);
    assert_eq!(vm.robj(), 17);
}
