//! The default native catalog: registration order, the verified entries'
//! stack behavior, and script string resolution.

use angelscript_vm::global_context::{GlobalFunctionState, ScriptNative};
use angelscript_vm::module::{ScriptFunction, ScriptModule};
use angelscript_vm::pal4::{
    check_magic_mastered, create_context, create_script_vm, dd_sound_play, get_str, wait,
    Pal4Function,
};
use angelscript_vm::vm::ScriptVm;

fn op(v: &mut Vec<u8>, code: u8) {
    v.extend_from_slice(&[code, 0, 0, 0]);
}

fn a16(v: &mut Vec<u8>, x: u16) {
    v.extend_from_slice(&x.to_le_bytes());
}

fn a32(v: &mut Vec<u8>, x: u32) {
    v.extend_from_slice(&x.to_le_bytes());
}

fn set4(v: &mut Vec<u8>, x: u32) {
    op(v, 2);
    a32(v, x);
}

fn ret0(v: &mut Vec<u8>) {
    op(v, 13);
    a16(v, 0);
}

fn fresh_vm() -> ScriptVm<u32, Pal4Function> {
    let module = ScriptModule::new(
        vec![ScriptFunction::new("main".to_string(), Vec::new())],
        Vec::new(),
        Vec::new(),
    );
    ScriptVm::new(module, 0, 0u32)
}

#[test]
fn catalog_has_full_registration_order() {
    let g = create_context();
    assert_eq!(g.function_count(), 264);
}

/// Dispatching through `callsys`: the check-magic entry (index 106 in the
/// catalog's numbering, so encoded as -107) pushes its 0 answer, and a
/// synchronously completed native lets the same tick's dispatch go on.
#[test]
fn callsys_completed_native_lets_tick_continue() {
    let mut v = Vec::new();
    op(&mut v, 97);
    a32(&mut v, (-107i32) as u32);
    set4(&mut v, 7);
    ret0(&mut v);
    let module = ScriptModule::new(
        vec![ScriptFunction::new("main".to_string(), v)],
        Vec::new(),
        Vec::new(),
    );
    let (mut vm, mut g) = create_script_vm(module, 0u32);
    vm.execute(&mut g, 0).unwrap();
    assert_eq!(vm.stack_pop().unwrap(), 7);
    assert_eq!(vm.stack_pop().unwrap(), 0);
    assert!(vm.stack_pop().is_err());
}

/// The wait entry (index 184, encoded -185) consumes its 8-byte duration.
#[test]
fn callsys_wait_consumes_double_parameter() {
    let mut v = Vec::new();
    op(&mut v, 66);
    v.extend_from_slice(&1.5f64.to_bits().to_le_bytes());
    op(&mut v, 97);
    a32(&mut v, (-185i32) as u32);
    set4(&mut v, 3);
    ret0(&mut v);
    let module = ScriptModule::new(
        vec![ScriptFunction::new("main".to_string(), v)],
        Vec::new(),
        Vec::new(),
    );
    let (mut vm, mut g) = create_script_vm(module, 0u32);
    vm.execute(&mut g, 0).unwrap();
    assert_eq!(vm.stack_pop().unwrap(), 3);
    assert!(vm.stack_pop().is_err());
}

/// The camera-prepare entry (index 232, encoded -233) pops its parameter
/// and answers success.
#[test]
fn callsys_camera_prepare_answers_one() {
    let mut v = Vec::new();
    set4(&mut v, 5);
    op(&mut v, 97);
    a32(&mut v, (-233i32) as u32);
    ret0(&mut v);
    let module = ScriptModule::new(
        vec![ScriptFunction::new("main".to_string(), v)],
        Vec::new(),
        Vec::new(),
    );
    let (mut vm, mut g) = create_script_vm(module, 0u32);
    vm.execute(&mut g, 0).unwrap();
    assert_eq!(vm.stack_pop().unwrap(), 1);
    assert!(vm.stack_pop().is_err());
}

/// An unimplemented catalog entry (a camera-control one) leaves the
/// interpreter's state alone but reports itself through the
/// not-implemented counter.
#[test]
fn callsys_not_implemented_reports_itself() {
    let mut v = Vec::new();
    set4(&mut v, 5);
    op(&mut v, 97);
    a32(&mut v, (-4i32) as u32);
    op(&mut v, 97);
    a32(&mut v, (-4i32) as u32);
    ret0(&mut v);
    let module = ScriptModule::new(
        vec![ScriptFunction::new("main".to_string(), v)],
        Vec::new(),
        Vec::new(),
    );
    let (mut vm, mut g) = create_script_vm(module, 0u32);
    assert_eq!(vm.unimplemented_calls(), 0);
    vm.execute(&mut g, 0).unwrap();
    assert_eq!(vm.unimplemented_calls(), 2);
    assert_eq!(vm.stack_pop().unwrap(), 5);
    assert!(vm.stack_pop().is_err());
}

#[test]
fn native_helpers_behave_on_a_bare_interpreter() {
    let mut vm = fresh_vm();
    vm.stack_push(9).unwrap();
    vm.stack_push(8).unwrap();
    match dd_sound_play("gi2DSoundPlay", &mut vm) {
        GlobalFunctionState::Completed => {},
        GlobalFunctionState::Yield(_) => panic!("must complete"),
    }
    assert_eq!(vm.stack_pop().unwrap(), 0);
    assert!(vm.stack_pop().is_err());

    let mut vm = fresh_vm();
    match check_magic_mastered("giCheckMagicMastered", &mut vm) {
        GlobalFunctionState::Completed => {},
        GlobalFunctionState::Yield(_) => panic!("must complete"),
    }
    assert_eq!(vm.stack_pop().unwrap(), 0);

    let mut vm = fresh_vm();
    vm.stack_push64(2.5f64.to_bits()).unwrap();
    match wait("giWait", &mut vm) {
        GlobalFunctionState::Completed => {},
        GlobalFunctionState::Yield(_) => panic!("must complete"),
    }
    assert!(vm.stack_pop().is_err());
}

#[test]
fn pal4_poll_always_completes() {
    let mut vm = fresh_vm();
    let mut f = Pal4Function::Wait;
    let state = f.poll(&mut vm, 0);
    assert_eq!(state, angelscript_vm::global_context::ContinuationState::Completed);
}

#[test]
fn get_str_reads_heap_slot() {
    let mut vm = fresh_vm();
    let idx = vm.push_object("hello".to_string());
    assert_eq!(get_str(&vm, idx), Some("hello".to_string()));
    assert_eq!(get_str(&vm, 5), None);
    vm.free_object(idx);
    assert_eq!(get_str(&vm, idx), None);
}
