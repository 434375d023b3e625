//! Call/return discipline, module-local against engine-wide globals, and
//! the end-to-end two-function scenario.

use angelscript_vm::global_context::ScriptGlobalContext;
use angelscript_vm::module::{ScriptFunction, ScriptModule};
use angelscript_vm::pal4::{create_context, Pal4Function};
use angelscript_vm::vm::ScriptVm;

fn op(v: &mut Vec<u8>, code: u8) {
    v.extend_from_slice(&[code, 0, 0, 0]);
}

fn a16(v: &mut Vec<u8>, x: u16) {
    v.extend_from_slice(&x.to_le_bytes());
}

fn a32(v: &mut Vec<u8>, x: u32) {
    v.extend_from_slice(&x.to_le_bytes());
}

fn set4(v: &mut Vec<u8>, x: u32) {
    op(v, 2);
    a32(v, x);
}

fn ret(v: &mut Vec<u8>, param_size: u16) {
    op(v, 13);
    a16(v, param_size);
}

/// Function 0 pushes literal 5, calls function 1 (which doubles its single
/// stack parameter and returns it through the 4-byte return register),
/// stores the register's value to a module-local global slot, and returns;
/// after one `execute` call the global slot holds 10.
#[test]
fn two_function_module_doubles_through_register() {
    let mut f0 = Vec::new();
    set4(&mut f0, 5);
    op(&mut f0, 12);
    a32(&mut f0, 1);
    op(&mut f0, 88);
    op(&mut f0, 100);
    a32(&mut f0, 1);
    ret(&mut f0, 0);

    let mut f1 = Vec::new();
    set4(&mut f1, 2);
    op(&mut f1, 25);
    op(&mut f1, 86);
    ret(&mut f1, 0);

    let module = ScriptModule::new(
        vec![
            ScriptFunction::new("main".to_string(), f0),
            ScriptFunction::new("double".to_string(), f1),
        ],
        Vec::new(),
        vec![0; 4],
    );
    let mut g = create_context();
    let mut vm: ScriptVm<u32, Pal4Function> = ScriptVm::new(module, 0, 0u32);
    vm.execute(&mut g, 0).unwrap();
    assert_eq!(vm.module_global(0, 1), Some(10));
}

/// `call` followed by `ret` restores the caller's position: the caller's
/// code after the call still runs, and `ret`'s parameter count removes the
/// callee's parameter bytes.
#[test]
fn call_ret_restores_caller_and_discards_params() {
    let mut f0 = Vec::new();
    set4(&mut f0, 7);
    op(&mut f0, 12);
    a32(&mut f0, 1);
    set4(&mut f0, 9);
    ret(&mut f0, 0);

    // The callee returns with param_size 4, discarding the caller's 7.
    let mut f1 = Vec::new();
    ret(&mut f1, 4);

    let module = ScriptModule::new(
        vec![
            ScriptFunction::new("main".to_string(), f0),
            ScriptFunction::new("callee".to_string(), f1),
        ],
        Vec::new(),
        Vec::new(),
    );
    let mut g = create_context();
    let mut vm: ScriptVm<u32, Pal4Function> = ScriptVm::new(module, 0, 0u32);
    vm.execute(&mut g, 0).unwrap();
    assert_eq!(vm.stack_pop().unwrap(), 9);
    assert!(vm.stack_pop().is_err());
}

/// Negative-encoded global writes land in the shared engine-wide table
/// and are visible to a second interpreter borrowing the same context;
/// non-negative writes land in the writing module's own table only.
#[test]
fn engine_globals_are_shared_module_globals_are_not() {
    let mut writer = Vec::new();
    set4(&mut writer, 42);
    op(&mut writer, 100);
    a32(&mut writer, (-1i32) as u32);
    set4(&mut writer, 7);
    op(&mut writer, 100);
    a32(&mut writer, 0);
    ret(&mut writer, 0);

    let mut reader = Vec::new();
    op(&mut reader, 65);
    a32(&mut reader, (-1i32) as u32);
    ret(&mut reader, 0);

    let wmod = ScriptModule::new(
        vec![ScriptFunction::new("w".to_string(), writer)],
        Vec::new(),
        vec![0; 2],
    );
    let rmod = ScriptModule::new(
        vec![ScriptFunction::new("r".to_string(), reader)],
        Vec::new(),
        vec![0; 2],
    );

    let mut g = create_context();
    let mut vm1: ScriptVm<u32, Pal4Function> = ScriptVm::new(wmod, 0, 0u32);
    let mut vm2: ScriptVm<u32, Pal4Function> = ScriptVm::new(rmod, 0, 0u32);

    vm1.execute(&mut g, 0).unwrap();
    assert_eq!(g.get_global(0), 42);

    vm2.execute(&mut g, 0).unwrap();
    assert_eq!(vm2.stack_pop().unwrap(), 42);

    // The module-local write stayed in the writer's module.
    assert_eq!(vm1.module_global(0, 0), Some(7));
    assert_eq!(vm2.module_global(0, 0), Some(0));
}

/// Reading a module-local global through `pga` with a non-negative index.
#[test]
fn module_local_global_read() {
    let mut v = Vec::new();
    set4(&mut v, 31);
    op(&mut v, 100);
    a32(&mut v, 2);
    op(&mut v, 65);
    a32(&mut v, 2);
    ret(&mut v, 0);
    let module = ScriptModule::new(
        vec![ScriptFunction::new("m".to_string(), v)],
        Vec::new(),
        vec![0; 4],
    );
    let mut g = create_context();
    let mut vm: ScriptVm<u32, Pal4Function> = ScriptVm::new(module, 0, 0u32);
    vm.execute(&mut g, 0).unwrap();
    assert_eq!(vm.stack_pop().unwrap(), 31);
}

#[test]
fn set_function_by_name_switches_entry_point() {
    let mut f0 = Vec::new();
    set4(&mut f0, 1);
    ret(&mut f0, 0);
    let mut f1 = Vec::new();
    set4(&mut f1, 2);
    ret(&mut f1, 0);

    let make = |a: Vec<u8>, b: Vec<u8>| {
        ScriptModule::new(
            vec![
                ScriptFunction::new("first".to_string(), a),
                ScriptFunction::new("second".to_string(), b),
            ],
            Vec::new(),
            Vec::new(),
        )
    };

    let mut g = create_context();
    let mut vm: ScriptVm<u32, Pal4Function> =
        ScriptVm::new(make(f0.clone(), f1.clone()), 0, 0u32);
    vm.set_function_by_name2(make(f0.clone(), f1.clone()), "second");
    // The switched-to function runs first; the saved frame follows it.
    vm.execute(&mut g, 0).unwrap();
    assert_eq!(vm.stack_pop().unwrap(), 1);
    assert_eq!(vm.stack_pop().unwrap(), 2);

    // An unknown name leaves the interpreter where it was.
    let mut vm2: ScriptVm<u32, Pal4Function> =
        ScriptVm::new(make(f0.clone(), f1.clone()), 0, 0u32);
    vm2.set_function_by_name2(make(f0, f1), "missing");
    vm2.execute(&mut g, 0).unwrap();
    assert_eq!(vm2.stack_pop().unwrap(), 1);
}

#[test]
fn set_function_saves_current_frame() {
    let mut f0 = Vec::new();
    set4(&mut f0, 1);
    ret(&mut f0, 0);
    let mut other = Vec::new();
    set4(&mut other, 8);
    ret(&mut other, 0);

    let base = ScriptModule::new(
        vec![ScriptFunction::new("base".to_string(), f0)],
        Vec::new(),
        Vec::new(),
    );
    let extra = ScriptModule::new(
        vec![ScriptFunction::new("init".to_string(), other)],
        Vec::new(),
        Vec::new(),
    );

    let mut g = create_context();
    let mut vm: ScriptVm<u32, Pal4Function> = ScriptVm::new(base, 0, 0u32);
    vm.set_function(extra, 0);
    // The switched-to function runs first and returns into the saved one.
    vm.execute(&mut g, 0).unwrap();
    assert_eq!(vm.stack_pop().unwrap(), 1);
    assert_eq!(vm.stack_pop().unwrap(), 8);
}

#[test]
fn execute_without_context_does_nothing() {
    let module = ScriptModule::new(
        vec![ScriptFunction::new("empty".to_string(), {
            let mut v = Vec::new();
            ret(&mut v, 0);
            v
        })],
        Vec::new(),
        Vec::new(),
    );
    let mut g: ScriptGlobalContext<Pal4Function> = ScriptGlobalContext::new();
    let mut vm: ScriptVm<u32, Pal4Function> = ScriptVm::new(module, 0, 0u32);
    vm.execute(&mut g, 0).unwrap();
    // Finished; further ticks are no-ops.
    vm.execute(&mut g, 0).unwrap();
    vm.execute(&mut g, 0).unwrap();
}

#[test]
fn registered_module_shares_its_globals_across_switches() {
    let mut base = Vec::new();
    ret(&mut base, 0);
    let mut writer = Vec::new();
    set4(&mut writer, 9);
    op(&mut writer, 100);
    a32(&mut writer, 2);
    ret(&mut writer, 0);
    let mut reader = Vec::new();
    op(&mut reader, 65);
    a32(&mut reader, 2);
    ret(&mut reader, 0);

    let base_module = ScriptModule::new(
        vec![ScriptFunction::new("base".to_string(), base)],
        Vec::new(),
        Vec::new(),
    );
    let shared = ScriptModule::new(
        vec![
            ScriptFunction::new("writer".to_string(), writer),
            ScriptFunction::new("reader".to_string(), reader),
        ],
        Vec::new(),
        vec![0; 4],
    );

    let mut g = create_context();
    let mut vm: ScriptVm<u32, Pal4Function> = ScriptVm::new(base_module, 0, 0u32);
    let id = vm.register_module(shared);
    assert_eq!(id, 1);
    assert_eq!(vm.module_count(), 2);

    vm.set_function_registered(id, 0).unwrap();
    vm.execute(&mut g, 0).unwrap();
    assert_eq!(vm.module_global(id, 2), Some(9));

    // A second switch into the same registered module sees the write.
    vm.set_function_registered(id, 1).unwrap();
    vm.execute(&mut g, 0).unwrap();
    assert_eq!(vm.stack_pop().unwrap(), 9);

    // An unregistered id is rejected.
    assert!(vm.set_function_registered(7, 0).is_err());
}

/// With duplicate function names, switching by name switches once per
/// match in table order: the last match ends active, each earlier match
/// leaves a saved frame, and all the frames share one registered module.
#[test]
fn set_function_by_name_switches_once_per_match() {
    let mut base = Vec::new();
    ret(&mut base, 0);
    let mut dup0 = Vec::new();
    set4(&mut dup0, 1);
    ret(&mut dup0, 0);
    let mut dup1 = Vec::new();
    set4(&mut dup1, 2);
    ret(&mut dup1, 0);

    let base_module = ScriptModule::new(
        vec![ScriptFunction::new("base".to_string(), base)],
        Vec::new(),
        Vec::new(),
    );
    let dups = ScriptModule::new(
        vec![
            ScriptFunction::new("dup".to_string(), dup0),
            ScriptFunction::new("dup".to_string(), dup1),
        ],
        Vec::new(),
        Vec::new(),
    );

    let mut g = create_context();
    let mut vm: ScriptVm<u32, Pal4Function> = ScriptVm::new(base_module, 0, 0u32);
    vm.set_function_by_name2(dups, "dup");
    // One registered copy serves every match.
    assert_eq!(vm.module_count(), 2);
    // The second match runs first, then the first match's saved frame,
    // then the original base frame.
    vm.execute(&mut g, 0).unwrap();
    assert_eq!(vm.stack_pop().unwrap(), 1);
    assert_eq!(vm.stack_pop().unwrap(), 2);
    assert!(vm.stack_pop().is_err());
}
