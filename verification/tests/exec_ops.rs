//! Opcode dispatch behavior, driven through `execute` on hand-assembled
//! instruction streams. Every function ends with a `ret` so the script
//! finishes and `execute` returns.

use angelscript_vm::global_context::ScriptGlobalContext;
use angelscript_vm::module::{ScriptFunction, ScriptModule};
use angelscript_vm::pal4::{create_script_vm, Pal4Function};
use angelscript_vm::vm::ScriptVm;
use angelscript_vm::VmError;

fn op(v: &mut Vec<u8>, code: u8) {
    v.extend_from_slice(&[code, 0, 0, 0]);
}

fn a16(v: &mut Vec<u8>, x: u16) {
    v.extend_from_slice(&x.to_le_bytes());
}

fn a32(v: &mut Vec<u8>, x: u32) {
    v.extend_from_slice(&x.to_le_bytes());
}

fn a64(v: &mut Vec<u8>, x: u64) {
    v.extend_from_slice(&x.to_le_bytes());
}

fn set4(v: &mut Vec<u8>, x: u32) {
    op(v, 2);
    a32(v, x);
}

fn set8(v: &mut Vec<u8>, x: u64) {
    op(v, 66);
    a64(v, x);
}

fn ret0(v: &mut Vec<u8>) {
    op(v, 13);
    a16(v, 0);
}

fn run(
    inst: Vec<u8>,
) -> (ScriptVm<u32, Pal4Function>, ScriptGlobalContext<Pal4Function>, Result<(), VmError>) {
    run_with(inst, Vec::new(), vec![0; 8])
}

fn run_with(
    inst: Vec<u8>,
    strings: Vec<String>,
    globals: Vec<u32>,
) -> (ScriptVm<u32, Pal4Function>, ScriptGlobalContext<Pal4Function>, Result<(), VmError>) {
    let module =
        ScriptModule::new(vec![ScriptFunction::new("main".to_string(), inst)], strings, globals);
    let (mut vm, mut g) = create_script_vm(module, 0u32);
    let r = vm.execute(&mut g, 0);
    (vm, g, r)
}

fn run_binop32(b: u32, a: u32, code: u8) -> u32 {
    let mut v = Vec::new();
    set4(&mut v, b);
    set4(&mut v, a);
    op(&mut v, code);
    ret0(&mut v);
    let (mut vm, _g, r) = run(v);
    r.unwrap();
    vm.stack_pop().unwrap()
}

fn run_unop32(w: u32, code: u8) -> u32 {
    let mut v = Vec::new();
    set4(&mut v, w);
    op(&mut v, code);
    ret0(&mut v);
    let (mut vm, _g, r) = run(v);
    r.unwrap();
    vm.stack_pop().unwrap()
}

fn run_binop64(b: u64, a: u64, code: u8) -> u64 {
    let mut v = Vec::new();
    set8(&mut v, b);
    set8(&mut v, a);
    op(&mut v, code);
    ret0(&mut v);
    let (mut vm, _g, r) = run(v);
    r.unwrap();
    vm.stack_pop64().unwrap()
}

#[test]
fn add_i32_exact_and_wrapping() {
    assert_eq!(run_binop32(2, 3, 23), 5);
    assert_eq!(run_binop32(i32::MAX as u32, 1, 23), i32::MIN as u32);
    assert_eq!(run_binop32((-4i32) as u32, 3, 23) as i32, -1);
}

#[test]
fn sub_i32_exact() {
    assert_eq!(run_binop32(10, 4, 24), 6);
    assert_eq!(run_binop32(4, 10, 24) as i32, -6);
    assert_eq!(run_binop32(i32::MIN as u32, 1, 24), i32::MAX as u32);
}

#[test]
fn mul_i32_exact_and_wrapping() {
    assert_eq!(run_binop32(7, 6, 25), 42);
    assert_eq!(run_binop32(0x10000, 0x10000, 25), 0);
    assert_eq!(run_binop32((-3i32) as u32, 5, 25) as i32, -15);
}

#[test]
fn div_i32_truncates_toward_zero() {
    assert_eq!(run_binop32((-7i32) as u32, 2, 26) as i32, -3);
    assert_eq!(run_binop32(7, (-2i32) as u32, 26) as i32, -3);
    assert_eq!(run_binop32(7, 2, 26), 3);
    assert_eq!(run_binop32(i32::MIN as u32, (-1i32) as u32, 26), i32::MIN as u32);
}

#[test]
fn mod_i32_keeps_dividend_sign() {
    assert_eq!(run_binop32((-7i32) as u32, 2, 27) as i32, -1);
    assert_eq!(run_binop32(7, (-2i32) as u32, 27) as i32, 1);
    assert_eq!(run_binop32(7, 3, 27), 1);
}

#[test]
fn div_by_zero_i32_is_fatal() {
    let mut v = Vec::new();
    set4(&mut v, 1);
    set4(&mut v, 0);
    op(&mut v, 26);
    ret0(&mut v);
    let (mut vm, mut g, r) = run(v);
    assert_eq!(r, Err(VmError::DivisionByZero));
    assert_eq!(vm.execute(&mut g, 0), Ok(()));
}

#[test]
fn mod_by_zero_i32_is_fatal() {
    let mut v = Vec::new();
    set4(&mut v, 1);
    set4(&mut v, 0);
    op(&mut v, 27);
    ret0(&mut v);
    let (_vm, _g, r) = run(v);
    assert_eq!(r, Err(VmError::DivisionByZero));
}

#[test]
fn div_by_zero_f32_is_fatal_for_both_zero_signs() {
    for z in [0.0f32, -0.0f32] {
        let mut v = Vec::new();
        set4(&mut v, 1.0f32.to_bits());
        set4(&mut v, z.to_bits());
        op(&mut v, 36);
        ret0(&mut v);
        let (_vm, _g, r) = run(v);
        assert_eq!(r, Err(VmError::DivisionByZero));
    }
}

#[test]
fn mod_by_zero_f32_is_fatal() {
    let mut v = Vec::new();
    set4(&mut v, 1.0f32.to_bits());
    set4(&mut v, 0.0f32.to_bits());
    op(&mut v, 37);
    ret0(&mut v);
    let (_vm, _g, r) = run(v);
    assert_eq!(r, Err(VmError::DivisionByZero));
}

#[test]
fn div_and_mod_by_zero_f64_are_fatal() {
    for code in [75u8, 76u8] {
        let mut v = Vec::new();
        set8(&mut v, 1.0f64.to_bits());
        set8(&mut v, 0.0f64.to_bits());
        op(&mut v, code);
        ret0(&mut v);
        let (_vm, _g, r) = run(v);
        assert_eq!(r, Err(VmError::DivisionByZero));
    }
}

#[test]
fn f32_arithmetic_matches_ieee() {
    assert_eq!(run_binop32(1.5f32.to_bits(), 2.25f32.to_bits(), 33), (1.5f32 + 2.25f32).to_bits());
    assert_eq!(run_binop32(2.25f32.to_bits(), 1.5f32.to_bits(), 34), 0.75f32.to_bits());
    assert_eq!(run_binop32(3.0f32.to_bits(), 0.5f32.to_bits(), 35), 1.5f32.to_bits());
    assert_eq!(run_binop32(7.5f32.to_bits(), 2.5f32.to_bits(), 36), 3.0f32.to_bits());
    assert_eq!(run_binop32(5.5f32.to_bits(), 2.0f32.to_bits(), 37), (5.5f32 % 2.0f32).to_bits());
}

#[test]
fn f64_arithmetic_matches_ieee() {
    assert_eq!(run_binop64(1.1f64.to_bits(), 2.2f64.to_bits(), 72), (1.1f64 + 2.2f64).to_bits());
    assert_eq!(run_binop64(2.5f64.to_bits(), 1.25f64.to_bits(), 73), 1.25f64.to_bits());
    assert_eq!(run_binop64(3.5f64.to_bits(), 2.0f64.to_bits(), 74), 7.0f64.to_bits());
    assert_eq!(run_binop64(7.5f64.to_bits(), 2.5f64.to_bits(), 75), 3.0f64.to_bits());
    assert_eq!(run_binop64(5.5f64.to_bits(), 2.0f64.to_bits(), 76), (5.5f64 % 2.0f64).to_bits());
}

#[test]
fn neg_opcodes_flip_values() {
    assert_eq!(run_unop32(5, 28) as i32, -5);
    assert_eq!(run_unop32(1.5f32.to_bits(), 38), (-1.5f32).to_bits());
    let mut v = Vec::new();
    set8(&mut v, 2.5f64.to_bits());
    op(&mut v, 69);
    ret0(&mut v);
    let (mut vm, _g, r) = run(v);
    r.unwrap();
    assert_eq!(vm.stack_pop64().unwrap(), (-2.5f64).to_bits());
}

#[test]
fn cmp_i32_three_way() {
    assert_eq!(run_binop32(5, 3, 29), 1);
    assert_eq!(run_binop32(3, 5, 29), 0xffff_ffff);
    assert_eq!(run_binop32(4, 4, 29), 0);
    assert_eq!(run_binop32((-1i32) as u32, 1, 29), 0xffff_ffff);
}

#[test]
fn cmp_u32_is_unsigned() {
    assert_eq!(run_binop32(1, 0x8000_0000, 52), 0xffff_ffff);
    assert_eq!(run_binop32(0x8000_0000, 1, 52), 1);
}

#[test]
fn cmp_f32_answers_zero_on_nan() {
    assert_eq!(run_binop32(2.5f32.to_bits(), 1.5f32.to_bits(), 39), 1);
    assert_eq!(run_binop32(1.5f32.to_bits(), 2.5f32.to_bits(), 39), 0xffff_ffff);
    assert_eq!(run_binop32(f32::NAN.to_bits(), 1.0f32.to_bits(), 39), 0);
}

#[test]
fn cmp_f64_three_way() {
    let mut v = Vec::new();
    set8(&mut v, 2.5f64.to_bits());
    set8(&mut v, 1.5f64.to_bits());
    op(&mut v, 78);
    ret0(&mut v);
    let (mut vm, _g, r) = run(v);
    r.unwrap();
    assert_eq!(vm.stack_pop().unwrap(), 1);
}

#[test]
fn test_opcodes_answer_bool_words() {
    assert_eq!(run_unop32(0, 17), 1);
    assert_eq!(run_unop32(3, 17), 0);
    assert_eq!(run_unop32(3, 18), 1);
    assert_eq!(run_unop32((-2i32) as u32, 19), 1);
    assert_eq!(run_unop32(2, 19), 0);
    assert_eq!(run_unop32(0, 20), 1);
    assert_eq!(run_unop32(2, 21), 1);
    assert_eq!(run_unop32(0, 21), 0);
    assert_eq!(run_unop32(0, 22), 1);
    assert_eq!(run_unop32(1, 22), 0);
}

#[test]
fn bitwise_opcodes() {
    assert_eq!(run_unop32(0x0f0f_0f0f, 43), 0xf0f0_f0f0);
    assert_eq!(run_binop32(0xff00, 0x0ff0, 44), 0x0f00);
    assert_eq!(run_binop32(0xff00, 0x0ff0, 45), 0xfff0);
    assert_eq!(run_binop32(0xff00, 0x0ff0, 46), 0xf0f0);
}

#[test]
fn shift_opcodes_including_oversized() {
    assert_eq!(run_binop32(1, 4, 47), 16);
    assert_eq!(run_binop32(1, 35, 47), 0);
    assert_eq!(run_binop32(0x8000_0000, 31, 48), 1);
    assert_eq!(run_binop32(0x8000_0000, 40, 48), 0);
    assert_eq!(run_binop32((-8i32) as u32, 1, 49) as i32, -4);
    assert_eq!(run_binop32((-8i32) as u32, 40, 49), 0xffff_ffff);
    assert_eq!(run_binop32(8, 40, 49), 0);
}

#[test]
fn narrowing_opcodes() {
    assert_eq!(run_unop32(0x1ff, 53), 0xffff_ffff);
    assert_eq!(run_unop32(0x18000, 54), 0xffff_8000);
    assert_eq!(run_unop32(0x1ff, 55), 0xff);
    assert_eq!(run_unop32(0x12345, 56), 0x2345);
}

#[test]
fn write_low_opcodes() {
    assert_eq!(run_binop32(0xaabb_ccdd, 0x11, 57), 0xaabb_cc11);
    assert_eq!(run_binop32(0xaabb_ccdd, 0x9911, 58), 0xaabb_9911);
}

#[test]
fn int_float_conversions() {
    assert_eq!(run_unop32((-5i32) as u32, 32), (-5.0f32).to_bits());
    assert_eq!(run_unop32(3.7f32.to_bits(), 42), 3);
    assert_eq!(run_unop32((-3.7f32).to_bits(), 42) as i32, -3);
    assert_eq!(run_unop32(f32::NAN.to_bits(), 42), 0);
    assert_eq!(run_unop32(0xffff_ffff, 50), (4294967295.0f32).to_bits());
    assert_eq!(run_unop32((-1.0f32).to_bits(), 51), 0);
    assert_eq!(run_unop32(7.9f32.to_bits(), 51), 7);
}

#[test]
fn double_conversions() {
    let mut v = Vec::new();
    set8(&mut v, 7.9f64.to_bits());
    op(&mut v, 79);
    ret0(&mut v);
    let (mut vm, _g, r) = run(v);
    r.unwrap();
    assert_eq!(vm.stack_pop().unwrap(), 7);

    let mut v = Vec::new();
    set8(&mut v, (-2.3f64).to_bits());
    op(&mut v, 79);
    ret0(&mut v);
    let (mut vm, _g, r) = run(v);
    r.unwrap();
    assert_eq!(vm.stack_pop().unwrap() as i32, -2);

    let mut v = Vec::new();
    set8(&mut v, 3.2f64.to_bits());
    op(&mut v, 80);
    ret0(&mut v);
    let (mut vm, _g, r) = run(v);
    r.unwrap();
    assert_eq!(vm.stack_pop().unwrap(), 3);

    let mut v = Vec::new();
    set8(&mut v, 1.5f64.to_bits());
    op(&mut v, 81);
    ret0(&mut v);
    let (mut vm, _g, r) = run(v);
    r.unwrap();
    assert_eq!(vm.stack_pop().unwrap(), 1.5f32.to_bits());
}

#[test]
fn int_to_double_conversion() {
    let mut v = Vec::new();
    op(&mut v, 1);
    a16(&mut v, 2);
    set4(&mut v, 5);
    op(&mut v, 82);
    ret0(&mut v);
    let (mut vm, _g, r) = run(v);
    r.unwrap();
    assert_eq!(vm.stack_pop64().unwrap(), 5.0f64.to_bits());

    // The signed reading turns the all-ones word into -1.
    let mut v = Vec::new();
    op(&mut v, 1);
    a16(&mut v, 2);
    set4(&mut v, 0xffff_ffff);
    op(&mut v, 82);
    ret0(&mut v);
    let (mut vm, _g, r) = run(v);
    r.unwrap();
    assert_eq!(vm.stack_pop64().unwrap(), (-1.0f64).to_bits());
}

#[test]
fn unsigned_and_single_to_double_conversions() {
    // The unsigned reading keeps the all-ones word's full value.
    let mut v = Vec::new();
    op(&mut v, 1);
    a16(&mut v, 2);
    set4(&mut v, 0xffff_ffff);
    op(&mut v, 83);
    ret0(&mut v);
    let (mut vm, _g, r) = run(v);
    r.unwrap();
    assert_eq!(vm.stack_pop64().unwrap(), 4294967295.0f64.to_bits());

    // A single-precision source widens exactly.
    let mut v = Vec::new();
    op(&mut v, 1);
    a16(&mut v, 2);
    set4(&mut v, 1.5f32.to_bits());
    op(&mut v, 84);
    ret0(&mut v);
    let (mut vm, _g, r) = run(v);
    r.unwrap();
    assert_eq!(vm.stack_pop64().unwrap(), 1.5f64.to_bits());
}

#[test]
fn immediate_opcodes() {
    let mut v = Vec::new();
    set4(&mut v, 5);
    op(&mut v, 95);
    a32(&mut v, 7);
    ret0(&mut v);
    let (mut vm, _g, r) = run(v);
    r.unwrap();
    assert_eq!(vm.stack_pop().unwrap(), 1);

    let mut v = Vec::new();
    set4(&mut v, 5);
    op(&mut v, 101);
    a32(&mut v, 3);
    ret0(&mut v);
    let (mut vm, _g, r) = run(v);
    r.unwrap();
    assert_eq!(vm.stack_pop().unwrap(), 8);

    let mut v = Vec::new();
    set4(&mut v, 5);
    op(&mut v, 102);
    a32(&mut v, 3);
    ret0(&mut v);
    let (mut vm, _g, r) = run(v);
    r.unwrap();
    assert_eq!(vm.stack_pop().unwrap(), 2);

    let mut v = Vec::new();
    set4(&mut v, 5);
    op(&mut v, 106);
    a32(&mut v, 4);
    ret0(&mut v);
    let (mut vm, _g, r) = run(v);
    r.unwrap();
    assert_eq!(vm.stack_pop().unwrap(), 20);

    let mut v = Vec::new();
    set4(&mut v, 1.5f32.to_bits());
    op(&mut v, 104);
    a32(&mut v, 2.5f32.to_bits());
    ret0(&mut v);
    let (mut vm, _g, r) = run(v);
    r.unwrap();
    assert_eq!(vm.stack_pop().unwrap(), 4.0f32.to_bits());
}

#[test]
fn jumps_change_control_flow() {
    let mut v = Vec::new();
    op(&mut v, 14);
    a32(&mut v, 8);
    set4(&mut v, 111);
    set4(&mut v, 222);
    ret0(&mut v);
    let (mut vm, _g, r) = run(v);
    r.unwrap();
    assert_eq!(vm.stack_pop().unwrap(), 222);
    assert!(vm.stack_pop().is_err());
}

#[test]
fn conditional_jumps_pop_their_test() {
    let mut v = Vec::new();
    set4(&mut v, 0);
    op(&mut v, 15);
    a32(&mut v, 8);
    set4(&mut v, 111);
    set4(&mut v, 222);
    ret0(&mut v);
    let (mut vm, _g, r) = run(v);
    r.unwrap();
    assert_eq!(vm.stack_pop().unwrap(), 222);
    assert!(vm.stack_pop().is_err());

    let mut v = Vec::new();
    set4(&mut v, 0);
    op(&mut v, 16);
    a32(&mut v, 8);
    set4(&mut v, 111);
    set4(&mut v, 222);
    ret0(&mut v);
    let (mut vm, _g, r) = run(v);
    r.unwrap();
    assert_eq!(vm.stack_pop().unwrap(), 222);
    assert_eq!(vm.stack_pop().unwrap(), 111);
    assert!(vm.stack_pop().is_err());
}

#[test]
fn sign_jumps_pop_their_test() {
    // Taken: the negative test value is consumed and the jump skips ahead.
    let mut v = Vec::new();
    set4(&mut v, (-5i32) as u32);
    op(&mut v, 92);
    a32(&mut v, 8);
    set4(&mut v, 111);
    set4(&mut v, 222);
    ret0(&mut v);
    let (mut vm, _g, r) = run(v);
    r.unwrap();
    assert_eq!(vm.stack_pop().unwrap(), 222);
    assert!(vm.stack_pop().is_err());

    // Not taken: the test value is still consumed.
    let mut v = Vec::new();
    set4(&mut v, 5);
    op(&mut v, 92);
    a32(&mut v, 8);
    set4(&mut v, 111);
    set4(&mut v, 222);
    ret0(&mut v);
    let (mut vm, _g, r) = run(v);
    r.unwrap();
    assert_eq!(vm.stack_pop().unwrap(), 222);
    assert_eq!(vm.stack_pop().unwrap(), 111);
    assert!(vm.stack_pop().is_err());
}

#[test]
fn computed_jump_scales_by_eight() {
    let mut v = Vec::new();
    set4(&mut v, 1);
    op(&mut v, 85);
    set4(&mut v, 111);
    set4(&mut v, 222);
    ret0(&mut v);
    let (mut vm, _g, r) = run(v);
    r.unwrap();
    assert_eq!(vm.stack_pop().unwrap(), 222);
    assert!(vm.stack_pop().is_err());
}

#[test]
fn return_registers_carry_values() {
    let mut v = Vec::new();
    set4(&mut v, 77);
    op(&mut v, 86);
    op(&mut v, 88);
    ret0(&mut v);
    let (mut vm, _g, r) = run(v);
    r.unwrap();
    assert_eq!(vm.stack_pop().unwrap(), 77);
    assert!(vm.stack_pop().is_err());

    let mut v = Vec::new();
    set4(&mut v, 2);
    set4(&mut v, 1);
    op(&mut v, 87);
    op(&mut v, 89);
    ret0(&mut v);
    let (mut vm, _g, r) = run(v);
    r.unwrap();
    assert_eq!(vm.stack_pop().unwrap(), 1);
    assert_eq!(vm.stack_pop().unwrap(), 2);
}

#[test]
fn store_recall_scratch_is_per_dispatch() {
    // The scratch slot the store/recall pair uses lives only for one
    // dispatch, so a later recall pushes the slot's fresh zero.
    let mut v = Vec::new();
    set4(&mut v, 9);
    op(&mut v, 10);
    op(&mut v, 11);
    ret0(&mut v);
    let (mut vm, _g, r) = run(v);
    r.unwrap();
    assert_eq!(vm.stack_pop().unwrap(), 0);
    assert_eq!(vm.stack_pop().unwrap(), 9);
}

#[test]
fn stack_adjust_opcodes() {
    let mut v = Vec::new();
    set4(&mut v, 1);
    set4(&mut v, 2);
    op(&mut v, 0);
    a16(&mut v, 1);
    op(&mut v, 63);
    ret0(&mut v);
    let (mut vm, _g, r) = run(v);
    r.unwrap();
    assert_eq!(vm.stack_pop().unwrap(), 0);
    assert_eq!(vm.stack_pop().unwrap(), 1);
    assert!(vm.stack_pop().is_err());
}

#[test]
fn indirect_read_and_write() {
    // rd4: the address on top is replaced by the word it points at.
    let mut v = Vec::new();
    set4(&mut v, 99);
    set4(&mut v, 1020);
    op(&mut v, 3);
    ret0(&mut v);
    let (mut vm, _g, r) = run(v);
    r.unwrap();
    assert_eq!(vm.stack_pop().unwrap(), 99);
    assert_eq!(vm.stack_pop().unwrap(), 99);

    // wrt4: pops an address and writes the next word through it.
    let mut v = Vec::new();
    set4(&mut v, 5);
    set4(&mut v, 42);
    set4(&mut v, 1020);
    op(&mut v, 5);
    ret0(&mut v);
    let (mut vm, _g, r) = run(v);
    r.unwrap();
    assert_eq!(vm.stack_pop().unwrap(), 42);
    assert_eq!(vm.stack_pop().unwrap(), 42);

    // mov4 also pops the written word.
    let mut v = Vec::new();
    set4(&mut v, 5);
    set4(&mut v, 42);
    set4(&mut v, 1020);
    op(&mut v, 6);
    ret0(&mut v);
    let (mut vm, _g, r) = run(v);
    r.unwrap();
    assert_eq!(vm.stack_pop().unwrap(), 42);
    assert!(vm.stack_pop().is_err());
}

#[test]
fn frame_relative_opcodes() {
    // psf pushes the address of a frame slot; rdsf4 copies a frame slot's
    // value over the top of the stack.
    let mut v = Vec::new();
    set4(&mut v, 77);
    set4(&mut v, 0);
    op(&mut v, 4);
    a16(&mut v, 1);
    ret0(&mut v);
    let (mut vm, _g, r) = run(v);
    r.unwrap();
    assert_eq!(vm.stack_pop().unwrap(), 77);
    assert_eq!(vm.stack_pop().unwrap(), 77);

    let mut v = Vec::new();
    set4(&mut v, 55);
    op(&mut v, 7);
    a16(&mut v, 1);
    ret0(&mut v);
    let (mut vm, _g, r) = run(v);
    r.unwrap();
    assert_eq!(vm.stack_pop().unwrap(), 1020);
    assert_eq!(vm.stack_pop().unwrap(), 55);

    // movsf4 only discards the top stack word.
    let mut v = Vec::new();
    set4(&mut v, 3);
    set4(&mut v, 4);
    op(&mut v, 8);
    a16(&mut v, 1);
    ret0(&mut v);
    let (mut vm, _g, r) = run(v);
    r.unwrap();
    assert_eq!(vm.stack_pop().unwrap(), 3);
    assert!(vm.stack_pop().is_err());
}

#[test]
fn swap_opcodes() {
    let mut v = Vec::new();
    set4(&mut v, 1);
    set4(&mut v, 2);
    op(&mut v, 9);
    ret0(&mut v);
    let (mut vm, _g, r) = run(v);
    r.unwrap();
    assert_eq!(vm.stack_pop().unwrap(), 1);
    assert_eq!(vm.stack_pop().unwrap(), 2);

    let mut v = Vec::new();
    set8(&mut v, 10);
    set8(&mut v, 20);
    op(&mut v, 77);
    ret0(&mut v);
    let (mut vm, _g, r) = run(v);
    r.unwrap();
    assert_eq!(vm.stack_pop64().unwrap(), 10);
    assert_eq!(vm.stack_pop64().unwrap(), 20);
}

#[test]
fn copy_opcode_moves_two_words_at_word_stride() {
    let mut v = Vec::new();
    set4(&mut v, 0xb);
    set4(&mut v, 0xa);
    op(&mut v, 1);
    a16(&mut v, 2);
    set4(&mut v, 1016);
    set4(&mut v, 1008);
    op(&mut v, 64);
    a16(&mut v, 2);
    op(&mut v, 0);
    a16(&mut v, 1);
    ret0(&mut v);
    let (mut vm, _g, r) = run(v);
    r.unwrap();
    assert_eq!(vm.stack_pop().unwrap(), 0xa);
    assert_eq!(vm.stack_pop().unwrap(), 0xb);
}

#[test]
fn copy_opcode_moves_words() {
    let mut v = Vec::new();
    set4(&mut v, 5);
    op(&mut v, 1);
    a16(&mut v, 1);
    set4(&mut v, 1020);
    set4(&mut v, 1016);
    op(&mut v, 64);
    a16(&mut v, 1);
    op(&mut v, 0);
    a16(&mut v, 1);
    ret0(&mut v);
    let (mut vm, _g, r) = run(v);
    r.unwrap();
    assert_eq!(vm.stack_pop().unwrap(), 5);
    assert_eq!(vm.stack_pop().unwrap(), 5);
}

#[test]
fn increment_decrement_through_pointer() {
    // 32-bit increment.
    let mut v = Vec::new();
    set4(&mut v, 41);
    op(&mut v, 7);
    a16(&mut v, 1);
    op(&mut v, 30);
    op(&mut v, 0);
    a16(&mut v, 1);
    ret0(&mut v);
    let (mut vm, _g, r) = run(v);
    r.unwrap();
    assert_eq!(vm.stack_pop().unwrap(), 42);

    // 32-bit decrement.
    let mut v = Vec::new();
    set4(&mut v, 41);
    op(&mut v, 7);
    a16(&mut v, 1);
    op(&mut v, 31);
    op(&mut v, 0);
    a16(&mut v, 1);
    ret0(&mut v);
    let (mut vm, _g, r) = run(v);
    r.unwrap();
    assert_eq!(vm.stack_pop().unwrap(), 40);

    // Single-precision increment adds 1.0.
    let mut v = Vec::new();
    set4(&mut v, 1.5f32.to_bits());
    op(&mut v, 7);
    a16(&mut v, 1);
    op(&mut v, 40);
    op(&mut v, 0);
    a16(&mut v, 1);
    ret0(&mut v);
    let (mut vm, _g, r) = run(v);
    r.unwrap();
    assert_eq!(vm.stack_pop().unwrap(), 2.5f32.to_bits());

    // 16-bit increment wraps within the low half only.
    let mut v = Vec::new();
    set4(&mut v, 0x0001_ffff);
    op(&mut v, 7);
    a16(&mut v, 1);
    op(&mut v, 59);
    op(&mut v, 0);
    a16(&mut v, 1);
    ret0(&mut v);
    let (mut vm, _g, r) = run(v);
    r.unwrap();
    assert_eq!(vm.stack_pop().unwrap(), 0x0001_0000);

    // 8-bit decrement touches the low byte only.
    let mut v = Vec::new();
    set4(&mut v, 0x1234_5600);
    op(&mut v, 7);
    a16(&mut v, 1);
    op(&mut v, 62);
    op(&mut v, 0);
    a16(&mut v, 1);
    ret0(&mut v);
    let (mut vm, _g, r) = run(v);
    r.unwrap();
    assert_eq!(vm.stack_pop().unwrap(), 0x1234_56ff);

    // Double-precision increment adds 1.0.
    let mut v = Vec::new();
    set8(&mut v, 2.5f64.to_bits());
    op(&mut v, 7);
    a16(&mut v, 2);
    op(&mut v, 70);
    op(&mut v, 0);
    a16(&mut v, 1);
    ret0(&mut v);
    let (mut vm, _g, r) = run(v);
    r.unwrap();
    assert_eq!(vm.stack_pop64().unwrap(), 3.5f64.to_bits());
}

#[test]
fn wide_indirect_opcodes() {
    // Opcode 67 reads the doubleword behind an address into a new slot.
    let mut v = Vec::new();
    set8(&mut v, 0x0102_0304_0506_0708);
    set4(&mut v, 1016);
    op(&mut v, 67);
    ret0(&mut v);
    let (mut vm, _g, r) = run(v);
    r.unwrap();
    assert_eq!(vm.stack_pop64().unwrap(), 0x0102_0304_0506_0708);

    // Opcode 68 writes the doubleword at the adjusted stack pointer
    // through a popped address.
    let mut v = Vec::new();
    op(&mut v, 1);
    a16(&mut v, 2);
    set8(&mut v, 0x1111_2222_3333_4444);
    set4(&mut v, 1016);
    op(&mut v, 68);
    ret0(&mut v);
    let (mut vm, _g, r) = run(v);
    r.unwrap();
    assert_eq!(vm.stack_pop64().unwrap(), 0x1111_2222_3333_4444);
    assert_eq!(vm.stack_pop64().unwrap(), 0x1111_2222_3333_4444);
}

#[test]
fn storeobj_writes_object_register() {
    let mut v = Vec::new();
    op(&mut v, 1);
    a16(&mut v, 1);
    op(&mut v, 112);
    v.extend_from_slice(&1i16.to_le_bytes());
    ret0(&mut v);
    let module =
        ScriptModule::new(vec![ScriptFunction::new("main".to_string(), v)], Vec::new(), Vec::new());
    let (mut vm, mut g) = create_script_vm(module, 0u32);
    vm.set_robj(3);
    vm.execute(&mut g, 0).unwrap();
    assert_eq!(vm.stack_pop().unwrap(), 3);
}

#[test]
fn getobjref_resolves_parameter_slot() {
    let mut v = Vec::new();
    set4(&mut v, 42);
    set4(&mut v, 1);
    op(&mut v, 118);
    v.extend_from_slice(&0i16.to_le_bytes());
    ret0(&mut v);
    let (mut vm, _g, r) = run(v);
    r.unwrap();
    assert_eq!(vm.stack_pop().unwrap(), 42);
    assert_eq!(vm.stack_pop().unwrap(), 42);
}

#[test]
fn free_opcode_clears_heap_slot() {
    let mut v = Vec::new();
    set4(&mut v, 0);
    op(&mut v, 7);
    a16(&mut v, 1);
    op(&mut v, 110);
    a32(&mut v, 0);
    ret0(&mut v);
    let module =
        ScriptModule::new(vec![ScriptFunction::new("main".to_string(), v)], Vec::new(), Vec::new());
    let (mut vm, mut g) = create_script_vm(module, 0u32);
    vm.push_object("doomed".to_string());
    vm.push_object("kept".to_string());
    vm.execute(&mut g, 0).unwrap();
    assert_eq!(vm.object_at(0), None);
    assert_eq!(vm.object_at(1), Some("kept".to_string()));
}

#[test]
fn str_opcode_pushes_length_and_index() {
    let mut v = Vec::new();
    op(&mut v, 90);
    a16(&mut v, 1);
    ret0(&mut v);
    let (mut vm, _g, r) =
        run_with(v, vec!["hi".to_string(), "hello".to_string()], Vec::new());
    r.unwrap();
    assert_eq!(vm.stack_pop().unwrap(), 5);
    assert_eq!(vm.stack_pop().unwrap(), 1);
}

#[test]
fn suspend_pauses_and_resumes() {
    let mut v = Vec::new();
    set4(&mut v, 1);
    op(&mut v, 108);
    set4(&mut v, 2);
    ret0(&mut v);
    let module =
        ScriptModule::new(vec![ScriptFunction::new("main".to_string(), v)], Vec::new(), Vec::new());
    let (mut vm, mut g) = create_script_vm(module, 0u32);
    vm.execute(&mut g, 0).unwrap();
    let paused_top = vm.stack_pop().unwrap();
    assert_eq!(paused_top, 1);
    vm.stack_push(paused_top).unwrap();
    vm.execute(&mut g, 0).unwrap();
    assert_eq!(vm.stack_pop().unwrap(), 2);
    assert_eq!(vm.stack_pop().unwrap(), 1);
}

#[test]
fn unknown_and_unsupported_opcodes_are_fatal() {
    for (code, expected) in [
        (200u8, VmError::UnknownOpcode(200)),
        (98u8, VmError::UnsupportedOpcode(98)),
        (109u8, VmError::UnsupportedOpcode(109)),
        (111u8, VmError::UnsupportedOpcode(111)),
        (120u8, VmError::UnsupportedOpcode(120)),
    ] {
        let mut v = Vec::new();
        op(&mut v, code);
        ret0(&mut v);
        let (_vm, _g, r) = run(v);
        assert_eq!(r, Err(expected));
    }
}

#[test]
fn out_of_bounds_errors() {
    // Popping from an empty stack.
    let mut v = Vec::new();
    op(&mut v, 0);
    a16(&mut v, 1);
    ret0(&mut v);
    let (_vm, _g, r) = run(v);
    assert_eq!(r, Err(VmError::StackOutOfBounds));

    // An empty function has no opcode to fetch.
    let (_vm, _g, r) = run(Vec::new());
    assert_eq!(r, Err(VmError::CodeOutOfBounds));

    // A jump far past the code still fails at the next fetch.
    let mut v = Vec::new();
    op(&mut v, 14);
    a32(&mut v, 4096);
    ret0(&mut v);
    let (_vm, _g, r) = run(v);
    assert_eq!(r, Err(VmError::CodeOutOfBounds));

    // Calling a function index the module does not have.
    let mut v = Vec::new();
    op(&mut v, 12);
    a32(&mut v, 7);
    ret0(&mut v);
    let (_vm, _g, r) = run(v);
    assert_eq!(r, Err(VmError::FunctionIndexOutOfBounds));

    // A module-local global index past the table.
    let mut v = Vec::new();
    set4(&mut v, 1);
    op(&mut v, 100);
    a32(&mut v, 50);
    ret0(&mut v);
    let (_vm, _g, r) = run(v);
    assert_eq!(r, Err(VmError::GlobalIndexOutOfBounds));

    // A string index past the table.
    let mut v = Vec::new();
    op(&mut v, 90);
    a16(&mut v, 9);
    ret0(&mut v);
    let (_vm, _g, r) = run(v);
    assert_eq!(r, Err(VmError::StringIndexOutOfBounds));

    // Native indices must be negative and within the registry.
    let mut v = Vec::new();
    op(&mut v, 97);
    a32(&mut v, 5);
    ret0(&mut v);
    let (_vm, _g, r) = run(v);
    assert_eq!(r, Err(VmError::NativeIndexOutOfBounds));

    let mut v = Vec::new();
    op(&mut v, 97);
    a32(&mut v, (-300i32) as u32);
    ret0(&mut v);
    let (_vm, _g, r) = run(v);
    assert_eq!(r, Err(VmError::NativeIndexOutOfBounds));

    // Freeing through a heap index the heap does not have.
    let mut v = Vec::new();
    set4(&mut v, 7);
    op(&mut v, 7);
    a16(&mut v, 1);
    op(&mut v, 110);
    a32(&mut v, 0);
    ret0(&mut v);
    let (_vm, _g, r) = run(v);
    assert_eq!(r, Err(VmError::HeapIndexOutOfBounds));
}

#[test]
fn rdga4_reads_engine_global() {
    let mut v = Vec::new();
    op(&mut v, 99);
    a32(&mut v, (-3i32) as u32);
    ret0(&mut v);
    let module =
        ScriptModule::new(vec![ScriptFunction::new("main".to_string(), v)], Vec::new(), Vec::new());
    let (mut vm, mut g) = create_script_vm(module, 0u32);
    g.set_global(2, 55);
    vm.execute(&mut g, 0).unwrap();
    assert_eq!(vm.stack_pop().unwrap(), 55);
}

#[test]
fn rdga4_rejects_module_side() {
    let mut v = Vec::new();
    op(&mut v, 99);
    a32(&mut v, 1);
    ret0(&mut v);
    let (_vm, _g, r) = run(v);
    assert_eq!(r, Err(VmError::UnsupportedOpcode(99)));
}
