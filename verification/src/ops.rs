//! Value-level semantics of the arithmetic, comparison, bitwise, and
//! narrowing opcodes, over the 32-bit stack words they operate on. Signed
//! operations follow two's-complement semantics: a word stands for the
//! signed value obtained by reinterpreting its bits, and results are
//! reduced modulo 2^32 back into a word.
//!
//! For a binary opcode, `a` is the first value popped (the topmost) and `b`
//! the second; the result the opcode pushes is `b OP a`.

use crate::softfloat::{
    double_add, double_add_of, double_div, double_div_of, double_gt, double_gt_exec, double_is_zero,
    double_mul, double_mul_of, double_rem, double_rem_of, double_sub, double_sub_of, i32_of_single,
    single_add, single_add_of, single_div, single_div_of, single_from_i32, single_from_u32,
    single_gt, single_gt_exec, single_is_zero, single_mul, single_mul_of, single_of_i32,
    single_of_u32, single_rem, single_rem_of, single_sub, single_sub_of, single_to_i32,
    single_to_u32, u32_of_single,
};
use vstd::prelude::*;

verus! {

/// Reduces a mathematical integer into a 32-bit word, two's-complement
/// style (the ghost `%` is Euclidean, so the result is always in range).
pub open spec fn crop32(x: int) -> u32 {
    (x % 0x1_0000_0000) as u32
}

/// The signed value a 32-bit word stands for.
pub open spec fn signed32(w: u32) -> int {
    (w as i32) as int
}

/// Magnitude of a mathematical integer.
pub open spec fn iabs(x: int) -> int {
    if x < 0 {
        -x
    } else {
        x
    }
}

/// `1` for true and `0` for false, as the test opcodes push it.
pub open spec fn bool_word(b: bool) -> u32 {
    if b {
        1u32
    } else {
        0u32
    }
}

/// How the signed reading of a word relates to its unsigned value.
pub proof fn lemma_signed32(w: u32)
    ensures
        w <= 0x7fff_ffff ==> signed32(w) == w as int,
        w > 0x7fff_ffff ==> signed32(w) == w as int - 0x1_0000_0000,
        signed32(w) == 0 <==> w == 0,
        -0x8000_0000 <= signed32(w) <= 0x7fff_ffff,
{
    assert(w <= 0x7fff_ffff ==> (w as i32) as int == w as int) by (bit_vector);
    assert(w > 0x7fff_ffff ==> (w as i32) as int == w as int - 0x1_0000_0000) by (bit_vector);
}

/// Two's-complement addition.
pub open spec fn add32(a: u32, b: u32) -> u32 {
    crop32(b + a)
}

/// Two's-complement subtraction `b - a`.
pub open spec fn sub32(a: u32, b: u32) -> u32 {
    crop32(b - a)
}

/// Two's-complement multiplication.
pub open spec fn mul32(a: u32, b: u32) -> u32 {
    crop32(b * a)
}

/// Two's-complement negation.
pub open spec fn neg32(w: u32) -> u32 {
    crop32(-signed32(w))
}

/// Signed division `b / a`, truncating toward zero; the one overflowing
/// case (the minimum value divided by -1) wraps back to the minimum value.
pub open spec fn sdiv32(a: u32, b: u32) -> u32 {
    let q = iabs(signed32(b)) / iabs(signed32(a));
    if (signed32(b) < 0) != (signed32(a) < 0) {
        crop32(-q)
    } else {
        crop32(q)
    }
}

/// Signed remainder `b % a` with the sign of the dividend, as truncating
/// division leaves it.
pub open spec fn smod32(a: u32, b: u32) -> u32 {
    let m = iabs(signed32(b)) % iabs(signed32(a));
    if signed32(b) < 0 {
        crop32(-m)
    } else {
        crop32(m)
    }
}

/// Signed three-way comparison of `b` against `a`: one of 1, 0, or -1 (as
/// a word).
pub open spec fn scmp32(a: u32, b: u32) -> u32 {
    if signed32(b) > signed32(a) {
        1u32
    } else if signed32(a) > signed32(b) {
        crop32(-1)
    } else {
        0u32
    }
}

/// Unsigned three-way comparison of `b` against `a`.
pub open spec fn ucmp32(a: u32, b: u32) -> u32 {
    if b > a {
        1u32
    } else if a > b {
        crop32(-1)
    } else {
        0u32
    }
}

/// Logical left shift of `b` by the low byte of `a`; shifting by 32 or
/// more clears the word.
pub open spec fn shl32(a: u32, b: u32) -> u32 {
    let sh = a & 0xff;
    if sh >= 32 {
        0u32
    } else {
        b << sh
    }
}

/// Logical right shift of `b` by the low byte of `a`.
pub open spec fn shr32(a: u32, b: u32) -> u32 {
    let sh = a & 0xff;
    if sh >= 32 {
        0u32
    } else {
        b >> sh
    }
}

/// Arithmetic right shift of `b` by the low byte of `a`; shifting by 32 or
/// more fills the word with the sign bit.
pub open spec fn sar32(a: u32, b: u32) -> u32 {
    let sh = a & 0xff;
    if sh >= 32 {
        if signed32(b) < 0 {
            0xffff_ffffu32
        } else {
            0u32
        }
    } else {
        ((b as i32) >> sh) as u32
    }
}

/// The low byte of `a` written into the low byte of `b`.
pub open spec fn write_low8(a: u32, b: u32) -> u32 {
    (b & 0xffff_ff00) | (a & 0xff)
}

/// The low 16 bits of `a` written into the low 16 bits of `b`.
pub open spec fn write_low16(a: u32, b: u32) -> u32 {
    (b & 0xffff_0000) | (a & 0xffff)
}

/// The low byte sign-extended back to 32 bits.
pub open spec fn sext8(w: u32) -> u32 {
    (((w as u8) as i8) as i32) as u32
}

/// The low 16 bits sign-extended back to 32 bits.
pub open spec fn sext16(w: u32) -> u32 {
    (((w as u16) as i16) as i32) as u32
}

/// The low byte zero-extended back to 32 bits.
pub open spec fn zext8(w: u32) -> u32 {
    w & 0xff
}

/// The low 16 bits zero-extended back to 32 bits.
pub open spec fn zext16(w: u32) -> u32 {
    w & 0xffff
}

/// Two's-complement increment of a 16-bit value.
pub open spec fn inc16(h: u16) -> u16 {
    ((h + 1) % 0x1_0000) as u16
}

/// Two's-complement decrement of a 16-bit value.
pub open spec fn dec16(h: u16) -> u16 {
    (((h - 1) % 0x1_0000 + 0x1_0000) % 0x1_0000) as u16
}

/// Two's-complement increment of an 8-bit value.
pub open spec fn inc8(v: u8) -> u8 {
    ((v + 1) % 0x100) as u8
}

/// Two's-complement decrement of an 8-bit value.
pub open spec fn dec8(v: u8) -> u8 {
    (((v - 1) % 0x100 + 0x100) % 0x100) as u8
}

pub(crate) fn add32_exec(a: u32, b: u32) -> (r: u32)
    ensures
        r == add32(a, b),
{
    b.wrapping_add(a)
}

pub(crate) fn sub32_exec(a: u32, b: u32) -> (r: u32)
    ensures
        r == sub32(a, b),
{
    b.wrapping_sub(a)
}

pub(crate) fn mul32_exec(a: u32, b: u32) -> (r: u32)
    ensures
        r == mul32(a, b),
{
    proof {
        assert(((b as int * a as int) % 0x1_0000_0000) == ((b as nat * a as nat) % 0x1_0000_0000
            as nat)) by (nonlinear_arith);
    }
    b.wrapping_mul(a)
}

pub(crate) fn neg32_exec(w: u32) -> (r: u32)
    ensures
        r == neg32(w),
{
    proof {
        lemma_signed32(w);
    }
    0u32.wrapping_sub(w)
}

/// Magnitude of the signed value of `w`, as an unsigned word.
pub(crate) fn mag32(w: u32) -> (r: u32)
    ensures
        r == iabs(signed32(w)),
        r != 0 <==> w != 0,
{
    proof {
        lemma_signed32(w);
    }
    if (w as i32) < 0 {
        0u32.wrapping_sub(w)
    } else {
        w
    }
}

pub(crate) fn sdiv32_exec(a: u32, b: u32) -> (r: u32)
    requires
        a != 0,
    ensures
        r == sdiv32(a, b),
{
    proof {
        lemma_signed32(a);
        lemma_signed32(b);
    }
    let bm = mag32(b);
    let am = mag32(a);
    let q = bm / am;
    if ((b as i32) < 0) != ((a as i32) < 0) {
        0u32.wrapping_sub(q)
    } else {
        q
    }
}

pub(crate) fn smod32_exec(a: u32, b: u32) -> (r: u32)
    requires
        a != 0,
    ensures
        r == smod32(a, b),
{
    proof {
        lemma_signed32(a);
        lemma_signed32(b);
    }
    let bm = mag32(b);
    let am = mag32(a);
    let m = bm % am;
    if (b as i32) < 0 {
        0u32.wrapping_sub(m)
    } else {
        m
    }
}

pub(crate) fn scmp32_exec(a: u32, b: u32) -> (r: u32)
    ensures
        r == scmp32(a, b),
{
    if (b as i32) > (a as i32) {
        1
    } else if (a as i32) > (b as i32) {
        0xffff_ffff
    } else {
        0
    }
}

pub(crate) fn ucmp32_exec(a: u32, b: u32) -> (r: u32)
    ensures
        r == ucmp32(a, b),
{
    if b > a {
        1
    } else if a > b {
        0xffff_ffff
    } else {
        0
    }
}

pub(crate) fn shl32_exec(a: u32, b: u32) -> (r: u32)
    ensures
        r == shl32(a, b),
{
    let sh = a & 0xff;
    if sh >= 32 {
        0
    } else {
        b << sh
    }
}

pub(crate) fn shr32_exec(a: u32, b: u32) -> (r: u32)
    ensures
        r == shr32(a, b),
{
    let sh = a & 0xff;
    if sh >= 32 {
        0
    } else {
        b >> sh
    }
}

pub(crate) fn sar32_exec(a: u32, b: u32) -> (r: u32)
    ensures
        r == sar32(a, b),
{
    let sh = a & 0xff;
    if sh >= 32 {
        if (b as i32) < 0 {
            0xffff_ffff
        } else {
            0
        }
    } else {
        ((b as i32) >> sh) as u32
    }
}

/// Single-precision three-way comparison of `b` against `a` under the IEEE
/// ordering: 1, -1, or (also whenever an operand is a not-a-number value) 0.
pub open spec fn fcmp32(a: u32, b: u32) -> u32 {
    if single_gt(b, a) {
        1u32
    } else if single_gt(a, b) {
        crop32(-1)
    } else {
        0u32
    }
}

/// Double-precision three-way comparison of `b` against `a`.
pub open spec fn fcmp64(a: u64, b: u64) -> u32 {
    if double_gt(b, a) {
        1u32
    } else if double_gt(a, b) {
        crop32(-1)
    } else {
        0u32
    }
}

/// IEEE negation of a single-precision pattern: the sign bit flips.
pub open spec fn fneg32(w: u32) -> u32 {
    w ^ 0x8000_0000
}

/// IEEE negation of a double-precision pattern: the sign bit flips.
pub open spec fn fneg64(w: u64) -> u64 {
    w ^ 0x8000_0000_0000_0000
}

/// The in-place opcodes on one 4-byte stack slot: zero/sign tests, bitwise
/// complement, narrowing, int/float conversions, negation, and the
/// immediate arithmetic and comparison forms (the immediate is decoded out
/// of the instruction stream).
#[derive(Clone, Copy, Debug, PartialEq, Eq, Structural)]
pub enum UnaryOp32 {
    Tz,
    Tnz,
    TsLtz,
    TnsGez,
    TpGtz,
    TnpLez,
    Bnot,
    Sb,
    Sw,
    Ub,
    Uw,
    NegI32,
    NegF32,
    I2f,
    F2i,
    Ui2f,
    F2ui,
    CmpiI32(i32),
    CmpiU32(u32),
    CmpiF32(u32),
    AddiI32(i32),
    SubiI32(i32),
    MuliI32(i32),
    AddiF32(u32),
    SubiF32(u32),
    MuliF32(u32),
}

/// What each in-place opcode leaves in the slot that held `w`.
pub open spec fn apply_unary32(op: UnaryOp32, w: u32) -> u32 {
    match op {
        UnaryOp32::Tz => bool_word(signed32(w) == 0),
        UnaryOp32::Tnz => bool_word(signed32(w) != 0),
        UnaryOp32::TsLtz => bool_word(signed32(w) < 0),
        UnaryOp32::TnsGez => bool_word(signed32(w) >= 0),
        UnaryOp32::TpGtz => bool_word(signed32(w) > 0),
        UnaryOp32::TnpLez => bool_word(signed32(w) <= 0),
        UnaryOp32::Bnot => !w,
        UnaryOp32::Sb => sext8(w),
        UnaryOp32::Sw => sext16(w),
        UnaryOp32::Ub => zext8(w),
        UnaryOp32::Uw => zext16(w),
        UnaryOp32::NegI32 => neg32(w),
        UnaryOp32::NegF32 => fneg32(w),
        UnaryOp32::I2f => single_of_i32(w as i32),
        UnaryOp32::F2i => i32_of_single(w) as u32,
        UnaryOp32::Ui2f => single_of_u32(w),
        UnaryOp32::F2ui => u32_of_single(w),
        UnaryOp32::CmpiI32(rhs) => scmp32(w, rhs as u32),
        UnaryOp32::CmpiU32(rhs) => ucmp32(w, rhs),
        UnaryOp32::CmpiF32(rhs) => fcmp32(w, rhs),
        UnaryOp32::AddiI32(rhs) => add32(rhs as u32, w),
        UnaryOp32::SubiI32(rhs) => sub32(rhs as u32, w),
        UnaryOp32::MuliI32(rhs) => mul32(rhs as u32, w),
        UnaryOp32::AddiF32(rhs) => single_add_of(w, rhs),
        UnaryOp32::SubiF32(rhs) => single_sub_of(w, rhs),
        UnaryOp32::MuliF32(rhs) => single_mul_of(w, rhs),
    }
}

pub(crate) fn eval_unary32(op: UnaryOp32, w: u32) -> (r: u32)
    ensures
        r == apply_unary32(op, w),
{
    match op {
        UnaryOp32::Tz => if (w as i32) == 0 {
            1
        } else {
            0
        },
        UnaryOp32::Tnz => if (w as i32) != 0 {
            1
        } else {
            0
        },
        UnaryOp32::TsLtz => if (w as i32) < 0 {
            1
        } else {
            0
        },
        UnaryOp32::TnsGez => if (w as i32) >= 0 {
            1
        } else {
            0
        },
        UnaryOp32::TpGtz => if (w as i32) > 0 {
            1
        } else {
            0
        },
        UnaryOp32::TnpLez => if (w as i32) <= 0 {
            1
        } else {
            0
        },
        UnaryOp32::Bnot => !w,
        UnaryOp32::Sb => (((w as u8) as i8) as i32) as u32,
        UnaryOp32::Sw => (((w as u16) as i16) as i32) as u32,
        UnaryOp32::Ub => w & 0xff,
        UnaryOp32::Uw => w & 0xffff,
        UnaryOp32::NegI32 => neg32_exec(w),
        UnaryOp32::NegF32 => w ^ 0x8000_0000,
        UnaryOp32::I2f => single_from_i32(w as i32),
        UnaryOp32::F2i => single_to_i32(w) as u32,
        UnaryOp32::Ui2f => single_from_u32(w),
        UnaryOp32::F2ui => single_to_u32(w),
        UnaryOp32::CmpiI32(rhs) => scmp32_exec(w, rhs as u32),
        UnaryOp32::CmpiU32(rhs) => ucmp32_exec(w, rhs),
        UnaryOp32::CmpiF32(rhs) => fcmp32_exec(w, rhs),
        UnaryOp32::AddiI32(rhs) => add32_exec(rhs as u32, w),
        UnaryOp32::SubiI32(rhs) => sub32_exec(rhs as u32, w),
        UnaryOp32::MuliI32(rhs) => mul32_exec(rhs as u32, w),
        UnaryOp32::AddiF32(rhs) => single_add(w, rhs),
        UnaryOp32::SubiF32(rhs) => single_sub(w, rhs),
        UnaryOp32::MuliF32(rhs) => single_mul(w, rhs),
    }
}

pub(crate) fn fcmp32_exec(a: u32, b: u32) -> (r: u32)
    ensures
        r == fcmp32(a, b),
{
    if single_gt_exec(b, a) {
        1
    } else if single_gt_exec(a, b) {
        0xffff_ffff
    } else {
        0
    }
}

pub(crate) fn fcmp64_exec(a: u64, b: u64) -> (r: u32)
    ensures
        r == fcmp64(a, b),
{
    if double_gt_exec(b, a) {
        1
    } else if double_gt_exec(a, b) {
        0xffff_ffff
    } else {
        0
    }
}

/// The two-operand opcodes on 4-byte stack slots; `a` is the first popped
/// operand and `b` the second, and the result `b OP a` takes `b`'s slot.
#[derive(Clone, Copy, Debug, PartialEq, Eq, Structural)]
pub enum BinaryOp32 {
    AddI32,
    SubI32,
    MulI32,
    DivI32,
    ModI32,
    CmpI32,
    CmpU32,
    Band,
    Bor,
    Bxor,
    Bsll,
    Bsrl,
    Bsra,
    Wrt1,
    Wrt2,
    AddF32,
    SubF32,
    MulF32,
    DivF32,
    ModF32,
    CmpF32,
}

/// Whether the opcode is a division or modulo whose popped divisor `a` is
/// zero — the fatal case.
pub open spec fn binop32_div_by_zero(op: BinaryOp32, a: u32) -> bool {
    match op {
        BinaryOp32::DivI32 => a == 0,
        BinaryOp32::ModI32 => a == 0,
        BinaryOp32::DivF32 => single_is_zero(a),
        BinaryOp32::ModF32 => single_is_zero(a),
        _ => false,
    }
}

pub(crate) fn binop32_div_check(op: BinaryOp32, a: u32) -> (r: bool)
    ensures
        r == binop32_div_by_zero(op, a),
{
    match op {
        BinaryOp32::DivI32 | BinaryOp32::ModI32 => a == 0,
        BinaryOp32::DivF32 | BinaryOp32::ModF32 => a & 0x7fff_ffff == 0,
        _ => false,
    }
}

/// The word each two-operand opcode pushes, given a nonzero divisor where
/// one is required.
pub open spec fn apply_binary32(op: BinaryOp32, a: u32, b: u32) -> u32 {
    match op {
        BinaryOp32::AddI32 => add32(a, b),
        BinaryOp32::SubI32 => sub32(a, b),
        BinaryOp32::MulI32 => mul32(a, b),
        BinaryOp32::DivI32 => sdiv32(a, b),
        BinaryOp32::ModI32 => smod32(a, b),
        BinaryOp32::CmpI32 => scmp32(a, b),
        BinaryOp32::CmpU32 => ucmp32(a, b),
        BinaryOp32::Band => b & a,
        BinaryOp32::Bor => b | a,
        BinaryOp32::Bxor => b ^ a,
        BinaryOp32::Bsll => shl32(a, b),
        BinaryOp32::Bsrl => shr32(a, b),
        BinaryOp32::Bsra => sar32(a, b),
        BinaryOp32::Wrt1 => write_low8(a, b),
        BinaryOp32::Wrt2 => write_low16(a, b),
        BinaryOp32::AddF32 => single_add_of(b, a),
        BinaryOp32::SubF32 => single_sub_of(b, a),
        BinaryOp32::MulF32 => single_mul_of(b, a),
        BinaryOp32::DivF32 => single_div_of(b, a),
        BinaryOp32::ModF32 => single_rem_of(b, a),
        BinaryOp32::CmpF32 => fcmp32(a, b),
    }
}

pub(crate) fn eval_binary32(op: BinaryOp32, a: u32, b: u32) -> (r: u32)
    requires
        !binop32_div_by_zero(op, a),
    ensures
        r == apply_binary32(op, a, b),
{
    match op {
        BinaryOp32::AddI32 => add32_exec(a, b),
        BinaryOp32::SubI32 => sub32_exec(a, b),
        BinaryOp32::MulI32 => mul32_exec(a, b),
        BinaryOp32::DivI32 => sdiv32_exec(a, b),
        BinaryOp32::ModI32 => smod32_exec(a, b),
        BinaryOp32::CmpI32 => scmp32_exec(a, b),
        BinaryOp32::CmpU32 => ucmp32_exec(a, b),
        BinaryOp32::Band => b & a,
        BinaryOp32::Bor => b | a,
        BinaryOp32::Bxor => b ^ a,
        BinaryOp32::Bsll => shl32_exec(a, b),
        BinaryOp32::Bsrl => shr32_exec(a, b),
        BinaryOp32::Bsra => sar32_exec(a, b),
        BinaryOp32::Wrt1 => (b & 0xffff_ff00) | (a & 0xff),
        BinaryOp32::Wrt2 => (b & 0xffff_0000) | (a & 0xffff),
        BinaryOp32::AddF32 => single_add(b, a),
        BinaryOp32::SubF32 => single_sub(b, a),
        BinaryOp32::MulF32 => single_mul(b, a),
        BinaryOp32::DivF32 => single_div(b, a),
        BinaryOp32::ModF32 => single_rem(b, a),
        BinaryOp32::CmpF32 => fcmp32_exec(a, b),
    }
}

/// The two-operand opcodes on 8-byte (double-precision) stack slots.
#[derive(Clone, Copy, Debug, PartialEq, Eq, Structural)]
pub enum BinaryOp64 {
    AddF64,
    SubF64,
    MulF64,
    DivF64,
    ModF64,
}

/// Whether the opcode is a division or modulo whose popped divisor `a` is
/// zero — the fatal case.
pub open spec fn binop64_div_by_zero(op: BinaryOp64, a: u64) -> bool {
    match op {
        BinaryOp64::DivF64 => double_is_zero(a),
        BinaryOp64::ModF64 => double_is_zero(a),
        _ => false,
    }
}

pub(crate) fn binop64_div_check(op: BinaryOp64, a: u64) -> (r: bool)
    ensures
        r == binop64_div_by_zero(op, a),
{
    match op {
        BinaryOp64::DivF64 | BinaryOp64::ModF64 => a & 0x7fff_ffff_ffff_ffff == 0,
        _ => false,
    }
}

/// The doubleword each two-operand double-precision opcode pushes.
pub open spec fn apply_binary64(op: BinaryOp64, a: u64, b: u64) -> u64 {
    match op {
        BinaryOp64::AddF64 => double_add_of(b, a),
        BinaryOp64::SubF64 => double_sub_of(b, a),
        BinaryOp64::MulF64 => double_mul_of(b, a),
        BinaryOp64::DivF64 => double_div_of(b, a),
        BinaryOp64::ModF64 => double_rem_of(b, a),
    }
}

pub(crate) fn eval_binary64(op: BinaryOp64, a: u64, b: u64) -> (r: u64)
    ensures
        r == apply_binary64(op, a, b),
{
    match op {
        BinaryOp64::AddF64 => double_add(b, a),
        BinaryOp64::SubF64 => double_sub(b, a),
        BinaryOp64::MulF64 => double_mul(b, a),
        BinaryOp64::DivF64 => double_div(b, a),
        BinaryOp64::ModF64 => double_rem(b, a),
    }
}

} // verus!
