//! The interpreter's general laws, stated over the same model its
//! contracts use and proved once and for all.

use crate::ops::{
    add32, crop32, fcmp32, fcmp64, lemma_signed32, mul32, scmp32, signed32, sub32, ucmp32,
};
use crate::vm::{
    dword_at, lemma_store_dword, lemma_store_word, store_dword, store_word, word_at,
    ScriptFunctionContext,
};
use vstd::prelude::*;

verus! {

/// Pushing a 4-byte value and popping it is the identity: `stack_push`
/// leaves `store_word(s, sp - 4, v)` with the pointer at `sp - 4`, and
/// `stack_pop` there returns exactly `word_at` of that position — the
/// value just pushed — while every byte outside the pushed slot keeps its
/// contents, so earlier pushes are returned by later pops in reverse
/// order.
pub proof fn lemma_stack_lifo32(s: Seq<u8>, sp: int, v: u32)
    requires
        4 <= sp <= s.len(),
    ensures
        word_at(store_word(s, sp - 4, v), sp - 4) == v,
        forall|i: int|
            0 <= i < s.len() && !(sp - 4 <= i < sp) ==> store_word(s, sp - 4, v)[i] == s[i],
{
    lemma_store_word(s, sp - 4, v);
}

/// The 8-byte analogue of the push/pop identity, for the wide stack
/// helpers.
pub proof fn lemma_stack_lifo64(s: Seq<u8>, sp: int, v: u64)
    requires
        8 <= sp <= s.len(),
    ensures
        dword_at(store_dword(s, sp - 8, v), sp - 8) == v,
        forall|i: int|
            0 <= i < s.len() && !(sp - 8 <= i < sp) ==> store_dword(s, sp - 8, v)[i] == s[i],
{
    lemma_store_dword(s, sp - 8, v);
}

/// `call` followed by `ret` restores the caller exactly: the `call` opcode
/// pushes the caller's frame (module, function and program counter), and
/// `ret`'s contract takes the last saved frame back as the active one and
/// leaves the earlier frames untouched — while the frame pointer never
/// moves and `ret` removes exactly its `param_size` bytes from the stack.
pub proof fn lemma_call_ret_restores(
    frames: Seq<ScriptFunctionContext>,
    caller: ScriptFunctionContext,
)
    ensures
        frames.push(caller).last() == caller,
        frames.push(caller).drop_last() == frames,
{
    assert(frames.push(caller).drop_last() =~= frames);
}

/// The explicit comparison opcodes answer exactly one of 1, 0, or -1 (as
/// a two's-complement word), never anything else, at every width and
/// signedness.
pub proof fn lemma_cmp_three_valued(a32: u32, b32: u32, a64: u64, b64: u64)
    ensures
        scmp32(a32, b32) == 1 || scmp32(a32, b32) == 0 || scmp32(a32, b32) == crop32(-1),
        ucmp32(a32, b32) == 1 || ucmp32(a32, b32) == 0 || ucmp32(a32, b32) == crop32(-1),
        fcmp32(a32, b32) == 1 || fcmp32(a32, b32) == 0 || fcmp32(a32, b32) == crop32(-1),
        fcmp64(a64, b64) == 1 || fcmp64(a64, b64) == 0 || fcmp64(a64, b64) == crop32(-1),
        crop32(-1) == 0xffff_ffffu32,
{
}

/// The integer add and subtract opcodes agree with two's-complement
/// arithmetic: read back as signed values, the result differs from the
/// mathematical sum or difference by a multiple of 2^32.
pub proof fn lemma_addsub32_twos_complement(a: u32, b: u32)
    ensures
        (signed32(add32(a, b)) - (signed32(b) + signed32(a))) % 0x1_0000_0000 == 0,
        (signed32(sub32(a, b)) - (signed32(b) - signed32(a))) % 0x1_0000_0000 == 0,
{
    lemma_signed32(a);
    lemma_signed32(b);
    lemma_signed32(add32(a, b));
    lemma_signed32(sub32(a, b));
}

/// The integer multiply opcode agrees with two's-complement arithmetic:
/// read back as a signed value, the result differs from the mathematical
/// product by a multiple of 2^32.
pub proof fn lemma_mul32_twos_complement(a: u32, b: u32)
    ensures
        (signed32(mul32(a, b)) - signed32(b) * signed32(a)) % 0x1_0000_0000 == 0,
{
    lemma_signed32(a);
    lemma_signed32(b);
    lemma_signed32(mul32(a, b));
    let m: int = 0x1_0000_0000;
    let ka: int = if a > 0x7fff_ffff {
        1
    } else {
        0
    };
    let kb: int = if b > 0x7fff_ffff {
        1
    } else {
        0
    };
    assert(signed32(b) * signed32(a) == b * a - (kb * a + ka * b) * m + ka * kb * m * m)
        by (nonlinear_arith)
        requires
            signed32(a) == a - ka * m,
            signed32(b) == b - kb * m,
            m == 0x1_0000_0000,
    ;
    assert((mul32(a, b) - b * a) % m == 0) by {
        vstd::arithmetic::div_mod::lemma_sub_mod_noop(b * a, mul32(a, b) as int, m);
        vstd::arithmetic::div_mod::lemma_mod_self_0(m);
        vstd::arithmetic::div_mod::lemma_small_mod(0nat, m as nat);
        assert(mul32(a, b) == (b * a) % m);
        vstd::arithmetic::div_mod::lemma_mod_twice(b * a, m);
    }
    let d1: int = signed32(mul32(a, b)) - mul32(a, b) as int;
    let d2: int = b * a - signed32(b) * signed32(a);
    assert(d1 % m == 0);
    assert(d2 == ((kb * a + ka * b) - ka * kb * m) * m) by (nonlinear_arith)
        requires
            signed32(b) * signed32(a) == b * a - (kb * a + ka * b) * m + ka * kb * m * m,
            d2 == b * a - signed32(b) * signed32(a),
    ;
    assert(d2 % m == 0) by (nonlinear_arith)
        requires
            d2 == ((kb * a + ka * b) - ka * kb * m) * m,
            m == 0x1_0000_0000,
    ;
    let total: int = signed32(mul32(a, b)) - signed32(b) * signed32(a);
    assert(total == d1 + (mul32(a, b) - b * a) + d2);
    vstd::arithmetic::div_mod::lemma_add_mod_noop(d1 + (mul32(a, b) - b * a), d2, m);
    vstd::arithmetic::div_mod::lemma_add_mod_noop(d1, mul32(a, b) - b * a, m);
    vstd::arithmetic::div_mod::lemma_mod_twice(total, m);
}

/// A global-slot write through the engine-wide table is what any
/// interpreter sharing that table reads back: the written slot holds the
/// new value and every other slot is untouched. (The module-local table
/// of one interpreter's module is a different store entirely, which the
/// write never reaches.)
pub proof fn lemma_engine_globals_shared(globals: Seq<u32>, i: int, v: u32)
    requires
        0 <= i < globals.len(),
    ensures
        globals.update(i, v)[i] == v,
        forall|j: int| 0 <= j < globals.len() && j != i ==> globals.update(i, v)[j] == globals[j],
{
}

} // verus!
