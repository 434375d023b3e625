//! The interpreter core: an execution stack of raw bytes addressed by a
//! stack pointer that grows toward lower addresses, a frame pointer, two
//! 32-bit scratch registers that carry return values across `ret`, an
//! object register, a call stack of saved frames, an object heap, and a
//! queue of pending native continuations.

use crate::global_context::{
    classify_poll, GlobalFunctionState, ScriptGlobalContext, ScriptNative,
};
use crate::module::{
    read_arg_i16, read_arg_i32, read_arg_u16, read_arg_u32, read_arg_u64, str_eq, ScriptFunction,
    ScriptModule,
};
use crate::VmError;
use vstd::utf8::encode_utf8;
use vstd::bytes::{
    lemma_auto_spec_u32_to_from_le_bytes, lemma_auto_spec_u64_to_from_le_bytes, spec_u16_from_le_bytes, spec_u16_to_le_bytes,
    spec_u32_from_le_bytes, spec_u32_to_le_bytes, spec_u64_from_le_bytes, spec_u64_to_le_bytes,
    u16_from_le_bytes, u16_to_le_bytes, u32_from_le_bytes, u32_to_le_bytes, u64_from_le_bytes,
    u64_to_le_bytes,
};
use vstd::prelude::*;
use vstd::slice::slice_subrange;

verus! {

/// Size in bytes of the fixed execution stack.
pub const STACK_SIZE: usize = 1024;

/// The 32-bit word stored little-endian at byte offset `pos` of `s`.
pub open spec fn word_at(s: Seq<u8>, pos: int) -> u32 {
    spec_u32_from_le_bytes(s.subrange(pos, pos + 4))
}

/// The 64-bit word stored little-endian at byte offset `pos` of `s`.
pub open spec fn dword_at(s: Seq<u8>, pos: int) -> u64 {
    spec_u64_from_le_bytes(s.subrange(pos, pos + 8))
}

/// `s` with the 32-bit word `v` stored little-endian at byte offset `pos`.
pub open spec fn store_word(s: Seq<u8>, pos: int, v: u32) -> Seq<u8> {
    let le = spec_u32_to_le_bytes(v);
    s.update(pos, le[0]).update(pos + 1, le[1]).update(pos + 2, le[2]).update(pos + 3, le[3])
}

/// `s` with the 64-bit word `v` stored little-endian at byte offset `pos`.
pub open spec fn store_dword(s: Seq<u8>, pos: int, v: u64) -> Seq<u8> {
    let le = spec_u64_to_le_bytes(v);
    s.update(pos, le[0]).update(pos + 1, le[1]).update(pos + 2, le[2]).update(
        pos + 3,
        le[3],
    ).update(pos + 4, le[4]).update(pos + 5, le[5]).update(pos + 6, le[6]).update(pos + 7, le[7])
}

/// Storing a 32-bit word and reading it back at the same offset returns the
/// word; bytes outside the stored range are untouched.
pub proof fn lemma_store_word(s: Seq<u8>, pos: int, v: u32)
    requires
        0 <= pos,
        pos + 4 <= s.len(),
    ensures
        store_word(s, pos, v).len() == s.len(),
        word_at(store_word(s, pos, v), pos) == v,
        forall|i: int|
            0 <= i < s.len() && !(pos <= i < pos + 4) ==> store_word(s, pos, v)[i] == s[i],
{
    lemma_auto_spec_u32_to_from_le_bytes();
    assert(store_word(s, pos, v).subrange(pos, pos + 4) =~= spec_u32_to_le_bytes(v));
}

/// Storing a 64-bit word and reading it back at the same offset returns the
/// word; bytes outside the stored range are untouched.
pub proof fn lemma_store_dword(s: Seq<u8>, pos: int, v: u64)
    requires
        0 <= pos,
        pos + 8 <= s.len(),
    ensures
        store_dword(s, pos, v).len() == s.len(),
        dword_at(store_dword(s, pos, v), pos) == v,
        forall|i: int|
            0 <= i < s.len() && !(pos <= i < pos + 8) ==> store_dword(s, pos, v)[i] == s[i],
{
    lemma_auto_spec_u64_to_from_le_bytes();
    assert(store_dword(s, pos, v).subrange(pos, pos + 8) =~= spec_u64_to_le_bytes(v));
}

/// The 16-bit value stored little-endian at byte offset `pos` of `s`.
pub open spec fn half_at(s: Seq<u8>, pos: int) -> u16 {
    spec_u16_from_le_bytes(s.subrange(pos, pos + 2))
}

/// `s` with the 16-bit value `v` stored little-endian at byte offset `pos`.
pub open spec fn store_half(s: Seq<u8>, pos: int, v: u16) -> Seq<u8> {
    let le = spec_u16_to_le_bytes(v);
    s.update(pos, le[0]).update(pos + 1, le[1])
}

/// Storing back the word just read leaves the bytes unchanged.
pub proof fn lemma_store_word_noop(s: Seq<u8>, pos: int)
    requires
        0 <= pos,
        pos + 4 <= s.len(),
    ensures
        store_word(s, pos, word_at(s, pos)) == s,
{
    lemma_auto_spec_u32_to_from_le_bytes();
    assert(spec_u32_to_le_bytes(spec_u32_from_le_bytes(s.subrange(pos, pos + 4))) == s.subrange(
        pos,
        pos + 4,
    ));
    assert(store_word(s, pos, word_at(s, pos)) =~= s);
}

/// The program counter moved by a signed byte offset, when the result
/// stays in the range the interpreter accepts.
pub(crate) fn checked_new_pc(pc: usize, delta: i64) -> (r: Result<usize, VmError>)
    requires
        -0x1_0000_0000_0000 <= delta <= 0x1_0000_0000_0000,
    ensures
        r is Ok <==> pc <= 0xffff_ffff && 0 <= pc + delta <= 0xffff_ffff,
        r matches Ok(v) ==> v == pc + delta,
        r is Err ==> r == Err::<usize, VmError>(VmError::CodeOutOfBounds),
{
    if pc > 0xffff_ffff {
        return Err(VmError::CodeOutOfBounds);
    }
    let n: i64 = pc as i64 + delta;
    if n < 0 || n > 0xffff_ffff {
        return Err(VmError::CodeOutOfBounds);
    }
    Ok(n as usize)
}

/// One in-progress function activation: the owning module (by index into the
/// interpreter's module registry), the active function within it, and the
/// program counter as a byte offset into that function's instructions.
#[derive(Clone, Copy, Debug, PartialEq, Eq, Structural)]
pub struct ScriptFunctionContext {
    pub module_id: usize,
    pub function_index: usize,
    pub pc: usize,
}

impl ScriptFunctionContext {
    pub fn new(module_id: usize, function_index: usize) -> (r: Self)
        ensures
            r == (ScriptFunctionContext { module_id, function_index, pc: 0 }),
    {
        Self { module_id, function_index, pc: 0 }
    }
}

/// The interpreter. `A` is an opaque application-context payload carried for
/// the host's native functions; `F` is the host's native-function type (see
/// `crate::global_context::ScriptNative`), values of which also serve as the
/// queued continuations of yielded native calls.
pub struct ScriptVm<A, F> {
    pub(crate) app_context: A,
    pub(crate) context: Option<ScriptFunctionContext>,
    pub(crate) call_stack: Vec<ScriptFunctionContext>,
    pub(crate) modules: Vec<ScriptModule>,
    pub(crate) heap: Vec<Option<String>>,
    pub(crate) robj: usize,
    pub(crate) stack: Vec<u8>,
    pub(crate) sp: usize,
    pub(crate) fp: usize,
    pub(crate) r1: u32,
    pub(crate) r2: u32,
    pub(crate) yield_func: Vec<F>,
    pub(crate) imm: bool,
    pub(crate) unimpl_calls: u64,
}

impl<A, F> ScriptVm<A, F> {
    /// The bytes of the execution stack.
    pub closed spec fn mem(self) -> Seq<u8> {
        self.stack@
    }

    /// The stack pointer: byte offset of the most recently pushed value.
    pub closed spec fn sp(self) -> int {
        self.sp as int
    }

    /// The frame pointer.
    pub closed spec fn fp(self) -> int {
        self.fp as int
    }

    /// First scratch register.
    pub closed spec fn reg1(self) -> u32 {
        self.r1
    }

    /// Second scratch register.
    pub closed spec fn reg2(self) -> u32 {
        self.r2
    }

    /// The object register: heap index of the most recent allocation result.
    pub closed spec fn reg_obj(self) -> int {
        self.robj as int
    }

    /// The active frame, if the script has not finished.
    pub closed spec fn cur(self) -> Option<ScriptFunctionContext> {
        self.context
    }

    /// The call stack of saved frames, innermost last.
    pub closed spec fn frames(self) -> Seq<ScriptFunctionContext> {
        self.call_stack@
    }

    /// The registry of loaded modules that frames refer to by index.
    pub closed spec fn mods(self) -> Seq<ScriptModule> {
        self.modules@
    }

    /// The object heap: a slot is `None` when free.
    pub closed spec fn heap_view(self) -> Seq<Option<String>> {
        self.heap@
    }

    /// The application-context payload.
    pub closed spec fn app(self) -> A {
        self.app_context
    }

    /// The queued continuations of yielded native calls.
    pub closed spec fn conts(self) -> Seq<F> {
        self.yield_func@
    }

    /// The immediate-mode flag.
    pub closed spec fn imm_flag(self) -> bool {
        self.imm
    }

    /// How many not-implemented native-catalog entries have been called.
    pub closed spec fn unimpl_count(self) -> int {
        self.unimpl_calls as int
    }

    /// Well-formedness: the stack buffer has its fixed size and the stack
    /// and frame pointers lie within it. (Frames refer to modules by index
    /// into a registry that only ever grows, and the dispatcher still
    /// bounds-checks every module access, so frame validity is not part of
    /// this invariant.)
    pub open spec fn wf(self) -> bool {
        &&& self.mem().len() == STACK_SIZE
        &&& 0 <= self.sp() <= STACK_SIZE
        &&& self.fp() == STACK_SIZE
    }

    /// The control state (active frame, call stack, module registry) of `a`
    /// and `b` is the same.
    pub open spec fn ctrl_eq(a: Self, b: Self) -> bool {
        &&& a.cur() == b.cur()
        &&& a.frames() == b.frames()
        &&& a.mods() == b.mods()
    }

    /// The object state (heap, object register) of `a` and `b` is the same.
    pub open spec fn objs_eq(a: Self, b: Self) -> bool {
        &&& a.heap_view() == b.heap_view()
        &&& a.reg_obj() == b.reg_obj()
    }

    /// The scratch registers of `a` and `b` are the same.
    pub open spec fn regs_eq(a: Self, b: Self) -> bool {
        &&& a.reg1() == b.reg1()
        &&& a.reg2() == b.reg2()
    }

    /// The stack bytes and stack pointer of `a` and `b` are the same.
    pub open spec fn stack_eq(a: Self, b: Self) -> bool {
        &&& a.mem() == b.mem()
        &&& a.sp() == b.sp()
    }

    /// The remaining state (application context, continuation queue,
    /// immediate flag, frame pointer, not-implemented counter) of `a` and
    /// `b` is the same.
    pub open spec fn misc_eq(a: Self, b: Self) -> bool {
        &&& a.app() == b.app()
        &&& a.conts() == b.conts()
        &&& a.imm_flag() == b.imm_flag()
        &&& a.fp() == b.fp()
        &&& a.unimpl_count() == b.unimpl_count()
    }

    /// `post`'s module registry extends `pre`'s: no registered module is
    /// dropped, and no already-registered module's function table or
    /// string table is ever touched (only module-local global slots may
    /// change, and new modules may be appended).
    pub open spec fn modules_extended(pre: Self, post: Self) -> bool {
        &&& post.mods().len() >= pre.mods().len()
        &&& forall|i: int|
            0 <= i < pre.mods().len() ==> (#[trigger] post.mods()[i]).functions
                == pre.mods()[i].functions && post.mods()[i].strings == pre.mods()[i].strings
    }

    /// Registry extension is transitive.
    pub proof fn lemma_modules_extended_trans(a: Self, b: Self, c: Self)
        requires
            Self::modules_extended(a, b),
            Self::modules_extended(b, c),
        ensures
            Self::modules_extended(a, c),
    {
        assert forall|i: int|
            0 <= i < a.mods().len() implies (#[trigger] c.mods()[i]).functions
                == a.mods()[i].functions && c.mods()[i].strings == a.mods()[i].strings by {
            assert(b.mods()[i].functions == a.mods()[i].functions);
            assert(b.mods()[i].strings == a.mods()[i].strings);
        }
    }

    /// Creates an interpreter whose single registered module is `module`,
    /// positioned at the start of the function with the given index.
    pub fn new(module: ScriptModule, function_index: usize, app_context: A) -> (r: Self)
        ensures
            r.wf(),
            r.cur() == Some(ScriptFunctionContext { module_id: 0, function_index, pc: 0 }),
            r.frames().len() == 0,
            r.mods().len() == 1,
            r.mods()[0] == module,
            r.heap_view().len() == 0,
            r.mem().len() == STACK_SIZE,
            r.sp() == STACK_SIZE,
            r.fp() == STACK_SIZE,
            r.reg1() == 0,
            r.reg2() == 0,
            r.reg_obj() == 0,
            r.conts().len() == 0,
            r.imm_flag(),
            r.app() == app_context,
            r.unimpl_count() == 0,
            forall|i: int| 0 <= i < STACK_SIZE ==> r.mem()[i] == 0,
    {
        let mut modules: Vec<ScriptModule> = Vec::new();
        modules.push(module);
        Self {
            app_context,
            context: Some(ScriptFunctionContext::new(0, function_index)),
            call_stack: Vec::new(),
            modules,
            heap: Vec::new(),
            robj: 0,
            stack: vec![0u8; STACK_SIZE],
            sp: STACK_SIZE,
            fp: STACK_SIZE,
            r1: 0,
            r2: 0,
            yield_func: Vec::new(),
            imm: true,
            unimpl_calls: 0,
        }
    }

    /// Shared access to the application context.
    pub fn app_context(&self) -> (r: &A)
        ensures
            *r == self.app(),
    {
        &self.app_context
    }

    /// Exclusive access to the application context.
    pub fn app_context_mut(&mut self) -> (r: &mut A)
        ensures
            *r == old(self).app(),
            final(self).app() == *final(r),
            final(self).wf() == old(self).wf(),
            Self::ctrl_eq(*final(self), *old(self)),
            Self::objs_eq(*final(self), *old(self)),
            Self::regs_eq(*final(self), *old(self)),
            Self::stack_eq(*final(self), *old(self)),
            final(self).conts() == old(self).conts(),
            final(self).imm_flag() == old(self).imm_flag(),
            final(self).fp() == old(self).fp(),
    {
        &mut self.app_context
    }

    /// Reads the 32-bit word at byte offset `pos` of the stack.
    pub(crate) fn read_stack_word(&self, pos: usize) -> (r: u32)
        requires
            self.stack@.len() == STACK_SIZE,
            pos + 4 <= self.stack@.len(),
        ensures
            r == word_at(self.stack@, pos as int),
    {
        let bytes = slice_subrange(self.stack.as_slice(), pos, pos + 4);
        u32_from_le_bytes(bytes)
    }

    /// Reads the 64-bit word at byte offset `pos` of the stack.
    pub(crate) fn read_stack_dword(&self, pos: usize) -> (r: u64)
        requires
            self.stack@.len() == STACK_SIZE,
            pos + 8 <= self.stack@.len(),
        ensures
            r == dword_at(self.stack@, pos as int),
    {
        let bytes = slice_subrange(self.stack.as_slice(), pos, pos + 8);
        u64_from_le_bytes(bytes)
    }

    /// Writes the 32-bit word `v` at byte offset `pos` of the stack.
    pub(crate) fn write_stack_word(&mut self, pos: usize, v: u32)
        requires
            old(self).stack@.len() == STACK_SIZE,
            pos + 4 <= old(self).stack@.len(),
        ensures
            final(self).stack@ == store_word(old(self).stack@, pos as int, v),
            *final(self) == (ScriptVm { stack: final(self).stack, ..*old(self) }),
    {
        let bytes = u32_to_le_bytes(v);
        self.stack.set(pos, bytes[0]);
        self.stack.set(pos + 1, bytes[1]);
        self.stack.set(pos + 2, bytes[2]);
        self.stack.set(pos + 3, bytes[3]);
    }

    /// Writes the 64-bit word `v` at byte offset `pos` of the stack.
    pub(crate) fn write_stack_dword(&mut self, pos: usize, v: u64)
        requires
            old(self).stack@.len() == STACK_SIZE,
            pos + 8 <= old(self).stack@.len(),
        ensures
            final(self).stack@ == store_dword(old(self).stack@, pos as int, v),
            *final(self) == (ScriptVm { stack: final(self).stack, ..*old(self) }),
    {
        let bytes = u64_to_le_bytes(v);
        self.stack.set(pos, bytes[0]);
        self.stack.set(pos + 1, bytes[1]);
        self.stack.set(pos + 2, bytes[2]);
        self.stack.set(pos + 3, bytes[3]);
        self.stack.set(pos + 4, bytes[4]);
        self.stack.set(pos + 5, bytes[5]);
        self.stack.set(pos + 6, bytes[6]);
        self.stack.set(pos + 7, bytes[7]);
    }

    /// Pushes a 4-byte value: the stack pointer moves down by 4 and the
    /// value is stored there. Fails (leaving the interpreter unchanged)
    /// exactly when the stack is full.
    pub fn stack_push(&mut self, value: u32) -> (r: Result<(), VmError>)
        requires
            old(self).wf(),
        ensures
            final(self).wf(),
            r is Ok <==> old(self).sp() >= 4,
            r is Ok ==> final(self).sp() == old(self).sp() - 4 && final(self).mem() == store_word(
                old(self).mem(),
                old(self).sp() - 4,
                value,
            ) && word_at(final(self).mem(), final(self).sp()) == value,
            r is Err ==> *final(self) == *old(self) && r == Err::<(), VmError>(
                VmError::StackOutOfBounds,
            ),
            Self::ctrl_eq(*final(self), *old(self)),
            Self::objs_eq(*final(self), *old(self)),
            Self::regs_eq(*final(self), *old(self)),
            Self::misc_eq(*final(self), *old(self)),
    {
        if self.sp < 4 {
            return Err(VmError::StackOutOfBounds);
        }
        self.sp = self.sp - 4;
        let pos = self.sp;
        self.write_stack_word(pos, value);
        proof {
            lemma_store_word(old(self).stack@, pos as int, value);
        }
        Ok(())
    }

    /// Pops a 4-byte value: returns the word at the stack pointer and moves
    /// the pointer up by 4. Fails (leaving the interpreter unchanged)
    /// exactly when fewer than 4 bytes are on the stack.
    pub fn stack_pop(&mut self) -> (r: Result<u32, VmError>)
        requires
            old(self).wf(),
        ensures
            final(self).wf(),
            r is Ok <==> old(self).sp() + 4 <= STACK_SIZE,
            r matches Ok(v) ==> v == word_at(old(self).mem(), old(self).sp()) && final(self).sp()
                == old(self).sp() + 4 && final(self).mem() == old(self).mem(),
            r is Err ==> *final(self) == *old(self) && r == Err::<u32, VmError>(
                VmError::StackOutOfBounds,
            ),
            Self::ctrl_eq(*final(self), *old(self)),
            Self::objs_eq(*final(self), *old(self)),
            Self::regs_eq(*final(self), *old(self)),
            Self::misc_eq(*final(self), *old(self)),
    {
        if self.sp + 4 > STACK_SIZE {
            return Err(VmError::StackOutOfBounds);
        }
        let v = self.read_stack_word(self.sp);
        self.sp = self.sp + 4;
        Ok(v)
    }

    /// Reads the 4-byte value at the stack pointer without popping it.
    /// Returns `None` when the stack pointer is too close to the stack base
    /// for a value to be on the stack.
    pub fn stack_peek(&self) -> (r: Option<u32>)
        requires
            self.wf(),
        ensures
            r is Some <==> self.sp() < STACK_SIZE - 4,
            r matches Some(v) ==> v == word_at(self.mem(), self.sp()),
    {
        if self.sp < STACK_SIZE - 4 {
            Some(self.read_stack_word(self.sp))
        } else {
            None
        }
    }

    /// Pushes an 8-byte value: the stack pointer moves down by 8 and the
    /// value is stored there. Fails (leaving the interpreter unchanged)
    /// exactly when fewer than 8 bytes of room remain.
    pub fn stack_push64(&mut self, value: u64) -> (r: Result<(), VmError>)
        requires
            old(self).wf(),
        ensures
            final(self).wf(),
            r is Ok <==> old(self).sp() >= 8,
            r is Ok ==> final(self).sp() == old(self).sp() - 8 && final(self).mem() == store_dword(
                old(self).mem(),
                old(self).sp() - 8,
                value,
            ) && dword_at(final(self).mem(), final(self).sp()) == value,
            r is Err ==> *final(self) == *old(self) && r == Err::<(), VmError>(
                VmError::StackOutOfBounds,
            ),
            Self::ctrl_eq(*final(self), *old(self)),
            Self::objs_eq(*final(self), *old(self)),
            Self::regs_eq(*final(self), *old(self)),
            Self::misc_eq(*final(self), *old(self)),
    {
        if self.sp < 8 {
            return Err(VmError::StackOutOfBounds);
        }
        self.sp = self.sp - 8;
        let pos = self.sp;
        self.write_stack_dword(pos, value);
        proof {
            lemma_store_dword(old(self).stack@, pos as int, value);
        }
        Ok(())
    }

    /// Pops an 8-byte value: returns the doubleword at the stack pointer and
    /// moves the pointer up by 8. Fails (leaving the interpreter unchanged)
    /// exactly when fewer than 8 bytes are on the stack.
    pub fn stack_pop64(&mut self) -> (r: Result<u64, VmError>)
        requires
            old(self).wf(),
        ensures
            final(self).wf(),
            r is Ok <==> old(self).sp() + 8 <= STACK_SIZE,
            r matches Ok(v) ==> v == dword_at(old(self).mem(), old(self).sp()) && final(self).sp()
                == old(self).sp() + 8 && final(self).mem() == old(self).mem(),
            r is Err ==> *final(self) == *old(self) && r == Err::<u64, VmError>(
                VmError::StackOutOfBounds,
            ),
            Self::ctrl_eq(*final(self), *old(self)),
            Self::objs_eq(*final(self), *old(self)),
            Self::regs_eq(*final(self), *old(self)),
            Self::misc_eq(*final(self), *old(self)),
    {
        if self.sp + 8 > STACK_SIZE {
            return Err(VmError::StackOutOfBounds);
        }
        let v = self.read_stack_dword(self.sp);
        self.sp = self.sp + 8;
        Ok(v)
    }

    /// Discards `words` 4-byte values from the stack, as native functions
    /// do to clean the parameters of a call off. Fails (leaving the
    /// interpreter unchanged) exactly when the stack holds fewer values.
    pub fn stack_discard(&mut self, words: u16) -> (r: Result<(), VmError>)
        requires
            old(self).wf(),
        ensures
            final(self).wf(),
            r is Ok <==> old(self).sp() + words * 4 <= STACK_SIZE,
            r is Ok ==> final(self).sp() == old(self).sp() + words * 4 && final(self).mem() == old(
                self,
            ).mem(),
            r is Err ==> *final(self) == *old(self) && r == Err::<(), VmError>(
                VmError::StackOutOfBounds,
            ),
            Self::ctrl_eq(*final(self), *old(self)),
            Self::objs_eq(*final(self), *old(self)),
            Self::regs_eq(*final(self), *old(self)),
            Self::misc_eq(*final(self), *old(self)),
    {
        self.pop(words)
    }

    /// Stores `object` in the lowest-indexed free heap slot, growing the
    /// heap by one slot only when no slot is free, and returns the slot
    /// index.
    pub fn push_object(&mut self, object: String) -> (r: usize)
        ensures
            final(self).wf() == old(self).wf(),
            r <= old(self).heap_view().len(),
            forall|j: int| 0 <= j < r ==> (#[trigger] old(self).heap_view()[j]) is Some,
            r < old(self).heap_view().len() ==> old(self).heap_view()[r as int] is None
                && final(self).heap_view() == old(self).heap_view().update(r as int, Some(object)),
            r == old(self).heap_view().len() ==> final(self).heap_view() == old(self).heap_view().push(Some(object)),
            final(self).heap_view()[r as int] == Some(object),
            Self::ctrl_eq(*final(self), *old(self)),
            Self::regs_eq(*final(self), *old(self)),
            Self::stack_eq(*final(self), *old(self)),
            Self::misc_eq(*final(self), *old(self)),
            final(self).reg_obj() == old(self).reg_obj(),
    {
        let n = self.heap.len();
        let mut i: usize = 0;
        while i < n
            invariant_except_break
                i <= n,
                n == self.heap@.len(),
                forall|j: int| 0 <= j < i ==> (#[trigger] self.heap@[j]) is Some,
                *self == *old(self),
            ensures
                i <= n,
                n == self.heap@.len(),
                forall|j: int| 0 <= j < i ==> (#[trigger] self.heap@[j]) is Some,
                i < n ==> self.heap@[i as int] is None,
                *self == *old(self),
            decreases n - i,
        {
            if self.heap[i].is_none() {
                break ;
            }
            i = i + 1;
        }
        if i < n {
            self.heap.set(i, Some(object));
            i
        } else {
            self.heap.push(Some(object));
            n
        }
    }

    /// A copy of the heap slot at `index`; `None` both for a free slot and
    /// for an index beyond the heap.
    pub fn object_at(&self, index: usize) -> (r: Option<String>)
        ensures
            r == if index < self.heap_view().len() {
                self.heap_view()[index as int]
            } else {
                None::<String>
            },
    {
        if index < self.heap.len() {
            match &self.heap[index] {
                Some(s) => Some(s.clone()),
                None => None,
            }
        } else {
            None
        }
    }

    /// Frees the heap slot at `index`.
    pub fn free_object(&mut self, index: usize)
        requires
            index < old(self).heap_view().len(),
        ensures
            final(self).wf() == old(self).wf(),
            final(self).heap_view() == old(self).heap_view().update(index as int, None::<String>),
            Self::ctrl_eq(*final(self), *old(self)),
            Self::regs_eq(*final(self), *old(self)),
            Self::stack_eq(*final(self), *old(self)),
            Self::misc_eq(*final(self), *old(self)),
            final(self).reg_obj() == old(self).reg_obj(),
    {
        self.heap.set(index, None);
    }

    /// Whether the script has fully unwound: with no active frame, ticks
    /// do nothing.
    pub fn is_finished(&self) -> (r: bool)
        ensures
            r == (self.cur() is None),
    {
        self.context.is_none()
    }

    /// A module-local global slot's value, for hosts and tests observing
    /// script effects; `None` when either index is out of range.
    pub fn module_global(&self, module_id: usize, index: usize) -> (r: Option<u32>)
        ensures
            r == if module_id < self.mods().len() && index < self.mods()[module_id
                as int].globals@.len() {
                Some(self.mods()[module_id as int].globals@[index as int])
            } else {
                None::<u32>
            },
    {
        if module_id < self.modules.len() && index < self.modules[module_id].globals.len() {
            Some(self.modules[module_id].globals[index])
        } else {
            None
        }
    }

    /// How many calls have reached native-catalog entries that are not
    /// implemented.
    pub fn unimplemented_calls(&self) -> (r: u64)
        ensures
            r == self.unimpl_count(),
    {
        self.unimpl_calls
    }

    /// Records one call of a native-catalog entry that is not implemented,
    /// for hosts to observe; the count saturates rather than wrapping.
    pub fn note_unimplemented_call(&mut self)
        ensures
            final(self).wf() == old(self).wf(),
            final(self).unimpl_count() == (if old(self).unimpl_count() < u64::MAX {
                old(self).unimpl_count() + 1
            } else {
                old(self).unimpl_count()
            }),
            Self::ctrl_eq(*final(self), *old(self)),
            Self::objs_eq(*final(self), *old(self)),
            Self::regs_eq(*final(self), *old(self)),
            Self::stack_eq(*final(self), *old(self)),
            final(self).conts() == old(self).conts(),
            final(self).app() == old(self).app(),
            final(self).imm_flag() == old(self).imm_flag(),
            final(self).fp() == old(self).fp(),
    {
        if self.unimpl_calls < u64::MAX {
            self.unimpl_calls = self.unimpl_calls + 1;
        }
    }

    /// The object register's current value.
    pub fn robj(&self) -> (r: usize)
        ensures
            r == self.reg_obj(),
    {
        self.robj
    }

    /// Sets the object register, through which allocation results reach the
    /// `storeobj` opcode.
    pub fn set_robj(&mut self, value: usize)
        ensures
            final(self).wf() == old(self).wf(),
            final(self).reg_obj() == value,
            final(self).heap_view() == old(self).heap_view(),
            Self::ctrl_eq(*final(self), *old(self)),
            Self::regs_eq(*final(self), *old(self)),
            Self::stack_eq(*final(self), *old(self)),
            Self::misc_eq(*final(self), *old(self)),
    {
        self.robj = value;
    }

    /// How many modules the interpreter's registry holds.
    pub fn module_count(&self) -> (r: usize)
        ensures
            r == self.mods().len(),
    {
        self.modules.len()
    }

    /// Adds `module` to the registry without touching the active frame,
    /// and returns its id. Frames made from the id through
    /// `set_function_registered` all share this one module, so
    /// module-local global writes made under one frame are seen under the
    /// others.
    pub fn register_module(&mut self, module: ScriptModule) -> (id: usize)
        requires
            old(self).wf(),
        ensures
            final(self).wf(),
            id == old(self).mods().len(),
            final(self).mods() == old(self).mods().push(module),
            final(self).cur() == old(self).cur(),
            final(self).frames() == old(self).frames(),
            Self::objs_eq(*final(self), *old(self)),
            Self::regs_eq(*final(self), *old(self)),
            Self::stack_eq(*final(self), *old(self)),
            Self::misc_eq(*final(self), *old(self)),
    {
        self.modules.push(module);
        self.modules.len() - 1
    }

    /// Saves the active frame on the call stack (when there is one) and
    /// makes the start of function `index` of the already-registered
    /// module `module_id` the active frame.
    pub fn set_function_registered(&mut self, module_id: usize, index: usize) -> (r: Result<
        (),
        VmError,
    >)
        requires
            old(self).wf(),
        ensures
            final(self).wf(),
            r is Ok <==> module_id < old(self).mods().len(),
            r is Ok ==> final(self).cur() == Some(
                ScriptFunctionContext { module_id, function_index: index, pc: 0 },
            ) && final(self).frames() == (match old(self).cur() {
                Some(c) => old(self).frames().push(c),
                None => old(self).frames(),
            }),
            r is Err ==> *final(self) == *old(self) && r == Err::<(), VmError>(
                VmError::ModuleIndexOutOfBounds,
            ),
            final(self).mods() == old(self).mods(),
            Self::objs_eq(*final(self), *old(self)),
            Self::regs_eq(*final(self), *old(self)),
            Self::stack_eq(*final(self), *old(self)),
            Self::misc_eq(*final(self), *old(self)),
    {
        if module_id >= self.modules.len() {
            return Err(VmError::ModuleIndexOutOfBounds);
        }
        if self.context.is_some() {
            let c = self.context.unwrap();
            self.call_stack.push(c);
        }
        self.context = Some(ScriptFunctionContext::new(module_id, index));
        Ok(())
    }

    /// Saves the active frame on the call stack (when there is one),
    /// registers `module`, and makes the start of its function `index` the
    /// active frame. Used both by the internal `call` opcode's machinery and
    /// by hosts switching a script to a new entry point. Each call
    /// registers the module it is given as a fresh registry entry, whose
    /// module-local global slots start from the passed values; to switch
    /// repeatedly into one module and share its global slots across the
    /// switches, register it once with `register_module` and switch with
    /// `set_function_registered`.
    pub fn set_function(&mut self, module: ScriptModule, index: usize)
        requires
            old(self).wf(),
        ensures
            final(self).wf(),
            final(self).mods() == old(self).mods().push(module),
            final(self).cur() == Some(
                ScriptFunctionContext {
                    module_id: old(self).mods().len() as usize,
                    function_index: index,
                    pc: 0,
                },
            ),
            final(self).frames() == (match old(self).cur() {
                Some(c) => old(self).frames().push(c),
                None => old(self).frames(),
            }),
            Self::objs_eq(*final(self), *old(self)),
            Self::regs_eq(*final(self), *old(self)),
            Self::stack_eq(*final(self), *old(self)),
            Self::misc_eq(*final(self), *old(self)),
    {
        if self.context.is_some() {
            let c = self.context.unwrap();
            self.call_stack.push(c);
        }
        self.modules.push(module);
        let id = self.modules.len() - 1;
        self.context = Some(ScriptFunctionContext::new(id, index));
    }

    /// The frame state after switching once per name match, in table
    /// order: each match saves the then-active frame on the call stack and
    /// makes a fresh frame for the matching function the active one, so
    /// the last match ends active and every earlier match leaves a saved
    /// frame behind.
    pub open spec fn switch_chain(
        frames: Seq<ScriptFunctionContext>,
        cur: Option<ScriptFunctionContext>,
        module_id: int,
        functions: Seq<ScriptFunction>,
        name: Seq<char>,
        upto: int,
    ) -> (Seq<ScriptFunctionContext>, Option<ScriptFunctionContext>)
        decreases upto,
    {
        if upto <= 0 {
            (frames, cur)
        } else {
            let prev = Self::switch_chain(frames, cur, module_id, functions, name, upto - 1);
            if functions[upto - 1].name@ == name {
                (
                    match prev.1 {
                        Some(c) => prev.0.push(c),
                        None => prev.0,
                    },
                    Some(
                        ScriptFunctionContext {
                            module_id: module_id as usize,
                            function_index: (upto - 1) as usize,
                            pc: 0,
                        },
                    ),
                )
            } else {
                prev
            }
        }
    }

    /// Switches to every function of `module` whose name matches, in table
    /// order, saving a frame per switch exactly as `set_function` does —
    /// so with one match it simply switches there, and with several the
    /// last match ends active while each earlier match leaves a saved
    /// frame on the call stack (all sharing one registered copy of
    /// `module`). With no matching function the interpreter is unchanged.
    pub fn set_function_by_name2(&mut self, module: ScriptModule, name: &str)
        requires
            old(self).wf(),
        ensures
            final(self).wf(),
            (exists|i: int|
                0 <= i < module.functions@.len() && (#[trigger] module.functions@[i]).name@
                    == name@) ==> final(self).mods() == old(self).mods().push(module)
                && final(self).frames() == Self::switch_chain(
                old(self).frames(),
                old(self).cur(),
                old(self).mods().len() as int,
                module.functions@,
                name@,
                module.functions@.len() as int,
            ).0 && final(self).cur() == Self::switch_chain(
                old(self).frames(),
                old(self).cur(),
                old(self).mods().len() as int,
                module.functions@,
                name@,
                module.functions@.len() as int,
            ).1,
            !(exists|i: int|
                0 <= i < module.functions@.len() && (#[trigger] module.functions@[i]).name@
                    == name@) ==> *final(self) == *old(self),
            Self::objs_eq(*final(self), *old(self)),
            Self::regs_eq(*final(self), *old(self)),
            Self::stack_eq(*final(self), *old(self)),
            Self::misc_eq(*final(self), *old(self)),
    {
        let n = module.functions.len();
        let mut i: usize = 0;
        while i < n
            invariant_except_break
                i <= n,
                n == module.functions@.len(),
                forall|j: int| 0 <= j < i ==> (#[trigger] module.functions@[j]).name@ != name@,
                *self == *old(self),
            ensures
                i <= n,
                n == module.functions@.len(),
                forall|j: int| 0 <= j < i ==> (#[trigger] module.functions@[j]).name@ != name@,
                i < n ==> module.functions@[i as int].name@ == name@,
                *self == *old(self),
            decreases n - i,
        {
            if str_eq(module.functions[i].name.as_str(), name) {
                break ;
            }
            i = i + 1;
        }
        if i >= n {
            return ;
        }
        let id = self.register_module(module);
        let mut k: usize = 0;
        while k < n
            invariant
                k <= n,
                id < self.modules@.len(),
                id == old(self).modules@.len(),
                self.modules@ == old(self).modules@.push(module),
                n == module.functions@.len(),
                self.modules@[id as int] == module,
                self.wf(),
                self.call_stack@ == Self::switch_chain(
                    old(self).call_stack@,
                    old(self).context,
                    id as int,
                    module.functions@,
                    name@,
                    k as int,
                ).0,
                self.context == Self::switch_chain(
                    old(self).call_stack@,
                    old(self).context,
                    id as int,
                    module.functions@,
                    name@,
                    k as int,
                ).1,
                Self::objs_eq(*self, *old(self)),
                Self::regs_eq(*self, *old(self)),
                Self::stack_eq(*self, *old(self)),
                Self::misc_eq(*self, *old(self)),
            decreases n - k,
        {
            if str_eq(self.modules[id].functions[k].name.as_str(), name) {
                let _ = self.set_function_registered(id, k);
            }
            k = k + 1;
        }
    }

    /// The word at the stack pointer, without popping.
    fn top_word(&self) -> (r: Result<u32, VmError>)
        requires
            self.wf(),
        ensures
            r is Ok <==> self.sp + 4 <= STACK_SIZE,
            r matches Ok(v) ==> v == word_at(self.stack@, self.sp as int),
            r is Err ==> r == Err::<u32, VmError>(VmError::StackOutOfBounds),
    {
        if self.sp + 4 > STACK_SIZE {
            return Err(VmError::StackOutOfBounds);
        }
        Ok(self.read_stack_word(self.sp))
    }

    /// Overwrites the word at the stack pointer.
    fn set_top_word(&mut self, v: u32) -> (r: Result<(), VmError>)
        requires
            old(self).wf(),
        ensures
            final(self).wf(),
            r is Ok <==> old(self).sp + 4 <= STACK_SIZE,
            r is Ok ==> final(self).stack@ == store_word(old(self).stack@, old(self).sp as int, v)
                && *final(self) == (ScriptVm { stack: final(self).stack, ..*old(self) }),
            r is Err ==> *final(self) == *old(self) && r == Err::<(), VmError>(
                VmError::StackOutOfBounds,
            ),
    {
        if self.sp + 4 > STACK_SIZE {
            return Err(VmError::StackOutOfBounds);
        }
        let pos = self.sp;
        self.write_stack_word(pos, v);
        proof {
            lemma_store_word(old(self).stack@, pos as int, v);
        }
        Ok(())
    }

    /// The doubleword at the stack pointer, without popping.
    fn top_dword(&self) -> (r: Result<u64, VmError>)
        requires
            self.wf(),
        ensures
            r is Ok <==> self.sp + 8 <= STACK_SIZE,
            r matches Ok(v) ==> v == dword_at(self.stack@, self.sp as int),
            r is Err ==> r == Err::<u64, VmError>(VmError::StackOutOfBounds),
    {
        if self.sp + 8 > STACK_SIZE {
            return Err(VmError::StackOutOfBounds);
        }
        Ok(self.read_stack_dword(self.sp))
    }

    /// Overwrites the doubleword at the stack pointer.
    fn set_top_dword(&mut self, v: u64) -> (r: Result<(), VmError>)
        requires
            old(self).wf(),
        ensures
            final(self).wf(),
            r is Ok <==> old(self).sp + 8 <= STACK_SIZE,
            r is Ok ==> final(self).stack@ == store_dword(old(self).stack@, old(self).sp as int, v)
                && *final(self) == (ScriptVm { stack: final(self).stack, ..*old(self) }),
            r is Err ==> *final(self) == *old(self) && r == Err::<(), VmError>(
                VmError::StackOutOfBounds,
            ),
    {
        if self.sp + 8 > STACK_SIZE {
            return Err(VmError::StackOutOfBounds);
        }
        let pos = self.sp;
        self.write_stack_dword(pos, v);
        proof {
            lemma_store_dword(old(self).stack@, pos as int, v);
        }
        Ok(())
    }
}

/// The conditions the conditional-jump and test opcodes apply to a popped
/// or peeked word, read as a signed value.
#[derive(Clone, Copy, Debug, PartialEq, Eq, Structural)]
pub(crate) enum BranchTest {
    Zero,
    NonZero,
    GeZero,
    LtZero,
    LeZero,
    GtZero,
}

/// Whether a branch with the given test fires on `w`.
pub(crate) open spec fn branch_taken(t: BranchTest, w: u32) -> bool {
    match t {
        BranchTest::Zero => crate::ops::signed32(w) == 0,
        BranchTest::NonZero => crate::ops::signed32(w) != 0,
        BranchTest::GeZero => crate::ops::signed32(w) >= 0,
        BranchTest::LtZero => crate::ops::signed32(w) < 0,
        BranchTest::LeZero => crate::ops::signed32(w) <= 0,
        BranchTest::GtZero => crate::ops::signed32(w) > 0,
    }
}

pub(crate) fn branch_taken_exec(t: BranchTest, w: u32) -> (r: bool)
    ensures
        r == branch_taken(t, w),
{
    match t {
        BranchTest::Zero => (w as i32) == 0,
        BranchTest::NonZero => (w as i32) != 0,
        BranchTest::GeZero => (w as i32) >= 0,
        BranchTest::LtZero => (w as i32) < 0,
        BranchTest::LeZero => (w as i32) <= 0,
        BranchTest::GtZero => (w as i32) > 0,
    }
}

/// The width and direction of the increment/decrement opcodes, which step
/// the value a popped-free stack address points at.
#[derive(Clone, Copy, Debug, PartialEq, Eq, Structural)]
pub(crate) enum StepKind {
    IncI32,
    DecI32,
    IncF32,
    DecF32,
    IncI16,
    DecI16,
    IncI8,
    DecI8,
    IncF64,
    DecF64,
}

/// The source reading of the widening-to-double conversion opcodes: the
/// 4-byte operand is a signed integer, an unsigned integer, or a
/// single-precision value.
#[derive(Clone, Copy, Debug, PartialEq, Eq, Structural)]
pub(crate) enum WidenSrc {
    I32,
    U32,
    F32,
}

/// The double-precision pattern a widening conversion produces from the
/// 4-byte operand `w`.
pub(crate) open spec fn widen_to_double(k: WidenSrc, w: u32) -> u64 {
    match k {
        WidenSrc::I32 => crate::softfloat::double_of_i32(w as i32),
        WidenSrc::U32 => crate::softfloat::double_of_u32(w),
        WidenSrc::F32 => crate::softfloat::double_of_single(w),
    }
}

/// Bytes the stepped value occupies.
pub(crate) open spec fn step_width(k: StepKind) -> int {
    match k {
        StepKind::IncI32 | StepKind::DecI32 | StepKind::IncF32 | StepKind::DecF32 => 4,
        StepKind::IncI16 | StepKind::DecI16 => 2,
        StepKind::IncI8 | StepKind::DecI8 => 1,
        StepKind::IncF64 | StepKind::DecF64 => 8,
    }
}

impl<A, F> ScriptVm<A, F> {
    /// Stack adjust: discards `size` words.
    pub(crate) fn pop(&mut self, size: u16) -> (r: Result<(), VmError>)
        requires
            old(self).wf(),
        ensures
            final(self).wf(),
            r is Ok <==> old(self).sp + size * 4 <= STACK_SIZE,
            r is Ok ==> final(self).sp == old(self).sp + size * 4 && *final(self) == (ScriptVm {
                sp: final(self).sp,
                ..*old(self)
            }),
            r is Err ==> *final(self) == *old(self) && r == Err::<(), VmError>(
                VmError::StackOutOfBounds,
            ),
    {
        let delta = size as usize * 4;
        if self.sp + delta > STACK_SIZE {
            return Err(VmError::StackOutOfBounds);
        }
        self.sp = self.sp + delta;
        Ok(())
    }

    /// Stack adjust: reserves `size` words.
    pub(crate) fn push(&mut self, size: u16) -> (r: Result<(), VmError>)
        requires
            old(self).wf(),
        ensures
            final(self).wf(),
            r is Ok <==> size * 4 <= old(self).sp,
            r is Ok ==> final(self).sp == old(self).sp - size * 4 && *final(self) == (ScriptVm {
                sp: final(self).sp,
                ..*old(self)
            }),
            r is Err ==> *final(self) == *old(self) && r == Err::<(), VmError>(
                VmError::StackOutOfBounds,
            ),
    {
        let delta = size as usize * 4;
        if delta > self.sp {
            return Err(VmError::StackOutOfBounds);
        }
        self.sp = self.sp - delta;
        Ok(())
    }

    /// Applies an in-place opcode to the word at the stack pointer.
    pub(crate) fn unary32(&mut self, op: crate::ops::UnaryOp32) -> (r: Result<(), VmError>)
        requires
            old(self).wf(),
        ensures
            final(self).wf(),
            r is Ok <==> old(self).sp + 4 <= STACK_SIZE,
            r is Ok ==> final(self).sp == old(self).sp && final(self).stack@ == store_word(
                old(self).stack@,
                old(self).sp as int,
                crate::ops::apply_unary32(op, word_at(old(self).stack@, old(self).sp as int)),
            ) && *final(self) == (ScriptVm { stack: final(self).stack, ..*old(self) }),
            r is Err ==> *final(self) == *old(self) && r == Err::<(), VmError>(
                VmError::StackOutOfBounds,
            ),
    {
        let w = match self.top_word() {
            Ok(w) => w,
            Err(e) => {
                return Err(e);
            },
        };
        let v = crate::ops::eval_unary32(op, w);
        self.set_top_word(v)
    }

    /// Applies a two-operand opcode: pops the first operand, and the result
    /// replaces the second. Division and modulo with a zero divisor are
    /// fatal.
    pub(crate) fn binary32(&mut self, op: crate::ops::BinaryOp32) -> (r: Result<(), VmError>)
        requires
            old(self).wf(),
        ensures
            final(self).wf(),
            r is Ok <==> old(self).sp + 8 <= STACK_SIZE && !crate::ops::binop32_div_by_zero(
                op,
                word_at(old(self).stack@, old(self).sp as int),
            ),
            r is Ok ==> final(self).sp == old(self).sp + 4 && final(self).stack@ == store_word(
                old(self).stack@,
                old(self).sp + 4,
                crate::ops::apply_binary32(
                    op,
                    word_at(old(self).stack@, old(self).sp as int),
                    word_at(old(self).stack@, old(self).sp + 4),
                ),
            ) && *final(self) == (ScriptVm {
                stack: final(self).stack,
                sp: final(self).sp,
                ..*old(self)
            }),
            r is Err ==> *final(self) == *old(self) && r == (if old(self).sp + 8 <= STACK_SIZE {
                Err::<(), VmError>(VmError::DivisionByZero)
            } else {
                Err::<(), VmError>(VmError::StackOutOfBounds)
            }),
    {
        if self.sp + 8 > STACK_SIZE {
            return Err(VmError::StackOutOfBounds);
        }
        let a = self.read_stack_word(self.sp);
        let b = self.read_stack_word(self.sp + 4);
        if crate::ops::binop32_div_check(op, a) {
            return Err(VmError::DivisionByZero);
        }
        let v = crate::ops::eval_binary32(op, a, b);
        self.sp = self.sp + 4;
        let pos = self.sp;
        self.write_stack_word(pos, v);
        proof {
            lemma_store_word(old(self).stack@, pos as int, v);
        }
        Ok(())
    }

    /// Applies a two-operand double-precision opcode on 8-byte slots.
    pub(crate) fn binary64(&mut self, op: crate::ops::BinaryOp64) -> (r: Result<(), VmError>)
        requires
            old(self).wf(),
        ensures
            final(self).wf(),
            r is Ok <==> old(self).sp + 16 <= STACK_SIZE && !crate::ops::binop64_div_by_zero(
                op,
                dword_at(old(self).stack@, old(self).sp as int),
            ),
            r is Ok ==> final(self).sp == old(self).sp + 8 && final(self).stack@ == store_dword(
                old(self).stack@,
                old(self).sp + 8,
                crate::ops::apply_binary64(
                    op,
                    dword_at(old(self).stack@, old(self).sp as int),
                    dword_at(old(self).stack@, old(self).sp + 8),
                ),
            ) && *final(self) == (ScriptVm {
                stack: final(self).stack,
                sp: final(self).sp,
                ..*old(self)
            }),
            r is Err ==> *final(self) == *old(self) && r == (if old(self).sp + 16 <= STACK_SIZE {
                Err::<(), VmError>(VmError::DivisionByZero)
            } else {
                Err::<(), VmError>(VmError::StackOutOfBounds)
            }),
    {
        if self.sp + 16 > STACK_SIZE {
            return Err(VmError::StackOutOfBounds);
        }
        let a = self.read_stack_dword(self.sp);
        let b = self.read_stack_dword(self.sp + 8);
        if crate::ops::binop64_div_check(op, a) {
            return Err(VmError::DivisionByZero);
        }
        let v = crate::ops::eval_binary64(op, a, b);
        self.sp = self.sp + 8;
        let pos = self.sp;
        self.write_stack_dword(pos, v);
        proof {
            lemma_store_dword(old(self).stack@, pos as int, v);
        }
        Ok(())
    }

    /// Double-precision comparison: pops two 8-byte operands and pushes the
    /// 4-byte three-way result.
    pub(crate) fn cmp64(&mut self) -> (r: Result<(), VmError>)
        requires
            old(self).wf(),
        ensures
            final(self).wf(),
            r is Ok <==> old(self).sp + 16 <= STACK_SIZE,
            r is Ok ==> final(self).sp == old(self).sp + 12 && final(self).stack@ == store_word(
                old(self).stack@,
                old(self).sp + 12,
                crate::ops::fcmp64(
                    dword_at(old(self).stack@, old(self).sp as int),
                    dword_at(old(self).stack@, old(self).sp + 8),
                ),
            ) && *final(self) == (ScriptVm {
                stack: final(self).stack,
                sp: final(self).sp,
                ..*old(self)
            }),
            r is Err ==> *final(self) == *old(self) && r == Err::<(), VmError>(
                VmError::StackOutOfBounds,
            ),
    {
        if self.sp + 16 > STACK_SIZE {
            return Err(VmError::StackOutOfBounds);
        }
        let a = self.read_stack_dword(self.sp);
        let b = self.read_stack_dword(self.sp + 8);
        let v = crate::ops::fcmp64_exec(a, b);
        self.sp = self.sp + 12;
        let pos = self.sp;
        self.write_stack_word(pos, v);
        proof {
            lemma_store_word(old(self).stack@, pos as int, v);
        }
        Ok(())
    }

    /// Double-precision negation of the 8-byte slot at the stack pointer.
    pub(crate) fn neg64(&mut self) -> (r: Result<(), VmError>)
        requires
            old(self).wf(),
        ensures
            final(self).wf(),
            r is Ok <==> old(self).sp + 8 <= STACK_SIZE,
            r is Ok ==> final(self).sp == old(self).sp && final(self).stack@ == store_dword(
                old(self).stack@,
                old(self).sp as int,
                crate::ops::fneg64(dword_at(old(self).stack@, old(self).sp as int)),
            ) && *final(self) == (ScriptVm { stack: final(self).stack, ..*old(self) }),
            r is Err ==> *final(self) == *old(self) && r == Err::<(), VmError>(
                VmError::StackOutOfBounds,
            ),
    {
        let w = match self.top_dword() {
            Ok(w) => w,
            Err(e) => {
                return Err(e);
            },
        };
        self.set_top_dword(w ^ 0x8000_0000_0000_0000)
    }

    /// Pushes a 4-byte literal decoded from the instruction stream.
    pub(crate) fn set4(&mut self, data: u32) -> (r: Result<(), VmError>)
        requires
            old(self).wf(),
        ensures
            final(self).wf(),
            r is Ok <==> old(self).sp >= 4,
            r is Ok ==> final(self).sp == old(self).sp - 4 && final(self).stack@ == store_word(
                old(self).stack@,
                old(self).sp - 4,
                data,
            ) && *final(self) == (ScriptVm {
                stack: final(self).stack,
                sp: final(self).sp,
                ..*old(self)
            }),
            r is Err ==> *final(self) == *old(self) && r == Err::<(), VmError>(
                VmError::StackOutOfBounds,
            ),
    {
        if self.sp < 4 {
            return Err(VmError::StackOutOfBounds);
        }
        self.sp = self.sp - 4;
        let pos = self.sp;
        self.write_stack_word(pos, data);
        proof {
            lemma_store_word(old(self).stack@, pos as int, data);
        }
        Ok(())
    }

    /// Pushes an 8-byte literal decoded from the instruction stream.
    pub(crate) fn set8(&mut self, data: u64) -> (r: Result<(), VmError>)
        requires
            old(self).wf(),
        ensures
            final(self).wf(),
            r is Ok <==> old(self).sp >= 8,
            r is Ok ==> final(self).sp == old(self).sp - 8 && final(self).stack@ == store_dword(
                old(self).stack@,
                old(self).sp - 8,
                data,
            ) && *final(self) == (ScriptVm {
                stack: final(self).stack,
                sp: final(self).sp,
                ..*old(self)
            }),
            r is Err ==> *final(self) == *old(self) && r == Err::<(), VmError>(
                VmError::StackOutOfBounds,
            ),
    {
        if self.sp < 8 {
            return Err(VmError::StackOutOfBounds);
        }
        self.sp = self.sp - 8;
        let pos = self.sp;
        self.write_stack_dword(pos, data);
        proof {
            lemma_store_dword(old(self).stack@, pos as int, data);
        }
        Ok(())
    }

    /// Indirect read: the word at the stack pointer is an address; the word
    /// there replaces it.
    pub(crate) fn rd4(&mut self) -> (r: Result<(), VmError>)
        requires
            old(self).wf(),
        ensures
            final(self).wf(),
            r is Ok <==> old(self).sp + 4 <= STACK_SIZE && word_at(
                old(self).stack@,
                old(self).sp as int,
            ) + 4 <= STACK_SIZE,
            r is Ok ==> final(self).sp == old(self).sp && final(self).stack@ == store_word(
                old(self).stack@,
                old(self).sp as int,
                word_at(old(self).stack@, word_at(old(self).stack@, old(self).sp as int) as int),
            ) && *final(self) == (ScriptVm { stack: final(self).stack, ..*old(self) }),
            r is Err ==> *final(self) == *old(self) && r == Err::<(), VmError>(
                VmError::StackOutOfBounds,
            ),
    {
        let pos = match self.top_word() {
            Ok(w) => w,
            Err(e) => {
                return Err(e);
            },
        };
        if pos > (STACK_SIZE - 4) as u32 {
            return Err(VmError::StackOutOfBounds);
        }
        let data = self.read_stack_word(pos as usize);
        self.set_top_word(data)
    }

    /// Indirect write: pops an address, then writes the next word through
    /// it (which stays on the stack).
    pub(crate) fn wrt4(&mut self) -> (r: Result<(), VmError>)
        requires
            old(self).wf(),
        ensures
            final(self).wf(),
            r is Ok <==> old(self).sp + 8 <= STACK_SIZE && word_at(
                old(self).stack@,
                old(self).sp as int,
            ) + 4 <= STACK_SIZE,
            r is Ok ==> final(self).sp == old(self).sp + 4 && final(self).stack@ == store_word(
                old(self).stack@,
                word_at(old(self).stack@, old(self).sp as int) as int,
                word_at(old(self).stack@, old(self).sp + 4),
            ) && *final(self) == (ScriptVm {
                stack: final(self).stack,
                sp: final(self).sp,
                ..*old(self)
            }),
            r is Err ==> *final(self) == *old(self) && r == Err::<(), VmError>(
                VmError::StackOutOfBounds,
            ),
    {
        if self.sp + 8 > STACK_SIZE {
            return Err(VmError::StackOutOfBounds);
        }
        let pos = self.read_stack_word(self.sp);
        if pos > (STACK_SIZE - 4) as u32 {
            return Err(VmError::StackOutOfBounds);
        }
        let data = self.read_stack_word(self.sp + 4);
        self.sp = self.sp + 4;
        self.write_stack_word(pos as usize, data);
        proof {
            lemma_store_word(old(self).stack@, pos as int, data);
        }
        Ok(())
    }

    /// Indirect move: as the indirect write, but the source word is popped
    /// too.
    pub(crate) fn mov4(&mut self) -> (r: Result<(), VmError>)
        requires
            old(self).wf(),
        ensures
            final(self).wf(),
            r is Ok <==> old(self).sp + 8 <= STACK_SIZE && word_at(
                old(self).stack@,
                old(self).sp as int,
            ) + 4 <= STACK_SIZE,
            r is Ok ==> final(self).sp == old(self).sp + 8 && final(self).stack@ == store_word(
                old(self).stack@,
                word_at(old(self).stack@, old(self).sp as int) as int,
                word_at(old(self).stack@, old(self).sp + 4),
            ) && *final(self) == (ScriptVm {
                stack: final(self).stack,
                sp: final(self).sp,
                ..*old(self)
            }),
            r is Err ==> *final(self) == *old(self) && r == Err::<(), VmError>(
                VmError::StackOutOfBounds,
            ),
    {
        let r = self.wrt4();
        match r {
            Ok(_) => {
                self.sp = self.sp + 4;
                Ok(())
            },
            Err(e) => Err(e),
        }
    }

    /// Pushes the frame-pointer-relative local slot's value onto the stack
    /// slot at the stack pointer (no pointer movement).
    pub(crate) fn rdsf4(&mut self, index: u16) -> (r: Result<(), VmError>)
        requires
            old(self).wf(),
        ensures
            final(self).wf(),
            r is Ok <==> old(self).sp + 4 <= STACK_SIZE && 1 <= index && index * 4 <= STACK_SIZE,
            r is Ok ==> final(self).sp == old(self).sp && final(self).stack@ == store_word(
                old(self).stack@,
                old(self).sp as int,
                word_at(old(self).stack@, STACK_SIZE - index * 4),
            ) && *final(self) == (ScriptVm { stack: final(self).stack, ..*old(self) }),
            r is Err ==> *final(self) == *old(self) && r == Err::<(), VmError>(
                VmError::StackOutOfBounds,
            ),
    {
        let offset = index as usize * 4;
        if index < 1 || offset > STACK_SIZE || self.sp + 4 > STACK_SIZE {
            return Err(VmError::StackOutOfBounds);
        }
        let data = self.read_stack_word(STACK_SIZE - offset);
        self.set_top_word(data)
    }

    /// Pushes the address of a frame-pointer-relative slot.
    pub(crate) fn psf(&mut self, index: u16) -> (r: Result<(), VmError>)
        requires
            old(self).wf(),
        ensures
            final(self).wf(),
            r is Ok <==> old(self).sp >= 4 && index * 4 <= STACK_SIZE,
            r is Ok ==> final(self).sp == old(self).sp - 4 && final(self).stack@ == store_word(
                old(self).stack@,
                old(self).sp - 4,
                (STACK_SIZE - index * 4) as u32,
            ) && *final(self) == (ScriptVm {
                stack: final(self).stack,
                sp: final(self).sp,
                ..*old(self)
            }),
            r is Err ==> *final(self) == *old(self) && r == Err::<(), VmError>(
                VmError::StackOutOfBounds,
            ),
    {
        let offset = index as usize * 4;
        if offset > STACK_SIZE {
            return Err(VmError::StackOutOfBounds);
        }
        let pos = (self.fp - offset) as u32;
        self.set4(pos)
    }

    /// Reads and rewrites a frame-pointer-relative slot in place, then
    /// discards the top stack word.
    pub(crate) fn movsf4(&mut self, index: u16) -> (r: Result<(), VmError>)
        requires
            old(self).wf(),
        ensures
            final(self).wf(),
            r is Ok <==> 1 <= index && index * 4 <= STACK_SIZE && old(self).sp + 4 <= STACK_SIZE,
            r is Ok ==> final(self).sp == old(self).sp + 4 && final(self).stack@ == old(
                self,
            ).stack@ && *final(self) == (ScriptVm {
                stack: final(self).stack,
                sp: final(self).sp,
                ..*old(self)
            }),
            r is Err ==> *final(self) == *old(self) && r == Err::<(), VmError>(
                VmError::StackOutOfBounds,
            ),
    {
        let offset = index as usize * 4;
        if index < 1 || offset > STACK_SIZE || self.sp + 4 > STACK_SIZE {
            return Err(VmError::StackOutOfBounds);
        }
        let pos = self.fp - offset;
        let data = self.read_stack_word(pos);
        self.write_stack_word(pos, data);
        proof {
            lemma_store_word_noop(old(self).stack@, pos as int);
        }
        self.sp = self.sp + 4;
        Ok(())
    }

    /// Swaps the two 4-byte values at the top of the stack.
    pub(crate) fn swap32(&mut self) -> (r: Result<(), VmError>)
        requires
            old(self).wf(),
        ensures
            final(self).wf(),
            r is Ok <==> old(self).sp + 8 <= STACK_SIZE,
            r is Ok ==> final(self).sp == old(self).sp && final(self).stack@ == store_word(
                store_word(
                    old(self).stack@,
                    old(self).sp as int,
                    word_at(old(self).stack@, old(self).sp + 4),
                ),
                old(self).sp + 4,
                word_at(old(self).stack@, old(self).sp as int),
            ) && *final(self) == (ScriptVm { stack: final(self).stack, ..*old(self) }),
            r is Err ==> *final(self) == *old(self) && r == Err::<(), VmError>(
                VmError::StackOutOfBounds,
            ),
    {
        if self.sp + 8 > STACK_SIZE {
            return Err(VmError::StackOutOfBounds);
        }
        let a = self.read_stack_word(self.sp);
        let b = self.read_stack_word(self.sp + 4);
        let pos = self.sp;
        self.write_stack_word(pos, b);
        proof {
            lemma_store_word(old(self).stack@, pos as int, b);
        }
        self.write_stack_word(pos + 4, a);
        Ok(())
    }

    /// Swaps the two 8-byte values at the top of the stack.
    pub(crate) fn swap64(&mut self) -> (r: Result<(), VmError>)
        requires
            old(self).wf(),
        ensures
            final(self).wf(),
            r is Ok <==> old(self).sp + 16 <= STACK_SIZE,
            r is Ok ==> final(self).sp == old(self).sp && final(self).stack@ == store_dword(
                store_dword(
                    old(self).stack@,
                    old(self).sp as int,
                    dword_at(old(self).stack@, old(self).sp + 8),
                ),
                old(self).sp + 8,
                dword_at(old(self).stack@, old(self).sp as int),
            ) && *final(self) == (ScriptVm { stack: final(self).stack, ..*old(self) }),
            r is Err ==> *final(self) == *old(self) && r == Err::<(), VmError>(
                VmError::StackOutOfBounds,
            ),
    {
        if self.sp + 16 > STACK_SIZE {
            return Err(VmError::StackOutOfBounds);
        }
        let a = self.read_stack_dword(self.sp);
        let b = self.read_stack_dword(self.sp + 8);
        let pos = self.sp;
        self.write_stack_dword(pos, b);
        proof {
            lemma_store_dword(old(self).stack@, pos as int, b);
        }
        self.write_stack_dword(pos + 8, a);
        Ok(())
    }

    /// Pops an address and copies the doubleword there into a new 8-byte
    /// slot made by moving the stack pointer down one word.
    pub(crate) fn wrt8(&mut self) -> (r: Result<(), VmError>)
        requires
            old(self).wf(),
        ensures
            final(self).wf(),
            r is Ok <==> old(self).sp + 4 <= STACK_SIZE && 4 <= old(self).sp && word_at(
                old(self).stack@,
                old(self).sp as int,
            ) + 8 <= STACK_SIZE,
            r is Ok ==> final(self).sp == old(self).sp - 4 && final(self).stack@ == store_dword(
                old(self).stack@,
                old(self).sp - 4,
                dword_at(old(self).stack@, word_at(old(self).stack@, old(self).sp as int) as int),
            ) && *final(self) == (ScriptVm {
                stack: final(self).stack,
                sp: final(self).sp,
                ..*old(self)
            }),
            r is Err ==> *final(self) == *old(self) && r == Err::<(), VmError>(
                VmError::StackOutOfBounds,
            ),
    {
        let pos = match self.top_word() {
            Ok(w) => w,
            Err(e) => {
                return Err(e);
            },
        };
        if self.sp < 4 || pos > (STACK_SIZE - 8) as u32 {
            return Err(VmError::StackOutOfBounds);
        }
        let data = self.read_stack_dword(pos as usize);
        self.sp = self.sp - 4;
        let dst = self.sp;
        self.write_stack_dword(dst, data);
        proof {
            lemma_store_dword(old(self).stack@, dst as int, data);
        }
        Ok(())
    }

    /// Pops an address, discards one more word, and writes the doubleword
    /// now at the stack pointer through the address.
    pub(crate) fn rd8(&mut self) -> (r: Result<(), VmError>)
        requires
            old(self).wf(),
        ensures
            final(self).wf(),
            r is Ok <==> old(self).sp + 12 <= STACK_SIZE && word_at(
                old(self).stack@,
                old(self).sp as int,
            ) + 8 <= STACK_SIZE,
            r is Ok ==> final(self).sp == old(self).sp + 4 && final(self).stack@ == store_dword(
                old(self).stack@,
                word_at(old(self).stack@, old(self).sp as int) as int,
                dword_at(old(self).stack@, old(self).sp + 4),
            ) && *final(self) == (ScriptVm {
                stack: final(self).stack,
                sp: final(self).sp,
                ..*old(self)
            }),
            r is Err ==> *final(self) == *old(self) && r == Err::<(), VmError>(
                VmError::StackOutOfBounds,
            ),
    {
        if self.sp + 12 > STACK_SIZE {
            return Err(VmError::StackOutOfBounds);
        }
        let pos = self.read_stack_word(self.sp);
        if pos > (STACK_SIZE - 8) as u32 {
            return Err(VmError::StackOutOfBounds);
        }
        let data = self.read_stack_dword(self.sp + 4);
        self.sp = self.sp + 4;
        self.write_stack_dword(pos as usize, data);
        proof {
            lemma_store_dword(old(self).stack@, pos as int, data);
        }
        Ok(())
    }

    /// Converts the 8-byte double at the stack pointer to a 4-byte signed
    /// integer, shrinking the slot.
    pub(crate) fn d2i(&mut self) -> (r: Result<(), VmError>)
        requires
            old(self).wf(),
        ensures
            final(self).wf(),
            r is Ok <==> old(self).sp + 8 <= STACK_SIZE,
            r is Ok ==> final(self).sp == old(self).sp + 4 && final(self).stack@ == store_word(
                old(self).stack@,
                old(self).sp + 4,
                crate::softfloat::i32_of_double(dword_at(old(self).stack@, old(self).sp as int))
                    as u32,
            ) && *final(self) == (ScriptVm {
                stack: final(self).stack,
                sp: final(self).sp,
                ..*old(self)
            }),
            r is Err ==> *final(self) == *old(self) && r == Err::<(), VmError>(
                VmError::StackOutOfBounds,
            ),
    {
        let w = match self.top_dword() {
            Ok(w) => w,
            Err(e) => {
                return Err(e);
            },
        };
        let v = crate::softfloat::double_to_i32(w) as u32;
        self.sp = self.sp + 4;
        let pos = self.sp;
        self.write_stack_word(pos, v);
        proof {
            lemma_store_word(old(self).stack@, pos as int, v);
        }
        Ok(())
    }

    /// Converts the 8-byte double at the stack pointer to a 4-byte unsigned
    /// integer, shrinking the slot.
    pub(crate) fn d2ui(&mut self) -> (r: Result<(), VmError>)
        requires
            old(self).wf(),
        ensures
            final(self).wf(),
            r is Ok <==> old(self).sp + 8 <= STACK_SIZE,
            r is Ok ==> final(self).sp == old(self).sp + 4 && final(self).stack@ == store_word(
                old(self).stack@,
                old(self).sp + 4,
                crate::softfloat::u32_of_double(dword_at(old(self).stack@, old(self).sp as int)),
            ) && *final(self) == (ScriptVm {
                stack: final(self).stack,
                sp: final(self).sp,
                ..*old(self)
            }),
            r is Err ==> *final(self) == *old(self) && r == Err::<(), VmError>(
                VmError::StackOutOfBounds,
            ),
    {
        let w = match self.top_dword() {
            Ok(w) => w,
            Err(e) => {
                return Err(e);
            },
        };
        let v = crate::softfloat::double_to_u32(w);
        self.sp = self.sp + 4;
        let pos = self.sp;
        self.write_stack_word(pos, v);
        proof {
            lemma_store_word(old(self).stack@, pos as int, v);
        }
        Ok(())
    }

    /// Converts the 8-byte double at the stack pointer to a 4-byte single,
    /// shrinking the slot.
    pub(crate) fn d2f(&mut self) -> (r: Result<(), VmError>)
        requires
            old(self).wf(),
        ensures
            final(self).wf(),
            r is Ok <==> old(self).sp + 8 <= STACK_SIZE,
            r is Ok ==> final(self).sp == old(self).sp + 4 && final(self).stack@ == store_word(
                old(self).stack@,
                old(self).sp + 4,
                crate::softfloat::single_of_double(dword_at(old(self).stack@, old(self).sp as int)),
            ) && *final(self) == (ScriptVm {
                stack: final(self).stack,
                sp: final(self).sp,
                ..*old(self)
            }),
            r is Err ==> *final(self) == *old(self) && r == Err::<(), VmError>(
                VmError::StackOutOfBounds,
            ),
    {
        let w = match self.top_dword() {
            Ok(w) => w,
            Err(e) => {
                return Err(e);
            },
        };
        let v = crate::softfloat::double_to_single(w);
        self.sp = self.sp + 4;
        let pos = self.sp;
        self.write_stack_word(pos, v);
        proof {
            lemma_store_word(old(self).stack@, pos as int, v);
        }
        Ok(())
    }

    /// Converts the word at the stack pointer — read as a signed integer,
    /// an unsigned integer, or a single-precision value — to an 8-byte
    /// double written one word above it, at the slot layout the script
    /// compiler's instruction set assigns the conversion.
    pub(crate) fn x2d(&mut self, k: WidenSrc) -> (r: Result<(), VmError>)
        requires
            old(self).wf(),
        ensures
            final(self).wf(),
            r is Ok <==> old(self).sp + 12 <= STACK_SIZE,
            r is Ok ==> final(self).sp == old(self).sp + 4 && final(self).stack@ == store_dword(
                old(self).stack@,
                old(self).sp + 4,
                widen_to_double(k, word_at(old(self).stack@, old(self).sp as int)),
            ) && *final(self) == (ScriptVm {
                stack: final(self).stack,
                sp: final(self).sp,
                ..*old(self)
            }),
            r is Err ==> *final(self) == *old(self) && r == Err::<(), VmError>(
                VmError::StackOutOfBounds,
            ),
    {
        if self.sp + 12 > STACK_SIZE {
            return Err(VmError::StackOutOfBounds);
        }
        let w = self.read_stack_word(self.sp);
        let v: u64 = match k {
            WidenSrc::I32 => crate::softfloat::double_from_i32(w as i32),
            WidenSrc::U32 => crate::softfloat::double_from_u32(w),
            WidenSrc::F32 => crate::softfloat::single_to_double(w),
        };
        self.sp = self.sp + 4;
        let pos = self.sp;
        self.write_stack_dword(pos, v);
        proof {
            lemma_store_dword(old(self).stack@, pos as int, v);
        }
        Ok(())
    }

    /// Steps the value addressed by the word at the stack pointer up or
    /// down by one, at the width the opcode names.
    pub(crate) fn incdec(&mut self, k: StepKind) -> (r: Result<(), VmError>)
        requires
            old(self).wf(),
        ensures
            final(self).wf(),
            r is Ok <==> old(self).sp + 4 <= STACK_SIZE && word_at(
                old(self).stack@,
                old(self).sp as int,
            ) + step_width(k) <= STACK_SIZE,
            r is Ok ==> final(self).sp == old(self).sp && *final(self) == (ScriptVm {
                stack: final(self).stack,
                ..*old(self)
            }) && final(self).stack@ == (
            {
                let p = word_at(old(self).stack@, old(self).sp as int) as int;
                let s = old(self).stack@;
                match k {
                    StepKind::IncI32 => store_word(s, p, crate::ops::add32(1, word_at(s, p))),
                    StepKind::DecI32 => store_word(s, p, crate::ops::sub32(1, word_at(s, p))),
                    StepKind::IncF32 => store_word(
                        s,
                        p,
                        crate::softfloat::single_add_of(word_at(s, p), 0x3f80_0000),
                    ),
                    StepKind::DecF32 => store_word(
                        s,
                        p,
                        crate::softfloat::single_sub_of(word_at(s, p), 0x3f80_0000),
                    ),
                    StepKind::IncI16 => store_half(s, p, crate::ops::inc16(half_at(s, p))),
                    StepKind::DecI16 => store_half(s, p, crate::ops::dec16(half_at(s, p))),
                    StepKind::IncI8 => s.update(p, crate::ops::inc8(s[p])),
                    StepKind::DecI8 => s.update(p, crate::ops::dec8(s[p])),
                    StepKind::IncF64 => store_dword(
                        s,
                        p,
                        crate::softfloat::double_add_of(dword_at(s, p), 0x3ff0_0000_0000_0000),
                    ),
                    StepKind::DecF64 => store_dword(
                        s,
                        p,
                        crate::softfloat::double_sub_of(dword_at(s, p), 0x3ff0_0000_0000_0000),
                    ),
                }
            }),
            r is Err ==> *final(self) == *old(self) && r == Err::<(), VmError>(
                VmError::StackOutOfBounds,
            ),
    {
        let ptr = match self.top_word() {
            Ok(w) => w,
            Err(e) => {
                return Err(e);
            },
        };
        let width: usize = match k {
            StepKind::IncI32 | StepKind::DecI32 | StepKind::IncF32 | StepKind::DecF32 => 4,
            StepKind::IncI16 | StepKind::DecI16 => 2,
            StepKind::IncI8 | StepKind::DecI8 => 1,
            StepKind::IncF64 | StepKind::DecF64 => 8,
        };
        if ptr as usize > STACK_SIZE - width {
            return Err(VmError::StackOutOfBounds);
        }
        let p = ptr as usize;
        match k {
            StepKind::IncI32 => {
                let w = self.read_stack_word(p);
                let v = crate::ops::add32_exec(1, w);
                self.write_stack_word(p, v);
            },
            StepKind::DecI32 => {
                let w = self.read_stack_word(p);
                let v = crate::ops::sub32_exec(1, w);
                self.write_stack_word(p, v);
            },
            StepKind::IncF32 => {
                let w = self.read_stack_word(p);
                let v = crate::softfloat::single_add(w, 0x3f80_0000);
                self.write_stack_word(p, v);
            },
            StepKind::DecF32 => {
                let w = self.read_stack_word(p);
                let v = crate::softfloat::single_sub(w, 0x3f80_0000);
                self.write_stack_word(p, v);
            },
            StepKind::IncI16 => {
                let h = self.read_stack_half(p);
                let v = h.wrapping_add(1);
                proof {
                    assert(v == crate::ops::inc16(h));
                }
                self.write_stack_half(p, v);
            },
            StepKind::DecI16 => {
                let h = self.read_stack_half(p);
                let v = h.wrapping_sub(1);
                proof {
                    assert(v == crate::ops::dec16(h));
                }
                self.write_stack_half(p, v);
            },
            StepKind::IncI8 => {
                let v0 = self.read_stack_byte(p);
                let v = v0.wrapping_add(1);
                proof {
                    assert(v == crate::ops::inc8(v0));
                }
                self.write_stack_byte(p, v);
            },
            StepKind::DecI8 => {
                let v0 = self.read_stack_byte(p);
                let v = v0.wrapping_sub(1);
                proof {
                    assert(v == crate::ops::dec8(v0));
                }
                self.write_stack_byte(p, v);
            },
            StepKind::IncF64 => {
                let w = self.read_stack_dword(p);
                let v = crate::softfloat::double_add(w, 0x3ff0_0000_0000_0000);
                self.write_stack_dword(p, v);
            },
            StepKind::DecF64 => {
                let w = self.read_stack_dword(p);
                let v = crate::softfloat::double_sub(w, 0x3ff0_0000_0000_0000);
                self.write_stack_dword(p, v);
            },
        }
        Ok(())
    }

    /// Reads the 16-bit value at byte offset `pos` of the stack.
    fn read_stack_half(&self, pos: usize) -> (r: u16)
        requires
            self.stack@.len() == STACK_SIZE,
            pos + 2 <= self.stack@.len(),
        ensures
            r == half_at(self.stack@, pos as int),
    {
        let bytes = slice_subrange(self.stack.as_slice(), pos, pos + 2);
        u16_from_le_bytes(bytes)
    }

    /// Writes the 16-bit value `v` at byte offset `pos` of the stack.
    fn write_stack_half(&mut self, pos: usize, v: u16)
        requires
            old(self).stack@.len() == STACK_SIZE,
            pos + 2 <= old(self).stack@.len(),
        ensures
            final(self).stack@ == store_half(old(self).stack@, pos as int, v),
            *final(self) == (ScriptVm { stack: final(self).stack, ..*old(self) }),
    {
        let bytes = u16_to_le_bytes(v);
        self.stack.set(pos, bytes[0]);
        self.stack.set(pos + 1, bytes[1]);
    }

    /// Reads the byte at offset `pos` of the stack.
    fn read_stack_byte(&self, pos: usize) -> (r: u8)
        requires
            pos < self.stack@.len(),
        ensures
            r == self.stack@[pos as int],
    {
        self.stack[pos]
    }

    /// Writes the byte `v` at offset `pos` of the stack.
    fn write_stack_byte(&mut self, pos: usize, v: u8)
        requires
            pos < old(self).stack@.len(),
        ensures
            final(self).stack@ == old(self).stack@.update(pos as int, v),
            *final(self) == (ScriptVm { stack: final(self).stack, ..*old(self) }),
    {
        self.stack.set(pos, v);
    }

    /// Unconditional jump: moves the program counter by a signed offset.
    pub(crate) fn jmp(&mut self, offset: i32) -> (r: Result<(), VmError>)
        requires
            old(self).wf(),
            old(self).context is Some,
        ensures
            final(self).wf(),
            r is Ok <==> old(self).context.unwrap().pc <= 0xffff_ffff && 0 <= old(
                self,
            ).context.unwrap().pc + offset <= 0xffff_ffff,
            r is Ok ==> final(self).context == Some(
                ScriptFunctionContext {
                    pc: (old(self).context.unwrap().pc + offset) as usize,
                    ..old(self).context.unwrap()
                },
            ) && *final(self) == (ScriptVm { context: final(self).context, ..*old(self) }),
            r is Err ==> *final(self) == *old(self) && r == Err::<(), VmError>(
                VmError::CodeOutOfBounds,
            ),
    {
        let c = self.context.unwrap();
        let np = match checked_new_pc(c.pc, offset as i64) {
            Ok(v) => v,
            Err(e) => {
                return Err(e);
            },
        };
        self.context = Some(
            ScriptFunctionContext {
                module_id: c.module_id,
                function_index: c.function_index,
                pc: np,
            },
        );
        Ok(())
    }

    /// Conditional jump that pops its test word.
    pub(crate) fn jump_pop(&mut self, t: BranchTest, offset: i32) -> (r: Result<(), VmError>)
        requires
            old(self).wf(),
            old(self).context is Some,
        ensures
            final(self).wf(),
            r is Ok <==> old(self).sp + 4 <= STACK_SIZE && (branch_taken(
                t,
                word_at(old(self).stack@, old(self).sp as int),
            ) ==> old(self).context.unwrap().pc <= 0xffff_ffff && 0 <= old(
                self,
            ).context.unwrap().pc + offset <= 0xffff_ffff),
            r is Ok ==> final(self).sp == old(self).sp + 4 && final(self).stack@ == old(
                self,
            ).stack@ && final(self).context == (if branch_taken(
                t,
                word_at(old(self).stack@, old(self).sp as int),
            ) {
                Some(
                    ScriptFunctionContext {
                        pc: (old(self).context.unwrap().pc + offset) as usize,
                        ..old(self).context.unwrap()
                    },
                )
            } else {
                old(self).context
            }) && *final(self) == (ScriptVm {
                sp: final(self).sp,
                context: final(self).context,
                ..*old(self)
            }),
            r is Err ==> *final(self) == *old(self) && r == (if old(self).sp + 4 > STACK_SIZE {
                Err::<(), VmError>(VmError::StackOutOfBounds)
            } else {
                Err::<(), VmError>(VmError::CodeOutOfBounds)
            }),
    {
        let w = match self.top_word() {
            Ok(w) => w,
            Err(e) => {
                return Err(e);
            },
        };
        if branch_taken_exec(t, w) {
            let c = self.context.unwrap();
            let np = match checked_new_pc(c.pc, offset as i64) {
                Ok(v) => v,
                Err(e) => {
                    return Err(e);
                },
            };
            self.context = Some(
                ScriptFunctionContext {
                    module_id: c.module_id,
                    function_index: c.function_index,
                    pc: np,
                },
            );
        }
        self.sp = self.sp + 4;
        Ok(())
    }

    /// Computed jump: pops an index and moves the program counter forward
    /// by eight bytes per index step.
    pub(crate) fn jmpp(&mut self) -> (r: Result<(), VmError>)
        requires
            old(self).wf(),
            old(self).context is Some,
        ensures
            final(self).wf(),
            r is Ok <==> old(self).sp + 4 <= STACK_SIZE && old(self).context.unwrap().pc
                <= 0xffff_ffff && 0 <= old(self).context.unwrap().pc + 8 * crate::ops::signed32(
                word_at(old(self).stack@, old(self).sp as int),
            ) <= 0xffff_ffff,
            r is Ok ==> final(self).sp == old(self).sp + 4 && final(self).context == Some(
                ScriptFunctionContext {
                    pc: (old(self).context.unwrap().pc + 8 * crate::ops::signed32(
                        word_at(old(self).stack@, old(self).sp as int),
                    )) as usize,
                    ..old(self).context.unwrap()
                },
            ) && *final(self) == (ScriptVm {
                sp: final(self).sp,
                context: final(self).context,
                ..*old(self)
            }),
            r is Err ==> *final(self) == *old(self),
    {
        let w = match self.top_word() {
            Ok(w) => w,
            Err(e) => {
                return Err(e);
            },
        };
        let c = self.context.unwrap();
        let np = match checked_new_pc(c.pc, 8 * ((w as i32) as i64)) {
            Ok(v) => v,
            Err(e) => {
                return Err(e);
            },
        };
        self.context = Some(
            ScriptFunctionContext {
                module_id: c.module_id,
                function_index: c.function_index,
                pc: np,
            },
        );
        self.sp = self.sp + 4;
        Ok(())
    }

    /// Pops a word into the first return register.
    pub(crate) fn sret4(&mut self) -> (r: Result<(), VmError>)
        requires
            old(self).wf(),
        ensures
            final(self).wf(),
            r is Ok <==> old(self).sp + 4 <= STACK_SIZE,
            r is Ok ==> final(self).sp == old(self).sp + 4 && final(self).r1 == word_at(
                old(self).stack@,
                old(self).sp as int,
            ) && *final(self) == (ScriptVm {
                sp: final(self).sp,
                r1: final(self).r1,
                ..*old(self)
            }),
            r is Err ==> *final(self) == *old(self) && r == Err::<(), VmError>(
                VmError::StackOutOfBounds,
            ),
    {
        let w = match self.top_word() {
            Ok(w) => w,
            Err(e) => {
                return Err(e);
            },
        };
        self.r1 = w;
        self.sp = self.sp + 4;
        Ok(())
    }

    /// Pops two words into the two return registers.
    pub(crate) fn sret8(&mut self) -> (r: Result<(), VmError>)
        requires
            old(self).wf(),
        ensures
            final(self).wf(),
            r is Ok <==> old(self).sp + 8 <= STACK_SIZE,
            r is Ok ==> final(self).sp == old(self).sp + 8 && final(self).r1 == word_at(
                old(self).stack@,
                old(self).sp as int,
            ) && final(self).r2 == word_at(old(self).stack@, old(self).sp + 4) && *final(self) == (
            ScriptVm {
                sp: final(self).sp,
                r1: final(self).r1,
                r2: final(self).r2,
                ..*old(self)
            }),
            r is Err ==> *final(self) == *old(self) && r == Err::<(), VmError>(
                VmError::StackOutOfBounds,
            ),
    {
        if self.sp + 8 > STACK_SIZE {
            return Err(VmError::StackOutOfBounds);
        }
        self.r1 = self.read_stack_word(self.sp);
        self.r2 = self.read_stack_word(self.sp + 4);
        self.sp = self.sp + 8;
        Ok(())
    }

    /// Pushes the first return register.
    pub(crate) fn rret4(&mut self) -> (r: Result<(), VmError>)
        requires
            old(self).wf(),
        ensures
            final(self).wf(),
            r is Ok <==> old(self).sp >= 4,
            r is Ok ==> final(self).sp == old(self).sp - 4 && final(self).stack@ == store_word(
                old(self).stack@,
                old(self).sp - 4,
                old(self).r1,
            ) && *final(self) == (ScriptVm {
                stack: final(self).stack,
                sp: final(self).sp,
                ..*old(self)
            }),
            r is Err ==> *final(self) == *old(self) && r == Err::<(), VmError>(
                VmError::StackOutOfBounds,
            ),
    {
        let v = self.r1;
        self.set4(v)
    }

    /// Pushes the second then the first return register, so the first ends
    /// on top.
    pub(crate) fn rret8(&mut self) -> (r: Result<(), VmError>)
        requires
            old(self).wf(),
        ensures
            final(self).wf(),
            r is Ok <==> old(self).sp >= 8,
            r is Ok ==> final(self).sp == old(self).sp - 8 && final(self).stack@ == store_word(
                store_word(old(self).stack@, old(self).sp - 4, old(self).r2),
                old(self).sp - 8,
                old(self).r1,
            ) && *final(self) == (ScriptVm {
                stack: final(self).stack,
                sp: final(self).sp,
                ..*old(self)
            }),
            r is Err ==> *final(self) == *old(self) && r == Err::<(), VmError>(
                VmError::StackOutOfBounds,
            ),
    {
        if self.sp < 8 {
            return Err(VmError::StackOutOfBounds);
        }
        self.sp = self.sp - 4;
        let p2 = self.sp;
        let v2 = self.r2;
        self.write_stack_word(p2, v2);
        self.sp = self.sp - 4;
        let p1 = self.sp;
        let v1 = self.r1;
        self.write_stack_word(p1, v1);
        Ok(())
    }

    /// Internal call: saves the active frame and starts the function with
    /// the given index in the same module.
    pub(crate) fn call_op(&mut self, function: u32)
        requires
            old(self).wf(),
            old(self).context is Some,
        ensures
            final(self).wf(),
            final(self).call_stack@ == old(self).call_stack@.push(old(self).context.unwrap()),
            final(self).context == Some(
                ScriptFunctionContext {
                    module_id: old(self).context.unwrap().module_id,
                    function_index: function as usize,
                    pc: 0,
                },
            ),
            *final(self) == (ScriptVm {
                context: final(self).context,
                call_stack: final(self).call_stack,
                ..*old(self)
            }),
    {
        let c = self.context.unwrap();
        self.call_stack.push(c);
        self.context = Some(ScriptFunctionContext::new(c.module_id, function as usize));
    }

    /// Return: restores the caller's frame from the call stack (ending the
    /// script when the call stack is empty) and discards the callee's
    /// `param_size` parameter bytes from the stack.
    pub(crate) fn ret(&mut self, param_size: u16) -> (r: Result<(), VmError>)
        requires
            old(self).wf(),
        ensures
            final(self).wf(),
            r is Ok <==> old(self).sp + param_size <= STACK_SIZE,
            r is Ok ==> final(self).sp == old(self).sp + param_size && final(self).context == (if
            old(self).call_stack@.len() > 0 {
                Some(old(self).call_stack@.last())
            } else {
                None
            }) && final(self).call_stack@ == (if old(self).call_stack@.len() > 0 {
                old(self).call_stack@.drop_last()
            } else {
                old(self).call_stack@
            }) && *final(self) == (ScriptVm {
                sp: final(self).sp,
                context: final(self).context,
                call_stack: final(self).call_stack,
                ..*old(self)
            }),
            r is Err ==> *final(self) == *old(self) && r == Err::<(), VmError>(
                VmError::StackOutOfBounds,
            ),
    {
        if self.sp + param_size as usize > STACK_SIZE {
            return Err(VmError::StackOutOfBounds);
        }
        let f = self.call_stack.pop();
        self.context = f;
        self.sp = self.sp + param_size as usize;
        Ok(())
    }

    /// Reads a global slot: a negative index addresses engine-wide slot
    /// `-index - 1` and pushes its value; this opcode leaves the
    /// module-local side unsupported (the push-global-address opcode
    /// serves it instead).
    pub(crate) fn rdga4(&mut self, offset: i32, g: &ScriptGlobalContext<F>) -> (r: Result<
        (),
        VmError,
    >)
        requires
            old(self).wf(),
        ensures
            final(self).wf(),
            r is Ok <==> offset < 0 && -offset - 1 < g.globals_view().len() && old(self).sp >= 4,
            r is Ok ==> final(self).sp == old(self).sp - 4 && final(self).stack@ == store_word(
                old(self).stack@,
                old(self).sp - 4,
                g.globals_view()[-offset - 1],
            ) && *final(self) == (ScriptVm {
                stack: final(self).stack,
                sp: final(self).sp,
                ..*old(self)
            }),
            r is Err ==> *final(self) == *old(self),
            r is Err && offset >= 0 ==> r == Err::<(), VmError>(VmError::UnsupportedOpcode(99)),
            r is Err && offset < 0 && !(-offset - 1 < g.globals_view().len()) ==> r == Err::<
                (),
                VmError,
            >(VmError::GlobalIndexOutOfBounds),
            r is Err && offset < 0 && -offset - 1 < g.globals_view().len() ==> r == Err::<
                (),
                VmError,
            >(VmError::StackOutOfBounds),
    {
        if offset >= 0 {
            return Err(VmError::UnsupportedOpcode(99));
        }
        let eidx = ((-(offset as i64)) - 1) as usize;
        if eidx >= g.global_count() {
            return Err(VmError::GlobalIndexOutOfBounds);
        }
        let value = g.get_global(eidx);
        self.set4(value)
    }

    /// Pushes a global slot's value: a non-negative index addresses the
    /// active module's slots, a negative one the engine-wide slot
    /// `-index - 1`.
    pub(crate) fn pga(&mut self, index: i32, g: &ScriptGlobalContext<F>) -> (r: Result<
        (),
        VmError,
    >)
        requires
            old(self).wf(),
            old(self).context matches Some(c) && c.module_id < old(self).modules@.len(),
        ensures
            final(self).wf(),
            ({
                let mid = old(self).context.unwrap().module_id as int;
                let gok = if index >= 0 {
                    index < old(self).modules@[mid].globals@.len()
                } else {
                    -index - 1 < g.globals_view().len()
                };
                let value = if index >= 0 {
                    old(self).modules@[mid].globals@[index as int]
                } else {
                    g.globals_view()[-index - 1]
                };
                &&& (r is Ok <==> gok && old(self).sp >= 4)
                &&& (r is Ok ==> final(self).sp == old(self).sp - 4 && final(self).stack@
                    == store_word(old(self).stack@, old(self).sp - 4, value) && *final(self) == (
                ScriptVm { stack: final(self).stack, sp: final(self).sp, ..*old(self) }))
                &&& (r is Err ==> *final(self) == *old(self) && r == (if !gok {
                    Err::<(), VmError>(VmError::GlobalIndexOutOfBounds)
                } else {
                    Err::<(), VmError>(VmError::StackOutOfBounds)
                }))
            }),
    {
        let c = self.context.unwrap();
        let value: u32;
        if index >= 0 {
            let gidx = index as usize;
            if gidx >= self.modules[c.module_id].globals.len() {
                return Err(VmError::GlobalIndexOutOfBounds);
            }
            value = self.modules[c.module_id].globals[gidx];
        } else {
            let eidx = ((-(index as i64)) - 1) as usize;
            if eidx >= g.global_count() {
                return Err(VmError::GlobalIndexOutOfBounds);
            }
            value = g.get_global(eidx);
        }
        self.set4(value)
    }

    /// Pops a word into a global slot: a non-negative index addresses the
    /// active module's slots, a negative one the engine-wide slot
    /// `-index - 1`.
    pub(crate) fn movga4(&mut self, index: i32, g: &mut ScriptGlobalContext<F>) -> (r: Result<
        (),
        VmError,
    >)
        requires
            old(self).wf(),
            old(self).context matches Some(c) && c.module_id < old(self).modules@.len(),
        ensures
            final(self).wf(),
            ({
                let mid = old(self).context.unwrap().module_id as int;
                let data = word_at(old(self).stack@, old(self).sp as int);
                let gok = if index >= 0 {
                    index < old(self).modules@[mid].globals@.len()
                } else {
                    -index - 1 < old(g).globals_view().len()
                };
                &&& (r is Ok <==> old(self).sp + 4 <= STACK_SIZE && gok)
                &&& (r is Ok ==> final(self).sp == old(self).sp + 4 && final(self).stack@ == old(
                    self,
                ).stack@)
                &&& (r is Ok && index >= 0 ==> *final(g) == *old(g) && final(self).modules@[mid]
                    == (ScriptModule {
                    globals: final(self).modules@[mid].globals,
                    ..old(self).modules@[mid]
                }) && final(self).modules@[mid].globals@ == old(
                    self,
                ).modules@[mid].globals@.update(index as int, data) && final(self).modules@ == old(
                    self,
                ).modules@.update(mid, final(self).modules@[mid]) && *final(self) == (ScriptVm {
                    sp: final(self).sp,
                    modules: final(self).modules,
                    ..*old(self)
                }))
                &&& (r is Ok && index < 0 ==> *final(self) == (ScriptVm {
                    sp: final(self).sp,
                    ..*old(self)
                }) && final(g).globals_view() == old(g).globals_view().update(-index - 1, data)
                    && final(g).funcs() == old(g).funcs())
                &&& (r is Err ==> *final(self) == *old(self) && *final(g) == *old(g) && r == (if
                old(self).sp + 4 > STACK_SIZE {
                    Err::<(), VmError>(VmError::StackOutOfBounds)
                } else {
                    Err::<(), VmError>(VmError::GlobalIndexOutOfBounds)
                }))
            }),
    {
        let data = match self.top_word() {
            Ok(w) => w,
            Err(e) => {
                return Err(e);
            },
        };
        let c = self.context.unwrap();
        if index >= 0 {
            let gidx = index as usize;
            if gidx >= self.modules[c.module_id].globals.len() {
                return Err(VmError::GlobalIndexOutOfBounds);
            }
            let m = vstd::std_specs::vec::vec_index_mut(&mut self.modules, c.module_id);
            m.globals.set(gidx, data);
        } else {
            let eidx = ((-(index as i64)) - 1) as usize;
            if eidx >= g.global_count() {
                return Err(VmError::GlobalIndexOutOfBounds);
            }
            g.set_global(eidx, data);
        }
        self.sp = self.sp + 4;
        Ok(())
    }

    /// String-constant access: pushes the string's byte length and, beneath
    /// it, its table index, for a native call to resolve.
    pub(crate) fn str_op(&mut self, index: u16) -> (r: Result<(), VmError>)
        requires
            old(self).wf(),
            old(self).context matches Some(c) && c.module_id < old(self).modules@.len(),
        ensures
            final(self).wf(),
            ({
                let mid = old(self).context.unwrap().module_id as int;
                let sok = index < old(self).modules@[mid].strings@.len();
                let len_word = crate::ops::crop32(
                    (encode_utf8(old(self).modules@[mid].strings@[index as int]@).len() as usize)
                        as int,
                );
                &&& (r is Ok <==> sok && old(self).sp >= 8)
                &&& (r is Ok ==> final(self).sp == old(self).sp - 8 && final(self).stack@
                    == store_word(
                    store_word(old(self).stack@, old(self).sp - 4, index as u32),
                    old(self).sp - 8,
                    len_word,
                ) && *final(self) == (ScriptVm {
                    stack: final(self).stack,
                    sp: final(self).sp,
                    ..*old(self)
                }))
                &&& (r is Err ==> *final(self) == *old(self) && r == (if !sok {
                    Err::<(), VmError>(VmError::StringIndexOutOfBounds)
                } else {
                    Err::<(), VmError>(VmError::StackOutOfBounds)
                }))
            }),
    {
        let c = self.context.unwrap();
        let sidx = index as usize;
        if sidx >= self.modules[c.module_id].strings.len() {
            return Err(VmError::StringIndexOutOfBounds);
        }
        if self.sp < 8 {
            return Err(VmError::StackOutOfBounds);
        }
        let byte_len = self.modules[c.module_id].strings[sidx].as_str().len();
        proof {
            lemma_trunc_usize(byte_len);
        }
        let len_word = #[verifier::truncate] (byte_len as u32);
        self.sp = self.sp - 4;
        let p1 = self.sp;
        self.write_stack_word(p1, index as u32);
        proof {
            lemma_store_word(old(self).stack@, p1 as int, index as u32);
        }
        self.sp = self.sp - 4;
        let p2 = self.sp;
        self.write_stack_word(p2, len_word);
        Ok(())
    }

    /// Writes the object register into a frame-pointer-relative parameter
    /// slot.
    pub(crate) fn storeobj(&mut self, param_index: i16) -> (r: Result<(), VmError>)
        requires
            old(self).wf(),
        ensures
            final(self).wf(),
            r is Ok <==> 0 <= STACK_SIZE - param_index * 4 && STACK_SIZE - param_index * 4 + 4
                <= STACK_SIZE,
            r is Ok ==> final(self).sp == old(self).sp && final(self).stack@ == store_word(
                old(self).stack@,
                STACK_SIZE - param_index * 4,
                crate::ops::crop32(old(self).robj as int),
            ) && *final(self) == (ScriptVm { stack: final(self).stack, ..*old(self) }),
            r is Err ==> *final(self) == *old(self) && r == Err::<(), VmError>(
                VmError::StackOutOfBounds,
            ),
    {
        let pos_i: i64 = self.fp as i64 - (param_index as i64) * 4;
        if pos_i < 0 || pos_i + 4 > STACK_SIZE as i64 {
            return Err(VmError::StackOutOfBounds);
        }
        let pos = pos_i as usize;
        proof {
            lemma_trunc_usize(self.robj);
        }
        let value = #[verifier::truncate] (self.robj as u32);
        self.write_stack_word(pos, value);
        proof {
            lemma_store_word(old(self).stack@, pos as int, value);
        }
        Ok(())
    }

    /// Frees a heap slot: pops an indirect pointer to a heap index and
    /// clears that slot.
    pub(crate) fn free_op(&mut self, _obj_type: u32) -> (r: Result<(), VmError>)
        requires
            old(self).wf(),
        ensures
            final(self).wf(),
            ({
                let obj_ref = word_at(old(self).stack@, old(self).sp as int);
                let obj_index = word_at(old(self).stack@, obj_ref as int);
                &&& (r is Ok <==> old(self).sp + 4 <= STACK_SIZE && obj_ref + 4 <= STACK_SIZE
                    && obj_index < old(self).heap@.len())
                &&& (r is Ok ==> final(self).sp == old(self).sp + 4 && final(self).heap@ == old(
                    self,
                ).heap@.update(obj_index as int, None::<String>) && *final(self) == (ScriptVm {
                    sp: final(self).sp,
                    heap: final(self).heap,
                    ..*old(self)
                }))
                &&& (r is Err ==> *final(self) == *old(self) && r == (if old(self).sp + 4
                    <= STACK_SIZE && obj_ref + 4 <= STACK_SIZE {
                    Err::<(), VmError>(VmError::HeapIndexOutOfBounds)
                } else {
                    Err::<(), VmError>(VmError::StackOutOfBounds)
                }))
            }),
    {
        let obj_ref = match self.top_word() {
            Ok(w) => w,
            Err(e) => {
                return Err(e);
            },
        };
        if obj_ref > (STACK_SIZE - 4) as u32 {
            return Err(VmError::StackOutOfBounds);
        }
        let obj_index = self.read_stack_word(obj_ref as usize);
        if obj_index as usize >= self.heap.len() {
            return Err(VmError::HeapIndexOutOfBounds);
        }
        self.heap.set(obj_index as usize, None);
        self.sp = self.sp + 4;
        Ok(())
    }

    /// Replaces the stack word at a stack-pointer-relative offset (holding
    /// a parameter index) with the object reference stored in that
    /// frame-pointer-relative parameter slot.
    pub(crate) fn getobjref(&mut self, offset: i16) -> (r: Result<(), VmError>)
        requires
            old(self).wf(),
        ensures
            final(self).wf(),
            ({
                let addr = old(self).sp + offset * 4;
                let index = word_at(old(self).stack@, addr);
                let pos2 = STACK_SIZE - index * 4;
                &&& (r is Ok <==> 0 <= addr && addr + 4 <= STACK_SIZE && 0 <= pos2 && pos2 + 4
                    <= STACK_SIZE)
                &&& (r is Ok ==> final(self).sp == old(self).sp && final(self).stack@
                    == store_word(old(self).stack@, addr, word_at(old(self).stack@, pos2))
                    && *final(self) == (ScriptVm { stack: final(self).stack, ..*old(self) }))
                &&& (r is Err ==> *final(self) == *old(self) && r == Err::<(), VmError>(
                    VmError::StackOutOfBounds,
                ))
            }),
    {
        let addr_i: i64 = self.sp as i64 + (offset as i64) * 4;
        if addr_i < 0 || addr_i + 4 > STACK_SIZE as i64 {
            return Err(VmError::StackOutOfBounds);
        }
        let addr = addr_i as usize;
        let index = self.read_stack_word(addr);
        let pos2_i: i64 = self.fp as i64 - (index as i64) * 4;
        if pos2_i < 0 || pos2_i + 4 > STACK_SIZE as i64 {
            return Err(VmError::StackOutOfBounds);
        }
        let pos2 = pos2_i as usize;
        let objref = self.read_stack_word(pos2);
        self.write_stack_word(addr, objref);
        proof {
            lemma_store_word(old(self).stack@, addr as int, objref);
        }
        Ok(())
    }
}

/// How a truncating cast to a 32-bit word relates to the value.
pub(crate) proof fn lemma_trunc_usize(x: usize)
    ensures
        (x as u32) as int == (x as int) % 0x1_0000_0000,
{
    assert((x as u32) as int == (x as int) % 0x1_0000_0000) by (bit_vector);
}

/// The stack after the copy opcode has moved `k` 4-byte words, one at a
/// time in ascending address order, each read seeing the writes before it
/// (with disjoint source and destination ranges this is a plain block
/// copy).
pub open spec fn copy_step(s: Seq<u8>, dst: int, src: int, k: nat) -> Seq<u8>
    decreases k,
{
    if k == 0 {
        s
    } else {
        let s1 = copy_step(s, dst, src, (k - 1) as nat);
        store_word(s1, dst + 4 * (k - 1), word_at(s1, src + 4 * (k - 1)))
    }
}

impl<A, F> ScriptVm<A, F> {
    /// Block copy: pops a destination address, reads a source address (left
    /// on the stack), and copies `count` words between them at consecutive
    /// byte offsets.
    pub(crate) fn copy_op(&mut self, count: u16) -> (r: Result<(), VmError>)
        requires
            old(self).wf(),
        ensures
            final(self).wf(),
            ({
                let dst = word_at(old(self).stack@, old(self).sp as int);
                let src = word_at(old(self).stack@, old(self).sp + 4);
                &&& (r is Ok <==> old(self).sp + 8 <= STACK_SIZE && (count > 0 ==> dst + 4 * count
                    <= STACK_SIZE && src + 4 * count <= STACK_SIZE))
                &&& (r is Ok ==> final(self).sp == old(self).sp + 4 && final(self).stack@
                    == copy_step(old(self).stack@, dst as int, src as int, count as nat)
                    && *final(self) == (ScriptVm {
                    stack: final(self).stack,
                    sp: final(self).sp,
                    ..*old(self)
                }))
                &&& (r is Err ==> *final(self) == *old(self) && r == Err::<(), VmError>(
                    VmError::StackOutOfBounds,
                ))
            }),
    {
        if self.sp + 8 > STACK_SIZE {
            return Err(VmError::StackOutOfBounds);
        }
        let dst = self.read_stack_word(self.sp);
        let src = self.read_stack_word(self.sp + 4);
        if count > 0 {
            if dst as u64 + 4 * count as u64 > STACK_SIZE as u64 || src as u64 + 4 * count as u64
                > STACK_SIZE as u64 {
                return Err(VmError::StackOutOfBounds);
            }
        }
        self.sp = self.sp + 4;
        let ghost s0 = self.stack@;
        let mut i: usize = 0;
        while i < count as usize
            invariant
                i <= count,
                self.stack@.len() == STACK_SIZE,
                count > 0 ==> dst + 4 * count <= STACK_SIZE && src + 4 * count <= STACK_SIZE,
                self.stack@ == copy_step(s0, dst as int, src as int, i as nat),
                *self == (ScriptVm { stack: self.stack, sp: self.sp, ..*old(self) }),
                self.sp == old(self).sp + 4,
            decreases count - i,
        {
            let w = self.read_stack_word(src as usize + 4 * i);
            self.write_stack_word(dst as usize + 4 * i, w);
            proof {
                lemma_store_word(
                    copy_step(s0, dst as int, src as int, i as nat),
                    dst + 4 * i,
                    w,
                );
            }
            i = i + 1;
        }
        Ok(())
    }

    /// Rewrites the active frame's program counter.
    pub(crate) fn set_pc(&mut self, pc: usize)
        requires
            old(self).context is Some,
        ensures
            final(self).context == Some(
                ScriptFunctionContext { pc, ..old(self).context.unwrap() },
            ),
            *final(self) == (ScriptVm { context: final(self).context, ..*old(self) }),
            final(self).wf() == old(self).wf(),
    {
        let c = self.context.unwrap();
        self.context = Some(
            ScriptFunctionContext { module_id: c.module_id, function_index: c.function_index, pc },
        );
    }

    /// An owned copy of one function's instruction bytes.
    fn function_inst(&self, mid: usize, fidx: usize) -> (r: Vec<u8>)
        requires
            mid < self.modules@.len(),
            fidx < self.modules@[mid as int].functions@.len(),
        ensures
            r@ == self.modules@[mid as int].functions@[fidx as int].inst@,
    {
        let src = &self.modules[mid].functions[fidx].inst;
        let n = src.len();
        let mut out: Vec<u8> = Vec::new();
        let mut i: usize = 0;
        while i < n
            invariant
                i <= n,
                n == src@.len(),
                out@ == src@.subrange(0, i as int),
            decreases n - i,
        {
            out.push(src[i]);
            proof {
                assert(out@ =~= src@.subrange(0, i + 1));
            }
            i = i + 1;
        }
        proof {
            assert(out@ =~= src@);
        }
        out
    }
}

/// Ceiling on opcodes dispatched in one `execute` call, so a runaway
/// script cannot hang the host's frame; a script that reaches it simply
/// resumes on the next tick.
pub const TICK_OP_BUDGET: u64 = 1_000_000;

/// Whether one dispatched opcode lets the tick go on or pauses it (a
/// suspend, or a native call that yielded).
pub(crate) enum StepOutcome {
    Continue,
    Pause,
}

/// The recognized opcode bytes whose semantics the instruction set leaves
/// undefined (the bound-call and the unexercised reference-management
/// ones); executing any of them is fatal, never a silent no-op.
pub open spec fn is_unsupported_opcode(op: u8) -> bool {
    op == 98 || op == 109 || op == 111 || op == 113 || op == 114 || op == 116 || op == 117 || op
        == 119 || op == 120 || op == 121 || op == 122
}

/// Opcode bytes outside the instruction set entirely; fetching one is
/// fatal.
pub open spec fn is_unknown_opcode(op: u8) -> bool {
    op > 122
}

impl<A, F: ScriptNative<A>> ScriptVm<A, F> {
    /// Native call: resolves the negative-encoded index in the registry and
    /// dispatches the entry exactly once; a completed call lets the tick go
    /// on with the queue as the native left it, while a yielded call's
    /// continuation joins the queue and pauses the tick. A non-negative or
    /// out-of-range index is fatal, before anything runs.
    pub(crate) fn callsys(&mut self, function: i32, g: &ScriptGlobalContext<F>) -> (r: Result<
        StepOutcome,
        VmError,
    >)
        requires
            old(self).wf(),
        ensures
            final(self).wf(),
            r is Err <==> function >= 0 || -function - 1 >= g.funcs().len(),
            r is Err ==> *final(self) == *old(self) && r == Err::<StepOutcome, VmError>(
                VmError::NativeIndexOutOfBounds,
            ),
            r == Ok::<StepOutcome, VmError>(StepOutcome::Continue) ==> final(self).conts() == old(
                self,
            ).conts(),
            r == Ok::<StepOutcome, VmError>(StepOutcome::Pause) ==> final(self).conts().len() == old(
                self,
            ).conts().len() + 1 && final(self).conts().drop_last() == old(self).conts(),
            final(self).conts() == old(self).conts() || (final(self).conts().len() == old(
                self,
            ).conts().len() + 1 && final(self).conts().drop_last() == old(self).conts()),
            Self::modules_extended(*old(self), *final(self)),
    {
        if function >= 0 {
            return Err(VmError::NativeIndexOutOfBounds);
        }
        let index = ((-(function as i64)) - 1) as usize;
        if index >= g.function_count() {
            return Err(VmError::NativeIndexOutOfBounds);
        }
        let state = g.call_function(index, self);
        match state {
            GlobalFunctionState::Completed => Ok(StepOutcome::Continue),
            GlobalFunctionState::Yield(cont) => {
                self.yield_func.push(cont);
                Ok(StepOutcome::Pause)
            },
        }
    }

    /// Decodes one opcode's operands at `pc` and dispatches it. `reg` is
    /// the per-dispatch scratch slot of the store/recall pair. Each opcode
    /// helper carries the exact semantics; this contract adds what holds
    /// across the dispatch: registered code is never altered, the
    /// continuation queue moves only through a native call's yield, the
    /// shared context changes only through the global-write opcode, and
    /// the undefined, suspend, and reference-check opcodes have their
    /// outcome fixed here.
    fn step(
        &mut self,
        g: &mut ScriptGlobalContext<F>,
        opcode: u8,
        inst: &Vec<u8>,
        pc: usize,
        reg: &mut u32,
    ) -> (r: Result<StepOutcome, VmError>)
        requires
            old(self).wf(),
            old(self).context matches Some(c) && c.module_id < old(self).modules@.len(),
        ensures
            final(self).wf(),
            Self::modules_extended(*old(self), *final(self)),
            opcode != 97 ==> final(self).conts() == old(self).conts(),
            opcode == 97 ==> final(self).conts() == old(self).conts() || (final(self).conts().len()
                == old(self).conts().len() + 1 && final(self).conts().drop_last() == old(
                self,
            ).conts()),
            opcode != 100 ==> *final(g) == *old(g),
            final(g).funcs() == old(g).funcs(),
            final(g).globals_view().len() == old(g).globals_view().len(),
            is_unsupported_opcode(opcode) ==> r == Err::<StepOutcome, VmError>(
                VmError::UnsupportedOpcode(opcode),
            ) && *final(self) == *old(self),
            is_unknown_opcode(opcode) ==> r == Err::<StepOutcome, VmError>(
                VmError::UnknownOpcode(opcode),
            ) && *final(self) == *old(self),
            opcode == 108 ==> r == Ok::<StepOutcome, VmError>(StepOutcome::Pause) && *final(self)
                == *old(self),
            opcode == 115 ==> r == Ok::<StepOutcome, VmError>(StepOutcome::Continue) && *final(self)
                == *old(self),
            opcode == 97 && pc + 4 > inst@.len() ==> r == Err::<StepOutcome, VmError>(
                VmError::CodeOutOfBounds,
            ) && *final(self) == *old(self),
            opcode == 97 && pc + 4 <= inst@.len() && ({
                let operand = spec_u32_from_le_bytes(inst@.subrange(pc as int, pc + 4)) as i32;
                operand >= 0 || -operand - 1 >= old(g).funcs().len()
            }) ==> r == Err::<StepOutcome, VmError>(VmError::NativeIndexOutOfBounds)
                && final(self).context == Some(
                ScriptFunctionContext { pc: (pc + 4) as usize, ..old(self).context.unwrap() },
            ) && *final(self) == (ScriptVm { context: final(self).context, ..*old(self) }),
    {
        match opcode {
            0 => {
                let (size, npc) = read_arg_u16(inst, pc)?;
                self.set_pc(npc);
                self.pop(size)?;
                Ok(StepOutcome::Continue)
            },
            1 => {
                let (size, npc) = read_arg_u16(inst, pc)?;
                self.set_pc(npc);
                self.push(size)?;
                Ok(StepOutcome::Continue)
            },
            2 => {
                let (data, npc) = read_arg_u32(inst, pc)?;
                self.set_pc(npc);
                self.set4(data)?;
                Ok(StepOutcome::Continue)
            },
            3 => {
                self.rd4()?;
                Ok(StepOutcome::Continue)
            },
            4 => {
                let (index, npc) = read_arg_u16(inst, pc)?;
                self.set_pc(npc);
                self.rdsf4(index)?;
                Ok(StepOutcome::Continue)
            },
            5 => {
                self.wrt4()?;
                Ok(StepOutcome::Continue)
            },
            6 => {
                self.mov4()?;
                Ok(StepOutcome::Continue)
            },
            7 => {
                let (index, npc) = read_arg_u16(inst, pc)?;
                self.set_pc(npc);
                self.psf(index)?;
                Ok(StepOutcome::Continue)
            },
            8 => {
                let (index, npc) = read_arg_u16(inst, pc)?;
                self.set_pc(npc);
                self.movsf4(index)?;
                Ok(StepOutcome::Continue)
            },
            9 => {
                self.swap32()?;
                Ok(StepOutcome::Continue)
            },
            // The store/recall scratch slot deliberately lives for one
            // dispatch only, as the engine this instruction set comes from
            // had it: a recall after any other opcode pushes the slot's
            // fresh zero, never a value stored earlier.
            10 => {
                let v = self.top_word()?;
                *reg = v;
                Ok(StepOutcome::Continue)
            },
            11 => {
                let v = *reg;
                self.set4(v)?;
                Ok(StepOutcome::Continue)
            },
            12 => {
                let (function, npc) = read_arg_u32(inst, pc)?;
                self.set_pc(npc);
                self.call_op(function);
                Ok(StepOutcome::Continue)
            },
            13 => {
                let (param_size, npc) = read_arg_u16(inst, pc)?;
                self.set_pc(npc);
                self.ret(param_size)?;
                Ok(StepOutcome::Continue)
            },
            14 => {
                let (offset, npc) = read_arg_i32(inst, pc)?;
                self.set_pc(npc);
                self.jmp(offset)?;
                Ok(StepOutcome::Continue)
            },
            15 => {
                let (offset, npc) = read_arg_i32(inst, pc)?;
                self.set_pc(npc);
                self.jump_pop(BranchTest::Zero, offset)?;
                Ok(StepOutcome::Continue)
            },
            16 => {
                let (offset, npc) = read_arg_i32(inst, pc)?;
                self.set_pc(npc);
                self.jump_pop(BranchTest::NonZero, offset)?;
                Ok(StepOutcome::Continue)
            },
            17 => {
                self.unary32(crate::ops::UnaryOp32::Tz)?;
                Ok(StepOutcome::Continue)
            },
            18 => {
                self.unary32(crate::ops::UnaryOp32::Tnz)?;
                Ok(StepOutcome::Continue)
            },
            19 => {
                self.unary32(crate::ops::UnaryOp32::TsLtz)?;
                Ok(StepOutcome::Continue)
            },
            20 => {
                self.unary32(crate::ops::UnaryOp32::TnsGez)?;
                Ok(StepOutcome::Continue)
            },
            21 => {
                self.unary32(crate::ops::UnaryOp32::TpGtz)?;
                Ok(StepOutcome::Continue)
            },
            22 => {
                self.unary32(crate::ops::UnaryOp32::TnpLez)?;
                Ok(StepOutcome::Continue)
            },
            23 => {
                self.binary32(crate::ops::BinaryOp32::AddI32)?;
                Ok(StepOutcome::Continue)
            },
            24 => {
                self.binary32(crate::ops::BinaryOp32::SubI32)?;
                Ok(StepOutcome::Continue)
            },
            25 => {
                self.binary32(crate::ops::BinaryOp32::MulI32)?;
                Ok(StepOutcome::Continue)
            },
            26 => {
                self.binary32(crate::ops::BinaryOp32::DivI32)?;
                Ok(StepOutcome::Continue)
            },
            27 => {
                self.binary32(crate::ops::BinaryOp32::ModI32)?;
                Ok(StepOutcome::Continue)
            },
            28 => {
                self.unary32(crate::ops::UnaryOp32::NegI32)?;
                Ok(StepOutcome::Continue)
            },
            29 => {
                self.binary32(crate::ops::BinaryOp32::CmpI32)?;
                Ok(StepOutcome::Continue)
            },
            30 => {
                self.incdec(StepKind::IncI32)?;
                Ok(StepOutcome::Continue)
            },
            31 => {
                self.incdec(StepKind::DecI32)?;
                Ok(StepOutcome::Continue)
            },
            32 => {
                self.unary32(crate::ops::UnaryOp32::I2f)?;
                Ok(StepOutcome::Continue)
            },
            33 => {
                self.binary32(crate::ops::BinaryOp32::AddF32)?;
                Ok(StepOutcome::Continue)
            },
            34 => {
                self.binary32(crate::ops::BinaryOp32::SubF32)?;
                Ok(StepOutcome::Continue)
            },
            35 => {
                self.binary32(crate::ops::BinaryOp32::MulF32)?;
                Ok(StepOutcome::Continue)
            },
            36 => {
                self.binary32(crate::ops::BinaryOp32::DivF32)?;
                Ok(StepOutcome::Continue)
            },
            37 => {
                self.binary32(crate::ops::BinaryOp32::ModF32)?;
                Ok(StepOutcome::Continue)
            },
            38 => {
                self.unary32(crate::ops::UnaryOp32::NegF32)?;
                Ok(StepOutcome::Continue)
            },
            39 => {
                self.binary32(crate::ops::BinaryOp32::CmpF32)?;
                Ok(StepOutcome::Continue)
            },
            40 => {
                self.incdec(StepKind::IncF32)?;
                Ok(StepOutcome::Continue)
            },
            41 => {
                self.incdec(StepKind::DecF32)?;
                Ok(StepOutcome::Continue)
            },
            42 => {
                self.unary32(crate::ops::UnaryOp32::F2i)?;
                Ok(StepOutcome::Continue)
            },
            43 => {
                self.unary32(crate::ops::UnaryOp32::Bnot)?;
                Ok(StepOutcome::Continue)
            },
            44 => {
                self.binary32(crate::ops::BinaryOp32::Band)?;
                Ok(StepOutcome::Continue)
            },
            45 => {
                self.binary32(crate::ops::BinaryOp32::Bor)?;
                Ok(StepOutcome::Continue)
            },
            46 => {
                self.binary32(crate::ops::BinaryOp32::Bxor)?;
                Ok(StepOutcome::Continue)
            },
            47 => {
                self.binary32(crate::ops::BinaryOp32::Bsll)?;
                Ok(StepOutcome::Continue)
            },
            48 => {
                self.binary32(crate::ops::BinaryOp32::Bsrl)?;
                Ok(StepOutcome::Continue)
            },
            49 => {
                self.binary32(crate::ops::BinaryOp32::Bsra)?;
                Ok(StepOutcome::Continue)
            },
            50 => {
                self.unary32(crate::ops::UnaryOp32::Ui2f)?;
                Ok(StepOutcome::Continue)
            },
            51 => {
                self.unary32(crate::ops::UnaryOp32::F2ui)?;
                Ok(StepOutcome::Continue)
            },
            52 => {
                self.binary32(crate::ops::BinaryOp32::CmpU32)?;
                Ok(StepOutcome::Continue)
            },
            53 => {
                self.unary32(crate::ops::UnaryOp32::Sb)?;
                Ok(StepOutcome::Continue)
            },
            54 => {
                self.unary32(crate::ops::UnaryOp32::Sw)?;
                Ok(StepOutcome::Continue)
            },
            55 => {
                self.unary32(crate::ops::UnaryOp32::Ub)?;
                Ok(StepOutcome::Continue)
            },
            56 => {
                self.unary32(crate::ops::UnaryOp32::Uw)?;
                Ok(StepOutcome::Continue)
            },
            57 => {
                self.binary32(crate::ops::BinaryOp32::Wrt1)?;
                Ok(StepOutcome::Continue)
            },
            58 => {
                self.binary32(crate::ops::BinaryOp32::Wrt2)?;
                Ok(StepOutcome::Continue)
            },
            59 => {
                self.incdec(StepKind::IncI16)?;
                Ok(StepOutcome::Continue)
            },
            60 => {
                self.incdec(StepKind::IncI8)?;
                Ok(StepOutcome::Continue)
            },
            61 => {
                self.incdec(StepKind::DecI16)?;
                Ok(StepOutcome::Continue)
            },
            62 => {
                self.incdec(StepKind::DecI8)?;
                Ok(StepOutcome::Continue)
            },
            63 => {
                self.set4(0)?;
                Ok(StepOutcome::Continue)
            },
            64 => {
                let (count, npc) = read_arg_u16(inst, pc)?;
                self.set_pc(npc);
                self.copy_op(count)?;
                Ok(StepOutcome::Continue)
            },
            65 => {
                let (index, npc) = read_arg_i32(inst, pc)?;
                self.set_pc(npc);
                self.pga(index, g)?;
                Ok(StepOutcome::Continue)
            },
            66 => {
                let (data, npc) = read_arg_u64(inst, pc)?;
                self.set_pc(npc);
                self.set8(data)?;
                Ok(StepOutcome::Continue)
            },
            67 => {
                self.wrt8()?;
                Ok(StepOutcome::Continue)
            },
            68 => {
                self.rd8()?;
                Ok(StepOutcome::Continue)
            },
            69 => {
                self.neg64()?;
                Ok(StepOutcome::Continue)
            },
            70 => {
                self.incdec(StepKind::IncF64)?;
                Ok(StepOutcome::Continue)
            },
            71 => {
                self.incdec(StepKind::DecF64)?;
                Ok(StepOutcome::Continue)
            },
            72 => {
                self.binary64(crate::ops::BinaryOp64::AddF64)?;
                Ok(StepOutcome::Continue)
            },
            73 => {
                self.binary64(crate::ops::BinaryOp64::SubF64)?;
                Ok(StepOutcome::Continue)
            },
            74 => {
                self.binary64(crate::ops::BinaryOp64::MulF64)?;
                Ok(StepOutcome::Continue)
            },
            75 => {
                self.binary64(crate::ops::BinaryOp64::DivF64)?;
                Ok(StepOutcome::Continue)
            },
            76 => {
                self.binary64(crate::ops::BinaryOp64::ModF64)?;
                Ok(StepOutcome::Continue)
            },
            77 => {
                self.swap64()?;
                Ok(StepOutcome::Continue)
            },
            78 => {
                self.cmp64()?;
                Ok(StepOutcome::Continue)
            },
            79 => {
                self.d2i()?;
                Ok(StepOutcome::Continue)
            },
            80 => {
                self.d2ui()?;
                Ok(StepOutcome::Continue)
            },
            81 => {
                self.d2f()?;
                Ok(StepOutcome::Continue)
            },
            82 => {
                self.x2d(WidenSrc::I32)?;
                Ok(StepOutcome::Continue)
            },
            83 => {
                self.x2d(WidenSrc::U32)?;
                Ok(StepOutcome::Continue)
            },
            84 => {
                self.x2d(WidenSrc::F32)?;
                Ok(StepOutcome::Continue)
            },
            85 => {
                self.jmpp()?;
                Ok(StepOutcome::Continue)
            },
            86 => {
                self.sret4()?;
                Ok(StepOutcome::Continue)
            },
            87 => {
                self.sret8()?;
                Ok(StepOutcome::Continue)
            },
            88 => {
                self.rret4()?;
                Ok(StepOutcome::Continue)
            },
            89 => {
                self.rret8()?;
                Ok(StepOutcome::Continue)
            },
            90 => {
                let (index, npc) = read_arg_u16(inst, pc)?;
                self.set_pc(npc);
                self.str_op(index)?;
                Ok(StepOutcome::Continue)
            },
            91 => {
                let (offset, npc) = read_arg_i32(inst, pc)?;
                self.set_pc(npc);
                self.jump_pop(BranchTest::GeZero, offset)?;
                Ok(StepOutcome::Continue)
            },
            92 => {
                let (offset, npc) = read_arg_i32(inst, pc)?;
                self.set_pc(npc);
                self.jump_pop(BranchTest::LtZero, offset)?;
                Ok(StepOutcome::Continue)
            },
            93 => {
                let (offset, npc) = read_arg_i32(inst, pc)?;
                self.set_pc(npc);
                self.jump_pop(BranchTest::LeZero, offset)?;
                Ok(StepOutcome::Continue)
            },
            94 => {
                let (offset, npc) = read_arg_i32(inst, pc)?;
                self.set_pc(npc);
                self.jump_pop(BranchTest::GtZero, offset)?;
                Ok(StepOutcome::Continue)
            },
            95 => {
                let (rhs, npc) = read_arg_i32(inst, pc)?;
                self.set_pc(npc);
                self.unary32(crate::ops::UnaryOp32::CmpiI32(rhs))?;
                Ok(StepOutcome::Continue)
            },
            96 => {
                let (rhs, npc) = read_arg_u32(inst, pc)?;
                self.set_pc(npc);
                self.unary32(crate::ops::UnaryOp32::CmpiU32(rhs))?;
                Ok(StepOutcome::Continue)
            },
            97 => {
                let (function, npc) = read_arg_i32(inst, pc)?;
                self.set_pc(npc);
                self.callsys(function, &*g)
            },
            98 => Err(VmError::UnsupportedOpcode(98)),
            99 => {
                let (offset, npc) = read_arg_i32(inst, pc)?;
                self.set_pc(npc);
                self.rdga4(offset, g)?;
                Ok(StepOutcome::Continue)
            },
            100 => {
                let (index, npc) = read_arg_i32(inst, pc)?;
                self.set_pc(npc);
                self.movga4(index, g)?;
                Ok(StepOutcome::Continue)
            },
            101 => {
                let (rhs, npc) = read_arg_i32(inst, pc)?;
                self.set_pc(npc);
                self.unary32(crate::ops::UnaryOp32::AddiI32(rhs))?;
                Ok(StepOutcome::Continue)
            },
            102 => {
                let (rhs, npc) = read_arg_i32(inst, pc)?;
                self.set_pc(npc);
                self.unary32(crate::ops::UnaryOp32::SubiI32(rhs))?;
                Ok(StepOutcome::Continue)
            },
            103 => {
                let (rhs, npc) = read_arg_u32(inst, pc)?;
                self.set_pc(npc);
                self.unary32(crate::ops::UnaryOp32::CmpiF32(rhs))?;
                Ok(StepOutcome::Continue)
            },
            104 => {
                let (rhs, npc) = read_arg_u32(inst, pc)?;
                self.set_pc(npc);
                self.unary32(crate::ops::UnaryOp32::AddiF32(rhs))?;
                Ok(StepOutcome::Continue)
            },
            105 => {
                let (rhs, npc) = read_arg_u32(inst, pc)?;
                self.set_pc(npc);
                self.unary32(crate::ops::UnaryOp32::SubiF32(rhs))?;
                Ok(StepOutcome::Continue)
            },
            106 => {
                let (rhs, npc) = read_arg_i32(inst, pc)?;
                self.set_pc(npc);
                self.unary32(crate::ops::UnaryOp32::MuliI32(rhs))?;
                Ok(StepOutcome::Continue)
            },
            107 => {
                let (rhs, npc) = read_arg_u32(inst, pc)?;
                self.set_pc(npc);
                self.unary32(crate::ops::UnaryOp32::MuliF32(rhs))?;
                Ok(StepOutcome::Continue)
            },
            108 => Ok(StepOutcome::Pause),
            109 => Err(VmError::UnsupportedOpcode(109)),
            110 => {
                let (obj_type, npc) = read_arg_u32(inst, pc)?;
                self.set_pc(npc);
                self.free_op(obj_type)?;
                Ok(StepOutcome::Continue)
            },
            112 => {
                let (param_index, npc) = read_arg_i16(inst, pc)?;
                self.set_pc(npc);
                self.storeobj(param_index)?;
                Ok(StepOutcome::Continue)
            },
            115 => Ok(StepOutcome::Continue),
            118 => {
                let (offset, npc) = read_arg_i16(inst, pc)?;
                self.set_pc(npc);
                self.getobjref(offset)?;
                Ok(StepOutcome::Continue)
            },
            111 | 113 | 114 | 116 | 117 | 119 | 120 | 121 | 122 => Err(
                VmError::UnsupportedOpcode(opcode),
            ),
            _ => Err(VmError::UnknownOpcode(opcode)),
        }
    }

    /// The input classes whose first dispatched step `execute`'s contract
    /// fixes outright: no continuation is queued, and the active frame
    /// either fails one of the fetch checks or fetches an opcode whose
    /// outcome needs no opcode-specific state (an undefined opcode or the
    /// explicit suspend).
    spec fn first_step_pinned(pre: Self, registry_len: int) -> bool {
        let f = pre.cur().unwrap();
        let idle = pre.conts().len() == 0;
        let framed = pre.cur() is Some && f.module_id < pre.mods().len() && f.function_index
            < pre.mods()[f.module_id as int].functions@.len();
        let code = pre.mods()[f.module_id as int].functions@[f.function_index as int].inst@;
        let fetchable = framed && f.pc < code.len() && f.pc + 4 <= usize::MAX;
        ||| idle && pre.cur() is Some && f.module_id >= pre.mods().len()
        ||| idle && pre.cur() is Some && f.module_id < pre.mods().len() && f.function_index
            >= pre.mods()[f.module_id as int].functions@.len()
        ||| idle && framed && f.pc >= code.len()
        ||| idle && fetchable && is_unsupported_opcode(code[f.pc as int])
        ||| idle && fetchable && is_unknown_opcode(code[f.pc as int])
        ||| idle && fetchable && code[f.pc as int] == 108
        ||| idle && fetchable && code[f.pc as int] == 97 && f.pc + 8 > code.len()
        ||| idle && fetchable && code[f.pc as int] == 97 && f.pc + 8 <= code.len() && ({
            let operand = spec_u32_from_le_bytes(code.subrange(f.pc + 4, f.pc + 8)) as i32;
            operand >= 0 || -operand - 1 >= registry_len
        })
    }

    /// Advances the script for one host tick: polls every queued
    /// continuation once with the tick's delta time, then dispatches
    /// opcodes from the active frame until the script finishes, an opcode
    /// or a yielding native call pauses the tick, a polled continuation
    /// reports it must still block, the per-tick opcode budget runs out
    /// (`TICK_OP_BUDGET`, after which the tick simply ends early and the
    /// next one resumes), or a fatal error aborts the script. A fatal
    /// error clears the active frame: the script is gone and later calls
    /// return without work. With no active frame the interpreter is left
    /// untouched. Calling again on the next tick resumes exactly where
    /// execution paused.
    ///
    /// Beyond the per-opcode contracts of the helpers the dispatcher
    /// delegates to, the contract fixes: registered code is never altered;
    /// and, with no continuation queued, the first step's outcome on a
    /// frame that fails a fetch check (module, function, or program
    /// counter out of range), fetches an undefined opcode, or fetches the
    /// explicit suspend.
    pub fn execute(&mut self, g: &mut ScriptGlobalContext<F>, delta_bits: u32) -> (r: Result<
        (),
        VmError,
    >)
        requires
            old(self).wf(),
        ensures
            final(self).wf(),
            old(self).cur() is None ==> r is Ok && *final(self) == *old(self) && *final(g) == *old(
                g,
            ),
            r is Err ==> final(self).cur() is None,
            Self::modules_extended(*old(self), *final(self)),
            final(g).funcs() == old(g).funcs(),
            final(g).globals_view().len() == old(g).globals_view().len(),
            ({
                let f = old(self).cur().unwrap();
                let idle = old(self).conts().len() == 0;
                let framed = old(self).cur() is Some && f.module_id < old(self).mods().len()
                    && f.function_index < old(self).mods()[f.module_id as int].functions@.len();
                let code = old(self).mods()[f.module_id as int].functions@[f.function_index
                    as int].inst@;
                let fetchable = framed && f.pc < code.len() && f.pc + 4 <= usize::MAX;
                let op = code[f.pc as int];
                &&& (idle && old(self).cur() is Some && f.module_id >= old(self).mods().len() ==> r
                    == Err::<(), VmError>(VmError::ModuleIndexOutOfBounds) && *final(g) == *old(g)
                    && Self::stack_eq(*final(self), *old(self)) && Self::objs_eq(
                    *final(self),
                    *old(self),
                ) && Self::regs_eq(*final(self), *old(self)) && Self::misc_eq(
                    *final(self),
                    *old(self),
                ) && final(self).frames() == old(self).frames() && final(self).mods() == old(
                    self,
                ).mods())
                &&& (idle && old(self).cur() is Some && f.module_id < old(self).mods().len()
                    && f.function_index >= old(self).mods()[f.module_id as int].functions@.len()
                    ==> r == Err::<(), VmError>(VmError::FunctionIndexOutOfBounds) && *final(g) == *old(g)
                    && Self::stack_eq(*final(self), *old(self)) && Self::objs_eq(
                    *final(self),
                    *old(self),
                ) && Self::regs_eq(*final(self), *old(self)) && Self::misc_eq(
                    *final(self),
                    *old(self),
                ) && final(self).frames() == old(self).frames() && final(self).mods() == old(
                    self,
                ).mods())
                &&& (idle && framed && f.pc >= code.len() ==> r == Err::<(), VmError>(
                    VmError::CodeOutOfBounds,
                ) && *final(g) == *old(g)
                    && Self::stack_eq(*final(self), *old(self)) && Self::objs_eq(
                    *final(self),
                    *old(self),
                ) && Self::regs_eq(*final(self), *old(self)) && Self::misc_eq(
                    *final(self),
                    *old(self),
                ) && final(self).frames() == old(self).frames() && final(self).mods() == old(
                    self,
                ).mods())
                &&& (idle && fetchable && is_unsupported_opcode(op) ==> r == Err::<(), VmError>(
                    VmError::UnsupportedOpcode(op),
                ) && *final(g) == *old(g)
                    && Self::stack_eq(*final(self), *old(self)) && Self::objs_eq(
                    *final(self),
                    *old(self),
                ) && Self::regs_eq(*final(self), *old(self)) && Self::misc_eq(
                    *final(self),
                    *old(self),
                ) && final(self).frames() == old(self).frames() && final(self).mods() == old(
                    self,
                ).mods())
                &&& (idle && fetchable && is_unknown_opcode(op) ==> r == Err::<(), VmError>(
                    VmError::UnknownOpcode(op),
                ) && *final(g) == *old(g)
                    && Self::stack_eq(*final(self), *old(self)) && Self::objs_eq(
                    *final(self),
                    *old(self),
                ) && Self::regs_eq(*final(self), *old(self)) && Self::misc_eq(
                    *final(self),
                    *old(self),
                ) && final(self).frames() == old(self).frames() && final(self).mods() == old(
                    self,
                ).mods())
                &&& (idle && fetchable && op == 97 && f.pc + 8 > code.len() ==> r == Err::<
                    (),
                    VmError,
                >(VmError::CodeOutOfBounds) && *final(g) == *old(g)
                    && Self::stack_eq(*final(self), *old(self)) && Self::objs_eq(
                    *final(self),
                    *old(self),
                ) && Self::regs_eq(*final(self), *old(self)) && Self::misc_eq(
                    *final(self),
                    *old(self),
                ) && final(self).frames() == old(self).frames() && final(self).mods() == old(
                    self,
                ).mods())
                &&& (idle && fetchable && op == 97 && f.pc + 8 <= code.len() && ({
                    let operand = spec_u32_from_le_bytes(code.subrange(f.pc + 4, f.pc + 8)) as i32;
                    operand >= 0 || -operand - 1 >= old(g).funcs().len()
                }) ==> r == Err::<(), VmError>(VmError::NativeIndexOutOfBounds) && *final(g) == *old(g)
                    && Self::stack_eq(*final(self), *old(self)) && Self::objs_eq(
                    *final(self),
                    *old(self),
                ) && Self::regs_eq(*final(self), *old(self)) && Self::misc_eq(
                    *final(self),
                    *old(self),
                ) && final(self).frames() == old(self).frames() && final(self).mods() == old(
                    self,
                ).mods())
                &&& (idle && fetchable && op == 108 ==> r is Ok && final(self).cur() == Some(
                    ScriptFunctionContext { pc: (f.pc + 4) as usize, ..f },
                ) && final(self).frames() == old(self).frames() && final(self).mods() == old(
                    self,
                ).mods() && Self::stack_eq(*final(self), *old(self)) && Self::objs_eq(
                    *final(self),
                    *old(self),
                ) && Self::regs_eq(*final(self), *old(self)) && Self::misc_eq(
                    *final(self),
                    *old(self),
                ) && *final(g) == *old(g))
            }),
    {
        if self.context.is_none() {
            return Ok(());
        }
        let mut fuel: u64 = TICK_OP_BUDGET;
        let ghost mut first: bool = true;
        loop
            invariant
                self.wf(),
                old(self).context is Some,
                Self::modules_extended(*old(self), *self),
                g.funcs() == old(g).funcs(),
                g.globals_view().len() == old(g).globals_view().len(),
                first ==> *self == *old(self) && *g == *old(g) && fuel == TICK_OP_BUDGET,
                !first ==> !Self::first_step_pinned(*old(self), old(g).funcs().len() as int),
            decreases fuel,
        {
            if self.context.is_none() {
                return Ok(());
            }
            if fuel == 0 {
                return Ok(());
            }
            fuel = fuel - 1;
            let mut pending: Vec<F> = Vec::new();
            std::mem::swap(&mut pending, &mut self.yield_func);
            let ghost pending0 = pending@;
            let ghost self0 = *self;
            let mut survivors: Vec<F> = Vec::new();
            let mut wait: bool = false;
            while pending.len() > 0
                invariant
                    self.wf(),
                    Self::modules_extended(*old(self), *self),
                    pending@.len() <= pending0.len(),
                    pending0.len() == 0 ==> *self == self0 && !wait && survivors@.len() == 0,
                decreases pending@.len(),
            {
                let mut cont = pending.pop().unwrap();
                let ghost pre_poll = *self;
                let state = cont.poll(self, delta_bits);
                proof {
                    Self::lemma_modules_extended_trans(*old(self), pre_poll, *self);
                }
                let keep_block = classify_poll(state);
                if keep_block.0 {
                    survivors.push(cont);
                }
                if keep_block.1 {
                    wait = true;
                }
            }
            self.yield_func = survivors;
            proof {
                if old(self).conts().len() == 0 && pending0.len() == 0 {
                    assert(self.yield_func@ =~= old(self).conts());
                }
            }
            if wait {
                return Ok(());
            }
            let c = match self.context {
                Some(c) => c,
                None => {
                    return Ok(());
                },
            };
            if c.module_id >= self.modules.len() {
                self.context = None;
                return Err(VmError::ModuleIndexOutOfBounds);
            }
            if c.function_index >= self.modules[c.module_id].functions.len() {
                self.context = None;
                return Err(VmError::FunctionIndexOutOfBounds);
            }
            let inst = self.function_inst(c.module_id, c.function_index);
            if c.pc >= inst.len() {
                self.context = None;
                return Err(VmError::CodeOutOfBounds);
            }
            let opcode = inst[c.pc];
            let npc = match c.pc.checked_add(4) {
                Some(v) => v,
                None => {
                    self.context = None;
                    return Err(VmError::CodeOutOfBounds);
                },
            };
            self.set_pc(npc);
            let mut reg: u32 = 0;
            let ghost pre_step = *self;
            let step_result = self.step(g, opcode, &inst, npc, &mut reg);
            proof {
                Self::lemma_modules_extended_trans(*old(self), pre_step, *self);
            }
            match step_result {
                Ok(StepOutcome::Continue) => {},
                Ok(StepOutcome::Pause) => {
                    return Ok(());
                },
                Err(e) => {
                    self.context = None;
                    return Err(e);
                },
            }
            proof {
                first = false;
            }
        }
    }
}

} // verus!
