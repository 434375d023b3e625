//! A small stack-based bytecode virtual machine for compiled game scripts.
//!
//! The interpreter executes a packed bytecode stream over a raw byte stack
//! (values of width 4 or 8 bytes, no runtime type tags), keeps a call stack
//! of saved frames, exchanges values with host-registered native functions,
//! and supports a cooperative yield protocol that lets one script instruction
//! block across several host ticks.
//!
//! The host owns the [`global_context::ScriptGlobalContext`] — the registry
//! of native functions and the engine-wide global slots — and lends it to
//! every [`vm::ScriptVm::execute`] call, so several interpreters borrowing
//! one context share its globals. Floating-point opcodes work on raw bit
//! patterns in software (see [`softfloat`]), so results are deterministic
//! and identical on every machine. All fatal conditions — unknown or
//! unsupported opcodes, division by zero, out-of-bounds accesses — surface
//! as a structured [`VmError`] that aborts the running script rather than
//! leaving it in an undefined state.

use vstd::prelude::*;

pub mod global_context;
pub mod laws;
pub mod module;
pub mod ops;
pub mod pal4;
pub mod sized_string;
pub mod softfloat;
pub mod vm;

verus! {

/// A fatal interpreter error. Any of these aborts the running script:
/// after `execute` returns one of them the active context is gone and
/// further `execute` calls do nothing.
#[derive(Clone, Copy, Debug, PartialEq, Eq, Structural)]
pub enum VmError {
    /// An opcode byte outside the instruction set.
    UnknownOpcode(u8),
    /// A recognized opcode whose semantics the instruction set leaves
    /// undefined; executing one must not silently continue.
    UnsupportedOpcode(u8),
    /// Integer or floating-point division or modulo with a zero divisor.
    DivisionByZero,
    /// A stack access (read or write) outside the fixed stack buffer.
    StackOutOfBounds,
    /// The program counter left the active function's instruction bytes.
    CodeOutOfBounds,
    /// A global-variable slot index outside the module-local or engine-wide table.
    GlobalIndexOutOfBounds,
    /// An object-heap slot index outside the heap.
    HeapIndexOutOfBounds,
    /// A frame whose module index is outside the module registry.
    ModuleIndexOutOfBounds,
    /// A `call` target outside the module's function table.
    FunctionIndexOutOfBounds,
    /// A string-constant index outside the module's string table.
    StringIndexOutOfBounds,
    /// A native-call index outside the registered native-function table.
    NativeIndexOutOfBounds,
}

} // verus!
