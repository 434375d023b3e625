//! The immutable-after-load representation of one compiled script unit:
//! an ordered function table, a string constant table, and module-local
//! global-variable slots, plus the little-endian operand readers used to
//! decode immediates out of a function's instruction bytes.

use crate::VmError;
use vstd::bytes::{
    spec_u16_from_le_bytes, spec_u32_from_le_bytes, spec_u64_from_le_bytes, u16_from_le_bytes,
    u32_from_le_bytes, u64_from_le_bytes,
};
use vstd::prelude::*;
use vstd::slice::slice_subrange;

verus! {

/// One compiled script function: an immutable name and its raw instruction
/// bytes. Functions are addressed by index within their owning module and
/// are never mutated after load.
pub struct ScriptFunction {
    pub name: String,
    pub inst: Vec<u8>,
}

impl ScriptFunction {
    pub fn new(name: String, inst: Vec<u8>) -> (r: Self)
        ensures
            r.name == name,
            r.inst == inst,
    {
        Self { name, inst }
    }
}

/// One compiled script unit. The function table and string table are fixed
/// after load; the module-local global slots are 32-bit words that scripts
/// may write through the global-access opcodes.
pub struct ScriptModule {
    pub functions: Vec<ScriptFunction>,
    pub strings: Vec<String>,
    pub globals: Vec<u32>,
}

impl ScriptModule {
    pub fn new(functions: Vec<ScriptFunction>, strings: Vec<String>, globals: Vec<u32>) -> (r: Self)
        ensures
            r.functions == functions,
            r.strings == strings,
            r.globals == globals,
    {
        Self { functions, strings, globals }
    }
}

/// Relies on `str`'s `PartialEq`: two string slices compare equal exactly
/// when their character sequences are equal.
#[verifier::external_body]
pub(crate) fn str_eq(a: &str, b: &str) -> (r: bool)
    ensures
        r == (a@ == b@),
{
    a == b
}

/// Reads a 16-bit little-endian operand at `pc`, returning the value and the
/// advanced program counter.
pub fn read_arg_u16(inst: &Vec<u8>, pc: usize) -> (r: Result<(u16, usize), VmError>)
    ensures
        r is Ok <==> pc + 2 <= inst@.len(),
        r matches Ok(v) ==> v.0 == spec_u16_from_le_bytes(inst@.subrange(pc as int, pc + 2))
            && v.1 == pc + 2,
        r is Err ==> r == Err::<(u16, usize), VmError>(VmError::CodeOutOfBounds),
{
    let n = inst.len();
    if pc >= n || n - pc < 2 {
        return Err(VmError::CodeOutOfBounds);
    }
    let bytes = slice_subrange(inst.as_slice(), pc, pc + 2);
    Ok((u16_from_le_bytes(bytes), pc + 2))
}

/// Reads a 16-bit little-endian operand at `pc` and reinterprets it as signed.
pub fn read_arg_i16(inst: &Vec<u8>, pc: usize) -> (r: Result<(i16, usize), VmError>)
    ensures
        r is Ok <==> pc + 2 <= inst@.len(),
        r matches Ok(v) ==> v.0 == spec_u16_from_le_bytes(inst@.subrange(pc as int, pc + 2)) as i16
            && v.1 == pc + 2,
        r is Err ==> r == Err::<(i16, usize), VmError>(VmError::CodeOutOfBounds),
{
    match read_arg_u16(inst, pc) {
        Ok((v, next)) => Ok((v as i16, next)),
        Err(e) => Err(e),
    }
}

/// Reads a 32-bit little-endian operand at `pc`.
pub fn read_arg_u32(inst: &Vec<u8>, pc: usize) -> (r: Result<(u32, usize), VmError>)
    ensures
        r is Ok <==> pc + 4 <= inst@.len(),
        r matches Ok(v) ==> v.0 == spec_u32_from_le_bytes(inst@.subrange(pc as int, pc + 4))
            && v.1 == pc + 4,
        r is Err ==> r == Err::<(u32, usize), VmError>(VmError::CodeOutOfBounds),
{
    let n = inst.len();
    if pc >= n || n - pc < 4 {
        return Err(VmError::CodeOutOfBounds);
    }
    let bytes = slice_subrange(inst.as_slice(), pc, pc + 4);
    Ok((u32_from_le_bytes(bytes), pc + 4))
}

/// Reads a 32-bit little-endian operand at `pc` and reinterprets it as signed.
pub fn read_arg_i32(inst: &Vec<u8>, pc: usize) -> (r: Result<(i32, usize), VmError>)
    ensures
        r is Ok <==> pc + 4 <= inst@.len(),
        r matches Ok(v) ==> v.0 == spec_u32_from_le_bytes(inst@.subrange(pc as int, pc + 4)) as i32
            && v.1 == pc + 4,
        r is Err ==> r == Err::<(i32, usize), VmError>(VmError::CodeOutOfBounds),
{
    match read_arg_u32(inst, pc) {
        Ok((v, next)) => Ok((v as i32, next)),
        Err(e) => Err(e),
    }
}

/// Reads a 64-bit little-endian operand at `pc`.
pub fn read_arg_u64(inst: &Vec<u8>, pc: usize) -> (r: Result<(u64, usize), VmError>)
    ensures
        r is Ok <==> pc + 8 <= inst@.len(),
        r matches Ok(v) ==> v.0 == spec_u64_from_le_bytes(inst@.subrange(pc as int, pc + 8))
            && v.1 == pc + 8,
        r is Err ==> r == Err::<(u64, usize), VmError>(VmError::CodeOutOfBounds),
{
    let n = inst.len();
    if pc >= n || n - pc < 8 {
        return Err(VmError::CodeOutOfBounds);
    }
    let bytes = slice_subrange(inst.as_slice(), pc, pc + 8);
    Ok((u64_from_le_bytes(bytes), pc + 8))
}

} // verus!
