//! The native-function bridge: a name-indexed registry of host callbacks
//! invocable from script through the `callsys` opcode, plus the table of
//! engine-wide global-variable slots shared across all modules. Hosts own a
//! context and lend it to each `execute` call; two interpreters given the
//! same context see the same engine globals.

use crate::vm::ScriptVm;
use vstd::prelude::*;

verus! {

/// Number of engine-wide 32-bit global-variable slots in a context.
pub const ENGINE_GLOBAL_COUNT: usize = 256;

/// Per-poll outcome of a yielded native call's continuation. `Completed`
/// removes it from the queue; `Loop` keeps it and halts the tick's opcode
/// dispatch; `Concurrent` keeps it while letting dispatch continue.
#[derive(Clone, Copy, Debug, PartialEq, Eq, Structural)]
pub enum ContinuationState {
    Loop,
    Concurrent,
    Completed,
}

/// Outcome of a native call: done now, or in need of re-polling once per
/// host tick until its continuation reports completion.
pub enum GlobalFunctionState<F> {
    Yield(F),
    Completed,
}

/// A host-side native function. One value both answers a `callsys` dispatch
/// (`call`) and, when that call yields, serves as the queued continuation
/// polled once per tick (`poll`). Implementations outside this crate are
/// unverified; the contracts here oblige them to keep the interpreter
/// well-formed, to leave the continuation queue to the interpreter (a
/// callback yields by returning `Yield`, never by touching the queue), and
/// never to alter an already-registered module's functions or string table
/// — all of which every public interpreter operation guarantees.
pub trait ScriptNative<A>: Sized {
    /// Answers one `callsys` dispatch. `name` is the name the entry was
    /// registered under; the callback may push and pop the interpreter's
    /// stack, use its heap, switch the active function, and mutate the
    /// application context.
    fn call(&self, name: &str, vm: &mut ScriptVm<A, Self>) -> (r: GlobalFunctionState<Self>)
        requires
            old(vm).wf(),
        ensures
            final(vm).wf(),
            final(vm).conts() == old(vm).conts(),
            ScriptVm::<A, Self>::modules_extended(*old(vm), *final(vm)),
    ;

    /// One per-tick poll of a yielded call, with the tick's delta time
    /// handed through as raw bits.
    fn poll(&mut self, vm: &mut ScriptVm<A, Self>, delta_bits: u32) -> (r: ContinuationState)
        requires
            old(vm).wf(),
        ensures
            final(vm).wf(),
            final(vm).conts() == old(vm).conts(),
            ScriptVm::<A, Self>::modules_extended(*old(vm), *final(vm)),
    ;
}

/// How one continuation poll outcome is handled: the first component says
/// whether the continuation stays in the queue, the second whether it
/// blocks the rest of this tick's opcode dispatch. Only `Completed` leaves
/// the queue; only `Loop` blocks dispatch — a `Concurrent` outcome keeps
/// the continuation without blocking.
pub fn classify_poll(state: ContinuationState) -> (r: (bool, bool))
    ensures
        r.0 == (state != ContinuationState::Completed),
        r.1 == (state == ContinuationState::Loop),
{
    match state {
        ContinuationState::Loop => (true, true),
        ContinuationState::Concurrent => (true, false),
        ContinuationState::Completed => (false, false),
    }
}

/// A registry entry: the script-visible name and the host callback.
pub struct ScriptGlobalFunction<F> {
    pub name: String,
    pub func: F,
}

impl<F> ScriptGlobalFunction<F> {
    pub fn new(name: &str, func: F) -> (r: Self)
        ensures
            r.name@ == name@,
            r.func == func,
    {
        Self { name: name.to_owned(), func }
    }
}

/// The process-wide registry of native functions and engine-global slots.
/// `callsys` sites address entries by registration order through the
/// negative index encoding, so hosts must register names in the order the
/// compiled bytecode numbered them.
pub struct ScriptGlobalContext<F> {
    pub(crate) functions: Vec<ScriptGlobalFunction<F>>,
    pub(crate) globals: Vec<u32>,
}

impl<F> ScriptGlobalContext<F> {
    /// The registered native functions, in registration order.
    pub closed spec fn funcs(self) -> Seq<ScriptGlobalFunction<F>> {
        self.functions@
    }

    /// The engine-wide global slots.
    pub closed spec fn globals_view(self) -> Seq<u32> {
        self.globals@
    }

    /// An empty registry with all engine-global slots zero.
    pub fn new() -> (r: Self)
        ensures
            r.funcs().len() == 0,
            r.globals_view().len() == ENGINE_GLOBAL_COUNT,
            forall|i: int| 0 <= i < ENGINE_GLOBAL_COUNT ==> r.globals_view()[i] == 0,
    {
        Self { functions: Vec::new(), globals: vec![0u32; ENGINE_GLOBAL_COUNT] }
    }

    /// Appends a native function; it receives the next index in the
    /// `callsys` numbering.
    pub fn register_function(&mut self, function: ScriptGlobalFunction<F>)
        ensures
            final(self).funcs() == old(self).funcs().push(function),
            final(self).globals_view() == old(self).globals_view(),
    {
        self.functions.push(function);
    }

    /// Number of registered native functions.
    pub fn function_count(&self) -> (r: usize)
        ensures
            r == self.funcs().len(),
    {
        self.functions.len()
    }

    /// Number of engine-wide global slots.
    pub fn global_count(&self) -> (r: usize)
        ensures
            r == self.globals_view().len(),
    {
        self.globals.len()
    }

    /// Reads an engine-wide global slot.
    pub fn get_global(&self, index: usize) -> (r: u32)
        requires
            index < self.globals_view().len(),
        ensures
            r == self.globals_view()[index as int],
    {
        self.globals[index]
    }

    /// Writes an engine-wide global slot.
    pub fn set_global(&mut self, index: usize, value: u32)
        requires
            index < old(self).globals_view().len(),
        ensures
            final(self).globals_view() == old(self).globals_view().update(index as int, value),
            final(self).funcs() == old(self).funcs(),
    {
        self.globals.set(index, value);
    }

    /// Dispatches the native function at `index`, passing it its registered
    /// name and the calling interpreter.
    pub fn call_function<A>(&self, index: usize, vm: &mut ScriptVm<A, F>) -> (r:
        GlobalFunctionState<F>) where F: ScriptNative<A>
        requires
            index < self.funcs().len(),
            old(vm).wf(),
        ensures
            final(vm).wf(),
            final(vm).conts() == old(vm).conts(),
            ScriptVm::<A, F>::modules_extended(*old(vm), *final(vm)),
    {
        let entry = &self.functions[index];
        entry.func.call(entry.name.as_str(), vm)
    }
}

} // verus!
