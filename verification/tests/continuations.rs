//! The cooperative yield protocol: a yielded native call pauses the tick,
//! a `Loop` poll blocks later ticks, a `Concurrent` poll does not, and
//! dispatch resumes where it paused once the continuation completes.

use angelscript_vm::global_context::{
    ContinuationState, GlobalFunctionState, ScriptGlobalContext, ScriptGlobalFunction,
    ScriptNative,
};
use angelscript_vm::module::{ScriptFunction, ScriptModule};
use angelscript_vm::vm::ScriptVm;

/// The host payload counts continuation polls.
type Polls = u32;

#[derive(Clone, Copy, Debug, PartialEq, Eq)]
enum TestNative {
    /// Yields a continuation that reports `Loop` until its count runs out.
    BlockFor(u32),
    /// Yields a continuation that reports `Concurrent` until its count
    /// runs out.
    RunAlongside(u32),
}

impl ScriptNative<Polls> for TestNative {
    fn call(&self, _name: &str, _vm: &mut ScriptVm<Polls, Self>) -> GlobalFunctionState<Self> {
        GlobalFunctionState::Yield(*self)
    }

    fn poll(&mut self, vm: &mut ScriptVm<Polls, Self>, _delta_bits: u32) -> ContinuationState {
        *vm.app_context_mut() += 1;
        match self {
            TestNative::BlockFor(n) => {
                if *n == 0 {
                    ContinuationState::Completed
                } else {
                    *n -= 1;
                    ContinuationState::Loop
                }
            },
            TestNative::RunAlongside(n) => {
                if *n == 0 {
                    ContinuationState::Completed
                } else {
                    *n -= 1;
                    ContinuationState::Concurrent
                }
            },
        }
    }
}

fn op(v: &mut Vec<u8>, code: u8) {
    v.extend_from_slice(&[code, 0, 0, 0]);
}

fn a16(v: &mut Vec<u8>, x: u16) {
    v.extend_from_slice(&x.to_le_bytes());
}

fn a32(v: &mut Vec<u8>, x: u32) {
    v.extend_from_slice(&x.to_le_bytes());
}

fn set4(v: &mut Vec<u8>, x: u32) {
    op(v, 2);
    a32(v, x);
}

/// Builds a script that pushes 1, makes the first registered native call,
/// then pushes 2 and finishes.
fn yielding_script() -> Vec<u8> {
    let mut v = Vec::new();
    set4(&mut v, 1);
    op(&mut v, 97);
    a32(&mut v, (-1i32) as u32);
    set4(&mut v, 2);
    op(&mut v, 13);
    a16(&mut v, 0);
    v
}

fn setup(native: TestNative) -> (ScriptVm<Polls, TestNative>, ScriptGlobalContext<TestNative>) {
    let module = ScriptModule::new(
        vec![ScriptFunction::new("main".to_string(), yielding_script())],
        Vec::new(),
        Vec::new(),
    );
    let mut g: ScriptGlobalContext<TestNative> = ScriptGlobalContext::new();
    g.register_function(ScriptGlobalFunction::new("blockOrRun", native));
    (ScriptVm::new(module, 0, 0), g)
}

/// A native call returning a yield pauses that tick's dispatch; each later
/// tick polls the continuation again; a `Loop` answer keeps dispatch
/// blocked; once it completes, the next tick resumes where the script
/// paused.
#[test]
fn yield_pauses_loop_blocks_completion_resumes() {
    let (mut vm, mut g) = setup(TestNative::BlockFor(2));

    // Tick 1: dispatch reaches the native call, which yields; the 2 after
    // the call is not pushed yet.
    vm.execute(&mut g, 0).unwrap();
    assert_eq!(*vm.app_context(), 0);
    let top = vm.stack_pop().unwrap();
    assert_eq!(top, 1);
    vm.stack_push(top).unwrap();

    // Ticks 2 and 3: the continuation is polled and still blocks; no
    // opcode runs.
    vm.execute(&mut g, 0).unwrap();
    assert_eq!(*vm.app_context(), 1);
    vm.execute(&mut g, 0).unwrap();
    assert_eq!(*vm.app_context(), 2);
    let top = vm.stack_pop().unwrap();
    assert_eq!(top, 1);
    vm.stack_push(top).unwrap();

    // Tick 4: the poll completes, dispatch resumes exactly after the
    // call, and the script finishes.
    vm.execute(&mut g, 0).unwrap();
    assert_eq!(*vm.app_context(), 3);
    assert_eq!(vm.stack_pop().unwrap(), 2);
    assert_eq!(vm.stack_pop().unwrap(), 1);
}

/// A `Concurrent` continuation stays queued but does not block the tick:
/// the script runs to completion on the very tick its poll answered
/// `Concurrent`, being re-polled before each further opcode dispatch.
#[test]
fn concurrent_does_not_block_dispatch() {
    let (mut vm, mut g) = setup(TestNative::RunAlongside(9));

    // Tick 1: the call yields (pausing only this tick).
    vm.execute(&mut g, 0).unwrap();
    assert_eq!(*vm.app_context(), 0);

    // Tick 2: every poll answers Concurrent, and the same tick finishes
    // the script (one poll before each of its two remaining dispatches).
    vm.execute(&mut g, 0).unwrap();
    assert_eq!(*vm.app_context(), 2);
    assert_eq!(vm.stack_pop().unwrap(), 2);
    assert_eq!(vm.stack_pop().unwrap(), 1);

    // With the script finished, ticks return at once.
    vm.execute(&mut g, 0).unwrap();
    assert_eq!(*vm.app_context(), 2);
}
