//! The native-function catalog of the role-playing game's script engine:
//! the entry points compiled script code reaches through `callsys`, in the
//! exact registration order its bytecode numbers them by. Entries whose
//! behavior lives entirely in the script engine (parameter cleanup, fixed
//! answers) are carried out here and verified; entries that drive the
//! excluded collaborators (scenes, dialogue UI, audio) are registered as
//! not implemented, and a host supplies its own catalog with the same
//! ordering to provide them.

use crate::global_context::{
    ContinuationState, GlobalFunctionState, ScriptGlobalContext, ScriptGlobalFunction,
    ScriptNative,
};
use crate::module::ScriptModule;
use crate::vm::{ScriptFunctionContext, ScriptVm, STACK_SIZE};
use vstd::prelude::*;

verus! {

/// The verified subset of the native catalog. One value is both the
/// registry entry and (were any of these to yield) its continuation.
#[derive(Clone, Copy, Debug, PartialEq, Eq, Structural)]
pub enum Pal4Function {
    ImmBegin,
    ImmEnd,
    NewGame,
    ArenaReady,
    PlayerSetLeader,
    PlayerLock,
    Unknown,
    CameraSetCollide,
    CameraSeekToPlayer,
    CameraAutoSeek,
    PlayerSetAttr,
    AddPlayerEquip,
    OpenMovieFlag,
    AddQuestCompletePercentage,
    ScriptMusicPlay,
    ScriptMusicStop,
    ArenaMusicStop,
    DdSoundPlay,
    GrantSystemUi,
    GrantMagicSystem,
    CheckMagicMastered,
    ScriptMusicPause,
    ScriptMusicResume,
    Wait,
    PlayerDoAction,
    PlayerCurrentSetPos,
    PlayerCurrentSetAng,
    CameraPrepare,
    CameraRunSingle,
    FlashOutBlack,
    FlashInBlack,
    PlayMovie,
    NotImplemented,
}

/// Opens an immediate-mode section; nothing to do in the core. Takes no stack parameters and completes at once, leaving the
/// interpreter untouched.
pub fn imm_begin<A, F>(_name: &str, vm: &mut ScriptVm<A, F>) -> (r: GlobalFunctionState<
    F,
>)
    requires
        old(vm).wf(),
    ensures
        final(vm).wf(),
        r is Completed,
        *final(vm) == *old(vm),
{
    GlobalFunctionState::Completed
}

/// Closes an immediate-mode section; nothing to do in the core. Takes no stack parameters and completes at once, leaving the
/// interpreter untouched.
pub fn imm_end<A, F>(_name: &str, vm: &mut ScriptVm<A, F>) -> (r: GlobalFunctionState<
    F,
>)
    requires
        old(vm).wf(),
    ensures
        final(vm).wf(),
        r is Completed,
        *final(vm) == *old(vm),
{
    GlobalFunctionState::Completed
}

/// Starts a new game; nothing to do in the core. Takes no stack parameters and completes at once, leaving the
/// interpreter untouched.
pub fn new_game<A, F>(_name: &str, vm: &mut ScriptVm<A, F>) -> (r: GlobalFunctionState<
    F,
>)
    requires
        old(vm).wf(),
    ensures
        final(vm).wf(),
        r is Completed,
        *final(vm) == *old(vm),
{
    GlobalFunctionState::Completed
}

/// Pauses script-driven music; sound is a collaborator concern. Takes no stack parameters and completes at once, leaving the
/// interpreter untouched.
pub fn script_music_pause<A, F>(_name: &str, vm: &mut ScriptVm<A, F>) -> (r: GlobalFunctionState<
    F,
>)
    requires
        old(vm).wf(),
    ensures
        final(vm).wf(),
        r is Completed,
        *final(vm) == *old(vm),
{
    GlobalFunctionState::Completed
}

/// Resumes script-driven music; sound is a collaborator concern. Takes no stack parameters and completes at once, leaving the
/// interpreter untouched.
pub fn script_music_resume<A, F>(_name: &str, vm: &mut ScriptVm<A, F>) -> (r: GlobalFunctionState<
    F,
>)
    requires
        old(vm).wf(),
    ensures
        final(vm).wf(),
        r is Completed,
        *final(vm) == *old(vm),
{
    GlobalFunctionState::Completed
}

/// Locks player input; input is a collaborator concern. Takes no stack parameters and completes at once, leaving the
/// interpreter untouched.
pub fn player_lock<A, F>(_name: &str, vm: &mut ScriptVm<A, F>) -> (r: GlobalFunctionState<
    F,
>)
    requires
        old(vm).wf(),
    ensures
        final(vm).wf(),
        r is Completed,
        *final(vm) == *old(vm),
{
    GlobalFunctionState::Completed
}

/// Points the camera at the player; a collaborator concern. Takes no stack parameters and completes at once, leaving the
/// interpreter untouched.
pub fn camera_seek_to_player<A, F>(_name: &str, vm: &mut ScriptVm<A, F>) -> (r: GlobalFunctionState<
    F,
>)
    requires
        old(vm).wf(),
    ensures
        final(vm).wf(),
        r is Completed,
        *final(vm) == *old(vm),
{
    GlobalFunctionState::Completed
}

/// Marks the arena ready; nothing to do in the core. Takes no stack parameters and completes at once, leaving the
/// interpreter untouched.
pub fn arena_ready<A, F>(_name: &str, vm: &mut ScriptVm<A, F>) -> (r: GlobalFunctionState<
    F,
>)
    requires
        old(vm).wf(),
    ensures
        final(vm).wf(),
        r is Completed,
        *final(vm) == *old(vm),
{
    GlobalFunctionState::Completed
}

/// A placeholder entry the compiled content calls without effect. Takes no stack parameters and completes at once, leaving the
/// interpreter untouched.
pub fn unknown<A, F>(_name: &str, vm: &mut ScriptVm<A, F>) -> (r: GlobalFunctionState<
    F,
>)
    requires
        old(vm).wf(),
    ensures
        final(vm).wf(),
        r is Completed,
        *final(vm) == *old(vm),
{
    GlobalFunctionState::Completed
}

/// Discards its 3 parameter words and completes; what the parameters
/// asked of the excluded collaborators is not this core's concern.
pub fn flash_out_black<A, F>(_name: &str, vm: &mut ScriptVm<A, F>) -> (r: GlobalFunctionState<
    F,
>)
    requires
        old(vm).wf(),
    ensures
        final(vm).wf(),
        r is Completed,
        old(vm).sp() + 12 <= STACK_SIZE ==> final(vm).sp() == old(vm).sp() + 12 && final(vm).mem()
            == old(vm).mem(),
        old(vm).sp() + 12 > STACK_SIZE ==> *final(vm) == *old(vm),
        ScriptVm::<A, F>::ctrl_eq(*final(vm), *old(vm)),
        ScriptVm::<A, F>::objs_eq(*final(vm), *old(vm)),
        ScriptVm::<A, F>::regs_eq(*final(vm), *old(vm)),
        ScriptVm::<A, F>::misc_eq(*final(vm), *old(vm)),
{
    let _ = vm.stack_discard(3);
    GlobalFunctionState::Completed
}

/// Discards its 2 parameter words and completes; what the parameters
/// asked of the excluded collaborators is not this core's concern.
pub fn flash_in_black<A, F>(_name: &str, vm: &mut ScriptVm<A, F>) -> (r: GlobalFunctionState<
    F,
>)
    requires
        old(vm).wf(),
    ensures
        final(vm).wf(),
        r is Completed,
        old(vm).sp() + 8 <= STACK_SIZE ==> final(vm).sp() == old(vm).sp() + 8 && final(vm).mem()
            == old(vm).mem(),
        old(vm).sp() + 8 > STACK_SIZE ==> *final(vm) == *old(vm),
        ScriptVm::<A, F>::ctrl_eq(*final(vm), *old(vm)),
        ScriptVm::<A, F>::objs_eq(*final(vm), *old(vm)),
        ScriptVm::<A, F>::regs_eq(*final(vm), *old(vm)),
        ScriptVm::<A, F>::misc_eq(*final(vm), *old(vm)),
{
    let _ = vm.stack_discard(2);
    GlobalFunctionState::Completed
}

/// Discards its 1 parameter word and completes; what the parameters
/// asked of the excluded collaborators is not this core's concern.
pub fn play_movie<A, F>(_name: &str, vm: &mut ScriptVm<A, F>) -> (r: GlobalFunctionState<
    F,
>)
    requires
        old(vm).wf(),
    ensures
        final(vm).wf(),
        r is Completed,
        old(vm).sp() + 4 <= STACK_SIZE ==> final(vm).sp() == old(vm).sp() + 4 && final(vm).mem()
            == old(vm).mem(),
        old(vm).sp() + 4 > STACK_SIZE ==> *final(vm) == *old(vm),
        ScriptVm::<A, F>::ctrl_eq(*final(vm), *old(vm)),
        ScriptVm::<A, F>::objs_eq(*final(vm), *old(vm)),
        ScriptVm::<A, F>::regs_eq(*final(vm), *old(vm)),
        ScriptVm::<A, F>::misc_eq(*final(vm), *old(vm)),
{
    let _ = vm.stack_discard(1);
    GlobalFunctionState::Completed
}

/// Discards its 2 parameter words and completes; what the parameters
/// asked of the excluded collaborators is not this core's concern.
pub fn add_player_equip<A, F>(_name: &str, vm: &mut ScriptVm<A, F>) -> (r: GlobalFunctionState<
    F,
>)
    requires
        old(vm).wf(),
    ensures
        final(vm).wf(),
        r is Completed,
        old(vm).sp() + 8 <= STACK_SIZE ==> final(vm).sp() == old(vm).sp() + 8 && final(vm).mem()
            == old(vm).mem(),
        old(vm).sp() + 8 > STACK_SIZE ==> *final(vm) == *old(vm),
        ScriptVm::<A, F>::ctrl_eq(*final(vm), *old(vm)),
        ScriptVm::<A, F>::objs_eq(*final(vm), *old(vm)),
        ScriptVm::<A, F>::regs_eq(*final(vm), *old(vm)),
        ScriptVm::<A, F>::misc_eq(*final(vm), *old(vm)),
{
    let _ = vm.stack_discard(2);
    GlobalFunctionState::Completed
}

/// Discards its 1 parameter word and completes; what the parameters
/// asked of the excluded collaborators is not this core's concern.
pub fn open_movie_flag<A, F>(_name: &str, vm: &mut ScriptVm<A, F>) -> (r: GlobalFunctionState<
    F,
>)
    requires
        old(vm).wf(),
    ensures
        final(vm).wf(),
        r is Completed,
        old(vm).sp() + 4 <= STACK_SIZE ==> final(vm).sp() == old(vm).sp() + 4 && final(vm).mem()
            == old(vm).mem(),
        old(vm).sp() + 4 > STACK_SIZE ==> *final(vm) == *old(vm),
        ScriptVm::<A, F>::ctrl_eq(*final(vm), *old(vm)),
        ScriptVm::<A, F>::objs_eq(*final(vm), *old(vm)),
        ScriptVm::<A, F>::regs_eq(*final(vm), *old(vm)),
        ScriptVm::<A, F>::misc_eq(*final(vm), *old(vm)),
{
    let _ = vm.stack_discard(1);
    GlobalFunctionState::Completed
}

/// Discards its 1 parameter word and completes; what the parameters
/// asked of the excluded collaborators is not this core's concern.
pub fn add_quest_complete_percentage<A, F>(_name: &str, vm: &mut ScriptVm<A, F>) -> (r: GlobalFunctionState<
    F,
>)
    requires
        old(vm).wf(),
    ensures
        final(vm).wf(),
        r is Completed,
        old(vm).sp() + 4 <= STACK_SIZE ==> final(vm).sp() == old(vm).sp() + 4 && final(vm).mem()
            == old(vm).mem(),
        old(vm).sp() + 4 > STACK_SIZE ==> *final(vm) == *old(vm),
        ScriptVm::<A, F>::ctrl_eq(*final(vm), *old(vm)),
        ScriptVm::<A, F>::objs_eq(*final(vm), *old(vm)),
        ScriptVm::<A, F>::regs_eq(*final(vm), *old(vm)),
        ScriptVm::<A, F>::misc_eq(*final(vm), *old(vm)),
{
    let _ = vm.stack_discard(1);
    GlobalFunctionState::Completed
}

/// Discards its 2 parameter words and completes; what the parameters
/// asked of the excluded collaborators is not this core's concern.
pub fn script_music_stop<A, F>(_name: &str, vm: &mut ScriptVm<A, F>) -> (r: GlobalFunctionState<
    F,
>)
    requires
        old(vm).wf(),
    ensures
        final(vm).wf(),
        r is Completed,
        old(vm).sp() + 8 <= STACK_SIZE ==> final(vm).sp() == old(vm).sp() + 8 && final(vm).mem()
            == old(vm).mem(),
        old(vm).sp() + 8 > STACK_SIZE ==> *final(vm) == *old(vm),
        ScriptVm::<A, F>::ctrl_eq(*final(vm), *old(vm)),
        ScriptVm::<A, F>::objs_eq(*final(vm), *old(vm)),
        ScriptVm::<A, F>::regs_eq(*final(vm), *old(vm)),
        ScriptVm::<A, F>::misc_eq(*final(vm), *old(vm)),
{
    let _ = vm.stack_discard(2);
    GlobalFunctionState::Completed
}

/// Discards its 1 parameter word and completes; what the parameters
/// asked of the excluded collaborators is not this core's concern.
pub fn arena_music_stop<A, F>(_name: &str, vm: &mut ScriptVm<A, F>) -> (r: GlobalFunctionState<
    F,
>)
    requires
        old(vm).wf(),
    ensures
        final(vm).wf(),
        r is Completed,
        old(vm).sp() + 4 <= STACK_SIZE ==> final(vm).sp() == old(vm).sp() + 4 && final(vm).mem()
            == old(vm).mem(),
        old(vm).sp() + 4 > STACK_SIZE ==> *final(vm) == *old(vm),
        ScriptVm::<A, F>::ctrl_eq(*final(vm), *old(vm)),
        ScriptVm::<A, F>::objs_eq(*final(vm), *old(vm)),
        ScriptVm::<A, F>::regs_eq(*final(vm), *old(vm)),
        ScriptVm::<A, F>::misc_eq(*final(vm), *old(vm)),
{
    let _ = vm.stack_discard(1);
    GlobalFunctionState::Completed
}

/// Discards its 1 parameter word and completes; what the parameters
/// asked of the excluded collaborators is not this core's concern.
pub fn camera_set_collide<A, F>(_name: &str, vm: &mut ScriptVm<A, F>) -> (r: GlobalFunctionState<
    F,
>)
    requires
        old(vm).wf(),
    ensures
        final(vm).wf(),
        r is Completed,
        old(vm).sp() + 4 <= STACK_SIZE ==> final(vm).sp() == old(vm).sp() + 4 && final(vm).mem()
            == old(vm).mem(),
        old(vm).sp() + 4 > STACK_SIZE ==> *final(vm) == *old(vm),
        ScriptVm::<A, F>::ctrl_eq(*final(vm), *old(vm)),
        ScriptVm::<A, F>::objs_eq(*final(vm), *old(vm)),
        ScriptVm::<A, F>::regs_eq(*final(vm), *old(vm)),
        ScriptVm::<A, F>::misc_eq(*final(vm), *old(vm)),
{
    let _ = vm.stack_discard(1);
    GlobalFunctionState::Completed
}

/// Discards its 1 parameter word and completes; what the parameters
/// asked of the excluded collaborators is not this core's concern.
pub fn camera_auto_seek<A, F>(_name: &str, vm: &mut ScriptVm<A, F>) -> (r: GlobalFunctionState<
    F,
>)
    requires
        old(vm).wf(),
    ensures
        final(vm).wf(),
        r is Completed,
        old(vm).sp() + 4 <= STACK_SIZE ==> final(vm).sp() == old(vm).sp() + 4 && final(vm).mem()
            == old(vm).mem(),
        old(vm).sp() + 4 > STACK_SIZE ==> *final(vm) == *old(vm),
        ScriptVm::<A, F>::ctrl_eq(*final(vm), *old(vm)),
        ScriptVm::<A, F>::objs_eq(*final(vm), *old(vm)),
        ScriptVm::<A, F>::regs_eq(*final(vm), *old(vm)),
        ScriptVm::<A, F>::misc_eq(*final(vm), *old(vm)),
{
    let _ = vm.stack_discard(1);
    GlobalFunctionState::Completed
}

/// Discards its 1 parameter word and completes; what the parameters
/// asked of the excluded collaborators is not this core's concern.
pub fn player_set_leader<A, F>(_name: &str, vm: &mut ScriptVm<A, F>) -> (r: GlobalFunctionState<
    F,
>)
    requires
        old(vm).wf(),
    ensures
        final(vm).wf(),
        r is Completed,
        old(vm).sp() + 4 <= STACK_SIZE ==> final(vm).sp() == old(vm).sp() + 4 && final(vm).mem()
            == old(vm).mem(),
        old(vm).sp() + 4 > STACK_SIZE ==> *final(vm) == *old(vm),
        ScriptVm::<A, F>::ctrl_eq(*final(vm), *old(vm)),
        ScriptVm::<A, F>::objs_eq(*final(vm), *old(vm)),
        ScriptVm::<A, F>::regs_eq(*final(vm), *old(vm)),
        ScriptVm::<A, F>::misc_eq(*final(vm), *old(vm)),
{
    let _ = vm.stack_discard(1);
    GlobalFunctionState::Completed
}

/// Discards its 3 parameter words and completes; what the parameters
/// asked of the excluded collaborators is not this core's concern.
pub fn player_set_attr<A, F>(_name: &str, vm: &mut ScriptVm<A, F>) -> (r: GlobalFunctionState<
    F,
>)
    requires
        old(vm).wf(),
    ensures
        final(vm).wf(),
        r is Completed,
        old(vm).sp() + 12 <= STACK_SIZE ==> final(vm).sp() == old(vm).sp() + 12 && final(vm).mem()
            == old(vm).mem(),
        old(vm).sp() + 12 > STACK_SIZE ==> *final(vm) == *old(vm),
        ScriptVm::<A, F>::ctrl_eq(*final(vm), *old(vm)),
        ScriptVm::<A, F>::objs_eq(*final(vm), *old(vm)),
        ScriptVm::<A, F>::regs_eq(*final(vm), *old(vm)),
        ScriptVm::<A, F>::misc_eq(*final(vm), *old(vm)),
{
    let _ = vm.stack_discard(3);
    GlobalFunctionState::Completed
}

/// Discards its 4 parameter words and completes; what the parameters
/// asked of the excluded collaborators is not this core's concern.
pub fn player_do_action<A, F>(_name: &str, vm: &mut ScriptVm<A, F>) -> (r: GlobalFunctionState<
    F,
>)
    requires
        old(vm).wf(),
    ensures
        final(vm).wf(),
        r is Completed,
        old(vm).sp() + 16 <= STACK_SIZE ==> final(vm).sp() == old(vm).sp() + 16 && final(vm).mem()
            == old(vm).mem(),
        old(vm).sp() + 16 > STACK_SIZE ==> *final(vm) == *old(vm),
        ScriptVm::<A, F>::ctrl_eq(*final(vm), *old(vm)),
        ScriptVm::<A, F>::objs_eq(*final(vm), *old(vm)),
        ScriptVm::<A, F>::regs_eq(*final(vm), *old(vm)),
        ScriptVm::<A, F>::misc_eq(*final(vm), *old(vm)),
{
    let _ = vm.stack_discard(4);
    GlobalFunctionState::Completed
}

/// Discards its 3 parameter words and completes; what the parameters
/// asked of the excluded collaborators is not this core's concern.
pub fn player_current_set_pos<A, F>(_name: &str, vm: &mut ScriptVm<A, F>) -> (r: GlobalFunctionState<
    F,
>)
    requires
        old(vm).wf(),
    ensures
        final(vm).wf(),
        r is Completed,
        old(vm).sp() + 12 <= STACK_SIZE ==> final(vm).sp() == old(vm).sp() + 12 && final(vm).mem()
            == old(vm).mem(),
        old(vm).sp() + 12 > STACK_SIZE ==> *final(vm) == *old(vm),
        ScriptVm::<A, F>::ctrl_eq(*final(vm), *old(vm)),
        ScriptVm::<A, F>::objs_eq(*final(vm), *old(vm)),
        ScriptVm::<A, F>::regs_eq(*final(vm), *old(vm)),
        ScriptVm::<A, F>::misc_eq(*final(vm), *old(vm)),
{
    let _ = vm.stack_discard(3);
    GlobalFunctionState::Completed
}

/// Discards its 1 parameter word and completes; what the parameters
/// asked of the excluded collaborators is not this core's concern.
pub fn player_current_set_ang<A, F>(_name: &str, vm: &mut ScriptVm<A, F>) -> (r: GlobalFunctionState<
    F,
>)
    requires
        old(vm).wf(),
    ensures
        final(vm).wf(),
        r is Completed,
        old(vm).sp() + 4 <= STACK_SIZE ==> final(vm).sp() == old(vm).sp() + 4 && final(vm).mem()
            == old(vm).mem(),
        old(vm).sp() + 4 > STACK_SIZE ==> *final(vm) == *old(vm),
        ScriptVm::<A, F>::ctrl_eq(*final(vm), *old(vm)),
        ScriptVm::<A, F>::objs_eq(*final(vm), *old(vm)),
        ScriptVm::<A, F>::regs_eq(*final(vm), *old(vm)),
        ScriptVm::<A, F>::misc_eq(*final(vm), *old(vm)),
{
    let _ = vm.stack_discard(1);
    GlobalFunctionState::Completed
}

/// Discards its 2 parameter words and completes; what the parameters
/// asked of the excluded collaborators is not this core's concern.
pub fn grant_system_ui<A, F>(_name: &str, vm: &mut ScriptVm<A, F>) -> (r: GlobalFunctionState<
    F,
>)
    requires
        old(vm).wf(),
    ensures
        final(vm).wf(),
        r is Completed,
        old(vm).sp() + 8 <= STACK_SIZE ==> final(vm).sp() == old(vm).sp() + 8 && final(vm).mem()
            == old(vm).mem(),
        old(vm).sp() + 8 > STACK_SIZE ==> *final(vm) == *old(vm),
        ScriptVm::<A, F>::ctrl_eq(*final(vm), *old(vm)),
        ScriptVm::<A, F>::objs_eq(*final(vm), *old(vm)),
        ScriptVm::<A, F>::regs_eq(*final(vm), *old(vm)),
        ScriptVm::<A, F>::misc_eq(*final(vm), *old(vm)),
{
    let _ = vm.stack_discard(2);
    GlobalFunctionState::Completed
}

/// Discards its 2 parameter words and completes; what the parameters
/// asked of the excluded collaborators is not this core's concern.
pub fn grant_magic_system<A, F>(_name: &str, vm: &mut ScriptVm<A, F>) -> (r: GlobalFunctionState<
    F,
>)
    requires
        old(vm).wf(),
    ensures
        final(vm).wf(),
        r is Completed,
        old(vm).sp() + 8 <= STACK_SIZE ==> final(vm).sp() == old(vm).sp() + 8 && final(vm).mem()
            == old(vm).mem(),
        old(vm).sp() + 8 > STACK_SIZE ==> *final(vm) == *old(vm),
        ScriptVm::<A, F>::ctrl_eq(*final(vm), *old(vm)),
        ScriptVm::<A, F>::objs_eq(*final(vm), *old(vm)),
        ScriptVm::<A, F>::regs_eq(*final(vm), *old(vm)),
        ScriptVm::<A, F>::misc_eq(*final(vm), *old(vm)),
{
    let _ = vm.stack_discard(2);
    GlobalFunctionState::Completed
}

/// Discards its 4 parameter words and completes; what the parameters
/// asked of the excluded collaborators is not this core's concern.
pub fn script_music_play<A, F>(_name: &str, vm: &mut ScriptVm<A, F>) -> (r: GlobalFunctionState<
    F,
>)
    requires
        old(vm).wf(),
    ensures
        final(vm).wf(),
        r is Completed,
        old(vm).sp() + 16 <= STACK_SIZE ==> final(vm).sp() == old(vm).sp() + 16 && final(vm).mem()
            == old(vm).mem(),
        old(vm).sp() + 16 > STACK_SIZE ==> *final(vm) == *old(vm),
        ScriptVm::<A, F>::ctrl_eq(*final(vm), *old(vm)),
        ScriptVm::<A, F>::objs_eq(*final(vm), *old(vm)),
        ScriptVm::<A, F>::regs_eq(*final(vm), *old(vm)),
        ScriptVm::<A, F>::misc_eq(*final(vm), *old(vm)),
{
    let _ = vm.stack_discard(4);
    GlobalFunctionState::Completed
}

/// Discards its 8-byte duration parameter and completes at once; real
/// waiting is done by hosts through a yielding entry of their own.
pub fn wait<A, F>(_name: &str, vm: &mut ScriptVm<A, F>) -> (r: GlobalFunctionState<
    F,
>)
    requires
        old(vm).wf(),
    ensures
        final(vm).wf(),
        r is Completed,
        old(vm).sp() + 8 <= STACK_SIZE ==> final(vm).sp() == old(vm).sp() + 8 && final(vm).mem()
            == old(vm).mem(),
        old(vm).sp() + 8 > STACK_SIZE ==> *final(vm) == *old(vm),
        ScriptVm::<A, F>::ctrl_eq(*final(vm), *old(vm)),
        ScriptVm::<A, F>::objs_eq(*final(vm), *old(vm)),
        ScriptVm::<A, F>::regs_eq(*final(vm), *old(vm)),
        ScriptVm::<A, F>::misc_eq(*final(vm), *old(vm)),
{
    let _ = vm.stack_pop64();
    GlobalFunctionState::Completed
}

/// Discards its camera-file parameter word and answers success (1).
pub fn camera_prepare<A, F>(_name: &str, vm: &mut ScriptVm<A, F>) -> (r: GlobalFunctionState<
    F,
>)
    requires
        old(vm).wf(),
    ensures
        final(vm).wf(),
        r is Completed,
        old(vm).sp() + 4 <= STACK_SIZE ==> final(vm).sp() == old(vm).sp() + 0 && final(vm).mem()
            == crate::vm::store_word(old(vm).mem(), old(vm).sp() + 0, 1u32),
        old(vm).sp() + 4 > STACK_SIZE ==> *final(vm) == *old(vm),
        ScriptVm::<A, F>::ctrl_eq(*final(vm), *old(vm)),
        ScriptVm::<A, F>::objs_eq(*final(vm), *old(vm)),
        ScriptVm::<A, F>::regs_eq(*final(vm), *old(vm)),
        ScriptVm::<A, F>::misc_eq(*final(vm), *old(vm)),
{
    match vm.stack_discard(1) {
        Ok(_) => {
            let _ = vm.stack_push(1);
        },
        Err(_) => {},
    }
    GlobalFunctionState::Completed
}

/// Discards its two parameter words and answers success (1).
pub fn camera_run_single<A, F>(_name: &str, vm: &mut ScriptVm<A, F>) -> (r: GlobalFunctionState<
    F,
>)
    requires
        old(vm).wf(),
    ensures
        final(vm).wf(),
        r is Completed,
        old(vm).sp() + 8 <= STACK_SIZE ==> final(vm).sp() == old(vm).sp() + 4 && final(vm).mem()
            == crate::vm::store_word(old(vm).mem(), old(vm).sp() + 4, 1u32),
        old(vm).sp() + 8 > STACK_SIZE ==> *final(vm) == *old(vm),
        ScriptVm::<A, F>::ctrl_eq(*final(vm), *old(vm)),
        ScriptVm::<A, F>::objs_eq(*final(vm), *old(vm)),
        ScriptVm::<A, F>::regs_eq(*final(vm), *old(vm)),
        ScriptVm::<A, F>::misc_eq(*final(vm), *old(vm)),
{
    match vm.stack_discard(2) {
        Ok(_) => {
            let _ = vm.stack_push(1);
        },
        Err(_) => {},
    }
    GlobalFunctionState::Completed
}

/// Discards its two parameter words and answers a zero sound handle.
pub fn dd_sound_play<A, F>(_name: &str, vm: &mut ScriptVm<A, F>) -> (r: GlobalFunctionState<
    F,
>)
    requires
        old(vm).wf(),
    ensures
        final(vm).wf(),
        r is Completed,
        old(vm).sp() + 8 <= STACK_SIZE ==> final(vm).sp() == old(vm).sp() + 4 && final(vm).mem()
            == crate::vm::store_word(old(vm).mem(), old(vm).sp() + 4, 0u32),
        old(vm).sp() + 8 > STACK_SIZE ==> *final(vm) == *old(vm),
        ScriptVm::<A, F>::ctrl_eq(*final(vm), *old(vm)),
        ScriptVm::<A, F>::objs_eq(*final(vm), *old(vm)),
        ScriptVm::<A, F>::regs_eq(*final(vm), *old(vm)),
        ScriptVm::<A, F>::misc_eq(*final(vm), *old(vm)),
{
    match vm.stack_discard(2) {
        Ok(_) => {
            let _ = vm.stack_push(0);
        },
        Err(_) => {},
    }
    GlobalFunctionState::Completed
}

/// Answers that the asked-about magic is not mastered (0).
pub fn check_magic_mastered<A, F>(_name: &str, vm: &mut ScriptVm<A, F>) -> (r:
    GlobalFunctionState<F>)
    requires
        old(vm).wf(),
    ensures
        final(vm).wf(),
        r is Completed,
        old(vm).sp() >= 4 ==> final(vm).sp() == old(vm).sp() - 4 && final(vm).mem()
            == crate::vm::store_word(old(vm).mem(), old(vm).sp() - 4, 0u32),
        old(vm).sp() < 4 ==> *final(vm) == *old(vm),
        ScriptVm::<A, F>::ctrl_eq(*final(vm), *old(vm)),
        ScriptVm::<A, F>::objs_eq(*final(vm), *old(vm)),
        ScriptVm::<A, F>::regs_eq(*final(vm), *old(vm)),
        ScriptVm::<A, F>::misc_eq(*final(vm), *old(vm)),
{
    let _ = vm.stack_push(0);
    GlobalFunctionState::Completed
}

/// The registry entry for every native the verified catalog does not
/// carry out (collaborator-driven behavior such as scene loading and
/// dialogue): it reports the call by stepping the interpreter's
/// not-implemented counter and completes, so execution never continues in
/// an undefined state and the omission never passes silently. Its
/// parameters stay on the stack: the arity of an unprovided entry is not
/// known here, so nothing is guessed at.
pub fn not_implemented<A, F>(_name: &str, vm: &mut ScriptVm<A, F>) -> (r: GlobalFunctionState<F>)
    requires
        old(vm).wf(),
    ensures
        final(vm).wf(),
        r is Completed,
        final(vm).unimpl_count() == (if old(vm).unimpl_count() < u64::MAX {
            old(vm).unimpl_count() + 1
        } else {
            old(vm).unimpl_count()
        }),
        ScriptVm::<A, F>::ctrl_eq(*final(vm), *old(vm)),
        ScriptVm::<A, F>::objs_eq(*final(vm), *old(vm)),
        ScriptVm::<A, F>::regs_eq(*final(vm), *old(vm)),
        ScriptVm::<A, F>::stack_eq(*final(vm), *old(vm)),
        final(vm).conts() == old(vm).conts(),
        final(vm).app() == old(vm).app(),
        final(vm).imm_flag() == old(vm).imm_flag(),
        final(vm).fp() == old(vm).fp(),
{
    vm.note_unimplemented_call();
    GlobalFunctionState::Completed
}

/// Resolves a script string parameter: a copy of the heap slot the script
/// passed by index.
pub fn get_str<A, F>(vm: &ScriptVm<A, F>, index: usize) -> (r: Option<String>)
    ensures
        r == if index < vm.heap_view().len() {
            vm.heap_view()[index as int]
        } else {
            None::<String>
        },
{
    vm.object_at(index)
}

impl<A> ScriptNative<A> for Pal4Function {
    fn call(&self, name: &str, vm: &mut ScriptVm<A, Self>) -> (r: GlobalFunctionState<Self>) {
        match self {
            Pal4Function::ImmBegin => imm_begin(name, vm),
            Pal4Function::ImmEnd => imm_end(name, vm),
            Pal4Function::NewGame => new_game(name, vm),
            Pal4Function::ArenaReady => arena_ready(name, vm),
            Pal4Function::PlayerSetLeader => player_set_leader(name, vm),
            Pal4Function::PlayerLock => player_lock(name, vm),
            Pal4Function::Unknown => unknown(name, vm),
            Pal4Function::CameraSetCollide => camera_set_collide(name, vm),
            Pal4Function::CameraSeekToPlayer => camera_seek_to_player(name, vm),
            Pal4Function::CameraAutoSeek => camera_auto_seek(name, vm),
            Pal4Function::PlayerSetAttr => player_set_attr(name, vm),
            Pal4Function::AddPlayerEquip => add_player_equip(name, vm),
            Pal4Function::OpenMovieFlag => open_movie_flag(name, vm),
            Pal4Function::AddQuestCompletePercentage => add_quest_complete_percentage(name, vm),
            Pal4Function::ScriptMusicPlay => script_music_play(name, vm),
            Pal4Function::ScriptMusicStop => script_music_stop(name, vm),
            Pal4Function::ArenaMusicStop => arena_music_stop(name, vm),
            Pal4Function::DdSoundPlay => dd_sound_play(name, vm),
            Pal4Function::GrantSystemUi => grant_system_ui(name, vm),
            Pal4Function::GrantMagicSystem => grant_magic_system(name, vm),
            Pal4Function::CheckMagicMastered => check_magic_mastered(name, vm),
            Pal4Function::ScriptMusicPause => script_music_pause(name, vm),
            Pal4Function::ScriptMusicResume => script_music_resume(name, vm),
            Pal4Function::Wait => wait(name, vm),
            Pal4Function::PlayerDoAction => player_do_action(name, vm),
            Pal4Function::PlayerCurrentSetPos => player_current_set_pos(name, vm),
            Pal4Function::PlayerCurrentSetAng => player_current_set_ang(name, vm),
            Pal4Function::CameraPrepare => camera_prepare(name, vm),
            Pal4Function::CameraRunSingle => camera_run_single(name, vm),
            Pal4Function::FlashOutBlack => flash_out_black(name, vm),
            Pal4Function::FlashInBlack => flash_in_black(name, vm),
            Pal4Function::PlayMovie => play_movie(name, vm),
            Pal4Function::NotImplemented => not_implemented(name, vm),
        }
    }

    fn poll(&mut self, _vm: &mut ScriptVm<A, Self>, _delta_bits: u32) -> (r: ContinuationState) {
        ContinuationState::Completed
    }
}

/// Registers catalog entries 0 through 23, in order.
fn register_catalog_part1(context: &mut ScriptGlobalContext<Pal4Function>)
    ensures
        final(context).globals_view() == old(context).globals_view(),
        final(context).funcs().len() == old(context).funcs().len() + 24,
        forall|i: int|
            0 <= i < old(context).funcs().len() ==> final(context).funcs()[i] == old(
                context,
            ).funcs()[i],
        final(context).funcs()[old(context).funcs().len() as int + 0].name@ == "giIMMBegin"@,
        final(context).funcs()[old(context).funcs().len() as int + 0].func == Pal4Function::ImmBegin,
        final(context).funcs()[old(context).funcs().len() as int + 1].name@ == "giIMMEnd"@,
        final(context).funcs()[old(context).funcs().len() as int + 1].func == Pal4Function::ImmEnd,
        final(context).funcs()[old(context).funcs().len() as int + 2].name@ == "giNewGame"@,
        final(context).funcs()[old(context).funcs().len() as int + 2].func == Pal4Function::NewGame,
        final(context).funcs()[old(context).funcs().len() as int + 3].name@ == "giCameraCtrlYPR"@,
        final(context).funcs()[old(context).funcs().len() as int + 3].func == Pal4Function::NotImplemented,
        final(context).funcs()[old(context).funcs().len() as int + 4].name@ == "giCameraCtrlDist"@,
        final(context).funcs()[old(context).funcs().len() as int + 4].func == Pal4Function::NotImplemented,
        final(context).funcs()[old(context).funcs().len() as int + 5].name@ == "giCameraCtrlYPRD"@,
        final(context).funcs()[old(context).funcs().len() as int + 5].func == Pal4Function::NotImplemented,
        final(context).funcs()[old(context).funcs().len() as int + 6].name@ == "giCameraGetDist"@,
        final(context).funcs()[old(context).funcs().len() as int + 6].func == Pal4Function::NotImplemented,
        final(context).funcs()[old(context).funcs().len() as int + 7].name@ == "giCameraGetYaw"@,
        final(context).funcs()[old(context).funcs().len() as int + 7].func == Pal4Function::NotImplemented,
        final(context).funcs()[old(context).funcs().len() as int + 8].name@ == "giCameraGetPitch"@,
        final(context).funcs()[old(context).funcs().len() as int + 8].func == Pal4Function::NotImplemented,
        final(context).funcs()[old(context).funcs().len() as int + 9].name@ == "giCameraGetRoll"@,
        final(context).funcs()[old(context).funcs().len() as int + 9].func == Pal4Function::NotImplemented,
        final(context).funcs()[old(context).funcs().len() as int + 10].name@ == "giArenaLoad"@,
        final(context).funcs()[old(context).funcs().len() as int + 10].func == Pal4Function::NotImplemented,
        final(context).funcs()[old(context).funcs().len() as int + 11].name@ == "giArenaReady"@,
        final(context).funcs()[old(context).funcs().len() as int + 11].func == Pal4Function::ArenaReady,
        final(context).funcs()[old(context).funcs().len() as int + 12].name@ == "giArenaReadyRestore"@,
        final(context).funcs()[old(context).funcs().len() as int + 12].func == Pal4Function::NotImplemented,
        final(context).funcs()[old(context).funcs().len() as int + 13].name@ == "giArenaHint"@,
        final(context).funcs()[old(context).funcs().len() as int + 13].func == Pal4Function::NotImplemented,
        final(context).funcs()[old(context).funcs().len() as int + 14].name@ == "giArenaComeFromHere"@,
        final(context).funcs()[old(context).funcs().len() as int + 14].func == Pal4Function::NotImplemented,
        final(context).funcs()[old(context).funcs().len() as int + 15].name@ == "giPlayerSetLeader"@,
        final(context).funcs()[old(context).funcs().len() as int + 15].func == Pal4Function::PlayerSetLeader,
        final(context).funcs()[old(context).funcs().len() as int + 16].name@ == "giPlayerSetVisible"@,
        final(context).funcs()[old(context).funcs().len() as int + 16].func == Pal4Function::NotImplemented,
        final(context).funcs()[old(context).funcs().len() as int + 17].name@ == "giPlayerAttachCollision"@,
        final(context).funcs()[old(context).funcs().len() as int + 17].func == Pal4Function::NotImplemented,
        final(context).funcs()[old(context).funcs().len() as int + 18].name@ == "giPlayerDetachCollision"@,
        final(context).funcs()[old(context).funcs().len() as int + 18].func == Pal4Function::NotImplemented,
        final(context).funcs()[old(context).funcs().len() as int + 19].name@ == "giPlayerLock"@,
        final(context).funcs()[old(context).funcs().len() as int + 19].func == Pal4Function::PlayerLock,
        final(context).funcs()[old(context).funcs().len() as int + 20].name@ == "giPlayerUnLock"@,
        final(context).funcs()[old(context).funcs().len() as int + 20].func == Pal4Function::NotImplemented,
        final(context).funcs()[old(context).funcs().len() as int + 21].name@ == "giSetNpcVisible"@,
        final(context).funcs()[old(context).funcs().len() as int + 21].func == Pal4Function::NotImplemented,
        final(context).funcs()[old(context).funcs().len() as int + 22].name@ == "giNpcCreate"@,
        final(context).funcs()[old(context).funcs().len() as int + 22].func == Pal4Function::NotImplemented,
        final(context).funcs()[old(context).funcs().len() as int + 23].name@ == "giNpcDelete"@,
        final(context).funcs()[old(context).funcs().len() as int + 23].func == Pal4Function::NotImplemented,
{
    context.register_function(ScriptGlobalFunction::new("giIMMBegin", Pal4Function::ImmBegin));
    context.register_function(ScriptGlobalFunction::new("giIMMEnd", Pal4Function::ImmEnd));
    context.register_function(ScriptGlobalFunction::new("giNewGame", Pal4Function::NewGame));
    context.register_function(ScriptGlobalFunction::new("giCameraCtrlYPR", Pal4Function::NotImplemented));
    context.register_function(ScriptGlobalFunction::new("giCameraCtrlDist", Pal4Function::NotImplemented));
    context.register_function(ScriptGlobalFunction::new("giCameraCtrlYPRD", Pal4Function::NotImplemented));
    context.register_function(ScriptGlobalFunction::new("giCameraGetDist", Pal4Function::NotImplemented));
    context.register_function(ScriptGlobalFunction::new("giCameraGetYaw", Pal4Function::NotImplemented));
    context.register_function(ScriptGlobalFunction::new("giCameraGetPitch", Pal4Function::NotImplemented));
    context.register_function(ScriptGlobalFunction::new("giCameraGetRoll", Pal4Function::NotImplemented));
    context.register_function(ScriptGlobalFunction::new("giArenaLoad", Pal4Function::NotImplemented));
    context.register_function(ScriptGlobalFunction::new("giArenaReady", Pal4Function::ArenaReady));
    context.register_function(ScriptGlobalFunction::new("giArenaReadyRestore", Pal4Function::NotImplemented));
    context.register_function(ScriptGlobalFunction::new("giArenaHint", Pal4Function::NotImplemented));
    context.register_function(ScriptGlobalFunction::new("giArenaComeFromHere", Pal4Function::NotImplemented));
    context.register_function(ScriptGlobalFunction::new("giPlayerSetLeader", Pal4Function::PlayerSetLeader));
    context.register_function(ScriptGlobalFunction::new("giPlayerSetVisible", Pal4Function::NotImplemented));
    context.register_function(ScriptGlobalFunction::new("giPlayerAttachCollision", Pal4Function::NotImplemented));
    context.register_function(ScriptGlobalFunction::new("giPlayerDetachCollision", Pal4Function::NotImplemented));
    context.register_function(ScriptGlobalFunction::new("giPlayerLock", Pal4Function::PlayerLock));
    context.register_function(ScriptGlobalFunction::new("giPlayerUnLock", Pal4Function::NotImplemented));
    context.register_function(ScriptGlobalFunction::new("giSetNpcVisible", Pal4Function::NotImplemented));
    context.register_function(ScriptGlobalFunction::new("giNpcCreate", Pal4Function::NotImplemented));
    context.register_function(ScriptGlobalFunction::new("giNpcDelete", Pal4Function::NotImplemented));
}

/// Registers catalog entries 24 through 47, in order.
fn register_catalog_part2(context: &mut ScriptGlobalContext<Pal4Function>)
    ensures
        final(context).globals_view() == old(context).globals_view(),
        final(context).funcs().len() == old(context).funcs().len() + 24,
        forall|i: int|
            0 <= i < old(context).funcs().len() ==> final(context).funcs()[i] == old(
                context,
            ).funcs()[i],
        final(context).funcs()[old(context).funcs().len() as int + 0].name@ == "giSystemExchange"@,
        final(context).funcs()[old(context).funcs().len() as int + 0].func == Pal4Function::NotImplemented,
        final(context).funcs()[old(context).funcs().len() as int + 1].name@ == "giMonsterStopPursuit"@,
        final(context).funcs()[old(context).funcs().len() as int + 1].func == Pal4Function::NotImplemented,
        final(context).funcs()[old(context).funcs().len() as int + 2].name@ == "giCameraSetMode"@,
        final(context).funcs()[old(context).funcs().len() as int + 2].func == Pal4Function::NotImplemented,
        final(context).funcs()[old(context).funcs().len() as int + 3].name@ == "giGetGoodsOpenCondition"@,
        final(context).funcs()[old(context).funcs().len() as int + 3].func == Pal4Function::NotImplemented,
        final(context).funcs()[old(context).funcs().len() as int + 4].name@ == "giNpcPauseBeh"@,
        final(context).funcs()[old(context).funcs().len() as int + 4].func == Pal4Function::NotImplemented,
        final(context).funcs()[old(context).funcs().len() as int + 5].name@ == "giNpcResumeBeh"@,
        final(context).funcs()[old(context).funcs().len() as int + 5].func == Pal4Function::NotImplemented,
        final(context).funcs()[old(context).funcs().len() as int + 6].name@ == "giOpenWeather"@,
        final(context).funcs()[old(context).funcs().len() as int + 6].func == Pal4Function::NotImplemented,
        final(context).funcs()[old(context).funcs().len() as int + 7].name@ == "giCloseWeather"@,
        final(context).funcs()[old(context).funcs().len() as int + 7].func == Pal4Function::NotImplemented,
        final(context).funcs()[old(context).funcs().len() as int + 8].name@ == "giSetMinimapExpmode"@,
        final(context).funcs()[old(context).funcs().len() as int + 8].func == Pal4Function::NotImplemented,
        final(context).funcs()[old(context).funcs().len() as int + 9].name@ == "giGetRandnum"@,
        final(context).funcs()[old(context).funcs().len() as int + 9].func == Pal4Function::NotImplemented,
        final(context).funcs()[old(context).funcs().len() as int + 10].name@ == "giSetTempGameState"@,
        final(context).funcs()[old(context).funcs().len() as int + 10].func == Pal4Function::NotImplemented,
        final(context).funcs()[old(context).funcs().len() as int + 11].name@ == "giFlushTailYAngle"@,
        final(context).funcs()[old(context).funcs().len() as int + 11].func == Pal4Function::NotImplemented,
        final(context).funcs()[old(context).funcs().len() as int + 12].name@ == "giUnknown"@,
        final(context).funcs()[old(context).funcs().len() as int + 12].func == Pal4Function::Unknown,
        final(context).funcs()[old(context).funcs().len() as int + 13].name@ == "giAddCombatMonster"@,
        final(context).funcs()[old(context).funcs().len() as int + 13].func == Pal4Function::NotImplemented,
        final(context).funcs()[old(context).funcs().len() as int + 14].name@ == "giConfigCombatParam"@,
        final(context).funcs()[old(context).funcs().len() as int + 14].func == Pal4Function::NotImplemented,
        final(context).funcs()[old(context).funcs().len() as int + 15].name@ == "giConfigCombatBgm"@,
        final(context).funcs()[old(context).funcs().len() as int + 15].func == Pal4Function::NotImplemented,
        final(context).funcs()[old(context).funcs().len() as int + 16].name@ == "giConfigCombatCamera"@,
        final(context).funcs()[old(context).funcs().len() as int + 16].func == Pal4Function::NotImplemented,
        final(context).funcs()[old(context).funcs().len() as int + 17].name@ == "giStartCombat"@,
        final(context).funcs()[old(context).funcs().len() as int + 17].func == Pal4Function::NotImplemented,
        final(context).funcs()[old(context).funcs().len() as int + 18].name@ == "giSetObjectVisible"@,
        final(context).funcs()[old(context).funcs().len() as int + 18].func == Pal4Function::NotImplemented,
        final(context).funcs()[old(context).funcs().len() as int + 19].name@ == "giAddProperty"@,
        final(context).funcs()[old(context).funcs().len() as int + 19].func == Pal4Function::NotImplemented,
        final(context).funcs()[old(context).funcs().len() as int + 20].name@ == "giDelProperty"@,
        final(context).funcs()[old(context).funcs().len() as int + 20].func == Pal4Function::NotImplemented,
        final(context).funcs()[old(context).funcs().len() as int + 21].name@ == "giPlayerInTeam"@,
        final(context).funcs()[old(context).funcs().len() as int + 21].func == Pal4Function::NotImplemented,
        final(context).funcs()[old(context).funcs().len() as int + 22].name@ == "giPlayerOutTeam"@,
        final(context).funcs()[old(context).funcs().len() as int + 22].func == Pal4Function::NotImplemented,
        final(context).funcs()[old(context).funcs().len() as int + 23].name@ == "giGOMTouch"@,
        final(context).funcs()[old(context).funcs().len() as int + 23].func == Pal4Function::NotImplemented,
{
    context.register_function(ScriptGlobalFunction::new("giSystemExchange", Pal4Function::NotImplemented));
    context.register_function(ScriptGlobalFunction::new("giMonsterStopPursuit", Pal4Function::NotImplemented));
    context.register_function(ScriptGlobalFunction::new("giCameraSetMode", Pal4Function::NotImplemented));
    context.register_function(ScriptGlobalFunction::new("giGetGoodsOpenCondition", Pal4Function::NotImplemented));
    context.register_function(ScriptGlobalFunction::new("giNpcPauseBeh", Pal4Function::NotImplemented));
    context.register_function(ScriptGlobalFunction::new("giNpcResumeBeh", Pal4Function::NotImplemented));
    context.register_function(ScriptGlobalFunction::new("giOpenWeather", Pal4Function::NotImplemented));
    context.register_function(ScriptGlobalFunction::new("giCloseWeather", Pal4Function::NotImplemented));
    context.register_function(ScriptGlobalFunction::new("giSetMinimapExpmode", Pal4Function::NotImplemented));
    context.register_function(ScriptGlobalFunction::new("giGetRandnum", Pal4Function::NotImplemented));
    context.register_function(ScriptGlobalFunction::new("giSetTempGameState", Pal4Function::NotImplemented));
    context.register_function(ScriptGlobalFunction::new("giFlushTailYAngle", Pal4Function::NotImplemented));
    context.register_function(ScriptGlobalFunction::new("giUnknown", Pal4Function::Unknown));
    context.register_function(ScriptGlobalFunction::new("giAddCombatMonster", Pal4Function::NotImplemented));
    context.register_function(ScriptGlobalFunction::new("giConfigCombatParam", Pal4Function::NotImplemented));
    context.register_function(ScriptGlobalFunction::new("giConfigCombatBgm", Pal4Function::NotImplemented));
    context.register_function(ScriptGlobalFunction::new("giConfigCombatCamera", Pal4Function::NotImplemented));
    context.register_function(ScriptGlobalFunction::new("giStartCombat", Pal4Function::NotImplemented));
    context.register_function(ScriptGlobalFunction::new("giSetObjectVisible", Pal4Function::NotImplemented));
    context.register_function(ScriptGlobalFunction::new("giAddProperty", Pal4Function::NotImplemented));
    context.register_function(ScriptGlobalFunction::new("giDelProperty", Pal4Function::NotImplemented));
    context.register_function(ScriptGlobalFunction::new("giPlayerInTeam", Pal4Function::NotImplemented));
    context.register_function(ScriptGlobalFunction::new("giPlayerOutTeam", Pal4Function::NotImplemented));
    context.register_function(ScriptGlobalFunction::new("giGOMTouch", Pal4Function::NotImplemented));
}

/// Registers catalog entries 48 through 71, in order.
fn register_catalog_part3(context: &mut ScriptGlobalContext<Pal4Function>)
    ensures
        final(context).globals_view() == old(context).globals_view(),
        final(context).funcs().len() == old(context).funcs().len() + 24,
        forall|i: int|
            0 <= i < old(context).funcs().len() ==> final(context).funcs()[i] == old(
                context,
            ).funcs()[i],
        final(context).funcs()[old(context).funcs().len() as int + 0].name@ == "giCameraSetCollide"@,
        final(context).funcs()[old(context).funcs().len() as int + 0].func == Pal4Function::CameraSetCollide,
        final(context).funcs()[old(context).funcs().len() as int + 1].name@ == "giCameraSeekToPlayer"@,
        final(context).funcs()[old(context).funcs().len() as int + 1].func == Pal4Function::CameraSeekToPlayer,
        final(context).funcs()[old(context).funcs().len() as int + 2].name@ == "giCameraAutoSeek"@,
        final(context).funcs()[old(context).funcs().len() as int + 2].func == Pal4Function::CameraAutoSeek,
        final(context).funcs()[old(context).funcs().len() as int + 3].name@ == "giPlayerSetAttr"@,
        final(context).funcs()[old(context).funcs().len() as int + 3].func == Pal4Function::PlayerSetAttr,
        final(context).funcs()[old(context).funcs().len() as int + 4].name@ == "giPlayerGetLeader"@,
        final(context).funcs()[old(context).funcs().len() as int + 4].func == Pal4Function::NotImplemented,
        final(context).funcs()[old(context).funcs().len() as int + 5].name@ == "giSetPlayerLevel"@,
        final(context).funcs()[old(context).funcs().len() as int + 5].func == Pal4Function::NotImplemented,
        final(context).funcs()[old(context).funcs().len() as int + 6].name@ == "giAddPlayerEquip"@,
        final(context).funcs()[old(context).funcs().len() as int + 6].func == Pal4Function::AddPlayerEquip,
        final(context).funcs()[old(context).funcs().len() as int + 7].name@ == "giOpenMovieFlag"@,
        final(context).funcs()[old(context).funcs().len() as int + 7].func == Pal4Function::OpenMovieFlag,
        final(context).funcs()[old(context).funcs().len() as int + 8].name@ == "giAddQuestComplatePercentage"@,
        final(context).funcs()[old(context).funcs().len() as int + 8].func == Pal4Function::AddQuestCompletePercentage,
        final(context).funcs()[old(context).funcs().len() as int + 9].name@ == "giAddEquipment"@,
        final(context).funcs()[old(context).funcs().len() as int + 9].func == Pal4Function::NotImplemented,
        final(context).funcs()[old(context).funcs().len() as int + 10].name@ == "giPlayerCurrentSetVisible"@,
        final(context).funcs()[old(context).funcs().len() as int + 10].func == Pal4Function::NotImplemented,
        final(context).funcs()[old(context).funcs().len() as int + 11].name@ == "giSetFullHP"@,
        final(context).funcs()[old(context).funcs().len() as int + 11].func == Pal4Function::NotImplemented,
        final(context).funcs()[old(context).funcs().len() as int + 12].name@ == "giSetFullMP"@,
        final(context).funcs()[old(context).funcs().len() as int + 12].func == Pal4Function::NotImplemented,
        final(context).funcs()[old(context).funcs().len() as int + 13].name@ == "giGetPlayerLevel"@,
        final(context).funcs()[old(context).funcs().len() as int + 13].func == Pal4Function::NotImplemented,
        final(context).funcs()[old(context).funcs().len() as int + 14].name@ == "giGotoLogo"@,
        final(context).funcs()[old(context).funcs().len() as int + 14].func == Pal4Function::NotImplemented,
        final(context).funcs()[old(context).funcs().len() as int + 15].name@ == "giPlayerUnHoldAct"@,
        final(context).funcs()[old(context).funcs().len() as int + 15].func == Pal4Function::NotImplemented,
        final(context).funcs()[old(context).funcs().len() as int + 16].name@ == "giNpcUnHoldAct"@,
        final(context).funcs()[old(context).funcs().len() as int + 16].func == Pal4Function::NotImplemented,
        final(context).funcs()[old(context).funcs().len() as int + 17].name@ == "giCameraSetDistOptEnable"@,
        final(context).funcs()[old(context).funcs().len() as int + 17].func == Pal4Function::NotImplemented,
        final(context).funcs()[old(context).funcs().len() as int + 18].name@ == "giMonsterSetHide"@,
        final(context).funcs()[old(context).funcs().len() as int + 18].func == Pal4Function::NotImplemented,
        final(context).funcs()[old(context).funcs().len() as int + 19].name@ == "giGameObjectSetResearch"@,
        final(context).funcs()[old(context).funcs().len() as int + 19].func == Pal4Function::NotImplemented,
        final(context).funcs()[old(context).funcs().len() as int + 20].name@ == "giSetPortrait"@,
        final(context).funcs()[old(context).funcs().len() as int + 20].func == Pal4Function::NotImplemented,
        final(context).funcs()[old(context).funcs().len() as int + 21].name@ == "giBGMConfigSetMusic"@,
        final(context).funcs()[old(context).funcs().len() as int + 21].func == Pal4Function::NotImplemented,
        final(context).funcs()[old(context).funcs().len() as int + 22].name@ == "giBGMConfigIsInArea"@,
        final(context).funcs()[old(context).funcs().len() as int + 22].func == Pal4Function::NotImplemented,
        final(context).funcs()[old(context).funcs().len() as int + 23].name@ == "giScriptMusicMute"@,
        final(context).funcs()[old(context).funcs().len() as int + 23].func == Pal4Function::NotImplemented,
{
    context.register_function(ScriptGlobalFunction::new("giCameraSetCollide", Pal4Function::CameraSetCollide));
    context.register_function(ScriptGlobalFunction::new("giCameraSeekToPlayer", Pal4Function::CameraSeekToPlayer));
    context.register_function(ScriptGlobalFunction::new("giCameraAutoSeek", Pal4Function::CameraAutoSeek));
    context.register_function(ScriptGlobalFunction::new("giPlayerSetAttr", Pal4Function::PlayerSetAttr));
    context.register_function(ScriptGlobalFunction::new("giPlayerGetLeader", Pal4Function::NotImplemented));
    context.register_function(ScriptGlobalFunction::new("giSetPlayerLevel", Pal4Function::NotImplemented));
    context.register_function(ScriptGlobalFunction::new("giAddPlayerEquip", Pal4Function::AddPlayerEquip));
    context.register_function(ScriptGlobalFunction::new("giOpenMovieFlag", Pal4Function::OpenMovieFlag));
    context.register_function(ScriptGlobalFunction::new("giAddQuestComplatePercentage", Pal4Function::AddQuestCompletePercentage));
    context.register_function(ScriptGlobalFunction::new("giAddEquipment", Pal4Function::NotImplemented));
    context.register_function(ScriptGlobalFunction::new("giPlayerCurrentSetVisible", Pal4Function::NotImplemented));
    context.register_function(ScriptGlobalFunction::new("giSetFullHP", Pal4Function::NotImplemented));
    context.register_function(ScriptGlobalFunction::new("giSetFullMP", Pal4Function::NotImplemented));
    context.register_function(ScriptGlobalFunction::new("giGetPlayerLevel", Pal4Function::NotImplemented));
    context.register_function(ScriptGlobalFunction::new("giGotoLogo", Pal4Function::NotImplemented));
    context.register_function(ScriptGlobalFunction::new("giPlayerUnHoldAct", Pal4Function::NotImplemented));
    context.register_function(ScriptGlobalFunction::new("giNpcUnHoldAct", Pal4Function::NotImplemented));
    context.register_function(ScriptGlobalFunction::new("giCameraSetDistOptEnable", Pal4Function::NotImplemented));
    context.register_function(ScriptGlobalFunction::new("giMonsterSetHide", Pal4Function::NotImplemented));
    context.register_function(ScriptGlobalFunction::new("giGameObjectSetResearch", Pal4Function::NotImplemented));
    context.register_function(ScriptGlobalFunction::new("giSetPortrait", Pal4Function::NotImplemented));
    context.register_function(ScriptGlobalFunction::new("giBGMConfigSetMusic", Pal4Function::NotImplemented));
    context.register_function(ScriptGlobalFunction::new("giBGMConfigIsInArea", Pal4Function::NotImplemented));
    context.register_function(ScriptGlobalFunction::new("giScriptMusicMute", Pal4Function::NotImplemented));
}

/// Registers catalog entries 72 through 95, in order.
fn register_catalog_part4(context: &mut ScriptGlobalContext<Pal4Function>)
    ensures
        final(context).globals_view() == old(context).globals_view(),
        final(context).funcs().len() == old(context).funcs().len() + 24,
        forall|i: int|
            0 <= i < old(context).funcs().len() ==> final(context).funcs()[i] == old(
                context,
            ).funcs()[i],
        final(context).funcs()[old(context).funcs().len() as int + 0].name@ == "giScriptMusicPlay"@,
        final(context).funcs()[old(context).funcs().len() as int + 0].func == Pal4Function::ScriptMusicPlay,
        final(context).funcs()[old(context).funcs().len() as int + 1].name@ == "giScriptMusicStop"@,
        final(context).funcs()[old(context).funcs().len() as int + 1].func == Pal4Function::ScriptMusicStop,
        final(context).funcs()[old(context).funcs().len() as int + 2].name@ == "giArenaMusicStop"@,
        final(context).funcs()[old(context).funcs().len() as int + 2].func == Pal4Function::ArenaMusicStop,
        final(context).funcs()[old(context).funcs().len() as int + 3].name@ == "giWorldMapSetState"@,
        final(context).funcs()[old(context).funcs().len() as int + 3].func == Pal4Function::NotImplemented,
        final(context).funcs()[old(context).funcs().len() as int + 4].name@ == "giGetPuzzleGameResult"@,
        final(context).funcs()[old(context).funcs().len() as int + 4].func == Pal4Function::NotImplemented,
        final(context).funcs()[old(context).funcs().len() as int + 5].name@ == "giAlwaysJump"@,
        final(context).funcs()[old(context).funcs().len() as int + 5].func == Pal4Function::NotImplemented,
        final(context).funcs()[old(context).funcs().len() as int + 6].name@ == "gi2DSoundPlay"@,
        final(context).funcs()[old(context).funcs().len() as int + 6].func == Pal4Function::DdSoundPlay,
        final(context).funcs()[old(context).funcs().len() as int + 7].name@ == "gi2DSoundStop"@,
        final(context).funcs()[old(context).funcs().len() as int + 7].func == Pal4Function::NotImplemented,
        final(context).funcs()[old(context).funcs().len() as int + 8].name@ == "gi2DSoundStopID"@,
        final(context).funcs()[old(context).funcs().len() as int + 8].func == Pal4Function::NotImplemented,
        final(context).funcs()[old(context).funcs().len() as int + 9].name@ == "giCGEffPlay"@,
        final(context).funcs()[old(context).funcs().len() as int + 9].func == Pal4Function::NotImplemented,
        final(context).funcs()[old(context).funcs().len() as int + 10].name@ == "giCGEffStop"@,
        final(context).funcs()[old(context).funcs().len() as int + 10].func == Pal4Function::NotImplemented,
        final(context).funcs()[old(context).funcs().len() as int + 11].name@ == "giEffectPlay"@,
        final(context).funcs()[old(context).funcs().len() as int + 11].func == Pal4Function::NotImplemented,
        final(context).funcs()[old(context).funcs().len() as int + 12].name@ == "giEffectPlayWithPlayer"@,
        final(context).funcs()[old(context).funcs().len() as int + 12].func == Pal4Function::NotImplemented,
        final(context).funcs()[old(context).funcs().len() as int + 13].name@ == "giEffectPlayWithCurrentPlayer"@,
        final(context).funcs()[old(context).funcs().len() as int + 13].func == Pal4Function::NotImplemented,
        final(context).funcs()[old(context).funcs().len() as int + 14].name@ == "giEffectPlayWithNPC"@,
        final(context).funcs()[old(context).funcs().len() as int + 14].func == Pal4Function::NotImplemented,
        final(context).funcs()[old(context).funcs().len() as int + 15].name@ == "giEffectPlayWithOBJ"@,
        final(context).funcs()[old(context).funcs().len() as int + 15].func == Pal4Function::NotImplemented,
        final(context).funcs()[old(context).funcs().len() as int + 16].name@ == "giEffectStopWithOBJ"@,
        final(context).funcs()[old(context).funcs().len() as int + 16].func == Pal4Function::NotImplemented,
        final(context).funcs()[old(context).funcs().len() as int + 17].name@ == "giShowHint"@,
        final(context).funcs()[old(context).funcs().len() as int + 17].func == Pal4Function::NotImplemented,
        final(context).funcs()[old(context).funcs().len() as int + 18].name@ == "giPlayerAddSkill"@,
        final(context).funcs()[old(context).funcs().len() as int + 18].func == Pal4Function::NotImplemented,
        final(context).funcs()[old(context).funcs().len() as int + 19].name@ == "giMonsterSetVisible"@,
        final(context).funcs()[old(context).funcs().len() as int + 19].func == Pal4Function::NotImplemented,
        final(context).funcs()[old(context).funcs().len() as int + 20].name@ == "giPlayerRandomPosition"@,
        final(context).funcs()[old(context).funcs().len() as int + 20].func == Pal4Function::NotImplemented,
        final(context).funcs()[old(context).funcs().len() as int + 21].name@ == "giPlayerCurrentRandomPosition"@,
        final(context).funcs()[old(context).funcs().len() as int + 21].func == Pal4Function::NotImplemented,
        final(context).funcs()[old(context).funcs().len() as int + 22].name@ == "giEventVolumeVisible"@,
        final(context).funcs()[old(context).funcs().len() as int + 22].func == Pal4Function::NotImplemented,
        final(context).funcs()[old(context).funcs().len() as int + 23].name@ == "giAllPlayerGarb2"@,
        final(context).funcs()[old(context).funcs().len() as int + 23].func == Pal4Function::NotImplemented,
{
    context.register_function(ScriptGlobalFunction::new("giScriptMusicPlay", Pal4Function::ScriptMusicPlay));
    context.register_function(ScriptGlobalFunction::new("giScriptMusicStop", Pal4Function::ScriptMusicStop));
    context.register_function(ScriptGlobalFunction::new("giArenaMusicStop", Pal4Function::ArenaMusicStop));
    context.register_function(ScriptGlobalFunction::new("giWorldMapSetState", Pal4Function::NotImplemented));
    context.register_function(ScriptGlobalFunction::new("giGetPuzzleGameResult", Pal4Function::NotImplemented));
    context.register_function(ScriptGlobalFunction::new("giAlwaysJump", Pal4Function::NotImplemented));
    context.register_function(ScriptGlobalFunction::new("gi2DSoundPlay", Pal4Function::DdSoundPlay));
    context.register_function(ScriptGlobalFunction::new("gi2DSoundStop", Pal4Function::NotImplemented));
    context.register_function(ScriptGlobalFunction::new("gi2DSoundStopID", Pal4Function::NotImplemented));
    context.register_function(ScriptGlobalFunction::new("giCGEffPlay", Pal4Function::NotImplemented));
    context.register_function(ScriptGlobalFunction::new("giCGEffStop", Pal4Function::NotImplemented));
    context.register_function(ScriptGlobalFunction::new("giEffectPlay", Pal4Function::NotImplemented));
    context.register_function(ScriptGlobalFunction::new("giEffectPlayWithPlayer", Pal4Function::NotImplemented));
    context.register_function(ScriptGlobalFunction::new("giEffectPlayWithCurrentPlayer", Pal4Function::NotImplemented));
    context.register_function(ScriptGlobalFunction::new("giEffectPlayWithNPC", Pal4Function::NotImplemented));
    context.register_function(ScriptGlobalFunction::new("giEffectPlayWithOBJ", Pal4Function::NotImplemented));
    context.register_function(ScriptGlobalFunction::new("giEffectStopWithOBJ", Pal4Function::NotImplemented));
    context.register_function(ScriptGlobalFunction::new("giShowHint", Pal4Function::NotImplemented));
    context.register_function(ScriptGlobalFunction::new("giPlayerAddSkill", Pal4Function::NotImplemented));
    context.register_function(ScriptGlobalFunction::new("giMonsterSetVisible", Pal4Function::NotImplemented));
    context.register_function(ScriptGlobalFunction::new("giPlayerRandomPosition", Pal4Function::NotImplemented));
    context.register_function(ScriptGlobalFunction::new("giPlayerCurrentRandomPosition", Pal4Function::NotImplemented));
    context.register_function(ScriptGlobalFunction::new("giEventVolumeVisible", Pal4Function::NotImplemented));
    context.register_function(ScriptGlobalFunction::new("giAllPlayerGarb2", Pal4Function::NotImplemented));
}

/// Registers catalog entries 96 through 119, in order.
fn register_catalog_part5(context: &mut ScriptGlobalContext<Pal4Function>)
    ensures
        final(context).globals_view() == old(context).globals_view(),
        final(context).funcs().len() == old(context).funcs().len() + 24,
        forall|i: int|
            0 <= i < old(context).funcs().len() ==> final(context).funcs()[i] == old(
                context,
            ).funcs()[i],
        final(context).funcs()[old(context).funcs().len() as int + 0].name@ == "giPlayerGarb2"@,
        final(context).funcs()[old(context).funcs().len() as int + 0].func == Pal4Function::NotImplemented,
        final(context).funcs()[old(context).funcs().len() as int + 1].name@ == "giAllPlayerGarb1"@,
        final(context).funcs()[old(context).funcs().len() as int + 1].func == Pal4Function::NotImplemented,
        final(context).funcs()[old(context).funcs().len() as int + 2].name@ == "giPlayerGarb1"@,
        final(context).funcs()[old(context).funcs().len() as int + 2].func == Pal4Function::NotImplemented,
        final(context).funcs()[old(context).funcs().len() as int + 3].name@ == "giGetVisibleObject"@,
        final(context).funcs()[old(context).funcs().len() as int + 3].func == Pal4Function::NotImplemented,
        final(context).funcs()[old(context).funcs().len() as int + 4].name@ == "giGetVisibleMonster"@,
        final(context).funcs()[old(context).funcs().len() as int + 4].func == Pal4Function::NotImplemented,
        final(context).funcs()[old(context).funcs().len() as int + 5].name@ == "giCheckPackProperty"@,
        final(context).funcs()[old(context).funcs().len() as int + 5].func == Pal4Function::NotImplemented,
        final(context).funcs()[old(context).funcs().len() as int + 6].name@ == "giGrantSystemUi"@,
        final(context).funcs()[old(context).funcs().len() as int + 6].func == Pal4Function::GrantSystemUi,
        final(context).funcs()[old(context).funcs().len() as int + 7].name@ == "giOpenSystemUi"@,
        final(context).funcs()[old(context).funcs().len() as int + 7].func == Pal4Function::NotImplemented,
        final(context).funcs()[old(context).funcs().len() as int + 8].name@ == "giGrantSmithSystem"@,
        final(context).funcs()[old(context).funcs().len() as int + 8].func == Pal4Function::NotImplemented,
        final(context).funcs()[old(context).funcs().len() as int + 9].name@ == "giGrantMagicSystem"@,
        final(context).funcs()[old(context).funcs().len() as int + 9].func == Pal4Function::GrantMagicSystem,
        final(context).funcs()[old(context).funcs().len() as int + 10].name@ == "giCheckMagicMastered"@,
        final(context).funcs()[old(context).funcs().len() as int + 10].func == Pal4Function::CheckMagicMastered,
        final(context).funcs()[old(context).funcs().len() as int + 11].name@ == "giSelectDialogAddItem"@,
        final(context).funcs()[old(context).funcs().len() as int + 11].func == Pal4Function::NotImplemented,
        final(context).funcs()[old(context).funcs().len() as int + 12].name@ == "giSelectDialogGetLastSelect"@,
        final(context).funcs()[old(context).funcs().len() as int + 12].func == Pal4Function::NotImplemented,
        final(context).funcs()[old(context).funcs().len() as int + 13].name@ == "giGOBAttachToPlayer"@,
        final(context).funcs()[old(context).funcs().len() as int + 13].func == Pal4Function::NotImplemented,
        final(context).funcs()[old(context).funcs().len() as int + 14].name@ == "giGOBAttachToCurrentPlayer"@,
        final(context).funcs()[old(context).funcs().len() as int + 14].func == Pal4Function::NotImplemented,
        final(context).funcs()[old(context).funcs().len() as int + 15].name@ == "giGOBDetachFromPlayer"@,
        final(context).funcs()[old(context).funcs().len() as int + 15].func == Pal4Function::NotImplemented,
        final(context).funcs()[old(context).funcs().len() as int + 16].name@ == "giGOBDetachFromCurrentPlayer"@,
        final(context).funcs()[old(context).funcs().len() as int + 16].func == Pal4Function::NotImplemented,
        final(context).funcs()[old(context).funcs().len() as int + 17].name@ == "giEffectAttachToPlayer"@,
        final(context).funcs()[old(context).funcs().len() as int + 17].func == Pal4Function::NotImplemented,
        final(context).funcs()[old(context).funcs().len() as int + 18].name@ == "giEffectAttachToCurrentPlayer"@,
        final(context).funcs()[old(context).funcs().len() as int + 18].func == Pal4Function::NotImplemented,
        final(context).funcs()[old(context).funcs().len() as int + 19].name@ == "giEffectDetachFromPlayer"@,
        final(context).funcs()[old(context).funcs().len() as int + 19].func == Pal4Function::NotImplemented,
        final(context).funcs()[old(context).funcs().len() as int + 20].name@ == "giEffectDetachFromCurrentPlayer"@,
        final(context).funcs()[old(context).funcs().len() as int + 20].func == Pal4Function::NotImplemented,
        final(context).funcs()[old(context).funcs().len() as int + 21].name@ == "giEffectAttachToNpc"@,
        final(context).funcs()[old(context).funcs().len() as int + 21].func == Pal4Function::NotImplemented,
        final(context).funcs()[old(context).funcs().len() as int + 22].name@ == "giEffectDetachFromNpc"@,
        final(context).funcs()[old(context).funcs().len() as int + 22].func == Pal4Function::NotImplemented,
        final(context).funcs()[old(context).funcs().len() as int + 23].name@ == "giGOBAttachToNpc"@,
        final(context).funcs()[old(context).funcs().len() as int + 23].func == Pal4Function::NotImplemented,
{
    context.register_function(ScriptGlobalFunction::new("giPlayerGarb2", Pal4Function::NotImplemented));
    context.register_function(ScriptGlobalFunction::new("giAllPlayerGarb1", Pal4Function::NotImplemented));
    context.register_function(ScriptGlobalFunction::new("giPlayerGarb1", Pal4Function::NotImplemented));
    context.register_function(ScriptGlobalFunction::new("giGetVisibleObject", Pal4Function::NotImplemented));
    context.register_function(ScriptGlobalFunction::new("giGetVisibleMonster", Pal4Function::NotImplemented));
    context.register_function(ScriptGlobalFunction::new("giCheckPackProperty", Pal4Function::NotImplemented));
    context.register_function(ScriptGlobalFunction::new("giGrantSystemUi", Pal4Function::GrantSystemUi));
    context.register_function(ScriptGlobalFunction::new("giOpenSystemUi", Pal4Function::NotImplemented));
    context.register_function(ScriptGlobalFunction::new("giGrantSmithSystem", Pal4Function::NotImplemented));
    context.register_function(ScriptGlobalFunction::new("giGrantMagicSystem", Pal4Function::GrantMagicSystem));
    context.register_function(ScriptGlobalFunction::new("giCheckMagicMastered", Pal4Function::CheckMagicMastered));
    context.register_function(ScriptGlobalFunction::new("giSelectDialogAddItem", Pal4Function::NotImplemented));
    context.register_function(ScriptGlobalFunction::new("giSelectDialogGetLastSelect", Pal4Function::NotImplemented));
    context.register_function(ScriptGlobalFunction::new("giGOBAttachToPlayer", Pal4Function::NotImplemented));
    context.register_function(ScriptGlobalFunction::new("giGOBAttachToCurrentPlayer", Pal4Function::NotImplemented));
    context.register_function(ScriptGlobalFunction::new("giGOBDetachFromPlayer", Pal4Function::NotImplemented));
    context.register_function(ScriptGlobalFunction::new("giGOBDetachFromCurrentPlayer", Pal4Function::NotImplemented));
    context.register_function(ScriptGlobalFunction::new("giEffectAttachToPlayer", Pal4Function::NotImplemented));
    context.register_function(ScriptGlobalFunction::new("giEffectAttachToCurrentPlayer", Pal4Function::NotImplemented));
    context.register_function(ScriptGlobalFunction::new("giEffectDetachFromPlayer", Pal4Function::NotImplemented));
    context.register_function(ScriptGlobalFunction::new("giEffectDetachFromCurrentPlayer", Pal4Function::NotImplemented));
    context.register_function(ScriptGlobalFunction::new("giEffectAttachToNpc", Pal4Function::NotImplemented));
    context.register_function(ScriptGlobalFunction::new("giEffectDetachFromNpc", Pal4Function::NotImplemented));
    context.register_function(ScriptGlobalFunction::new("giGOBAttachToNpc", Pal4Function::NotImplemented));
}

/// Registers catalog entries 120 through 143, in order.
fn register_catalog_part6(context: &mut ScriptGlobalContext<Pal4Function>)
    ensures
        final(context).globals_view() == old(context).globals_view(),
        final(context).funcs().len() == old(context).funcs().len() + 24,
        forall|i: int|
            0 <= i < old(context).funcs().len() ==> final(context).funcs()[i] == old(
                context,
            ).funcs()[i],
        final(context).funcs()[old(context).funcs().len() as int + 0].name@ == "giGOBDetachFromNPC"@,
        final(context).funcs()[old(context).funcs().len() as int + 0].func == Pal4Function::NotImplemented,
        final(context).funcs()[old(context).funcs().len() as int + 1].name@ == "giGOBSetPosition"@,
        final(context).funcs()[old(context).funcs().len() as int + 1].func == Pal4Function::NotImplemented,
        final(context).funcs()[old(context).funcs().len() as int + 2].name@ == "giScriptClearCTXButCurrent"@,
        final(context).funcs()[old(context).funcs().len() as int + 2].func == Pal4Function::NotImplemented,
        final(context).funcs()[old(context).funcs().len() as int + 3].name@ == "giAddMoney"@,
        final(context).funcs()[old(context).funcs().len() as int + 3].func == Pal4Function::NotImplemented,
        final(context).funcs()[old(context).funcs().len() as int + 4].name@ == "giPayMoney"@,
        final(context).funcs()[old(context).funcs().len() as int + 4].func == Pal4Function::NotImplemented,
        final(context).funcs()[old(context).funcs().len() as int + 5].name@ == "giHideGASkillObject"@,
        final(context).funcs()[old(context).funcs().len() as int + 5].func == Pal4Function::NotImplemented,
        final(context).funcs()[old(context).funcs().len() as int + 6].name@ == "giShowSignpost"@,
        final(context).funcs()[old(context).funcs().len() as int + 6].func == Pal4Function::NotImplemented,
        final(context).funcs()[old(context).funcs().len() as int + 7].name@ == "giPlayerSetEmotion"@,
        final(context).funcs()[old(context).funcs().len() as int + 7].func == Pal4Function::NotImplemented,
        final(context).funcs()[old(context).funcs().len() as int + 8].name@ == "giPlayerResetEmotion"@,
        final(context).funcs()[old(context).funcs().len() as int + 8].func == Pal4Function::NotImplemented,
        final(context).funcs()[old(context).funcs().len() as int + 9].name@ == "giPlayerCurrentSetEmotion"@,
        final(context).funcs()[old(context).funcs().len() as int + 9].func == Pal4Function::NotImplemented,
        final(context).funcs()[old(context).funcs().len() as int + 10].name@ == "giPlayerCurrentResetEmotion"@,
        final(context).funcs()[old(context).funcs().len() as int + 10].func == Pal4Function::NotImplemented,
        final(context).funcs()[old(context).funcs().len() as int + 11].name@ == "giLINGSHALegsInjured"@,
        final(context).funcs()[old(context).funcs().len() as int + 11].func == Pal4Function::NotImplemented,
        final(context).funcs()[old(context).funcs().len() as int + 12].name@ == "giLINGSHALegsHealing"@,
        final(context).funcs()[old(context).funcs().len() as int + 12].func == Pal4Function::NotImplemented,
        final(context).funcs()[old(context).funcs().len() as int + 13].name@ == "giNpcSetEmotion"@,
        final(context).funcs()[old(context).funcs().len() as int + 13].func == Pal4Function::NotImplemented,
        final(context).funcs()[old(context).funcs().len() as int + 14].name@ == "giNpcResetEmotion"@,
        final(context).funcs()[old(context).funcs().len() as int + 14].func == Pal4Function::NotImplemented,
        final(context).funcs()[old(context).funcs().len() as int + 15].name@ == "giGetPropertyNumb"@,
        final(context).funcs()[old(context).funcs().len() as int + 15].func == Pal4Function::NotImplemented,
        final(context).funcs()[old(context).funcs().len() as int + 16].name@ == "giPlayerCurrentGetPosX"@,
        final(context).funcs()[old(context).funcs().len() as int + 16].func == Pal4Function::NotImplemented,
        final(context).funcs()[old(context).funcs().len() as int + 17].name@ == "giPlayerCurrentGetPosY"@,
        final(context).funcs()[old(context).funcs().len() as int + 17].func == Pal4Function::NotImplemented,
        final(context).funcs()[old(context).funcs().len() as int + 18].name@ == "giPlayerCurrentGetPosZ"@,
        final(context).funcs()[old(context).funcs().len() as int + 18].func == Pal4Function::NotImplemented,
        final(context).funcs()[old(context).funcs().len() as int + 19].name@ == "giArenaGetName"@,
        final(context).funcs()[old(context).funcs().len() as int + 19].func == Pal4Function::NotImplemented,
        final(context).funcs()[old(context).funcs().len() as int + 20].name@ == "giArenaGetArea"@,
        final(context).funcs()[old(context).funcs().len() as int + 20].func == Pal4Function::NotImplemented,
        final(context).funcs()[old(context).funcs().len() as int + 21].name@ == "giArenaSkillEnable"@,
        final(context).funcs()[old(context).funcs().len() as int + 21].func == Pal4Function::NotImplemented,
        final(context).funcs()[old(context).funcs().len() as int + 22].name@ == "giShowInnDialog"@,
        final(context).funcs()[old(context).funcs().len() as int + 22].func == Pal4Function::NotImplemented,
        final(context).funcs()[old(context).funcs().len() as int + 23].name@ == "giGetInnDialogResult"@,
        final(context).funcs()[old(context).funcs().len() as int + 23].func == Pal4Function::NotImplemented,
{
    context.register_function(ScriptGlobalFunction::new("giGOBDetachFromNPC", Pal4Function::NotImplemented));
    context.register_function(ScriptGlobalFunction::new("giGOBSetPosition", Pal4Function::NotImplemented));
    context.register_function(ScriptGlobalFunction::new("giScriptClearCTXButCurrent", Pal4Function::NotImplemented));
    context.register_function(ScriptGlobalFunction::new("giAddMoney", Pal4Function::NotImplemented));
    context.register_function(ScriptGlobalFunction::new("giPayMoney", Pal4Function::NotImplemented));
    context.register_function(ScriptGlobalFunction::new("giHideGASkillObject", Pal4Function::NotImplemented));
    context.register_function(ScriptGlobalFunction::new("giShowSignpost", Pal4Function::NotImplemented));
    context.register_function(ScriptGlobalFunction::new("giPlayerSetEmotion", Pal4Function::NotImplemented));
    context.register_function(ScriptGlobalFunction::new("giPlayerResetEmotion", Pal4Function::NotImplemented));
    context.register_function(ScriptGlobalFunction::new("giPlayerCurrentSetEmotion", Pal4Function::NotImplemented));
    context.register_function(ScriptGlobalFunction::new("giPlayerCurrentResetEmotion", Pal4Function::NotImplemented));
    context.register_function(ScriptGlobalFunction::new("giLINGSHALegsInjured", Pal4Function::NotImplemented));
    context.register_function(ScriptGlobalFunction::new("giLINGSHALegsHealing", Pal4Function::NotImplemented));
    context.register_function(ScriptGlobalFunction::new("giNpcSetEmotion", Pal4Function::NotImplemented));
    context.register_function(ScriptGlobalFunction::new("giNpcResetEmotion", Pal4Function::NotImplemented));
    context.register_function(ScriptGlobalFunction::new("giGetPropertyNumb", Pal4Function::NotImplemented));
    context.register_function(ScriptGlobalFunction::new("giPlayerCurrentGetPosX", Pal4Function::NotImplemented));
    context.register_function(ScriptGlobalFunction::new("giPlayerCurrentGetPosY", Pal4Function::NotImplemented));
    context.register_function(ScriptGlobalFunction::new("giPlayerCurrentGetPosZ", Pal4Function::NotImplemented));
    context.register_function(ScriptGlobalFunction::new("giArenaGetName", Pal4Function::NotImplemented));
    context.register_function(ScriptGlobalFunction::new("giArenaGetArea", Pal4Function::NotImplemented));
    context.register_function(ScriptGlobalFunction::new("giArenaSkillEnable", Pal4Function::NotImplemented));
    context.register_function(ScriptGlobalFunction::new("giShowInnDialog", Pal4Function::NotImplemented));
    context.register_function(ScriptGlobalFunction::new("giGetInnDialogResult", Pal4Function::NotImplemented));
}

/// Registers catalog entries 144 through 167, in order.
fn register_catalog_part7(context: &mut ScriptGlobalContext<Pal4Function>)
    ensures
        final(context).globals_view() == old(context).globals_view(),
        final(context).funcs().len() == old(context).funcs().len() + 24,
        forall|i: int|
            0 <= i < old(context).funcs().len() ==> final(context).funcs()[i] == old(
                context,
            ).funcs()[i],
        final(context).funcs()[old(context).funcs().len() as int + 0].name@ == "giPlayerTakeARest"@,
        final(context).funcs()[old(context).funcs().len() as int + 0].func == Pal4Function::NotImplemented,
        final(context).funcs()[old(context).funcs().len() as int + 1].name@ == "giIsNightTime"@,
        final(context).funcs()[old(context).funcs().len() as int + 1].func == Pal4Function::NotImplemented,
        final(context).funcs()[old(context).funcs().len() as int + 2].name@ == "giPlayerSetPosRot1"@,
        final(context).funcs()[old(context).funcs().len() as int + 2].func == Pal4Function::NotImplemented,
        final(context).funcs()[old(context).funcs().len() as int + 3].name@ == "giPlayerSetPosRot2"@,
        final(context).funcs()[old(context).funcs().len() as int + 3].func == Pal4Function::NotImplemented,
        final(context).funcs()[old(context).funcs().len() as int + 4].name@ == "giStartUiTimer"@,
        final(context).funcs()[old(context).funcs().len() as int + 4].func == Pal4Function::NotImplemented,
        final(context).funcs()[old(context).funcs().len() as int + 5].name@ == "giPlayerForbidenSkill"@,
        final(context).funcs()[old(context).funcs().len() as int + 5].func == Pal4Function::NotImplemented,
        final(context).funcs()[old(context).funcs().len() as int + 6].name@ == "giGetMoney"@,
        final(context).funcs()[old(context).funcs().len() as int + 6].func == Pal4Function::NotImplemented,
        final(context).funcs()[old(context).funcs().len() as int + 7].name@ == "giSelectDialogSetDefaultSelect"@,
        final(context).funcs()[old(context).funcs().len() as int + 7].func == Pal4Function::NotImplemented,
        final(context).funcs()[old(context).funcs().len() as int + 8].name@ == "giShowQuestDialog"@,
        final(context).funcs()[old(context).funcs().len() as int + 8].func == Pal4Function::NotImplemented,
        final(context).funcs()[old(context).funcs().len() as int + 9].name@ == "giGetQuestDialogResult"@,
        final(context).funcs()[old(context).funcs().len() as int + 9].func == Pal4Function::NotImplemented,
        final(context).funcs()[old(context).funcs().len() as int + 10].name@ == "giResetPlayerToJumpStart"@,
        final(context).funcs()[old(context).funcs().len() as int + 10].func == Pal4Function::NotImplemented,
        final(context).funcs()[old(context).funcs().len() as int + 11].name@ == "giGOBReset"@,
        final(context).funcs()[old(context).funcs().len() as int + 11].func == Pal4Function::NotImplemented,
        final(context).funcs()[old(context).funcs().len() as int + 12].name@ == "giCheckEquipInInventory"@,
        final(context).funcs()[old(context).funcs().len() as int + 12].func == Pal4Function::NotImplemented,
        final(context).funcs()[old(context).funcs().len() as int + 13].name@ == "giRemoveEquipment"@,
        final(context).funcs()[old(context).funcs().len() as int + 13].func == Pal4Function::NotImplemented,
        final(context).funcs()[old(context).funcs().len() as int + 14].name@ == "giAddPrescription"@,
        final(context).funcs()[old(context).funcs().len() as int + 14].func == Pal4Function::NotImplemented,
        final(context).funcs()[old(context).funcs().len() as int + 15].name@ == "giEnableShadow"@,
        final(context).funcs()[old(context).funcs().len() as int + 15].func == Pal4Function::NotImplemented,
        final(context).funcs()[old(context).funcs().len() as int + 16].name@ == "giAddRoundTimes"@,
        final(context).funcs()[old(context).funcs().len() as int + 16].func == Pal4Function::NotImplemented,
        final(context).funcs()[old(context).funcs().len() as int + 17].name@ == "giTimeScript"@,
        final(context).funcs()[old(context).funcs().len() as int + 17].func == Pal4Function::NotImplemented,
        final(context).funcs()[old(context).funcs().len() as int + 18].name@ == "giTimeScriptTerminate"@,
        final(context).funcs()[old(context).funcs().len() as int + 18].func == Pal4Function::NotImplemented,
        final(context).funcs()[old(context).funcs().len() as int + 19].name@ == "giConfigCombatGroundCamera"@,
        final(context).funcs()[old(context).funcs().len() as int + 19].func == Pal4Function::NotImplemented,
        final(context).funcs()[old(context).funcs().len() as int + 20].name@ == "giAddPlayerFavor"@,
        final(context).funcs()[old(context).funcs().len() as int + 20].func == Pal4Function::NotImplemented,
        final(context).funcs()[old(context).funcs().len() as int + 21].name@ == "giGetPalTestResult"@,
        final(context).funcs()[old(context).funcs().len() as int + 21].func == Pal4Function::NotImplemented,
        final(context).funcs()[old(context).funcs().len() as int + 22].name@ == "giSetMinimapLevel"@,
        final(context).funcs()[old(context).funcs().len() as int + 22].func == Pal4Function::NotImplemented,
        final(context).funcs()[old(context).funcs().len() as int + 23].name@ == "giPetShow"@,
        final(context).funcs()[old(context).funcs().len() as int + 23].func == Pal4Function::NotImplemented,
{
    context.register_function(ScriptGlobalFunction::new("giPlayerTakeARest", Pal4Function::NotImplemented));
    context.register_function(ScriptGlobalFunction::new("giIsNightTime", Pal4Function::NotImplemented));
    context.register_function(ScriptGlobalFunction::new("giPlayerSetPosRot1", Pal4Function::NotImplemented));
    context.register_function(ScriptGlobalFunction::new("giPlayerSetPosRot2", Pal4Function::NotImplemented));
    context.register_function(ScriptGlobalFunction::new("giStartUiTimer", Pal4Function::NotImplemented));
    context.register_function(ScriptGlobalFunction::new("giPlayerForbidenSkill", Pal4Function::NotImplemented));
    context.register_function(ScriptGlobalFunction::new("giGetMoney", Pal4Function::NotImplemented));
    context.register_function(ScriptGlobalFunction::new("giSelectDialogSetDefaultSelect", Pal4Function::NotImplemented));
    context.register_function(ScriptGlobalFunction::new("giShowQuestDialog", Pal4Function::NotImplemented));
    context.register_function(ScriptGlobalFunction::new("giGetQuestDialogResult", Pal4Function::NotImplemented));
    context.register_function(ScriptGlobalFunction::new("giResetPlayerToJumpStart", Pal4Function::NotImplemented));
    context.register_function(ScriptGlobalFunction::new("giGOBReset", Pal4Function::NotImplemented));
    context.register_function(ScriptGlobalFunction::new("giCheckEquipInInventory", Pal4Function::NotImplemented));
    context.register_function(ScriptGlobalFunction::new("giRemoveEquipment", Pal4Function::NotImplemented));
    context.register_function(ScriptGlobalFunction::new("giAddPrescription", Pal4Function::NotImplemented));
    context.register_function(ScriptGlobalFunction::new("giEnableShadow", Pal4Function::NotImplemented));
    context.register_function(ScriptGlobalFunction::new("giAddRoundTimes", Pal4Function::NotImplemented));
    context.register_function(ScriptGlobalFunction::new("giTimeScript", Pal4Function::NotImplemented));
    context.register_function(ScriptGlobalFunction::new("giTimeScriptTerminate", Pal4Function::NotImplemented));
    context.register_function(ScriptGlobalFunction::new("giConfigCombatGroundCamera", Pal4Function::NotImplemented));
    context.register_function(ScriptGlobalFunction::new("giAddPlayerFavor", Pal4Function::NotImplemented));
    context.register_function(ScriptGlobalFunction::new("giGetPalTestResult", Pal4Function::NotImplemented));
    context.register_function(ScriptGlobalFunction::new("giSetMinimapLevel", Pal4Function::NotImplemented));
    context.register_function(ScriptGlobalFunction::new("giPetShow", Pal4Function::NotImplemented));
}

/// Registers catalog entries 168 through 191, in order.
fn register_catalog_part8(context: &mut ScriptGlobalContext<Pal4Function>)
    ensures
        final(context).globals_view() == old(context).globals_view(),
        final(context).funcs().len() == old(context).funcs().len() + 24,
        forall|i: int|
            0 <= i < old(context).funcs().len() ==> final(context).funcs()[i] == old(
                context,
            ).funcs()[i],
        final(context).funcs()[old(context).funcs().len() as int + 0].name@ == "giNpcAttachEffect"@,
        final(context).funcs()[old(context).funcs().len() as int + 0].func == Pal4Function::NotImplemented,
        final(context).funcs()[old(context).funcs().len() as int + 1].name@ == "giNpcDetachEffect"@,
        final(context).funcs()[old(context).funcs().len() as int + 1].func == Pal4Function::NotImplemented,
        final(context).funcs()[old(context).funcs().len() as int + 2].name@ == "giMstAttachEffect"@,
        final(context).funcs()[old(context).funcs().len() as int + 2].func == Pal4Function::NotImplemented,
        final(context).funcs()[old(context).funcs().len() as int + 3].name@ == "giMstDetachEffect"@,
        final(context).funcs()[old(context).funcs().len() as int + 3].func == Pal4Function::NotImplemented,
        final(context).funcs()[old(context).funcs().len() as int + 4].name@ == "giPlayerHookEffect"@,
        final(context).funcs()[old(context).funcs().len() as int + 4].func == Pal4Function::NotImplemented,
        final(context).funcs()[old(context).funcs().len() as int + 5].name@ == "giPlayerDetachEffect"@,
        final(context).funcs()[old(context).funcs().len() as int + 5].func == Pal4Function::NotImplemented,
        final(context).funcs()[old(context).funcs().len() as int + 6].name@ == "giCommonDialogGetLastSelect"@,
        final(context).funcs()[old(context).funcs().len() as int + 6].func == Pal4Function::NotImplemented,
        final(context).funcs()[old(context).funcs().len() as int + 7].name@ == "giConfigCombatVipMonster"@,
        final(context).funcs()[old(context).funcs().len() as int + 7].func == Pal4Function::NotImplemented,
        final(context).funcs()[old(context).funcs().len() as int + 8].name@ == "giEnableSTS"@,
        final(context).funcs()[old(context).funcs().len() as int + 8].func == Pal4Function::NotImplemented,
        final(context).funcs()[old(context).funcs().len() as int + 9].name@ == "giClearUiTimer"@,
        final(context).funcs()[old(context).funcs().len() as int + 9].func == Pal4Function::NotImplemented,
        final(context).funcs()[old(context).funcs().len() as int + 10].name@ == "giPauseUiTimer"@,
        final(context).funcs()[old(context).funcs().len() as int + 10].func == Pal4Function::NotImplemented,
        final(context).funcs()[old(context).funcs().len() as int + 11].name@ == "giResumeUiTimer"@,
        final(context).funcs()[old(context).funcs().len() as int + 11].func == Pal4Function::NotImplemented,
        final(context).funcs()[old(context).funcs().len() as int + 12].name@ == "giSetFullRage"@,
        final(context).funcs()[old(context).funcs().len() as int + 12].func == Pal4Function::NotImplemented,
        final(context).funcs()[old(context).funcs().len() as int + 13].name@ == "giUiTimerGetSaveData"@,
        final(context).funcs()[old(context).funcs().len() as int + 13].func == Pal4Function::NotImplemented,
        final(context).funcs()[old(context).funcs().len() as int + 14].name@ == "giScriptMusicPause"@,
        final(context).funcs()[old(context).funcs().len() as int + 14].func == Pal4Function::ScriptMusicPause,
        final(context).funcs()[old(context).funcs().len() as int + 15].name@ == "giScriptMusicResume"@,
        final(context).funcs()[old(context).funcs().len() as int + 15].func == Pal4Function::ScriptMusicResume,
        final(context).funcs()[old(context).funcs().len() as int + 16].name@ == "giWait"@,
        final(context).funcs()[old(context).funcs().len() as int + 16].func == Pal4Function::Wait,
        final(context).funcs()[old(context).funcs().len() as int + 17].name@ == "giTalk"@,
        final(context).funcs()[old(context).funcs().len() as int + 17].func == Pal4Function::NotImplemented,
        final(context).funcs()[old(context).funcs().len() as int + 18].name@ == "giRandTalkPush"@,
        final(context).funcs()[old(context).funcs().len() as int + 18].func == Pal4Function::NotImplemented,
        final(context).funcs()[old(context).funcs().len() as int + 19].name@ == "giRandTalk"@,
        final(context).funcs()[old(context).funcs().len() as int + 19].func == Pal4Function::NotImplemented,
        final(context).funcs()[old(context).funcs().len() as int + 20].name@ == "giRandTalkRelease"@,
        final(context).funcs()[old(context).funcs().len() as int + 20].func == Pal4Function::NotImplemented,
        final(context).funcs()[old(context).funcs().len() as int + 21].name@ == "giTalkWait"@,
        final(context).funcs()[old(context).funcs().len() as int + 21].func == Pal4Function::NotImplemented,
        final(context).funcs()[old(context).funcs().len() as int + 22].name@ == "giPlayerDoAction"@,
        final(context).funcs()[old(context).funcs().len() as int + 22].func == Pal4Function::PlayerDoAction,
        final(context).funcs()[old(context).funcs().len() as int + 23].name@ == "giPlayerEndAction"@,
        final(context).funcs()[old(context).funcs().len() as int + 23].func == Pal4Function::NotImplemented,
{
    context.register_function(ScriptGlobalFunction::new("giNpcAttachEffect", Pal4Function::NotImplemented));
    context.register_function(ScriptGlobalFunction::new("giNpcDetachEffect", Pal4Function::NotImplemented));
    context.register_function(ScriptGlobalFunction::new("giMstAttachEffect", Pal4Function::NotImplemented));
    context.register_function(ScriptGlobalFunction::new("giMstDetachEffect", Pal4Function::NotImplemented));
    context.register_function(ScriptGlobalFunction::new("giPlayerHookEffect", Pal4Function::NotImplemented));
    context.register_function(ScriptGlobalFunction::new("giPlayerDetachEffect", Pal4Function::NotImplemented));
    context.register_function(ScriptGlobalFunction::new("giCommonDialogGetLastSelect", Pal4Function::NotImplemented));
    context.register_function(ScriptGlobalFunction::new("giConfigCombatVipMonster", Pal4Function::NotImplemented));
    context.register_function(ScriptGlobalFunction::new("giEnableSTS", Pal4Function::NotImplemented));
    context.register_function(ScriptGlobalFunction::new("giClearUiTimer", Pal4Function::NotImplemented));
    context.register_function(ScriptGlobalFunction::new("giPauseUiTimer", Pal4Function::NotImplemented));
    context.register_function(ScriptGlobalFunction::new("giResumeUiTimer", Pal4Function::NotImplemented));
    context.register_function(ScriptGlobalFunction::new("giSetFullRage", Pal4Function::NotImplemented));
    context.register_function(ScriptGlobalFunction::new("giUiTimerGetSaveData", Pal4Function::NotImplemented));
    context.register_function(ScriptGlobalFunction::new("giScriptMusicPause", Pal4Function::ScriptMusicPause));
    context.register_function(ScriptGlobalFunction::new("giScriptMusicResume", Pal4Function::ScriptMusicResume));
    context.register_function(ScriptGlobalFunction::new("giWait", Pal4Function::Wait));
    context.register_function(ScriptGlobalFunction::new("giTalk", Pal4Function::NotImplemented));
    context.register_function(ScriptGlobalFunction::new("giRandTalkPush", Pal4Function::NotImplemented));
    context.register_function(ScriptGlobalFunction::new("giRandTalk", Pal4Function::NotImplemented));
    context.register_function(ScriptGlobalFunction::new("giRandTalkRelease", Pal4Function::NotImplemented));
    context.register_function(ScriptGlobalFunction::new("giTalkWait", Pal4Function::NotImplemented));
    context.register_function(ScriptGlobalFunction::new("giPlayerDoAction", Pal4Function::PlayerDoAction));
    context.register_function(ScriptGlobalFunction::new("giPlayerEndAction", Pal4Function::NotImplemented));
}

/// Registers catalog entries 192 through 215, in order.
fn register_catalog_part9(context: &mut ScriptGlobalContext<Pal4Function>)
    ensures
        final(context).globals_view() == old(context).globals_view(),
        final(context).funcs().len() == old(context).funcs().len() + 24,
        forall|i: int|
            0 <= i < old(context).funcs().len() ==> final(context).funcs()[i] == old(
                context,
            ).funcs()[i],
        final(context).funcs()[old(context).funcs().len() as int + 0].name@ == "giPlayerCurrentDoAction"@,
        final(context).funcs()[old(context).funcs().len() as int + 0].func == Pal4Function::NotImplemented,
        final(context).funcs()[old(context).funcs().len() as int + 1].name@ == "giPlayerCurrentEndAction"@,
        final(context).funcs()[old(context).funcs().len() as int + 1].func == Pal4Function::NotImplemented,
        final(context).funcs()[old(context).funcs().len() as int + 2].name@ == "giPlayerSetPos"@,
        final(context).funcs()[old(context).funcs().len() as int + 2].func == Pal4Function::NotImplemented,
        final(context).funcs()[old(context).funcs().len() as int + 3].name@ == "giPlayerCurrentSetPos"@,
        final(context).funcs()[old(context).funcs().len() as int + 3].func == Pal4Function::PlayerCurrentSetPos,
        final(context).funcs()[old(context).funcs().len() as int + 4].name@ == "giPlayerSetRot"@,
        final(context).funcs()[old(context).funcs().len() as int + 4].func == Pal4Function::NotImplemented,
        final(context).funcs()[old(context).funcs().len() as int + 5].name@ == "giPlayerSetAng"@,
        final(context).funcs()[old(context).funcs().len() as int + 5].func == Pal4Function::NotImplemented,
        final(context).funcs()[old(context).funcs().len() as int + 6].name@ == "giPlayerCurrentSetAng"@,
        final(context).funcs()[old(context).funcs().len() as int + 6].func == Pal4Function::PlayerCurrentSetAng,
        final(context).funcs()[old(context).funcs().len() as int + 7].name@ == "giPlayerFaceToPlayer"@,
        final(context).funcs()[old(context).funcs().len() as int + 7].func == Pal4Function::NotImplemented,
        final(context).funcs()[old(context).funcs().len() as int + 8].name@ == "giPlayerSetDir"@,
        final(context).funcs()[old(context).funcs().len() as int + 8].func == Pal4Function::NotImplemented,
        final(context).funcs()[old(context).funcs().len() as int + 9].name@ == "giPlayerFaceToNpc"@,
        final(context).funcs()[old(context).funcs().len() as int + 9].func == Pal4Function::NotImplemented,
        final(context).funcs()[old(context).funcs().len() as int + 10].name@ == "giPlayerWalkTo"@,
        final(context).funcs()[old(context).funcs().len() as int + 10].func == Pal4Function::NotImplemented,
        final(context).funcs()[old(context).funcs().len() as int + 11].name@ == "giPlayerRunTo"@,
        final(context).funcs()[old(context).funcs().len() as int + 11].func == Pal4Function::NotImplemented,
        final(context).funcs()[old(context).funcs().len() as int + 12].name@ == "giPlayerCurrentWalkTo"@,
        final(context).funcs()[old(context).funcs().len() as int + 12].func == Pal4Function::NotImplemented,
        final(context).funcs()[old(context).funcs().len() as int + 13].name@ == "giPlayerBackTo"@,
        final(context).funcs()[old(context).funcs().len() as int + 13].func == Pal4Function::NotImplemented,
        final(context).funcs()[old(context).funcs().len() as int + 14].name@ == "giPlayerBlendOut"@,
        final(context).funcs()[old(context).funcs().len() as int + 14].func == Pal4Function::NotImplemented,
        final(context).funcs()[old(context).funcs().len() as int + 15].name@ == "giPlayerBlendIn"@,
        final(context).funcs()[old(context).funcs().len() as int + 15].func == Pal4Function::NotImplemented,
        final(context).funcs()[old(context).funcs().len() as int + 16].name@ == "giPlayerFaceToCurrentPlayer"@,
        final(context).funcs()[old(context).funcs().len() as int + 16].func == Pal4Function::NotImplemented,
        final(context).funcs()[old(context).funcs().len() as int + 17].name@ == "giCurrentPlayerFaceToNpc"@,
        final(context).funcs()[old(context).funcs().len() as int + 17].func == Pal4Function::NotImplemented,
        final(context).funcs()[old(context).funcs().len() as int + 18].name@ == "giPlayerDoActionRepeat"@,
        final(context).funcs()[old(context).funcs().len() as int + 18].func == Pal4Function::NotImplemented,
        final(context).funcs()[old(context).funcs().len() as int + 19].name@ == "giPlayerEndActionRepeat"@,
        final(context).funcs()[old(context).funcs().len() as int + 19].func == Pal4Function::NotImplemented,
        final(context).funcs()[old(context).funcs().len() as int + 20].name@ == "giPlayerEndMove"@,
        final(context).funcs()[old(context).funcs().len() as int + 20].func == Pal4Function::NotImplemented,
        final(context).funcs()[old(context).funcs().len() as int + 21].name@ == "giCurrentPlayerEndMove"@,
        final(context).funcs()[old(context).funcs().len() as int + 21].func == Pal4Function::NotImplemented,
        final(context).funcs()[old(context).funcs().len() as int + 22].name@ == "giNpcWalkTo"@,
        final(context).funcs()[old(context).funcs().len() as int + 22].func == Pal4Function::NotImplemented,
        final(context).funcs()[old(context).funcs().len() as int + 23].name@ == "giNpcRunTo"@,
        final(context).funcs()[old(context).funcs().len() as int + 23].func == Pal4Function::NotImplemented,
{
    context.register_function(ScriptGlobalFunction::new("giPlayerCurrentDoAction", Pal4Function::NotImplemented));
    context.register_function(ScriptGlobalFunction::new("giPlayerCurrentEndAction", Pal4Function::NotImplemented));
    context.register_function(ScriptGlobalFunction::new("giPlayerSetPos", Pal4Function::NotImplemented));
    context.register_function(ScriptGlobalFunction::new("giPlayerCurrentSetPos", Pal4Function::PlayerCurrentSetPos));
    context.register_function(ScriptGlobalFunction::new("giPlayerSetRot", Pal4Function::NotImplemented));
    context.register_function(ScriptGlobalFunction::new("giPlayerSetAng", Pal4Function::NotImplemented));
    context.register_function(ScriptGlobalFunction::new("giPlayerCurrentSetAng", Pal4Function::PlayerCurrentSetAng));
    context.register_function(ScriptGlobalFunction::new("giPlayerFaceToPlayer", Pal4Function::NotImplemented));
    context.register_function(ScriptGlobalFunction::new("giPlayerSetDir", Pal4Function::NotImplemented));
    context.register_function(ScriptGlobalFunction::new("giPlayerFaceToNpc", Pal4Function::NotImplemented));
    context.register_function(ScriptGlobalFunction::new("giPlayerWalkTo", Pal4Function::NotImplemented));
    context.register_function(ScriptGlobalFunction::new("giPlayerRunTo", Pal4Function::NotImplemented));
    context.register_function(ScriptGlobalFunction::new("giPlayerCurrentWalkTo", Pal4Function::NotImplemented));
    context.register_function(ScriptGlobalFunction::new("giPlayerBackTo", Pal4Function::NotImplemented));
    context.register_function(ScriptGlobalFunction::new("giPlayerBlendOut", Pal4Function::NotImplemented));
    context.register_function(ScriptGlobalFunction::new("giPlayerBlendIn", Pal4Function::NotImplemented));
    context.register_function(ScriptGlobalFunction::new("giPlayerFaceToCurrentPlayer", Pal4Function::NotImplemented));
    context.register_function(ScriptGlobalFunction::new("giCurrentPlayerFaceToNpc", Pal4Function::NotImplemented));
    context.register_function(ScriptGlobalFunction::new("giPlayerDoActionRepeat", Pal4Function::NotImplemented));
    context.register_function(ScriptGlobalFunction::new("giPlayerEndActionRepeat", Pal4Function::NotImplemented));
    context.register_function(ScriptGlobalFunction::new("giPlayerEndMove", Pal4Function::NotImplemented));
    context.register_function(ScriptGlobalFunction::new("giCurrentPlayerEndMove", Pal4Function::NotImplemented));
    context.register_function(ScriptGlobalFunction::new("giNpcWalkTo", Pal4Function::NotImplemented));
    context.register_function(ScriptGlobalFunction::new("giNpcRunTo", Pal4Function::NotImplemented));
}

/// Registers catalog entries 216 through 239, in order.
fn register_catalog_part10(context: &mut ScriptGlobalContext<Pal4Function>)
    ensures
        final(context).globals_view() == old(context).globals_view(),
        final(context).funcs().len() == old(context).funcs().len() + 24,
        forall|i: int|
            0 <= i < old(context).funcs().len() ==> final(context).funcs()[i] == old(
                context,
            ).funcs()[i],
        final(context).funcs()[old(context).funcs().len() as int + 0].name@ == "giNpcBackTo"@,
        final(context).funcs()[old(context).funcs().len() as int + 0].func == Pal4Function::NotImplemented,
        final(context).funcs()[old(context).funcs().len() as int + 1].name@ == "giNpcDoAction"@,
        final(context).funcs()[old(context).funcs().len() as int + 1].func == Pal4Function::NotImplemented,
        final(context).funcs()[old(context).funcs().len() as int + 2].name@ == "giNpcEndAction"@,
        final(context).funcs()[old(context).funcs().len() as int + 2].func == Pal4Function::NotImplemented,
        final(context).funcs()[old(context).funcs().len() as int + 3].name@ == "giNpcSetPos"@,
        final(context).funcs()[old(context).funcs().len() as int + 3].func == Pal4Function::NotImplemented,
        final(context).funcs()[old(context).funcs().len() as int + 4].name@ == "giNpcSetRot"@,
        final(context).funcs()[old(context).funcs().len() as int + 4].func == Pal4Function::NotImplemented,
        final(context).funcs()[old(context).funcs().len() as int + 5].name@ == "giNpcSetDir"@,
        final(context).funcs()[old(context).funcs().len() as int + 5].func == Pal4Function::NotImplemented,
        final(context).funcs()[old(context).funcs().len() as int + 6].name@ == "giNpcFaceToNpc"@,
        final(context).funcs()[old(context).funcs().len() as int + 6].func == Pal4Function::NotImplemented,
        final(context).funcs()[old(context).funcs().len() as int + 7].name@ == "giNpcFaceToPlayer"@,
        final(context).funcs()[old(context).funcs().len() as int + 7].func == Pal4Function::NotImplemented,
        final(context).funcs()[old(context).funcs().len() as int + 8].name@ == "giNpcBlendOut"@,
        final(context).funcs()[old(context).funcs().len() as int + 8].func == Pal4Function::NotImplemented,
        final(context).funcs()[old(context).funcs().len() as int + 9].name@ == "giNpcBlendIn"@,
        final(context).funcs()[old(context).funcs().len() as int + 9].func == Pal4Function::NotImplemented,
        final(context).funcs()[old(context).funcs().len() as int + 10].name@ == "giNpcFaceToCurrentPlayer"@,
        final(context).funcs()[old(context).funcs().len() as int + 10].func == Pal4Function::NotImplemented,
        final(context).funcs()[old(context).funcs().len() as int + 11].name@ == "giNpcResetDir"@,
        final(context).funcs()[old(context).funcs().len() as int + 11].func == Pal4Function::NotImplemented,
        final(context).funcs()[old(context).funcs().len() as int + 12].name@ == "giNpcDoActionRepeat"@,
        final(context).funcs()[old(context).funcs().len() as int + 12].func == Pal4Function::NotImplemented,
        final(context).funcs()[old(context).funcs().len() as int + 13].name@ == "giNpcEndActionRepeat"@,
        final(context).funcs()[old(context).funcs().len() as int + 13].func == Pal4Function::NotImplemented,
        final(context).funcs()[old(context).funcs().len() as int + 14].name@ == "giNpcEndMove"@,
        final(context).funcs()[old(context).funcs().len() as int + 14].func == Pal4Function::NotImplemented,
        final(context).funcs()[old(context).funcs().len() as int + 15].name@ == "giNpcSetAng"@,
        final(context).funcs()[old(context).funcs().len() as int + 15].func == Pal4Function::NotImplemented,
        final(context).funcs()[old(context).funcs().len() as int + 16].name@ == "giCameraPrepare"@,
        final(context).funcs()[old(context).funcs().len() as int + 16].func == Pal4Function::CameraPrepare,
        final(context).funcs()[old(context).funcs().len() as int + 17].name@ == "giCameraRunSingle"@,
        final(context).funcs()[old(context).funcs().len() as int + 17].func == Pal4Function::CameraRunSingle,
        final(context).funcs()[old(context).funcs().len() as int + 18].name@ == "giCameraRunCircle"@,
        final(context).funcs()[old(context).funcs().len() as int + 18].func == Pal4Function::NotImplemented,
        final(context).funcs()[old(context).funcs().len() as int + 19].name@ == "giCameraWait"@,
        final(context).funcs()[old(context).funcs().len() as int + 19].func == Pal4Function::NotImplemented,
        final(context).funcs()[old(context).funcs().len() as int + 20].name@ == "giFlashOutBlack"@,
        final(context).funcs()[old(context).funcs().len() as int + 20].func == Pal4Function::FlashOutBlack,
        final(context).funcs()[old(context).funcs().len() as int + 21].name@ == "giFlashInBlack"@,
        final(context).funcs()[old(context).funcs().len() as int + 21].func == Pal4Function::FlashInBlack,
        final(context).funcs()[old(context).funcs().len() as int + 22].name@ == "giFlashOutWhite"@,
        final(context).funcs()[old(context).funcs().len() as int + 22].func == Pal4Function::NotImplemented,
        final(context).funcs()[old(context).funcs().len() as int + 23].name@ == "giFlashInWhite"@,
        final(context).funcs()[old(context).funcs().len() as int + 23].func == Pal4Function::NotImplemented,
{
    context.register_function(ScriptGlobalFunction::new("giNpcBackTo", Pal4Function::NotImplemented));
    context.register_function(ScriptGlobalFunction::new("giNpcDoAction", Pal4Function::NotImplemented));
    context.register_function(ScriptGlobalFunction::new("giNpcEndAction", Pal4Function::NotImplemented));
    context.register_function(ScriptGlobalFunction::new("giNpcSetPos", Pal4Function::NotImplemented));
    context.register_function(ScriptGlobalFunction::new("giNpcSetRot", Pal4Function::NotImplemented));
    context.register_function(ScriptGlobalFunction::new("giNpcSetDir", Pal4Function::NotImplemented));
    context.register_function(ScriptGlobalFunction::new("giNpcFaceToNpc", Pal4Function::NotImplemented));
    context.register_function(ScriptGlobalFunction::new("giNpcFaceToPlayer", Pal4Function::NotImplemented));
    context.register_function(ScriptGlobalFunction::new("giNpcBlendOut", Pal4Function::NotImplemented));
    context.register_function(ScriptGlobalFunction::new("giNpcBlendIn", Pal4Function::NotImplemented));
    context.register_function(ScriptGlobalFunction::new("giNpcFaceToCurrentPlayer", Pal4Function::NotImplemented));
    context.register_function(ScriptGlobalFunction::new("giNpcResetDir", Pal4Function::NotImplemented));
    context.register_function(ScriptGlobalFunction::new("giNpcDoActionRepeat", Pal4Function::NotImplemented));
    context.register_function(ScriptGlobalFunction::new("giNpcEndActionRepeat", Pal4Function::NotImplemented));
    context.register_function(ScriptGlobalFunction::new("giNpcEndMove", Pal4Function::NotImplemented));
    context.register_function(ScriptGlobalFunction::new("giNpcSetAng", Pal4Function::NotImplemented));
    context.register_function(ScriptGlobalFunction::new("giCameraPrepare", Pal4Function::CameraPrepare));
    context.register_function(ScriptGlobalFunction::new("giCameraRunSingle", Pal4Function::CameraRunSingle));
    context.register_function(ScriptGlobalFunction::new("giCameraRunCircle", Pal4Function::NotImplemented));
    context.register_function(ScriptGlobalFunction::new("giCameraWait", Pal4Function::NotImplemented));
    context.register_function(ScriptGlobalFunction::new("giFlashOutBlack", Pal4Function::FlashOutBlack));
    context.register_function(ScriptGlobalFunction::new("giFlashInBlack", Pal4Function::FlashInBlack));
    context.register_function(ScriptGlobalFunction::new("giFlashOutWhite", Pal4Function::NotImplemented));
    context.register_function(ScriptGlobalFunction::new("giFlashInWhite", Pal4Function::NotImplemented));
}

/// Registers catalog entries 240 through 263, in order.
fn register_catalog_part11(context: &mut ScriptGlobalContext<Pal4Function>)
    ensures
        final(context).globals_view() == old(context).globals_view(),
        final(context).funcs().len() == old(context).funcs().len() + 24,
        forall|i: int|
            0 <= i < old(context).funcs().len() ==> final(context).funcs()[i] == old(
                context,
            ).funcs()[i],
        final(context).funcs()[old(context).funcs().len() as int + 0].name@ == "giFlashOutRed"@,
        final(context).funcs()[old(context).funcs().len() as int + 0].func == Pal4Function::NotImplemented,
        final(context).funcs()[old(context).funcs().len() as int + 1].name@ == "giFlashInRed"@,
        final(context).funcs()[old(context).funcs().len() as int + 1].func == Pal4Function::NotImplemented,
        final(context).funcs()[old(context).funcs().len() as int + 2].name@ == "giPlayMovie"@,
        final(context).funcs()[old(context).funcs().len() as int + 2].func == Pal4Function::PlayMovie,
        final(context).funcs()[old(context).funcs().len() as int + 3].name@ == "giObjectDoAction"@,
        final(context).funcs()[old(context).funcs().len() as int + 3].func == Pal4Function::NotImplemented,
        final(context).funcs()[old(context).funcs().len() as int + 4].name@ == "giStartTradeSystem"@,
        final(context).funcs()[old(context).funcs().len() as int + 4].func == Pal4Function::NotImplemented,
        final(context).funcs()[old(context).funcs().len() as int + 5].name@ == "giStartPuzzleGame"@,
        final(context).funcs()[old(context).funcs().len() as int + 5].func == Pal4Function::NotImplemented,
        final(context).funcs()[old(context).funcs().len() as int + 6].name@ == "giStartJigsawGame"@,
        final(context).funcs()[old(context).funcs().len() as int + 6].func == Pal4Function::NotImplemented,
        final(context).funcs()[old(context).funcs().len() as int + 7].name@ == "giOBJBlendOut"@,
        final(context).funcs()[old(context).funcs().len() as int + 7].func == Pal4Function::NotImplemented,
        final(context).funcs()[old(context).funcs().len() as int + 8].name@ == "giOBJBlendIn"@,
        final(context).funcs()[old(context).funcs().len() as int + 8].func == Pal4Function::NotImplemented,
        final(context).funcs()[old(context).funcs().len() as int + 9].name@ == "giMSTBlendOut"@,
        final(context).funcs()[old(context).funcs().len() as int + 9].func == Pal4Function::NotImplemented,
        final(context).funcs()[old(context).funcs().len() as int + 10].name@ == "giMSTBlendIn"@,
        final(context).funcs()[old(context).funcs().len() as int + 10].func == Pal4Function::NotImplemented,
        final(context).funcs()[old(context).funcs().len() as int + 11].name@ == "giShowCommonDialog"@,
        final(context).funcs()[old(context).funcs().len() as int + 11].func == Pal4Function::NotImplemented,
        final(context).funcs()[old(context).funcs().len() as int + 12].name@ == "giShowSelectDialog"@,
        final(context).funcs()[old(context).funcs().len() as int + 12].func == Pal4Function::NotImplemented,
        final(context).funcs()[old(context).funcs().len() as int + 13].name@ == "giGOBMovment"@,
        final(context).funcs()[old(context).funcs().len() as int + 13].func == Pal4Function::NotImplemented,
        final(context).funcs()[old(context).funcs().len() as int + 14].name@ == "giShowTutorial"@,
        final(context).funcs()[old(context).funcs().len() as int + 14].func == Pal4Function::NotImplemented,
        final(context).funcs()[old(context).funcs().len() as int + 15].name@ == "giShowWorldMap"@,
        final(context).funcs()[old(context).funcs().len() as int + 15].func == Pal4Function::NotImplemented,
        final(context).funcs()[old(context).funcs().len() as int + 16].name@ == "giGOBScale"@,
        final(context).funcs()[old(context).funcs().len() as int + 16].func == Pal4Function::NotImplemented,
        final(context).funcs()[old(context).funcs().len() as int + 17].name@ == "giPlayerCurrentFaceToGOB"@,
        final(context).funcs()[old(context).funcs().len() as int + 17].func == Pal4Function::NotImplemented,
        final(context).funcs()[old(context).funcs().len() as int + 18].name@ == "giPlayerCurrentMovement"@,
        final(context).funcs()[old(context).funcs().len() as int + 18].func == Pal4Function::NotImplemented,
        final(context).funcs()[old(context).funcs().len() as int + 19].name@ == "giShowPoetry"@,
        final(context).funcs()[old(context).funcs().len() as int + 19].func == Pal4Function::NotImplemented,
        final(context).funcs()[old(context).funcs().len() as int + 20].name@ == "giNPCFlyTo"@,
        final(context).funcs()[old(context).funcs().len() as int + 20].func == Pal4Function::NotImplemented,
        final(context).funcs()[old(context).funcs().len() as int + 21].name@ == "giGotoLogoWait"@,
        final(context).funcs()[old(context).funcs().len() as int + 21].func == Pal4Function::NotImplemented,
        final(context).funcs()[old(context).funcs().len() as int + 22].name@ == "giShowCommonDialogInSelectMode"@,
        final(context).funcs()[old(context).funcs().len() as int + 22].func == Pal4Function::NotImplemented,
        final(context).funcs()[old(context).funcs().len() as int + 23].name@ == "giPlayMovieFinal"@,
        final(context).funcs()[old(context).funcs().len() as int + 23].func == Pal4Function::NotImplemented,
{
    context.register_function(ScriptGlobalFunction::new("giFlashOutRed", Pal4Function::NotImplemented));
    context.register_function(ScriptGlobalFunction::new("giFlashInRed", Pal4Function::NotImplemented));
    context.register_function(ScriptGlobalFunction::new("giPlayMovie", Pal4Function::PlayMovie));
    context.register_function(ScriptGlobalFunction::new("giObjectDoAction", Pal4Function::NotImplemented));
    context.register_function(ScriptGlobalFunction::new("giStartTradeSystem", Pal4Function::NotImplemented));
    context.register_function(ScriptGlobalFunction::new("giStartPuzzleGame", Pal4Function::NotImplemented));
    context.register_function(ScriptGlobalFunction::new("giStartJigsawGame", Pal4Function::NotImplemented));
    context.register_function(ScriptGlobalFunction::new("giOBJBlendOut", Pal4Function::NotImplemented));
    context.register_function(ScriptGlobalFunction::new("giOBJBlendIn", Pal4Function::NotImplemented));
    context.register_function(ScriptGlobalFunction::new("giMSTBlendOut", Pal4Function::NotImplemented));
    context.register_function(ScriptGlobalFunction::new("giMSTBlendIn", Pal4Function::NotImplemented));
    context.register_function(ScriptGlobalFunction::new("giShowCommonDialog", Pal4Function::NotImplemented));
    context.register_function(ScriptGlobalFunction::new("giShowSelectDialog", Pal4Function::NotImplemented));
    context.register_function(ScriptGlobalFunction::new("giGOBMovment", Pal4Function::NotImplemented));
    context.register_function(ScriptGlobalFunction::new("giShowTutorial", Pal4Function::NotImplemented));
    context.register_function(ScriptGlobalFunction::new("giShowWorldMap", Pal4Function::NotImplemented));
    context.register_function(ScriptGlobalFunction::new("giGOBScale", Pal4Function::NotImplemented));
    context.register_function(ScriptGlobalFunction::new("giPlayerCurrentFaceToGOB", Pal4Function::NotImplemented));
    context.register_function(ScriptGlobalFunction::new("giPlayerCurrentMovement", Pal4Function::NotImplemented));
    context.register_function(ScriptGlobalFunction::new("giShowPoetry", Pal4Function::NotImplemented));
    context.register_function(ScriptGlobalFunction::new("giNPCFlyTo", Pal4Function::NotImplemented));
    context.register_function(ScriptGlobalFunction::new("giGotoLogoWait", Pal4Function::NotImplemented));
    context.register_function(ScriptGlobalFunction::new("giShowCommonDialogInSelectMode", Pal4Function::NotImplemented));
    context.register_function(ScriptGlobalFunction::new("giPlayMovieFinal", Pal4Function::NotImplemented));
}

/// Entries 0 through 23 of the catalog, by name and behavior.
pub open spec fn pal4_catalog_part1_ok(f: Seq<ScriptGlobalFunction<Pal4Function>>) -> bool {
    &&& f[0].name@ == "giIMMBegin"@
    &&& f[0].func == Pal4Function::ImmBegin
    &&& f[1].name@ == "giIMMEnd"@
    &&& f[1].func == Pal4Function::ImmEnd
    &&& f[2].name@ == "giNewGame"@
    &&& f[2].func == Pal4Function::NewGame
    &&& f[3].name@ == "giCameraCtrlYPR"@
    &&& f[3].func == Pal4Function::NotImplemented
    &&& f[4].name@ == "giCameraCtrlDist"@
    &&& f[4].func == Pal4Function::NotImplemented
    &&& f[5].name@ == "giCameraCtrlYPRD"@
    &&& f[5].func == Pal4Function::NotImplemented
    &&& f[6].name@ == "giCameraGetDist"@
    &&& f[6].func == Pal4Function::NotImplemented
    &&& f[7].name@ == "giCameraGetYaw"@
    &&& f[7].func == Pal4Function::NotImplemented
    &&& f[8].name@ == "giCameraGetPitch"@
    &&& f[8].func == Pal4Function::NotImplemented
    &&& f[9].name@ == "giCameraGetRoll"@
    &&& f[9].func == Pal4Function::NotImplemented
    &&& f[10].name@ == "giArenaLoad"@
    &&& f[10].func == Pal4Function::NotImplemented
    &&& f[11].name@ == "giArenaReady"@
    &&& f[11].func == Pal4Function::ArenaReady
    &&& f[12].name@ == "giArenaReadyRestore"@
    &&& f[12].func == Pal4Function::NotImplemented
    &&& f[13].name@ == "giArenaHint"@
    &&& f[13].func == Pal4Function::NotImplemented
    &&& f[14].name@ == "giArenaComeFromHere"@
    &&& f[14].func == Pal4Function::NotImplemented
    &&& f[15].name@ == "giPlayerSetLeader"@
    &&& f[15].func == Pal4Function::PlayerSetLeader
    &&& f[16].name@ == "giPlayerSetVisible"@
    &&& f[16].func == Pal4Function::NotImplemented
    &&& f[17].name@ == "giPlayerAttachCollision"@
    &&& f[17].func == Pal4Function::NotImplemented
    &&& f[18].name@ == "giPlayerDetachCollision"@
    &&& f[18].func == Pal4Function::NotImplemented
    &&& f[19].name@ == "giPlayerLock"@
    &&& f[19].func == Pal4Function::PlayerLock
    &&& f[20].name@ == "giPlayerUnLock"@
    &&& f[20].func == Pal4Function::NotImplemented
    &&& f[21].name@ == "giSetNpcVisible"@
    &&& f[21].func == Pal4Function::NotImplemented
    &&& f[22].name@ == "giNpcCreate"@
    &&& f[22].func == Pal4Function::NotImplemented
    &&& f[23].name@ == "giNpcDelete"@
    &&& f[23].func == Pal4Function::NotImplemented
}

/// Entries 24 through 47 of the catalog, by name and behavior.
pub open spec fn pal4_catalog_part2_ok(f: Seq<ScriptGlobalFunction<Pal4Function>>) -> bool {
    &&& f[24].name@ == "giSystemExchange"@
    &&& f[24].func == Pal4Function::NotImplemented
    &&& f[25].name@ == "giMonsterStopPursuit"@
    &&& f[25].func == Pal4Function::NotImplemented
    &&& f[26].name@ == "giCameraSetMode"@
    &&& f[26].func == Pal4Function::NotImplemented
    &&& f[27].name@ == "giGetGoodsOpenCondition"@
    &&& f[27].func == Pal4Function::NotImplemented
    &&& f[28].name@ == "giNpcPauseBeh"@
    &&& f[28].func == Pal4Function::NotImplemented
    &&& f[29].name@ == "giNpcResumeBeh"@
    &&& f[29].func == Pal4Function::NotImplemented
    &&& f[30].name@ == "giOpenWeather"@
    &&& f[30].func == Pal4Function::NotImplemented
    &&& f[31].name@ == "giCloseWeather"@
    &&& f[31].func == Pal4Function::NotImplemented
    &&& f[32].name@ == "giSetMinimapExpmode"@
    &&& f[32].func == Pal4Function::NotImplemented
    &&& f[33].name@ == "giGetRandnum"@
    &&& f[33].func == Pal4Function::NotImplemented
    &&& f[34].name@ == "giSetTempGameState"@
    &&& f[34].func == Pal4Function::NotImplemented
    &&& f[35].name@ == "giFlushTailYAngle"@
    &&& f[35].func == Pal4Function::NotImplemented
    &&& f[36].name@ == "giUnknown"@
    &&& f[36].func == Pal4Function::Unknown
    &&& f[37].name@ == "giAddCombatMonster"@
    &&& f[37].func == Pal4Function::NotImplemented
    &&& f[38].name@ == "giConfigCombatParam"@
    &&& f[38].func == Pal4Function::NotImplemented
    &&& f[39].name@ == "giConfigCombatBgm"@
    &&& f[39].func == Pal4Function::NotImplemented
    &&& f[40].name@ == "giConfigCombatCamera"@
    &&& f[40].func == Pal4Function::NotImplemented
    &&& f[41].name@ == "giStartCombat"@
    &&& f[41].func == Pal4Function::NotImplemented
    &&& f[42].name@ == "giSetObjectVisible"@
    &&& f[42].func == Pal4Function::NotImplemented
    &&& f[43].name@ == "giAddProperty"@
    &&& f[43].func == Pal4Function::NotImplemented
    &&& f[44].name@ == "giDelProperty"@
    &&& f[44].func == Pal4Function::NotImplemented
    &&& f[45].name@ == "giPlayerInTeam"@
    &&& f[45].func == Pal4Function::NotImplemented
    &&& f[46].name@ == "giPlayerOutTeam"@
    &&& f[46].func == Pal4Function::NotImplemented
    &&& f[47].name@ == "giGOMTouch"@
    &&& f[47].func == Pal4Function::NotImplemented
}

/// Entries 48 through 71 of the catalog, by name and behavior.
pub open spec fn pal4_catalog_part3_ok(f: Seq<ScriptGlobalFunction<Pal4Function>>) -> bool {
    &&& f[48].name@ == "giCameraSetCollide"@
    &&& f[48].func == Pal4Function::CameraSetCollide
    &&& f[49].name@ == "giCameraSeekToPlayer"@
    &&& f[49].func == Pal4Function::CameraSeekToPlayer
    &&& f[50].name@ == "giCameraAutoSeek"@
    &&& f[50].func == Pal4Function::CameraAutoSeek
    &&& f[51].name@ == "giPlayerSetAttr"@
    &&& f[51].func == Pal4Function::PlayerSetAttr
    &&& f[52].name@ == "giPlayerGetLeader"@
    &&& f[52].func == Pal4Function::NotImplemented
    &&& f[53].name@ == "giSetPlayerLevel"@
    &&& f[53].func == Pal4Function::NotImplemented
    &&& f[54].name@ == "giAddPlayerEquip"@
    &&& f[54].func == Pal4Function::AddPlayerEquip
    &&& f[55].name@ == "giOpenMovieFlag"@
    &&& f[55].func == Pal4Function::OpenMovieFlag
    &&& f[56].name@ == "giAddQuestComplatePercentage"@
    &&& f[56].func == Pal4Function::AddQuestCompletePercentage
    &&& f[57].name@ == "giAddEquipment"@
    &&& f[57].func == Pal4Function::NotImplemented
    &&& f[58].name@ == "giPlayerCurrentSetVisible"@
    &&& f[58].func == Pal4Function::NotImplemented
    &&& f[59].name@ == "giSetFullHP"@
    &&& f[59].func == Pal4Function::NotImplemented
    &&& f[60].name@ == "giSetFullMP"@
    &&& f[60].func == Pal4Function::NotImplemented
    &&& f[61].name@ == "giGetPlayerLevel"@
    &&& f[61].func == Pal4Function::NotImplemented
    &&& f[62].name@ == "giGotoLogo"@
    &&& f[62].func == Pal4Function::NotImplemented
    &&& f[63].name@ == "giPlayerUnHoldAct"@
    &&& f[63].func == Pal4Function::NotImplemented
    &&& f[64].name@ == "giNpcUnHoldAct"@
    &&& f[64].func == Pal4Function::NotImplemented
    &&& f[65].name@ == "giCameraSetDistOptEnable"@
    &&& f[65].func == Pal4Function::NotImplemented
    &&& f[66].name@ == "giMonsterSetHide"@
    &&& f[66].func == Pal4Function::NotImplemented
    &&& f[67].name@ == "giGameObjectSetResearch"@
    &&& f[67].func == Pal4Function::NotImplemented
    &&& f[68].name@ == "giSetPortrait"@
    &&& f[68].func == Pal4Function::NotImplemented
    &&& f[69].name@ == "giBGMConfigSetMusic"@
    &&& f[69].func == Pal4Function::NotImplemented
    &&& f[70].name@ == "giBGMConfigIsInArea"@
    &&& f[70].func == Pal4Function::NotImplemented
    &&& f[71].name@ == "giScriptMusicMute"@
    &&& f[71].func == Pal4Function::NotImplemented
}

/// Entries 72 through 95 of the catalog, by name and behavior.
pub open spec fn pal4_catalog_part4_ok(f: Seq<ScriptGlobalFunction<Pal4Function>>) -> bool {
    &&& f[72].name@ == "giScriptMusicPlay"@
    &&& f[72].func == Pal4Function::ScriptMusicPlay
    &&& f[73].name@ == "giScriptMusicStop"@
    &&& f[73].func == Pal4Function::ScriptMusicStop
    &&& f[74].name@ == "giArenaMusicStop"@
    &&& f[74].func == Pal4Function::ArenaMusicStop
    &&& f[75].name@ == "giWorldMapSetState"@
    &&& f[75].func == Pal4Function::NotImplemented
    &&& f[76].name@ == "giGetPuzzleGameResult"@
    &&& f[76].func == Pal4Function::NotImplemented
    &&& f[77].name@ == "giAlwaysJump"@
    &&& f[77].func == Pal4Function::NotImplemented
    &&& f[78].name@ == "gi2DSoundPlay"@
    &&& f[78].func == Pal4Function::DdSoundPlay
    &&& f[79].name@ == "gi2DSoundStop"@
    &&& f[79].func == Pal4Function::NotImplemented
    &&& f[80].name@ == "gi2DSoundStopID"@
    &&& f[80].func == Pal4Function::NotImplemented
    &&& f[81].name@ == "giCGEffPlay"@
    &&& f[81].func == Pal4Function::NotImplemented
    &&& f[82].name@ == "giCGEffStop"@
    &&& f[82].func == Pal4Function::NotImplemented
    &&& f[83].name@ == "giEffectPlay"@
    &&& f[83].func == Pal4Function::NotImplemented
    &&& f[84].name@ == "giEffectPlayWithPlayer"@
    &&& f[84].func == Pal4Function::NotImplemented
    &&& f[85].name@ == "giEffectPlayWithCurrentPlayer"@
    &&& f[85].func == Pal4Function::NotImplemented
    &&& f[86].name@ == "giEffectPlayWithNPC"@
    &&& f[86].func == Pal4Function::NotImplemented
    &&& f[87].name@ == "giEffectPlayWithOBJ"@
    &&& f[87].func == Pal4Function::NotImplemented
    &&& f[88].name@ == "giEffectStopWithOBJ"@
    &&& f[88].func == Pal4Function::NotImplemented
    &&& f[89].name@ == "giShowHint"@
    &&& f[89].func == Pal4Function::NotImplemented
    &&& f[90].name@ == "giPlayerAddSkill"@
    &&& f[90].func == Pal4Function::NotImplemented
    &&& f[91].name@ == "giMonsterSetVisible"@
    &&& f[91].func == Pal4Function::NotImplemented
    &&& f[92].name@ == "giPlayerRandomPosition"@
    &&& f[92].func == Pal4Function::NotImplemented
    &&& f[93].name@ == "giPlayerCurrentRandomPosition"@
    &&& f[93].func == Pal4Function::NotImplemented
    &&& f[94].name@ == "giEventVolumeVisible"@
    &&& f[94].func == Pal4Function::NotImplemented
    &&& f[95].name@ == "giAllPlayerGarb2"@
    &&& f[95].func == Pal4Function::NotImplemented
}

/// Entries 96 through 119 of the catalog, by name and behavior.
pub open spec fn pal4_catalog_part5_ok(f: Seq<ScriptGlobalFunction<Pal4Function>>) -> bool {
    &&& f[96].name@ == "giPlayerGarb2"@
    &&& f[96].func == Pal4Function::NotImplemented
    &&& f[97].name@ == "giAllPlayerGarb1"@
    &&& f[97].func == Pal4Function::NotImplemented
    &&& f[98].name@ == "giPlayerGarb1"@
    &&& f[98].func == Pal4Function::NotImplemented
    &&& f[99].name@ == "giGetVisibleObject"@
    &&& f[99].func == Pal4Function::NotImplemented
    &&& f[100].name@ == "giGetVisibleMonster"@
    &&& f[100].func == Pal4Function::NotImplemented
    &&& f[101].name@ == "giCheckPackProperty"@
    &&& f[101].func == Pal4Function::NotImplemented
    &&& f[102].name@ == "giGrantSystemUi"@
    &&& f[102].func == Pal4Function::GrantSystemUi
    &&& f[103].name@ == "giOpenSystemUi"@
    &&& f[103].func == Pal4Function::NotImplemented
    &&& f[104].name@ == "giGrantSmithSystem"@
    &&& f[104].func == Pal4Function::NotImplemented
    &&& f[105].name@ == "giGrantMagicSystem"@
    &&& f[105].func == Pal4Function::GrantMagicSystem
    &&& f[106].name@ == "giCheckMagicMastered"@
    &&& f[106].func == Pal4Function::CheckMagicMastered
    &&& f[107].name@ == "giSelectDialogAddItem"@
    &&& f[107].func == Pal4Function::NotImplemented
    &&& f[108].name@ == "giSelectDialogGetLastSelect"@
    &&& f[108].func == Pal4Function::NotImplemented
    &&& f[109].name@ == "giGOBAttachToPlayer"@
    &&& f[109].func == Pal4Function::NotImplemented
    &&& f[110].name@ == "giGOBAttachToCurrentPlayer"@
    &&& f[110].func == Pal4Function::NotImplemented
    &&& f[111].name@ == "giGOBDetachFromPlayer"@
    &&& f[111].func == Pal4Function::NotImplemented
    &&& f[112].name@ == "giGOBDetachFromCurrentPlayer"@
    &&& f[112].func == Pal4Function::NotImplemented
    &&& f[113].name@ == "giEffectAttachToPlayer"@
    &&& f[113].func == Pal4Function::NotImplemented
    &&& f[114].name@ == "giEffectAttachToCurrentPlayer"@
    &&& f[114].func == Pal4Function::NotImplemented
    &&& f[115].name@ == "giEffectDetachFromPlayer"@
    &&& f[115].func == Pal4Function::NotImplemented
    &&& f[116].name@ == "giEffectDetachFromCurrentPlayer"@
    &&& f[116].func == Pal4Function::NotImplemented
    &&& f[117].name@ == "giEffectAttachToNpc"@
    &&& f[117].func == Pal4Function::NotImplemented
    &&& f[118].name@ == "giEffectDetachFromNpc"@
    &&& f[118].func == Pal4Function::NotImplemented
    &&& f[119].name@ == "giGOBAttachToNpc"@
    &&& f[119].func == Pal4Function::NotImplemented
}

/// Entries 120 through 143 of the catalog, by name and behavior.
pub open spec fn pal4_catalog_part6_ok(f: Seq<ScriptGlobalFunction<Pal4Function>>) -> bool {
    &&& f[120].name@ == "giGOBDetachFromNPC"@
    &&& f[120].func == Pal4Function::NotImplemented
    &&& f[121].name@ == "giGOBSetPosition"@
    &&& f[121].func == Pal4Function::NotImplemented
    &&& f[122].name@ == "giScriptClearCTXButCurrent"@
    &&& f[122].func == Pal4Function::NotImplemented
    &&& f[123].name@ == "giAddMoney"@
    &&& f[123].func == Pal4Function::NotImplemented
    &&& f[124].name@ == "giPayMoney"@
    &&& f[124].func == Pal4Function::NotImplemented
    &&& f[125].name@ == "giHideGASkillObject"@
    &&& f[125].func == Pal4Function::NotImplemented
    &&& f[126].name@ == "giShowSignpost"@
    &&& f[126].func == Pal4Function::NotImplemented
    &&& f[127].name@ == "giPlayerSetEmotion"@
    &&& f[127].func == Pal4Function::NotImplemented
    &&& f[128].name@ == "giPlayerResetEmotion"@
    &&& f[128].func == Pal4Function::NotImplemented
    &&& f[129].name@ == "giPlayerCurrentSetEmotion"@
    &&& f[129].func == Pal4Function::NotImplemented
    &&& f[130].name@ == "giPlayerCurrentResetEmotion"@
    &&& f[130].func == Pal4Function::NotImplemented
    &&& f[131].name@ == "giLINGSHALegsInjured"@
    &&& f[131].func == Pal4Function::NotImplemented
    &&& f[132].name@ == "giLINGSHALegsHealing"@
    &&& f[132].func == Pal4Function::NotImplemented
    &&& f[133].name@ == "giNpcSetEmotion"@
    &&& f[133].func == Pal4Function::NotImplemented
    &&& f[134].name@ == "giNpcResetEmotion"@
    &&& f[134].func == Pal4Function::NotImplemented
    &&& f[135].name@ == "giGetPropertyNumb"@
    &&& f[135].func == Pal4Function::NotImplemented
    &&& f[136].name@ == "giPlayerCurrentGetPosX"@
    &&& f[136].func == Pal4Function::NotImplemented
    &&& f[137].name@ == "giPlayerCurrentGetPosY"@
    &&& f[137].func == Pal4Function::NotImplemented
    &&& f[138].name@ == "giPlayerCurrentGetPosZ"@
    &&& f[138].func == Pal4Function::NotImplemented
    &&& f[139].name@ == "giArenaGetName"@
    &&& f[139].func == Pal4Function::NotImplemented
    &&& f[140].name@ == "giArenaGetArea"@
    &&& f[140].func == Pal4Function::NotImplemented
    &&& f[141].name@ == "giArenaSkillEnable"@
    &&& f[141].func == Pal4Function::NotImplemented
    &&& f[142].name@ == "giShowInnDialog"@
    &&& f[142].func == Pal4Function::NotImplemented
    &&& f[143].name@ == "giGetInnDialogResult"@
    &&& f[143].func == Pal4Function::NotImplemented
}

/// Entries 144 through 167 of the catalog, by name and behavior.
pub open spec fn pal4_catalog_part7_ok(f: Seq<ScriptGlobalFunction<Pal4Function>>) -> bool {
    &&& f[144].name@ == "giPlayerTakeARest"@
    &&& f[144].func == Pal4Function::NotImplemented
    &&& f[145].name@ == "giIsNightTime"@
    &&& f[145].func == Pal4Function::NotImplemented
    &&& f[146].name@ == "giPlayerSetPosRot1"@
    &&& f[146].func == Pal4Function::NotImplemented
    &&& f[147].name@ == "giPlayerSetPosRot2"@
    &&& f[147].func == Pal4Function::NotImplemented
    &&& f[148].name@ == "giStartUiTimer"@
    &&& f[148].func == Pal4Function::NotImplemented
    &&& f[149].name@ == "giPlayerForbidenSkill"@
    &&& f[149].func == Pal4Function::NotImplemented
    &&& f[150].name@ == "giGetMoney"@
    &&& f[150].func == Pal4Function::NotImplemented
    &&& f[151].name@ == "giSelectDialogSetDefaultSelect"@
    &&& f[151].func == Pal4Function::NotImplemented
    &&& f[152].name@ == "giShowQuestDialog"@
    &&& f[152].func == Pal4Function::NotImplemented
    &&& f[153].name@ == "giGetQuestDialogResult"@
    &&& f[153].func == Pal4Function::NotImplemented
    &&& f[154].name@ == "giResetPlayerToJumpStart"@
    &&& f[154].func == Pal4Function::NotImplemented
    &&& f[155].name@ == "giGOBReset"@
    &&& f[155].func == Pal4Function::NotImplemented
    &&& f[156].name@ == "giCheckEquipInInventory"@
    &&& f[156].func == Pal4Function::NotImplemented
    &&& f[157].name@ == "giRemoveEquipment"@
    &&& f[157].func == Pal4Function::NotImplemented
    &&& f[158].name@ == "giAddPrescription"@
    &&& f[158].func == Pal4Function::NotImplemented
    &&& f[159].name@ == "giEnableShadow"@
    &&& f[159].func == Pal4Function::NotImplemented
    &&& f[160].name@ == "giAddRoundTimes"@
    &&& f[160].func == Pal4Function::NotImplemented
    &&& f[161].name@ == "giTimeScript"@
    &&& f[161].func == Pal4Function::NotImplemented
    &&& f[162].name@ == "giTimeScriptTerminate"@
    &&& f[162].func == Pal4Function::NotImplemented
    &&& f[163].name@ == "giConfigCombatGroundCamera"@
    &&& f[163].func == Pal4Function::NotImplemented
    &&& f[164].name@ == "giAddPlayerFavor"@
    &&& f[164].func == Pal4Function::NotImplemented
    &&& f[165].name@ == "giGetPalTestResult"@
    &&& f[165].func == Pal4Function::NotImplemented
    &&& f[166].name@ == "giSetMinimapLevel"@
    &&& f[166].func == Pal4Function::NotImplemented
    &&& f[167].name@ == "giPetShow"@
    &&& f[167].func == Pal4Function::NotImplemented
}

/// Entries 168 through 191 of the catalog, by name and behavior.
pub open spec fn pal4_catalog_part8_ok(f: Seq<ScriptGlobalFunction<Pal4Function>>) -> bool {
    &&& f[168].name@ == "giNpcAttachEffect"@
    &&& f[168].func == Pal4Function::NotImplemented
    &&& f[169].name@ == "giNpcDetachEffect"@
    &&& f[169].func == Pal4Function::NotImplemented
    &&& f[170].name@ == "giMstAttachEffect"@
    &&& f[170].func == Pal4Function::NotImplemented
    &&& f[171].name@ == "giMstDetachEffect"@
    &&& f[171].func == Pal4Function::NotImplemented
    &&& f[172].name@ == "giPlayerHookEffect"@
    &&& f[172].func == Pal4Function::NotImplemented
    &&& f[173].name@ == "giPlayerDetachEffect"@
    &&& f[173].func == Pal4Function::NotImplemented
    &&& f[174].name@ == "giCommonDialogGetLastSelect"@
    &&& f[174].func == Pal4Function::NotImplemented
    &&& f[175].name@ == "giConfigCombatVipMonster"@
    &&& f[175].func == Pal4Function::NotImplemented
    &&& f[176].name@ == "giEnableSTS"@
    &&& f[176].func == Pal4Function::NotImplemented
    &&& f[177].name@ == "giClearUiTimer"@
    &&& f[177].func == Pal4Function::NotImplemented
    &&& f[178].name@ == "giPauseUiTimer"@
    &&& f[178].func == Pal4Function::NotImplemented
    &&& f[179].name@ == "giResumeUiTimer"@
    &&& f[179].func == Pal4Function::NotImplemented
    &&& f[180].name@ == "giSetFullRage"@
    &&& f[180].func == Pal4Function::NotImplemented
    &&& f[181].name@ == "giUiTimerGetSaveData"@
    &&& f[181].func == Pal4Function::NotImplemented
    &&& f[182].name@ == "giScriptMusicPause"@
    &&& f[182].func == Pal4Function::ScriptMusicPause
    &&& f[183].name@ == "giScriptMusicResume"@
    &&& f[183].func == Pal4Function::ScriptMusicResume
    &&& f[184].name@ == "giWait"@
    &&& f[184].func == Pal4Function::Wait
    &&& f[185].name@ == "giTalk"@
    &&& f[185].func == Pal4Function::NotImplemented
    &&& f[186].name@ == "giRandTalkPush"@
    &&& f[186].func == Pal4Function::NotImplemented
    &&& f[187].name@ == "giRandTalk"@
    &&& f[187].func == Pal4Function::NotImplemented
    &&& f[188].name@ == "giRandTalkRelease"@
    &&& f[188].func == Pal4Function::NotImplemented
    &&& f[189].name@ == "giTalkWait"@
    &&& f[189].func == Pal4Function::NotImplemented
    &&& f[190].name@ == "giPlayerDoAction"@
    &&& f[190].func == Pal4Function::PlayerDoAction
    &&& f[191].name@ == "giPlayerEndAction"@
    &&& f[191].func == Pal4Function::NotImplemented
}

/// Entries 192 through 215 of the catalog, by name and behavior.
pub open spec fn pal4_catalog_part9_ok(f: Seq<ScriptGlobalFunction<Pal4Function>>) -> bool {
    &&& f[192].name@ == "giPlayerCurrentDoAction"@
    &&& f[192].func == Pal4Function::NotImplemented
    &&& f[193].name@ == "giPlayerCurrentEndAction"@
    &&& f[193].func == Pal4Function::NotImplemented
    &&& f[194].name@ == "giPlayerSetPos"@
    &&& f[194].func == Pal4Function::NotImplemented
    &&& f[195].name@ == "giPlayerCurrentSetPos"@
    &&& f[195].func == Pal4Function::PlayerCurrentSetPos
    &&& f[196].name@ == "giPlayerSetRot"@
    &&& f[196].func == Pal4Function::NotImplemented
    &&& f[197].name@ == "giPlayerSetAng"@
    &&& f[197].func == Pal4Function::NotImplemented
    &&& f[198].name@ == "giPlayerCurrentSetAng"@
    &&& f[198].func == Pal4Function::PlayerCurrentSetAng
    &&& f[199].name@ == "giPlayerFaceToPlayer"@
    &&& f[199].func == Pal4Function::NotImplemented
    &&& f[200].name@ == "giPlayerSetDir"@
    &&& f[200].func == Pal4Function::NotImplemented
    &&& f[201].name@ == "giPlayerFaceToNpc"@
    &&& f[201].func == Pal4Function::NotImplemented
    &&& f[202].name@ == "giPlayerWalkTo"@
    &&& f[202].func == Pal4Function::NotImplemented
    &&& f[203].name@ == "giPlayerRunTo"@
    &&& f[203].func == Pal4Function::NotImplemented
    &&& f[204].name@ == "giPlayerCurrentWalkTo"@
    &&& f[204].func == Pal4Function::NotImplemented
    &&& f[205].name@ == "giPlayerBackTo"@
    &&& f[205].func == Pal4Function::NotImplemented
    &&& f[206].name@ == "giPlayerBlendOut"@
    &&& f[206].func == Pal4Function::NotImplemented
    &&& f[207].name@ == "giPlayerBlendIn"@
    &&& f[207].func == Pal4Function::NotImplemented
    &&& f[208].name@ == "giPlayerFaceToCurrentPlayer"@
    &&& f[208].func == Pal4Function::NotImplemented
    &&& f[209].name@ == "giCurrentPlayerFaceToNpc"@
    &&& f[209].func == Pal4Function::NotImplemented
    &&& f[210].name@ == "giPlayerDoActionRepeat"@
    &&& f[210].func == Pal4Function::NotImplemented
    &&& f[211].name@ == "giPlayerEndActionRepeat"@
    &&& f[211].func == Pal4Function::NotImplemented
    &&& f[212].name@ == "giPlayerEndMove"@
    &&& f[212].func == Pal4Function::NotImplemented
    &&& f[213].name@ == "giCurrentPlayerEndMove"@
    &&& f[213].func == Pal4Function::NotImplemented
    &&& f[214].name@ == "giNpcWalkTo"@
    &&& f[214].func == Pal4Function::NotImplemented
    &&& f[215].name@ == "giNpcRunTo"@
    &&& f[215].func == Pal4Function::NotImplemented
}

/// Entries 216 through 239 of the catalog, by name and behavior.
pub open spec fn pal4_catalog_part10_ok(f: Seq<ScriptGlobalFunction<Pal4Function>>) -> bool {
    &&& f[216].name@ == "giNpcBackTo"@
    &&& f[216].func == Pal4Function::NotImplemented
    &&& f[217].name@ == "giNpcDoAction"@
    &&& f[217].func == Pal4Function::NotImplemented
    &&& f[218].name@ == "giNpcEndAction"@
    &&& f[218].func == Pal4Function::NotImplemented
    &&& f[219].name@ == "giNpcSetPos"@
    &&& f[219].func == Pal4Function::NotImplemented
    &&& f[220].name@ == "giNpcSetRot"@
    &&& f[220].func == Pal4Function::NotImplemented
    &&& f[221].name@ == "giNpcSetDir"@
    &&& f[221].func == Pal4Function::NotImplemented
    &&& f[222].name@ == "giNpcFaceToNpc"@
    &&& f[222].func == Pal4Function::NotImplemented
    &&& f[223].name@ == "giNpcFaceToPlayer"@
    &&& f[223].func == Pal4Function::NotImplemented
    &&& f[224].name@ == "giNpcBlendOut"@
    &&& f[224].func == Pal4Function::NotImplemented
    &&& f[225].name@ == "giNpcBlendIn"@
    &&& f[225].func == Pal4Function::NotImplemented
    &&& f[226].name@ == "giNpcFaceToCurrentPlayer"@
    &&& f[226].func == Pal4Function::NotImplemented
    &&& f[227].name@ == "giNpcResetDir"@
    &&& f[227].func == Pal4Function::NotImplemented
    &&& f[228].name@ == "giNpcDoActionRepeat"@
    &&& f[228].func == Pal4Function::NotImplemented
    &&& f[229].name@ == "giNpcEndActionRepeat"@
    &&& f[229].func == Pal4Function::NotImplemented
    &&& f[230].name@ == "giNpcEndMove"@
    &&& f[230].func == Pal4Function::NotImplemented
    &&& f[231].name@ == "giNpcSetAng"@
    &&& f[231].func == Pal4Function::NotImplemented
    &&& f[232].name@ == "giCameraPrepare"@
    &&& f[232].func == Pal4Function::CameraPrepare
    &&& f[233].name@ == "giCameraRunSingle"@
    &&& f[233].func == Pal4Function::CameraRunSingle
    &&& f[234].name@ == "giCameraRunCircle"@
    &&& f[234].func == Pal4Function::NotImplemented
    &&& f[235].name@ == "giCameraWait"@
    &&& f[235].func == Pal4Function::NotImplemented
    &&& f[236].name@ == "giFlashOutBlack"@
    &&& f[236].func == Pal4Function::FlashOutBlack
    &&& f[237].name@ == "giFlashInBlack"@
    &&& f[237].func == Pal4Function::FlashInBlack
    &&& f[238].name@ == "giFlashOutWhite"@
    &&& f[238].func == Pal4Function::NotImplemented
    &&& f[239].name@ == "giFlashInWhite"@
    &&& f[239].func == Pal4Function::NotImplemented
}

/// Entries 240 through 263 of the catalog, by name and behavior.
pub open spec fn pal4_catalog_part11_ok(f: Seq<ScriptGlobalFunction<Pal4Function>>) -> bool {
    &&& f[240].name@ == "giFlashOutRed"@
    &&& f[240].func == Pal4Function::NotImplemented
    &&& f[241].name@ == "giFlashInRed"@
    &&& f[241].func == Pal4Function::NotImplemented
    &&& f[242].name@ == "giPlayMovie"@
    &&& f[242].func == Pal4Function::PlayMovie
    &&& f[243].name@ == "giObjectDoAction"@
    &&& f[243].func == Pal4Function::NotImplemented
    &&& f[244].name@ == "giStartTradeSystem"@
    &&& f[244].func == Pal4Function::NotImplemented
    &&& f[245].name@ == "giStartPuzzleGame"@
    &&& f[245].func == Pal4Function::NotImplemented
    &&& f[246].name@ == "giStartJigsawGame"@
    &&& f[246].func == Pal4Function::NotImplemented
    &&& f[247].name@ == "giOBJBlendOut"@
    &&& f[247].func == Pal4Function::NotImplemented
    &&& f[248].name@ == "giOBJBlendIn"@
    &&& f[248].func == Pal4Function::NotImplemented
    &&& f[249].name@ == "giMSTBlendOut"@
    &&& f[249].func == Pal4Function::NotImplemented
    &&& f[250].name@ == "giMSTBlendIn"@
    &&& f[250].func == Pal4Function::NotImplemented
    &&& f[251].name@ == "giShowCommonDialog"@
    &&& f[251].func == Pal4Function::NotImplemented
    &&& f[252].name@ == "giShowSelectDialog"@
    &&& f[252].func == Pal4Function::NotImplemented
    &&& f[253].name@ == "giGOBMovment"@
    &&& f[253].func == Pal4Function::NotImplemented
    &&& f[254].name@ == "giShowTutorial"@
    &&& f[254].func == Pal4Function::NotImplemented
    &&& f[255].name@ == "giShowWorldMap"@
    &&& f[255].func == Pal4Function::NotImplemented
    &&& f[256].name@ == "giGOBScale"@
    &&& f[256].func == Pal4Function::NotImplemented
    &&& f[257].name@ == "giPlayerCurrentFaceToGOB"@
    &&& f[257].func == Pal4Function::NotImplemented
    &&& f[258].name@ == "giPlayerCurrentMovement"@
    &&& f[258].func == Pal4Function::NotImplemented
    &&& f[259].name@ == "giShowPoetry"@
    &&& f[259].func == Pal4Function::NotImplemented
    &&& f[260].name@ == "giNPCFlyTo"@
    &&& f[260].func == Pal4Function::NotImplemented
    &&& f[261].name@ == "giGotoLogoWait"@
    &&& f[261].func == Pal4Function::NotImplemented
    &&& f[262].name@ == "giShowCommonDialogInSelectMode"@
    &&& f[262].func == Pal4Function::NotImplemented
    &&& f[263].name@ == "giPlayMovieFinal"@
    &&& f[263].func == Pal4Function::NotImplemented
}

/// The full catalog, with every name at the index the compiled bytecode
/// expects; the contract pins the complete registration order (see the
/// `pal4_catalog_part*_ok` predicates), the wire contract `callsys` sites
/// rely on.
#[verifier::rlimit(100)]
pub fn create_context() -> (r: ScriptGlobalContext<Pal4Function>)
    ensures
        r.funcs().len() == 264,
        r.globals_view().len() == crate::global_context::ENGINE_GLOBAL_COUNT,
        forall|i: int|
            0 <= i < crate::global_context::ENGINE_GLOBAL_COUNT ==> r.globals_view()[i] == 0,
        pal4_catalog_part1_ok(r.funcs()),
        pal4_catalog_part2_ok(r.funcs()),
        pal4_catalog_part3_ok(r.funcs()),
        pal4_catalog_part4_ok(r.funcs()),
        pal4_catalog_part5_ok(r.funcs()),
        pal4_catalog_part6_ok(r.funcs()),
        pal4_catalog_part7_ok(r.funcs()),
        pal4_catalog_part8_ok(r.funcs()),
        pal4_catalog_part9_ok(r.funcs()),
        pal4_catalog_part10_ok(r.funcs()),
        pal4_catalog_part11_ok(r.funcs()),
{
    let mut context = ScriptGlobalContext::new();
    register_catalog_part1(&mut context);
    register_catalog_part2(&mut context);
    register_catalog_part3(&mut context);
    register_catalog_part4(&mut context);
    register_catalog_part5(&mut context);
    register_catalog_part6(&mut context);
    register_catalog_part7(&mut context);
    register_catalog_part8(&mut context);
    register_catalog_part9(&mut context);
    register_catalog_part10(&mut context);
    register_catalog_part11(&mut context);
    context
}

/// An interpreter over `module`, entered at its first function, paired
/// with the default native catalog it runs against.
pub fn create_script_vm<A>(module: ScriptModule, app_context: A) -> (r: (
    ScriptVm<A, Pal4Function>,
    ScriptGlobalContext<Pal4Function>,
))
    ensures
        r.0.wf(),
        r.0.cur() == Some(ScriptFunctionContext { module_id: 0, function_index: 0, pc: 0 }),
        r.0.mods().len() == 1,
        r.0.mods()[0] == module,
        r.0.app() == app_context,
        r.1.funcs().len() == 264,
        pal4_catalog_part1_ok(r.1.funcs()),
        pal4_catalog_part2_ok(r.1.funcs()),
        pal4_catalog_part3_ok(r.1.funcs()),
        pal4_catalog_part4_ok(r.1.funcs()),
        pal4_catalog_part5_ok(r.1.funcs()),
        pal4_catalog_part6_ok(r.1.funcs()),
        pal4_catalog_part7_ok(r.1.funcs()),
        pal4_catalog_part8_ok(r.1.funcs()),
        pal4_catalog_part9_ok(r.1.funcs()),
        pal4_catalog_part10_ok(r.1.funcs()),
        pal4_catalog_part11_ok(r.1.funcs()),
{
    let vm = ScriptVm::new(module, 0, app_context);
    (vm, create_context())
}

} // verus!
