//! The launch of the embedded interpreter as a state machine. The host
//! performs each step (building the interpreter, running it) and reports
//! what happened; the machine says what phase the launch is in and, once it
//! has terminated, the process exit code.

use vstd::prelude::*;

verus! {

/// The importable name of the Python entry module.
pub const ENTRY_MODULE: &'static str = "local_translate";

/// The exit code of a launch that failed before the interpreter ran.
pub const STARTUP_FAILURE_EXIT_CODE: i32 = 1;

#[derive(Debug, Clone, Copy, PartialEq, Eq, Structural)]
pub enum LaunchPhase {
    /// The interpreter is not built yet.
    Unbuilt,
    /// The interpreter is built and not started.
    Built,
    /// The entry module runs; the host is blocked until it ends.
    Running,
    /// The launch is over, with this exit code.
    Terminated(i32),
}

#[derive(Debug, Clone, Copy, PartialEq, Eq, Structural)]
pub enum LaunchEvent {
    /// The environment could not be resolved, or the interpreter failed to
    /// initialise.
    StartupFailed,
    /// The interpreter was built.
    BuildSucceeded,
    /// Control passed to the entry module.
    RunStarted,
    /// The interpreter finished with this exit status.
    InterpreterExited(i32),
}

/// The phase after `event` in `phase`; `None` where the event cannot happen
/// in that phase. Nothing leaves `Terminated`.
pub open spec fn transition(phase: LaunchPhase, event: LaunchEvent) -> Option<LaunchPhase> {
    match (phase, event) {
        (LaunchPhase::Unbuilt, LaunchEvent::StartupFailed) => Some(
            LaunchPhase::Terminated(STARTUP_FAILURE_EXIT_CODE),
        ),
        (LaunchPhase::Unbuilt, LaunchEvent::BuildSucceeded) => Some(LaunchPhase::Built),
        (LaunchPhase::Built, LaunchEvent::RunStarted) => Some(LaunchPhase::Running),
        (LaunchPhase::Running, LaunchEvent::InterpreterExited(c)) => Some(
            LaunchPhase::Terminated(c),
        ),
        _ => None,
    }
}

/// The process exit code of a launch in `phase`, once it has terminated.
pub open spec fn exit_code_of(phase: LaunchPhase) -> Option<i32> {
    match phase {
        LaunchPhase::Terminated(c) => Some(c),
        _ => None,
    }
}

/// Moves the launch on by `event`.
pub fn advance(phase: LaunchPhase, event: LaunchEvent) -> (r: Option<LaunchPhase>)
    ensures
        r == transition(phase, event),
{
    match (phase, event) {
        (LaunchPhase::Unbuilt, LaunchEvent::StartupFailed) => Some(
            LaunchPhase::Terminated(STARTUP_FAILURE_EXIT_CODE),
        ),
        (LaunchPhase::Unbuilt, LaunchEvent::BuildSucceeded) => Some(LaunchPhase::Built),
        (LaunchPhase::Built, LaunchEvent::RunStarted) => Some(LaunchPhase::Running),
        (LaunchPhase::Running, LaunchEvent::InterpreterExited(c)) => Some(
            LaunchPhase::Terminated(c),
        ),
        _ => None,
    }
}

/// The exit code to end the process with, once the launch has terminated.
pub fn exit_code(phase: LaunchPhase) -> (r: Option<i32>)
    ensures
        r == exit_code_of(phase),
{
    match phase {
        LaunchPhase::Terminated(c) => Some(c),
        _ => None,
    }
}

/// The interpreter's exit status is the process exit code, unchanged: a
/// failure inside the interpreter ends the launch with its non-zero status,
/// through the ordinary path and not as a startup failure.
pub proof fn lemma_interpreter_status_is_exit_code(status: i32)
    ensures
        transition(LaunchPhase::Running, LaunchEvent::InterpreterExited(status)) == Some(
            LaunchPhase::Terminated(status),
        ),
        exit_code_of(LaunchPhase::Terminated(status)) == Some(status),
        status != 0 ==> exit_code_of(LaunchPhase::Terminated(status)) != Some(0i32),
{
}

/// A launch that fails before the interpreter runs ends with a non-zero
/// exit code.
pub proof fn lemma_startup_failure_exits_nonzero()
    ensures
        transition(LaunchPhase::Unbuilt, LaunchEvent::StartupFailed) == Some(
            LaunchPhase::Terminated(STARTUP_FAILURE_EXIT_CODE),
        ),
        STARTUP_FAILURE_EXIT_CODE != 0,
{
}

/// A terminated launch stays terminated: no event re-enters it.
pub proof fn lemma_terminated_is_final(code: i32, event: LaunchEvent)
    ensures
        transition(LaunchPhase::Terminated(code), event) == None::<LaunchPhase>,
{
}

} // verus!
