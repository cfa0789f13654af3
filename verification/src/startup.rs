//! The startup sequence of `listen`, as a small state machine.
//!
//! After the worker thread is running, the calling thread installs the
//! keyboard hook, then the mouse hook, then enters the blocking message
//! loop that keeps the hooks alive. The installations are platform calls;
//! the embedding application performs the action this machine asks for and
//! feeds the outcome back in. A failed installation aborts startup with
//! that hook's error, and nothing past the failing phase is ever requested.

use vstd::prelude::*;

use crate::error::{HookError, ListenError};

verus! {

/// How far hook installation has come.
#[derive(Clone, Copy, Debug, PartialEq, Eq, Structural)]
pub enum StartupPhase {
    /// Nothing is installed yet.
    Begin,
    /// The keyboard hook is installed.
    KeyInstalled,
    /// Both hooks are installed.
    MouseInstalled,
}

/// What `listen` does next in a given phase.
#[derive(Clone, Copy, Debug, PartialEq, Eq, Structural)]
pub enum StartupAction {
    InstallKeyHook,
    InstallMouseHook,
    /// Enter the blocking message loop; it returns only when the host
    /// environment ends it, and `listen` then returns success.
    RunMessageLoop,
}

/// The action each phase calls for.
pub open spec fn action_of(phase: StartupPhase) -> StartupAction {
    match phase {
        StartupPhase::Begin => StartupAction::InstallKeyHook,
        StartupPhase::KeyInstalled => StartupAction::InstallMouseHook,
        StartupPhase::MouseInstalled => StartupAction::RunMessageLoop,
    }
}

/// Tells the embedding application what to do next.
pub fn next_action(phase: StartupPhase) -> (a: StartupAction)
    ensures
        a == action_of(phase),
{
    match phase {
        StartupPhase::Begin => StartupAction::InstallKeyHook,
        StartupPhase::KeyInstalled => StartupAction::InstallMouseHook,
        StartupPhase::MouseInstalled => StartupAction::RunMessageLoop,
    }
}

/// Where an installation outcome takes the machine: success moves to the
/// next phase, failure aborts startup with that hook's error. Once both
/// hooks stand, the machine stays put and the message loop runs.
pub open spec fn advance_spec(
    phase: StartupPhase,
    outcome: Result<(), HookError>,
) -> Result<StartupPhase, ListenError> {
    match phase {
        StartupPhase::MouseInstalled => Ok(StartupPhase::MouseInstalled),
        _ => match outcome {
            Ok(_) => Ok(
                if phase is Begin {
                    StartupPhase::KeyInstalled
                } else {
                    StartupPhase::MouseInstalled
                },
            ),
            Err(HookError::Key(code)) => Err(ListenError::KeyHookError(code)),
            Err(HookError::Mouse(code)) => Err(ListenError::MouseHookError(code)),
        },
    }
}

/// Feeds the outcome of the phase's installation back into the machine.
pub fn advance(phase: StartupPhase, outcome: Result<(), HookError>) -> (r: Result<
    StartupPhase,
    ListenError,
>)
    ensures
        r == advance_spec(phase, outcome),
{
    match phase {
        StartupPhase::MouseInstalled => Ok(StartupPhase::MouseInstalled),
        StartupPhase::Begin => match outcome {
            Ok(_) => Ok(StartupPhase::KeyInstalled),
            Err(error) => Err(ListenError::from(error)),
        },
        StartupPhase::KeyInstalled => match outcome {
            Ok(_) => Ok(StartupPhase::MouseInstalled),
            Err(error) => Err(ListenError::from(error)),
        },
    }
}

/// Startup failure propagation: a keyboard-hook failure with code `c`
/// aborts startup as `KeyHookError(c)`, and the machine asks for a mouse
/// installation only in the phase that a successful keyboard installation
/// alone reaches — so after a keyboard failure no mouse attempt is ever
/// requested. A mouse-hook failure with code `c` after the keyboard phase
/// aborts as `MouseHookError(c)`.
pub proof fn lemma_startup_failure_propagation(key_code: u32, mouse_code: u32)
    ensures
        advance_spec(StartupPhase::Begin, Err(HookError::Key(key_code))) == Err::<
            StartupPhase,
            ListenError,
        >(ListenError::KeyHookError(key_code)),
        advance_spec(StartupPhase::KeyInstalled, Err(HookError::Mouse(mouse_code))) == Err::<
            StartupPhase,
            ListenError,
        >(ListenError::MouseHookError(mouse_code)),
        forall|phase: StartupPhase|
            action_of(phase) == StartupAction::InstallMouseHook ==> phase
                == StartupPhase::KeyInstalled,
        forall|outcome: Result<(), HookError>|
            advance_spec(StartupPhase::Begin, outcome) == Ok::<StartupPhase, ListenError>(
                StartupPhase::KeyInstalled,
            ) ==> outcome is Ok,
{
}

} // verus!
