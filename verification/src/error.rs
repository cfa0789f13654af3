//! The failures a caller can observe. Only hook installation can fail the
//! listener; everything downstream of it degrades silently.

use vstd::prelude::*;

verus! {

/// Failure of one of the two hook-installation primitives, carrying the
/// platform's error code.
#[derive(Clone, Copy, Debug, PartialEq, Eq, Structural)]
pub enum HookError {
    Key(u32),
    Mouse(u32),
}

/// The only error a caller of the listener ever observes: one of the two
/// hooks could not be installed at startup.
#[derive(Clone, Copy, Debug, PartialEq, Eq, Structural)]
pub enum ListenError {
    KeyHookError(u32),
    MouseHookError(u32),
}

impl From<HookError> for ListenError {
    fn from(error: HookError) -> (r: Self) {
        match error {
            HookError::Mouse(code) => ListenError::MouseHookError(code),
            HookError::Key(code) => ListenError::KeyHookError(code),
        }
    }
}

impl vstd::std_specs::convert::FromSpecImpl<HookError> for ListenError {
    open spec fn obeys_from_spec() -> bool {
        true
    }

    open spec fn from_spec(error: HookError) -> ListenError {
        match error {
            HookError::Mouse(code) => ListenError::MouseHookError(code),
            HookError::Key(code) => ListenError::KeyHookError(code),
        }
    }
}

} // verus!
