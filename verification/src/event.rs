//! The signals that user-interface components send to the main loop.

use vstd::prelude::*;

verus! {

/// A lifecycle signal for the main loop. A signal carries nothing but its kind.
#[derive(Clone, Copy, Debug, PartialEq, Eq, Structural)]
pub enum AppEvent {
    /// Remove the active modal.
    CloseCurrentModal,
    /// End the application.
    Quit,
    /// Leave the session running and return to the shell.
    Detach,
}

} // verus!
