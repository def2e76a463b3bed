use vstd::prelude::*;

verus! {

/// What one round of input handling asks the event loop to do.
#[derive(Clone, Copy, Debug, PartialEq, Eq, Structural)]
pub enum Action {
    /// Nothing happened; no redraw needed.
    NoAction,
    /// The view changed; redraw.
    Action,
    /// Leave the event loop.
    Exit,
}

/// Errors that stop the application from starting.
#[derive(Clone, Copy, Debug, PartialEq, Eq, Structural)]
pub enum AppError {
    /// The capture source could not be created.
    DumperCreationError,
    /// Listening on the capture source failed.
    ListenError,
}

} // verus!
