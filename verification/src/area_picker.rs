//! The area picker of builds without screen-area capture: every request is refused.

use vstd::prelude::*;

verus! {

/// Why a request was refused.
#[derive(Clone, Copy, Debug, PartialEq, Eq, Structural)]
pub enum AppError {
    /// This build has no such feature.
    Unsupported,
}

/// An area of the screen chosen for capture. A build without area capture reads nothing of it.
#[derive(Clone, Copy, Debug, PartialEq, Eq, Structural)]
pub struct CaptureAreaSelection;

/// The state of a pick under way. Without area capture there is none to keep.
#[derive(Clone, Copy, Debug, PartialEq, Eq, Structural)]
pub struct AreaPickState;

impl AreaPickState {
    /// No pick is under way.
    pub fn new() -> (state: Self)
        ensures
            state == AreaPickState,
    {
        Self
    }
}

/// Asks the user for an area of the screen; always refused.
pub fn pick_capture_area(_pick_state: &AreaPickState) -> (picked: Result<
    CaptureAreaSelection,
    AppError,
>)
    ensures
        picked == Err::<CaptureAreaSelection, AppError>(AppError::Unsupported),
{
    Err(AppError::Unsupported)
}

/// Ends a pick with the area that the user drew; always refused, wherever that lies.
pub fn complete_area_pick(_pick_state: &AreaPickState) -> (completed: Result<(), AppError>)
    ensures
        completed == Err::<(), AppError>(AppError::Unsupported),
{
    Err(AppError::Unsupported)
}

/// Shows a frame around an area; always refused.
pub fn show_area_frame_guide(_selection: &CaptureAreaSelection) -> (shown: Result<(), AppError>)
    ensures
        shown == Err::<(), AppError>(AppError::Unsupported),
{
    Err(AppError::Unsupported)
}

} // verus!
