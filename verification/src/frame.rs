//! What the caller does after a frame, given how presenting it ended.

use vstd::prelude::*;

verus! {

/// How presenting a frame can fail.
#[derive(Clone, Copy, Debug, PartialEq, Eq, Structural)]
pub enum FrameError {
    /// The presentation surface took too long to hand out a frame.
    Timeout,
    /// The presentation surface no longer fits the window.
    Outdated,
    /// The device or the surface was lost.
    Lost,
    /// The device is out of memory.
    OutOfMemory,
}

/// What the caller does next.
#[derive(Clone, Copy, Debug, PartialEq, Eq, Structural)]
pub enum FrameAction {
    /// Go on with the next frame.
    Continue,
    /// Drop this frame and try again with the next.
    Retry,
    /// Build the resources that depend on the device anew, then go on.
    Rebuild,
    /// Stop: there is no safe way on.
    Exit,
}

impl FrameError {
    /// Whether the failure passes by itself.
    pub open spec fn spec_is_transient(&self) -> bool {
        *self == FrameError::Timeout || *self == FrameError::Outdated
    }

    /// Whether the failure passes by itself.
    #[verifier::when_used_as_spec(spec_is_transient)]
    pub fn is_transient(&self) -> (transient: bool)
        ensures
            transient == self.spec_is_transient(),
    {
        match self {
            FrameError::Timeout => true,
            FrameError::Outdated => true,
            _ => false,
        }
    }
}

/// What follows a frame that ended as `outcome`. A frame that was presented
/// is followed by the next. A transient failure is never fatal: the frame is
/// dropped and the next one tried. A lost device asks for its resources to be
/// built anew, and only running out of memory ends the run.
pub fn after_frame(outcome: Result<(), FrameError>) -> (action: FrameAction)
    ensures
        action == match outcome {
            Ok(_) => FrameAction::Continue,
            Err(FrameError::Lost) => FrameAction::Rebuild,
            Err(FrameError::OutOfMemory) => FrameAction::Exit,
            Err(_) => FrameAction::Retry,
        },
        outcome matches Err(e) && e.is_transient() ==> action == FrameAction::Retry,
        action == FrameAction::Exit <==> outcome == Err::<(), FrameError>(FrameError::OutOfMemory),
{
    match outcome {
        Ok(_) => FrameAction::Continue,
        Err(FrameError::Lost) => FrameAction::Rebuild,
        Err(FrameError::OutOfMemory) => FrameAction::Exit,
        Err(_) => FrameAction::Retry,
    }
}

} // verus!
