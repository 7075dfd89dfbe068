//! Why a frame could not be acquired, and what is done about it.

use vstd::prelude::*;

verus! {

/// `wgpu::SurfaceError`, opaque here: `frame_error` tells its variants apart.
#[verifier::external_type_specification]
#[verifier::external_body]
pub struct ExSurfaceError(wgpu::SurfaceError);

/// Why the surface handed out no frame.
#[derive(Clone, Copy, Debug, PartialEq, Eq, Structural)]
pub enum FrameError {
    /// No frame became available in time.
    Timeout,
    /// The surface changed under the swap chain.
    Outdated,
    /// The surface became invalid and must be configured again.
    Lost,
    /// No memory is left for a new frame.
    OutOfMemory,
}

/// What follows a failed frame.
#[derive(Clone, Copy, Debug, PartialEq, Eq, Structural)]
pub enum Recovery {
    /// Configure the surface again with the stored size; the next redraw retries.
    Reconfigure,
    /// Give up: tear down and stop the loop.
    Terminate,
    /// Report the error and skip the frame.
    SkipFrame,
}

/// The variant of a `wgpu::SurfaceError`, as a `FrameError`.
pub uninterp spec fn frame_error_of(error: wgpu::SurfaceError) -> FrameError;

/// Tells the variants of `wgpu::SurfaceError` apart, each mapped to the
/// variant of `FrameError` of the same name. The result depends on the error
/// alone and is given the name `frame_error_of`.
#[verifier::external_body]
pub(crate) fn frame_error(error: &wgpu::SurfaceError) -> (kind: FrameError)
    ensures
        kind == frame_error_of(*error),
{
    match error {
        wgpu::SurfaceError::Timeout => FrameError::Timeout,
        wgpu::SurfaceError::Outdated => FrameError::Outdated,
        wgpu::SurfaceError::Lost => FrameError::Lost,
        wgpu::SurfaceError::OutOfMemory => FrameError::OutOfMemory,
    }
}

/// The recovery table.
pub open spec fn recovery_of(kind: FrameError) -> Recovery {
    match kind {
        FrameError::Lost => Recovery::Reconfigure,
        FrameError::OutOfMemory => Recovery::Terminate,
        FrameError::Timeout => Recovery::SkipFrame,
        FrameError::Outdated => Recovery::SkipFrame,
    }
}

pub fn recovery(kind: FrameError) -> (action: Recovery)
    ensures
        action == recovery_of(kind),
{
    match kind {
        FrameError::Lost => Recovery::Reconfigure,
        FrameError::OutOfMemory => Recovery::Terminate,
        FrameError::Timeout => Recovery::SkipFrame,
        FrameError::Outdated => Recovery::SkipFrame,
    }
}

} // verus!
