use vstd::prelude::*;

use crate::events::GpuState;

verus! {

/// The outcome of asking the surface for the next texture to draw into,
/// as a plain value.
#[derive(Clone, Copy, Debug, PartialEq, Eq, Structural)]
pub enum SurfaceStatus {
    /// A texture was acquired.
    Success,
    /// A texture was acquired but no longer matches the surface.
    Suboptimal,
    /// Acquiring timed out.
    Timeout,
    /// The window is hidden.
    Occluded,
    /// The surface configuration is out of date.
    Outdated,
    /// The surface is gone.
    Lost,
    /// A validation error was raised while acquiring.
    Validation,
}

/// What the loop must do with the outcome of acquiring a texture.
#[derive(Clone, Copy, Debug, PartialEq, Eq, Structural)]
pub enum FrameAction {
    /// Record the render pass, submit it and present the texture.
    Draw,
    /// Skip this frame and ask for another redraw.
    Retry,
    /// Drop the texture if any, configure the surface with `width` by
    /// `height`, and ask for another redraw.
    Reconfigure { width: u32, height: u32 },
    /// Create the surface anew for the window, configure it with `width` by
    /// `height`, and ask for another redraw.
    Recreate { width: u32, height: u32 },
}

impl FrameAction {
    /// The action asks for another redraw, so the frame is tried again.
    pub open spec fn retries(self) -> bool {
        !(self is Draw)
    }
}

/// The decision for a frame. A validation error has no decision: no error
/// scope is pushed, so the loop treats one as unreachable and stops.
pub open spec fn frame_step(g: GpuState, status: SurfaceStatus) -> FrameAction
    recommends
        status != SurfaceStatus::Validation,
{
    match status {
        SurfaceStatus::Success => FrameAction::Draw,
        SurfaceStatus::Timeout | SurfaceStatus::Occluded => FrameAction::Retry,
        SurfaceStatus::Suboptimal | SurfaceStatus::Outdated => FrameAction::Reconfigure {
            width: g.config_width,
            height: g.config_height,
        },
        SurfaceStatus::Lost | SurfaceStatus::Validation => FrameAction::Recreate {
            width: g.config_width,
            height: g.config_height,
        },
    }
}

impl GpuState {
    /// Decides what to do with the outcome of acquiring the next texture.
    pub fn frame_action(&self, status: SurfaceStatus) -> (action: FrameAction)
        requires
            status != SurfaceStatus::Validation,
        ensures
            action == frame_step(*self, status),
    {
        match status {
            SurfaceStatus::Success => FrameAction::Draw,
            SurfaceStatus::Timeout | SurfaceStatus::Occluded => FrameAction::Retry,
            SurfaceStatus::Suboptimal | SurfaceStatus::Outdated => FrameAction::Reconfigure {
                width: self.config_width,
                height: self.config_height,
            },
            SurfaceStatus::Lost | SurfaceStatus::Validation => FrameAction::Recreate {
                width: self.config_width,
                height: self.config_height,
            },
        }
    }
}

} // verus!
