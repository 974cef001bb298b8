use vstd::prelude::*;

use crate::display::Display;
use crate::events::{event_step, resume_step, App, EventAction, GpuState, ResumeAction, WindowInput};
use crate::frame::{frame_step, FrameAction, SurfaceStatus};

verus! {

/// The surface is never configured with a zero size: the state set up on
/// start has a nonzero size, and no window event takes it to a zero size.
pub proof fn lemma_surface_size_stays_nonzero(width: u32, height: u32, app: App, event: WindowInput)
    requires
        app.wf(),
    ensures
        GpuState::initial(width, height).wf(),
        (App { gpu: event_step(app.gpu, event).0 }).wf(),
{
}

/// After a resize to a nonzero size, the fragment shader's display uniform
/// and the surface hold the same size, and the loop is told to reconfigure
/// the surface with it.
pub proof fn lemma_resize_syncs_display_and_surface(g: GpuState, width: u32, height: u32)
    requires
        width > 0,
        height > 0,
    ensures
        event_step(Some(g), WindowInput::Resized { width, height }).0 matches Some(n) && n.config_width
            == width && n.config_height == height && n.display == (Display { x: width, y: height }),
        event_step(Some(g), WindowInput::Resized { width, height }).1 == (EventAction::Resize {
            width,
            height,
        }),
{
}

/// A resize to a zero width or height (a minimised window) changes nothing.
pub proof fn lemma_empty_resize_ignored(g: GpuState, width: u32, height: u32)
    requires
        width == 0 || height == 0,
    ensures
        event_step(Some(g), WindowInput::Resized { width, height }) == (
            Some(g),
            EventAction::Ignore,
        ),
{
}

/// Of two resizes to nonzero sizes, the last one decides the state.
pub proof fn lemma_last_resize_wins(g: GpuState, w1: u32, h1: u32, w2: u32, h2: u32)
    requires
        w2 > 0,
        h2 > 0,
    ensures
        event_step(
            event_step(Some(g), WindowInput::Resized { width: w1, height: h1 }).0,
            WindowInput::Resized { width: w2, height: h2 },
        ) == event_step(Some(g), WindowInput::Resized { width: w2, height: h2 }),
{
}

/// Only a resize changes the state; every other event leaves it as it was.
pub proof fn lemma_only_resize_changes_state(gpu: Option<GpuState>, event: WindowInput)
    requires
        !(event is Resized),
    ensures
        event_step(gpu, event).0 == gpu,
{
}

/// Before the GPU state exists, every window event is ignored, and a
/// resume starts it; once it exists, a resume keeps it.
pub proof fn lemma_nothing_happens_before_start(event: WindowInput, g: GpuState)
    ensures
        event_step(None, event) == (None::<GpuState>, EventAction::Ignore),
        resume_step(None) == (ResumeAction::Start {
            width: crate::events::WINDOW_WIDTH,
            height: crate::events::WINDOW_HEIGHT,
        }),
        resume_step(Some(g)) == ResumeAction::KeepRunning,
{
}

/// Once started, Escape and a close request always exit.
pub proof fn lemma_escape_and_close_exit(g: GpuState)
    ensures
        event_step(Some(g), WindowInput::CloseRequested).1 == EventAction::Exit,
        event_step(Some(g), WindowInput::KeyboardInput { escape: true }).1 == EventAction::Exit,
{
}

/// A frame is drawn exactly when a texture was acquired cleanly; every
/// other outcome asks for another redraw, so the frame is tried again.
pub proof fn lemma_frames_are_retried(g: GpuState, status: SurfaceStatus)
    requires
        status != SurfaceStatus::Validation,
    ensures
        (frame_step(g, status) == FrameAction::Draw) <==> (status == SurfaceStatus::Success),
        status != SurfaceStatus::Success ==> frame_step(g, status).retries(),
{
}

/// When a frame needs the surface configured again, it is configured with
/// the size of the last nonzero resize.
pub proof fn lemma_reconfigure_uses_last_resize(
    g: GpuState,
    width: u32,
    height: u32,
    status: SurfaceStatus,
)
    requires
        width > 0,
        height > 0,
        status == SurfaceStatus::Suboptimal || status == SurfaceStatus::Outdated || status
            == SurfaceStatus::Lost,
    ensures
        event_step(Some(g), WindowInput::Resized { width, height }).0 matches Some(n) && match frame_step(
            n,
            status,
        ) {
            FrameAction::Reconfigure { width: w, height: h } => w == width && h == height,
            FrameAction::Recreate { width: w, height: h } => w == width && h == height,
            _ => false,
        },
{
}

/// A new GPU state's display uniform is the drawable size exactly, and its
/// surface size is that size with each side raised to at least one pixel.
pub proof fn lemma_initial_sizes(width: u32, height: u32)
    ensures
        GpuState::initial(width, height).display == (Display { x: width, y: height }),
        GpuState::initial(width, height).config_width as int == if width == 0 { 1 } else { width as int },
        GpuState::initial(width, height).config_height as int == if height == 0 { 1 } else { height as int },
{
}

/// Once started, a redraw request always redraws, whatever the size, and
/// leaves the state as it was.
pub proof fn lemma_redraw_always_redraws(g: GpuState)
    ensures
        event_step(Some(g), WindowInput::RedrawRequested) == (Some(g), EventAction::Redraw),
{
}

/// Once started, an event makes the loop exit exactly when it is a close
/// request or the Escape key; any other key and any other event is ignored
/// and leaves the state as it was.
pub proof fn lemma_only_escape_and_close_exit(g: GpuState, event: WindowInput)
    ensures
        (event_step(Some(g), event).1 == EventAction::Exit) <==> (event == WindowInput::CloseRequested
            || event == (WindowInput::KeyboardInput { escape: true })),
        event_step(Some(g), WindowInput::KeyboardInput { escape: false }) == (
            Some(g),
            EventAction::Ignore,
        ),
        event_step(Some(g), WindowInput::Other) == (Some(g), EventAction::Ignore),
{
}

/// Each outcome of acquiring a texture leads to one kind of action, for
/// every state: a clean texture is drawn, a timeout or a hidden window is
/// retried, a suboptimal or outdated surface is configured again, and a
/// lost surface is created anew; both with the current surface size.
pub proof fn lemma_frame_action_per_status(g: GpuState)
    ensures
        frame_step(g, SurfaceStatus::Success) == FrameAction::Draw,
        frame_step(g, SurfaceStatus::Timeout) == FrameAction::Retry,
        frame_step(g, SurfaceStatus::Occluded) == FrameAction::Retry,
        frame_step(g, SurfaceStatus::Suboptimal) == (FrameAction::Reconfigure {
            width: g.config_width,
            height: g.config_height,
        }),
        frame_step(g, SurfaceStatus::Outdated) == (FrameAction::Reconfigure {
            width: g.config_width,
            height: g.config_height,
        }),
        frame_step(g, SurfaceStatus::Lost) == (FrameAction::Recreate {
            width: g.config_width,
            height: g.config_height,
        }),
{
}

} // verus!
