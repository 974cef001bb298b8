use vstd::prelude::*;

use crate::display::Display;

verus! {

/// The window events the loop reacts to, as plain values.
#[derive(Clone, Copy, Debug, PartialEq, Eq, Structural)]
pub enum WindowInput {
    /// The window's close button or the platform asked to close it.
    CloseRequested,
    /// A key was pressed or released; `escape` tells whether its logical
    /// key is Escape.
    KeyboardInput { escape: bool },
    /// The drawable area changed to `width` by `height` physical pixels.
    Resized { width: u32, height: u32 },
    /// The platform asks for a new frame.
    RedrawRequested,
    /// Any other event.
    Other,
}

/// What the loop must do after a window event.
#[derive(Clone, Copy, Debug, PartialEq, Eq, Structural)]
pub enum EventAction {
    /// Nothing.
    Ignore,
    /// Leave the event loop.
    Exit,
    /// Reconfigure the surface to `width` by `height`, upload the new
    /// display uniform, and ask for a redraw.
    Resize { width: u32, height: u32 },
    /// Update the time uniform, ask for the next redraw, and render a frame.
    Redraw,
}

/// What the loop must do when the application is resumed.
#[derive(Clone, Copy, Debug, PartialEq, Eq, Structural)]
pub enum ResumeAction {
    /// The GPU state already exists: nothing to do.
    KeepRunning,
    /// Open a window of `width` by `height` logical pixels and set up the
    /// GPU state for it.
    Start { width: u32, height: u32 },
}

/// Logical size of the window opened on start.
pub const WINDOW_WIDTH: u32 = 800;

/// Logical size of the window opened on start.
pub const WINDOW_HEIGHT: u32 = 600;

/// The part of the GPU state that the loop's decisions read and change:
/// the size the surface is configured with, and the display uniform the
/// fragment shader reads.
#[derive(Clone, Copy, Debug, PartialEq, Eq, Structural)]
pub struct GpuState {
    pub config_width: u32,
    pub config_height: u32,
    pub display: Display,
}

impl GpuState {
    /// A surface can only be configured with a nonzero size.
    pub open spec fn wf(self) -> bool {
        self.config_width >= 1 && self.config_height >= 1
    }

    /// The state set up for a window whose drawable area is `width` by
    /// `height`: the surface is configured with at least one pixel each
    /// way, and the display uniform holds the size as it is.
    pub open spec fn initial(width: u32, height: u32) -> GpuState {
        GpuState {
            config_width: if width >= 1 { width } else { 1 },
            config_height: if height >= 1 { height } else { 1 },
            display: Display { x: width, y: height },
        }
    }

    pub fn init(width: u32, height: u32) -> (g: GpuState)
        ensures
            g == GpuState::initial(width, height),
            g.wf(),
            g.display.x == width && g.display.y == height,
            width >= 1 ==> g.config_width == width,
            height >= 1 ==> g.config_height == height,
            width == 0 ==> g.config_width == 1,
            height == 0 ==> g.config_height == 1,
    {
        let config_width: u32 = if width >= 1 { width } else { 1 };
        let config_height: u32 = if height >= 1 { height } else { 1 };
        GpuState { config_width, config_height, display: Display::new(width, height) }
    }
}

/// The loop's state: the GPU state once it exists.
#[derive(Clone, Copy, Debug, PartialEq, Eq, Structural)]
pub struct App {
    pub gpu: Option<GpuState>,
}

/// The decision taken on resume.
pub open spec fn resume_step(gpu: Option<GpuState>) -> ResumeAction {
    match gpu {
        Some(_) => ResumeAction::KeepRunning,
        None => ResumeAction::Start { width: WINDOW_WIDTH, height: WINDOW_HEIGHT },
    }
}

/// The new state and the action taken on a window event. Before the GPU
/// state exists every event is ignored. Escape (pressed or released) and
/// a close request exit; a resize to a nonzero size takes that size for
/// both the surface and the display uniform; a resize to a zero size (a
/// minimised window) is ignored.
pub open spec fn event_step(gpu: Option<GpuState>, event: WindowInput) -> (
    Option<GpuState>,
    EventAction,
) {
    match gpu {
        None => (None, EventAction::Ignore),
        Some(g) => match event {
            WindowInput::CloseRequested => (gpu, EventAction::Exit),
            WindowInput::KeyboardInput { escape } => {
                if escape {
                    (gpu, EventAction::Exit)
                } else {
                    (gpu, EventAction::Ignore)
                }
            },
            WindowInput::Resized { width, height } => {
                if width > 0 && height > 0 {
                    (
                        Some(
                            GpuState {
                                config_width: width,
                                config_height: height,
                                display: Display { x: width, y: height },
                            },
                        ),
                        EventAction::Resize { width, height },
                    )
                } else {
                    (gpu, EventAction::Ignore)
                }
            },
            WindowInput::RedrawRequested => (gpu, EventAction::Redraw),
            WindowInput::Other => (gpu, EventAction::Ignore),
        },
    }
}

impl App {
    /// Every GPU state the loop holds has a nonzero surface size.
    pub open spec fn wf(self) -> bool {
        self.gpu matches Some(g) ==> g.wf()
    }

    /// No GPU state yet.
    pub fn new() -> (app: App)
        ensures
            app.gpu is None,
    {
        App { gpu: None }
    }

    /// Whether to open the window and set up the GPU state.
    pub fn resumed(&self) -> (action: ResumeAction)
        ensures
            action == resume_step(self.gpu),
    {
        match self.gpu {
            Some(_) => ResumeAction::KeepRunning,
            None => ResumeAction::Start { width: WINDOW_WIDTH, height: WINDOW_HEIGHT },
        }
    }

    /// Takes the GPU state that was set up after a resume.
    pub fn install(&mut self, gpu: GpuState)
        ensures
            final(self).gpu == Some(gpu),
    {
        self.gpu = Some(gpu);
    }

    /// Reacts to a window event: updates the state and says what the loop
    /// must do.
    pub fn window_event(&mut self, event: WindowInput) -> (action: EventAction)
        ensures
            (final(self).gpu, action) == event_step(old(self).gpu, event),
    {
        match self.gpu {
            None => EventAction::Ignore,
            Some(_) => match event {
                WindowInput::CloseRequested => EventAction::Exit,
                WindowInput::KeyboardInput { escape } => {
                    if escape {
                        EventAction::Exit
                    } else {
                        EventAction::Ignore
                    }
                },
                WindowInput::Resized { width, height } => {
                    if width > 0 && height > 0 {
                        self.gpu = Some(
                            GpuState {
                                config_width: width,
                                config_height: height,
                                display: Display::new(width, height),
                            },
                        );
                        EventAction::Resize { width, height }
                    } else {
                        EventAction::Ignore
                    }
                },
                WindowInput::RedrawRequested => EventAction::Redraw,
                WindowInput::Other => EventAction::Ignore,
            },
        }
    }
}

impl Default for App {
    fn default() -> (app: App)
        ensures
            app.gpu is None,
    {
        App::new()
    }
}

} // verus!
