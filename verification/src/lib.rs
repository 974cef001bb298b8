//! Verified core of a small GPU demo: the uniform block the fragment shader
//! reads, the vertex stage's full-screen triangle, and the decisions the
//! window loop takes on each window event and each acquired frame.

pub mod display;
pub mod events;
pub mod frame;
pub mod laws;
pub mod vertex;

pub use display::Display;
pub use frame::{FrameAction, SurfaceStatus};
pub use events::{App, EventAction, GpuState, ResumeAction, WindowInput, WINDOW_HEIGHT, WINDOW_WIDTH};
pub use vertex::{fullscreen_vertex, ClipVertex, FULLSCREEN_VERTEX_COUNT};
