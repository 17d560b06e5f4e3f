//! Input, movement and frame-orchestration logic of a first-person cube viewer.
//!
//! The library decides; the host performs. It maps key transitions to the six
//! movement keys, turns the pressed keys into a movement in the camera's own
//! frame, runs the pointer-capture state machine, tracks the drawable surface
//! size, and says which render passes a frame records and what to do when
//! presenting fails. Floating-point camera math and GPU calls stay with the
//! host, which applies these decisions.

pub mod capture;
pub mod frame;
pub mod keys;
pub mod mesh;
pub mod motion;
pub mod viewer;
pub mod viewport;

pub use capture::{CaptureMode, PointerCommand};
pub use frame::{
    frame_passes, on_present_error, FrameAction, LoadPolicy, PassKind, PassPlan, PresentError,
};
pub use keys::{key_for_scancode, MoveKey, MovementKeys};
pub use mesh::{
    cube_indices, sky_indices, CUBE_INDEX_COUNT, CUBE_VERTEX_COUNT, SKY_INDEX_COUNT, SKY_VERTEX_COUNT,
};
pub use motion::MoveAxes;
pub use viewer::{InputEvent, Reaction, Viewer};
pub use viewport::Viewport;
