use vstd::prelude::*;
use crate::viewport::Viewport;

verus! {

/// Whether pointer motion turns the camera (captured) or moves the system's
/// cursor (released).
#[derive(Clone, Copy, Debug, PartialEq, Eq, Structural)]
pub enum CaptureMode {
    Captured,
    Released,
}

/// What the host does to the system's pointer on a change of capture mode.
#[derive(Clone, Copy, Debug, PartialEq, Eq, Structural)]
pub enum PointerCommand {
    /// Grab and hide the pointer.
    Capture,
    /// Let go of the pointer, show it and put it at pixel (`x`, `y`).
    Release { x: u32, y: u32 },
}

impl CaptureMode {
    /// The mode after Escape goes down, and the command it calls for.
    pub open spec fn spec_on_escape(self, viewport: Viewport) -> (CaptureMode, Option<PointerCommand>) {
        match self {
            CaptureMode::Captured => (
                CaptureMode::Released,
                Some(PointerCommand::Release { x: (viewport.width / 2) as u32, y: (viewport.height / 2) as u32 }),
            ),
            CaptureMode::Released => (CaptureMode::Released, None),
        }
    }

    /// The mode after the left button goes down, and the command it calls for.
    pub open spec fn spec_on_left_press(self) -> (CaptureMode, Option<PointerCommand>) {
        match self {
            CaptureMode::Released => (CaptureMode::Captured, Some(PointerCommand::Capture)),
            CaptureMode::Captured => (CaptureMode::Captured, None),
        }
    }

    /// The mode at startup.
    pub fn new() -> (r: CaptureMode)
        ensures
            r == CaptureMode::Captured,
    {
        CaptureMode::Captured
    }

    /// Whether pointer motion turns the camera.
    pub fn routes_pointer_motion(&self) -> (r: bool)
        ensures
            r == (*self == CaptureMode::Captured),
    {
        match self {
            CaptureMode::Captured => true,
            CaptureMode::Released => false,
        }
    }

    /// Escape went down: a captured pointer is released and re-centred in
    /// `viewport`; a released one stays as it is.
    pub fn on_escape(&mut self, viewport: &Viewport) -> (r: Option<PointerCommand>)
        ensures
            (*final(self), r) == old(self).spec_on_escape(*viewport),
    {
        match self {
            CaptureMode::Captured => {
                *self = CaptureMode::Released;
                let (x, y) = viewport.center();
                Some(PointerCommand::Release { x, y })
            },
            CaptureMode::Released => None,
        }
    }

    /// The left button went down: a released pointer is captured and hidden;
    /// a captured one stays as it is.
    pub fn on_left_press(&mut self) -> (r: Option<PointerCommand>)
        ensures
            (*final(self), r) == old(self).spec_on_left_press(),
    {
        match self {
            CaptureMode::Released => {
                *self = CaptureMode::Captured;
                Some(PointerCommand::Capture)
            },
            CaptureMode::Captured => None,
        }
    }
}

} // verus!
