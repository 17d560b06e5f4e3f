use vstd::prelude::*;
use crate::capture::{CaptureMode, PointerCommand};
use crate::frame::{on_present_error, spec_on_present_error, FrameAction, PresentError};
use crate::keys::{spec_key_for_scancode, MovementKeys};
use crate::motion::MoveAxes;
use crate::viewport::Viewport;

verus! {

/// An event from the window system, as far as the viewer's decisions read it.
/// Pointer motion carries no offsets: the host folds them into the camera's
/// pending rotation when the viewer says so.
#[derive(Clone, Copy, Debug, PartialEq, Eq, Structural)]
pub enum InputEvent {
    /// A key went down (`pressed`) or up. `escape` tells whether it is the
    /// Escape key.
    Key { scancode: u32, escape: bool, pressed: bool },
    /// The pointer device moved.
    PointerMotion,
    /// A mouse button went down or up; `left` tells whether it is the left one.
    MouseButton { left: bool, pressed: bool },
    /// The surface has a new size in physical pixels.
    Resized { width: u32, height: u32 },
    /// The user asked to close the window.
    CloseRequested,
    /// Time to draw a frame.
    RedrawRequested,
}

/// What the host does in answer to an event.
#[derive(Clone, Copy, Debug, PartialEq, Eq, Structural)]
pub enum Reaction {
    /// Nothing.
    Ignored,
    /// A movement key was recorded; the event goes no further.
    KeyHandled,
    /// Subtract the pointer's offsets from the camera's pending rotation.
    Turn,
    /// Apply a change of pointer capture.
    Pointer(PointerCommand),
    /// Set the surface up at this size and give the camera its aspect ratio,
    /// `width / height`, before the next frame.
    Reconfigure(Viewport),
    /// Stop the program.
    Exit,
    /// Run one frame: move the camera by `movement` (scaled to its speed) if
    /// there is one, fold in and clear the pending rotation, upload the
    /// view-projection matrix, then record the passes of `frame_passes` and
    /// present.
    Frame(Option<MoveAxes>),
}

/// The state of the viewer that its decisions read: the held movement keys,
/// the pointer capture mode and the surface size.
#[derive(Clone, Copy, Debug, PartialEq, Eq, Structural)]
pub struct Viewer {
    pub keys: MovementKeys,
    pub capture: CaptureMode,
    pub viewport: Viewport,
}

impl Viewer {
    /// The state after `event`, and the host's reaction to it.
    pub open spec fn spec_on_event(self, event: InputEvent) -> (Viewer, Reaction) {
        match event {
            InputEvent::Key { scancode, escape, pressed } => {
                match spec_key_for_scancode(scancode) {
                    Some(key) => (Viewer { keys: self.keys.with_key(key, pressed), ..self }, Reaction::KeyHandled),
                    None => if escape && pressed {
                        let (capture, command) = self.capture.spec_on_escape(self.viewport);
                        (
                            Viewer { capture, ..self },
                            match command {
                                Some(c) => Reaction::Pointer(c),
                                None => Reaction::Ignored,
                            },
                        )
                    } else {
                        (self, Reaction::Ignored)
                    },
                }
            },
            InputEvent::PointerMotion => {
                if self.capture == CaptureMode::Captured {
                    (self, Reaction::Turn)
                } else {
                    (self, Reaction::Ignored)
                }
            },
            InputEvent::MouseButton { left, pressed } => {
                if left && pressed {
                    let (capture, command) = self.capture.spec_on_left_press();
                    (
                        Viewer { capture, ..self },
                        match command {
                            Some(c) => Reaction::Pointer(c),
                            None => Reaction::Ignored,
                        },
                    )
                } else {
                    (self, Reaction::Ignored)
                }
            },
            InputEvent::Resized { width, height } => {
                let viewport = Viewport { width, height };
                if viewport.is_drawable() {
                    (Viewer { viewport, ..self }, Reaction::Reconfigure(viewport))
                } else {
                    (self, Reaction::Ignored)
                }
            },
            InputEvent::CloseRequested => (self, Reaction::Exit),
            InputEvent::RedrawRequested => (self, Reaction::Frame(self.keys.spec_movement())),
        }
    }

    /// The viewer at startup on a surface of `width` by `height` pixels: no key
    /// held, the pointer captured.
    pub fn new(width: u32, height: u32) -> (r: Viewer)
        ensures
            r.keys == MovementKeys::none_held(),
            r.capture == CaptureMode::Captured,
            r.viewport == (Viewport { width, height }),
    {
        Viewer { keys: MovementKeys::new(), capture: CaptureMode::new(), viewport: Viewport::new(width, height) }
    }

    /// Routes one event: movement keys go to the key state first; Escape and
    /// the left button drive pointer capture; pointer motion turns the camera
    /// only while captured; a resize to a drawable size is taken; a close
    /// request ends the program; a redraw runs a frame.
    pub fn on_event(&mut self, event: InputEvent) -> (r: Reaction)
        ensures
            (*final(self), r) == old(self).spec_on_event(event),
    {
        match event {
            InputEvent::Key { scancode, escape, pressed } => {
                if self.keys.process_key(scancode, pressed) {
                    Reaction::KeyHandled
                } else if escape && pressed {
                    let viewport = self.viewport;
                    match self.capture.on_escape(&viewport) {
                        Some(c) => Reaction::Pointer(c),
                        None => Reaction::Ignored,
                    }
                } else {
                    Reaction::Ignored
                }
            },
            InputEvent::PointerMotion => {
                if self.capture.routes_pointer_motion() {
                    Reaction::Turn
                } else {
                    Reaction::Ignored
                }
            },
            InputEvent::MouseButton { left, pressed } => {
                if left && pressed {
                    match self.capture.on_left_press() {
                        Some(c) => Reaction::Pointer(c),
                        None => Reaction::Ignored,
                    }
                } else {
                    Reaction::Ignored
                }
            },
            InputEvent::Resized { width, height } => {
                let viewport = Viewport::new(width, height);
                if viewport.drawable() {
                    self.viewport = viewport;
                    Reaction::Reconfigure(viewport)
                } else {
                    Reaction::Ignored
                }
            },
            InputEvent::CloseRequested => Reaction::Exit,
            InputEvent::RedrawRequested => Reaction::Frame(self.keys.movement()),
        }
    }

    /// The recovery for a failed present on the current surface.
    pub fn on_present_error(&self, error: PresentError) -> (r: FrameAction)
        ensures
            r == spec_on_present_error(error, self.viewport),
    {
        on_present_error(error, self.viewport)
    }
}

/// While the pointer is released, pointer motion changes nothing and turns
/// nothing: the camera's pending rotation is left as it was.
pub proof fn lemma_released_pointer_never_turns(v: Viewer)
    requires
        v.capture == CaptureMode::Released,
    ensures
        v.spec_on_event(InputEvent::PointerMotion) == (v, Reaction::Ignored),
{
}

/// A frame whose held keys cancel pair by pair (none held included) moves the
/// camera nowhere and leaves the viewer as it was.
pub proof fn lemma_cancelling_keys_frame_holds_position(v: Viewer)
    requires
        v.keys.forward == v.keys.backward,
        v.keys.left == v.keys.right,
        v.keys.up == v.keys.down,
    ensures
        v.spec_on_event(InputEvent::RedrawRequested) == (v, Reaction::Frame(None)),
{
    crate::keys::lemma_cancelling_keys_hold_position(v.keys);
}

/// Escape going down while the pointer is captured releases it, shows it at
/// the middle of the surface, and changes nothing else.
pub proof fn lemma_escape_releases_at_center(v: Viewer, scancode: u32)
    requires
        v.capture == CaptureMode::Captured,
        spec_key_for_scancode(scancode) is None,
    ensures
        v.spec_on_event(InputEvent::Key { scancode, escape: true, pressed: true }) == (
            Viewer { capture: CaptureMode::Released, ..v },
            Reaction::Pointer(
                PointerCommand::Release { x: (v.viewport.width / 2) as u32, y: (v.viewport.height / 2) as u32 },
            ),
        ),
{
}

/// Releasing the pointer with Escape and capturing it again with the left
/// button brings the viewer back to where it was.
pub proof fn lemma_release_then_capture(v: Viewer, scancode: u32)
    requires
        v.capture == CaptureMode::Captured,
        spec_key_for_scancode(scancode) is None,
    ensures
        ({
            let (released, _) = v.spec_on_event(InputEvent::Key { scancode, escape: true, pressed: true });
            released.spec_on_event(InputEvent::MouseButton { left: true, pressed: true })
                == (v, Reaction::Pointer(PointerCommand::Capture))
        }),
{
}

/// A resize to a drawable size is taken at once: the surface is set up again
/// at that size and the camera's aspect ratio becomes `width / height`.
pub proof fn lemma_resize_sets_aspect(v: Viewer, width: u32, height: u32)
    requires
        width > 0,
        height > 0,
    ensures
        v.spec_on_event(InputEvent::Resized { width, height }) == (
            Viewer { viewport: Viewport { width, height }, ..v },
            Reaction::Reconfigure(Viewport { width, height }),
        ),
{
}

} // verus!
