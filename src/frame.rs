use vstd::prelude::*;
use crate::mesh::{CUBE_INDEX_COUNT, SKY_INDEX_COUNT};
use crate::viewport::Viewport;

verus! {

/// What a render pass draws.
#[derive(Clone, Copy, Debug, PartialEq, Eq, Structural)]
pub enum PassKind {
    /// The full-screen background quad, with the sky pipeline and the
    /// view-projection binding only.
    Sky,
    /// The cube, with the cube pipeline, its texture and the view-projection
    /// binding.
    Cube,
}

/// What a render pass does with the target before drawing.
#[derive(Clone, Copy, Debug, PartialEq, Eq, Structural)]
pub enum LoadPolicy {
    /// Fill the target with the background colour.
    Clear,
    /// Keep what earlier passes drew.
    Load,
}

/// One render pass of a frame. No pass has a depth or stencil attachment.
#[derive(Clone, Copy, Debug, PartialEq, Eq, Structural)]
pub struct PassPlan {
    pub kind: PassKind,
    pub load: LoadPolicy,
    pub index_count: u32,
}

pub open spec fn sky_pass() -> PassPlan {
    PassPlan { kind: PassKind::Sky, load: LoadPolicy::Clear, index_count: SKY_INDEX_COUNT }
}

pub open spec fn cube_pass() -> PassPlan {
    PassPlan { kind: PassKind::Cube, load: LoadPolicy::Load, index_count: CUBE_INDEX_COUNT }
}

/// The render passes of every frame, in the order they are recorded: the sky
/// first, clearing the target, then the cube, loading it. With no depth test
/// the cube lies in front of the sky by this order alone.
pub fn frame_passes() -> (r: Vec<PassPlan>)
    ensures
        r@ == seq![sky_pass(), cube_pass()],
{
    let mut r: Vec<PassPlan> = Vec::new();
    r.push(PassPlan { kind: PassKind::Sky, load: LoadPolicy::Clear, index_count: SKY_INDEX_COUNT });
    r.push(PassPlan { kind: PassKind::Cube, load: LoadPolicy::Load, index_count: CUBE_INDEX_COUNT });
    assert(r@ =~= seq![sky_pass(), cube_pass()]);
    r
}

/// Why presenting a frame failed.
#[derive(Clone, Copy, Debug, PartialEq, Eq, Structural)]
pub enum PresentError {
    /// No frame was ready in time.
    Timeout,
    /// The surface changed and must be set up again before it presents.
    Outdated,
    /// The surface was lost.
    Lost,
    /// The device ran out of memory.
    OutOfMemory,
}

/// What the frame loop does after a failed present.
#[derive(Clone, Copy, Debug, PartialEq, Eq, Structural)]
pub enum FrameAction {
    /// Set the surface up again at this size; the next frame draws on it.
    Reconfigure(Viewport),
    /// Stop the program.
    Exit,
    /// Report the error, draw nothing this time, and go on with the next
    /// frame.
    Skip,
}

pub open spec fn spec_on_present_error(error: PresentError, viewport: Viewport) -> FrameAction {
    match error {
        PresentError::Lost | PresentError::Outdated => if viewport.is_drawable() {
            FrameAction::Reconfigure(viewport)
        } else {
            FrameAction::Skip
        },
        PresentError::OutOfMemory => FrameAction::Exit,
        PresentError::Timeout => FrameAction::Skip,
    }
}

/// The recovery for a failed present on a surface of size `viewport`: a lost
/// or outdated surface is set up again at the current size, running out of
/// memory ends the program, a timeout drops this frame only. A surface with a
/// side of zero cannot be set up, so there the frame is dropped too, and the
/// next drawable resize sets the surface up.
pub fn on_present_error(error: PresentError, viewport: Viewport) -> (r: FrameAction)
    ensures
        r == spec_on_present_error(error, viewport),
{
    match error {
        PresentError::Lost | PresentError::Outdated => if viewport.drawable() {
            FrameAction::Reconfigure(viewport)
        } else {
            FrameAction::Skip
        },
        PresentError::OutOfMemory => FrameAction::Exit,
        PresentError::Timeout => FrameAction::Skip,
    }
}

} // verus!
