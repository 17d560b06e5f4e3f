use vstd::prelude::*;

verus! {

/// The size of the presentation surface, in physical pixels.
#[derive(Clone, Copy, Debug, PartialEq, Eq, Structural)]
pub struct Viewport {
    pub width: u32,
    pub height: u32,
}

impl Viewport {
    /// A surface can be configured and drawn to only with both sides nonzero;
    /// the camera's aspect ratio `width / height` is then positive.
    pub open spec fn is_drawable(self) -> bool {
        self.width > 0 && self.height > 0
    }

    pub fn new(width: u32, height: u32) -> (r: Viewport)
        ensures
            r.width == width,
            r.height == height,
    {
        Viewport { width, height }
    }

    /// Whether both sides are nonzero.
    pub fn drawable(&self) -> (r: bool)
        ensures
            r == self.is_drawable(),
    {
        self.width > 0 && self.height > 0
    }

    /// The pixel at the middle of the surface, where a released pointer is
    /// put back.
    pub fn center(&self) -> (r: (u32, u32))
        ensures
            r.0 == self.width / 2,
            r.1 == self.height / 2,
    {
        (self.width / 2, self.height / 2)
    }
}

} // verus!
