use vstd::prelude::*;
use crate::scalar::Scalar;

verus! {

/// A two-dimensional vector of exact rational components.
#[derive(Clone, Copy, Debug, PartialEq, Eq, Structural)]
pub struct Vec2 {
    pub x: Scalar,
    pub y: Scalar,
}

impl Vec2 {
    pub open spec fn wf(self) -> bool {
        self.x.wf() && self.y.wf()
    }

    pub open spec fn bounded(self) -> bool {
        self.x.bounded() && self.y.bounded()
    }
}

/// The logical region visible during the world pass: a center position and a
/// size, supplied fresh each frame by the simulation.
#[derive(Clone, Copy, Debug, PartialEq, Eq, Structural)]
pub struct Viewport {
    pub position: Vec2,
    pub size: Vec2,
}

impl Viewport {
    /// A viewport the transform engine accepts: host-bounded coordinates and
    /// a nonzero height, since the world-pass scale divides by the height.
    pub open spec fn valid(self) -> bool {
        &&& self.position.bounded()
        &&& self.size.bounded()
        &&& self.size.y.num != 0
    }
}

/// An oriented rectangle: center position, width and height, and a rotation
/// angle in radians, counter-clockwise.  The size may be degenerate (zero
/// components draw nothing visible but are not an error).
#[derive(Clone, Copy, Debug, PartialEq, Eq, Structural)]
pub struct OrientedRect {
    pub position: Vec2,
    pub size: Vec2,
    pub angle: Scalar,
}

impl OrientedRect {
    pub open spec fn bounded(self) -> bool {
        &&& self.position.bounded()
        &&& self.size.bounded()
        &&& self.angle.bounded()
    }
}

/// How a rectangle is painted: a flat CSS color, or a registered bitmap
/// stretched to the rectangle's bounds.  A bitmap name is a lookup key into
/// the bitmap registry, not an owned resource.
#[derive(Clone, Debug, PartialEq, Eq)]
pub enum Texture {
    Color(String),
    Bitmap(String),
}

/// One entry of a frame's draw list.  Order within a list is significant:
/// later commands paint over earlier ones.
#[derive(Clone, Debug, PartialEq, Eq)]
pub struct DrawCommand {
    pub rect: OrientedRect,
    pub texture: Texture,
}

impl DrawCommand {
    pub open spec fn bounded(self) -> bool {
        self.rect.bounded()
    }
}

} // verus!
