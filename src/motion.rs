use vstd::prelude::*;

verus! {

/// A movement in the camera's own frame: each axis is -1, 0 or 1.
///
/// `forward` runs along the horizontal look direction, `right` along the
/// horizontal direction to its right, `up` along the world's vertical axis.
#[derive(Clone, Copy, Debug, PartialEq, Eq, Structural)]
pub struct MoveAxes {
    pub forward: i8,
    pub right: i8,
    pub up: i8,
}

/// A vector of the world with integer coordinates, for stating identities of
/// the movement basis formulas. No executable code computes with it.
pub struct Vec3 {
    pub x: int,
    pub y: int,
    pub z: int,
}

impl Vec3 {
    pub open spec fn dot(self, b: Vec3) -> int {
        self.x * b.x + self.y * b.y + self.z * b.z
    }

    pub open spec fn plus(self, b: Vec3) -> Vec3 {
        Vec3 { x: self.x + b.x, y: self.y + b.y, z: self.z + b.z }
    }

    pub open spec fn scaled(self, k: int) -> Vec3 {
        Vec3 { x: self.x * k, y: self.y * k, z: self.z * k }
    }
}

/// Horizontal look direction for a yaw whose cosine is `c` and sine is `s`.
pub open spec fn forward_basis(c: int, s: int) -> Vec3 {
    Vec3 { x: c, y: s, z: 0 }
}

/// Horizontal direction to the right of `forward_basis(c, s)`.
pub open spec fn right_basis(c: int, s: int) -> Vec3 {
    Vec3 { x: s, y: -c, z: 0 }
}

/// The world's vertical axis.
pub open spec fn up_basis() -> Vec3 {
    Vec3 { x: 0, y: 0, z: 1 }
}

impl MoveAxes {
    /// Every axis is -1, 0 or 1.
    pub open spec fn wf(self) -> bool {
        &&& -1 <= self.forward <= 1
        &&& -1 <= self.right <= 1
        &&& -1 <= self.up <= 1
    }

    /// No movement at all.
    pub open spec fn is_zero(self) -> bool {
        self.forward == 0 && self.right == 0 && self.up == 0
    }

    /// Squared length of the movement in the camera's frame.
    pub open spec fn norm_squared(self) -> int {
        self.forward * self.forward + self.right * self.right + self.up * self.up
    }

    /// The movement as a world vector, for a yaw with cosine `c` and sine `s`.
    pub open spec fn world_direction(self, c: int, s: int) -> Vec3 {
        forward_basis(c, s).scaled(self.forward as int)
            .plus(right_basis(c, s).scaled(self.right as int))
            .plus(up_basis().scaled(self.up as int))
    }
}

/// Identities of the basis formulas, in exact arithmetic: the three vectors
/// are pairwise orthogonal whatever `c` and `s` are, and the horizontal ones
/// have squared length `c * c + s * s`. Both sides are polynomials in `c` and
/// `s`, so an identity that holds for all integers holds for all reals; with
/// `c` and `s` the cosine and sine of one yaw the horizontal vectors have
/// length one. This is a statement about the formulas, not about the rounded
/// floating-point vectors that a host computes from them.
pub proof fn lemma_basis_orthogonal(c: int, s: int)
    ensures
        forward_basis(c, s).dot(right_basis(c, s)) == 0,
        forward_basis(c, s).dot(up_basis()) == 0,
        right_basis(c, s).dot(up_basis()) == 0,
        forward_basis(c, s).dot(forward_basis(c, s)) == c * c + s * s,
        right_basis(c, s).dot(right_basis(c, s)) == c * c + s * s,
        up_basis().dot(up_basis()) == 1,
{
    assert(c * s + s * (-c) == 0) by (nonlinear_arith);
    assert(s * s + (-c) * (-c) == c * c + s * s) by (nonlinear_arith);
}

/// An identity of the formulas, in exact arithmetic: the world direction of a
/// movement has squared length `(forward² + right²) · (c² + s²) + up²`. When
/// `c² + s² == 1` (over the integers, only for the four axis-aligned yaws; over
/// the reals, for every yaw by the polynomial argument above) this is the
/// squared length of the movement in the camera's frame, so the exact
/// direction is zero exactly when all of its axes are zero. Floating-point
/// rounding is not covered.
pub proof fn lemma_world_direction_length(m: MoveAxes, c: int, s: int)
    ensures
        m.world_direction(c, s).dot(m.world_direction(c, s))
            == (m.forward * m.forward + m.right * m.right) * (c * c + s * s) + m.up * m.up,
        c * c + s * s == 1 ==> m.world_direction(c, s).dot(m.world_direction(c, s)) == m.norm_squared(),
{
    let f = m.forward as int;
    let r = m.right as int;
    let u = m.up as int;
    let d = m.world_direction(c, s);
    assert(d.x == c * f + s * r) by (nonlinear_arith)
        requires d.x == c * f + s * r + 0 * u;
    assert(d.y == s * f - c * r) by (nonlinear_arith)
        requires d.y == s * f + (-c) * r + 0 * u;
    assert(d.z == u) by (nonlinear_arith)
        requires d.z == 0 * f + 0 * r + 1 * u;
    let cf = c * f;
    let sr = s * r;
    let sf = s * f;
    let cr = c * r;
    assert((cf + sr) * (cf + sr) == cf * cf + 2 * (cf * sr) + sr * sr) by (nonlinear_arith);
    assert((sf - cr) * (sf - cr) == sf * sf - 2 * (sf * cr) + cr * cr) by (nonlinear_arith);
    assert(cf * sr == sf * cr) by (nonlinear_arith)
        requires cf == c * f, sr == s * r, sf == s * f, cr == c * r;
    assert(cf * cf + sf * sf == (f * f) * (c * c + s * s)) by (nonlinear_arith)
        requires cf == c * f, sf == s * f;
    assert(sr * sr + cr * cr == (r * r) * (c * c + s * s)) by (nonlinear_arith)
        requires sr == s * r, cr == c * r;
    assert((f * f) * (c * c + s * s) + (r * r) * (c * c + s * s) == (f * f + r * r) * (c * c + s * s))
        by (nonlinear_arith);
}

} // verus!
