use vstd::prelude::*;
use crate::motion::MoveAxes;

verus! {

/// Scancode of the space bar: move up.
pub const SCANCODE_SPACE: u32 = 57;

/// Scancode of the left shift key: move down.
pub const SCANCODE_SHIFT: u32 = 42;

/// Scancode of W: move forward.
pub const SCANCODE_W: u32 = 17;

/// Scancode of A: move left.
pub const SCANCODE_A: u32 = 30;

/// Scancode of S: move backward.
pub const SCANCODE_S: u32 = 31;

/// Scancode of D: move right.
pub const SCANCODE_D: u32 = 32;

/// One of the six keys that move the camera.
#[derive(Clone, Copy, Debug, PartialEq, Eq, Structural)]
pub enum MoveKey {
    Up,
    Down,
    Forward,
    Backward,
    Left,
    Right,
}

/// The movement key that a physical scancode stands for, if any.
pub open spec fn spec_key_for_scancode(code: u32) -> Option<MoveKey> {
    if code == SCANCODE_SPACE {
        Some(MoveKey::Up)
    } else if code == SCANCODE_SHIFT {
        Some(MoveKey::Down)
    } else if code == SCANCODE_W {
        Some(MoveKey::Forward)
    } else if code == SCANCODE_A {
        Some(MoveKey::Left)
    } else if code == SCANCODE_S {
        Some(MoveKey::Backward)
    } else if code == SCANCODE_D {
        Some(MoveKey::Right)
    } else {
        None
    }
}

/// Maps a physical scancode to the movement key it stands for.
pub fn key_for_scancode(code: u32) -> (r: Option<MoveKey>)
    ensures
        r == spec_key_for_scancode(code),
{
    if code == SCANCODE_SPACE {
        Some(MoveKey::Up)
    } else if code == SCANCODE_SHIFT {
        Some(MoveKey::Down)
    } else if code == SCANCODE_W {
        Some(MoveKey::Forward)
    } else if code == SCANCODE_A {
        Some(MoveKey::Left)
    } else if code == SCANCODE_S {
        Some(MoveKey::Backward)
    } else if code == SCANCODE_D {
        Some(MoveKey::Right)
    } else {
        None
    }
}

/// Net contribution of a pair of opposite keys to one axis.
pub open spec fn axis(positive: bool, negative: bool) -> int {
    (if positive { 1int } else { 0int }) - (if negative { 1int } else { 0int })
}

fn axis_exec(positive: bool, negative: bool) -> (r: i8)
    ensures
        r == axis(positive, negative),
{
    if positive == negative {
        0
    } else if positive {
        1
    } else {
        -1
    }
}

/// Which of the six movement keys are held down.
#[derive(Clone, Copy, Debug, PartialEq, Eq, Structural)]
pub struct MovementKeys {
    pub up: bool,
    pub down: bool,
    pub forward: bool,
    pub backward: bool,
    pub left: bool,
    pub right: bool,
}

impl MovementKeys {
    /// No key held.
    pub open spec fn none_held() -> MovementKeys {
        MovementKeys { up: false, down: false, forward: false, backward: false, left: false, right: false }
    }

    pub open spec fn is_held(self, key: MoveKey) -> bool {
        match key {
            MoveKey::Up => self.up,
            MoveKey::Down => self.down,
            MoveKey::Forward => self.forward,
            MoveKey::Backward => self.backward,
            MoveKey::Left => self.left,
            MoveKey::Right => self.right,
        }
    }

    /// The same keys, with `key` held exactly when `pressed`.
    pub open spec fn with_key(self, key: MoveKey, pressed: bool) -> MovementKeys {
        match key {
            MoveKey::Up => MovementKeys { up: pressed, ..self },
            MoveKey::Down => MovementKeys { down: pressed, ..self },
            MoveKey::Forward => MovementKeys { forward: pressed, ..self },
            MoveKey::Backward => MovementKeys { backward: pressed, ..self },
            MoveKey::Left => MovementKeys { left: pressed, ..self },
            MoveKey::Right => MovementKeys { right: pressed, ..self },
        }
    }

    /// The held keys, summed as vectors of the camera's frame: opposite keys
    /// cancel.
    pub open spec fn spec_axes(self) -> MoveAxes {
        MoveAxes {
            forward: axis(self.forward, self.backward) as i8,
            right: axis(self.right, self.left) as i8,
            up: axis(self.up, self.down) as i8,
        }
    }

    /// The movement to apply this frame: none when the summed direction is
    /// within the dead zone. The direction's length is the square root of an
    /// integer (see `lemma_moves_exactly_when_uncancelled`), so it passes any
    /// dead zone below one exactly when it is not zero.
    pub open spec fn spec_movement(self) -> Option<MoveAxes> {
        if self.spec_axes().is_zero() {
            None
        } else {
            Some(self.spec_axes())
        }
    }

    /// No key held.
    pub fn new() -> (r: MovementKeys)
        ensures
            r == MovementKeys::none_held(),
    {
        MovementKeys { up: false, down: false, forward: false, backward: false, left: false, right: false }
    }

    /// Whether `key` is held.
    pub fn held(&self, key: MoveKey) -> (r: bool)
        ensures
            r == self.is_held(key),
    {
        match key {
            MoveKey::Up => self.up,
            MoveKey::Down => self.down,
            MoveKey::Forward => self.forward,
            MoveKey::Backward => self.backward,
            MoveKey::Left => self.left,
            MoveKey::Right => self.right,
        }
    }

    /// Records that `key` went down (`pressed`) or up.
    pub fn set_key(&mut self, key: MoveKey, pressed: bool)
        ensures
            *final(self) == old(self).with_key(key, pressed),
    {
        match key {
            MoveKey::Up => self.up = pressed,
            MoveKey::Down => self.down = pressed,
            MoveKey::Forward => self.forward = pressed,
            MoveKey::Backward => self.backward = pressed,
            MoveKey::Left => self.left = pressed,
            MoveKey::Right => self.right = pressed,
        }
    }

    /// Takes a key transition by scancode. Returns whether the key is one of
    /// the six movement keys, which this consumes; any other key leaves the
    /// state as it was.
    pub fn process_key(&mut self, scancode: u32, pressed: bool) -> (consumed: bool)
        ensures
            consumed == spec_key_for_scancode(scancode) is Some,
            match spec_key_for_scancode(scancode) {
                Some(key) => *final(self) == old(self).with_key(key, pressed),
                None => *final(self) == *old(self),
            },
    {
        match key_for_scancode(scancode) {
            Some(key) => {
                self.set_key(key, pressed);
                true
            },
            None => false,
        }
    }

    /// The held keys as a movement in the camera's frame.
    pub fn axes(&self) -> (r: MoveAxes)
        ensures
            r == self.spec_axes(),
            r.wf(),
    {
        MoveAxes {
            forward: axis_exec(self.forward, self.backward),
            right: axis_exec(self.right, self.left),
            up: axis_exec(self.up, self.down),
        }
    }

    /// The movement to apply this frame, or `None` when the held keys cancel
    /// out.
    pub fn movement(&self) -> (r: Option<MoveAxes>)
        ensures
            r == self.spec_movement(),
            r matches Some(m) ==> m.wf() && m.norm_squared() >= 1,
    {
        let a = self.axes();
        proof {
            lemma_moves_exactly_when_uncancelled(*self);
        }
        if a.forward != 0 || a.right != 0 || a.up != 0 {
            Some(a)
        } else {
            None
        }
    }
}

/// When each pair of opposite keys is held together or released together, the
/// keys move the camera nowhere.
pub proof fn lemma_cancelling_keys_hold_position(keys: MovementKeys)
    requires
        keys.forward == keys.backward,
        keys.left == keys.right,
        keys.up == keys.down,
    ensures
        keys.spec_axes() == (MoveAxes { forward: 0, right: 0, up: 0 }),
        keys.spec_movement() is None,
{
}

/// The keys move the camera exactly when some pair of opposite keys does not
/// cancel. A movement has squared length 1, 2 or 3 in the camera's frame; the
/// host scales it to the camera's speed, so holding two or three keys is no
/// faster than holding one.
pub proof fn lemma_moves_exactly_when_uncancelled(keys: MovementKeys)
    ensures
        keys.spec_movement() matches Some(m) ==> 1 <= m.norm_squared() <= 3 && m == keys.spec_axes(),
        keys.spec_movement() is None <==> (keys.forward == keys.backward && keys.left == keys.right
            && keys.up == keys.down),
{
    let a = keys.spec_axes();
    assert(-1 <= a.forward <= 1 && -1 <= a.right <= 1 && -1 <= a.up <= 1);
    assert(a.forward * a.forward <= 1 && a.right * a.right <= 1 && a.up * a.up <= 1) by (nonlinear_arith)
        requires -1 <= a.forward <= 1, -1 <= a.right <= 1, -1 <= a.up <= 1;
    assert(a.norm_squared() >= 0 && (a.norm_squared() == 0 <==> (a.forward == 0 && a.right == 0 && a.up == 0)))
        by (nonlinear_arith)
        requires a.norm_squared() == a.forward * a.forward + a.right * a.right + a.up * a.up;
    assert(a.forward == 0 <==> keys.forward == keys.backward);
    assert(a.right == 0 <==> keys.left == keys.right);
    assert(a.up == 0 <==> keys.up == keys.down);
}

} // verus!
