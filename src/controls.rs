//! Arrow-key orbit control of the camera.
//!
//! Each frame the held arrows decide whether the camera moves: left and
//! right turn it around the vertical axis, up and down raise and lower it.
//! Opposite arrows held together cancel, but the camera is still placed
//! anew that frame.
use vstd::prelude::*;

verus! {

/// The four arrow keys.
#[derive(Clone, Copy, Debug, PartialEq, Eq, Structural)]
pub enum Arrow {
    Left,
    Right,
    Up,
    Down,
}

/// Which arrows are held down.
#[derive(Clone, Copy, Debug, PartialEq, Eq, Structural)]
pub struct HeldArrows {
    pub left: bool,
    pub right: bool,
    pub up: bool,
    pub down: bool,
}

/// One frame's movement, in steps of the orbit angle and of the height:
/// each is `-1`, `0` or `1`.
#[derive(Clone, Copy, Debug, PartialEq, Eq, Structural)]
pub struct OrbitStep {
    pub turn: i8,
    pub climb: i8,
}

/// `1` for a held key, `0` otherwise.
pub open spec fn held_value(b: bool) -> int {
    if b { 1 } else { 0 }
}

/// Whether `a` is held in `h`.
pub open spec fn is_held(h: HeldArrows, a: Arrow) -> bool {
    match a {
        Arrow::Left => h.left,
        Arrow::Right => h.right,
        Arrow::Up => h.up,
        Arrow::Down => h.down,
    }
}

impl HeldArrows {
    /// No arrow held.
    pub fn new() -> (r: HeldArrows)
        ensures
            !r.left && !r.right && !r.up && !r.down,
    {
        HeldArrows { left: false, right: false, up: false, down: false }
    }

    /// Records that `arrow` went down (`down == true`) or up.
    pub fn set(&mut self, arrow: Arrow, down: bool)
        ensures
            is_held(*final(self), arrow) == down,
            forall|a: Arrow| a != arrow ==> is_held(*final(self), a) == is_held(*old(self), a),
    {
        match arrow {
            Arrow::Left => self.left = down,
            Arrow::Right => self.right = down,
            Arrow::Up => self.up = down,
            Arrow::Down => self.down = down,
        }
    }

    /// This frame's movement, or `None` where no arrow is held and the
    /// camera stays where it is.
    pub fn orbit_step(&self) -> (r: Option<OrbitStep>)
        ensures
            !(self.left || self.right || self.up || self.down) ==> r is None,
            (self.left || self.right || self.up || self.down) ==> r == Some(
                OrbitStep {
                    turn: (held_value(self.right) - held_value(self.left)) as i8,
                    climb: (held_value(self.up) - held_value(self.down)) as i8,
                },
            ),
    {
        if !(self.left || self.right || self.up || self.down) {
            return None;
        }
        let mut turn: i8 = 0;
        let mut climb: i8 = 0;
        if self.left {
            turn = turn - 1;
        }
        if self.right {
            turn = turn + 1;
        }
        if self.up {
            climb = climb + 1;
        }
        if self.down {
            climb = climb - 1;
        }
        Some(OrbitStep { turn, climb })
    }
}

} // verus!
