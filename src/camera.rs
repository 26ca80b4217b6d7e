//! Where a camera stands and what it looks at.
//!
//! The pose is all the state a view depends on: the view transform is
//! rebuilt from it on every change, so two cameras with equal poses see the
//! same view whatever moves brought them there. The vector type is left to
//! the renderer.
use vstd::prelude::*;

verus! {

/// A camera's position, the point it looks at, and its fixed up direction.
#[derive(Clone, Copy, Debug)]
pub struct CameraPose<V> {
    pub position: V,
    pub target: V,
    pub up: V,
}

/// The pose after moving to `position`.
pub open spec fn repositioned<V>(p: CameraPose<V>, position: V) -> CameraPose<V> {
    CameraPose { position, target: p.target, up: p.up }
}

/// The pose after turning to `target`.
pub open spec fn retargeted<V>(p: CameraPose<V>, target: V) -> CameraPose<V> {
    CameraPose { position: p.position, target, up: p.up }
}

impl<V> CameraPose<V> {
    /// A pose at `position` looking at `target` with `up` as its up direction.
    pub fn new(position: V, target: V, up: V) -> (r: CameraPose<V>)
        ensures
            r == (CameraPose { position, target, up }),
    {
        CameraPose { position, target, up }
    }

    /// Turns to look at `target`, staying in place.
    pub fn look_at(&mut self, target: V)
        ensures
            *final(self) == retargeted(*old(self), target),
    {
        self.target = target;
    }

    /// Moves to `position`, still looking at the same point.
    pub fn reposition(&mut self, position: V)
        ensures
            *final(self) == repositioned(*old(self), position),
    {
        self.position = position;
    }

    /// Moves to `position` and looks at `target`.
    pub fn reposition_and_look_at(&mut self, position: V, target: V)
        ensures
            *final(self) == retargeted(repositioned(*old(self), position), target),
    {
        self.target = target;
        self.position = position;
    }
}

/// Moving and turning leaves no trace of earlier poses: any two cameras with
/// the same up direction stand in the same pose after the same
/// `reposition_and_look_at`, and that pose is the one built fresh from those
/// inputs, or reached by `reposition` then `look_at`.
pub proof fn lemma_pose_has_no_history<V>(a: CameraPose<V>, b: CameraPose<V>, position: V, target: V)
    requires
        a.up == b.up,
    ensures
        retargeted(repositioned(a, position), target) == retargeted(
            repositioned(b, position),
            target,
        ),
        retargeted(repositioned(a, position), target) == (CameraPose {
            position,
            target,
            up: a.up,
        }),
        retargeted(repositioned(a, position), target) == repositioned(retargeted(a, target), position),
{
}

} // verus!
