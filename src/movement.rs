//! Movement profiles: how a bullet starts moving and how it accelerates.
use crate::fixed::{in_range, lemma_scale_to_in_range, perp, scale_to, Vec2};
use vstd::prelude::*;

verus! {

/// The rule a bullet moves by, given its position relative to its
/// formation's origin.
#[derive(Clone, Copy, Debug, PartialEq, Eq, Structural)]
pub enum MovementType {
    /// No velocity, no acceleration.
    Still,
    /// Starts with `velocity`; accelerates by `accel` along it.
    Linear { velocity: Vec2, accel: i64 },
    /// Starts at `speed` at a right angle to the radius; accelerates by
    /// `accel` toward the origin (away from it when `accel` is negative).
    Circle { speed: i64, accel: i64 },
}

/// The velocity a bullet at `pos` starts with.
pub open spec fn start_velocity_of(m: MovementType, pos: (int, int)) -> (int, int) {
    match m {
        MovementType::Still => (0, 0),
        MovementType::Linear { velocity, accel: _ } => velocity@,
        MovementType::Circle { speed, accel: _ } => scale_to(perp(pos), speed as int),
    }
}

/// The acceleration of a moving bullet at `pos`.
pub open spec fn acceleration_of(m: MovementType, pos: (int, int)) -> (int, int) {
    match m {
        MovementType::Still => (0, 0),
        MovementType::Linear { velocity, accel } => scale_to(velocity@, accel as int),
        MovementType::Circle { speed: _, accel } => scale_to((-pos.0, -pos.1), accel as int),
    }
}

/// The start velocity of an in-range profile at an in-range position is in
/// range.
pub proof fn lemma_start_velocity_in_range(m: MovementType, pos: Vec2)
    requires
        m.wf(),
        pos.wf(),
    ensures
        in_range(start_velocity_of(m, pos@).0),
        in_range(start_velocity_of(m, pos@).1),
{
    if let MovementType::Circle { speed, accel: _ } = m {
        lemma_scale_to_in_range(perp(pos@), speed as int);
    }
}

impl MovementType {
    /// Every quantity lies in the coordinate range.
    pub open spec fn wf(self) -> bool {
        match self {
            MovementType::Still => true,
            MovementType::Linear { velocity, accel } => velocity.wf() && in_range(accel as int),
            MovementType::Circle { speed, accel } => in_range(speed as int) && in_range(
                accel as int,
            ),
        }
    }

    /// The velocity a bullet at `position` starts with.
    pub fn start_velocity(&self, position: Vec2) -> (r: Vec2)
        requires
            self.wf(),
            position.wf(),
        ensures
            r@ == start_velocity_of(*self, position@),
            r.wf(),
    {
        match *self {
            MovementType::Still => Vec2::zero(),
            MovementType::Linear { velocity, accel: _ } => velocity,
            MovementType::Circle { speed, accel: _ } => position.perp().scale_to(speed),
        }
    }

    /// The acceleration of a moving bullet at `position`.
    pub fn acceleration(&self, position: Vec2) -> (r: Vec2)
        requires
            self.wf(),
            position.wf(),
        ensures
            r@ == acceleration_of(*self, position@),
            r.wf(),
    {
        match *self {
            MovementType::Still => Vec2::zero(),
            MovementType::Linear { velocity, accel } => velocity.scale_to(accel),
            MovementType::Circle { speed: _, accel } => position.neg().scale_to(accel),
        }
    }
}

} // verus!
