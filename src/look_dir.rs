//! The horizontal direction something faces.
use crate::fixed::{Vec2, UNIT};
use vstd::prelude::*;
use vstd::std_specs::convert::FromSpecImpl;

verus! {

/// Facing right or left.
#[derive(Clone, Copy, Debug, PartialEq, Eq, Structural)]
pub enum LookDir {
    Right,
    Left,
}

/// The sign of a direction: `1` for right, `-1` for left.
pub open spec fn sign_of(d: LookDir) -> int {
    match d {
        LookDir::Right => 1,
        LookDir::Left => -1,
    }
}

/// The direction of a sign: right for positive, left for negative, and the
/// default, right, for zero.
pub open spec fn dir_of(x: int) -> LookDir {
    if x < 0 {
        LookDir::Left
    } else {
        LookDir::Right
    }
}

impl Default for LookDir {
    fn default() -> (r: LookDir)
        ensures
            r == LookDir::Right,
    {
        LookDir::Right
    }
}

impl From<&LookDir> for i32 {
    fn from(val: &LookDir) -> (r: i32) {
        match val {
            LookDir::Right => 1,
            LookDir::Left => -1,
        }
    }
}

impl FromSpecImpl<&LookDir> for i32 {
    open spec fn obeys_from_spec() -> bool {
        true
    }

    open spec fn from_spec(v: &LookDir) -> i32 {
        sign_of(*v) as i32
    }
}

impl From<&LookDir> for i8 {
    fn from(val: &LookDir) -> (r: i8) {
        match val {
            LookDir::Right => 1,
            LookDir::Left => -1,
        }
    }
}

impl FromSpecImpl<&LookDir> for i8 {
    open spec fn obeys_from_spec() -> bool {
        true
    }

    open spec fn from_spec(v: &LookDir) -> i8 {
        sign_of(*v) as i8
    }
}

/// A unit vector along the direction.
impl From<&LookDir> for Vec2 {
    fn from(val: &LookDir) -> (r: Vec2) {
        match val {
            LookDir::Right => Vec2 { x: UNIT, y: 0 },
            LookDir::Left => Vec2 { x: -UNIT, y: 0 },
        }
    }
}

impl FromSpecImpl<&LookDir> for Vec2 {
    open spec fn obeys_from_spec() -> bool {
        true
    }

    open spec fn from_spec(v: &LookDir) -> Vec2 {
        Vec2 { x: (sign_of(*v) * UNIT) as i64, y: 0 }
    }
}

impl From<i32> for LookDir {
    fn from(val: i32) -> (r: LookDir) {
        if val < 0 {
            LookDir::Left
        } else {
            LookDir::Right
        }
    }
}

impl FromSpecImpl<i32> for LookDir {
    open spec fn obeys_from_spec() -> bool {
        true
    }

    open spec fn from_spec(v: i32) -> LookDir {
        dir_of(v as int)
    }
}

impl From<i8> for LookDir {
    fn from(val: i8) -> (r: LookDir) {
        if val < 0 {
            LookDir::Left
        } else {
            LookDir::Right
        }
    }
}

impl FromSpecImpl<i8> for LookDir {
    open spec fn obeys_from_spec() -> bool {
        true
    }

    open spec fn from_spec(v: i8) -> LookDir {
        dir_of(v as int)
    }
}

} // verus!
