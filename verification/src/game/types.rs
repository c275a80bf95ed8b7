//! The three lanes of the road.

use vstd::prelude::*;

verus! {

/// A lane of the three-lane road; the left lane has offset -1, the right +1.
#[derive(Debug, Clone, Copy, PartialEq, Eq, Structural)]
pub enum Lane {
    Left,
    Center,
    Right,
}

/// The signed offset of a lane from the center lane.
pub open spec fn lane_offset(l: Lane) -> int {
    match l {
        Lane::Left => -1,
        Lane::Center => 0,
        Lane::Right => 1,
    }
}

/// The lane at a given offset from the center, if there is one.
pub open spec fn lane_at(offset: int) -> Option<Lane> {
    if offset == -1 {
        Some(Lane::Left)
    } else if offset == 0 {
        Some(Lane::Center)
    } else if offset == 1 {
        Some(Lane::Right)
    } else {
        None
    }
}

impl Default for Lane {
    fn default() -> (l: Self)
        ensures
            l == Lane::Center,
    {
        Lane::Center
    }
}

impl Lane {
    /// The signed offset of this lane from the center lane.
    pub fn offset(&self) -> (o: i32)
        ensures
            o == lane_offset(*self),
    {
        match self {
            Lane::Left => -1,
            Lane::Center => 0,
            Lane::Right => 1,
        }
    }

    /// The lane `direction` steps away (negative is left), or `None` when that
    /// would leave the road.
    pub fn neighbor(&self, direction: i32) -> (n: Option<Self>)
        requires
            i32::MIN <= lane_offset(*self) + direction <= i32::MAX,
        ensures
            n == lane_at(lane_offset(*self) + direction),
    {
        let current = self.offset();
        let new_index = current + direction;
        match new_index {
            -1 => Some(Lane::Left),
            0 => Some(Lane::Center),
            1 => Some(Lane::Right),
            _ => None,
        }
    }
}

// ── Laws ────────────────────────────────────────────────────────────────

/// Stepping into a lane and back returns to where one started, the outer lanes
/// have no neighbor further out, and a step of zero stays put.
pub proof fn lemma_lane_steps(l: Lane)
    ensures
        lane_at(lane_offset(l)) == Some(l),
        lane_at(lane_offset(Lane::Left) - 1) is None,
        lane_at(lane_offset(Lane::Right) + 1) is None,
        (lane_at(lane_offset(l) + 1) matches Some(m) ==> lane_at(lane_offset(m) - 1) == Some(l)),
        (lane_at(lane_offset(l) - 1) matches Some(m) ==> lane_at(lane_offset(m) + 1) == Some(l)),
{
}

/// Every step that stays on the road lands on a lane within one of the three
/// offsets, and any step of two or more lanes from the center leaves it.
pub proof fn lemma_lane_at_in_range(offset: int)
    ensures
        (lane_at(offset) matches Some(m) ==> lane_offset(m) == offset && -1 <= offset <= 1),
        (-1 <= offset <= 1) == (lane_at(offset) is Some),
{
}

} // verus!
