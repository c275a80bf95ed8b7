//! Obstacle kinds and which move gets the player past each of them.

use vstd::prelude::*;
use super::types::Lane;

verus! {

#[derive(Debug, Clone, Copy, PartialEq, Eq, Structural)]
pub enum ObstacleType {
    /// A low fence: jump over it.
    LowBarrier,
    /// A floating block: slide under it.
    HighBarrier,
    /// A wall of poles: only switching lanes avoids it.
    FullBarrier,
}

/// Whether an obstacle can hit the player: it must stand in the player's lane,
/// and a jump clears a low barrier while a slide clears a high one.
pub open spec fn can_hit(
    t: ObstacleType,
    obstacle_lane: Lane,
    player_lane: Lane,
    is_jumping: bool,
    is_sliding: bool,
) -> bool {
    &&& obstacle_lane == player_lane
    &&& !(t == ObstacleType::LowBarrier && is_jumping)
    &&& !(t == ObstacleType::HighBarrier && is_sliding)
}

impl ObstacleType {
    pub fn avoidable_by_jump(&self) -> (b: bool)
        ensures
            b == (*self == ObstacleType::LowBarrier),
    {
        matches!(self, ObstacleType::LowBarrier)
    }

    pub fn avoidable_by_slide(&self) -> (b: bool)
        ensures
            b == (*self == ObstacleType::HighBarrier),
    {
        matches!(self, ObstacleType::HighBarrier)
    }

    /// Whether this obstacle, standing in `obstacle_lane`, is in the player's
    /// way; only then are the hit boxes compared.
    pub fn can_hit(
        &self,
        obstacle_lane: Lane,
        player_lane: Lane,
        is_jumping: bool,
        is_sliding: bool,
    ) -> (b: bool)
        ensures
            b == can_hit(*self, obstacle_lane, player_lane, is_jumping, is_sliding),
    {
        if obstacle_lane != player_lane {
            return false;
        }
        if self.avoidable_by_jump() && is_jumping {
            return false;
        }
        if self.avoidable_by_slide() && is_sliding {
            return false;
        }
        true
    }
}

// ── Laws ────────────────────────────────────────────────────────────────

/// Low barriers are cleared by jumping, high barriers by sliding, full
/// barriers only by switching lanes, and nothing in another lane can hit.
pub proof fn lemma_how_obstacles_are_dodged(
    t: ObstacleType,
    obstacle_lane: Lane,
    player_lane: Lane,
    is_jumping: bool,
    is_sliding: bool,
)
    ensures
        obstacle_lane != player_lane ==> !can_hit(t, obstacle_lane, player_lane, is_jumping, is_sliding),
        !can_hit(ObstacleType::LowBarrier, player_lane, player_lane, true, is_sliding),
        !can_hit(ObstacleType::HighBarrier, player_lane, player_lane, is_jumping, true),
        can_hit(ObstacleType::FullBarrier, player_lane, player_lane, is_jumping, is_sliding),
        can_hit(t, player_lane, player_lane, false, false),
        can_hit(ObstacleType::LowBarrier, player_lane, player_lane, false, is_sliding),
        can_hit(ObstacleType::HighBarrier, player_lane, player_lane, is_jumping, false),
{
}

} // verus!
