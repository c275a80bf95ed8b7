//! The player's move state: running, jumping, sliding or dead.

use vstd::prelude::*;

verus! {

#[derive(Debug, Clone, Copy, PartialEq, Eq, Structural)]
pub enum PlayerState {
    Running,
    Jumping,
    Sliding,
    Dead,
}

/// A jump can start while running, and a slide can be cancelled into a jump.
pub open spec fn can_jump(s: PlayerState) -> bool {
    s == PlayerState::Running || s == PlayerState::Sliding
}

/// A slide can start while running, and a jump can be cancelled into a slide.
pub open spec fn can_slide(s: PlayerState) -> bool {
    s == PlayerState::Running || s == PlayerState::Jumping
}

/// The state after a jump request.
pub open spec fn jumped_state(s: PlayerState) -> PlayerState {
    if can_jump(s) {
        PlayerState::Jumping
    } else {
        s
    }
}

/// The state after a slide request.
pub open spec fn slid_state(s: PlayerState) -> PlayerState {
    if can_slide(s) {
        PlayerState::Sliding
    } else {
        s
    }
}

impl Default for PlayerState {
    fn default() -> (s: Self)
        ensures
            s == PlayerState::Running,
    {
        PlayerState::Running
    }
}

impl PlayerState {
    /// Starts a jump, from running or out of a slide; returns whether the
    /// player took off.
    pub fn jump(&mut self) -> (started: bool)
        ensures
            *final(self) == jumped_state(*old(self)),
            started == can_jump(*old(self)),
    {
        if *self == PlayerState::Running || *self == PlayerState::Sliding {
            *self = PlayerState::Jumping;
            true
        } else {
            false
        }
    }

    /// Starts a slide, from running or out of a jump; returns whether the
    /// player went down.
    pub fn slide(&mut self) -> (started: bool)
        ensures
            *final(self) == slid_state(*old(self)),
            started == can_slide(*old(self)),
    {
        if *self == PlayerState::Running || *self == PlayerState::Jumping {
            *self = PlayerState::Sliding;
            true
        } else {
            false
        }
    }

    pub fn die(&mut self)
        ensures
            *final(self) == PlayerState::Dead,
    {
        *self = PlayerState::Dead;
    }

    pub fn is_sliding(&self) -> (b: bool)
        ensures
            b == (*self == PlayerState::Sliding),
    {
        *self == PlayerState::Sliding
    }

    pub fn is_alive(&self) -> (b: bool)
        ensures
            b == (*self != PlayerState::Dead),
    {
        *self != PlayerState::Dead
    }
}

// ── Laws ────────────────────────────────────────────────────────────────

/// A dead player stays dead: neither a jump nor a slide revives it.
pub proof fn lemma_dead_stays_dead()
    ensures
        jumped_state(PlayerState::Dead) == PlayerState::Dead,
        slid_state(PlayerState::Dead) == PlayerState::Dead,
{
}

/// A slide can be cancelled into a jump and a jump into a slide; a move
/// already under way is not restarted by asking for it again.
pub proof fn lemma_moves_cancel_each_other(s: PlayerState)
    ensures
        jumped_state(PlayerState::Sliding) == PlayerState::Jumping,
        slid_state(PlayerState::Jumping) == PlayerState::Sliding,
        jumped_state(PlayerState::Running) == PlayerState::Jumping,
        slid_state(PlayerState::Running) == PlayerState::Sliding,
        !can_jump(PlayerState::Jumping) && !can_slide(PlayerState::Sliding),
        jumped_state(jumped_state(s)) == jumped_state(s),
        slid_state(slid_state(s)) == slid_state(s),
        s != PlayerState::Dead ==> jumped_state(slid_state(s)) == PlayerState::Jumping
            && slid_state(jumped_state(s)) == PlayerState::Sliding,
{
}

} // verus!
