//! Edge detection on the six remote buttons: a button is "just pressed" in the
//! frame where it goes down.

use vstd::prelude::*;

verus! {

/// Which of the six remote buttons are down in one frame.
#[derive(Debug, Clone, Copy, PartialEq, Eq, Structural)]
pub struct RemoteButtons {
    pub up: bool,
    pub down: bool,
    pub left: bool,
    pub right: bool,
    pub action: bool,
    pub back: bool,
}

/// No button down.
pub open spec fn no_buttons() -> RemoteButtons {
    RemoteButtons { up: false, down: false, left: false, right: false, action: false, back: false }
}

/// This frame's buttons and last frame's buttons.
pub struct TvInputView {
    pub current: RemoteButtons,
    pub previous: RemoteButtons,
}

/// The input after a new frame was read: this frame's buttons become last
/// frame's, and `now` becomes this frame's.
pub open spec fn next_frame(v: TvInputView, now: RemoteButtons) -> TvInputView {
    TvInputView { current: now, previous: v.current }
}

/// A button is just pressed when it is down now and was up last frame.
pub open spec fn edge(now: bool, before: bool) -> bool {
    now && !before
}

/// The buttons that went down in this frame.
pub open spec fn pressed_edges(v: TvInputView) -> RemoteButtons {
    RemoteButtons {
        up: edge(v.current.up, v.previous.up),
        down: edge(v.current.down, v.previous.down),
        left: edge(v.current.left, v.previous.left),
        right: edge(v.current.right, v.previous.right),
        action: edge(v.current.action, v.previous.action),
        back: edge(v.current.back, v.previous.back),
    }
}

pub struct TvInput {
    // Current frame state
    up: bool,
    down: bool,
    left: bool,
    right: bool,
    action: bool,
    back: bool,
    // Previous frame state (for "just pressed")
    prev_up: bool,
    prev_down: bool,
    prev_left: bool,
    prev_right: bool,
    prev_action: bool,
    prev_back: bool,
}

impl View for TvInput {
    type V = TvInputView;

    closed spec fn view(&self) -> TvInputView {
        TvInputView {
            current: RemoteButtons {
                up: self.up,
                down: self.down,
                left: self.left,
                right: self.right,
                action: self.action,
                back: self.back,
            },
            previous: RemoteButtons {
                up: self.prev_up,
                down: self.prev_down,
                left: self.prev_left,
                right: self.prev_right,
                action: self.prev_action,
                back: self.prev_back,
            },
        }
    }
}

impl TvInput {
    pub fn new() -> (i: Self)
        ensures
            i@ == (TvInputView { current: no_buttons(), previous: no_buttons() }),
    {
        TvInput {
            up: false,
            down: false,
            left: false,
            right: false,
            action: false,
            back: false,
            prev_up: false,
            prev_down: false,
            prev_left: false,
            prev_right: false,
            prev_action: false,
            prev_back: false,
        }
    }

    /// Starts a new frame with the buttons that are down now.
    pub fn update(&mut self, now: RemoteButtons)
        ensures
            final(self)@ == next_frame(old(self)@, now),
    {
        // Save previous state
        self.prev_up = self.up;
        self.prev_down = self.down;
        self.prev_left = self.left;
        self.prev_right = self.right;
        self.prev_action = self.action;
        self.prev_back = self.back;

        // Take the current state
        self.up = now.up;
        self.down = now.down;
        self.left = now.left;
        self.right = now.right;
        self.action = now.action;
        self.back = now.back;
    }

    pub fn is_up_just_pressed(&self) -> (b: bool)
        ensures
            b == edge(self@.current.up, self@.previous.up),
    {
        self.up && !self.prev_up
    }

    pub fn is_down_just_pressed(&self) -> (b: bool)
        ensures
            b == edge(self@.current.down, self@.previous.down),
    {
        self.down && !self.prev_down
    }

    pub fn is_left_just_pressed(&self) -> (b: bool)
        ensures
            b == edge(self@.current.left, self@.previous.left),
    {
        self.left && !self.prev_left
    }

    pub fn is_right_just_pressed(&self) -> (b: bool)
        ensures
            b == edge(self@.current.right, self@.previous.right),
    {
        self.right && !self.prev_right
    }

    pub fn is_action_just_pressed(&self) -> (b: bool)
        ensures
            b == edge(self@.current.action, self@.previous.action),
    {
        self.action && !self.prev_action
    }

    pub fn is_back_just_pressed(&self) -> (b: bool)
        ensures
            b == edge(self@.current.back, self@.previous.back),
    {
        self.back && !self.prev_back
    }
}

impl Default for TvInput {
    fn default() -> (i: Self)
        ensures
            i@ == (TvInputView { current: no_buttons(), previous: no_buttons() }),
    {
        Self::new()
    }
}

// ── Laws ────────────────────────────────────────────────────────────────

/// Holding a button down over several frames reports it as just pressed in
/// the first of those frames only: one press, one action.
pub proof fn lemma_held_button_fires_once(v: TvInputView, now: RemoteButtons)
    ensures
        edge(next_frame(next_frame(v, now), now).current.up, next_frame(next_frame(v, now), now).previous.up) == false,
        edge(next_frame(next_frame(v, now), now).current.down, next_frame(next_frame(v, now), now).previous.down) == false,
        edge(next_frame(next_frame(v, now), now).current.left, next_frame(next_frame(v, now), now).previous.left) == false,
        edge(next_frame(next_frame(v, now), now).current.right, next_frame(next_frame(v, now), now).previous.right) == false,
        edge(next_frame(next_frame(v, now), now).current.action, next_frame(next_frame(v, now), now).previous.action) == false,
        edge(next_frame(next_frame(v, now), now).current.back, next_frame(next_frame(v, now), now).previous.back) == false,
{
}

/// A button that was up in the last frame and is down now is just pressed.
pub proof fn lemma_new_press_fires(v: TvInputView, now: RemoteButtons)
    ensures
        (now.back && !v.current.back) ==> edge(next_frame(v, now).current.back, next_frame(v, now).previous.back),
        (now.action && !v.current.action) ==> edge(next_frame(v, now).current.action, next_frame(v, now).previous.action),
        (now.up && !v.current.up) ==> edge(next_frame(v, now).current.up, next_frame(v, now).previous.up),
        (now.down && !v.current.down) ==> edge(next_frame(v, now).current.down, next_frame(v, now).previous.down),
        (now.left && !v.current.left) ==> edge(next_frame(v, now).current.left, next_frame(v, now).previous.left),
        (now.right && !v.current.right) ==> edge(next_frame(v, now).current.right, next_frame(v, now).previous.right),
{
}

} // verus!
