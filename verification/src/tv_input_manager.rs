//! TV remote input state: held buttons, last frame's buttons and a per-frame
//! press latch, so that a press and release inside one frame is still seen.

use vstd::prelude::*;
use crate::input::tv_input::RemoteButtons;

verus! {

/// Logical action types that map to physical TV buttons.
#[derive(Debug, Clone, Copy, PartialEq, Eq, Structural)]
pub enum TvAction {
    Up,
    Down,
    Left,
    Right,
    /// Enter/Select/Confirm button
    Action,
    /// Back/Return button (required for TV certification)
    Back,
}

/// Stable slot of an action in the fixed-size state arrays.
pub open spec fn action_slot(a: TvAction) -> int {
    match a {
        TvAction::Up => 0,
        TvAction::Down => 1,
        TvAction::Left => 2,
        TvAction::Right => 3,
        TvAction::Action => 4,
        TvAction::Back => 5,
    }
}

impl TvAction {
    /// Stable index into the fixed-size input arrays.
    pub fn index(self) -> (i: usize)
        ensures
            i == action_slot(self),
            i < ACTION_COUNT,
    {
        match self {
            TvAction::Up => 0,
            TvAction::Down => 1,
            TvAction::Left => 2,
            TvAction::Right => 3,
            TvAction::Action => 4,
            TvAction::Back => 5,
        }
    }
}

pub const ACTION_COUNT: usize = 6;

/// What the manager holds, one flag per action slot: buttons held now, buttons
/// held at the end of the last frame, and presses seen since that frame ended.
#[verifier::ext_equal]
pub struct InputView {
    pub held: Seq<bool>,
    pub held_before: Seq<bool>,
    pub latched: Seq<bool>,
}

/// Every button released and no press latched.
pub open spec fn cleared_view() -> InputView {
    InputView {
        held: Seq::new(6, |i: int| false),
        held_before: Seq::new(6, |i: int| false),
        latched: Seq::new(6, |i: int| false),
    }
}

/// The state after a button of `a` goes down (`pressed`) or up: a press also
/// latches the action until the frame ends.
pub open spec fn set_pressed(v: InputView, a: TvAction, pressed: bool) -> InputView {
    InputView {
        held: v.held.update(action_slot(a), pressed),
        held_before: v.held_before,
        latched: if pressed {
            v.latched.update(action_slot(a), true)
        } else {
            v.latched
        },
    }
}

/// The state after a frame ends: what is held becomes last frame's state and
/// every latch is released.
pub open spec fn end_frame(v: InputView) -> InputView {
    InputView { held: v.held, held_before: v.held, latched: Seq::new(6, |i: int| false) }
}

/// An action is just pressed when it is held now but was not last frame.
pub open spec fn just_pressed(v: InputView, a: TvAction) -> bool {
    v.held[action_slot(a)] && !v.held_before[action_slot(a)]
}

/// A view holds one flag per action in each of its three sequences.
pub open spec fn view_wf(v: InputView) -> bool {
    v.held.len() == 6 && v.held_before.len() == 6 && v.latched.len() == 6
}

/// Stores the current state of all TV remote actions.
pub struct TvInputManager {
    current_state: [bool; 6],
    previous_state: [bool; 6],
    /// True if the action was pressed at any point since the last `update()`.
    pressed_latch: [bool; 6],
}

impl View for TvInputManager {
    type V = InputView;

    closed spec fn view(&self) -> InputView {
        InputView {
            held: self.current_state@,
            held_before: self.previous_state@,
            latched: self.pressed_latch@,
        }
    }
}

impl TvInputManager {
    /// Every flag sequence has one entry per action.
    pub proof fn lemma_view_wf(&self)
        ensures
            view_wf(self@),
    {
    }

    /// Create a manager with every action released.
    pub fn new() -> (m: Self)
        ensures
            m@ == cleared_view(),
    {
        let m = TvInputManager {
            current_state: [false; 6],
            previous_state: [false; 6],
            pressed_latch: [false; 6],
        };
        assert(m@ =~= cleared_view());
        m
    }

    /// Sets the held state of one action; a press also sets its latch.
    pub fn set_action(&mut self, action: TvAction, pressed: bool)
        ensures
            final(self)@ == set_pressed(old(self)@, action, pressed),
    {
        let i = action.index();
        self.current_state[i] = pressed;
        if pressed {
            self.pressed_latch[i] = true;
        }
    }

    /// Ends a frame (call after the frame's state has been read).
    pub fn update(&mut self)
        ensures
            final(self)@ == end_frame(old(self)@),
    {
        self.previous_state = self.current_state;
        self.pressed_latch = [false; 6];
        assert(self@ =~= end_frame(old(self)@));
    }

    /// Whether the action's button is held now.
    pub fn is_action_pressed(&self, action: TvAction) -> (b: bool)
        ensures
            b == self@.held[action_slot(action)],
    {
        self.current_state[action.index()]
    }

    /// Whether the action was pressed at any point since the last `update()`,
    /// even if it was released again before this frame reads it.
    pub fn was_action_pressed(&self, action: TvAction) -> (b: bool)
        ensures
            b == self@.latched[action_slot(action)],
    {
        self.pressed_latch[action.index()]
    }

    /// Whether the action is held now but was not held last frame.
    pub fn is_action_just_pressed(&self, action: TvAction) -> (b: bool)
        ensures
            b == just_pressed(self@, action),
    {
        let i = action.index();
        self.current_state[i] && !self.previous_state[i]
    }

    /// Clear all input state (useful when pausing/resuming).
    pub fn clear(&mut self)
        ensures
            final(self)@ == cleared_view(),
    {
        self.current_state = [false; 6];
        self.previous_state = [false; 6];
        self.pressed_latch = [false; 6];
        assert(self@ =~= cleared_view());
    }
}

/// Whether the remote reports the action this frame: held now, or pressed at
/// some point since the last frame ended.
pub open spec fn remote_reports(v: InputView, a: TvAction) -> bool {
    v.held[action_slot(a)] || v.latched[action_slot(a)]
}

/// The buttons of a frame: a button counts as down when the keyboard has it
/// down or the remote reports its action, so a quick remote tap is not lost.
pub fn merge_remote(keys: RemoteButtons, remote: &TvInputManager) -> (b: RemoteButtons)
    ensures
        b == (RemoteButtons {
            up: keys.up || remote_reports(remote@, TvAction::Up),
            down: keys.down || remote_reports(remote@, TvAction::Down),
            left: keys.left || remote_reports(remote@, TvAction::Left),
            right: keys.right || remote_reports(remote@, TvAction::Right),
            action: keys.action || remote_reports(remote@, TvAction::Action),
            back: keys.back || remote_reports(remote@, TvAction::Back),
        }),
{
    let reports = |a: TvAction| -> (r: bool)
        ensures
            r == remote_reports(remote@, a),
        { remote.is_action_pressed(a) || remote.was_action_pressed(a) };
    RemoteButtons {
        up: keys.up || reports(TvAction::Up),
        down: keys.down || reports(TvAction::Down),
        left: keys.left || reports(TvAction::Left),
        right: keys.right || reports(TvAction::Right),
        action: keys.action || reports(TvAction::Action),
        back: keys.back || reports(TvAction::Back),
    }
}

impl Default for TvInputManager {
    fn default() -> (m: Self)
        ensures
            m@ == cleared_view(),
    {
        Self::new()
    }
}

/// The input manager the platform layer starts with: every action released.
pub fn init_tv_input_manager() -> (m: TvInputManager)
    ensures
        m@ == cleared_view(),
{
    TvInputManager::new()
}

// ── Laws ────────────────────────────────────────────────────────────────

/// Each action has its own slot among the six.
pub proof fn lemma_action_slots_distinct(a: TvAction, b: TvAction)
    ensures
        0 <= action_slot(a) < ACTION_COUNT,
        a != b ==> action_slot(a) != action_slot(b),
{
}

/// Every operation keeps one flag per action.
pub proof fn lemma_operations_keep_shape(v: InputView, a: TvAction, pressed: bool)
    requires
        view_wf(v),
    ensures
        view_wf(set_pressed(v, a, pressed)),
        view_wf(end_frame(v)),
        view_wf(cleared_view()),
{
}

/// A button pressed and released again within one frame is still reported as
/// pressed until the frame ends.
pub proof fn lemma_quick_tap_is_latched(v: InputView, a: TvAction)
    requires
        view_wf(v),
    ensures
        set_pressed(set_pressed(v, a, true), a, false).latched[action_slot(a)],
        !set_pressed(set_pressed(v, a, true), a, false).held[action_slot(a)],
{
}

/// A latched press stays latched whatever else goes down or up before the
/// frame ends.
pub proof fn lemma_latch_holds_until_frame_end(v: InputView, a: TvAction, b: TvAction, pressed: bool)
    requires
        view_wf(v),
        v.latched[action_slot(a)],
    ensures
        set_pressed(v, b, pressed).latched[action_slot(a)],
{
}

/// Pressing or releasing one button leaves every other action as it was.
pub proof fn lemma_set_is_local(v: InputView, a: TvAction, b: TvAction, pressed: bool)
    requires
        view_wf(v),
        a != b,
    ensures
        set_pressed(v, a, pressed).held[action_slot(b)] == v.held[action_slot(b)],
        set_pressed(v, a, pressed).latched[action_slot(b)] == v.latched[action_slot(b)],
        just_pressed(set_pressed(v, a, pressed), b) == just_pressed(v, b),
{
}

/// Ending a frame releases every latch and leaves no action just pressed, so a
/// held button counts as a new press in one frame only.
pub proof fn lemma_end_frame_consumes_presses(v: InputView, a: TvAction)
    requires
        view_wf(v),
    ensures
        !end_frame(v).latched[action_slot(a)],
        !just_pressed(end_frame(v), a),
        end_frame(v).held[action_slot(a)] == v.held[action_slot(a)],
        !just_pressed(end_frame(end_frame(v)), a),
{
}

/// A button that was up when the last frame ended is just pressed once it goes down.
pub proof fn lemma_press_after_release(v: InputView, a: TvAction)
    requires
        view_wf(v),
        !v.held[action_slot(a)],
    ensures
        just_pressed(set_pressed(end_frame(v), a, true), a),
        set_pressed(end_frame(v), a, true).latched[action_slot(a)],
{
}

/// A cleared manager reports nothing held, pressed or latched.
pub proof fn lemma_cleared_reports_nothing(a: TvAction)
    ensures
        !cleared_view().held[action_slot(a)],
        !cleared_view().latched[action_slot(a)],
        !just_pressed(cleared_view(), a),
{
}

} // verus!
