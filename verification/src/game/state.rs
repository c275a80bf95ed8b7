//! Screens, menus, settings, the selectable characters and the shutdown handshake.

use vstd::prelude::*;
use crate::input::tv_input::{pressed_edges, RemoteButtons, TvInput};

verus! {

// ── Screens ─────────────────────────────────────────────────────────────

/// The top-level screen the game is showing.
#[derive(Debug, Clone, Copy, PartialEq, Eq, Structural)]
pub enum GameScreen {
    MainMenu,
    Playing,
    Paused,
    GameOver,
}

/// The screen after a pause request: only a running game pauses.
pub open spec fn paused_screen(s: GameScreen) -> GameScreen {
    if s == GameScreen::Playing {
        GameScreen::Paused
    } else {
        s
    }
}

/// The screen after a resume request: only a paused game resumes.
pub open spec fn resumed_screen(s: GameScreen) -> GameScreen {
    if s == GameScreen::Paused {
        GameScreen::Playing
    } else {
        s
    }
}

impl Default for GameScreen {
    fn default() -> (s: Self)
        ensures
            s == GameScreen::MainMenu,
    {
        GameScreen::MainMenu
    }
}

impl GameScreen {
    /// Pauses a running game; every other screen is left as it is.
    pub fn pause(&mut self)
        ensures
            *final(self) == paused_screen(*old(self)),
    {
        if *self == GameScreen::Playing {
            *self = GameScreen::Paused;
        }
    }

    /// Resumes a paused game; every other screen is left as it is.
    pub fn resume(&mut self)
        ensures
            *final(self) == resumed_screen(*old(self)),
    {
        if *self == GameScreen::Paused {
            *self = GameScreen::Playing;
        }
    }

    pub fn is_playing(&self) -> (b: bool)
        ensures
            b == (*self == GameScreen::Playing),
    {
        *self == GameScreen::Playing
    }

    pub fn is_paused(&self) -> (b: bool)
        ensures
            b == (*self == GameScreen::Paused),
    {
        *self == GameScreen::Paused
    }
}

/// Overlays shown on top of the main menu.
#[derive(Debug, Clone, Copy, PartialEq, Eq, Structural)]
pub enum MenuSubScreen {
    NoOverlay,
    HowToPlay,
    Options,
    CharacterSelect,
    QuitConfirm,
}

impl Default for MenuSubScreen {
    fn default() -> (s: Self)
        ensures
            s == MenuSubScreen::NoOverlay,
    {
        MenuSubScreen::NoOverlay
    }
}

// ── Shutdown handshake ──────────────────────────────────────────────────

/// Stages of closing the game: a close is requested, then finalized.
#[derive(Debug, Clone, Copy, PartialEq, Eq, Structural)]
pub enum ShutdownStage {
    Idle,
    Requested,
    Finalizing,
}

impl ShutdownStage {
    /// Position of a stage in the order `Idle < Requested < Finalizing`.
    pub open spec fn rank(self) -> int {
        match self {
            ShutdownStage::Idle => 0,
            ShutdownStage::Requested => 1,
            ShutdownStage::Finalizing => 2,
        }
    }
}

/// The stage after a close request: only an idle flow moves on.
pub open spec fn requested_stage(s: ShutdownStage) -> ShutdownStage {
    if s == ShutdownStage::Idle {
        ShutdownStage::Requested
    } else {
        s
    }
}

/// The stage after finalizing: only a requested close moves on.
pub open spec fn finalized_stage(s: ShutdownStage) -> ShutdownStage {
    if s == ShutdownStage::Requested {
        ShutdownStage::Finalizing
    } else {
        s
    }
}

impl Default for ShutdownStage {
    fn default() -> (s: Self)
        ensures
            s == ShutdownStage::Idle,
    {
        ShutdownStage::Idle
    }
}

/// The shutdown handshake between the quit dialog and the main loop.
#[derive(Debug, Clone, Copy, PartialEq, Eq, Structural)]
pub struct ShutdownFlow {
    pub stage: ShutdownStage,
}

impl Default for ShutdownFlow {
    fn default() -> (f: Self)
        ensures
            f.stage == ShutdownStage::Idle,
    {
        ShutdownFlow { stage: ShutdownStage::Idle }
    }
}

impl ShutdownFlow {
    /// Asks to close the game; only an idle flow moves to `Requested`.
    pub fn request_close(&mut self)
        ensures
            final(self).stage == requested_stage(old(self).stage),
    {
        if self.stage == ShutdownStage::Idle {
            self.stage = ShutdownStage::Requested;
        }
    }

    /// Moves a requested close on to `Finalizing`; any other stage stays.
    pub fn mark_finalizing(&mut self)
        ensures
            final(self).stage == finalized_stage(old(self).stage),
    {
        if self.stage == ShutdownStage::Requested {
            self.stage = ShutdownStage::Finalizing;
        }
    }

    /// A shutdown is under way once any close was requested.
    pub fn is_active(&self) -> (b: bool)
        ensures
            b == (self.stage != ShutdownStage::Idle),
    {
        self.stage != ShutdownStage::Idle
    }
}

// ── Settings ────────────────────────────────────────────────────────────

/// Volume and speed sliders of the options panel (each on a 0..=10 scale).
#[derive(Debug, Clone)]
pub struct GameSettings {
    pub master_volume: u8,
    pub music_volume: u8,
    pub effects_volume: u8,
    pub game_speed: u8,
    /// Which row is focused in the options panel (0 = master, 1 = music, 2 = effects, 3 = speed)
    pub focused_row: usize,
}

impl Default for GameSettings {
    fn default() -> (s: Self)
        ensures
            s.master_volume == 5,
            s.music_volume == 10,
            s.effects_volume == 10,
            s.game_speed == 5,
            s.focused_row == 0,
    {
        GameSettings {
            master_volume: 5,
            music_volume: 10,
            effects_volume: 10,
            game_speed: 5,
            focused_row: 0,
        }
    }
}

/// Number of rows in the options panel.
pub const SETTINGS_ROWS: usize = 4;

/// Highest value of a slider.
pub const SLIDER_MAX: u8 = 10;

/// Lowest value of the slider on `row`: the speed row never goes below 1, so
/// the game cannot be brought to a standstill; the volumes go down to 0.
pub open spec fn slider_min(row: nat) -> u8 {
    if row == 3 {
        1
    } else {
        0
    }
}

/// A slider moved one step left and/or right, within its bounds.
pub open spec fn slider_after(v: u8, lo: u8, left: bool, right: bool) -> u8 {
    let v1: u8 = if left && v > lo {
        (v - 1) as u8
    } else {
        v
    };
    if right && v1 < SLIDER_MAX {
        (v1 + 1) as u8
    } else {
        v1
    }
}

/// The options panel after a frame's presses: up and down move the focused
/// row within the four rows, left and right move the focused slider.
pub open spec fn settings_after(s: GameSettings, e: RemoteButtons) -> GameSettings {
    let r1: usize = if e.up && s.focused_row > 0 {
        (s.focused_row - 1) as usize
    } else {
        s.focused_row
    };
    let row: usize = if e.down && r1 + 1 < SETTINGS_ROWS {
        (r1 + 1) as usize
    } else {
        r1
    };
    GameSettings {
        master_volume: if row == 0 {
            slider_after(s.master_volume, slider_min(0), e.left, e.right)
        } else {
            s.master_volume
        },
        music_volume: if row == 1 {
            slider_after(s.music_volume, slider_min(1), e.left, e.right)
        } else {
            s.music_volume
        },
        effects_volume: if row == 2 {
            slider_after(s.effects_volume, slider_min(2), e.left, e.right)
        } else {
            s.effects_volume
        },
        game_speed: if row == 3 {
            slider_after(s.game_speed, slider_min(3), e.left, e.right)
        } else {
            s.game_speed
        },
        focused_row: row,
    }
}

fn slider_step(v: u8, lo: u8, left: bool, right: bool) -> (r: u8)
    ensures
        r == slider_after(v, lo, left, right),
{
    let mut r = v;
    if left && r > lo {
        r -= 1;
    }
    if right && r < SLIDER_MAX {
        r += 1;
    }
    r
}

impl GameSettings {
    /// The music volume heard: the lower of the master and music sliders.
    pub fn music_level(&self) -> (v: u8)
        ensures
            v == if self.master_volume <= self.music_volume {
                self.master_volume
            } else {
                self.music_volume
            },
    {
        if self.master_volume <= self.music_volume {
            self.master_volume
        } else {
            self.music_volume
        }
    }

    /// The sound-effects volume heard: the lower of the master and effects sliders.
    pub fn effects_level(&self) -> (v: u8)
        ensures
            v == if self.master_volume <= self.effects_volume {
                self.master_volume
            } else {
                self.effects_volume
            },
    {
        if self.master_volume <= self.effects_volume {
            self.master_volume
        } else {
            self.effects_volume
        }
    }

    /// Applies a frame's presses to the options panel; returns whether Back
    /// was pressed, which closes the panel.
    pub fn handle_options_input(&mut self, input: &TvInput) -> (close: bool)
        ensures
            *final(self) == settings_after(*old(self), pressed_edges(input@)),
            close == pressed_edges(input@).back,
    {
        if input.is_up_just_pressed() && self.focused_row > 0 {
            self.focused_row -= 1;
        }
        if input.is_down_just_pressed() && self.focused_row < SETTINGS_ROWS - 1 {
            self.focused_row += 1;
        }
        let left = input.is_left_just_pressed();
        let right = input.is_right_just_pressed();
        if self.focused_row == 0 {
            self.master_volume = slider_step(self.master_volume, 0, left, right);
        } else if self.focused_row == 1 {
            self.music_volume = slider_step(self.music_volume, 0, left, right);
        } else if self.focused_row == 2 {
            self.effects_volume = slider_step(self.effects_volume, 0, left, right);
        } else if self.focused_row == 3 {
            self.game_speed = slider_step(self.game_speed, 1, left, right);
        }
        input.is_back_just_pressed()
    }
}

// ── Characters ──────────────────────────────────────────────────────────

/// The five playable characters, in carousel order.
#[derive(Debug, Clone, Copy, PartialEq, Eq, Structural)]
pub enum CharacterChoice {
    Oodi,
    Ooli,
    Oozi,
    Oopi,
    Oobi,
}

/// Number of playable characters.
pub const CHARACTER_COUNT: usize = 5;

/// Position of a character in the carousel.
pub open spec fn character_index(c: CharacterChoice) -> nat {
    match c {
        CharacterChoice::Oodi => 0,
        CharacterChoice::Ooli => 1,
        CharacterChoice::Oozi => 2,
        CharacterChoice::Oopi => 3,
        CharacterChoice::Oobi => 4,
    }
}

/// The character at carousel position `i`, counted modulo the carousel size.
pub open spec fn character_at(i: nat) -> CharacterChoice {
    let k = i % 5;
    if k == 0 {
        CharacterChoice::Oodi
    } else if k == 1 {
        CharacterChoice::Ooli
    } else if k == 2 {
        CharacterChoice::Oozi
    } else if k == 3 {
        CharacterChoice::Oopi
    } else {
        CharacterChoice::Oobi
    }
}

/// The key under which the character's mesh is loaded.
pub open spec fn mesh_key_of(c: CharacterChoice) -> Seq<char> {
    match c {
        CharacterChoice::Oodi => "char_oodi"@,
        CharacterChoice::Ooli => "char_ooli"@,
        CharacterChoice::Oozi => "char_oozi"@,
        CharacterChoice::Oopi => "char_oopi"@,
        CharacterChoice::Oobi => "char_oobi"@,
    }
}

/// The name shown under the character preview.
pub open spec fn display_name_of(c: CharacterChoice) -> Seq<char> {
    match c {
        CharacterChoice::Oodi => "OODI"@,
        CharacterChoice::Ooli => "OOLI"@,
        CharacterChoice::Oozi => "OOZI"@,
        CharacterChoice::Oopi => "OOPI"@,
        CharacterChoice::Oobi => "OOBI"@,
    }
}

impl Default for CharacterChoice {
    fn default() -> (c: Self)
        ensures
            c == CharacterChoice::Oodi,
    {
        CharacterChoice::Oodi
    }
}

impl CharacterChoice {
    pub fn mesh_key(&self) -> (k: &'static str)
        ensures
            k@ == mesh_key_of(*self),
    {
        match self {
            CharacterChoice::Oodi => "char_oodi",
            CharacterChoice::Ooli => "char_ooli",
            CharacterChoice::Oozi => "char_oozi",
            CharacterChoice::Oopi => "char_oopi",
            CharacterChoice::Oobi => "char_oobi",
        }
    }

    pub fn display_name(&self) -> (n: &'static str)
        ensures
            n@ == display_name_of(*self),
    {
        match self {
            CharacterChoice::Oodi => "OODI",
            CharacterChoice::Ooli => "OOLI",
            CharacterChoice::Oozi => "OOZI",
            CharacterChoice::Oopi => "OOPI",
            CharacterChoice::Oobi => "OOBI",
        }
    }

    /// Position of this character in the carousel.
    pub fn index(&self) -> (i: usize)
        ensures
            i == character_index(*self),
    {
        match self {
            CharacterChoice::Oodi => 0,
            CharacterChoice::Ooli => 1,
            CharacterChoice::Oozi => 2,
            CharacterChoice::Oopi => 3,
            CharacterChoice::Oobi => 4,
        }
    }

    /// The character at position `i`, wrapping around the carousel.
    pub fn from_index(i: usize) -> (c: Self)
        ensures
            c == character_at(i as nat),
            character_index(c) == i % 5,
    {
        let k: usize = i % CHARACTER_COUNT;
        if k == 0 {
            CharacterChoice::Oodi
        } else if k == 1 {
            CharacterChoice::Ooli
        } else if k == 2 {
            CharacterChoice::Oozi
        } else if k == 3 {
            CharacterChoice::Oopi
        } else {
            CharacterChoice::Oobi
        }
    }

    /// The following character, wrapping from the last to the first.
    pub fn next(&self) -> (c: Self)
        ensures
            c == character_at(character_index(*self) + 1),
    {
        Self::from_index(self.index() + 1)
    }

    /// The preceding character, wrapping from the first to the last.
    pub fn prev(&self) -> (c: Self)
        ensures
            c == character_at((character_index(*self) + 4) as nat),
    {
        let idx = self.index();
        if idx == 0 {
            Self::from_index(CHARACTER_COUNT - 1)
        } else {
            Self::from_index(idx - 1)
        }
    }
}

// ── Menus ───────────────────────────────────────────────────────────────

#[derive(Debug, Clone, Copy, PartialEq, Eq, Structural)]
pub enum MenuOption {
    Play,
    HowToPlay,
    Options,
    Quit,
}

#[derive(Debug, Clone, Copy, PartialEq, Eq, Structural)]
pub enum PauseOption {
    Resume,
    Restart,
    Options,
    Quit,
}

#[derive(Debug, Clone, Copy, PartialEq, Eq, Structural)]
pub enum GameOverOption {
    Restart,
    Quit,
}

impl Default for MenuOption {
    fn default() -> (o: Self)
        ensures
            o == MenuOption::Play,
    {
        MenuOption::Play
    }
}

impl Default for PauseOption {
    fn default() -> (o: Self)
        ensures
            o == PauseOption::Resume,
    {
        PauseOption::Resume
    }
}

impl Default for GameOverOption {
    fn default() -> (o: Self)
        ensures
            o == GameOverOption::Restart,
    {
        GameOverOption::Restart
    }
}

/// A vertical list of options with one selected row.
pub struct MenuNavigator<T> {
    pub options: Vec<T>,
    pub selected: usize,
}

/// The selection after moving up: one row up, stopping at the top.
pub open spec fn selection_after_up(selected: nat) -> nat {
    if selected > 0 {
        (selected - 1) as nat
    } else {
        selected
    }
}

/// The selection after moving down: one row down, stopping at the last row.
pub open spec fn selection_after_down(selected: nat, len: nat) -> nat {
    if selected + 1 < len {
        selected + 1
    } else {
        selected
    }
}

impl<T> MenuNavigator<T> {
    pub fn new(options: Vec<T>) -> (m: Self)
        ensures
            m.options@ == options@,
            m.selected == 0,
    {
        MenuNavigator { options, selected: 0 }
    }

    pub fn up(&mut self)
        ensures
            final(self).options@ == old(self).options@,
            final(self).selected == selection_after_up(old(self).selected as nat),
    {
        if self.selected > 0 {
            self.selected -= 1;
        }
    }

    pub fn down(&mut self)
        requires
            old(self).options.len() > 0,
        ensures
            final(self).options@ == old(self).options@,
            final(self).selected == selection_after_down(
                old(self).selected as nat,
                old(self).options.len() as nat,
            ),
    {
        if self.selected < self.options.len() - 1 {
            self.selected += 1;
        }
    }

    pub fn current(&self) -> (o: &T)
        requires
            self.selected < self.options.len(),
        ensures
            *o == self.options@[self.selected as int],
    {
        &self.options[self.selected]
    }
}

impl MenuNavigator<MenuOption> {
    pub fn main_menu() -> (m: Self)
        ensures
            m.options@ == seq![
                MenuOption::Play,
                MenuOption::HowToPlay,
                MenuOption::Options,
                MenuOption::Quit,
            ],
            m.selected == 0,
    {
        Self::new(vec![MenuOption::Play, MenuOption::HowToPlay, MenuOption::Options, MenuOption::Quit])
    }
}

impl MenuNavigator<PauseOption> {
    pub fn pause_menu() -> (m: Self)
        ensures
            m.options@ == seq![
                PauseOption::Resume,
                PauseOption::Restart,
                PauseOption::Options,
                PauseOption::Quit,
            ],
            m.selected == 0,
    {
        Self::new(vec![PauseOption::Resume, PauseOption::Restart, PauseOption::Options, PauseOption::Quit])
    }
}

impl MenuNavigator<GameOverOption> {
    pub fn game_over_menu() -> (m: Self)
        ensures
            m.options@ == seq![GameOverOption::Restart, GameOverOption::Quit],
            m.selected == 0,
    {
        Self::new(vec![GameOverOption::Restart, GameOverOption::Quit])
    }
}

// ── Lifetime statistics ─────────────────────────────────────────────────

/// Totals kept across runs: best score, coins, stars and distance.
#[derive(Debug, Clone, Copy, PartialEq, Eq, Structural)]
pub struct LifetimeStats {
    pub high_score: u32,
    pub total_coins: u32,
    pub total_stars: u32,
    pub total_distance: u32,
}

/// A total grown by `n`, held at the largest `u32` rather than wrapping.
pub open spec fn saturated_sum(total: u32, n: u32) -> u32 {
    if total + n > u32::MAX {
        u32::MAX
    } else {
        (total + n) as u32
    }
}

/// The statistics after a finished run: the best score is kept, and the run's
/// coins, stars and distance are added to the totals.
pub open spec fn stats_after_run(s: LifetimeStats, score: u32, coins: u32, stars: u32, distance: u32) -> LifetimeStats {
    LifetimeStats {
        high_score: if score > s.high_score {
            score
        } else {
            s.high_score
        },
        total_coins: saturated_sum(s.total_coins, coins),
        total_stars: saturated_sum(s.total_stars, stars),
        total_distance: saturated_sum(s.total_distance, distance),
    }
}

fn saturating_sum(total: u32, n: u32) -> (r: u32)
    ensures
        r == saturated_sum(total, n),
{
    if total > u32::MAX - n {
        u32::MAX
    } else {
        total + n
    }
}

impl LifetimeStats {
    /// Records a finished run.
    pub fn record_run(&mut self, score: u32, coins: u32, stars: u32, distance: u32)
        ensures
            *final(self) == stats_after_run(*old(self), score, coins, stars, distance),
    {
        if score > self.high_score {
            self.high_score = score;
        }
        self.total_coins = saturating_sum(self.total_coins, coins);
        self.total_stars = saturating_sum(self.total_stars, stars);
        self.total_distance = saturating_sum(self.total_distance, distance);
    }
}

impl Default for LifetimeStats {
    fn default() -> (s: Self)
        ensures
            s == (LifetimeStats { high_score: 0, total_coins: 0, total_stars: 0, total_distance: 0 }),
    {
        LifetimeStats { high_score: 0, total_coins: 0, total_stars: 0, total_distance: 0 }
    }
}

// ── Laws ────────────────────────────────────────────────────────────────

/// A second close request changes nothing: requesting a close is idempotent.
pub proof fn lemma_request_close_idempotent(s: ShutdownStage)
    ensures
        requested_stage(requested_stage(s)) == requested_stage(s),
{
}

/// The shutdown flow only moves forward, one stage at a time, and a running
/// shutdown never becomes idle again.
pub proof fn lemma_shutdown_moves_forward(s: ShutdownStage)
    ensures
        s.rank() <= requested_stage(s).rank() <= s.rank() + 1,
        s.rank() <= finalized_stage(s).rank() <= s.rank() + 1,
        s != ShutdownStage::Idle ==> requested_stage(s) != ShutdownStage::Idle,
        s != ShutdownStage::Idle ==> finalized_stage(s) != ShutdownStage::Idle,
{
}

/// The shutdown runs in order: finalizing without a request does nothing, and
/// a request followed by finalizing reaches the last stage.
pub proof fn lemma_shutdown_in_order()
    ensures
        finalized_stage(ShutdownStage::Idle) == ShutdownStage::Idle,
        finalized_stage(requested_stage(ShutdownStage::Idle)) == ShutdownStage::Finalizing,
{
}

/// Pausing a running game and resuming it returns to play; pausing twice is
/// the same as pausing once; menus and the game-over screen ignore both.
pub proof fn lemma_pause_resume(s: GameScreen)
    ensures
        s == GameScreen::Playing ==> resumed_screen(paused_screen(s)) == GameScreen::Playing,
        paused_screen(paused_screen(s)) == paused_screen(s),
        resumed_screen(resumed_screen(s)) == resumed_screen(s),
        (s == GameScreen::MainMenu || s == GameScreen::GameOver) ==> paused_screen(s) == s
            && resumed_screen(s) == s,
{
}

/// Browsing the carousel: next and previous undo each other, position and
/// lookup agree, and five steps forward come back to the same character.
pub proof fn lemma_character_carousel(c: CharacterChoice)
    ensures
        character_at(character_index(c)) == c,
        character_at((character_index(character_at(character_index(c) + 1)) + 4) as nat) == c,
        character_at(character_index(character_at((character_index(c) + 4) as nat)) + 1) == c,
        character_at(character_index(c) + 5) == c,
        character_index(c) < 5,
{
}

/// The carousel counts positions round its five characters.
pub proof fn lemma_character_at_index(i: nat)
    ensures
        character_index(character_at(i)) == i % 5,
{
}

/// The options panel keeps its focus on one of the four rows and every slider
/// within its bounds.
pub proof fn lemma_settings_stay_in_range(s: GameSettings, e: RemoteButtons)
    requires
        s.focused_row < SETTINGS_ROWS,
        s.master_volume <= SLIDER_MAX,
        s.music_volume <= SLIDER_MAX,
        s.effects_volume <= SLIDER_MAX,
        1 <= s.game_speed <= SLIDER_MAX,
    ensures
        settings_after(s, e).focused_row < SETTINGS_ROWS,
        settings_after(s, e).master_volume <= SLIDER_MAX,
        settings_after(s, e).music_volume <= SLIDER_MAX,
        settings_after(s, e).effects_volume <= SLIDER_MAX,
        1 <= settings_after(s, e).game_speed <= SLIDER_MAX,
{
}

/// Lifetime statistics only grow: the high score is the best score of any run
/// recorded, and no total ever decreases.
pub proof fn lemma_lifetime_stats_grow(s: LifetimeStats, score: u32, coins: u32, stars: u32, distance: u32)
    ensures
        stats_after_run(s, score, coins, stars, distance).high_score >= s.high_score,
        stats_after_run(s, score, coins, stars, distance).high_score >= score,
        stats_after_run(s, score, coins, stars, distance).high_score == score
            || stats_after_run(s, score, coins, stars, distance).high_score == s.high_score,
        stats_after_run(s, score, coins, stars, distance).total_coins >= s.total_coins,
        stats_after_run(s, score, coins, stars, distance).total_stars >= s.total_stars,
        stats_after_run(s, score, coins, stars, distance).total_distance >= s.total_distance,
        s.total_coins + coins <= u32::MAX ==> stats_after_run(s, score, coins, stars, distance).total_coins
            == s.total_coins + coins,
{
}

/// Every finished run counts in full, whatever its score: its coins, stars and
/// distance are added to the totals (a total that would pass the largest
/// `u32` stays there), and the high score becomes the larger of the old one
/// and the run's.
pub proof fn lemma_every_run_adds_its_totals(s: LifetimeStats, score: u32, coins: u32, stars: u32, distance: u32)
    ensures
        s.total_coins + coins <= u32::MAX ==> stats_after_run(s, score, coins, stars, distance).total_coins
            == s.total_coins + coins,
        s.total_stars + stars <= u32::MAX ==> stats_after_run(s, score, coins, stars, distance).total_stars
            == s.total_stars + stars,
        s.total_distance + distance <= u32::MAX ==> stats_after_run(s, score, coins, stars, distance).total_distance
            == s.total_distance + distance,
        s.total_coins + coins > u32::MAX ==> stats_after_run(s, score, coins, stars, distance).total_coins
            == u32::MAX,
        s.total_stars + stars > u32::MAX ==> stats_after_run(s, score, coins, stars, distance).total_stars
            == u32::MAX,
        s.total_distance + distance > u32::MAX ==> stats_after_run(s, score, coins, stars, distance).total_distance
            == u32::MAX,
        score <= s.high_score ==> stats_after_run(s, score, coins, stars, distance).high_score == s.high_score,
        score > s.high_score ==> stats_after_run(s, score, coins, stars, distance).high_score == score,
{
}

/// On the options panel Up and Down move the focus one row, within the four
/// rows; Left lowers and Right raises the focused slider by one step, within
/// its bounds (0 to 10, the speed 1 to 10), on every row alike; the sliders
/// of the other rows keep their values.
pub proof fn lemma_options_sliders(s: GameSettings, e: RemoteButtons)
    requires
        s.focused_row < SETTINGS_ROWS,
    ensures
        ({
            let t = settings_after(s, e);
            &&& (e.up && !e.down) ==> t.focused_row == if s.focused_row > 0 {
                s.focused_row - 1
            } else {
                0
            }
            &&& (e.down && !e.up) ==> t.focused_row == if s.focused_row < 3 {
                s.focused_row + 1
            } else {
                3
            }
            &&& (!e.up && !e.down) ==> t.focused_row == s.focused_row
            &&& t.focused_row != 0 ==> t.master_volume == s.master_volume
            &&& t.focused_row != 1 ==> t.music_volume == s.music_volume
            &&& t.focused_row != 2 ==> t.effects_volume == s.effects_volume
            &&& t.focused_row != 3 ==> t.game_speed == s.game_speed
            &&& (e.left && !e.right) ==> {
                &&& t.master_volume <= s.master_volume
                &&& t.music_volume <= s.music_volume
                &&& t.effects_volume <= s.effects_volume
                &&& t.game_speed <= s.game_speed
                &&& (t.focused_row == 0 && s.master_volume > 0) ==> t.master_volume == s.master_volume - 1
                &&& (t.focused_row == 1 && s.music_volume > 0) ==> t.music_volume == s.music_volume - 1
                &&& (t.focused_row == 2 && s.effects_volume > 0) ==> t.effects_volume == s.effects_volume - 1
                &&& (t.focused_row == 3 && s.game_speed > 1) ==> t.game_speed == s.game_speed - 1
                &&& (t.focused_row == 3 && s.game_speed <= 1) ==> t.game_speed == s.game_speed
            }
            &&& (e.right && !e.left) ==> {
                &&& t.master_volume >= s.master_volume
                &&& t.music_volume >= s.music_volume
                &&& t.effects_volume >= s.effects_volume
                &&& t.game_speed >= s.game_speed
                &&& (t.focused_row == 0 && s.master_volume < 10) ==> t.master_volume == s.master_volume + 1
                &&& (t.focused_row == 1 && s.music_volume < 10) ==> t.music_volume == s.music_volume + 1
                &&& (t.focused_row == 2 && s.effects_volume < 10) ==> t.effects_volume == s.effects_volume + 1
                &&& (t.focused_row == 3 && s.game_speed < 10) ==> t.game_speed == s.game_speed + 1
                &&& (t.focused_row == 0 && s.master_volume >= 10) ==> t.master_volume == s.master_volume
                &&& (t.focused_row == 1 && s.music_volume >= 10) ==> t.music_volume == s.music_volume
                &&& (t.focused_row == 2 && s.effects_volume >= 10) ==> t.effects_volume == s.effects_volume
                &&& (t.focused_row == 3 && s.game_speed >= 10) ==> t.game_speed == s.game_speed
            }
            &&& (!e.left && !e.right) ==> (t.master_volume == s.master_volume && t.music_volume
                == s.music_volume && t.effects_volume == s.effects_volume && t.game_speed == s.game_speed)
        }),
{
}

/// Moving the selection keeps it on one of the rows, and moving down then up
/// returns to the row one started from unless it was already the last.
pub proof fn lemma_menu_selection_in_bounds(selected: nat, len: nat)
    requires
        selected < len,
    ensures
        selection_after_up(selected) < len,
        selection_after_down(selected, len) < len,
        selected + 1 < len ==> selection_after_up(selection_after_down(selected, len)) == selected,
        selected > 0 ==> selection_after_down(selection_after_up(selected), len) == selected,
{
}

} // verus!
