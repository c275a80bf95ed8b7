//! What the menus do with the remote: the main menu with its overlays, the
//! pause menu and the game-over menu. Each frame the main loop hands the
//! controller the input of the screen being shown; the controller updates the
//! menus and tells the loop which game action to carry out.

use vstd::prelude::*;
use crate::input::tv_input::{pressed_edges, RemoteButtons, TvInput};
use super::state::{
    character_at, character_index, lemma_character_at_index, requested_stage, selection_after_down, selection_after_up,
    settings_after, CharacterChoice, GameOverOption, GameSettings, MenuNavigator, MenuOption,
    MenuSubScreen, PauseOption, ShutdownFlow, ShutdownStage,
};

verus! {

/// The game action a menu asks the main loop to carry out.
#[derive(Debug, Clone, Copy, PartialEq, Eq, Structural)]
pub enum MenuCommand {
    /// Nothing beyond the menu's own change.
    Stay,
    /// Start a run with the chosen character (from the main menu).
    StartGame,
    /// Start a new run (from the pause or game-over menu).
    RestartGame,
    /// Continue the paused run.
    ResumeGame,
    /// Leave the run for the main menu.
    ReturnToMenu,
}

/// The moves a frame's presses ask for during a run.
#[derive(Debug, Clone, Copy, PartialEq, Eq, Structural)]
pub struct PlayCommands {
    pub lane_left: bool,
    pub lane_right: bool,
    pub jump: bool,
    pub slide: bool,
    pub pause: bool,
}

/// During a run Left and Right change lane, Up jumps, Down slides and Back pauses.
pub fn play_commands(input: &TvInput) -> (c: PlayCommands)
    ensures
        c == (PlayCommands {
            lane_left: pressed_edges(input@).left,
            lane_right: pressed_edges(input@).right,
            jump: pressed_edges(input@).up,
            slide: pressed_edges(input@).down,
            pause: pressed_edges(input@).back,
        }),
{
    PlayCommands {
        lane_left: input.is_left_just_pressed(),
        lane_right: input.is_right_just_pressed(),
        jump: input.is_up_just_pressed(),
        slide: input.is_down_just_pressed(),
        pause: input.is_back_just_pressed(),
    }
}

/// The state of the menus.
pub struct MenuModel {
    pub sub_screen: MenuSubScreen,
    pub menu_selected: nat,
    pub pause_selected: nat,
    pub gameover_selected: nat,
    pub settings: GameSettings,
    pub character: CharacterChoice,
    /// The SELECT CHARACTER button, right of the main buttons, has the focus.
    pub select_char_focused: bool,
    /// In the quit dialog, CLOSE GAME (rather than CONTINUE PLAYING) has the focus.
    pub quit_close_focused: bool,
    pub shutdown: ShutdownStage,
}

pub open spec fn main_options() -> Seq<MenuOption> {
    seq![MenuOption::Play, MenuOption::HowToPlay, MenuOption::Options, MenuOption::Quit]
}

pub open spec fn pause_options() -> Seq<PauseOption> {
    seq![PauseOption::Resume, PauseOption::Restart, PauseOption::Options, PauseOption::Quit]
}

pub open spec fn game_over_options() -> Seq<GameOverOption> {
    seq![GameOverOption::Restart, GameOverOption::Quit]
}

/// The selection after a frame's Up and Down presses, in a list of `len` rows.
pub open spec fn moved_selection(sel: nat, len: nat, e: RemoteButtons) -> nat {
    let s1 = if e.up {
        selection_after_up(sel)
    } else {
        sel
    };
    if e.down {
        selection_after_down(s1, len)
    } else {
        s1
    }
}

/// Every list has its rows and a selection on one of them.
pub open spec fn model_wf(m: MenuModel) -> bool {
    &&& m.menu_selected < 4
    &&& m.pause_selected < 4
    &&& m.gameover_selected < 2
}

/// The main menu with no overlay and the list of buttons focused.
pub open spec fn main_buttons_next(m: MenuModel, e: RemoteButtons) -> (MenuModel, MenuCommand) {
    let sel = moved_selection(m.menu_selected, 4, e);
    let m1 = MenuModel { menu_selected: sel, ..m };
    let opt = main_options()[sel as int];
    let (m2, cmd) = if e.action {
        if opt == MenuOption::Play {
            (MenuModel { menu_selected: 0, ..m1 }, MenuCommand::StartGame)
        } else if opt == MenuOption::HowToPlay {
            (MenuModel { sub_screen: MenuSubScreen::HowToPlay, ..m1 }, MenuCommand::Stay)
        } else if opt == MenuOption::Options {
            (MenuModel { sub_screen: MenuSubScreen::Options, ..m1 }, MenuCommand::Stay)
        } else {
            (
                MenuModel { quit_close_focused: false, sub_screen: MenuSubScreen::QuitConfirm, ..m1 },
                MenuCommand::Stay,
            )
        }
    } else {
        (m1, MenuCommand::Stay)
    };
    let m3 = if e.back {
        MenuModel { quit_close_focused: false, sub_screen: MenuSubScreen::QuitConfirm, ..m2 }
    } else {
        m2
    };
    let m4 = if e.right {
        MenuModel { select_char_focused: true, ..m3 }
    } else {
        m3
    };
    (m4, cmd)
}

/// The main menu with no overlay and SELECT CHARACTER focused: Action opens
/// the character overlay, Left or Back returns the focus to the buttons.
pub open spec fn select_button_next(m: MenuModel, e: RemoteButtons) -> MenuModel {
    let m1 = if e.action {
        MenuModel { sub_screen: MenuSubScreen::CharacterSelect, select_char_focused: false, ..m }
    } else {
        m
    };
    if e.left || e.back {
        MenuModel { select_char_focused: false, ..m1 }
    } else {
        m1
    }
}

/// The character overlay: Back or Action closes it, Left and Right browse.
pub open spec fn character_select_next(m: MenuModel, e: RemoteButtons) -> MenuModel {
    let sub = if e.back || e.action {
        MenuSubScreen::NoOverlay
    } else {
        m.sub_screen
    };
    let c1 = if e.left {
        character_at((character_index(m.character) + 4) as nat)
    } else {
        m.character
    };
    let c2 = if e.right {
        character_at(character_index(c1) + 1)
    } else {
        c1
    };
    MenuModel { sub_screen: sub, character: c2, ..m }
}

/// The quit dialog: Back closes it, any arrow moves the focus between its two
/// buttons, Action presses the focused one.
pub open spec fn quit_confirm_next(m: MenuModel, e: RemoteButtons) -> MenuModel {
    let m1 = if e.back {
        MenuModel { sub_screen: MenuSubScreen::NoOverlay, ..m }
    } else {
        m
    };
    let focused = if e.left || e.right || e.up || e.down {
        !m.quit_close_focused
    } else {
        m.quit_close_focused
    };
    let m2 = MenuModel { quit_close_focused: focused, ..m1 };
    if e.action {
        if focused {
            MenuModel { shutdown: requested_stage(m.shutdown), ..m2 }
        } else {
            MenuModel { sub_screen: MenuSubScreen::NoOverlay, ..m2 }
        }
    } else {
        m2
    }
}

/// The options overlay: the panel takes the presses and Back closes it.
pub open spec fn options_next(m: MenuModel, e: RemoteButtons) -> MenuModel {
    MenuModel {
        settings: settings_after(m.settings, e),
        sub_screen: if e.back {
            MenuSubScreen::NoOverlay
        } else {
            m.sub_screen
        },
        ..m
    }
}

/// A frame of the main menu.
pub open spec fn main_menu_next(m: MenuModel, e: RemoteButtons) -> (MenuModel, MenuCommand) {
    match m.sub_screen {
        MenuSubScreen::NoOverlay => if m.select_char_focused {
            (select_button_next(m, e), MenuCommand::Stay)
        } else {
            main_buttons_next(m, e)
        },
        MenuSubScreen::HowToPlay => (
            if e.action || e.back {
                MenuModel { sub_screen: MenuSubScreen::NoOverlay, ..m }
            } else {
                m
            },
            MenuCommand::Stay,
        ),
        MenuSubScreen::Options => (options_next(m, e), MenuCommand::Stay),
        MenuSubScreen::CharacterSelect => (character_select_next(m, e), MenuCommand::Stay),
        MenuSubScreen::QuitConfirm => (quit_confirm_next(m, e), MenuCommand::Stay),
    }
}

/// A frame of the pause menu (or of the options panel opened from it).
pub open spec fn paused_next(m: MenuModel, e: RemoteButtons) -> (MenuModel, MenuCommand) {
    if m.sub_screen == MenuSubScreen::Options {
        (options_next(m, e), MenuCommand::Stay)
    } else {
        let sel = moved_selection(m.pause_selected, 4, e);
        let m1 = MenuModel { pause_selected: sel, ..m };
        let opt = pause_options()[sel as int];
        if !e.action {
            (m1, MenuCommand::Stay)
        } else if opt == PauseOption::Resume {
            (m1, MenuCommand::ResumeGame)
        } else if opt == PauseOption::Restart {
            (MenuModel { pause_selected: 0, ..m1 }, MenuCommand::RestartGame)
        } else if opt == PauseOption::Options {
            (MenuModel { sub_screen: MenuSubScreen::Options, ..m1 }, MenuCommand::Stay)
        } else {
            (MenuModel { menu_selected: 0, ..m1 }, MenuCommand::ReturnToMenu)
        }
    }
}

/// A frame of the game-over menu.
pub open spec fn game_over_next(m: MenuModel, e: RemoteButtons) -> (MenuModel, MenuCommand) {
    let sel = moved_selection(m.gameover_selected, 2, e);
    let m1 = MenuModel { gameover_selected: sel, ..m };
    let opt = game_over_options()[sel as int];
    if !e.action {
        (m1, MenuCommand::Stay)
    } else if opt == GameOverOption::Restart {
        (MenuModel { gameover_selected: 0, ..m1 }, MenuCommand::RestartGame)
    } else {
        (MenuModel { menu_selected: 0, ..m1 }, MenuCommand::ReturnToMenu)
    }
}

/// The menus of the game and the shutdown handshake.
pub struct MenuController {
    sub_screen: MenuSubScreen,
    menu_nav: MenuNavigator<MenuOption>,
    pause_nav: MenuNavigator<PauseOption>,
    gameover_nav: MenuNavigator<GameOverOption>,
    settings: GameSettings,
    character: CharacterChoice,
    select_char_focused: bool,
    quit_close_focused: bool,
    shutdown: ShutdownFlow,
}

impl View for MenuController {
    type V = MenuModel;

    closed spec fn view(&self) -> MenuModel {
        MenuModel {
            sub_screen: self.sub_screen,
            menu_selected: self.menu_nav.selected as nat,
            pause_selected: self.pause_nav.selected as nat,
            gameover_selected: self.gameover_nav.selected as nat,
            settings: self.settings,
            character: self.character,
            select_char_focused: self.select_char_focused,
            quit_close_focused: self.quit_close_focused,
            shutdown: self.shutdown.stage,
        }
    }
}

impl MenuController {
    /// The three lists hold their fixed options and every selection is on a row.
    pub closed spec fn wf(&self) -> bool {
        &&& self.menu_nav.options@ == main_options()
        &&& self.pause_nav.options@ == pause_options()
        &&& self.gameover_nav.options@ == game_over_options()
        &&& model_wf(self@)
    }

    /// A valid controller's selections are each on one of their rows.
    pub proof fn lemma_wf_model(&self)
        requires
            self.wf(),
        ensures
            model_wf(self@),
    {
    }

    /// The menus at start-up: main menu with PLAY selected, default settings
    /// and character, no overlay, no shutdown.
    pub fn new() -> (c: Self)
        ensures
            c.wf(),
            c@.sub_screen == MenuSubScreen::NoOverlay,
            c@.menu_selected == 0,
            c@.pause_selected == 0,
            c@.gameover_selected == 0,
            c@.character == CharacterChoice::Oodi,
            !c@.select_char_focused,
            !c@.quit_close_focused,
            c@.shutdown == ShutdownStage::Idle,
            c@.settings.master_volume == 5 && c@.settings.music_volume == 10
                && c@.settings.effects_volume == 10 && c@.settings.game_speed == 5
                && c@.settings.focused_row == 0,
    {
        MenuController {
            sub_screen: MenuSubScreen::NoOverlay,
            menu_nav: MenuNavigator::main_menu(),
            pause_nav: MenuNavigator::pause_menu(),
            gameover_nav: MenuNavigator::game_over_menu(),
            settings: GameSettings::default(),
            character: CharacterChoice::Oodi,
            select_char_focused: false,
            quit_close_focused: false,
            shutdown: ShutdownFlow::default(),
        }
    }

    pub fn sub_screen(&self) -> (s: MenuSubScreen)
        ensures
            s == self@.sub_screen,
    {
        self.sub_screen
    }

    pub fn menu_nav(&self) -> (n: &MenuNavigator<MenuOption>)
        requires
            self.wf(),
        ensures
            n.options@ == main_options(),
            n.selected == self@.menu_selected,
    {
        &self.menu_nav
    }

    pub fn pause_nav(&self) -> (n: &MenuNavigator<PauseOption>)
        requires
            self.wf(),
        ensures
            n.options@ == pause_options(),
            n.selected == self@.pause_selected,
    {
        &self.pause_nav
    }

    pub fn gameover_nav(&self) -> (n: &MenuNavigator<GameOverOption>)
        requires
            self.wf(),
        ensures
            n.options@ == game_over_options(),
            n.selected == self@.gameover_selected,
    {
        &self.gameover_nav
    }

    pub fn settings(&self) -> (s: &GameSettings)
        ensures
            *s == self@.settings,
    {
        &self.settings
    }

    pub fn character(&self) -> (c: CharacterChoice)
        ensures
            c == self@.character,
    {
        self.character
    }

    pub fn select_char_focused(&self) -> (b: bool)
        ensures
            b == self@.select_char_focused,
    {
        self.select_char_focused
    }

    pub fn quit_close_focused(&self) -> (b: bool)
        ensures
            b == self@.quit_close_focused,
    {
        self.quit_close_focused
    }

    pub fn shutdown(&self) -> (f: ShutdownFlow)
        ensures
            f.stage == self@.shutdown,
    {
        self.shutdown
    }

    /// Moves a requested close on to its last stage.
    pub fn finalize_shutdown(&mut self)
        requires
            old(self).wf(),
        ensures
            final(self).wf(),
            final(self)@ == (MenuModel {
                shutdown: super::state::finalized_stage(old(self)@.shutdown),
                ..old(self)@
            }),
    {
        self.shutdown.mark_finalizing();
    }

    /// The run ended: the game-over menu opens with its first option selected.
    pub fn show_game_over(&mut self)
        requires
            old(self).wf(),
        ensures
            final(self).wf(),
            final(self)@ == (MenuModel { gameover_selected: 0, ..old(self)@ }),
    {
        self.gameover_nav = MenuNavigator::game_over_menu();
    }

    fn move_main_selection(&mut self, input: &TvInput)
        requires
            old(self).wf(),
        ensures
            final(self).wf(),
            final(self)@ == (MenuModel {
                menu_selected: moved_selection(old(self)@.menu_selected, 4, pressed_edges(input@)),
                ..old(self)@
            }),
    {
        if input.is_up_just_pressed() {
            self.menu_nav.up();
        }
        if input.is_down_just_pressed() {
            self.menu_nav.down();
        }
    }

    /// A frame of the main menu and its overlays.
    pub fn main_menu_step(&mut self, input: &TvInput) -> (c: MenuCommand)
        requires
            old(self).wf(),
        ensures
            final(self).wf(),
            (final(self)@, c) == main_menu_next(old(self)@, pressed_edges(input@)),
    {
        let mut command = MenuCommand::Stay;
        match self.sub_screen {
            MenuSubScreen::NoOverlay => {
                if self.select_char_focused {
                    if input.is_action_just_pressed() {
                        self.sub_screen = MenuSubScreen::CharacterSelect;
                        self.select_char_focused = false;
                    }
                    if input.is_left_just_pressed() || input.is_back_just_pressed() {
                        self.select_char_focused = false;
                    }
                } else {
                    self.move_main_selection(input);
                    if input.is_action_just_pressed() {
                        match self.menu_nav.current() {
                            MenuOption::Play => {
                                command = MenuCommand::StartGame;
                                self.menu_nav = MenuNavigator::main_menu();
                            },
                            MenuOption::HowToPlay => {
                                self.sub_screen = MenuSubScreen::HowToPlay;
                            },
                            MenuOption::Options => {
                                self.sub_screen = MenuSubScreen::Options;
                            },
                            MenuOption::Quit => {
                                self.quit_close_focused = false;
                                self.sub_screen = MenuSubScreen::QuitConfirm;
                            },
                        }
                    }
                    if input.is_back_just_pressed() {
                        self.quit_close_focused = false;
                        self.sub_screen = MenuSubScreen::QuitConfirm;
                    }
                    if input.is_right_just_pressed() {
                        self.select_char_focused = true;
                    }
                }
            },
            MenuSubScreen::HowToPlay => {
                if input.is_action_just_pressed() || input.is_back_just_pressed() {
                    self.sub_screen = MenuSubScreen::NoOverlay;
                }
            },
            MenuSubScreen::Options => {
                if self.settings.handle_options_input(input) {
                    self.sub_screen = MenuSubScreen::NoOverlay;
                }
            },
            MenuSubScreen::CharacterSelect => {
                if input.is_back_just_pressed() || input.is_action_just_pressed() {
                    self.sub_screen = MenuSubScreen::NoOverlay;
                }
                if input.is_left_just_pressed() {
                    self.character = self.character.prev();
                }
                if input.is_right_just_pressed() {
                    self.character = self.character.next();
                }
            },
            MenuSubScreen::QuitConfirm => {
                if input.is_back_just_pressed() {
                    self.sub_screen = MenuSubScreen::NoOverlay;
                }
                if input.is_left_just_pressed() || input.is_right_just_pressed()
                    || input.is_up_just_pressed() || input.is_down_just_pressed() {
                    self.quit_close_focused = !self.quit_close_focused;
                }
                if input.is_action_just_pressed() {
                    if self.quit_close_focused {
                        self.shutdown.request_close();
                    } else {
                        self.sub_screen = MenuSubScreen::NoOverlay;
                    }
                }
            },
        }
        command
    }

    /// A frame of the pause menu, or of the options panel opened from it.
    pub fn paused_step(&mut self, input: &TvInput) -> (c: MenuCommand)
        requires
            old(self).wf(),
        ensures
            final(self).wf(),
            (final(self)@, c) == paused_next(old(self)@, pressed_edges(input@)),
    {
        if self.sub_screen == MenuSubScreen::Options {
            if self.settings.handle_options_input(input) {
                self.sub_screen = MenuSubScreen::NoOverlay;
            }
            return MenuCommand::Stay;
        }
        if input.is_up_just_pressed() {
            self.pause_nav.up();
        }
        if input.is_down_just_pressed() {
            self.pause_nav.down();
        }
        if !input.is_action_just_pressed() {
            return MenuCommand::Stay;
        }
        match self.pause_nav.current() {
            PauseOption::Resume => MenuCommand::ResumeGame,
            PauseOption::Restart => {
                self.pause_nav = MenuNavigator::pause_menu();
                MenuCommand::RestartGame
            },
            PauseOption::Options => {
                self.sub_screen = MenuSubScreen::Options;
                MenuCommand::Stay
            },
            PauseOption::Quit => {
                self.menu_nav = MenuNavigator::main_menu();
                MenuCommand::ReturnToMenu
            },
        }
    }

    /// A frame of the game-over menu.
    pub fn game_over_step(&mut self, input: &TvInput) -> (c: MenuCommand)
        requires
            old(self).wf(),
        ensures
            final(self).wf(),
            (final(self)@, c) == game_over_next(old(self)@, pressed_edges(input@)),
    {
        if input.is_up_just_pressed() {
            self.gameover_nav.up();
        }
        if input.is_down_just_pressed() {
            self.gameover_nav.down();
        }
        if !input.is_action_just_pressed() {
            return MenuCommand::Stay;
        }
        match self.gameover_nav.current() {
            GameOverOption::Restart => {
                self.gameover_nav = MenuNavigator::game_over_menu();
                MenuCommand::RestartGame
            },
            GameOverOption::Quit => {
                self.menu_nav = MenuNavigator::main_menu();
                MenuCommand::ReturnToMenu
            },
        }
    }
}

// ── Laws ────────────────────────────────────────────────────────────────

/// Every menu frame keeps each selection on one of its rows.
pub proof fn lemma_menus_keep_selection_valid(m: MenuModel, e: RemoteButtons)
    requires
        model_wf(m),
    ensures
        model_wf(main_menu_next(m, e).0),
        model_wf(paused_next(m, e).0),
        model_wf(game_over_next(m, e).0),
{
}

/// The game never closes by accident: only Action in the quit dialog can
/// request the close, and the pause and game-over menus never do.
pub proof fn lemma_close_needs_the_quit_dialog(m: MenuModel, e: RemoteButtons)
    requires
        model_wf(m),
    ensures
        main_menu_next(m, e).0.shutdown != m.shutdown ==> m.sub_screen == MenuSubScreen::QuitConfirm
            && e.action && main_menu_next(m, e).0.shutdown == ShutdownStage::Requested,
        paused_next(m, e).0.shutdown == m.shutdown,
        game_over_next(m, e).0.shutdown == m.shutdown,
{
}

/// Back on the main buttons opens the quit dialog with CONTINUE PLAYING
/// focused, so a second Action does not close the game.
pub proof fn lemma_back_asks_before_quitting(m: MenuModel, e: RemoteButtons)
    requires
        model_wf(m),
        m.sub_screen == MenuSubScreen::NoOverlay,
        !m.select_char_focused,
        e.back,
    ensures
        main_menu_next(m, e).0.sub_screen == MenuSubScreen::QuitConfirm,
        !main_menu_next(m, e).0.quit_close_focused,
        main_menu_next(m, e).0.shutdown == m.shutdown,
{
}

/// Back closes every overlay of the main menu.
pub proof fn lemma_back_closes_overlays(m: MenuModel, e: RemoteButtons)
    requires
        model_wf(m),
        m.sub_screen != MenuSubScreen::NoOverlay,
        e.back,
    ensures
        main_menu_next(m, e).0.sub_screen == MenuSubScreen::NoOverlay,
{
}

/// Which game actions each menu can ask for: only the main menu starts a
/// game, and only the pause menu resumes one.
pub proof fn lemma_menu_commands(m: MenuModel, e: RemoteButtons)
    requires
        model_wf(m),
    ensures
        main_menu_next(m, e).1 == MenuCommand::Stay || main_menu_next(m, e).1 == MenuCommand::StartGame,
        paused_next(m, e).1 != MenuCommand::StartGame,
        game_over_next(m, e).1 != MenuCommand::StartGame && game_over_next(m, e).1 != MenuCommand::ResumeGame,
        main_menu_next(m, e).1 == MenuCommand::StartGame ==> main_menu_next(m, e).0.menu_selected == 0,
        paused_next(m, e).1 == MenuCommand::ReturnToMenu ==> paused_next(m, e).0.menu_selected == 0,
        game_over_next(m, e).1 == MenuCommand::ReturnToMenu ==> game_over_next(m, e).0.menu_selected == 0,
{
}

/// Without any press a menu frame changes nothing.
pub proof fn lemma_idle_frame_changes_nothing(m: MenuModel)
    requires
        model_wf(m),
    ensures
        main_menu_next(m, no_presses()) == (m, MenuCommand::Stay),
        paused_next(m, no_presses()) == (m, MenuCommand::Stay),
        game_over_next(m, no_presses()) == (m, MenuCommand::Stay),
{
}

/// The How-to-Play overlay closes on Action as well as on Back, and nothing
/// else changes; without either press it stays open and nothing changes.
pub proof fn lemma_how_to_play_closes(m: MenuModel, e: RemoteButtons)
    requires
        m.sub_screen == MenuSubScreen::HowToPlay,
    ensures
        (e.action || e.back) ==> main_menu_next(m, e) == (
        MenuModel { sub_screen: MenuSubScreen::NoOverlay, ..m },
        MenuCommand::Stay,
        ),
        !(e.action || e.back) ==> main_menu_next(m, e) == (m, MenuCommand::Stay),
{
}

/// In each list (main buttons, pause menu, game-over menu) Up alone moves the
/// selection one row up, stopping at the top row, and Down alone one row
/// down, stopping at the last row; Up never raises the row number and Down
/// never lowers it.
pub proof fn lemma_up_and_down_move_the_selection(m: MenuModel, e: RemoteButtons)
    requires
        model_wf(m),
        !e.action,
        !e.back,
    ensures
        m.sub_screen != MenuSubScreen::Options && e.up && !e.down ==> paused_next(m, e).0.pause_selected
            == if m.pause_selected > 0 {
            m.pause_selected - 1
        } else {
            0
        },
        m.sub_screen != MenuSubScreen::Options && e.down && !e.up ==> paused_next(m, e).0.pause_selected
            == if m.pause_selected < 3 {
            m.pause_selected + 1
        } else {
            3
        },
        m.sub_screen == MenuSubScreen::NoOverlay && !m.select_char_focused && e.up && !e.down
            ==> main_menu_next(m, e).0.menu_selected == if m.menu_selected > 0 {
            m.menu_selected - 1
        } else {
            0
        },
        m.sub_screen == MenuSubScreen::NoOverlay && !m.select_char_focused && e.down && !e.up
            ==> main_menu_next(m, e).0.menu_selected == if m.menu_selected < 3 {
            m.menu_selected + 1
        } else {
            3
        },
        e.up && !e.down ==> game_over_next(m, e).0.gameover_selected == 0,
        e.down && !e.up ==> game_over_next(m, e).0.gameover_selected == 1,
        e.up && !e.down ==> paused_next(m, e).0.pause_selected <= m.pause_selected
            && main_menu_next(m, e).0.menu_selected <= m.menu_selected,
        e.down && !e.up ==> paused_next(m, e).0.pause_selected >= m.pause_selected
            && main_menu_next(m, e).0.menu_selected >= m.menu_selected,
{
}

/// Action on the main buttons presses the selected one: PLAY starts a run,
/// HOW TO PLAY and OPTIONS open their overlays, QUIT opens the quit dialog
/// with CONTINUE PLAYING focused. Right alone gives SELECT CHARACTER the focus.
pub proof fn lemma_main_buttons_act(m: MenuModel)
    requires
        model_wf(m),
        m.sub_screen == MenuSubScreen::NoOverlay,
        !m.select_char_focused,
    ensures
        m.menu_selected == 0 ==> main_menu_next(m, action_only()).1 == MenuCommand::StartGame
            && main_menu_next(m, action_only()).0.sub_screen == MenuSubScreen::NoOverlay,
        m.menu_selected == 1 ==> main_menu_next(m, action_only()).1 == MenuCommand::Stay
            && main_menu_next(m, action_only()).0.sub_screen == MenuSubScreen::HowToPlay,
        m.menu_selected == 2 ==> main_menu_next(m, action_only()).1 == MenuCommand::Stay
            && main_menu_next(m, action_only()).0.sub_screen == MenuSubScreen::Options,
        m.menu_selected == 3 ==> main_menu_next(m, action_only()).1 == MenuCommand::Stay
            && main_menu_next(m, action_only()).0.sub_screen == MenuSubScreen::QuitConfirm
            && !main_menu_next(m, action_only()).0.quit_close_focused,
        main_menu_next(m, action_only()).0.shutdown == m.shutdown,
        main_menu_next(m, action_only()).0.settings == m.settings,
        main_menu_next(m, right_only()) == (MenuModel { select_char_focused: true, ..m }, MenuCommand::Stay),
{
}

/// With SELECT CHARACTER focused, Action opens the character overlay and
/// gives the focus back to the list; Left or Back alone give the focus back.
pub proof fn lemma_select_button_acts(m: MenuModel)
    requires
        m.sub_screen == MenuSubScreen::NoOverlay,
        m.select_char_focused,
    ensures
        main_menu_next(m, action_only()) == (
        MenuModel { sub_screen: MenuSubScreen::CharacterSelect, select_char_focused: false, ..m },
        MenuCommand::Stay,
        ),
        main_menu_next(m, left_only()) == (MenuModel { select_char_focused: false, ..m }, MenuCommand::Stay),
{
}

/// In the character overlay Left picks the previous character and Right the
/// next, round the carousel of five, and the overlay stays open; Action
/// closes it keeping the character shown.
pub proof fn lemma_character_overlay_browses(m: MenuModel)
    requires
        m.sub_screen == MenuSubScreen::CharacterSelect,
    ensures
        character_index(main_menu_next(m, right_only()).0.character) == (character_index(m.character) + 1)
            % 5,
        character_index(main_menu_next(m, left_only()).0.character) == (character_index(m.character) + 4)
            % 5,
        main_menu_next(m, right_only()).0.sub_screen == MenuSubScreen::CharacterSelect,
        main_menu_next(m, left_only()).0.sub_screen == MenuSubScreen::CharacterSelect,
        main_menu_next(m, action_only()) == (MenuModel { sub_screen: MenuSubScreen::NoOverlay, ..m }, MenuCommand::Stay),
{
    lemma_character_at_index((character_index(m.character) + 1) as nat);
    lemma_character_at_index((character_index(m.character) + 4) as nat);
}

/// In the quit dialog an arrow moves the focus to the other button; Action on
/// CLOSE GAME requests the close, and Action on CONTINUE PLAYING closes the
/// dialog and leaves the game running.
pub proof fn lemma_quit_dialog_acts(m: MenuModel)
    requires
        m.sub_screen == MenuSubScreen::QuitConfirm,
    ensures
        main_menu_next(m, left_only()) == (MenuModel { quit_close_focused: !m.quit_close_focused, ..m }, MenuCommand::Stay),
        main_menu_next(m, right_only()) == (MenuModel { quit_close_focused: !m.quit_close_focused, ..m }, MenuCommand::Stay),
        m.quit_close_focused && m.shutdown == ShutdownStage::Idle ==> main_menu_next(m, action_only()).0.shutdown
            == ShutdownStage::Requested,
        !m.quit_close_focused ==> main_menu_next(m, action_only()) == (
        MenuModel { sub_screen: MenuSubScreen::NoOverlay, ..m },
        MenuCommand::Stay,
        ),
{
}

/// Action on the pause menu presses the selected row: RESUME resumes,
/// RESTART restarts, OPTIONS opens the panel, MAIN MENU returns to the main
/// menu. Action on the game-over menu: PLAY AGAIN restarts, MAIN MENU returns.
pub proof fn lemma_pause_and_game_over_act(m: MenuModel)
    requires
        model_wf(m),
        m.sub_screen != MenuSubScreen::Options,
    ensures
        m.pause_selected == 0 ==> paused_next(m, action_only()).1 == MenuCommand::ResumeGame,
        m.pause_selected == 1 ==> paused_next(m, action_only()).1 == MenuCommand::RestartGame,
        m.pause_selected == 2 ==> paused_next(m, action_only()).1 == MenuCommand::Stay
            && paused_next(m, action_only()).0.sub_screen == MenuSubScreen::Options,
        m.pause_selected == 3 ==> paused_next(m, action_only()).1 == MenuCommand::ReturnToMenu,
        m.gameover_selected == 0 ==> game_over_next(m, action_only()).1 == MenuCommand::RestartGame,
        m.gameover_selected == 1 ==> game_over_next(m, action_only()).1 == MenuCommand::ReturnToMenu,
{
}

/// Only Action went down.
pub open spec fn action_only() -> RemoteButtons {
    RemoteButtons { action: true, ..no_presses() }
}

/// Only Left went down.
pub open spec fn left_only() -> RemoteButtons {
    RemoteButtons { left: true, ..no_presses() }
}

/// Only Right went down.
pub open spec fn right_only() -> RemoteButtons {
    RemoteButtons { right: true, ..no_presses() }
}

/// No button went down.
pub open spec fn no_presses() -> RemoteButtons {
    RemoteButtons { up: false, down: false, left: false, right: false, action: false, back: false }
}

} // verus!
