use toon_dash::game::menus::{play_commands, MenuCommand, MenuController, PlayCommands};
use toon_dash::game::state::{
    CharacterChoice, GameOverOption, GameSettings, MenuOption, MenuSubScreen, PauseOption,
    ShutdownStage,
};
use toon_dash::input::{RemoteButtons, TvInput};
use toon_dash::rendering::HudCache;

#[derive(Clone, Copy)]
enum B {
    Up,
    Down,
    Left,
    Right,
    Action,
    Back,
}

fn held(b: B) -> RemoteButtons {
    let mut r = RemoteButtons { up: false, down: false, left: false, right: false, action: false, back: false };
    match b {
        B::Up => r.up = true,
        B::Down => r.down = true,
        B::Left => r.left = true,
        B::Right => r.right = true,
        B::Action => r.action = true,
        B::Back => r.back = true,
    }
    r
}

/// An input on which `b` was just pressed.
fn press(b: B) -> TvInput {
    let mut i = TvInput::new();
    i.update(held(b));
    i
}

fn idle() -> TvInput {
    TvInput::new()
}

#[test]
fn play_starts_a_game() {
    let mut c = MenuController::new();
    assert_eq!(*c.menu_nav().current(), MenuOption::Play);
    assert_eq!(c.main_menu_step(&idle()), MenuCommand::Stay);
    assert_eq!(c.main_menu_step(&press(B::Action)), MenuCommand::StartGame);
    assert_eq!(c.menu_nav().selected, 0);
    assert_eq!(c.sub_screen(), MenuSubScreen::NoOverlay);
}

#[test]
fn overlays_open_and_close() {
    let mut c = MenuController::new();
    c.main_menu_step(&press(B::Down));
    assert_eq!(*c.menu_nav().current(), MenuOption::HowToPlay);
    c.main_menu_step(&press(B::Action));
    assert_eq!(c.sub_screen(), MenuSubScreen::HowToPlay);
    c.main_menu_step(&press(B::Back));
    assert_eq!(c.sub_screen(), MenuSubScreen::NoOverlay);

    c.main_menu_step(&press(B::Down));
    c.main_menu_step(&press(B::Action));
    assert_eq!(c.sub_screen(), MenuSubScreen::Options);
    c.main_menu_step(&press(B::Left));
    assert_eq!(c.settings().master_volume, 4);
    c.main_menu_step(&press(B::Back));
    assert_eq!(c.sub_screen(), MenuSubScreen::NoOverlay);
}

#[test]
fn quit_dialog_needs_confirmation() {
    let mut c = MenuController::new();
    c.main_menu_step(&press(B::Back));
    assert_eq!(c.sub_screen(), MenuSubScreen::QuitConfirm);
    assert!(!c.quit_close_focused());
    // Action on CONTINUE PLAYING closes the dialog only.
    c.main_menu_step(&press(B::Action));
    assert_eq!(c.sub_screen(), MenuSubScreen::NoOverlay);
    assert_eq!(c.shutdown().stage, ShutdownStage::Idle);

    // Quit row, move focus to CLOSE GAME, confirm.
    c.main_menu_step(&press(B::Down));
    c.main_menu_step(&press(B::Down));
    c.main_menu_step(&press(B::Down));
    assert_eq!(*c.menu_nav().current(), MenuOption::Quit);
    c.main_menu_step(&press(B::Action));
    assert_eq!(c.sub_screen(), MenuSubScreen::QuitConfirm);
    c.main_menu_step(&press(B::Right));
    assert!(c.quit_close_focused());
    c.main_menu_step(&press(B::Action));
    assert_eq!(c.shutdown().stage, ShutdownStage::Requested);
    c.finalize_shutdown();
    assert_eq!(c.shutdown().stage, ShutdownStage::Finalizing);
}

#[test]
fn character_selection() {
    let mut c = MenuController::new();
    c.main_menu_step(&press(B::Right));
    assert!(c.select_char_focused());
    c.main_menu_step(&press(B::Action));
    assert_eq!(c.sub_screen(), MenuSubScreen::CharacterSelect);
    assert!(!c.select_char_focused());
    c.main_menu_step(&press(B::Left));
    assert_eq!(c.character(), CharacterChoice::Oobi);
    c.main_menu_step(&press(B::Right));
    c.main_menu_step(&press(B::Right));
    assert_eq!(c.character(), CharacterChoice::Ooli);
    c.main_menu_step(&press(B::Action));
    assert_eq!(c.sub_screen(), MenuSubScreen::NoOverlay);

    // Left returns the focus to the buttons.
    c.main_menu_step(&press(B::Right));
    c.main_menu_step(&press(B::Left));
    assert!(!c.select_char_focused());
}

#[test]
fn pause_menu_actions() {
    let mut c = MenuController::new();
    assert_eq!(c.paused_step(&press(B::Action)), MenuCommand::ResumeGame);
    c.paused_step(&press(B::Down));
    assert_eq!(*c.pause_nav().current(), PauseOption::Restart);
    assert_eq!(c.paused_step(&press(B::Action)), MenuCommand::RestartGame);
    assert_eq!(c.pause_nav().selected, 0);
    c.paused_step(&press(B::Down));
    c.paused_step(&press(B::Down));
    assert_eq!(c.paused_step(&press(B::Action)), MenuCommand::Stay);
    assert_eq!(c.sub_screen(), MenuSubScreen::Options);
    c.paused_step(&press(B::Down));
    c.paused_step(&press(B::Down));
    c.paused_step(&press(B::Down));
    c.paused_step(&press(B::Right));
    assert_eq!(c.settings().game_speed, 6);
    assert_eq!(c.paused_step(&press(B::Back)), MenuCommand::Stay);
    assert_eq!(c.sub_screen(), MenuSubScreen::NoOverlay);
    c.paused_step(&press(B::Down));
    assert_eq!(*c.pause_nav().current(), PauseOption::Quit);
    assert_eq!(c.paused_step(&press(B::Action)), MenuCommand::ReturnToMenu);
    assert_eq!(c.menu_nav().selected, 0);
}

#[test]
fn game_over_menu_actions() {
    let mut c = MenuController::new();
    c.game_over_step(&press(B::Down));
    assert_eq!(*c.gameover_nav().current(), GameOverOption::Quit);
    c.show_game_over();
    assert_eq!(*c.gameover_nav().current(), GameOverOption::Restart);
    assert_eq!(c.game_over_step(&press(B::Action)), MenuCommand::RestartGame);
    c.game_over_step(&press(B::Down));
    assert_eq!(c.game_over_step(&press(B::Action)), MenuCommand::ReturnToMenu);
    assert_eq!(c.game_over_step(&idle()), MenuCommand::Stay);
}

#[test]
fn run_controls() {
    assert_eq!(
        play_commands(&press(B::Left)),
        PlayCommands { lane_left: true, lane_right: false, jump: false, slide: false, pause: false }
    );
    assert!(play_commands(&press(B::Right)).lane_right);
    assert!(play_commands(&press(B::Up)).jump);
    assert!(play_commands(&press(B::Down)).slide);
    assert!(play_commands(&press(B::Back)).pause);
    let mut held_up = press(B::Up);
    held_up.update(held(B::Up));
    assert!(!play_commands(&held_up).jump);
}

#[test]
fn options_sliders_stay_in_bounds() {
    let mut s = GameSettings::default();
    for _ in 0..20 {
        assert!(!s.handle_options_input(&press(B::Right)));
    }
    assert_eq!(s.master_volume, 10);
    for _ in 0..20 {
        s.handle_options_input(&press(B::Left));
    }
    assert_eq!(s.master_volume, 0);
    for _ in 0..10 {
        s.handle_options_input(&press(B::Down));
    }
    assert_eq!(s.focused_row, 3);
    for _ in 0..20 {
        s.handle_options_input(&press(B::Left));
    }
    assert_eq!(s.game_speed, 1);
    s.handle_options_input(&press(B::Up));
    s.handle_options_input(&press(B::Left));
    assert_eq!(s.focused_row, 2);
    assert_eq!(s.effects_volume, 9);
    assert!(s.handle_options_input(&press(B::Back)));
    assert_eq!(s.music_level(), 0);
    assert_eq!(s.effects_level(), 0);
    let d = GameSettings::default();
    assert_eq!(d.music_level(), 5);
    assert_eq!(d.effects_level(), 5);
}

#[test]
fn hud_labels() {
    let mut h = HudCache::new();
    assert_eq!(h.score_text(), "");
    h.update(1234, 7, 56, 1);
    assert_eq!(h.score_text(), "Score: 1234");
    assert_eq!(h.coins_text(), "Coins: 7");
    assert_eq!(h.distance_text(), "Distance: 56m");
    assert_eq!(h.combo_text(), "Combo: 1x");
    h.update(1300, 7, -3, 2);
    assert_eq!(h.score_text(), "Score: 1300");
    assert_eq!(h.distance_text(), "Distance: -3m");
    assert_eq!(h.combo_text(), "Combo: 2x");
    h.update(0, 0, i32::MIN + 1, u32::MAX - 1);
    assert_eq!(h.distance_text(), "Distance: -2147483647m");
    assert_eq!(h.combo_text(), "Combo: 4294967294x");
    // The starting numbers leave a label empty on the first frame.
    let mut h = HudCache::new();
    h.update(u32::MAX, 0, 0, 0);
    assert_eq!(h.score_text(), "");
    assert_eq!(h.coins_text(), "Coins: 0");
}
