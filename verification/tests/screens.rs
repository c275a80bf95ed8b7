use toon_dash::game::collectibles::CollectibleType;
use toon_dash::game::menus::MenuController;
use toon_dash::game::state::{GameScreen, GameSettings, LifetimeStats, MenuSubScreen};
use toon_dash::input::{RemoteButtons, TvInput};
use toon_dash::rendering::{
    game_over_buttons, lifetime_panel_lines, main_menu_buttons, option_rows, option_value_text,
    pause_menu_buttons, quit_dialog_buttons, screen_layers, HudCache, Layer,
};

fn press(up: bool, down: bool, right: bool, action: bool, back: bool) -> TvInput {
    let mut i = TvInput::new();
    i.update(RemoteButtons { up, down, left: false, right, action, back });
    i
}

#[test]
fn layers_per_screen() {
    assert_eq!(screen_layers(GameScreen::MainMenu, MenuSubScreen::NoOverlay), vec![Layer::MainMenu]);
    assert_eq!(
        screen_layers(GameScreen::MainMenu, MenuSubScreen::HowToPlay),
        vec![Layer::MainMenu, Layer::HowToPlay]
    );
    assert_eq!(screen_layers(GameScreen::MainMenu, MenuSubScreen::Options), vec![Layer::MainMenu, Layer::Options]);
    assert_eq!(
        screen_layers(GameScreen::MainMenu, MenuSubScreen::CharacterSelect),
        vec![Layer::MainMenu, Layer::CharacterSelect]
    );
    assert_eq!(
        screen_layers(GameScreen::MainMenu, MenuSubScreen::QuitConfirm),
        vec![Layer::MainMenu, Layer::QuitConfirm]
    );
    assert_eq!(screen_layers(GameScreen::Playing, MenuSubScreen::Options), vec![Layer::Game]);
    assert_eq!(screen_layers(GameScreen::Paused, MenuSubScreen::NoOverlay), vec![Layer::Game, Layer::PauseMenu]);
    assert_eq!(
        screen_layers(GameScreen::Paused, MenuSubScreen::Options),
        vec![Layer::Game, Layer::PauseMenu, Layer::Options]
    );
    assert_eq!(
        screen_layers(GameScreen::GameOver, MenuSubScreen::QuitConfirm),
        vec![Layer::Game, Layer::GameOverMenu]
    );
}

#[test]
fn main_menu_button_faces() {
    let mut c = MenuController::new();
    let b = main_menu_buttons(&c);
    let labels: Vec<&str> = b.iter().map(|f| f.label).collect();
    assert_eq!(labels, vec!["PLAY", "HOW TO PLAY", "OPTIONS", "QUIT", "SELECT CHARACTER"]);
    let focus: Vec<bool> = b.iter().map(|f| f.focused).collect();
    assert_eq!(focus, vec![true, false, false, false, false]);

    c.main_menu_step(&press(false, true, false, false, false));
    let focus: Vec<bool> = main_menu_buttons(&c).iter().map(|f| f.focused).collect();
    assert_eq!(focus, vec![false, true, false, false, false]);

    c.main_menu_step(&press(false, false, true, false, false));
    let focus: Vec<bool> = main_menu_buttons(&c).iter().map(|f| f.focused).collect();
    assert_eq!(focus, vec![false, false, false, false, true]);

    let mut c = MenuController::new();
    c.main_menu_step(&press(false, false, false, false, true));
    let focus: Vec<bool> = main_menu_buttons(&c).iter().map(|f| f.focused).collect();
    assert_eq!(focus, vec![false, false, false, false, false]);
}

#[test]
fn pause_and_game_over_button_faces() {
    let mut c = MenuController::new();
    let b = pause_menu_buttons(&c);
    let labels: Vec<&str> = b.iter().map(|f| f.label).collect();
    assert_eq!(labels, vec!["RESUME", "RESTART", "OPTIONS", "MAIN MENU"]);
    assert!(b[0].focused && !b[1].focused);
    c.paused_step(&press(false, true, false, false, false));
    c.paused_step(&press(false, true, false, false, false));
    c.paused_step(&press(false, false, false, true, false));
    assert_eq!(c.sub_screen(), MenuSubScreen::Options);
    assert!(pause_menu_buttons(&c).iter().all(|f| !f.focused));

    let b = game_over_buttons(&c);
    let labels: Vec<&str> = b.iter().map(|f| f.label).collect();
    assert_eq!(labels, vec!["PLAY AGAIN", "MAIN MENU"]);
    assert!(b[0].focused && !b[1].focused);
    c.game_over_step(&press(false, true, false, false, false));
    let b = game_over_buttons(&c);
    assert!(!b[0].focused && b[1].focused);
}

#[test]
fn lifetime_panel() {
    let s = LifetimeStats { high_score: 4200, total_coins: 31, total_stars: 2, total_distance: 987 };
    let (a, b, c, d) = lifetime_panel_lines(s);
    assert_eq!(a, "High Score: 4200");
    assert_eq!(b, "Coins Earned: 31");
    assert_eq!(c, "Stars Earned: 2");
    assert_eq!(d, "Distance: 987m");
}

#[test]
fn options_panel_rows() {
    assert_eq!(option_value_text(0, 7), "7");
    assert_eq!(option_value_text(3, 5), "50%");
    assert_eq!(option_value_text(3, 10), "100%");
    assert_eq!(option_value_text(2, 0), "0");
    let mut s = GameSettings::default();
    s.focused_row = 3;
    let rows = option_rows(&s);
    let labels: Vec<&str> = rows.iter().map(|r| r.label).collect();
    assert_eq!(labels, vec!["Master Volume", "Music Volume", "Effects Volume", "Game Speed"]);
    let values: Vec<&str> = rows.iter().map(|r| r.value.as_str()).collect();
    assert_eq!(values, vec!["5", "10", "10", "50%"]);
    let levels: Vec<u8> = rows.iter().map(|r| r.level).collect();
    assert_eq!(levels, vec![5, 10, 10, 5]);
    let focus: Vec<bool> = rows.iter().map(|r| r.focused).collect();
    assert_eq!(focus, vec![false, false, false, true]);
}

#[test]
fn stars_label() {
    let mut h = HudCache::new();
    assert_eq!(h.stars_text(), "");
    h.update_stars(0);
    assert_eq!(h.stars_text(), "Stars: 0");
    h.update_stars(12);
    assert_eq!(h.stars_text(), "Stars: 12");
    h.update(5, 1, 2, 1);
    assert_eq!(h.stars_text(), "Stars: 12");
    assert_ne!(CollectibleType::Star, CollectibleType::Coin);
}

#[test]
fn quit_dialog_faces() {
    let b = quit_dialog_buttons(true);
    assert_eq!(b.len(), 2);
    assert_eq!(b[0].label, "CLOSE GAME");
    assert_eq!(b[1].label, "CONTINUE PLAYING");
    assert!(b[0].focused && !b[1].focused);
    let b = quit_dialog_buttons(false);
    assert!(!b[0].focused && b[1].focused);
}

#[test]
fn main_menu_shows_one_focus_on_every_row() {
    let mut c = MenuController::new();
    for row in 0..4 {
        let focus: Vec<bool> = main_menu_buttons(&c).iter().map(|f| f.focused).collect();
        assert_eq!(focus.iter().filter(|f| **f).count(), 1);
        assert!(focus[row]);
        c.main_menu_step(&press(false, true, false, false, false));
    }
    let focus: Vec<bool> = main_menu_buttons(&c).iter().map(|f| f.focused).collect();
    assert_eq!(focus.iter().filter(|f| **f).count(), 1);
    assert!(focus[3]);
}
