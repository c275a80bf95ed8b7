use toon_dash::game::state::{
    CharacterChoice, GameOverOption, GameScreen, GameSettings, LifetimeStats, MenuNavigator,
    MenuOption, MenuSubScreen, PauseOption, ShutdownFlow, ShutdownStage,
};

#[test]
fn shutdown_flow_transitions_in_order() {
    let mut flow = ShutdownFlow::default();
    assert_eq!(flow.stage, ShutdownStage::Idle);

    flow.request_close();
    assert_eq!(flow.stage, ShutdownStage::Requested);

    flow.mark_finalizing();
    assert_eq!(flow.stage, ShutdownStage::Finalizing);
}

#[test]
fn request_close_is_idempotent() {
    let mut flow = ShutdownFlow::default();
    flow.request_close();
    flow.request_close();
    assert_eq!(flow.stage, ShutdownStage::Requested);
}

#[test]
fn finalizing_without_request_does_nothing() {
    let mut flow = ShutdownFlow::default();
    assert!(!flow.is_active());
    flow.mark_finalizing();
    assert_eq!(flow.stage, ShutdownStage::Idle);
    assert!(!flow.is_active());
    flow.request_close();
    assert!(flow.is_active());
    flow.mark_finalizing();
    flow.request_close();
    flow.mark_finalizing();
    assert_eq!(flow.stage, ShutdownStage::Finalizing);
    assert!(flow.is_active());
}

#[test]
fn pause_and_resume_only_affect_play() {
    let mut s = GameScreen::default();
    assert_eq!(s, GameScreen::MainMenu);
    s.pause();
    assert_eq!(s, GameScreen::MainMenu);
    s.resume();
    assert_eq!(s, GameScreen::MainMenu);

    let mut s = GameScreen::Playing;
    assert!(s.is_playing());
    s.pause();
    assert_eq!(s, GameScreen::Paused);
    assert!(s.is_paused());
    s.pause();
    assert_eq!(s, GameScreen::Paused);
    s.resume();
    assert_eq!(s, GameScreen::Playing);
    s.resume();
    assert_eq!(s, GameScreen::Playing);

    let mut s = GameScreen::GameOver;
    s.pause();
    s.resume();
    assert_eq!(s, GameScreen::GameOver);
    assert!(!s.is_playing() && !s.is_paused());
}

#[test]
fn character_carousel_wraps() {
    let c = CharacterChoice::default();
    assert_eq!(c, CharacterChoice::Oodi);
    assert_eq!(c.next(), CharacterChoice::Ooli);
    assert_eq!(c.prev(), CharacterChoice::Oobi);
    assert_eq!(CharacterChoice::Oobi.next(), CharacterChoice::Oodi);
    let all = [
        CharacterChoice::Oodi,
        CharacterChoice::Ooli,
        CharacterChoice::Oozi,
        CharacterChoice::Oopi,
        CharacterChoice::Oobi,
    ];
    for (i, c) in all.iter().enumerate() {
        assert_eq!(c.index(), i);
        assert_eq!(CharacterChoice::from_index(i), *c);
        assert_eq!(CharacterChoice::from_index(i + 5), *c);
        assert_eq!(c.next().prev(), *c);
        assert_eq!(c.prev().next(), *c);
        assert_eq!(c.next().next().next().next().next(), *c);
    }
    assert_eq!(CharacterChoice::from_index(12), CharacterChoice::Oozi);
}

#[test]
fn character_names_and_mesh_keys() {
    assert_eq!(CharacterChoice::Oodi.mesh_key(), "char_oodi");
    assert_eq!(CharacterChoice::Ooli.mesh_key(), "char_ooli");
    assert_eq!(CharacterChoice::Oozi.mesh_key(), "char_oozi");
    assert_eq!(CharacterChoice::Oopi.mesh_key(), "char_oopi");
    assert_eq!(CharacterChoice::Oobi.mesh_key(), "char_oobi");
    assert_eq!(CharacterChoice::Oodi.display_name(), "OODI");
    assert_eq!(CharacterChoice::Ooli.display_name(), "OOLI");
    assert_eq!(CharacterChoice::Oozi.display_name(), "OOZI");
    assert_eq!(CharacterChoice::Oopi.display_name(), "OOPI");
    assert_eq!(CharacterChoice::Oobi.display_name(), "OOBI");
}

#[test]
fn main_menu_navigation_stays_on_rows() {
    let mut nav = MenuNavigator::main_menu();
    assert_eq!(
        nav.options,
        vec![MenuOption::Play, MenuOption::HowToPlay, MenuOption::Options, MenuOption::Quit]
    );
    assert_eq!(nav.selected, 0);
    assert_eq!(*nav.current(), MenuOption::Play);
    nav.up();
    assert_eq!(nav.selected, 0);
    nav.down();
    assert_eq!(*nav.current(), MenuOption::HowToPlay);
    nav.down();
    nav.down();
    assert_eq!(*nav.current(), MenuOption::Quit);
    nav.down();
    assert_eq!(nav.selected, 3);
    nav.up();
    assert_eq!(*nav.current(), MenuOption::Options);
}

#[test]
fn pause_and_game_over_menus() {
    let mut nav = MenuNavigator::pause_menu();
    assert_eq!(
        nav.options,
        vec![PauseOption::Resume, PauseOption::Restart, PauseOption::Options, PauseOption::Quit]
    );
    assert_eq!(*nav.current(), PauseOption::Resume);
    nav.down();
    assert_eq!(*nav.current(), PauseOption::Restart);

    let mut nav = MenuNavigator::game_over_menu();
    assert_eq!(nav.options, vec![GameOverOption::Restart, GameOverOption::Quit]);
    nav.down();
    nav.down();
    assert_eq!(*nav.current(), GameOverOption::Quit);
    nav.up();
    nav.up();
    assert_eq!(*nav.current(), GameOverOption::Restart);

    let mut single = MenuNavigator::new(vec![7u8]);
    single.down();
    single.up();
    assert_eq!(single.selected, 0);
    assert_eq!(*single.current(), 7);
}

#[test]
fn defaults() {
    let s = GameSettings::default();
    assert_eq!(s.master_volume, 5);
    assert_eq!(s.music_volume, 10);
    assert_eq!(s.effects_volume, 10);
    assert_eq!(s.game_speed, 5);
    assert_eq!(s.focused_row, 0);
    assert_eq!(MenuSubScreen::default(), MenuSubScreen::NoOverlay);
    assert_eq!(MenuOption::default(), MenuOption::Play);
    assert_eq!(PauseOption::default(), PauseOption::Resume);
    assert_eq!(GameOverOption::default(), GameOverOption::Restart);
    assert_eq!(
        LifetimeStats::default(),
        LifetimeStats { high_score: 0, total_coins: 0, total_stars: 0, total_distance: 0 }
    );
}
