use toon_dash::input::{RemoteButtons, TvInput};
use toon_dash::tv_input_manager::{init_tv_input_manager, merge_remote, TvAction, TvInputManager};

const ALL: [TvAction; 6] = [
    TvAction::Up,
    TvAction::Down,
    TvAction::Left,
    TvAction::Right,
    TvAction::Action,
    TvAction::Back,
];

#[test]
fn action_indices_are_stable() {
    for (i, a) in ALL.iter().enumerate() {
        assert_eq!(a.index(), i);
    }
}

#[test]
fn quick_tap_within_one_frame_is_latched() {
    let mut m = TvInputManager::new();
    m.set_action(TvAction::Back, true);
    m.set_action(TvAction::Back, false);
    assert!(!m.is_action_pressed(TvAction::Back));
    assert!(m.was_action_pressed(TvAction::Back));
    assert!(!m.is_action_just_pressed(TvAction::Back));
    m.set_action(TvAction::Up, true);
    m.set_action(TvAction::Up, false);
    assert!(m.was_action_pressed(TvAction::Back));
    m.update();
    assert!(!m.was_action_pressed(TvAction::Back));
    assert!(!m.was_action_pressed(TvAction::Up));
}

#[test]
fn held_button_is_just_pressed_for_one_frame() {
    let mut m = init_tv_input_manager();
    m.set_action(TvAction::Action, true);
    assert!(m.is_action_pressed(TvAction::Action));
    assert!(m.is_action_just_pressed(TvAction::Action));
    assert!(!m.is_action_just_pressed(TvAction::Left));
    m.update();
    assert!(m.is_action_pressed(TvAction::Action));
    assert!(!m.is_action_just_pressed(TvAction::Action));
    m.set_action(TvAction::Action, false);
    m.update();
    m.set_action(TvAction::Action, true);
    assert!(m.is_action_just_pressed(TvAction::Action));
}

#[test]
fn clear_releases_everything() {
    let mut m = TvInputManager::default();
    for a in ALL {
        m.set_action(a, true);
    }
    m.update();
    for a in ALL {
        m.set_action(a, true);
    }
    m.clear();
    for a in ALL {
        assert!(!m.is_action_pressed(a));
        assert!(!m.was_action_pressed(a));
        assert!(!m.is_action_just_pressed(a));
    }
}

fn buttons(up: bool, back: bool) -> RemoteButtons {
    RemoteButtons { up, down: false, left: false, right: false, action: false, back }
}

#[test]
fn remote_edges() {
    let mut input = TvInput::new();
    assert!(!input.is_up_just_pressed());
    input.update(buttons(true, false));
    assert!(input.is_up_just_pressed());
    assert!(!input.is_back_just_pressed());
    input.update(buttons(true, true));
    assert!(!input.is_up_just_pressed());
    assert!(input.is_back_just_pressed());
    input.update(buttons(false, true));
    assert!(!input.is_up_just_pressed());
    assert!(!input.is_back_just_pressed());
    input.update(buttons(true, false));
    assert!(input.is_up_just_pressed());

    let mut input = TvInput::default();
    let all = RemoteButtons { up: true, down: true, left: true, right: true, action: true, back: true };
    input.update(all);
    assert!(input.is_down_just_pressed());
    assert!(input.is_left_just_pressed());
    assert!(input.is_right_just_pressed());
    assert!(input.is_action_just_pressed());
    input.update(all);
    assert!(!input.is_down_just_pressed());
    assert!(!input.is_left_just_pressed());
    assert!(!input.is_right_just_pressed());
    assert!(!input.is_action_just_pressed());
}

fn no_keys() -> RemoteButtons {
    RemoteButtons { up: false, down: false, left: false, right: false, action: false, back: false }
}

#[test]
fn merge_keeps_keyboard_when_remote_is_idle() {
    let m = init_tv_input_manager();
    let keys = RemoteButtons { up: true, down: false, left: true, right: false, action: true, back: false };
    assert_eq!(merge_remote(keys, &m), keys);
    assert_eq!(merge_remote(no_keys(), &m), no_keys());
}

#[test]
fn merge_adds_held_remote_button() {
    let mut m = TvInputManager::new();
    m.set_action(TvAction::Down, true);
    let b = merge_remote(no_keys(), &m);
    assert_eq!(b, RemoteButtons { down: true, ..no_keys() });
    let b = merge_remote(RemoteButtons { back: true, ..no_keys() }, &m);
    assert_eq!(b, RemoteButtons { down: true, back: true, ..no_keys() });
}

#[test]
fn merge_reports_quick_tap_until_frame_ends() {
    let mut m = TvInputManager::new();
    m.set_action(TvAction::Action, true);
    m.set_action(TvAction::Action, false);
    assert!(!m.is_action_pressed(TvAction::Action));
    let b = merge_remote(no_keys(), &m);
    assert_eq!(b, RemoteButtons { action: true, ..no_keys() });
    m.update();
    assert_eq!(merge_remote(no_keys(), &m), no_keys());
}
