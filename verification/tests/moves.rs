use toon_dash::game::obstacles::ObstacleType;
use toon_dash::game::player::PlayerState;
use toon_dash::game::types::Lane;
use toon_dash::platform::tizen::TizenKeys;
use toon_dash::{GAME_NAME, TARGET_FPS, VERSION};

#[test]
fn lane_neighbors() {
    assert_eq!(Lane::default(), Lane::Center);
    assert_eq!(Lane::Center.neighbor(-1), Some(Lane::Left));
    assert_eq!(Lane::Center.neighbor(1), Some(Lane::Right));
    assert_eq!(Lane::Center.neighbor(0), Some(Lane::Center));
    assert_eq!(Lane::Left.neighbor(-1), None);
    assert_eq!(Lane::Right.neighbor(1), None);
    assert_eq!(Lane::Left.neighbor(2), Some(Lane::Right));
    assert_eq!(Lane::Right.neighbor(-2), Some(Lane::Left));
    assert_eq!(Lane::Left.neighbor(3), None);
    assert_eq!(Lane::Center.neighbor(i32::MAX), None);
    assert_eq!(Lane::Center.neighbor(i32::MIN), None);
    assert_eq!(Lane::Left.offset(), -1);
    assert_eq!(Lane::Right.offset(), 1);
    for l in [Lane::Left, Lane::Center, Lane::Right] {
        if let Some(m) = l.neighbor(1) {
            assert_eq!(m.neighbor(-1), Some(l));
        }
    }
}

#[test]
fn player_moves_cancel_each_other() {
    let mut s = PlayerState::default();
    assert_eq!(s, PlayerState::Running);
    assert!(s.jump());
    assert_eq!(s, PlayerState::Jumping);
    assert!(!s.jump());
    assert_eq!(s, PlayerState::Jumping);
    // a jump can be cancelled into a slide
    assert!(s.slide());
    assert_eq!(s, PlayerState::Sliding);
    assert!(s.is_sliding());
    assert!(!s.slide());
    // and a slide into a jump
    assert!(s.jump());
    assert_eq!(s, PlayerState::Jumping);

    let mut s = PlayerState::Running;
    assert!(s.slide());
    assert_eq!(s, PlayerState::Sliding);

    s.die();
    assert!(!s.is_alive());
    assert!(!s.jump());
    assert!(!s.slide());
    assert_eq!(s, PlayerState::Dead);
    assert!(PlayerState::Running.is_alive());
}

#[test]
fn obstacles_and_how_to_dodge_them() {
    assert!(ObstacleType::LowBarrier.avoidable_by_jump());
    assert!(!ObstacleType::LowBarrier.avoidable_by_slide());
    assert!(ObstacleType::HighBarrier.avoidable_by_slide());
    assert!(!ObstacleType::HighBarrier.avoidable_by_jump());
    assert!(!ObstacleType::FullBarrier.avoidable_by_jump());
    assert!(!ObstacleType::FullBarrier.avoidable_by_slide());

    let c = Lane::Center;
    assert!(!ObstacleType::LowBarrier.can_hit(c, c, true, false));
    assert!(ObstacleType::LowBarrier.can_hit(c, c, false, true));
    assert!(!ObstacleType::HighBarrier.can_hit(c, c, false, true));
    assert!(ObstacleType::HighBarrier.can_hit(c, c, true, false));
    for (j, s) in [(false, false), (true, false), (false, true), (true, true)] {
        assert!(ObstacleType::FullBarrier.can_hit(c, c, j, s));
        assert!(!ObstacleType::FullBarrier.can_hit(Lane::Left, c, j, s));
        assert!(!ObstacleType::LowBarrier.can_hit(Lane::Right, c, j, s));
    }
}

#[test]
fn tizen_keys_and_constants() {
    assert_eq!(TizenKeys::BACK, 10009);
    assert_eq!(TizenKeys::ENTER, 13);
    assert_eq!(TizenKeys::UP, 38);
    assert_eq!(TizenKeys::DOWN, 40);
    assert_eq!(TizenKeys::LEFT, 37);
    assert_eq!(TizenKeys::RIGHT, 39);
    assert_eq!(GAME_NAME, "Toon Dash");
    assert_eq!(TARGET_FPS, 30);
    assert_eq!(VERSION, "0.1.1");
}
