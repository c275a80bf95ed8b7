//! Game logic: screens, menus, lanes, player moves and saved statistics.

pub mod collectibles;
pub mod menus;
pub mod obstacles;
pub mod persistence;
pub mod player;
pub mod state;
pub mod track;
pub mod types;

pub use collectibles::CollectibleType;
pub use obstacles::ObstacleType;
pub use persistence::{encode_stats, load_stats_from, parse_highscore, parse_stats, stats_from_stored};
pub use player::PlayerState;
pub use state::{
    CharacterChoice, GameOverOption, GameScreen, GameSettings, LifetimeStats, MenuNavigator,
    MenuOption, MenuSubScreen, PauseOption, ShutdownFlow, ShutdownStage,
};
pub use track::SegmentType;
pub use types::Lane;
