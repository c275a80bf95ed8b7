//! Toon Dash: the rules of an endless lane runner played with a TV remote.
//!
//! The crate holds what the game decides: screens and menus, the shutdown
//! handshake, lanes and the player's moves, which obstacle can hit the player,
//! remote input with its per-frame latch, the saved statistics format, mesh
//! index assembly and where roadside scenery stands.

use vstd::prelude::*;

pub mod game;
pub mod input;
pub mod models;
pub mod platform;
pub mod rendering;
pub mod text;
pub mod tv_input_manager;

pub use game::{GameScreen, PlayerState};
pub use input::TvInput;
pub use tv_input_manager::init_tv_input_manager;

verus! {

pub const VERSION: &'static str = "0.1.1";

pub const GAME_NAME: &'static str = "Toon Dash";

pub const TARGET_FPS: u32 = 30;

} // verus!
