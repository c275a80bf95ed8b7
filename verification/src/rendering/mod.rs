//! What the screen shows that the game decides: HUD labels and the scenery
//! placed along the road.

pub mod decorations;
pub mod hud;
pub mod screens;

pub use decorations::{
    decoration_hashes, natural_decoration, natural_decoration_key, urban_decoration,
    urban_decoration_key, NaturalDecoration, UrbanDecoration, NATURAL_DECORATION_KINDS,
    URBAN_DECORATION_KINDS,
};
pub use hud::HudCache;
pub use screens::{
    game_over_buttons, lifetime_panel_lines, main_menu_buttons, option_rows, option_value_text,
    pause_menu_buttons, quit_dialog_buttons, screen_layers, ButtonFace, Layer, OptionRow,
};
