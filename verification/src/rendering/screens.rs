//! What each screen shows, decided from the game's state: the layers drawn,
//! the buttons with their labels and focus, the lifetime statistics panel and
//! the rows of the options panel. Where and how big things are drawn is left
//! to the renderer.

use vstd::prelude::*;
use crate::game::menus::{
    game_over_options, main_options, model_wf, pause_options, MenuController, MenuModel,
};
use crate::game::state::{
    GameOverOption, GameScreen, GameSettings, LifetimeStats, MenuOption, MenuSubScreen, PauseOption,
};
use crate::text::{append_decimal, decimal};

verus! {

/// A layer of the picture, drawn back to front.
#[derive(Debug, Clone, Copy, PartialEq, Eq, Structural)]
pub enum Layer {
    MainMenu,
    HowToPlay,
    Options,
    CharacterSelect,
    QuitConfirm,
    Game,
    PauseMenu,
    GameOverMenu,
}

/// The overlay drawn over the main menu for a sub-screen.
pub open spec fn overlay_layers(sub: MenuSubScreen) -> Seq<Layer> {
    match sub {
        MenuSubScreen::NoOverlay => seq![],
        MenuSubScreen::HowToPlay => seq![Layer::HowToPlay],
        MenuSubScreen::Options => seq![Layer::Options],
        MenuSubScreen::CharacterSelect => seq![Layer::CharacterSelect],
        MenuSubScreen::QuitConfirm => seq![Layer::QuitConfirm],
    }
}

/// The layers of a screen: the main menu with its overlay; the game; the game
/// under the pause menu, with the options panel on top while it is open; the
/// game under the game-over menu.
pub open spec fn layers_of(screen: GameScreen, sub: MenuSubScreen) -> Seq<Layer> {
    match screen {
        GameScreen::MainMenu => seq![Layer::MainMenu] + overlay_layers(sub),
        GameScreen::Playing => seq![Layer::Game],
        GameScreen::Paused => if sub == MenuSubScreen::Options {
            seq![Layer::Game, Layer::PauseMenu, Layer::Options]
        } else {
            seq![Layer::Game, Layer::PauseMenu]
        },
        GameScreen::GameOver => seq![Layer::Game, Layer::GameOverMenu],
    }
}

pub fn screen_layers(screen: GameScreen, sub: MenuSubScreen) -> (l: Vec<Layer>)
    ensures
        l@ == layers_of(screen, sub),
{
    let mut l: Vec<Layer> = Vec::new();
    match screen {
        GameScreen::MainMenu => {
            l.push(Layer::MainMenu);
            match sub {
                MenuSubScreen::NoOverlay => {},
                MenuSubScreen::HowToPlay => l.push(Layer::HowToPlay),
                MenuSubScreen::Options => l.push(Layer::Options),
                MenuSubScreen::CharacterSelect => l.push(Layer::CharacterSelect),
                MenuSubScreen::QuitConfirm => l.push(Layer::QuitConfirm),
            }
        },
        GameScreen::Playing => {
            l.push(Layer::Game);
        },
        GameScreen::Paused => {
            l.push(Layer::Game);
            l.push(Layer::PauseMenu);
            if sub == MenuSubScreen::Options {
                l.push(Layer::Options);
            }
        },
        GameScreen::GameOver => {
            l.push(Layer::Game);
            l.push(Layer::GameOverMenu);
        },
    }
    assert(l@ =~= layers_of(screen, sub));
    l
}

/// A menu button: its text and whether it shows the focus.
#[derive(Debug, Clone, Copy, PartialEq, Eq)]
pub struct ButtonFace {
    pub label: &'static str,
    pub focused: bool,
}

pub open spec fn main_label(o: MenuOption) -> Seq<char> {
    match o {
        MenuOption::Play => "PLAY"@,
        MenuOption::HowToPlay => "HOW TO PLAY"@,
        MenuOption::Options => "OPTIONS"@,
        MenuOption::Quit => "QUIT"@,
    }
}

pub open spec fn pause_label(o: PauseOption) -> Seq<char> {
    match o {
        PauseOption::Resume => "RESUME"@,
        PauseOption::Restart => "RESTART"@,
        PauseOption::Options => "OPTIONS"@,
        PauseOption::Quit => "MAIN MENU"@,
    }
}

pub open spec fn game_over_label(o: GameOverOption) -> Seq<char> {
    match o {
        GameOverOption::Restart => "PLAY AGAIN"@,
        GameOverOption::Quit => "MAIN MENU"@,
    }
}

/// Whether the main menu's button `i` shows the focus: list buttons 0 to 3
/// when selected, no overlay is open and SELECT CHARACTER does not have the
/// focus; button 4, SELECT CHARACTER, when it has the focus.
pub open spec fn main_button_focused(m: MenuModel, i: int) -> bool {
    if i == 4 {
        m.select_char_focused
    } else {
        i == m.menu_selected && m.sub_screen == MenuSubScreen::NoOverlay && !m.select_char_focused
    }
}

/// The main menu's buttons: the four list buttons, then SELECT CHARACTER. A
/// list button shows the focus when it is selected, no overlay is open and
/// SELECT CHARACTER does not have the focus.
pub fn main_menu_buttons(menus: &MenuController) -> (b: Vec<ButtonFace>)
    requires
        menus.wf(),
    ensures
        b@.len() == 5,
        forall|i: int|
            0 <= i < 4 ==> (#[trigger] b@[i]).label@ == main_label(main_options()[i]) && b@[i].focused
                == (i == menus@.menu_selected && menus@.sub_screen == MenuSubScreen::NoOverlay
                && !menus@.select_char_focused),
        b@[4].label@ == "SELECT CHARACTER"@,
        b@[4].focused == menus@.select_char_focused,
        forall|i: int| 0 <= i < 5 ==> (#[trigger] b@[i]).focused == main_button_focused(menus@, i),
        menus@.menu_selected < 4,
{
    proof {
        menus.lemma_wf_model();
    }
    proof {
        reveal_strlit("PLAY");
        reveal_strlit("HOW TO PLAY");
        reveal_strlit("OPTIONS");
        reveal_strlit("QUIT");
        reveal_strlit("SELECT CHARACTER");
    }
    let selected = menus.menu_nav().selected;
    let list_active = menus.sub_screen() == MenuSubScreen::NoOverlay && !menus.select_char_focused();
    let mut b: Vec<ButtonFace> = Vec::new();
    b.push(ButtonFace { label: "PLAY", focused: selected == 0 && list_active });
    b.push(ButtonFace { label: "HOW TO PLAY", focused: selected == 1 && list_active });
    b.push(ButtonFace { label: "OPTIONS", focused: selected == 2 && list_active });
    b.push(ButtonFace { label: "QUIT", focused: selected == 3 && list_active });
    b.push(ButtonFace { label: "SELECT CHARACTER", focused: menus.select_char_focused() });
    assert forall|i: int| 0 <= i < 4 implies (#[trigger] b@[i]).label@ == main_label(main_options()[i])
        && b@[i].focused == (i == menus@.menu_selected && menus@.sub_screen
        == MenuSubScreen::NoOverlay && !menus@.select_char_focused) by {
        if i == 0 {
        } else if i == 1 {
        } else if i == 2 {
        } else {
        }
    }
    b
}

/// The pause menu's buttons; the selected one shows the focus unless the
/// options panel is open over them.
pub fn pause_menu_buttons(menus: &MenuController) -> (b: Vec<ButtonFace>)
    requires
        menus.wf(),
    ensures
        b@.len() == 4,
        forall|i: int|
            0 <= i < 4 ==> (#[trigger] b@[i]).label@ == pause_label(pause_options()[i]) && b@[i].focused
                == (i == menus@.pause_selected && menus@.sub_screen == MenuSubScreen::NoOverlay),
{
    proof {
        reveal_strlit("RESUME");
        reveal_strlit("RESTART");
        reveal_strlit("OPTIONS");
        reveal_strlit("MAIN MENU");
    }
    let selected = menus.pause_nav().selected;
    let list_active = menus.sub_screen() == MenuSubScreen::NoOverlay;
    let mut b: Vec<ButtonFace> = Vec::new();
    b.push(ButtonFace { label: "RESUME", focused: selected == 0 && list_active });
    b.push(ButtonFace { label: "RESTART", focused: selected == 1 && list_active });
    b.push(ButtonFace { label: "OPTIONS", focused: selected == 2 && list_active });
    b.push(ButtonFace { label: "MAIN MENU", focused: selected == 3 && list_active });
    assert forall|i: int| 0 <= i < 4 implies (#[trigger] b@[i]).label@ == pause_label(pause_options()[i])
        && b@[i].focused == (i == menus@.pause_selected && menus@.sub_screen
        == MenuSubScreen::NoOverlay) by {
        if i == 0 {
        } else if i == 1 {
        } else if i == 2 {
        } else {
        }
    }
    b
}

/// The game-over menu's buttons; the selected one shows the focus.
pub fn game_over_buttons(menus: &MenuController) -> (b: Vec<ButtonFace>)
    requires
        menus.wf(),
    ensures
        b@.len() == 2,
        forall|i: int|
            0 <= i < 2 ==> (#[trigger] b@[i]).label@ == game_over_label(game_over_options()[i])
                && b@[i].focused == (i == menus@.gameover_selected),
{
    proof {
        reveal_strlit("PLAY AGAIN");
        reveal_strlit("MAIN MENU");
    }
    let selected = menus.gameover_nav().selected;
    let mut b: Vec<ButtonFace> = Vec::new();
    b.push(ButtonFace { label: "PLAY AGAIN", focused: selected == 0 });
    b.push(ButtonFace { label: "MAIN MENU", focused: selected == 1 });
    assert forall|i: int| 0 <= i < 2 implies (#[trigger] b@[i]).label@ == game_over_label(
        game_over_options()[i],
    ) && b@[i].focused == (i == menus@.gameover_selected) by {
        if i == 0 {
        } else {
        }
    }
    b
}

/// The four lines of the main menu's lifetime statistics panel.
pub fn lifetime_panel_lines(s: LifetimeStats) -> (l: (String, String, String, String))
    ensures
        l.0@ == "High Score: "@ + decimal(s.high_score as nat),
        l.1@ == "Coins Earned: "@ + decimal(s.total_coins as nat),
        l.2@ == "Stars Earned: "@ + decimal(s.total_stars as nat),
        l.3@ == "Distance: "@ + decimal(s.total_distance as nat) + "m"@,
{
    let mut a = String::from_str("High Score: ");
    append_decimal(&mut a, s.high_score);
    let mut b = String::from_str("Coins Earned: ");
    append_decimal(&mut b, s.total_coins);
    let mut c = String::from_str("Stars Earned: ");
    append_decimal(&mut c, s.total_stars);
    let mut d = String::from_str("Distance: ");
    append_decimal(&mut d, s.total_distance);
    d.append("m");
    (a, b, c, d)
}

/// The value text of an options row: the speed row in percent (its slider
/// times ten), the volume rows as the plain slider value.
pub open spec fn option_value(row: int, v: u8) -> Seq<char> {
    if row == 3 {
        decimal(v as nat * 10) + "%"@
    } else {
        decimal(v as nat)
    }
}

pub fn option_value_text(row: usize, v: u8) -> (t: String)
    requires
        row < 4,
    ensures
        t@ == option_value(row as int, v),
{
    let mut t = String::new();
    if row == 3 {
        append_decimal(&mut t, v as u32 * 10);
        t.append("%");
    } else {
        append_decimal(&mut t, v as u32);
    }
    t
}

/// A row of the options panel.
pub struct OptionRow {
    pub label: &'static str,
    /// The slider's value, which sets how full its bar is drawn.
    pub level: u8,
    pub value: String,
    /// The focused row shows the `<` `>` arrows.
    pub focused: bool,
}

pub open spec fn option_label(row: int) -> Seq<char> {
    if row == 0 {
        "Master Volume"@
    } else if row == 1 {
        "Music Volume"@
    } else if row == 2 {
        "Effects Volume"@
    } else {
        "Game Speed"@
    }
}

/// The slider value shown on an options row.
pub open spec fn setting_value(s: GameSettings, row: int) -> u8 {
    if row == 0 {
        s.master_volume
    } else if row == 1 {
        s.music_volume
    } else if row == 2 {
        s.effects_volume
    } else {
        s.game_speed
    }
}

fn option_row(label: &'static str, row: usize, v: u8, focused_row: usize) -> (r: OptionRow)
    requires
        row < 4,
    ensures
        r.label@ == label@,
        r.level == v,
        r.value@ == option_value(row as int, v),
        r.focused == (focused_row == row),
{
    OptionRow { label, level: v, value: option_value_text(row, v), focused: focused_row == row }
}

/// The four rows of the options panel, top to bottom.
pub fn option_rows(s: &GameSettings) -> (rows: Vec<OptionRow>)
    ensures
        rows@.len() == 4,
        forall|i: int|
            0 <= i < 4 ==> (#[trigger] rows@[i]).label@ == option_label(i) && rows@[i].level
                == setting_value(*s, i) && rows@[i].value@ == option_value(i, setting_value(*s, i))
                && rows@[i].focused == (s.focused_row == i),
{
    proof {
        reveal_strlit("Master Volume");
        reveal_strlit("Music Volume");
        reveal_strlit("Effects Volume");
        reveal_strlit("Game Speed");
    }
    let mut rows: Vec<OptionRow> = Vec::new();
    rows.push(option_row("Master Volume", 0, s.master_volume, s.focused_row));
    rows.push(option_row("Music Volume", 1, s.music_volume, s.focused_row));
    rows.push(option_row("Effects Volume", 2, s.effects_volume, s.focused_row));
    rows.push(option_row("Game Speed", 3, s.game_speed, s.focused_row));
    assert forall|i: int| 0 <= i < 4 implies (#[trigger] rows@[i]).label@ == option_label(i)
        && rows@[i].level == setting_value(*s, i) && rows@[i].value@ == option_value(i, setting_value(*s, i)) && rows@[i].focused == (
    s.focused_row == i) by {
        if i == 0 {
        } else if i == 1 {
        } else if i == 2 {
        } else {
        }
    }
    rows
}

// ── Laws ────────────────────────────────────────────────────────────────

/// Each options row shows its own slider: Master Volume the master volume,
/// Music Volume the music volume, Effects Volume the effects volume and Game
/// Speed the game speed.
pub proof fn lemma_option_rows_show_their_own_slider(s: GameSettings)
    ensures
        option_label(0) == "Master Volume"@ && setting_value(s, 0) == s.master_volume,
        option_label(1) == "Music Volume"@ && setting_value(s, 1) == s.music_volume,
        option_label(2) == "Effects Volume"@ && setting_value(s, 2) == s.effects_volume,
        option_label(3) == "Game Speed"@ && setting_value(s, 3) == s.game_speed,
{
}

/// At most one list button of the main menu shows the focus, and none while
/// an overlay is open or SELECT CHARACTER has it.
pub proof fn lemma_one_focus_on_main_menu(selected: nat, sub: MenuSubScreen, select_char: bool, i: int, j: int)
    requires
        0 <= i < 4,
        0 <= j < 4,
        i != j,
    ensures
        !((i == selected && sub == MenuSubScreen::NoOverlay && !select_char) && (j == selected
            && sub == MenuSubScreen::NoOverlay && !select_char)),
        (sub != MenuSubScreen::NoOverlay || select_char) ==> !(i == selected && sub
            == MenuSubScreen::NoOverlay && !select_char),
{
}

/// The main menu's focus: at most one of its five buttons shows it, one does
/// exactly when no overlay is open or SELECT CHARACTER has it, and that one is
/// SELECT CHARACTER when it has the focus, else the selected list button.
pub proof fn lemma_main_menu_focus(m: MenuModel)
    requires
        model_wf(m),
    ensures
        forall|i: int, j: int|
            0 <= i < 5 && 0 <= j < 5 && main_button_focused(m, i) && main_button_focused(m, j)
                ==> i == j,
        (exists|i: int| 0 <= i < 5 && #[trigger] main_button_focused(m, i)) <==> (m.sub_screen
            == MenuSubScreen::NoOverlay || m.select_char_focused),
        m.select_char_focused ==> main_button_focused(m, 4),
        (!m.select_char_focused && m.sub_screen == MenuSubScreen::NoOverlay) ==> main_button_focused(
            m,
            m.menu_selected as int,
        ),
{
    if m.select_char_focused {
        assert(main_button_focused(m, 4));
    } else if m.sub_screen == MenuSubScreen::NoOverlay {
        assert(main_button_focused(m, m.menu_selected as int));
    }
}

/// The quit dialog's two buttons, CLOSE GAME then CONTINUE PLAYING; exactly
/// one shows the focus.
pub fn quit_dialog_buttons(close_focused: bool) -> (b: Vec<ButtonFace>)
    ensures
        b@.len() == 2,
        b@[0].label@ == "CLOSE GAME"@,
        b@[0].focused == close_focused,
        b@[1].label@ == "CONTINUE PLAYING"@,
        b@[1].focused == !close_focused,
{
    let mut b: Vec<ButtonFace> = Vec::new();
    b.push(ButtonFace { label: "CLOSE GAME", focused: close_focused });
    b.push(ButtonFace { label: "CONTINUE PLAYING", focused: !close_focused });
    b
}

/// The game is drawn on every screen but the main menu, always first, and the
/// options panel is drawn exactly when it is open.
pub proof fn lemma_layers(screen: GameScreen, sub: MenuSubScreen)
    ensures
        layers_of(screen, sub).len() >= 1,
        screen != GameScreen::MainMenu ==> layers_of(screen, sub)[0] == Layer::Game,
        screen == GameScreen::MainMenu ==> layers_of(screen, sub)[0] == Layer::MainMenu,
        (screen == GameScreen::MainMenu || screen == GameScreen::Paused) ==> (
        layers_of(screen, sub).contains(Layer::Options) <==> sub == MenuSubScreen::Options),
{
    if screen == GameScreen::MainMenu {
        assert(layers_of(screen, sub) =~= seq![Layer::MainMenu] + overlay_layers(sub));
        if sub != MenuSubScreen::Options {
            assert(forall|k: int| 0 <= k < layers_of(screen, sub).len() ==> layers_of(screen, sub)[k] != Layer::Options);
        } else {
            assert(layers_of(screen, sub)[1] == Layer::Options);
        }
    } else if screen == GameScreen::Paused {
        if sub == MenuSubScreen::Options {
            assert(layers_of(screen, sub)[2] == Layer::Options);
        }
    }
}

} // verus!
