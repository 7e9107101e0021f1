//! Which screen, panel and menu entries the user interface shows.

use vstd::prelude::*;
use crate::music::GameState;

verus! {

/// The tabs of the side menu.
#[derive(Clone, Copy, Debug, PartialEq, Eq, Structural)]
pub enum GameTab {
    Adventure,
    Upgrades,
    Settings,
    Shop,
    NullGameTab,
}

/// What the main game area shows.
#[derive(Clone, Copy, Debug, PartialEq, Eq, Structural)]
pub enum MainGameView {
    /// The menu that starts an adventure.
    GameMenu,
    /// The running game world.
    Graphics,
    /// The defeat picture.
    DeathScreen,
    /// Nothing.
    Nothing,
}

/// The main area for each game state: the start menu when ready, the game
/// world while playing, the defeat picture when dead, nothing otherwise.
pub open spec fn spec_main_game_view(state: GameState) -> MainGameView {
    match state {
        GameState::Ready => MainGameView::GameMenu,
        GameState::Playing => MainGameView::Graphics,
        GameState::Dead => MainGameView::DeathScreen,
        _ => MainGameView::Nothing,
    }
}

/// What the main game area shows in a game state.
pub fn main_game_view(state: GameState) -> (v: MainGameView)
    ensures
        v == spec_main_game_view(state),
{
    match state {
        GameState::Ready => MainGameView::GameMenu,
        GameState::Playing => MainGameView::Graphics,
        GameState::Dead => MainGameView::DeathScreen,
        _ => MainGameView::Nothing,
    }
}

/// A menu entry: its label and the game state it switches to.
pub struct MenuEntry {
    pub text: &'static str,
    pub state: GameState,
}

/// The entries of the defeat menu.
pub fn death_menu_entries() -> (v: Vec<MenuEntry>)
    ensures
        v.len() == 2,
        v@[0].text@ == "Return to Lair"@ && v@[0].state == GameState::Lair,
        v@[1].text@ == "Quit"@ && v@[1].state == GameState::Quitting,
{
    vec![
        MenuEntry { text: "Return to Lair", state: GameState::Lair },
        MenuEntry { text: "Quit", state: GameState::Quitting },
    ]
}

/// The entries of the pause menu.
pub fn pause_menu_entries() -> (v: Vec<MenuEntry>)
    ensures
        v.len() == 2,
        v@[0].text@ == "Resume Game"@ && v@[0].state == GameState::Playing,
        v@[1].text@ == "Quit"@ && v@[1].state == GameState::Quitting,
{
    vec![
        MenuEntry { text: "Resume Game", state: GameState::Playing },
        MenuEntry { text: "Quit", state: GameState::Quitting },
    ]
}

/// A side-menu entry: its icon, its label and the tab it opens.
pub struct TabEntry {
    pub icon: &'static str,
    pub text: &'static str,
    pub tab: GameTab,
}

/// The tab entries of the side menu, top to bottom (the exit entry follows them).
pub fn side_menu_entries() -> (v: Vec<TabEntry>)
    ensures
        v.len() == 4,
        v@[0].icon@ == "adventure"@ && v@[0].text@ == "Adventure"@ && v@[0].tab
            == GameTab::Adventure,
        v@[1].icon@ == "upgrade"@ && v@[1].text@ == "Upgrades"@ && v@[1].tab == GameTab::Upgrades,
        v@[2].icon@ == "settings"@ && v@[2].text@ == "Settings"@ && v@[2].tab == GameTab::Settings,
        v@[3].icon@ == "shop"@ && v@[3].text@ == "Shop"@ && v@[3].tab == GameTab::Shop,
{
    vec![
        TabEntry { icon: "adventure", text: "Adventure", tab: GameTab::Adventure },
        TabEntry { icon: "upgrade", text: "Upgrades", tab: GameTab::Upgrades },
        TabEntry { icon: "settings", text: "Settings", tab: GameTab::Settings },
        TabEntry { icon: "shop", text: "Shop", tab: GameTab::Shop },
    ]
}

/// The panel the central area shows.
#[derive(Clone, Copy, Debug, PartialEq, Eq, Structural)]
pub enum Panel {
    MainGame,
    Settings,
    Shop,
    Upgrades,
    Blank,
}

/// The panel for each tab: adventure is the main game; the empty tab shows nothing.
pub open spec fn spec_panel_for_tab(tab: GameTab) -> Panel {
    match tab {
        GameTab::Adventure => Panel::MainGame,
        GameTab::Settings => Panel::Settings,
        GameTab::Shop => Panel::Shop,
        GameTab::Upgrades => Panel::Upgrades,
        GameTab::NullGameTab => Panel::Blank,
    }
}

/// The panel the central area shows for the current tab.
pub fn panel_for_tab(tab: GameTab) -> (p: Panel)
    ensures
        p == spec_panel_for_tab(tab),
{
    match tab {
        GameTab::Adventure => Panel::MainGame,
        GameTab::Settings => Panel::Settings,
        GameTab::Shop => Panel::Shop,
        GameTab::Upgrades => Panel::Upgrades,
        GameTab::NullGameTab => Panel::Blank,
    }
}

} // verus!
