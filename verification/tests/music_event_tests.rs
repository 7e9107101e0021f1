use dragon_lair::events::{window_event_action, FramebufferSize, WindowAction, WindowEventKind};
use dragon_lair::music::{music_step, GameState, MusicAction};

#[test]
fn music_starts_once_while_playing() {
    let mut current = None;
    assert_eq!(music_step(GameState::Playing, &mut current), MusicAction::Play("midnight_wander".to_string()));
    assert_eq!(current.as_deref(), Some("midnight_wander"));
    assert_eq!(music_step(GameState::Playing, &mut current), MusicAction::KeepPlaying);
    assert_eq!(current.as_deref(), Some("midnight_wander"));
}

#[test]
fn music_fades_outside_play() {
    let mut current = Some("midnight_wander".to_string());
    assert_eq!(music_step(GameState::Dead, &mut current), MusicAction::FadeOutAll);
    assert_eq!(current, None);
    assert_eq!(music_step(GameState::Lair, &mut current), MusicAction::FadeOutAll);
}

#[test]
fn other_track_is_replaced() {
    let mut current = Some("something_else".to_string());
    assert_eq!(music_step(GameState::Playing, &mut current), MusicAction::Play("midnight_wander".to_string()));
}

#[test]
fn window_events() {
    assert_eq!(window_event_action(true, WindowEventKind::CloseRequested, true), WindowAction::Ignore);
    assert_eq!(window_event_action(false, WindowEventKind::CloseRequested, false), WindowAction::Exit);
    assert_eq!(window_event_action(false, WindowEventKind::RedrawRequested, true), WindowAction::Redraw);
    assert_eq!(window_event_action(false, WindowEventKind::RedrawRequested, false), WindowAction::Ignore);
    assert_eq!(window_event_action(false, WindowEventKind::Other, true), WindowAction::Ignore);
}

#[test]
fn framebuffer_resizes_once() {
    let mut size = FramebufferSize { width: 800, height: 600 };
    assert!(!size.resize(800, 600));
    assert!(size.resize(1280, 720));
    assert_eq!(size, FramebufferSize { width: 1280, height: 720 });
    assert!(!size.resize(1280, 720));
}

use dragon_lair::screens::{death_menu_entries, main_game_view, pause_menu_entries, side_menu_entries, GameTab, MainGameView};

#[test]
fn main_views() {
    assert_eq!(main_game_view(GameState::Ready), MainGameView::GameMenu);
    assert_eq!(main_game_view(GameState::Playing), MainGameView::Graphics);
    assert_eq!(main_game_view(GameState::Dead), MainGameView::DeathScreen);
    assert_eq!(main_game_view(GameState::Lair), MainGameView::Nothing);
    assert_eq!(main_game_view(GameState::Quitting), MainGameView::Nothing);
}

#[test]
fn menus() {
    let d = death_menu_entries();
    assert_eq!((d[0].text, d[0].state), ("Return to Lair", GameState::Lair));
    assert_eq!((d[1].text, d[1].state), ("Quit", GameState::Quitting));
    let p = pause_menu_entries();
    assert_eq!((p[0].text, p[0].state), ("Resume Game", GameState::Playing));
    assert_eq!((p[1].text, p[1].state), ("Quit", GameState::Quitting));
    let s = side_menu_entries();
    let tabs: Vec<_> = s.iter().map(|e| (e.icon, e.text, e.tab)).collect();
    assert_eq!(
        tabs,
        vec![
            ("adventure", "Adventure", GameTab::Adventure),
            ("upgrade", "Upgrades", GameTab::Upgrades),
            ("settings", "Settings", GameTab::Settings),
            ("shop", "Shop", GameTab::Shop),
        ]
    );
}

use dragon_lair::screens::{panel_for_tab, Panel};
use dragon_lair::interaction::{progress_bar_label, BarLabel};

#[test]
fn panels_for_tabs() {
    assert_eq!(panel_for_tab(GameTab::Adventure), Panel::MainGame);
    assert_eq!(panel_for_tab(GameTab::Settings), Panel::Settings);
    assert_eq!(panel_for_tab(GameTab::Shop), Panel::Shop);
    assert_eq!(panel_for_tab(GameTab::Upgrades), Panel::Upgrades);
    assert_eq!(panel_for_tab(GameTab::NullGameTab), Panel::Blank);
}

#[test]
fn bar_labels() {
    assert_eq!(progress_bar_label(true, false), BarLabel::LevelUp);
    assert_eq!(progress_bar_label(true, true), BarLabel::LevelUp);
    assert_eq!(progress_bar_label(false, true), BarLabel::Percentage);
    assert_eq!(progress_bar_label(false, false), BarLabel::NoLabel);
}
