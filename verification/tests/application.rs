use crabber_menu::application::Application;
use crabber_menu::application::ApplicationMode;
use crabber_menu::application::GAME_SECONDS;
use crabber_menu::interaction::Interaction;
use crabber_menu::menu::MenuButtonAction;
use crabber_menu::menu::MenuState;
use crabber_menu::screen::ScreenRegistry;
use crabber_menu::screen::ScreenTag;
use crabber_menu::settings::Difficulty;

fn press(action: MenuButtonAction) -> Vec<(Interaction, MenuButtonAction)> {
    vec![(Interaction::Clicked, action)]
}

fn none() -> Vec<(Interaction, Difficulty)> {
    Vec::new()
}

fn labels(registry: &ScreenRegistry) -> Vec<&'static str> {
    let mut found = Vec::new();
    for element in registry.elements() {
        if let crabber_menu::screen::Widget::Text { label, .. } = element.node.widget {
            found.push(label);
        }
    }
    found
}

fn shows_exactly(app: &Application, tag: Option<ScreenTag>, count: usize) {
    assert_eq!(app.registry().len(), count);
    for element in app.registry().elements() {
        assert_eq!(Some(element.tag), tag);
    }
    assert_eq!(app.menu_state().screen_tag(), tag);
}

#[test]
fn application_starts_in_the_main_menu() {
    let app = Application::new();
    assert_eq!(app.mode(), ApplicationMode::Menu);
    assert_eq!(app.menu_state(), MenuState::Main);
    assert_eq!(app.difficulty(), Difficulty::Normal);
    assert_eq!(app.nick(), "Player");
    shows_exactly(&app, Some(ScreenTag::MainScreen), 6);
    assert_eq!(labels(app.registry()), vec!["Crabber", "New Game", "Load Game"]);
}

#[test]
fn play_shows_the_difficulty_screen() {
    let mut app = Application::new();
    let change = app.update(&press(MenuButtonAction::Play), &none());
    assert_eq!(change, Some((MenuState::Main, MenuState::Difficulty)));
    assert_eq!(app.mode(), ApplicationMode::Menu);
    assert_eq!(app.menu_state(), MenuState::Difficulty);
    shows_exactly(&app, Some(ScreenTag::DifficultyScreen), 11);
    let options: Vec<Difficulty> =
        app.registry().elements().iter().filter_map(|e| e.node.setting()).collect();
    assert_eq!(options, vec![Difficulty::Easy, Difficulty::Normal, Difficulty::Hard]);
    let back = app
        .registry()
        .elements()
        .iter()
        .filter(|e| e.node.action() == Some(MenuButtonAction::BackToMainMenu))
        .count();
    assert_eq!(back, 1);
    assert_eq!(
        labels(app.registry()),
        vec!["Difficulty", "Easy", "Normal", "Hard", "Back"]
    );
}

#[test]
fn hard_option_starts_the_game() {
    let mut app = Application::new();
    app.update(&press(MenuButtonAction::Play), &none());
    let options = vec![
        (Interaction::Idle, Difficulty::Easy),
        (Interaction::Idle, Difficulty::Normal),
        (Interaction::Clicked, Difficulty::Hard),
    ];
    let actions = vec![
        (Interaction::Idle, MenuButtonAction::StartGame),
        (Interaction::Idle, MenuButtonAction::StartGame),
        (Interaction::Clicked, MenuButtonAction::StartGame),
        (Interaction::Idle, MenuButtonAction::BackToMainMenu),
    ];
    let change = app.update(&actions, &options);
    assert_eq!(change, Some((MenuState::Difficulty, MenuState::Disabled)));
    assert_eq!(app.difficulty(), Difficulty::Hard);
    assert_eq!(app.menu_state(), MenuState::Disabled);
    assert_eq!(app.mode(), ApplicationMode::Game);
    shows_exactly(&app, None, 0);
}

#[test]
fn wait_returns_to_the_main_menu() {
    let mut app = Application::new();
    app.update(&press(MenuButtonAction::Play), &none());
    app.update(
        &press(MenuButtonAction::StartGame),
        &vec![(Interaction::Clicked, Difficulty::Hard)],
    );
    assert_eq!(app.mode(), ApplicationMode::Game);
    // No input while the game runs.
    assert_eq!(app.update(&Vec::new(), &none()), None);
    assert!(app.wait_elapsed());
    assert_eq!(app.mode(), ApplicationMode::Menu);
    assert_eq!(app.menu_state(), MenuState::Main);
    assert_eq!(app.difficulty(), Difficulty::Hard);
    assert_eq!(app.nick(), "Player");
    shows_exactly(&app, Some(ScreenTag::MainScreen), 6);
}

#[test]
fn load_and_back_rebuilds_the_main_screen() {
    let mut app = Application::new();
    let start = app.registry().elements().clone();
    let change = app.update(&press(MenuButtonAction::Load), &none());
    assert_eq!(change, Some((MenuState::Main, MenuState::Load)));
    assert_eq!(app.mode(), ApplicationMode::Menu);
    assert_eq!(app.menu_state(), MenuState::Load);
    shows_exactly(&app, Some(ScreenTag::LoadScreen), 4);
    assert_eq!(labels(app.registry()), vec!["Load Game", "Back"]);
    let change = app.update(&press(MenuButtonAction::BackToMainMenu), &none());
    assert_eq!(change, Some((MenuState::Load, MenuState::Main)));
    assert_eq!(app.mode(), ApplicationMode::Menu);
    assert_eq!(app.menu_state(), MenuState::Main);
    assert!(app.registry().live(ScreenTag::LoadScreen).is_empty());
    assert_eq!(app.registry().elements(), &start);
}

#[test]
fn difficulty_and_back_keeps_the_selection() {
    let mut app = Application::new();
    app.update(&press(MenuButtonAction::Play), &none());
    let change = app.update(
        &vec![(Interaction::Hovered, MenuButtonAction::StartGame)],
        &vec![(Interaction::Hovered, Difficulty::Easy)],
    );
    assert_eq!(change, None);
    assert_eq!(app.difficulty(), Difficulty::Normal);
    let change = app.update(&press(MenuButtonAction::BackToMainMenu), &none());
    assert_eq!(change, Some((MenuState::Difficulty, MenuState::Main)));
    assert_eq!(app.difficulty(), Difficulty::Normal);
    shows_exactly(&app, Some(ScreenTag::MainScreen), 6);
}

#[test]
fn update_in_the_game_changes_nothing() {
    let mut app = Application::new();
    app.update(&press(MenuButtonAction::Play), &none());
    app.update(
        &press(MenuButtonAction::StartGame),
        &vec![(Interaction::Clicked, Difficulty::Easy)],
    );
    assert_eq!(app.mode(), ApplicationMode::Game);
    for action in [
        MenuButtonAction::Play,
        MenuButtonAction::StartGame,
        MenuButtonAction::Load,
        MenuButtonAction::BackToMainMenu,
    ] {
        let change = app.update(&press(action), &vec![(Interaction::Clicked, Difficulty::Hard)]);
        assert_eq!(change, None);
        assert_eq!(app.mode(), ApplicationMode::Game);
        assert_eq!(app.menu_state(), MenuState::Disabled);
        assert_eq!(app.difficulty(), Difficulty::Easy);
        assert!(app.registry().is_empty());
    }
}

#[test]
fn wait_elapsed_in_the_menu_changes_nothing() {
    let mut app = Application::new();
    assert!(!app.wait_elapsed());
    assert_eq!(app.mode(), ApplicationMode::Menu);
    assert_eq!(app.menu_state(), MenuState::Main);
    app.update(&press(MenuButtonAction::Load), &none());
    let before = app.registry().elements().clone();
    assert!(!app.wait_elapsed());
    assert_eq!(app.mode(), ApplicationMode::Menu);
    assert_eq!(app.menu_state(), MenuState::Load);
    assert_eq!(app.registry().elements(), &before);
}

#[test]
fn clicks_that_the_screen_does_not_offer_do_nothing() {
    let mut app = Application::new();
    for action in [MenuButtonAction::StartGame, MenuButtonAction::BackToMainMenu] {
        let change = app.update(&press(action), &vec![(Interaction::Clicked, Difficulty::Hard)]);
        assert_eq!(change, None);
        assert_eq!(app.mode(), ApplicationMode::Menu);
        assert_eq!(app.menu_state(), MenuState::Main);
        assert_eq!(app.difficulty(), Difficulty::Normal);
        shows_exactly(&app, Some(ScreenTag::MainScreen), 6);
    }
}

#[test]
fn game_wait_is_five_seconds() {
    assert_eq!(GAME_SECONDS, 5);
}

#[test]
fn walk_never_leaves_the_table() {
    // A long walk over the buttons that the current screen offers, chosen by
    // a fixed sequence of numbers.
    let mut app = Application::new();
    let mut seed: u64 = 0x2545_f491_4f6c_dd1d;
    let mut games = 0;
    for _ in 0..2000 {
        seed = seed.wrapping_mul(6364136223846793005).wrapping_add(1442695040888963407);
        let pick = (seed >> 33) as usize;
        if app.mode() == ApplicationMode::Game {
            assert_eq!(app.menu_state(), MenuState::Disabled);
            assert!(app.registry().is_empty());
            let kept = app.difficulty();
            assert!(app.wait_elapsed());
            assert_eq!(app.difficulty(), kept);
            assert_eq!(app.menu_state(), MenuState::Main);
            games += 1;
            continue;
        }
        let buttons: Vec<(MenuButtonAction, Option<Difficulty>)> = app
            .registry()
            .elements()
            .iter()
            .filter_map(|e| e.node.action().map(|a| (a, e.node.setting())))
            .collect();
        assert!(!buttons.is_empty());
        let (action, setting) = buttons[pick % buttons.len()];
        let before = app.menu_state();
        let expected = before.next(action).expect("the screen offers what the table has");
        let options: Vec<(Interaction, Difficulty)> =
            setting.iter().map(|d| (Interaction::Clicked, *d)).collect();
        let change = app.update(&press(action), &options);
        assert_eq!(change, Some((before, expected)));
        assert_eq!(app.menu_state(), expected);
        if let Some(chosen) = setting {
            assert_eq!(app.difficulty(), chosen);
        }
        let tag = expected.screen_tag();
        for element in app.registry().elements() {
            assert_eq!(Some(element.tag), tag);
        }
        let mut fresh = ScreenRegistry::new();
        crabber_menu::menu::MenuPlugin::on_enter(expected, &mut fresh);
        assert_eq!(app.registry().elements(), fresh.elements());
        assert_eq!(app.mode() == ApplicationMode::Game, expected == MenuState::Disabled);
    }
    assert!(games > 0);
}
