use crabber_menu::interaction::Interaction;
use crabber_menu::settings::difficulty_button;
use crabber_menu::settings::Difficulty;
use crabber_menu::settings::Nick;
use crabber_menu::settings::Setting;

#[test]
fn select_then_read_returns_the_value() {
    let mut setting = Setting::new(Difficulty::Normal);
    assert_eq!(setting.get(), Difficulty::Normal);
    assert!(setting.select(Difficulty::Hard));
    assert_eq!(setting.get(), Difficulty::Hard);
    assert!(setting.select(Difficulty::Easy));
    assert_eq!(setting.get(), Difficulty::Easy);
}

#[test]
fn select_current_writes_nothing() {
    let mut setting = Setting::new(Difficulty::Normal);
    assert!(!setting.select(Difficulty::Normal));
    assert_eq!(setting.get(), Difficulty::Normal);
    assert!(setting.select(Difficulty::Hard));
    assert!(!setting.select(Difficulty::Hard));
    assert!(!setting.select(Difficulty::Hard));
    assert_eq!(setting.get(), Difficulty::Hard);
}

#[test]
fn setting_of_another_kind() {
    let mut volume = Setting::new(7u32);
    assert!(!volume.select(7));
    assert!(volume.select(9));
    assert_eq!(volume.get(), 9);
    let options = vec![(Interaction::Hovered, 1u32), (Interaction::Clicked, 3u32)];
    assert!(difficulty_button(&options, &mut volume));
    assert_eq!(volume.get(), 3);
}

#[test]
fn difficulty_button_commits_the_clicked_option() {
    let mut setting = Setting::new(Difficulty::Normal);
    let options = vec![
        (Interaction::Idle, Difficulty::Easy),
        (Interaction::Idle, Difficulty::Normal),
        (Interaction::Clicked, Difficulty::Hard),
    ];
    assert!(difficulty_button(&options, &mut setting));
    assert_eq!(setting.get(), Difficulty::Hard);
}

#[test]
fn difficulty_button_ignores_what_is_not_clicked() {
    let mut setting = Setting::new(Difficulty::Normal);
    let options = vec![
        (Interaction::Hovered, Difficulty::Easy),
        (Interaction::Idle, Difficulty::Hard),
        (Interaction::Hovered, Difficulty::Hard),
    ];
    assert!(!difficulty_button(&options, &mut setting));
    assert_eq!(setting.get(), Difficulty::Normal);
}

#[test]
fn difficulty_button_click_on_current_writes_nothing() {
    let mut setting = Setting::new(Difficulty::Normal);
    let options = vec![(Interaction::Clicked, Difficulty::Normal)];
    assert!(!difficulty_button(&options, &mut setting));
    assert_eq!(setting.get(), Difficulty::Normal);
}

#[test]
fn difficulty_button_without_options() {
    let mut setting = Setting::new(Difficulty::Easy);
    let options: Vec<(Interaction, Difficulty)> = Vec::new();
    assert!(!difficulty_button(&options, &mut setting));
    assert_eq!(setting.get(), Difficulty::Easy);
}

#[test]
fn difficulty_button_takes_the_options_in_order() {
    let mut setting = Setting::new(Difficulty::Normal);
    let options = vec![
        (Interaction::Clicked, Difficulty::Hard),
        (Interaction::Hovered, Difficulty::Easy),
        (Interaction::Clicked, Difficulty::Normal),
    ];
    // Written twice, and back where it was.
    assert!(difficulty_button(&options, &mut setting));
    assert_eq!(setting.get(), Difficulty::Normal);
}

#[test]
fn difficulty_labels() {
    assert_eq!(Difficulty::Easy.label(), "Easy");
    assert_eq!(Difficulty::Normal.label(), "Normal");
    assert_eq!(Difficulty::Hard.label(), "Hard");
    assert_eq!(Difficulty::Hard.label(), format!("{:?}", Difficulty::Hard));
}

#[test]
fn every_difficulty_once() {
    assert_eq!(Difficulty::all(), [Difficulty::Easy, Difficulty::Normal, Difficulty::Hard]);
}

#[test]
fn difficulty_equality() {
    for a in Difficulty::all() {
        for b in Difficulty::all() {
            assert_eq!(a == b, a.label() == b.label());
        }
    }
}

#[test]
fn nick_holds_the_name() {
    let nick = Nick(String::from("Player"));
    assert_eq!(nick.0, "Player");
    assert_eq!(nick.clone(), nick);
}

#[test]
fn difficulty_button_with_two_clicks_commits_one_of_them() {
    let either = [
        vec![(Interaction::Clicked, Difficulty::Easy), (Interaction::Clicked, Difficulty::Hard)],
        vec![(Interaction::Clicked, Difficulty::Hard), (Interaction::Clicked, Difficulty::Easy)],
    ];
    for options in either {
        let mut setting = Setting::new(Difficulty::Normal);
        assert!(difficulty_button(&options, &mut setting));
        assert!(setting.get() == Difficulty::Easy || setting.get() == Difficulty::Hard);
    }
}
