use flappy_animals::menu::{
    max_option, BackgroundStyle, Key, MainMenuOption, MenuAction, MenuState, PlayerStyle, Settings,
};

fn press(m: &mut MenuState, s: &mut Settings, k: Key) -> MenuAction {
    m.handle_key(s, k)
}

#[test]
fn down_and_up_stay_in_range() {
    let mut m = MenuState::new();
    let mut s = Settings::new();
    for _ in 0..10 {
        press(&mut m, &mut s, Key::Down);
    }
    assert_eq!(m.selected_option, 4);
    for _ in 0..10 {
        press(&mut m, &mut s, Key::Up);
    }
    assert_eq!(m.selected_option, 0);
}

#[test]
fn selection_in_range_under_key_sequences() {
    let keys = [
        Key::Down, Key::Up, Key::Return, Key::Left, Key::Right, Key::Escape, Key::Space, Key::Q,
    ];
    let mut m = MenuState::new();
    let mut s = Settings::new();
    let mut seed: u32 = 12345;
    for _ in 0..5000 {
        seed = seed.wrapping_mul(1103515245).wrapping_add(12345);
        let k = keys[((seed >> 16) % keys.len() as u32) as usize];
        press(&mut m, &mut s, k);
        assert!(m.selected_option >= 0);
        assert!(m.selected_option <= max_option(m.current_menu));
        assert!(s.obstacle_distance >= 40 && s.obstacle_distance <= 60);
    }
}

#[test]
fn return_opens_panels_and_back_restores_row() {
    let mut m = MenuState::new();
    let mut s = Settings::new();
    assert_eq!(press(&mut m, &mut s, Key::Return), MenuAction::StartGame);
    press(&mut m, &mut s, Key::Down);
    press(&mut m, &mut s, Key::Return);
    assert_eq!(m, MenuState { current_menu: MainMenuOption::Background, selected_option: 0 });
    press(&mut m, &mut s, Key::Return);
    assert_eq!(s.background_style, BackgroundStyle::Stars);
    press(&mut m, &mut s, Key::Down);
    press(&mut m, &mut s, Key::Return);
    assert_eq!(s.background_style, BackgroundStyle::Clouds);
    assert_eq!(m.current_menu, MainMenuOption::Background);
    press(&mut m, &mut s, Key::Down);
    press(&mut m, &mut s, Key::Down);
    press(&mut m, &mut s, Key::Return);
    assert_eq!(m, MenuState { current_menu: MainMenuOption::Main, selected_option: 1 });

    press(&mut m, &mut s, Key::Down);
    press(&mut m, &mut s, Key::Return);
    assert_eq!(m.current_menu, MainMenuOption::Player);
    press(&mut m, &mut s, Key::Return);
    assert_eq!(s.player_style, PlayerStyle::Dragon);
    press(&mut m, &mut s, Key::Down);
    press(&mut m, &mut s, Key::Return);
    assert_eq!(s.player_style, PlayerStyle::Bird);
    press(&mut m, &mut s, Key::Down);
    press(&mut m, &mut s, Key::Down);
    press(&mut m, &mut s, Key::Return);
    assert_eq!(m, MenuState { current_menu: MainMenuOption::Main, selected_option: 2 });
}

#[test]
fn obstacle_panel_adjusts_spacing_within_bounds() {
    let mut m = MenuState { current_menu: MainMenuOption::Main, selected_option: 3 };
    let mut s = Settings::new();
    press(&mut m, &mut s, Key::Return);
    assert_eq!(m, MenuState { current_menu: MainMenuOption::Obstacle, selected_option: 0 });
    press(&mut m, &mut s, Key::Right);
    assert_eq!(s.obstacle_distance, 55);
    press(&mut m, &mut s, Key::Right);
    press(&mut m, &mut s, Key::Right);
    assert_eq!(s.obstacle_distance, 60);
    for _ in 0..6 {
        press(&mut m, &mut s, Key::Left);
    }
    assert_eq!(s.obstacle_distance, 40);
    press(&mut m, &mut s, Key::Return);
    assert_eq!(m.current_menu, MainMenuOption::Obstacle);
    press(&mut m, &mut s, Key::Down);
    press(&mut m, &mut s, Key::Right);
    assert_eq!(s.obstacle_distance, 40);
    press(&mut m, &mut s, Key::Return);
    assert_eq!(m, MenuState { current_menu: MainMenuOption::Main, selected_option: 3 });
}

#[test]
fn left_right_ignored_elsewhere() {
    let mut m = MenuState::new();
    let mut s = Settings::new();
    press(&mut m, &mut s, Key::Left);
    press(&mut m, &mut s, Key::Right);
    assert_eq!(s, Settings::new());
}

#[test]
fn escape_returns_to_main() {
    let mut m = MenuState { current_menu: MainMenuOption::Player, selected_option: 2 };
    let mut s = Settings::new();
    press(&mut m, &mut s, Key::Escape);
    assert_eq!(m, MenuState::new());
}

#[test]
fn quit_row_asks_to_quit() {
    let mut m = MenuState { current_menu: MainMenuOption::Main, selected_option: 4 };
    let mut s = Settings::new();
    assert_eq!(press(&mut m, &mut s, Key::Return), MenuAction::Quit);
}

#[test]
fn active_rows_follow_settings() {
    let s = Settings::new();
    assert!(s.row_is_active(MainMenuOption::Background, 2));
    assert!(!s.row_is_active(MainMenuOption::Background, 0));
    assert!(s.row_is_active(MainMenuOption::Player, 2));
    assert!(!s.row_is_active(MainMenuOption::Player, 3));
    assert!(!s.row_is_active(MainMenuOption::Main, 2));
}
