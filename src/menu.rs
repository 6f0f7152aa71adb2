use vstd::prelude::*;
use crate::config::{
    DEFAULT_OBSTACLE_DISTANCE, MAX_OBSTACLE_DISTANCE, MIN_OBSTACLE_DISTANCE,
    OBSTACLE_DISTANCE_STEP,
};

verus! {

/// The panels of the menu.
#[derive(Clone, Copy, Debug, PartialEq, Eq, Structural)]
pub enum MainMenuOption {
    Main,
    Background,
    Player,
    Obstacle,
}

/// Background skins.
#[derive(Clone, Copy, Debug, PartialEq, Eq, Structural)]
pub enum BackgroundStyle {
    Stars,
    Clouds,
    Mountains,
}

/// Player skins.
#[derive(Clone, Copy, Debug, PartialEq, Eq, Structural)]
pub enum PlayerStyle {
    Dragon,
    Bird,
    Duck,
}

/// The keys the game reacts to; any other key is `Other`.
#[derive(Clone, Copy, Debug, PartialEq, Eq, Structural)]
pub enum Key {
    Space,
    Up,
    Down,
    Left,
    Right,
    Return,
    Escape,
    P,
    M,
    Q,
    Other,
}

/// What the menu asks of the game after a key press.
#[derive(Clone, Copy, Debug, PartialEq, Eq, Structural)]
pub enum MenuAction {
    Stay,
    StartGame,
    Quit,
}

/// The settings chosen in the menu.
#[derive(Clone, Copy, Debug, PartialEq, Eq, Structural)]
pub struct Settings {
    pub background_style: BackgroundStyle,
    pub player_style: PlayerStyle,
    pub obstacle_distance: i32,
}

/// The panel shown and the highlighted row on it.
#[derive(Clone, Copy, Debug, PartialEq, Eq, Structural)]
pub struct MenuState {
    pub current_menu: MainMenuOption,
    pub selected_option: i32,
}

/// Index of the last row of a panel.
pub open spec fn max_option_spec(menu: MainMenuOption) -> int {
    match menu {
        MainMenuOption::Main => 4,
        MainMenuOption::Background => 3,
        MainMenuOption::Player => 3,
        MainMenuOption::Obstacle => 1,
    }
}

/// Index of the last row of a panel.
pub fn max_option(menu: MainMenuOption) -> (r: i32)
    ensures
        r == max_option_spec(menu),
{
    match menu {
        MainMenuOption::Main => 4,
        MainMenuOption::Background => 3,
        MainMenuOption::Player => 3,
        MainMenuOption::Obstacle => 1,
    }
}

/// The spacing after a Left press on the spacing row.
pub open spec fn spacing_down(d: int) -> int {
    if d - OBSTACLE_DISTANCE_STEP < MIN_OBSTACLE_DISTANCE {
        MIN_OBSTACLE_DISTANCE as int
    } else {
        d - OBSTACLE_DISTANCE_STEP
    }
}

/// The spacing after a Right press on the spacing row.
pub open spec fn spacing_up(d: int) -> int {
    if d + OBSTACLE_DISTANCE_STEP > MAX_OBSTACLE_DISTANCE {
        MAX_OBSTACLE_DISTANCE as int
    } else {
        d + OBSTACLE_DISTANCE_STEP
    }
}

/// The menu's transition on one key press: the new panel and row, the new
/// settings, and what the game is asked to do.
pub open spec fn menu_step(m: MenuState, s: Settings, key: Key) -> (
    MainMenuOption,
    int,
    Settings,
    MenuAction,
) {
    let (menu, sel) = (m.current_menu, m.selected_option as int);
    match key {
        Key::Up => (menu, if sel > 0 { sel - 1 } else { sel }, s, MenuAction::Stay),
        Key::Down => (
            menu,
            if sel < max_option_spec(menu) { sel + 1 } else { sel },
            s,
            MenuAction::Stay,
        ),
        Key::Return => match menu {
            MainMenuOption::Main => if sel == 0 {
                (menu, sel, s, MenuAction::StartGame)
            } else if sel == 1 {
                (MainMenuOption::Background, 0, s, MenuAction::Stay)
            } else if sel == 2 {
                (MainMenuOption::Player, 0, s, MenuAction::Stay)
            } else if sel == 3 {
                (MainMenuOption::Obstacle, 0, s, MenuAction::Stay)
            } else if sel == 4 {
                (menu, sel, s, MenuAction::Quit)
            } else {
                (menu, sel, s, MenuAction::Stay)
            },
            MainMenuOption::Background => if sel == 0 {
                (menu, sel, Settings { background_style: BackgroundStyle::Stars, ..s }, MenuAction::Stay)
            } else if sel == 1 {
                (menu, sel, Settings { background_style: BackgroundStyle::Clouds, ..s }, MenuAction::Stay)
            } else if sel == 2 {
                (menu, sel, Settings { background_style: BackgroundStyle::Mountains, ..s }, MenuAction::Stay)
            } else if sel == 3 {
                (MainMenuOption::Main, 1, s, MenuAction::Stay)
            } else {
                (menu, sel, s, MenuAction::Stay)
            },
            MainMenuOption::Player => if sel == 0 {
                (menu, sel, Settings { player_style: PlayerStyle::Dragon, ..s }, MenuAction::Stay)
            } else if sel == 1 {
                (menu, sel, Settings { player_style: PlayerStyle::Bird, ..s }, MenuAction::Stay)
            } else if sel == 2 {
                (menu, sel, Settings { player_style: PlayerStyle::Duck, ..s }, MenuAction::Stay)
            } else if sel == 3 {
                (MainMenuOption::Main, 2, s, MenuAction::Stay)
            } else {
                (menu, sel, s, MenuAction::Stay)
            },
            MainMenuOption::Obstacle => if sel == 1 {
                (MainMenuOption::Main, 3, s, MenuAction::Stay)
            } else {
                (menu, sel, s, MenuAction::Stay)
            },
        },
        Key::Left => if menu == MainMenuOption::Obstacle && sel == 0 {
            (menu, sel, Settings { obstacle_distance: spacing_down(s.obstacle_distance as int) as i32, ..s }, MenuAction::Stay)
        } else {
            (menu, sel, s, MenuAction::Stay)
        },
        Key::Right => if menu == MainMenuOption::Obstacle && sel == 0 {
            (menu, sel, Settings { obstacle_distance: spacing_up(s.obstacle_distance as int) as i32, ..s }, MenuAction::Stay)
        } else {
            (menu, sel, s, MenuAction::Stay)
        },
        Key::Escape => (MainMenuOption::Main, 0, s, MenuAction::Stay),
        _ => (menu, sel, s, MenuAction::Stay),
    }
}

impl Settings {
    /// Well-formed: the spacing is within `[MIN_OBSTACLE_DISTANCE, MAX_OBSTACLE_DISTANCE]`.
    pub open spec fn wf(&self) -> bool {
        MIN_OBSTACLE_DISTANCE <= self.obstacle_distance <= MAX_OBSTACLE_DISTANCE
    }

    /// The settings at start-up: mountains, the duck, the default spacing.
    pub fn new() -> (r: Settings)
        ensures
            r.wf(),
            r.background_style == BackgroundStyle::Mountains,
            r.player_style == PlayerStyle::Duck,
            r.obstacle_distance == DEFAULT_OBSTACLE_DISTANCE,
    {
        Settings {
            background_style: BackgroundStyle::Mountains,
            player_style: PlayerStyle::Duck,
            obstacle_distance: DEFAULT_OBSTACLE_DISTANCE,
        }
    }
}

/// Whether row `row` of panel `menu` names the skin currently chosen: rows
/// 0 to 2 of the background and player panels, in the order of their styles.
pub open spec fn row_is_active_spec(s: Settings, menu: MainMenuOption, row: int) -> bool {
    match menu {
        MainMenuOption::Background => (row == 0 && s.background_style == BackgroundStyle::Stars)
            || (row == 1 && s.background_style == BackgroundStyle::Clouds)
            || (row == 2 && s.background_style == BackgroundStyle::Mountains),
        MainMenuOption::Player => (row == 0 && s.player_style == PlayerStyle::Dragon)
            || (row == 1 && s.player_style == PlayerStyle::Bird)
            || (row == 2 && s.player_style == PlayerStyle::Duck),
        _ => false,
    }
}

impl Settings {
    /// Whether row `row` of panel `menu` is marked as the current choice.
    pub fn row_is_active(&self, menu: MainMenuOption, row: i32) -> (r: bool)
        ensures
            r == row_is_active_spec(*self, menu, row as int),
    {
        match menu {
            MainMenuOption::Background => match self.background_style {
                BackgroundStyle::Stars => row == 0,
                BackgroundStyle::Clouds => row == 1,
                BackgroundStyle::Mountains => row == 2,
            },
            MainMenuOption::Player => match self.player_style {
                PlayerStyle::Dragon => row == 0,
                PlayerStyle::Bird => row == 1,
                PlayerStyle::Duck => row == 2,
            },
            _ => false,
        }
    }
}

impl MenuState {
    /// Well-formed: the highlighted row is one of the panel's rows.
    pub open spec fn wf(&self) -> bool {
        0 <= self.selected_option <= max_option_spec(self.current_menu)
    }

    /// The main panel with its first row highlighted.
    pub fn new() -> (r: MenuState)
        ensures
            r.wf(),
            r.current_menu == MainMenuOption::Main,
            r.selected_option == 0,
    {
        MenuState { current_menu: MainMenuOption::Main, selected_option: 0 }
    }

    /// Applies one key press to the menu and the settings, as `menu_step`
    /// says, and returns what the game is asked to do.
    pub fn handle_key(&mut self, settings: &mut Settings, key: Key) -> (r: MenuAction)
        requires
            old(self).wf(),
            old(settings).wf(),
        ensures
            final(self).wf(),
            final(settings).wf(),
            (final(self).current_menu, final(self).selected_option as int, *final(settings), r)
                == menu_step(*old(self), *old(settings), key),
    {
        match key {
            Key::Up => {
                if self.selected_option > 0 {
                    self.selected_option = self.selected_option - 1;
                }
                MenuAction::Stay
            },
            Key::Down => {
                if self.selected_option < max_option(self.current_menu) {
                    self.selected_option = self.selected_option + 1;
                }
                MenuAction::Stay
            },
            Key::Return => self.enter(settings),
            Key::Left => {
                if self.current_menu == MainMenuOption::Obstacle && self.selected_option == 0 {
                    let d = settings.obstacle_distance - OBSTACLE_DISTANCE_STEP;
                    settings.obstacle_distance = if d < MIN_OBSTACLE_DISTANCE {
                        MIN_OBSTACLE_DISTANCE
                    } else {
                        d
                    };
                }
                MenuAction::Stay
            },
            Key::Right => {
                if self.current_menu == MainMenuOption::Obstacle && self.selected_option == 0 {
                    let d = settings.obstacle_distance + OBSTACLE_DISTANCE_STEP;
                    settings.obstacle_distance = if d > MAX_OBSTACLE_DISTANCE {
                        MAX_OBSTACLE_DISTANCE
                    } else {
                        d
                    };
                }
                MenuAction::Stay
            },
            Key::Escape => {
                self.current_menu = MainMenuOption::Main;
                self.selected_option = 0;
                MenuAction::Stay
            },
            _ => MenuAction::Stay,
        }
    }

    /// The Return key: acts on the highlighted row of the current panel.
    fn enter(&mut self, settings: &mut Settings) -> (r: MenuAction)
        requires
            old(self).wf(),
            old(settings).wf(),
        ensures
            final(self).wf(),
            final(settings).wf(),
            (final(self).current_menu, final(self).selected_option as int, *final(settings), r)
                == menu_step(*old(self), *old(settings), Key::Return),
    {
        let sel = self.selected_option;
        match self.current_menu {
            MainMenuOption::Main => {
                if sel == 0 {
                    MenuAction::StartGame
                } else if sel == 1 {
                    self.open(MainMenuOption::Background, 0);
                    MenuAction::Stay
                } else if sel == 2 {
                    self.open(MainMenuOption::Player, 0);
                    MenuAction::Stay
                } else if sel == 3 {
                    self.open(MainMenuOption::Obstacle, 0);
                    MenuAction::Stay
                } else {
                    MenuAction::Quit
                }
            },
            MainMenuOption::Background => {
                if sel == 0 {
                    settings.background_style = BackgroundStyle::Stars;
                } else if sel == 1 {
                    settings.background_style = BackgroundStyle::Clouds;
                } else if sel == 2 {
                    settings.background_style = BackgroundStyle::Mountains;
                } else {
                    self.open(MainMenuOption::Main, 1);
                }
                MenuAction::Stay
            },
            MainMenuOption::Player => {
                if sel == 0 {
                    settings.player_style = PlayerStyle::Dragon;
                } else if sel == 1 {
                    settings.player_style = PlayerStyle::Bird;
                } else if sel == 2 {
                    settings.player_style = PlayerStyle::Duck;
                } else {
                    self.open(MainMenuOption::Main, 2);
                }
                MenuAction::Stay
            },
            MainMenuOption::Obstacle => {
                if sel == 1 {
                    self.open(MainMenuOption::Main, 3);
                }
                MenuAction::Stay
            },
        }
    }

    /// Shows `menu` with `row` highlighted.
    fn open(&mut self, menu: MainMenuOption, row: i32)
        ensures
            final(self).current_menu == menu,
            final(self).selected_option == row,
    {
        self.current_menu = menu;
        self.selected_option = row;
    }
}

} // verus!
