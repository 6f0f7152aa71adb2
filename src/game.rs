use vstd::prelude::*;
use crate::config::{
    DEFAULT_OBSTACLE_DISTANCE, MAX_OBSTACLE_DISTANCE,
    FRAME_DURATION_US, GAP_Y_HIGH, GAP_Y_LOW, OBSTACLE_SPEED_HALVES, OFFSET_WRAP, PLAYER_HEIGHT,
    PLAYER_START_X, PLAYER_START_Y, SCREEN_HEIGHT, SCREEN_WIDTH,
};
use crate::menu::{
    menu_step, BackgroundStyle, Key, MainMenuOption, MenuAction, MenuState, PlayerStyle, Settings,
};
use crate::physics::{
    collides, gap_size_for, next_velocity, row_after_gravity, scores_now, Obstacle, Player,
};
use crate::scroll::{advance_offset, advance_offset_spec};

verus! {

/// The three top-level modes of the game.
#[derive(Clone, Copy, Debug, PartialEq, Eq, Structural)]
pub enum GameMode {
    Menu,
    Playing,
    End,
}

/// What a tick asks of the host: a high score to store, and whether to quit.
#[derive(Clone, Copy, Debug, PartialEq, Eq, Structural)]
pub struct TickOutcome {
    pub save_high_score: Option<i32>,
    pub quit: bool,
}

/// The whole game: the player, the obstacles, the score, the menu and the
/// settings, the high score, and the accumulators of time and distance.
#[derive(Debug)]
pub struct State {
    pub player: Player,
    /// Time since the last gravity step, in microseconds.
    pub frame_time_us: u64,
    pub mode: GameMode,
    pub score: i32,
    pub obstacle_list: Vec<Obstacle>,
    /// Background scroll, in millionths of a cell.
    pub background_offset: u64,
    /// Distance scrolled since the last spawn, in half cells.
    pub distance_halves: i32,
    pub menu_state: MenuState,
    pub settings: Settings,
    pub high_score: i32,
}

/// An obstacle after one tick: scrolled left, and scored if the player at
/// column `px` is now past it.
pub open spec fn obstacle_ticked(o: Obstacle, px: int) -> Obstacle {
    let moved = Obstacle { x_halves: (o.x_halves - OBSTACLE_SPEED_HALVES) as i64, ..o };
    Obstacle { scored: o.scored || scores_now(o.scored, px, moved.column()), ..moved }
}

/// Whether a ticked obstacle stays on the list: it is still right of the
/// left edge.
pub open spec fn stays(o: Obstacle) -> bool {
    o.x_halves > 0
}

/// The obstacles of `list` after one tick, without those that left the screen.
pub open spec fn survivors(list: Seq<Obstacle>, px: int) -> Seq<Obstacle>
    decreases list.len(),
{
    if list.len() == 0 {
        Seq::empty()
    } else {
        let rest = survivors(list.drop_last(), px);
        let o = obstacle_ticked(list.last(), px);
        if stays(o) {
            rest.push(o)
        } else {
            rest
        }
    }
}

/// How many obstacles of `list` score on this tick.
pub open spec fn newly_scored(list: Seq<Obstacle>, px: int) -> nat
    decreases list.len(),
{
    if list.len() == 0 {
        0
    } else {
        let o = list.last();
        let moved = Obstacle { x_halves: (o.x_halves - OBSTACLE_SPEED_HALVES) as i64, ..o };
        newly_scored(list.drop_last(), px) + if scores_now(o.scored, px, moved.column()) {
            1nat
        } else {
            0nat
        }
    }
}

/// Whether the player hits some obstacle of `list` once it has ticked.
pub open spec fn hits_any(list: Seq<Obstacle>, p: Player) -> bool {
    exists|i: int|
        0 <= i < list.len() && {
            let o = obstacle_ticked(#[trigger] list[i], p.x as int);
            collides(p.x as int, p.y as int, o.column(), o.gap_y as int, o.size as int)
        }
}

/// `a + b`, saturating at `i32::MAX`.
pub open spec fn saturating_score(a: int, b: int) -> int {
    if a + b > i32::MAX {
        i32::MAX as int
    } else {
        a + b
    }
}

/// The player after the physics of a tick: a gravity step once more than
/// `FRAME_DURATION_US` has gathered, then a flap if Space was pressed.
pub open spec fn player_after(p: Player, frame_time_us: int, elapsed_us: int, key: Option<Key>) -> Player {
    let fallen = if frame_time_us + elapsed_us > FRAME_DURATION_US {
        Player {
            velocity: next_velocity(p.velocity as int) as i32,
            y: row_after_gravity(p.y as int, p.velocity as int) as i32,
            ..p
        }
    } else {
        p
    };
    if key == Some(Key::Space) {
        Player { velocity: crate::config::FLAP_VELOCITY, ..fallen }
    } else {
        fallen
    }
}

/// The frame-time accumulator after a tick.
pub open spec fn frame_time_after(frame_time_us: int, elapsed_us: int) -> int {
    if frame_time_us + elapsed_us > FRAME_DURATION_US {
        0
    } else {
        frame_time_us + elapsed_us
    }
}

/// Whether an obstacle is a fresh spawn at the right edge for `score`.
pub open spec fn is_fresh_obstacle(o: Obstacle, score: int) -> bool {
    &&& o.x_halves == 2 * SCREEN_WIDTH
    &&& GAP_Y_LOW <= o.gap_y < GAP_Y_HIGH
    &&& o.size == gap_size_for(score)
    &&& !o.scored
}

/// Whether the player has fallen past the bottom of the screen.
pub open spec fn fell_off(p: Player) -> bool {
    p.y + PLAYER_HEIGHT > SCREEN_HEIGHT
}

/// The play state that the menu and the end screen leave alone: the player,
/// the score, the obstacles, the frame-time and distance accumulators.
pub open spec fn play_kept(a: State, b: State) -> bool {
    &&& b.player == a.player
    &&& b.score == a.score
    &&& b.obstacle_list@ == a.obstacle_list@
    &&& b.frame_time_us == a.frame_time_us
    &&& b.distance_halves == a.distance_halves
}

/// `b` is a new round started from `a`: playing, the player at the start at
/// rest, score and accumulators at zero, one fresh obstacle at the right edge
/// for score zero; the menu and the settings are kept.
pub open spec fn restarted(a: State, b: State) -> bool {
    &&& b.mode == GameMode::Playing
    &&& b.player == (Player { x: PLAYER_START_X, y: PLAYER_START_Y, velocity: 0 })
    &&& b.score == 0
    &&& b.frame_time_us == 0
    &&& b.background_offset == 0
    &&& b.distance_halves == 0
    &&& b.obstacle_list@.len() == 1
    &&& is_fresh_obstacle(b.obstacle_list@[0], 0)
    &&& b.menu_state == a.menu_state
    &&& b.settings == a.settings
}

/// `b` is `a` after one tick of play with `elapsed_us` microseconds and `key`.
pub open spec fn playing_post(a: State, b: State, elapsed_us: int, key: Option<Key>) -> bool {
    let p = player_after(a.player, a.frame_time_us as int, elapsed_us, key);
    let survived = survivors(a.obstacle_list@, p.x as int);
    let spawned = a.distance_halves + 1 > 2 * a.settings.obstacle_distance;
    &&& b.player == p
    &&& b.frame_time_us == frame_time_after(a.frame_time_us as int, elapsed_us)
    &&& b.background_offset == advance_offset_spec(a.background_offset as int, elapsed_us)
    &&& b.score == saturating_score(a.score as int, newly_scored(a.obstacle_list@, p.x as int) as int)
    &&& spawned ==> b.distance_halves == 0 && b.obstacle_list@.len() == survived.len() + 1
        && b.obstacle_list@.drop_last() == survived
        && is_fresh_obstacle(b.obstacle_list@.last(), b.score as int)
    &&& !spawned ==> b.distance_halves == a.distance_halves + 1 && b.obstacle_list@ == survived
    &&& b.mode == if hits_any(a.obstacle_list@, p) || fell_off(p) {
        GameMode::End
    } else {
        a.mode
    }
    &&& b.menu_state == a.menu_state
    &&& b.settings == a.settings
    &&& b.high_score == a.high_score
}

/// `b` is `a` after the end screen's tick with `key`, which returned `r`.
pub open spec fn end_post(a: State, b: State, elapsed_us: int, key: Option<Key>, r: TickOutcome) -> bool {
    let better = a.score > a.high_score;
    &&& b.high_score == if better { a.score } else { a.high_score }
    &&& r.save_high_score == if better { Some(a.score) } else { None::<i32> }
    &&& r.quit == (key == Some(Key::Q))
    &&& key == Some(Key::P) ==> restarted(a, b)
    &&& key != Some(Key::P) ==> play_kept(a, b) && b.background_offset == advance_offset_spec(
        a.background_offset as int,
        elapsed_us,
    ) && b.mode == if key == Some(Key::M) {
        GameMode::Menu
    } else {
        a.mode
    }
    &&& b.menu_state == a.menu_state
    &&& b.settings == a.settings
}

/// `b` is `a` after the menu handled `key`, which returned `r` (quit).
pub open spec fn menu_input_post(a: State, b: State, key: Option<Key>, r: bool) -> bool {
    &&& b.high_score == a.high_score
    &&& match key {
        None => !r && b.menu_state == a.menu_state && b.settings == a.settings && b.mode == a.mode
            && play_kept(a, b) && b.background_offset == a.background_offset,
        Some(k) => {
            let (menu, sel, settings, action) = menu_step(a.menu_state, a.settings, k);
            &&& b.menu_state == (MenuState { current_menu: menu, selected_option: sel as i32 })
            &&& b.settings == settings
            &&& r == (action == MenuAction::Quit)
            &&& action == MenuAction::StartGame ==> restarted(a, b)
            &&& action != MenuAction::StartGame ==> b.mode == a.mode && play_kept(a, b)
                && b.background_offset == a.background_offset
        },
    }
}

/// `b` is `a` after one menu tick: the background scrolled by `elapsed_us`,
/// then the menu handled `key`, which returned `r` (quit).
pub open spec fn menu_tick_post(a: State, b: State, elapsed_us: int, key: Option<Key>, r: bool) -> bool {
    menu_input_post(
        State { background_offset: advance_offset_spec(a.background_offset as int, elapsed_us) as u64, ..a },
        b,
        key,
        r,
    )
}

impl State {
    /// Well-formed: the invariants that every tick keeps.
    pub open spec fn wf(&self) -> bool {
        &&& self.player.y >= 0
        &&& self.frame_time_us <= FRAME_DURATION_US
        &&& self.score >= 0
        &&& forall|i: int|
            0 <= i < self.obstacle_list@.len() ==> {
                let o = #[trigger] self.obstacle_list@[i];
                &&& o.wf()
                &&& 0 < o.x_halves <= 2 * SCREEN_WIDTH
            }
        &&& self.background_offset <= OFFSET_WRAP
        &&& 0 <= self.distance_halves <= 2 * MAX_OBSTACLE_DISTANCE
        &&& self.menu_state.wf()
        &&& self.settings.wf()
    }

    /// The game at start-up, in the menu, with the high score `high_score`
    /// read from storage and one obstacle at the right edge.
    pub fn new(high_score: i32) -> (r: State)
        ensures
            r.wf(),
            r.mode == GameMode::Menu,
            r.player == (Player { x: PLAYER_START_X, y: PLAYER_START_Y, velocity: 0 }),
            r.score == 0,
            r.high_score == high_score,
            r.frame_time_us == 0,
            r.background_offset == 0,
            r.distance_halves == 0,
            r.obstacle_list@.len() == 1,
            is_fresh_obstacle(r.obstacle_list@[0], 0),
            r.menu_state == (MenuState { current_menu: MainMenuOption::Main, selected_option: 0 }),
            r.settings == (Settings {
                background_style: BackgroundStyle::Mountains,
                player_style: PlayerStyle::Duck,
                obstacle_distance: DEFAULT_OBSTACLE_DISTANCE,
            }),
    {
        let mut obstacle_list: Vec<Obstacle> = Vec::new();
        obstacle_list.push(Obstacle::new(SCREEN_WIDTH, 0));
        State {
            player: Player::new(PLAYER_START_X, PLAYER_START_Y),
            frame_time_us: 0,
            mode: GameMode::Menu,
            score: 0,
            obstacle_list,
            background_offset: 0,
            distance_halves: 0,
            menu_state: MenuState::new(),
            settings: Settings::new(),
            high_score,
        }
    }

    /// Advances the background by `elapsed_us` microseconds.
    pub fn update_background(&mut self, elapsed_us: u32)
        requires
            old(self).background_offset <= OFFSET_WRAP,
        ensures
            final(self).background_offset == advance_offset_spec(
                old(self).background_offset as int,
                elapsed_us as int,
            ),
            final(self).background_offset <= OFFSET_WRAP,
            final(self).player == old(self).player,
            final(self).frame_time_us == old(self).frame_time_us,
            final(self).mode == old(self).mode,
            final(self).score == old(self).score,
            final(self).obstacle_list@ == old(self).obstacle_list@,
            final(self).distance_halves == old(self).distance_halves,
            final(self).menu_state == old(self).menu_state,
            final(self).settings == old(self).settings,
            final(self).high_score == old(self).high_score,
    {
        self.background_offset = advance_offset(self.background_offset, elapsed_us);
    }

    /// One tick of play: the background scrolls, gravity acts once enough
    /// time has gathered, Space flaps, every obstacle scrolls left and scores
    /// once the player is past it, obstacles that left the screen go, a new one
    /// spawns once the scrolled distance exceeds the spacing, and the game ends
    /// when the player hits an obstacle or falls past the bottom.
    pub fn playing(&mut self, elapsed_us: u32, key: Option<Key>)
        requires
            old(self).wf(),
        ensures
            final(self).wf(),
            playing_post(*old(self), *final(self), elapsed_us as int, key),
    {
        self.update_background(elapsed_us);
        let ft: u64 = self.frame_time_us + elapsed_us as u64;
        if ft > FRAME_DURATION_US {
            self.player.gravity_to_move();
            self.frame_time_us = 0;
        } else {
            self.frame_time_us = ft;
        }
        if key == Some(Key::Space) {
            self.player.flap();
        }
        let (kept, count, hit) = tick_obstacles(&self.obstacle_list, &self.player);
        self.obstacle_list = kept;
        if count as u64 >= (i32::MAX - self.score) as u64 {
            self.score = i32::MAX;
        } else {
            self.score = self.score + count as i32;
        }
        if hit {
            self.mode = GameMode::End;
        }
        if self.distance_halves + 1 > 2 * self.settings.obstacle_distance {
            let ghost kept = self.obstacle_list@;
            self.obstacle_list.push(Obstacle::new(SCREEN_WIDTH, self.score));
            assert(self.obstacle_list@.drop_last() =~= kept);
            self.distance_halves = 0;
        } else {
            self.distance_halves = self.distance_halves + 1;
        }
        if self.player.y as i64 + PLAYER_HEIGHT as i64 > SCREEN_HEIGHT as i64 {
            self.mode = GameMode::End;
        }
    }

    /// Starts a new round: the player back at the start at rest, score and
    /// accumulators at zero, one fresh obstacle at the right edge, playing.
    /// The menu, the settings and the high score are kept.
    pub fn restart(&mut self)
        requires
            old(self).wf(),
        ensures
            final(self).wf(),
            restarted(*old(self), *final(self)),
            final(self).high_score == old(self).high_score,
    {
        self.player = Player::new(PLAYER_START_X, PLAYER_START_Y);
        self.frame_time_us = 0;
        self.mode = GameMode::Playing;
        self.score = 0;
        self.distance_halves = 0;
        let mut obstacle_list: Vec<Obstacle> = Vec::new();
        obstacle_list.push(Obstacle::new(SCREEN_WIDTH, self.score));
        self.obstacle_list = obstacle_list;
        self.background_offset = 0;
    }

    /// One tick of the end screen: a score above the high score becomes the
    /// high score and is handed out to be stored; then the background scrolls,
    /// and P restarts, M goes back to the menu and Q quits.
    pub fn end(&mut self, elapsed_us: u32, key: Option<Key>) -> (r: TickOutcome)
        requires
            old(self).wf(),
        ensures
            final(self).wf(),
            end_post(*old(self), *final(self), elapsed_us as int, key, r),
    {
        let mut save: Option<i32> = None;
        if self.score > self.high_score {
            self.high_score = self.score;
            save = Some(self.high_score);
        }
        self.update_background(elapsed_us);
        let mut quit = false;
        match key {
            Some(Key::P) => self.restart(),
            Some(Key::M) => self.mode = GameMode::Menu,
            Some(Key::Q) => quit = true,
            _ => {},
        }
        TickOutcome { save_high_score: save, quit }
    }

    /// Hands a key press to the menu: the menu and settings change as
    /// `menu_step` says, a start request restarts the game, and a quit request
    /// is returned as `true`.
    pub fn handle_menu_input(&mut self, key: Option<Key>) -> (r: bool)
        requires
            old(self).wf(),
        ensures
            final(self).wf(),
            menu_input_post(*old(self), *final(self), key, r),
    {
        match key {
            None => false,
            Some(k) => {
                let action = self.menu_state.handle_key(&mut self.settings, k);
                match action {
                    MenuAction::StartGame => {
                        self.restart();
                        false
                    },
                    MenuAction::Quit => true,
                    MenuAction::Stay => false,
                }
            },
        }
    }

    /// One tick of the menu: the background scrolls and the key press goes to
    /// the menu. Returns whether the menu asked to quit.
    pub fn main_menu(&mut self, elapsed_us: u32, key: Option<Key>) -> (r: bool)
        requires
            old(self).wf(),
        ensures
            final(self).wf(),
            menu_tick_post(*old(self), *final(self), elapsed_us as int, key, r),
    {
        self.update_background(elapsed_us);
        self.handle_menu_input(key)
    }

    /// One frame: runs the handler of the current mode with the time elapsed
    /// since the last frame and the key pressed, if any.
    pub fn tick(&mut self, elapsed_us: u32, key: Option<Key>) -> (r: TickOutcome)
        requires
            old(self).wf(),
        ensures
            final(self).wf(),
            old(self).mode == GameMode::Menu ==> r.save_high_score is None && menu_tick_post(
                *old(self),
                *final(self),
                elapsed_us as int,
                key,
                r.quit,
            ),
            old(self).mode == GameMode::Playing ==> r == (TickOutcome {
                save_high_score: None,
                quit: false,
            }) && playing_post(*old(self), *final(self), elapsed_us as int, key),
            old(self).mode == GameMode::End ==> end_post(
                *old(self),
                *final(self),
                elapsed_us as int,
                key,
                r,
            ),
            old(self).mode == GameMode::Menu ==> final(self).mode == GameMode::Menu || (
            final(self).mode == GameMode::Playing && key == Some(Key::Return)
                && old(self).menu_state.current_menu == MainMenuOption::Main
                && old(self).menu_state.selected_option == 0),
            old(self).mode == GameMode::Playing ==> final(self).mode == GameMode::Playing
                || final(self).mode == GameMode::End,
            old(self).mode == GameMode::End ==> final(self).mode == if key == Some(Key::P) {
                GameMode::Playing
            } else if key == Some(Key::M) {
                GameMode::Menu
            } else {
                GameMode::End
            },
    {
        match self.mode {
            GameMode::Menu => {
                let quit = self.main_menu(elapsed_us, key);
                TickOutcome { save_high_score: None, quit }
            },
            GameMode::Playing => {
                self.playing(elapsed_us, key);
                TickOutcome { save_high_score: None, quit: false }
            },
            GameMode::End => self.end(elapsed_us, key),
        }
    }
}

/// Ticks every obstacle of `list` for a player at `player`: returns the
/// survivors, how many scored, and whether the player hits one of them.
fn tick_obstacles(list: &Vec<Obstacle>, player: &Player) -> (r: (Vec<Obstacle>, usize, bool))
    requires
        forall|i: int|
            0 <= i < list@.len() ==> {
                let o = #[trigger] list@[i];
                &&& o.wf()
                &&& 0 < o.x_halves <= 2 * SCREEN_WIDTH
            },
    ensures
        r.0@ == survivors(list@, player.x as int),
        r.1 == newly_scored(list@, player.x as int),
        r.2 == hits_any(list@, *player),
        forall|i: int|
            0 <= i < r.0@.len() ==> {
                let o = #[trigger] r.0@[i];
                &&& o.wf()
                &&& 0 < o.x_halves <= 2 * SCREEN_WIDTH
            },
{
    let mut kept: Vec<Obstacle> = Vec::new();
    let mut count: usize = 0;
    let mut hit = false;
    let mut i: usize = 0;
    while i < list.len()
        invariant
            i <= list@.len(),
            forall|k: int|
                0 <= k < list@.len() ==> {
                    let o = #[trigger] list@[k];
                    &&& o.wf()
                    &&& 0 < o.x_halves <= 2 * SCREEN_WIDTH
                },
            kept@ == survivors(list@.subrange(0, i as int), player.x as int),
            count == newly_scored(list@.subrange(0, i as int), player.x as int),
            count <= i,
            hit == hits_any(list@.subrange(0, i as int), *player),
            forall|k: int|
                0 <= k < kept@.len() ==> {
                    let o = #[trigger] kept@[k];
                    &&& o.wf()
                    &&& 0 < o.x_halves <= 2 * SCREEN_WIDTH
                },
        decreases list@.len() - i,
    {
        let ghost before = list@.subrange(0, i as int);
        let ghost after = list@.subrange(0, i + 1);
        let mut o = list[i];
        o.advance();
        if o.try_score(player) {
            count = count + 1;
        }
        if o.hit_obstacle(player) {
            hit = true;
        }
        if o.x_halves > 0 {
            kept.push(o);
        }
        proof {
            assert(after.drop_last() == before);
            assert(after.last() == list@[i as int]);
            assert forall|j: int| 0 <= j < before.len() implies after[j] == #[trigger] before[j] by {}
            if hits_any(after, *player) {
                let j = choose|j: int|
                    0 <= j < after.len() && {
                        let t = obstacle_ticked(#[trigger] after[j], player.x as int);
                        collides(player.x as int, player.y as int, t.column(), t.gap_y as int, t.size as int)
                    };
                if j < before.len() {
                    assert(before[j] == after[j]);
                }
            }
            if hits_any(before, *player) {
                let j = choose|j: int|
                    0 <= j < before.len() && {
                        let t = obstacle_ticked(#[trigger] before[j], player.x as int);
                        collides(player.x as int, player.y as int, t.column(), t.gap_y as int, t.size as int)
                    };
                assert(after[j] == before[j]);
            }
        }
        i = i + 1;
    }
    assert(list@.subrange(0, list@.len() as int) == list@);
    (kept, count, hit)
}

} // verus!
