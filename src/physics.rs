use vstd::prelude::*;
use crate::config::{
    BASE_GAP_SIZE, FLAP_VELOCITY, GAP_Y_HIGH, GAP_Y_LOW, GRAVITY_STEP, MIN_GAP_SIZE,
    OBSTACLE_SPEED_HALVES, PLAYER_HEIGHT, PLAYER_WIDTH, TERMINAL_VELOCITY,
};

verus! {

/// The player's avatar: a cell position and a vertical velocity in tenths of
/// a cell per gravity step (negative is upwards).
#[derive(Clone, Copy, Debug, PartialEq, Eq)]
pub struct Player {
    pub x: i32,
    pub y: i32,
    pub velocity: i32,
}

/// An obstacle column with a gap. `x_halves` is the column position in half
/// cells, so that the obstacle scrolls by half a cell per tick.
#[derive(Clone, Copy, Debug, PartialEq, Eq)]
pub struct Obstacle {
    pub x_halves: i64,
    pub gap_y: i32,
    pub size: i32,
    pub scored: bool,
}

/// Velocity after one gravity step: it grows by one step, up to the terminal
/// velocity, and is left alone once it has reached it.
pub open spec fn next_velocity(v: int) -> int {
    if v < TERMINAL_VELOCITY {
        if v + GRAVITY_STEP > TERMINAL_VELOCITY {
            TERMINAL_VELOCITY as int
        } else {
            v + GRAVITY_STEP
        }
    } else {
        v
    }
}

/// Whole cells moved at a velocity in tenths of a cell: rounded down.
pub open spec fn cells_moved(v: int) -> int {
    v / 10
}

/// A row clamped to be non-negative (and to fit an `i32`).
pub open spec fn clamp_row(y: int) -> int {
    if y < 0 {
        0
    } else if y > i32::MAX {
        i32::MAX as int
    } else {
        y
    }
}

/// Row after one gravity step taken at velocity `v` before the step.
pub open spec fn row_after_gravity(y: int, v: int) -> int {
    clamp_row(y + cells_moved(next_velocity(v)))
}

/// `s / 2` rounded towards zero, as integer division does.
pub open spec fn half_toward_zero(s: int) -> int {
    if s >= 0 {
        s / 2
    } else {
        -((-s) / 2)
    }
}

/// Gap size of an obstacle spawned at a given score:
/// `max(MIN_GAP_SIZE, BASE_GAP_SIZE - score / 2)`.
pub open spec fn gap_size_for(score: int) -> int {
    let s = BASE_GAP_SIZE - half_toward_zero(score);
    if s < MIN_GAP_SIZE {
        MIN_GAP_SIZE as int
    } else {
        s
    }
}

/// Screen column of a position in half cells (rounded towards zero).
pub open spec fn column_of(x_halves: int) -> int {
    half_toward_zero(x_halves)
}

/// The collision test: the player's columns `[px, px + PLAYER_WIDTH)` hold
/// the obstacle's column, and its rows `[py, py + PLAYER_HEIGHT)` are not
/// inside the gap `[gap_y - size / 2, gap_y + size / 2)`.
pub open spec fn collides(px: int, py: int, column: int, gap_y: int, size: int) -> bool {
    let half = size / 2;
    &&& px <= column
    &&& px + PLAYER_WIDTH > column
    &&& (py < gap_y - half || py + PLAYER_HEIGHT > gap_y + half)
}

/// Whether an obstacle that has `scored` scores now for a player at `px`.
pub open spec fn scores_now(scored: bool, px: int, column: int) -> bool {
    !scored && px > column
}

impl Player {
    /// A player at rest at the given cell.
    pub fn new(x: i32, y: i32) -> (r: Player)
        ensures
            r.x == x,
            r.y == y,
            r.velocity == 0,
    {
        Player { x, y, velocity: 0 }
    }

    /// One gravity step: the velocity grows by `GRAVITY_STEP` up to
    /// `TERMINAL_VELOCITY`, the player moves down by the new velocity rounded
    /// down to whole cells, and the row is clamped at zero.
    pub fn gravity_to_move(&mut self)
        ensures
            final(self).x == old(self).x,
            final(self).velocity == next_velocity(old(self).velocity as int),
            final(self).y == row_after_gravity(old(self).y as int, old(self).velocity as int),
            final(self).y >= 0,
    {
        if self.velocity < TERMINAL_VELOCITY {
            if self.velocity > TERMINAL_VELOCITY - GRAVITY_STEP {
                self.velocity = TERMINAL_VELOCITY;
            } else {
                self.velocity = self.velocity + GRAVITY_STEP;
            }
        }
        let v: i64 = self.velocity as i64;
        let dy: i64 = if v >= 0 {
            ((v as u64) / 10) as i64
        } else {
            let up: u64 = ((-v) as u64 + 9) / 10;
            assert(-(up as int) == v / 10) by (nonlinear_arith)
                requires
                    v < 0,
                    up == (-v + 9) / 10,
            ;
            -(up as i64)
        };
        let ny: i64 = self.y as i64 + dy;
        if ny < 0 {
            self.y = 0;
        } else if ny > i32::MAX as i64 {
            self.y = i32::MAX;
        } else {
            self.y = ny as i32;
        }
    }

    /// A flap: the velocity becomes `FLAP_VELOCITY`, whatever it was.
    pub fn flap(&mut self)
        ensures
            *final(self) == (Player { velocity: FLAP_VELOCITY, ..*old(self) }),
    {
        self.velocity = FLAP_VELOCITY;
    }
}

/// `s / 2` rounded towards zero.
fn half_of(s: i64) -> (r: i64)
    ensures
        r == half_toward_zero(s as int),
{
    if s >= 0 {
        ((s as u64) / 2) as i64
    } else {
        let h: u64 = (((-(s + 1)) as u64) + 1) / 2;
        -(h as i64)
    }
}

/// Gap size of an obstacle spawned at `score`.
pub fn gap_size(score: i32) -> (r: i32)
    ensures
        r == gap_size_for(score as int),
        r >= MIN_GAP_SIZE,
{
    let s: i64 = BASE_GAP_SIZE as i64 - half_of(score as i64);
    if s < MIN_GAP_SIZE as i64 {
        MIN_GAP_SIZE
    } else {
        s as i32
    }
}

/// Draws a value uniformly from `[low, high)`.
/// Relies on bracket_lib's `RandomNumberGenerator::range`, which samples
/// `rand`'s `gen_range(low..high)` and so stays in the half-open range.
#[verifier::external_body]
fn random_range(low: i32, high: i32) -> (r: i32)
    requires
        low < high,
    ensures
        low <= r < high,
{
    let mut rng = bracket_lib::prelude::RandomNumberGenerator::new();
    rng.range(low, high)
}

impl Obstacle {
    /// Well-formed: the gap is at least `MIN_GAP_SIZE` tall.
    pub open spec fn wf(&self) -> bool {
        self.size >= MIN_GAP_SIZE
    }

    /// The screen column the obstacle occupies.
    pub open spec fn column(&self) -> int {
        column_of(self.x_halves as int)
    }

    /// An unscored obstacle at column `x` with its gap centred on `gap_y` and
    /// sized for `score`.
    pub fn with_gap(x: i32, score: i32, gap_y: i32) -> (r: Obstacle)
        ensures
            r.x_halves == 2 * x,
            r.gap_y == gap_y,
            r.size == gap_size_for(score as int),
            !r.scored,
            r.wf(),
    {
        Obstacle { x_halves: 2 * (x as i64), gap_y, size: gap_size(score), scored: false }
    }

    /// A new unscored obstacle at column `x`, sized for `score`, with a gap
    /// centre drawn at random from `[GAP_Y_LOW, GAP_Y_HIGH)`.
    pub fn new(x: i32, score: i32) -> (r: Obstacle)
        ensures
            r.x_halves == 2 * x,
            GAP_Y_LOW <= r.gap_y < GAP_Y_HIGH,
            r.size == gap_size_for(score as int),
            !r.scored,
            r.wf(),
    {
        let gap_y = random_range(GAP_Y_LOW, GAP_Y_HIGH);
        Obstacle::with_gap(x, score, gap_y)
    }

    /// The obstacle's screen column, rounded towards zero.
    pub fn screen_column(&self) -> (r: i64)
        ensures
            r == self.column(),
    {
        half_of(self.x_halves)
    }

    /// Scrolls the obstacle left by `OBSTACLE_SPEED_HALVES`.
    pub fn advance(&mut self)
        requires
            old(self).x_halves > i64::MIN,
        ensures
            final(self).x_halves == old(self).x_halves - OBSTACLE_SPEED_HALVES,
            final(self).gap_y == old(self).gap_y,
            final(self).size == old(self).size,
            final(self).scored == old(self).scored,
    {
        self.x_halves = self.x_halves - OBSTACLE_SPEED_HALVES;
    }

    /// Whether the player collides with this obstacle.
    pub fn hit_obstacle(&self, player: &Player) -> (r: bool)
        requires
            self.wf(),
        ensures
            r == collides(
                player.x as int,
                player.y as int,
                self.column(),
                self.gap_y as int,
                self.size as int,
            ),
    {
        let half: i64 = (self.size / 2) as i64;
        let column = self.screen_column();
        let px = player.x as i64;
        let py = player.y as i64;
        let gap_y = self.gap_y as i64;
        let left = px <= column;
        let right = px + PLAYER_WIDTH as i64 > column;
        let above = py < gap_y - half;
        let below = py + PLAYER_HEIGHT as i64 > gap_y + half;
        (left && right) && (above || below)
    }

    /// Marks the obstacle scored the first time the player is past it.
    /// Returns whether it scored now.
    pub fn try_score(&mut self, player: &Player) -> (r: bool)
        ensures
            r == scores_now(old(self).scored, player.x as int, old(self).column()),
            final(self).scored == (old(self).scored || r),
            final(self).x_halves == old(self).x_halves,
            final(self).gap_y == old(self).gap_y,
            final(self).size == old(self).size,
    {
        let column = self.screen_column();
        if (player.x as i64) > column && !self.scored {
            self.scored = true;
            true
        } else {
            false
        }
    }

    /// First row below the upper wall: rows `[0, upper_wall_end)` are wall.
    pub fn upper_wall_end(&self) -> (r: i64)
        requires
            self.wf(),
        ensures
            r == self.gap_y - self.size / 2,
    {
        self.gap_y as i64 - (self.size / 2) as i64
    }

    /// First row of the lower wall: rows from here to the bottom are wall.
    pub fn lower_wall_start(&self) -> (r: i64)
        requires
            self.wf(),
        ensures
            r == self.gap_y + self.size / 2,
    {
        self.gap_y as i64 + (self.size / 2) as i64
    }
}

} // verus!
