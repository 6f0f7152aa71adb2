use vstd::prelude::*;
use crate::config::{OFFSET_UNITS_PER_CELL, OFFSET_WRAP, PLAYER_HEIGHT, PLAYER_WIDTH, SCREEN_HEIGHT, SCREEN_WIDTH};

verus! {

/// One RGBA pixel.
pub type Rgba = (u8, u8, u8, u8);

/// A decoded image: `width * height` RGBA pixels, row by row.
#[derive(Debug)]
pub struct Picture {
    width: u32,
    height: u32,
    pixels: Vec<Rgba>,
}

/// A screen cell to paint with a background colour.
#[derive(Clone, Copy, Debug, PartialEq, Eq, Structural)]
pub struct Cell {
    pub x: i32,
    pub y: i32,
    pub red: u8,
    pub green: u8,
    pub blue: u8,
}

/// The background offset after `elapsed_us` microseconds: it grows by one
/// unit per microsecond and is brought back into `(0, OFFSET_WRAP]` by whole
/// screen widths once it passes `OFFSET_WRAP`.
pub open spec fn advance_offset_spec(offset: int, elapsed_us: int) -> int {
    let s = offset + elapsed_us;
    if s > OFFSET_WRAP {
        (s - 1) % (OFFSET_WRAP as int) + 1
    } else {
        s
    }
}

/// Advances the background offset by `elapsed_us` microseconds.
pub fn advance_offset(offset: u64, elapsed_us: u32) -> (r: u64)
    requires
        offset <= OFFSET_WRAP,
    ensures
        r == advance_offset_spec(offset as int, elapsed_us as int),
        r <= OFFSET_WRAP,
        offset + elapsed_us <= 2 * OFFSET_WRAP ==> r == (if offset + elapsed_us > OFFSET_WRAP {
            offset + elapsed_us - OFFSET_WRAP
        } else {
            offset + elapsed_us
        }),
{
    let s: u64 = offset + elapsed_us as u64;
    if s > OFFSET_WRAP {
        (s - 1) % OFFSET_WRAP + 1
    } else {
        s
    }
}

/// The image pixel that screen cell `(x, y)` shows when the background is
/// scrolled by `offset` whole cells: the image is tiled in both directions.
pub open spec fn background_source(x: int, y: int, offset: int, width: int, height: int) -> (int, int) {
    ((x + offset % width) % width, y % height)
}

impl Picture {
    /// Well-formed: both sides are non-empty and there is one pixel per place.
    pub closed spec fn wf(&self) -> bool {
        &&& self.width > 0
        &&& self.height > 0
        &&& self.pixels@.len() == self.width * self.height
    }

    /// A well-formed picture has non-empty sides.
    pub proof fn lemma_sides_positive(&self)
        requires
            self.wf(),
        ensures
            self.width_spec() > 0,
            self.height_spec() > 0,
    {
    }

    /// The picture's width.
    pub closed spec fn width_spec(&self) -> int {
        self.width as int
    }

    /// The picture's height.
    pub closed spec fn height_spec(&self) -> int {
        self.height as int
    }

    /// The pixel at column `x`, row `y`.
    pub closed spec fn pixel_at(&self, x: int, y: int) -> Rgba {
        self.pixels@[y * self.width + x]
    }

    /// A picture of the given size from its pixels, row by row; `None` when a
    /// side is zero or the number of pixels is not `width * height`.
    pub fn new(width: u32, height: u32, pixels: Vec<Rgba>) -> (r: Option<Picture>)
        ensures
            r is Some <==> (width > 0 && height > 0 && pixels@.len() == width * height),
            r matches Some(p) ==> p.wf() && p.width_spec() == width && p.height_spec() == height
                && forall|x: int, y: int| 0 <= x < width && 0 <= y < height ==> #[trigger] p.pixel_at(x, y) == pixels@[y * width + x],
    {
        if width == 0 || height == 0 {
            return None;
        }
        assert((width as u64) * (height as u64) <= u64::MAX) by (nonlinear_arith)
            requires
                width <= u32::MAX,
                height <= u32::MAX,
        ;
        if (pixels.len() as u64) != (width as u64) * (height as u64) {
            return None;
        }
        Some(Picture { width, height, pixels })
    }

    /// The picture's width.
    pub fn width(&self) -> (r: u32)
        ensures
            r == self.width_spec(),
    {
        self.width
    }

    /// The picture's height.
    pub fn height(&self) -> (r: u32)
        ensures
            r == self.height_spec(),
    {
        self.height
    }

    /// The pixel at column `x`, row `y`.
    pub fn pixel(&self, x: u32, y: u32) -> (r: Rgba)
        requires
            self.wf(),
            x < self.width_spec(),
            y < self.height_spec(),
        ensures
            r == self.pixel_at(x as int, y as int),
    {
        let len: usize = self.pixels.len();
        proof {
            lemma_index_in_grid(x as int, y as int, self.width as int, self.height as int);
            assert(y * self.width + x < len);
        }
        self.pixels[(y as usize) * (self.width as usize) + (x as usize)]
    }
}

/// A place `(x, y)` inside a `w` by `h` grid has a row-major index below `w * h`.
proof fn lemma_index_in_grid(x: int, y: int, w: int, h: int)
    requires
        0 <= x < w,
        0 <= y < h,
    ensures
        0 <= y * w <= y * w + x < w * h,
{
    assert(0 <= y * w <= y * w + x < w * h) by (nonlinear_arith)
        requires
            0 <= x < w,
            0 <= y < h,
    ;
}

/// The cell painted at screen index `i` (row-major over the screen) by the
/// background `pic` scrolled by `offset` whole cells.
pub open spec fn background_cell(pic: Picture, offset: int, i: int) -> Cell {
    let x = i % (SCREEN_WIDTH as int);
    let y = i / (SCREEN_WIDTH as int);
    let (sx, sy) = background_source(x, y, offset, pic.width_spec(), pic.height_spec());
    let p = pic.pixel_at(sx, sy);
    Cell { x: x as i32, y: y as i32, red: p.0, green: p.1, blue: p.2 }
}

/// The whole screen painted with the background `pic`, scrolled by the
/// offset `offset_units` (in millionths of a cell, rounded down to cells).
/// The result lists the screen's cells row by row.
pub fn render_looping_background(offset_units: u64, pic: &Picture) -> (r: Vec<Cell>)
    requires
        pic.wf(),
    ensures
        r@.len() == SCREEN_WIDTH * SCREEN_HEIGHT,
        forall|i: int|
            0 <= i < r@.len() ==> #[trigger] r@[i] == background_cell(
                *pic,
                (offset_units / OFFSET_UNITS_PER_CELL) as int,
                i,
            ),
{
    let width = pic.width();
    let height = pic.height();
    let cells: u64 = offset_units / OFFSET_UNITS_PER_CELL;
    let offset: u64 = cells % (width as u64);
    let total: usize = (SCREEN_WIDTH as usize) * (SCREEN_HEIGHT as usize);
    let mut out: Vec<Cell> = Vec::new();
    let mut i: usize = 0;
    while i < total
        invariant
            pic.wf(),
            width == pic.width_spec(),
            height == pic.height_spec(),
            offset == cells % (width as u64),
            cells == offset_units / OFFSET_UNITS_PER_CELL,
            total == SCREEN_WIDTH * SCREEN_HEIGHT,
            i <= total,
            out@.len() == i,
            forall|k: int| 0 <= k < i ==> #[trigger] out@[k] == background_cell(*pic, cells as int, k),
        decreases total - i,
    {
        let x: u64 = (i as u64) % (SCREEN_WIDTH as u64);
        let y: u64 = (i as u64) / (SCREEN_WIDTH as u64);
        let sx: u64 = (x + offset) % (width as u64);
        let sy: u64 = y % (height as u64);
        let p = pic.pixel(sx as u32, sy as u32);
        out.push(Cell { x: x as i32, y: y as i32, red: p.0, green: p.1, blue: p.2 });
        i = i + 1;
    }
    out
}

/// Whether sprite pixel `(dx, dy)` of `pic`, drawn with its top-left corner at
/// `(px, py)`, lands on the screen and is not fully transparent.
pub open spec fn sprite_pixel_shown(pic: Picture, px: int, py: int, dx: int, dy: int) -> bool {
    &&& 0 <= px + dx < SCREEN_WIDTH
    &&& 0 <= py + dy < SCREEN_HEIGHT
    &&& pic.pixel_at(dx, dy).3 != 0
}

/// The cells painted by the first `n` pixels of the player's sprite, taken
/// row by row over the `PLAYER_WIDTH` by `PLAYER_HEIGHT` rectangle.
pub open spec fn sprite_cells(pic: Picture, px: int, py: int, n: int) -> Seq<Cell>
    decreases n,
{
    if n <= 0 {
        Seq::empty()
    } else {
        let rest = sprite_cells(pic, px, py, n - 1);
        let dx = (n - 1) % (PLAYER_WIDTH as int);
        let dy = (n - 1) / (PLAYER_WIDTH as int);
        if sprite_pixel_shown(pic, px, py, dx, dy) {
            let p = pic.pixel_at(dx, dy);
            rest.push(Cell { x: (px + dx) as i32, y: (py + dy) as i32, red: p.0, green: p.1, blue: p.2 })
        } else {
            rest
        }
    }
}

/// The cells that the player's sprite `pic` paints with its top-left corner at
/// `(px, py)`: every on-screen pixel of the sprite rectangle whose alpha is
/// not zero, row by row.
pub fn render_sprite(px: i32, py: i32, pic: &Picture) -> (r: Vec<Cell>)
    requires
        pic.wf(),
        pic.width_spec() >= PLAYER_WIDTH,
        pic.height_spec() >= PLAYER_HEIGHT,
    ensures
        r@ == sprite_cells(*pic, px as int, py as int, PLAYER_WIDTH * PLAYER_HEIGHT),
{
    let total: u32 = (PLAYER_WIDTH as u32) * (PLAYER_HEIGHT as u32);
    let mut out: Vec<Cell> = Vec::new();
    let mut i: u32 = 0;
    while i < total
        invariant
            pic.wf(),
            pic.width_spec() >= PLAYER_WIDTH,
            pic.height_spec() >= PLAYER_HEIGHT,
            total == PLAYER_WIDTH * PLAYER_HEIGHT,
            i <= total,
            out@ == sprite_cells(*pic, px as int, py as int, i as int),
        decreases total - i,
    {
        let dx: u32 = i % (PLAYER_WIDTH as u32);
        let dy: u32 = i / (PLAYER_WIDTH as u32);
        assert(dx < PLAYER_WIDTH && dy < PLAYER_HEIGHT) by (nonlinear_arith)
            requires
                i < PLAYER_WIDTH * PLAYER_HEIGHT,
                dx == i % (PLAYER_WIDTH as u32),
                dy == i / (PLAYER_WIDTH as u32),
        ;
        let sx: i64 = px as i64 + dx as i64;
        let sy: i64 = py as i64 + dy as i64;
        if 0 <= sx && sx < SCREEN_WIDTH as i64 && 0 <= sy && sy < SCREEN_HEIGHT as i64 {
            let p = pic.pixel(dx, dy);
            if p.3 != 0 {
                out.push(Cell { x: sx as i32, y: sy as i32, red: p.0, green: p.1, blue: p.2 });
            }
        }
        i = i + 1;
    }
    out
}

} // verus!
