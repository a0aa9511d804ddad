//! The drawing surface: `pixel_loop`'s `InMemoryCanvas`, modelled as a grid
//! of RGBA pixels.
//!
//! The simulation draws onto, and reads occupancy from, an in-memory pixel
//! canvas of the `pixel_loop` crate. Its pixel store is opaque to the
//! verifier, so this module gives it a mathematical name — `grid_of`, the
//! rows of RGBA pixels, together with `width_of`, the column count — and a
//! small set of trusted wrappers whose contracts state, over those names,
//! what the canvas operations do according to the crate's source: how
//! `filled_rect` clips and fills, what `is_empty_or_color` answers, and what
//! a freshly created canvas holds. Everything else in the crate is verified
//! against these contracts.
//!
//! Out-of-bounds occupancy queries answer "free": that is what the backend's
//! `is_empty_or_color` does, and the piece lifecycle depends on it — a
//! retired piece keeps descending below the bottom edge until the board
//! removes it.

use vstd::prelude::*;
use pixel_loop::canvas::Canvas;
use pixel_loop::canvas::InMemoryCanvas;
use pixel_loop::color::Color;
use crate::color::Rgb;

verus! {

/// `pixel_loop`'s in-memory pixel canvas, declared so that its values can
/// flow through verified signatures. Its contents are reached only through
/// the trusted wrappers below.
#[verifier::external_type_specification]
#[verifier::external_body]
pub struct ExInMemoryCanvas(InMemoryCanvas);

/// The pixels of a canvas, as rows (top to bottom) of RGBA channel tuples.
/// The row count is the canvas height.
pub uninterp spec fn grid_of(c: InMemoryCanvas) -> Seq<Seq<(u8, u8, u8, u8)>>;

/// The column count the canvas was created with. Kept separately from
/// `grid_of` so that a canvas of height zero still has a width.
pub uninterp spec fn width_of(c: InMemoryCanvas) -> int;

/// A canvas this crate works on: at least one pixel tall and wide, every row
/// as long as the width, and small enough that the backend's row-major index
/// arithmetic, done in 32 bits, cannot overflow.
pub open spec fn canvas_wf(c: InMemoryCanvas) -> bool {
    &&& 1 <= width_of(c)
    &&& 1 <= grid_of(c).len()
    &&& width_of(c) * grid_of(c).len() <= u32::MAX
    &&& forall|r: int| 0 <= r < grid_of(c).len() ==> #[trigger] grid_of(c)[r].len() == width_of(c)
}

/// Whether the cell `(x, y)` of a grid counts as free for collision testing:
/// free when it lies outside the grid, or when it holds the opaque
/// background color `bg`.
pub open spec fn cell_free(
    grid: Seq<Seq<(u8, u8, u8, u8)>>,
    width: int,
    x: int,
    y: int,
    bg: Rgb,
) -> bool {
    !(0 <= x < width && 0 <= y < grid.len()) || grid[y][x] == bg.pixel()
}

/// How the backend clips a rectangle `(sx, sy, w, h)` against a
/// `width` x `height` canvas: `None` when nothing is painted, otherwise the
/// clipped corner and extent. The extent is additionally cut one short of
/// the right and bottom edges, exactly as the backend's `clip_rect` does.
pub open spec fn clip_rect_spec(
    width: int,
    height: int,
    sx: int,
    sy: int,
    w: int,
    h: int,
) -> Option<(int, int, int, int)> {
    if sx < -w || sy < -h || sx >= width || sy >= height {
        None
    } else {
        let nx = if sx > 0 { sx } else { 0 };
        let ny = if sy > 0 { sy } else { 0 };
        let nw_room = width - nx - 1;
        let nw_want = w - (nx - sx);
        let nh_room = height - ny - 1;
        let nh_want = h - (ny - sy);
        let nw = if nw_want < nw_room { nw_want } else { nw_room };
        let nh = if nh_want < nh_room { nh_want } else { nh_room };
        Some((nx, ny, nw, nh))
    }
}

/// The grid after the backend paints the rectangle `(sx, sy, w, h)` with the
/// pixel `p`: the clipped region is set to `p`, everything else is kept.
pub open spec fn paint_rect_spec(
    grid: Seq<Seq<(u8, u8, u8, u8)>>,
    width: int,
    sx: int,
    sy: int,
    w: int,
    h: int,
    p: (u8, u8, u8, u8),
) -> Seq<Seq<(u8, u8, u8, u8)>> {
    match clip_rect_spec(width, grid.len() as int, sx, sy, w, h) {
        None => grid,
        Some((nx, ny, nw, nh)) => Seq::new(
            grid.len(),
            |r: int|
                if ny <= r < ny + nh {
                    Seq::new(grid[r].len(), |col: int| if nx <= col < nx + nw { p } else { grid[r][col] })
                } else {
                    grid[r]
                },
        ),
    }
}

/// What painting a rectangle does to one cell: the cell takes the new
/// pixel exactly when it lies in the rectangle and in the paintable region
/// — the canvas short of its right and bottom edges — and keeps its old
/// pixel otherwise.
pub proof fn lemma_paint_rect_spec_cell(
    grid: Seq<Seq<(u8, u8, u8, u8)>>,
    width: int,
    sx: int,
    sy: int,
    w: int,
    h: int,
    p: (u8, u8, u8, u8),
    cx: int,
    cy: int,
)
    requires
        1 <= width,
        1 <= grid.len(),
        0 <= cy < grid.len(),
        grid[cy].len() == width,
        0 <= cx < width,
        0 <= w,
        0 <= h,
    ensures
        paint_rect_spec(grid, width, sx, sy, w, h, p).len() == grid.len(),
        paint_rect_spec(grid, width, sx, sy, w, h, p)[cy].len() == width,
        (sx <= cx < sx + w && sy <= cy < sy + h && cx <= width - 2 && cy <= grid.len() - 2)
            ==> paint_rect_spec(grid, width, sx, sy, w, h, p)[cy][cx] == p,
        !(sx <= cx < sx + w && sy <= cy < sy + h && cx <= width - 2 && cy <= grid.len() - 2)
            ==> paint_rect_spec(grid, width, sx, sy, w, h, p)[cy][cx] == grid[cy][cx],
{
}

/// Relies on `InMemoryCanvas::new`: the canvas holds `height` rows of
/// `width` copies of the given color, opaque.
#[verifier::external_body]
fn canvas_new_raw(width: u32, height: u32, color: Rgb) -> (c: InMemoryCanvas)
    requires
        1 <= width,
        1 <= height,
        width * height <= u32::MAX,
    ensures
        width_of(c) == width,
        grid_of(c) == Seq::new(height as nat, |r: int| Seq::new(width as nat, |col: int| color.pixel())),
{
    InMemoryCanvas::new(width, height, &Color::from_rgb(color.r, color.g, color.b))
}

/// Relies on `Canvas::width` for `InMemoryCanvas`: the width the canvas was
/// created with.
#[verifier::external_body]
fn canvas_width_raw(c: &InMemoryCanvas) -> (w: u32)
    ensures
        w == width_of(*c),
{
    c.width()
}

/// Relies on `Canvas::height` for `InMemoryCanvas`: the height the canvas
/// was created with, which is its row count.
#[verifier::external_body]
fn canvas_height_raw(c: &InMemoryCanvas) -> (h: u32)
    ensures
        h == grid_of(*c).len(),
{
    c.height()
}

/// The canvas width in pixels.
pub fn canvas_width(c: &InMemoryCanvas) -> (w: u32)
    ensures
        w == width_of(*c),
{
    canvas_width_raw(c)
}

/// The canvas height in pixels.
pub fn canvas_height(c: &InMemoryCanvas) -> (h: u32)
    ensures
        h == grid_of(*c).len(),
{
    canvas_height_raw(c)
}

/// Relies on `Canvas::is_empty_or_color`: true when `(x, y)` lies outside
/// the canvas, or when the pixel there equals the opaque color `bg`.
#[verifier::external_body]
fn canvas_is_empty_or_color_raw(c: &InMemoryCanvas, x: i64, y: i64, bg: Rgb) -> (free: bool)
    requires
        canvas_wf(*c),
    ensures
        free == cell_free(grid_of(*c), width_of(*c), x as int, y as int, bg),
{
    c.is_empty_or_color(x, y, &Color::from_rgb(bg.r, bg.g, bg.b))
}

/// Relies on `Canvas::filled_rect`: clips the rectangle as `clip_rect_spec`
/// says and sets every pixel of the clipped region to the opaque color.
#[verifier::external_body]
fn canvas_filled_rect_raw(c: &mut InMemoryCanvas, sx: i64, sy: i64, w: u32, h: u32, color: Rgb)
    requires
        canvas_wf(*old(c)),
    ensures
        width_of(*final(c)) == width_of(*old(c)),
        grid_of(*final(c)) == paint_rect_spec(
            grid_of(*old(c)),
            width_of(*old(c)),
            sx as int,
            sy as int,
            w as int,
            h as int,
            color.pixel(),
        ),
{
    c.filled_rect(sx, sy, w, h, &Color::from_rgb(color.r, color.g, color.b))
}

/// Relies on `Canvas::maybe_get`: the pixel at `(x, y)`, or `None` outside
/// the canvas.
#[verifier::external_body]
fn canvas_get_raw(c: &InMemoryCanvas, x: i64, y: i64) -> (p: Option<(u8, u8, u8, u8)>)
    requires
        canvas_wf(*c),
    ensures
        0 <= x < width_of(*c) && 0 <= y < grid_of(*c).len() ==> p == Some(
            grid_of(*c)[y as int][x as int],
        ),
        !(0 <= x < width_of(*c) && 0 <= y < grid_of(*c).len()) ==> p is None,
{
    c.maybe_get(x, y).map(|col| (col.r, col.g, col.b, col.a))
}

/// A fresh canvas filled with one color.
pub fn canvas_new(width: u32, height: u32, color: Rgb) -> (c: InMemoryCanvas)
    requires
        1 <= width,
        1 <= height,
        width * height <= u32::MAX,
    ensures
        canvas_wf(c),
        width_of(c) == width,
        grid_of(c).len() == height,
        forall|r: int, col: int|
            0 <= r < height && 0 <= col < width ==> #[trigger] grid_of(c)[r][col] == color.pixel(),
{
    canvas_new_raw(width, height, color)
}

/// Whether the cell `(x, y)` is free: outside the canvas, or holding the
/// opaque background color `bg`.
pub fn canvas_cell_is_free(c: &InMemoryCanvas, x: i64, y: i64, bg: Rgb) -> (free: bool)
    requires
        canvas_wf(*c),
    ensures
        free == cell_free(grid_of(*c), width_of(*c), x as int, y as int, bg),
{
    canvas_is_empty_or_color_raw(c, x, y, bg)
}

/// Paints a filled rectangle, clipped against the canvas as the backend
/// clips it.
pub fn canvas_fill_rect(c: &mut InMemoryCanvas, sx: i64, sy: i64, w: u32, h: u32, color: Rgb)
    requires
        canvas_wf(*old(c)),
    ensures
        canvas_wf(*final(c)),
        width_of(*final(c)) == width_of(*old(c)),
        grid_of(*final(c)) == paint_rect_spec(
            grid_of(*old(c)),
            width_of(*old(c)),
            sx as int,
            sy as int,
            w as int,
            h as int,
            color.pixel(),
        ),
{
    canvas_filled_rect_raw(c, sx, sy, w, h, color);
}

/// The pixel at `(x, y)`, or `None` outside the canvas.
pub fn canvas_pixel_at(c: &InMemoryCanvas, x: i64, y: i64) -> (p: Option<(u8, u8, u8, u8)>)
    requires
        canvas_wf(*c),
    ensures
        0 <= x < width_of(*c) && 0 <= y < grid_of(*c).len() ==> p == Some(
            grid_of(*c)[y as int][x as int],
        ),
        !(0 <= x < width_of(*c) && 0 <= y < grid_of(*c).len()) ==> p is None,
{
    canvas_get_raw(c, x, y)
}

/// Clears the whole canvas to one color, through the same clipped rectangle
/// fill the backend's own `clear_screen` uses. The backend's clipping stops
/// one short of the right and bottom edges, so the last column and row keep
/// their old pixels.
pub fn canvas_clear(c: &mut InMemoryCanvas, color: Rgb)
    requires
        canvas_wf(*old(c)),
    ensures
        canvas_wf(*final(c)),
        width_of(*final(c)) == width_of(*old(c)),
        grid_of(*final(c)) == paint_rect_spec(
            grid_of(*old(c)),
            width_of(*old(c)),
            0,
            0,
            width_of(*old(c)),
            grid_of(*old(c)).len() as int,
            color.pixel(),
        ),
{
    let w = canvas_width_raw(c);
    let h = canvas_height_raw(c);
    canvas_filled_rect_raw(c, 0, 0, w, h, color);
}

} // verus!
