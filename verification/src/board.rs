//! Live pieces and the board that simulates them.
//!
//! A board owns an ordered collection of live tetrominoes and one configured
//! target resting row (the virtual stop row). Each simulation tick it steps
//! every piece — descend one row, hold at the target row, or keep falling
//! out — and removes pieces that have scrolled past the visible area. A
//! paired render call paints every live piece onto the drawing surface.

use vstd::prelude::*;
use pixel_loop::canvas::InMemoryCanvas;
use crate::color::Rgb;
use crate::geometry::Shape;
use crate::geometry::Rotation;
use crate::geometry::probe_cells;
use crate::geometry::probe_cells_exec;
use crate::geometry::render_rects;
use crate::geometry::render_rects_exec;
use crate::geometry::footprint_reach;
use crate::geometry::lemma_catalog_total;
use crate::geometry::rect_covers;
use crate::geometry::renders_cell;
use crate::surface::cell_free;
use crate::surface::canvas_wf;
use crate::surface::grid_of;
use crate::surface::width_of;
use crate::surface::paint_rect_spec;
use crate::surface::canvas_cell_is_free;
use crate::surface::canvas_fill_rect;
use crate::surface::canvas_height;

verus! {

/// The lifecycle phase of a live piece: descending toward its rest position
/// (`In`), resting permanently at the target row (`Hold`), or leaving the
/// display after a digit change (`Out`).
#[derive(Debug, Clone, Copy, PartialEq, Eq, Structural)]
pub enum FallState {
    In,
    Out,
    Hold,
}

/// A live piece: a shape at a rotation, its anchor position, its display
/// color and its lifecycle phase. The anchor is the lower-left filled cell
/// of the shape's footprint at its rotation.
#[derive(Debug, Clone, Copy, PartialEq, Eq, Structural)]
pub struct Tetromino {
    pub shape: Shape,
    pub rotation: Rotation,
    pub x: i64,
    pub y: i64,
    pub color: Rgb,
    pub fall: FallState,
}

/// An anchor position far enough from the `i64` limits that descending one
/// row and reaching every footprint cell stays in range.
pub open spec fn pos_ok(x: int, y: int) -> bool {
    &&& i64::MIN + footprint_reach() <= x <= i64::MAX - footprint_reach()
    &&& i64::MIN + footprint_reach() <= y <= i64::MAX - 1
}

/// A well-formed live piece.
pub open spec fn piece_wf(t: Tetromino) -> bool {
    pos_ok(t.x as int, t.y as int)
}

/// Whether a piece of the given shape and rotation, anchored at `(x, y)`,
/// may not descend one row: some cell of its collision footprint is neither
/// outside the canvas nor background-colored.
pub open spec fn collides_at(
    grid: Seq<Seq<(u8, u8, u8, u8)>>,
    width: int,
    shape: Shape,
    rotation: Rotation,
    x: int,
    y: int,
) -> bool {
    exists|k: int|
        0 <= k < probe_cells(shape, rotation).len() && !cell_free(
            grid,
            width,
            x + #[trigger] probe_cells(shape, rotation)[k].0,
            y + probe_cells(shape, rotation)[k].1,
            Rgb::black_spec(),
        )
}

/// Tests whether the piece may descend one row, by probing its collision
/// footprint against the canvas. A cell outside the canvas counts as free,
/// exactly as the drawing surface answers occupancy queries.
pub fn would_tetromino_collide_with_canvas(t: &Tetromino, canvas: &InMemoryCanvas) -> (r: bool)
    requires
        canvas_wf(*canvas),
        piece_wf(*t),
    ensures
        r == collides_at(
            grid_of(*canvas),
            width_of(*canvas),
            t.shape,
            t.rotation,
            t.x as int,
            t.y as int,
        ),
{
    proof {
        lemma_catalog_total(t.shape, t.rotation);
    }
    let bg = Rgb::black();
    let probes = probe_cells_exec(t.shape, t.rotation);
    let n = probes.len();
    let mut hit = false;
    let mut i: usize = 0;
    while i < n
        invariant
            canvas_wf(*canvas),
            piece_wf(*t),
            n == probes.len(),
            probes@ == probe_cells(t.shape, t.rotation),
            bg == Rgb::black_spec(),
            0 <= i <= n,
            forall|k: int|
                0 <= k < probes@.len() ==> {
                    let (dx, dy) = #[trigger] probes@[k];
                    -footprint_reach() <= dx <= footprint_reach() && -footprint_reach() <= dy <= 0
                },
            hit == exists|k: int|
                0 <= k < i && !cell_free(
                    grid_of(*canvas),
                    width_of(*canvas),
                    t.x + #[trigger] probe_cells(t.shape, t.rotation)[k].0,
                    t.y + probe_cells(t.shape, t.rotation)[k].1,
                    Rgb::black_spec(),
                ),
        decreases n - i,
    {
        let (dx, dy) = probes[i];
        let px = t.x + dx;
        let py = t.y + dy;
        if !canvas_cell_is_free(canvas, px, py, bg) {
            hit = true;
        }
        i = i + 1;
    }
    hit
}

/// How many rows below the bottom canvas edge a piece may scroll before the
/// board removes it.
pub const REMOVAL_MARGIN: i64 = 4;

/// The target resting row a board is created with.
pub const DEFAULT_VIRTUAL_Y_STOP: i64 = 20;

/// One simulation tick of a single piece: descend one row unless the piece
/// is holding or its collision footprint is blocked; then freeze at the
/// target row unless the piece is falling out.
pub open spec fn step_piece(
    t: Tetromino,
    grid: Seq<Seq<(u8, u8, u8, u8)>>,
    width: int,
    stop: int,
) -> Tetromino {
    let moved = if t.fall != FallState::Hold && !collides_at(
        grid,
        width,
        t.shape,
        t.rotation,
        t.x as int,
        t.y as int,
    ) {
        Tetromino { shape: t.shape, rotation: t.rotation, x: t.x, y: (t.y + 1) as i64, color: t.color, fall: t.fall }
    } else {
        t
    };
    if moved.y == stop && t.fall != FallState::Out {
        Tetromino {
            shape: moved.shape,
            rotation: moved.rotation,
            x: moved.x,
            y: moved.y,
            color: moved.color,
            fall: FallState::Hold,
        }
    } else {
        moved
    }
}

/// One simulation tick of a whole piece list: every piece is stepped against
/// the same occupancy snapshot, in order, and pieces whose row exceeds
/// `limit` are dropped.
pub open spec fn step_board(
    pieces: Seq<Tetromino>,
    grid: Seq<Seq<(u8, u8, u8, u8)>>,
    width: int,
    stop: int,
    limit: int,
) -> Seq<Tetromino>
    decreases pieces.len(),
{
    if pieces.len() == 0 {
        Seq::empty()
    } else {
        let done = step_board(pieces.drop_last(), grid, width, stop, limit);
        let s = step_piece(pieces.last(), grid, width, stop);
        if s.y <= limit {
            done.push(s)
        } else {
            done
        }
    }
}

/// The grid after the first `k` rectangles of a piece's render footprint
/// have been painted at its anchor with its color.
pub open spec fn paint_rects(
    grid: Seq<Seq<(u8, u8, u8, u8)>>,
    width: int,
    t: Tetromino,
    k: int,
) -> Seq<Seq<(u8, u8, u8, u8)>>
    decreases k,
{
    if k <= 0 {
        grid
    } else {
        let prev = paint_rects(grid, width, t, k - 1);
        let (dx, dy, w, h) = render_rects(t.shape, t.rotation)[k - 1];
        paint_rect_spec(prev, width, t.x + dx, t.y + dy, w as int, h as int, t.color.pixel())
    }
}

/// The grid after one piece's whole render footprint has been painted.
pub open spec fn paint_piece(
    grid: Seq<Seq<(u8, u8, u8, u8)>>,
    width: int,
    t: Tetromino,
) -> Seq<Seq<(u8, u8, u8, u8)>> {
    paint_rects(grid, width, t, render_rects(t.shape, t.rotation).len() as int)
}

/// The grid after the first `k` pieces of a list have been painted, in
/// order; later pieces win on overlap.
pub open spec fn paint_pieces(
    grid: Seq<Seq<(u8, u8, u8, u8)>>,
    width: int,
    pieces: Seq<Tetromino>,
    k: int,
) -> Seq<Seq<(u8, u8, u8, u8)>>
    decreases k,
{
    if k <= 0 {
        grid
    } else {
        paint_piece(paint_pieces(grid, width, pieces, k - 1), width, pieces[k - 1])
    }
}

/// The grid after every piece of a list has been painted, in order.
pub open spec fn paint_board(
    grid: Seq<Seq<(u8, u8, u8, u8)>>,
    width: int,
    pieces: Seq<Tetromino>,
) -> Seq<Seq<(u8, u8, u8, u8)>> {
    paint_pieces(grid, width, pieces, pieces.len() as int)
}

/// An ordered collection of live tetrominoes together with the target
/// resting row at which descending pieces freeze.
pub struct Board {
    tetrominos: Vec<Tetromino>,
    virtual_y_stop: i64,
}

impl Board {
    /// The live pieces, in insertion order.
    pub closed spec fn pieces(&self) -> Seq<Tetromino> {
        self.tetrominos@
    }

    /// The configured target resting row.
    pub closed spec fn stop_row(&self) -> int {
        self.virtual_y_stop as int
    }

    /// Every live piece has a well-formed position.
    pub open spec fn wf(&self) -> bool {
        forall|j: int| 0 <= j < self.pieces().len() ==> piece_wf(#[trigger] self.pieces()[j])
    }

    /// A fresh board with no pieces and the default target row.
    pub fn new() -> (b: Board)
        ensures
            b.wf(),
            b.pieces().len() == 0,
            b.stop_row() == DEFAULT_VIRTUAL_Y_STOP as int,
    {
        Board { tetrominos: Vec::new(), virtual_y_stop: DEFAULT_VIRTUAL_Y_STOP }
    }

    /// A fresh board with no pieces and the given target resting row.
    pub fn with_virtual_y_stop(stop: i64) -> (b: Board)
        ensures
            b.wf(),
            b.pieces().len() == 0,
            b.stop_row() == stop as int,
    {
        Board { tetrominos: Vec::new(), virtual_y_stop: stop }
    }

    /// The number of live pieces.
    pub fn piece_count(&self) -> (n: usize)
        ensures
            n == self.pieces().len(),
    {
        self.tetrominos.len()
    }

    /// The live piece at the given position of the insertion order.
    pub fn piece_at(&self, j: usize) -> (t: Tetromino)
        requires
            j < self.pieces().len(),
        ensures
            t == self.pieces()[j as int],
    {
        self.tetrominos[j]
    }

    /// Appends a new live piece in the `In` phase at the given anchor.
    pub fn add_tetromino(&mut self, x: i64, y: i64, color: Rgb, shape: Shape, rotation: Rotation)
        requires
            old(self).wf(),
            pos_ok(x as int, y as int),
        ensures
            final(self).wf(),
            final(self).stop_row() == old(self).stop_row(),
            final(self).pieces() == old(self).pieces().push(
                Tetromino { shape, rotation, x, y, color, fall: FallState::In },
            ),
    {
        self.tetrominos.push(Tetromino { shape, rotation, x, y, color, fall: FallState::In });
        proof {
            assert forall|j: int| 0 <= j < self.pieces().len() implies piece_wf(
                #[trigger] self.pieces()[j],
            ) by {
                if j < old(self).pieces().len() {
                    assert(self.pieces()[j] == old(self).pieces()[j]);
                    assert(piece_wf(old(self).pieces()[j]));
                }
            }
        }
    }

    /// Flips every live piece to the `Out` phase, so that the whole glyph
    /// falls out of the display. Called once per digit change, before the
    /// next digit's animation begins.
    pub fn initiate_fall_out(&mut self)
        requires
            old(self).wf(),
        ensures
            final(self).wf(),
            final(self).stop_row() == old(self).stop_row(),
            final(self).pieces().len() == old(self).pieces().len(),
            forall|j: int|
                0 <= j < old(self).pieces().len() ==> #[trigger] final(self).pieces()[j]
                    == (Tetromino {
                    fall: FallState::Out,
                    ..old(self).pieces()[j]
                }),
    {
        let n = self.tetrominos.len();
        let mut i: usize = 0;
        while i < n
            invariant
                n == self.tetrominos.len(),
                0 <= i <= n,
                self.virtual_y_stop == old(self).virtual_y_stop,
                forall|j: int|
                    0 <= j < i ==> #[trigger] self.tetrominos@[j] == (Tetromino {
                        fall: FallState::Out,
                        ..old(self).pieces()[j]
                    }),
                forall|j: int| i <= j < n ==> #[trigger] self.tetrominos@[j] == old(self).pieces()[j],
            decreases n - i,
        {
            let mut t = self.tetrominos[i];
            t.fall = FallState::Out;
            self.tetrominos.set(i, t);
            i = i + 1;
        }
    }

    /// One simulation tick: steps every live piece against the same
    /// occupancy snapshot, in insertion order, then removes every piece
    /// whose row has scrolled past the canvas height plus the removal
    /// margin.
    pub fn update(&mut self, canvas: &InMemoryCanvas)
        requires
            old(self).wf(),
            canvas_wf(*canvas),
        ensures
            final(self).wf(),
            final(self).stop_row() == old(self).stop_row(),
            final(self).pieces() == step_board(
                old(self).pieces(),
                grid_of(*canvas),
                width_of(*canvas),
                old(self).stop_row(),
                grid_of(*canvas).len() + REMOVAL_MARGIN,
            ),
    {
        let limit: i64 = canvas_height(canvas) as i64 + REMOVAL_MARGIN;
        let ghost orig = self.tetrominos@;
        let ghost grid = grid_of(*canvas);
        let ghost width = width_of(*canvas);
        let ghost stop = self.virtual_y_stop as int;
        let n = self.tetrominos.len();
        let mut kept: Vec<Tetromino> = Vec::new();
        let mut i: usize = 0;
        proof {
            assert forall|j: int| 0 <= j < n implies piece_wf(#[trigger] orig[j]) by {
                assert(piece_wf(old(self).pieces()[j]));
            }
            assert(grid.len() <= width * grid.len()) by (nonlinear_arith)
                requires
                    width >= 1,
                    grid.len() >= 0,
            ;
        }
        while i < n
            invariant
                canvas_wf(*canvas),
                grid == grid_of(*canvas),
                width == width_of(*canvas),
                stop == self.virtual_y_stop as int,
                limit == grid.len() + REMOVAL_MARGIN,
                grid.len() <= u32::MAX,
                n == self.tetrominos.len(),
                self.tetrominos@ == orig,
                self.virtual_y_stop == old(self).virtual_y_stop,
                forall|j: int| 0 <= j < n ==> piece_wf(#[trigger] orig[j]),
                0 <= i <= n,
                kept@ == step_board(orig.subrange(0, i as int), grid, width, stop, limit as int),
                forall|j: int| 0 <= j < kept@.len() ==> piece_wf(#[trigger] kept@[j]),
            decreases n - i,
        {
            let t = self.tetrominos[i];
            proof {
                assert(piece_wf(orig[i as int]));
            }
            let mut s = t;
            if t.fall != FallState::Hold && !would_tetromino_collide_with_canvas(&t, canvas) {
                s.y = t.y + 1;
            }
            if s.y == self.virtual_y_stop && t.fall != FallState::Out {
                s.fall = FallState::Hold;
            }
            proof {
                assert(s == step_piece(t, grid, width, stop));
                assert(orig.subrange(0, i + 1).drop_last() =~= orig.subrange(0, i as int));
                assert(orig.subrange(0, i + 1).last() == orig[i as int]);
            }
            if s.y <= limit {
                kept.push(s);
                proof {
                    assert(piece_wf(s));
                }
            }
            i = i + 1;
        }
        proof {
            assert(orig.subrange(0, n as int) =~= orig);
        }
        self.tetrominos = kept;
    }

    /// Paints every live piece's render footprint at its current anchor with
    /// its stored color, in insertion order, so that later pieces win where
    /// footprints overlap.
    pub fn render(&self, canvas: &mut InMemoryCanvas)
        requires
            self.wf(),
            canvas_wf(*old(canvas)),
        ensures
            canvas_wf(*final(canvas)),
            width_of(*final(canvas)) == width_of(*old(canvas)),
            grid_of(*final(canvas)) == paint_board(
                grid_of(*old(canvas)),
                width_of(*old(canvas)),
                self.pieces(),
            ),
    {
        let ghost g0 = grid_of(*old(canvas));
        let ghost width = width_of(*old(canvas));
        let n = self.tetrominos.len();
        let mut i: usize = 0;
        while i < n
            invariant
                self.wf(),
                canvas_wf(*canvas),
                width_of(*canvas) == width,
                n == self.tetrominos.len(),
                0 <= i <= n,
                grid_of(*canvas) == paint_pieces(g0, width, self.pieces(), i as int),
            decreases n - i,
        {
            let t = self.tetrominos[i];
            proof {
                assert(piece_wf(self.pieces()[i as int]));
                lemma_catalog_total(t.shape, t.rotation);
            }
            let rects = render_rects_exec(t.shape, t.rotation);
            let m = rects.len();
            let ghost gi = grid_of(*canvas);
            let mut j: usize = 0;
            while j < m
                invariant
                    canvas_wf(*canvas),
                    width_of(*canvas) == width,
                    piece_wf(t),
                    m == rects.len(),
                    rects@ == render_rects(t.shape, t.rotation),
                    forall|k: int|
                        0 <= k < rects@.len() ==> {
                            let (dx, dy, w, h) = #[trigger] rects@[k];
                            &&& -footprint_reach() <= dx <= footprint_reach()
                            &&& -footprint_reach() <= dy <= 0
                            &&& 1 <= w <= footprint_reach()
                            &&& 1 <= h <= footprint_reach()
                        },
                    0 <= j <= m,
                    grid_of(*canvas) == paint_rects(gi, width, t, j as int),
                decreases m - j,
            {
                let (dx, dy, w, h) = rects[j];
                canvas_fill_rect(canvas, t.x + dx, t.y + dy, w, h, t.color);
                j = j + 1;
            }
            proof {
                assert(grid_of(*canvas) == paint_piece(gi, width, t));
            }
            i = i + 1;
        }
    }
}

/// Whether a piece's render footprint, at its anchor, fills the absolute
/// cell `(cx, cy)`.
pub open spec fn piece_covers(t: Tetromino, cx: int, cy: int) -> bool {
    renders_cell(t.shape, t.rotation, cx - t.x, cy - t.y)
}

/// What painting the first `k` rectangles of a piece does to one cell.
proof fn lemma_paint_rects_cell(
    grid: Seq<Seq<(u8, u8, u8, u8)>>,
    width: int,
    t: Tetromino,
    k: int,
    cx: int,
    cy: int,
)
    requires
        1 <= width,
        1 <= grid.len(),
        0 <= cy < grid.len(),
        grid[cy].len() == width,
        0 <= cx < width,
        0 <= k <= render_rects(t.shape, t.rotation).len(),
    ensures
        paint_rects(grid, width, t, k).len() == grid.len(),
        paint_rects(grid, width, t, k)[cy].len() == width,
        (cx <= width - 2 && cy <= grid.len() - 2 && exists|j: int|
            0 <= j < k && rect_covers(#[trigger] render_rects(t.shape, t.rotation)[j], cx - t.x, cy - t.y))
            ==> paint_rects(grid, width, t, k)[cy][cx] == t.color.pixel(),
        !(exists|j: int|
            0 <= j < k && rect_covers(
                #[trigger] render_rects(t.shape, t.rotation)[j],
                cx - t.x,
                cy - t.y,
            )) ==> paint_rects(grid, width, t, k)[cy][cx] == grid[cy][cx],
    decreases k,
{
    if k > 0 {
        lemma_paint_rects_cell(grid, width, t, k - 1, cx, cy);
        let prev = paint_rects(grid, width, t, k - 1);
        let (dx, dy, w, h) = render_rects(t.shape, t.rotation)[k - 1];
        crate::surface::lemma_paint_rect_spec_cell(
            prev,
            width,
            t.x + dx,
            t.y + dy,
            w as int,
            h as int,
            t.color.pixel(),
            cx,
            cy,
        );
        assert(rect_covers(render_rects(t.shape, t.rotation)[k - 1], cx - t.x, cy - t.y) <==> (t.x
            + dx <= cx < t.x + dx + w && t.y + dy <= cy < t.y + dy + h));
    }
}

/// What rendering one piece does to one cell: a cell of the piece's
/// footprint, short of the canvas's right and bottom edges, takes the
/// piece's color; every other cell keeps its pixel. Painting at the current
/// anchor, footprint and color is all a render does.
pub proof fn lemma_paint_piece_cell(
    grid: Seq<Seq<(u8, u8, u8, u8)>>,
    width: int,
    t: Tetromino,
    cx: int,
    cy: int,
)
    requires
        1 <= width,
        1 <= grid.len(),
        0 <= cy < grid.len(),
        grid[cy].len() == width,
        0 <= cx < width,
    ensures
        paint_piece(grid, width, t).len() == grid.len(),
        paint_piece(grid, width, t)[cy].len() == width,
        (piece_covers(t, cx, cy) && cx <= width - 2 && cy <= grid.len() - 2) ==> paint_piece(
            grid,
            width,
            t,
        )[cy][cx] == t.color.pixel(),
        !piece_covers(t, cx, cy) ==> paint_piece(grid, width, t)[cy][cx] == grid[cy][cx],
{
    lemma_paint_rects_cell(grid, width, t, render_rects(t.shape, t.rotation).len() as int, cx, cy);
}

/// What painting the first `k` pieces does to a cell nothing covers.
proof fn lemma_untouched_prefix(
    grid: Seq<Seq<(u8, u8, u8, u8)>>,
    width: int,
    pieces: Seq<Tetromino>,
    k: int,
    cx: int,
    cy: int,
)
    requires
        1 <= width,
        1 <= grid.len(),
        0 <= cy < grid.len(),
        grid[cy].len() == width,
        0 <= cx < width,
        0 <= k <= pieces.len(),
        forall|j: int| 0 <= j < k ==> !piece_covers(#[trigger] pieces[j], cx, cy),
    ensures
        paint_pieces(grid, width, pieces, k).len() == grid.len(),
        paint_pieces(grid, width, pieces, k)[cy].len() == width,
        paint_pieces(grid, width, pieces, k)[cy][cx] == grid[cy][cx],
    decreases k,
{
    if k > 0 {
        lemma_untouched_prefix(grid, width, pieces, k - 1, cx, cy);
        lemma_paint_piece_cell(paint_pieces(grid, width, pieces, k - 1), width, pieces[k - 1], cx, cy);
    }
}

/// What painting the first `k` pieces does to a cell whose last coverer
/// among them is piece `j`.
proof fn lemma_last_writer_prefix(
    grid: Seq<Seq<(u8, u8, u8, u8)>>,
    width: int,
    pieces: Seq<Tetromino>,
    j: int,
    k: int,
    cx: int,
    cy: int,
)
    requires
        1 <= width,
        1 <= grid.len(),
        0 <= cy < grid.len(),
        grid[cy].len() == width,
        0 <= cx <= width - 2,
        0 <= cy <= grid.len() - 2,
        0 <= j < k <= pieces.len(),
        piece_covers(pieces[j], cx, cy),
        forall|j2: int| j < j2 < k ==> !piece_covers(#[trigger] pieces[j2], cx, cy),
    ensures
        paint_pieces(grid, width, pieces, k).len() == grid.len(),
        paint_pieces(grid, width, pieces, k)[cy].len() == width,
        paint_pieces(grid, width, pieces, k)[cy][cx] == pieces[j].color.pixel(),
    decreases k,
{
    if k == j + 1 {
        lemma_untouched_len_prefix(grid, width, pieces, j, cx, cy);
        lemma_paint_piece_cell(paint_pieces(grid, width, pieces, j), width, pieces[j], cx, cy);
    } else {
        lemma_last_writer_prefix(grid, width, pieces, j, k - 1, cx, cy);
        lemma_paint_piece_cell(paint_pieces(grid, width, pieces, k - 1), width, pieces[k - 1], cx, cy);
    }
}

/// The first `k` pieces keep the grid's height and the row's width, with
/// nothing assumed about coverage.
proof fn lemma_untouched_len_prefix(
    grid: Seq<Seq<(u8, u8, u8, u8)>>,
    width: int,
    pieces: Seq<Tetromino>,
    k: int,
    cx: int,
    cy: int,
)
    requires
        1 <= width,
        1 <= grid.len(),
        0 <= cy < grid.len(),
        grid[cy].len() == width,
        0 <= cx < width,
        0 <= k <= pieces.len(),
    ensures
        paint_pieces(grid, width, pieces, k).len() == grid.len(),
        paint_pieces(grid, width, pieces, k)[cy].len() == width,
    decreases k,
{
    if k > 0 {
        lemma_untouched_len_prefix(grid, width, pieces, k - 1, cx, cy);
        lemma_paint_piece_cell(paint_pieces(grid, width, pieces, k - 1), width, pieces[k - 1], cx, cy);
    }
}

/// Rendering, cell by cell: a cell no live piece's footprint covers keeps
/// its pixel.
pub proof fn lemma_render_cell_untouched(
    grid: Seq<Seq<(u8, u8, u8, u8)>>,
    width: int,
    pieces: Seq<Tetromino>,
    cx: int,
    cy: int,
)
    requires
        1 <= width,
        1 <= grid.len(),
        0 <= cy < grid.len(),
        grid[cy].len() == width,
        0 <= cx < width,
        forall|j: int| 0 <= j < pieces.len() ==> !piece_covers(#[trigger] pieces[j], cx, cy),
    ensures
        paint_board(grid, width, pieces)[cy][cx] == grid[cy][cx],
{
    lemma_untouched_prefix(grid, width, pieces, pieces.len() as int, cx, cy);
}

/// Rendering, cell by cell: a cell covered by a piece's footprint, short of
/// the canvas's right and bottom edges, shows that piece's color — and
/// where footprints overlap, the piece painted last wins.
pub proof fn lemma_render_cell_color(
    grid: Seq<Seq<(u8, u8, u8, u8)>>,
    width: int,
    pieces: Seq<Tetromino>,
    j: int,
    cx: int,
    cy: int,
)
    requires
        1 <= width,
        1 <= grid.len(),
        0 <= cy < grid.len(),
        grid[cy].len() == width,
        0 <= cx <= width - 2,
        0 <= cy <= grid.len() - 2,
        0 <= j < pieces.len(),
        piece_covers(pieces[j], cx, cy),
        forall|j2: int| j < j2 < pieces.len() ==> !piece_covers(#[trigger] pieces[j2], cx, cy),
    ensures
        paint_board(grid, width, pieces)[cy][cx] == pieces[j].color.pixel(),
{
    lemma_last_writer_prefix(grid, width, pieces, j, pieces.len() as int, cx, cy);
}

/// Holding stability: once a piece holds, a simulation tick leaves it
/// exactly as it is — in particular its position never changes again, on
/// any occupancy snapshot and for any target row, until a digit change
/// rewrites its phase.
pub proof fn lemma_holding_piece_stable(
    t: Tetromino,
    grid: Seq<Seq<(u8, u8, u8, u8)>>,
    width: int,
    stop: int,
)
    requires
        t.fall == FallState::Hold,
    ensures
        step_piece(t, grid, width, stop) == t,
{
}

/// A holding piece survives a whole board tick untouched: it is still among
/// the stepped pieces, as long as it has not scrolled past the removal
/// limit.
pub proof fn lemma_step_board_keeps_holding(
    pieces: Seq<Tetromino>,
    grid: Seq<Seq<(u8, u8, u8, u8)>>,
    width: int,
    stop: int,
    limit: int,
    j: int,
)
    requires
        0 <= j < pieces.len(),
        pieces[j].fall == FallState::Hold,
        pieces[j].y <= limit,
    ensures
        step_board(pieces, grid, width, stop, limit).contains(pieces[j]),
    decreases pieces.len(),
{
    let r = step_board(pieces, grid, width, stop, limit);
    if j == pieces.len() - 1 {
        lemma_holding_piece_stable(pieces.last(), grid, width, stop);
        assert(r.last() == pieces[j]);
        assert(r.contains(pieces[j]));
    } else {
        lemma_step_board_keeps_holding(pieces.drop_last(), grid, width, stop, limit, j);
        let prefix = step_board(pieces.drop_last(), grid, width, stop, limit);
        let k = choose|k: int| 0 <= k < prefix.len() && prefix[k] == pieces[j];
        assert(r[k] == pieces[j]);
        assert(r.contains(pieces[j]));
    }
}

/// Monotone descent: a simulation tick never decreases a piece's row, so a
/// piece's `y` is non-decreasing over its entire lifetime.
pub proof fn lemma_descent_monotone(
    t: Tetromino,
    grid: Seq<Seq<(u8, u8, u8, u8)>>,
    width: int,
    stop: int,
)
    requires
        piece_wf(t),
    ensures
        step_piece(t, grid, width, stop).y >= t.y,
        step_piece(t, grid, width, stop).x == t.x,
{
}

/// Every piece that survives a board tick is the stepped image of exactly
/// one piece of the old board, in order; with monotone descent this pins a
/// piece's `y` as non-decreasing over its entire lifetime.
pub proof fn lemma_step_board_membership(
    pieces: Seq<Tetromino>,
    grid: Seq<Seq<(u8, u8, u8, u8)>>,
    width: int,
    stop: int,
    limit: int,
)
    ensures
        forall|j: int|
            0 <= j < step_board(pieces, grid, width, stop, limit).len() ==> exists|k: int|
                0 <= k < pieces.len() && #[trigger] step_board(pieces, grid, width, stop, limit)[j]
                    == step_piece(pieces[k], grid, width, stop),
    decreases pieces.len(),
{
    if pieces.len() > 0 {
        lemma_step_board_membership(pieces.drop_last(), grid, width, stop, limit);
        let r = step_board(pieces, grid, width, stop, limit);
        let prefix = step_board(pieces.drop_last(), grid, width, stop, limit);
        assert forall|j: int| 0 <= j < r.len() implies exists|k: int|
            0 <= k < pieces.len() && #[trigger] r[j] == step_piece(pieces[k], grid, width, stop) by {
            if j < prefix.len() {
                let k = choose|k: int|
                    0 <= k < pieces.drop_last().len() && prefix[j] == step_piece(
                        pieces.drop_last()[k],
                        grid,
                        width,
                        stop,
                    );
                assert(pieces.drop_last()[k] == pieces[k]);
                assert(r[j] == step_piece(pieces[k], grid, width, stop));
            } else {
                let k = pieces.len() - 1;
                assert(r[j] == step_piece(pieces[k], grid, width, stop));
            }
        }
    }
}

/// An occupancy snapshot with nothing on it: every cell, inside the canvas
/// or out, counts as free.
pub open spec fn grid_all_background(grid: Seq<Seq<(u8, u8, u8, u8)>>, width: int) -> bool {
    forall|x: int, y: int| #[trigger] cell_free(grid, width, x, y, Rgb::black_spec())
}

/// On an all-background snapshot no piece's collision footprint is ever
/// blocked.
pub proof fn lemma_no_collision_on_background(
    grid: Seq<Seq<(u8, u8, u8, u8)>>,
    width: int,
    shape: Shape,
    rotation: Rotation,
    x: int,
    y: int,
)
    requires
        grid_all_background(grid, width),
    ensures
        !collides_at(grid, width, shape, rotation, x, y),
{
}

/// The board state after `n` simulation ticks, all against the same
/// occupancy snapshot.
pub open spec fn step_board_n(
    pieces: Seq<Tetromino>,
    grid: Seq<Seq<(u8, u8, u8, u8)>>,
    width: int,
    stop: int,
    limit: int,
    n: nat,
) -> Seq<Tetromino>
    decreases n,
{
    if n == 0 {
        pieces
    } else {
        step_board(step_board_n(pieces, grid, width, stop, limit, (n - 1) as nat), grid, width, stop, limit)
    }
}

/// One tick of a board whose pieces are all falling out, on an
/// all-background snapshot: every surviving piece has descended exactly one
/// row, is still falling out, and sits at or below row `lo + 1`; and once
/// every piece has reached the removal limit, one tick empties the board.
proof fn lemma_step_board_exiting(
    pieces: Seq<Tetromino>,
    grid: Seq<Seq<(u8, u8, u8, u8)>>,
    width: int,
    stop: int,
    limit: int,
    lo: int,
)
    requires
        grid_all_background(grid, width),
        limit <= i64::MAX - 1,
        forall|j: int|
            0 <= j < pieces.len() ==> {
                let t = #[trigger] pieces[j];
                t.fall == FallState::Out && piece_wf(t) && t.y >= lo
            },
    ensures
        forall|j: int|
            0 <= j < step_board(pieces, grid, width, stop, limit).len() ==> {
                let t = #[trigger] step_board(pieces, grid, width, stop, limit)[j];
                t.fall == FallState::Out && piece_wf(t) && t.y >= lo + 1 && t.y <= limit
            },
        lo >= limit ==> step_board(pieces, grid, width, stop, limit).len() == 0,
    decreases pieces.len(),
{
    if pieces.len() > 0 {
        lemma_step_board_exiting(pieces.drop_last(), grid, width, stop, limit, lo);
        let t = pieces.last();
        lemma_no_collision_on_background(grid, width, t.shape, t.rotation, t.x as int, t.y as int);
        assert(piece_wf(t) && t.fall == FallState::Out);
        let s = step_piece(t, grid, width, stop);
        assert(s.y == t.y + 1 && s.fall == FallState::Out && s.x == t.x);
    }
}

/// Exit completeness: a board whose pieces are all falling out, ticking
/// against an unobstructed snapshot, is empty after enough ticks — one more
/// than the removal limit minus the lowest starting row, since a piece is
/// removed only once its row exceeds the limit.
pub proof fn lemma_exit_completeness(
    pieces: Seq<Tetromino>,
    grid: Seq<Seq<(u8, u8, u8, u8)>>,
    width: int,
    stop: int,
    limit: int,
    lo: int,
    n: nat,
)
    requires
        grid_all_background(grid, width),
        limit <= i64::MAX - 1,
        forall|j: int|
            0 <= j < pieces.len() ==> {
                let t = #[trigger] pieces[j];
                t.fall == FallState::Out && piece_wf(t) && t.y >= lo
            },
        n >= 1,
        n >= limit + 1 - lo,
    ensures
        step_board_n(pieces, grid, width, stop, limit, n).len() == 0,
    decreases n,
{
    if n == 1 {
        lemma_step_board_exiting(pieces, grid, width, stop, limit, lo);
    } else {
        let prev = step_board_n(pieces, grid, width, stop, limit, (n - 1) as nat);
        lemma_exit_invariant(pieces, grid, width, stop, limit, lo, (n - 1) as nat);
        lemma_step_board_exiting(prev, grid, width, stop, limit, lo + n - 1);
    }
}

/// After `k` unobstructed ticks every remaining exiting piece has descended
/// `k` rows.
proof fn lemma_exit_invariant(
    pieces: Seq<Tetromino>,
    grid: Seq<Seq<(u8, u8, u8, u8)>>,
    width: int,
    stop: int,
    limit: int,
    lo: int,
    k: nat,
)
    requires
        grid_all_background(grid, width),
        limit <= i64::MAX - 1,
        forall|j: int|
            0 <= j < pieces.len() ==> {
                let t = #[trigger] pieces[j];
                t.fall == FallState::Out && piece_wf(t) && t.y >= lo
            },
    ensures
        forall|j: int|
            0 <= j < step_board_n(pieces, grid, width, stop, limit, k).len() ==> {
                let t = #[trigger] step_board_n(pieces, grid, width, stop, limit, k)[j];
                t.fall == FallState::Out && piece_wf(t) && t.y >= lo + k
            },
    decreases k,
{
    if k > 0 {
        lemma_exit_invariant(pieces, grid, width, stop, limit, lo, (k - 1) as nat);
        let prev = step_board_n(pieces, grid, width, stop, limit, (k - 1) as nat);
        lemma_step_board_exiting(prev, grid, width, stop, limit, lo + k - 1);
    }
}

} // verus!
