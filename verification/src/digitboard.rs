//! The digit board: one board plus the animation sequencer for the digit it
//! is currently displaying.
//!
//! Each simulation tick the sequencer counts up; once the count passes the
//! spawn delay and the current digit's script still has unconsumed
//! descriptors, the next descriptor is spawned as a live piece at the top of
//! the display with a freshly randomized color, and the count restarts.
//! Every tick is forwarded to the owned board, whether or not a spawn
//! occurred. Changing the displayed digit flips all live pieces to falling
//! out, swaps in the new digit's script and restarts the sequencer.

use vstd::prelude::*;
use pixel_loop::canvas::InMemoryCanvas;
use crate::board::Board;
use crate::board::FallState;
use crate::board::Tetromino;
use crate::board::pos_ok;
use crate::board::step_board;
use crate::board::paint_board;
use crate::board::REMOVAL_MARGIN;
use crate::color::Rgb;
use crate::digits::Digit;
use crate::digits::FallingTetromino;
use crate::digits::descriptor_wf;
use crate::digits::digit_animation;
use crate::digits::digit_animation_exec;
use crate::digits::lemma_digit_animation_wf;
use crate::surface::canvas_wf;
use crate::surface::grid_of;
use crate::surface::width_of;

verus! {

/// How many ticks must pass after a spawn (or a digit change) before the
/// next descriptor may spawn.
pub const SPAWN_DELAY: usize = 3;

/// Whether a sequencer with cursor `index` into a script of length `len`,
/// `ticks` ticks after the last spawn, spawns a piece on the next tick.
pub open spec fn spawn_due(index: int, len: int, ticks: int) -> bool {
    index < len && ticks > SPAWN_DELAY
}

/// One tick of the sequencer counters: on a spawn the cursor advances and
/// the count restarts (the tick itself counts as one); otherwise only the
/// count grows, saturating at the machine limit.
pub open spec fn sequencer_step(index: int, len: int, ticks: int) -> (int, int) {
    if spawn_due(index, len, ticks) {
        (index + 1, 1)
    } else {
        (index, if ticks < usize::MAX { ticks + 1 } else { ticks })
    }
}

/// The piece a digit board at offset `x_offset` spawns for descriptor `f`:
/// the descriptor's shape and rotation, anchored at row zero, in the
/// entering phase.
pub open spec fn spawned_piece(x_offset: int, f: FallingTetromino, color: Rgb) -> Tetromino {
    Tetromino {
        shape: f.shape,
        rotation: f.rotation,
        x: (x_offset + f.dx) as i64,
        y: 0,
        color,
        fall: FallState::In,
    }
}

/// Relies on `rand::random` (re-exported by `pixel_loop`) for one random
/// byte of a spawned piece's display color. Nothing is promised of the
/// value.
#[verifier::external_body]
fn random_u8() -> u8 {
    pixel_loop::rand::random::<u8>()
}

/// One board plus the animation script of the digit it currently displays,
/// a cursor into that script, and the tick count since the last spawn.
pub struct DigitBoard {
    board: Board,
    x_offset: i64,
    animation: Vec<FallingTetromino>,
    index: usize,
    updates_since_last_anim: usize,
}

impl DigitBoard {
    /// The live pieces of the owned board, in insertion order.
    pub closed spec fn pieces(&self) -> Seq<Tetromino> {
        self.board.pieces()
    }

    /// The target resting row of the owned board.
    pub closed spec fn stop_row(&self) -> int {
        self.board.stop_row()
    }

    /// The current digit's animation script.
    pub closed spec fn script(&self) -> Seq<FallingTetromino> {
        self.animation@
    }

    /// The spawn cursor: how many descriptors of the script have spawned.
    pub closed spec fn cursor(&self) -> int {
        self.index as int
    }

    /// Ticks since the last spawn or digit change.
    pub closed spec fn ticks(&self) -> int {
        self.updates_since_last_anim as int
    }

    /// The horizontal offset of the digit's local origin.
    pub closed spec fn offset(&self) -> int {
        self.x_offset as int
    }

    /// Well-formedness: the owned board is well-formed, the offset leaves
    /// room for every descriptor's spawn position, the script stays within
    /// the glyph width, and the cursor never passes the script's end.
    pub open spec fn wf(&self) -> bool {
        &&& self.board_wf()
        &&& i64::MIN + 4 <= self.offset() <= i64::MAX - 9
        &&& forall|j: int| 0 <= j < self.script().len() ==> descriptor_wf(#[trigger] self.script()[j])
        &&& 0 <= self.cursor() <= self.script().len()
    }

    /// The owned board's own well-formedness.
    pub closed spec fn board_wf(&self) -> bool {
        self.board.wf()
    }

    /// A fresh digit board at the given horizontal offset, displaying the
    /// given digit: no live pieces yet, the digit's script ready, and the
    /// sequencer at the start of its first spawn delay.
    pub fn new(x_offset: i64, digit: Digit) -> (d: DigitBoard)
        requires
            i64::MIN + 4 <= x_offset as int <= i64::MAX - 9,
        ensures
            d.wf(),
            d.pieces().len() == 0,
            d.script() == digit_animation(digit),
            d.cursor() == 0,
            d.ticks() == 0,
            d.offset() == x_offset as int,
    {
        proof {
            lemma_digit_animation_wf(digit);
        }
        DigitBoard {
            board: Board::new(),
            x_offset,
            animation: digit_animation_exec(digit),
            index: 0,
            updates_since_last_anim: 0,
        }
    }

    /// As `new`, with the owned board's target resting row configured
    /// instead of the built-in default.
    pub fn with_virtual_y_stop(x_offset: i64, stop: i64, digit: Digit) -> (d: DigitBoard)
        requires
            i64::MIN + 4 <= x_offset as int <= i64::MAX - 9,
        ensures
            d.wf(),
            d.pieces().len() == 0,
            d.script() == digit_animation(digit),
            d.cursor() == 0,
            d.ticks() == 0,
            d.offset() == x_offset as int,
            d.stop_row() == stop as int,
    {
        proof {
            lemma_digit_animation_wf(digit);
        }
        DigitBoard {
            board: Board::with_virtual_y_stop(stop),
            x_offset,
            animation: digit_animation_exec(digit),
            index: 0,
            updates_since_last_anim: 0,
        }
    }

    /// Displays a new digit: flips every live piece to falling out, swaps
    /// in the new digit's script, and restarts the spawn cursor and the
    /// spawn-delay count, so that assembly starts over from the first
    /// descriptor.
    pub fn set_digit(&mut self, digit: Digit)
        requires
            old(self).wf(),
        ensures
            final(self).wf(),
            final(self).pieces().len() == old(self).pieces().len(),
            forall|j: int|
                0 <= j < old(self).pieces().len() ==> #[trigger] final(self).pieces()[j]
                    == (Tetromino {
                    fall: FallState::Out,
                    ..old(self).pieces()[j]
                }),
            final(self).script() == digit_animation(digit),
            final(self).cursor() == 0,
            final(self).ticks() == 0,
            final(self).offset() == old(self).offset(),
            final(self).stop_row() == old(self).stop_row(),
    {
        proof {
            lemma_digit_animation_wf(digit);
        }
        self.board.initiate_fall_out();
        self.animation = digit_animation_exec(digit);
        self.index = 0;
        self.updates_since_last_anim = 0;
    }

    /// One simulation tick with the spawned piece's color injected: spawns
    /// the next descriptor if one is due, then forwards the tick to the
    /// owned board, then counts the tick.
    pub fn update_with_color(&mut self, canvas: &InMemoryCanvas, color: Rgb)
        requires
            old(self).wf(),
            canvas_wf(*canvas),
        ensures
            final(self).wf(),
            final(self).script() == old(self).script(),
            final(self).offset() == old(self).offset(),
            final(self).stop_row() == old(self).stop_row(),
            (final(self).cursor(), final(self).ticks()) == sequencer_step(
                old(self).cursor(),
                old(self).script().len() as int,
                old(self).ticks(),
            ),
            spawn_due(old(self).cursor(), old(self).script().len() as int, old(self).ticks())
                ==> final(self).pieces() == step_board(
                old(self).pieces().push(
                    spawned_piece(old(self).offset(), old(self).script()[old(self).cursor()], color),
                ),
                grid_of(*canvas),
                width_of(*canvas),
                old(self).stop_row(),
                grid_of(*canvas).len() + REMOVAL_MARGIN,
            ),
            !spawn_due(old(self).cursor(), old(self).script().len() as int, old(self).ticks())
                ==> final(self).pieces() == step_board(
                old(self).pieces(),
                grid_of(*canvas),
                width_of(*canvas),
                old(self).stop_row(),
                grid_of(*canvas).len() + REMOVAL_MARGIN,
            ),
    {
        if self.index < self.animation.len() && self.updates_since_last_anim > SPAWN_DELAY {
            let f = self.animation[self.index];
            proof {
                assert(descriptor_wf(self.script()[self.index as int]));
                assert(pos_ok(self.x_offset + f.dx, 0));
            }
            self.board.add_tetromino(self.x_offset + f.dx, 0, color, f.shape, f.rotation);
            self.index = self.index + 1;
            self.updates_since_last_anim = 0;
        }
        self.board.update(canvas);
        if self.updates_since_last_anim < usize::MAX {
            self.updates_since_last_anim = self.updates_since_last_anim + 1;
        }
    }

    /// One simulation tick: as `update_with_color`, with the spawned
    /// piece's color drawn from the process-wide random generator. The
    /// board's geometry is the same whatever color was drawn.
    pub fn update(&mut self, canvas: &InMemoryCanvas)
        requires
            old(self).wf(),
            canvas_wf(*canvas),
        ensures
            final(self).wf(),
            final(self).script() == old(self).script(),
            final(self).offset() == old(self).offset(),
            final(self).stop_row() == old(self).stop_row(),
            (final(self).cursor(), final(self).ticks()) == sequencer_step(
                old(self).cursor(),
                old(self).script().len() as int,
                old(self).ticks(),
            ),
            spawn_due(old(self).cursor(), old(self).script().len() as int, old(self).ticks())
                ==> exists|c: Rgb|
                final(self).pieces() == step_board(
                    old(self).pieces().push(
                        spawned_piece(old(self).offset(), old(self).script()[old(self).cursor()], c),
                    ),
                    grid_of(*canvas),
                    width_of(*canvas),
                    old(self).stop_row(),
                    grid_of(*canvas).len() + REMOVAL_MARGIN,
                ),
            !spawn_due(old(self).cursor(), old(self).script().len() as int, old(self).ticks())
                ==> final(self).pieces() == step_board(
                old(self).pieces(),
                grid_of(*canvas),
                width_of(*canvas),
                old(self).stop_row(),
                grid_of(*canvas).len() + REMOVAL_MARGIN,
            ),
    {
        let color = Rgb { r: random_u8(), g: random_u8(), b: random_u8() };
        self.update_with_color(canvas, color);
    }

    /// Paints the owned board's pieces onto the canvas.
    pub fn render(&self, canvas: &mut InMemoryCanvas)
        requires
            self.wf(),
            canvas_wf(*old(canvas)),
        ensures
            canvas_wf(*final(canvas)),
            width_of(*final(canvas)) == width_of(*old(canvas)),
            grid_of(*final(canvas)) == paint_board(
                grid_of(*old(canvas)),
                width_of(*old(canvas)),
                self.pieces(),
            ),
    {
        self.board.render(canvas);
    }

    /// The number of live pieces on the owned board.
    pub fn piece_count(&self) -> (n: usize)
        ensures
            n == self.pieces().len(),
    {
        self.board.piece_count()
    }

    /// The live piece at the given position of the insertion order.
    pub fn piece_at(&self, j: usize) -> (t: Tetromino)
        requires
            j < self.pieces().len(),
        ensures
            t == self.pieces()[j as int],
    {
        self.board.piece_at(j)
    }

    /// The spawn cursor's current position.
    pub fn cursor_value(&self) -> (i: usize)
        ensures
            i as int == self.cursor(),
    {
        self.index
    }

    /// Ticks since the last spawn or digit change.
    pub fn ticks_value(&self) -> (t: usize)
        ensures
            t as int == self.ticks(),
    {
        self.updates_since_last_anim
    }

    /// The length of the current digit's animation script.
    pub fn script_len(&self) -> (n: usize)
        ensures
            n as int == self.script().len(),
    {
        self.animation.len()
    }
}

/// Spawn cadence: a tick that spawns restarts the count at one, and no
/// spawn can be due again during the following spawn delay — successive
/// spawns are at least `SPAWN_DELAY + 1` ticks apart, hence at most one
/// piece appears per spawn interval and the script is consumed strictly in
/// order, one descriptor per spawn.
pub proof fn lemma_spawn_cadence(index: int, len: int, ticks: int)
    requires
        spawn_due(index, len, ticks),
    ensures
        ({
            let (i1, t1) = sequencer_step(index, len, ticks);
            !spawn_due(i1, len, t1)
        }),
        ({
            let (i1, t1) = sequencer_step(index, len, ticks);
            let (i2, t2) = sequencer_step(i1, len, t1);
            !spawn_due(i2, len, t2)
        }),
        ({
            let (i1, t1) = sequencer_step(index, len, ticks);
            let (i2, t2) = sequencer_step(i1, len, t1);
            let (i3, t3) = sequencer_step(i2, len, t2);
            !spawn_due(i3, len, t3)
        }),
{
}

/// Digit-change ordering: right after a digit change the count stands at
/// zero, and however long the script is, no piece spawns during the spawn
/// delay — the first descriptor can spawn at the earliest on the tick after
/// the count has passed `SPAWN_DELAY`.
pub proof fn lemma_no_spawn_before_delay(index: int, len: int, k: int)
    requires
        0 <= k <= SPAWN_DELAY,
    ensures
        !spawn_due(index, len, k),
{
}

} // verus!
