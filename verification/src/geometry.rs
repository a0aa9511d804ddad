//! The tetromino geometry catalog.
//!
//! A tetromino's position of record is its anchor: the lower-left filled cell
//! of the shape at its current rotation. For every (shape, rotation) pair the
//! catalog resolves two footprints, both given as offsets from the anchor:
//!
//! * the collision footprint: the cells, one row below the shape's bottom
//!   profile, that must be free for the piece to descend one row;
//! * the render footprint: the filled rectangles that paint the shape at its
//!   current position.
//!
//! The catalog is total over all 7 shapes times 4 rotations; opposite
//! rotations of the symmetric shapes (I, S, Z) share footprints.

use vstd::prelude::*;

verus! {

/// One of the seven canonical tetromino shapes.
#[derive(Debug, Clone, Copy, PartialEq, Eq, Structural)]
pub enum Shape {
    L,
    J,
    O,
    T,
    I,
    S,
    Z,
}

/// A rotation of a shape; `NoRotation` is the reference orientation.
#[derive(Debug, Clone, Copy, PartialEq, Eq, Structural)]
pub enum Rotation {
    Degrees90,
    Degrees180,
    Degrees270,
    NoRotation,
}

/// The collision footprint: cell offsets `(dx, dy)` from the anchor that are
/// probed for occupancy before the piece may descend one row.
pub open spec fn probe_cells(shape: Shape, rotation: Rotation) -> Seq<(i64, i64)> {
    match (shape, rotation) {
        (Shape::L, Rotation::NoRotation) => seq![(0i64, 0i64), (1i64, -1i64), (2i64, -1i64)],
        (Shape::L, Rotation::Degrees90) => seq![(0i64, 0i64), (-1i64, -2i64)],
        (Shape::L, Rotation::Degrees180) => seq![(0i64, 0i64), (1i64, 0i64), (2i64, 0i64)],
        (Shape::L, Rotation::Degrees270) => seq![(0i64, 0i64), (1i64, 0i64)],
        (Shape::J, Rotation::NoRotation) => seq![(0i64, 0i64), (-1i64, -1i64), (-2i64, -1i64)],
        (Shape::J, Rotation::Degrees90) => seq![(0i64, 0i64), (1i64, 0i64)],
        (Shape::J, Rotation::Degrees180) => seq![(0i64, 0i64), (1i64, 0i64), (2i64, 0i64)],
        (Shape::J, Rotation::Degrees270) => seq![(0i64, 0i64), (1i64, -2i64)],
        (Shape::O, _) => seq![(0i64, 0i64), (1i64, 0i64)],
        (Shape::T, Rotation::NoRotation) => seq![(0i64, 0i64), (1i64, -1i64), (-1i64, -1i64)],
        (Shape::T, Rotation::Degrees90) => seq![(0i64, 0i64), (-1i64, -1i64)],
        (Shape::T, Rotation::Degrees180) => seq![(0i64, 0i64), (1i64, 0i64), (2i64, 0i64)],
        (Shape::T, Rotation::Degrees270) => seq![(0i64, 0i64), (1i64, -1i64)],
        (Shape::I, Rotation::NoRotation) | (Shape::I, Rotation::Degrees180) => seq![
            (0i64, 0i64),
            (1i64, 0i64),
            (2i64, 0i64),
            (3i64, 0i64),
        ],
        (Shape::I, Rotation::Degrees90) | (Shape::I, Rotation::Degrees270) => seq![(0i64, 0i64)],
        (Shape::S, Rotation::NoRotation) | (Shape::S, Rotation::Degrees180) => seq![
            (0i64, 0i64),
            (1i64, 0i64),
            (2i64, -1i64),
        ],
        (Shape::S, Rotation::Degrees90) | (Shape::S, Rotation::Degrees270) => seq![
            (0i64, 0i64),
            (-1i64, -1i64),
        ],
        (Shape::Z, Rotation::NoRotation) | (Shape::Z, Rotation::Degrees180) => seq![
            (0i64, 0i64),
            (1i64, 0i64),
            (-1i64, -1i64),
        ],
        (Shape::Z, Rotation::Degrees90) | (Shape::Z, Rotation::Degrees270) => seq![
            (0i64, 0i64),
            (1i64, -1i64),
        ],
    }
}

/// The render footprint: rectangles `(dx, dy, width, height)` relative to the
/// anchor that together fill the shape at its current position.
pub open spec fn render_rects(shape: Shape, rotation: Rotation) -> Seq<(i64, i64, u32, u32)> {
    match (shape, rotation) {
        (Shape::L, Rotation::NoRotation) => seq![
            (0i64, -2i64, 1u32, 2u32),
            (1i64, -2i64, 2u32, 1u32),
        ],
        (Shape::L, Rotation::Degrees90) => seq![
            (0i64, -3i64, 1u32, 3u32),
            (-1i64, -3i64, 1u32, 1u32),
        ],
        (Shape::L, Rotation::Degrees180) => seq![
            (0i64, -1i64, 3u32, 1u32),
            (2i64, -2i64, 1u32, 1u32),
        ],
        (Shape::L, Rotation::Degrees270) => seq![
            (0i64, -3i64, 1u32, 3u32),
            (1i64, -1i64, 1u32, 1u32),
        ],
        (Shape::J, Rotation::NoRotation) => seq![
            (-2i64, -2i64, 2u32, 1u32),
            (0i64, -2i64, 1u32, 2u32),
        ],
        (Shape::J, Rotation::Degrees90) => seq![
            (0i64, -1i64, 2u32, 1u32),
            (1i64, -3i64, 1u32, 2u32),
        ],
        (Shape::J, Rotation::Degrees180) => seq![
            (0i64, -2i64, 1u32, 2u32),
            (1i64, -1i64, 2u32, 1u32),
        ],
        (Shape::J, Rotation::Degrees270) => seq![
            (0i64, -3i64, 1u32, 3u32),
            (1i64, -3i64, 1u32, 1u32),
        ],
        (Shape::O, _) => seq![(0i64, -2i64, 2u32, 2u32)],
        (Shape::T, Rotation::NoRotation) => seq![
            (-1i64, -2i64, 3u32, 1u32),
            (0i64, -1i64, 1u32, 1u32),
        ],
        (Shape::T, Rotation::Degrees90) => seq![
            (0i64, -3i64, 1u32, 3u32),
            (-1i64, -2i64, 1u32, 1u32),
        ],
        (Shape::T, Rotation::Degrees180) => seq![
            (0i64, -1i64, 3u32, 1u32),
            (1i64, -2i64, 1u32, 1u32),
        ],
        (Shape::T, Rotation::Degrees270) => seq![
            (0i64, -3i64, 1u32, 3u32),
            (1i64, -2i64, 1u32, 1u32),
        ],
        (Shape::I, Rotation::NoRotation) | (Shape::I, Rotation::Degrees180) => seq![
            (0i64, -1i64, 4u32, 1u32),
        ],
        (Shape::I, Rotation::Degrees90) | (Shape::I, Rotation::Degrees270) => seq![
            (0i64, -4i64, 1u32, 4u32),
        ],
        (Shape::S, Rotation::NoRotation) | (Shape::S, Rotation::Degrees180) => seq![
            (0i64, -1i64, 2u32, 1u32),
            (1i64, -2i64, 2u32, 1u32),
        ],
        (Shape::S, Rotation::Degrees90) | (Shape::S, Rotation::Degrees270) => seq![
            (0i64, -2i64, 1u32, 2u32),
            (-1i64, -3i64, 1u32, 2u32),
        ],
        (Shape::Z, Rotation::NoRotation) | (Shape::Z, Rotation::Degrees180) => seq![
            (0i64, -1i64, 2u32, 1u32),
            (-1i64, -2i64, 2u32, 1u32),
        ],
        (Shape::Z, Rotation::Degrees90) | (Shape::Z, Rotation::Degrees270) => seq![
            (0i64, -2i64, 1u32, 2u32),
            (1i64, -3i64, 1u32, 2u32),
        ],
    }
}

/// How far a footprint may reach from the anchor, on either axis. Every probe
/// offset and every render rectangle (its corner as well as its extent) stays
/// within this many cells of the anchor.
pub open spec fn footprint_reach() -> int {
    4
}

/// Totality of the geometry catalog: every (shape, rotation) pair resolves to
/// a non-empty collision footprint and a non-empty render footprint, and both
/// stay within `footprint_reach` of the anchor.
pub proof fn lemma_catalog_total(shape: Shape, rotation: Rotation)
    ensures
        probe_cells(shape, rotation).len() >= 1,
        render_rects(shape, rotation).len() >= 1,
        forall|k: int|
            0 <= k < probe_cells(shape, rotation).len() ==> {
                let (dx, dy) = #[trigger] probe_cells(shape, rotation)[k];
                -footprint_reach() <= dx <= footprint_reach() && -footprint_reach() <= dy <= 0
            },
        forall|k: int|
            0 <= k < render_rects(shape, rotation).len() ==> {
                let (dx, dy, w, h) = #[trigger] render_rects(shape, rotation)[k];
                &&& -footprint_reach() <= dx <= footprint_reach()
                &&& -footprint_reach() <= dy <= 0
                &&& 1 <= w <= footprint_reach()
                &&& 1 <= h <= footprint_reach()
            },
{
}

/// Whether the rectangle `(dx, dy, w, h)` covers the cell `(cx, cy)`.
pub open spec fn rect_covers(r: (i64, i64, u32, u32), cx: int, cy: int) -> bool {
    r.0 <= cx < r.0 + r.2 && r.1 <= cy < r.1 + r.3
}

/// Whether the render footprint of (shape, rotation) fills the cell
/// `(cx, cy)`, relative to the anchor.
pub open spec fn renders_cell(shape: Shape, rotation: Rotation, cx: int, cy: int) -> bool {
    exists|k: int|
        0 <= k < render_rects(shape, rotation).len() && rect_covers(
            #[trigger] render_rects(shape, rotation)[k],
            cx,
            cy,
        )
}

/// Coherence of the two footprints: every collision probe sits exactly one
/// row below a filled cell of the render footprint, and never on a filled
/// cell — the probes test precisely where the shape's bottom profile would
/// move next.
pub proof fn lemma_probes_sit_below_the_footprint(shape: Shape, rotation: Rotation)
    ensures
        forall|k: int|
            0 <= k < probe_cells(shape, rotation).len() ==> {
                let (dx, dy) = #[trigger] probe_cells(shape, rotation)[k];
                renders_cell(shape, rotation, dx as int, dy - 1) && !renders_cell(
                    shape,
                    rotation,
                    dx as int,
                    dy as int,
                )
            },
{
    match (shape, rotation) {
        (Shape::L, Rotation::NoRotation) => {
            assert(rect_covers(render_rects(shape, rotation)[0], 0, -1));
            assert(rect_covers(render_rects(shape, rotation)[1], 1, -2));
            assert(rect_covers(render_rects(shape, rotation)[1], 2, -2));
        }
        (Shape::L, Rotation::Degrees90) => {
            assert(rect_covers(render_rects(shape, rotation)[0], 0, -1));
            assert(rect_covers(render_rects(shape, rotation)[1], -1, -3));
        }
        (Shape::L, Rotation::Degrees180) => {
            assert(rect_covers(render_rects(shape, rotation)[0], 0, -1));
            assert(rect_covers(render_rects(shape, rotation)[0], 1, -1));
            assert(rect_covers(render_rects(shape, rotation)[0], 2, -1));
        }
        (Shape::L, Rotation::Degrees270) => {
            assert(rect_covers(render_rects(shape, rotation)[0], 0, -1));
            assert(rect_covers(render_rects(shape, rotation)[1], 1, -1));
        }
        (Shape::J, Rotation::NoRotation) => {
            assert(rect_covers(render_rects(shape, rotation)[1], 0, -1));
            assert(rect_covers(render_rects(shape, rotation)[0], -1, -2));
            assert(rect_covers(render_rects(shape, rotation)[0], -2, -2));
        }
        (Shape::J, Rotation::Degrees90) => {
            assert(rect_covers(render_rects(shape, rotation)[0], 0, -1));
            assert(rect_covers(render_rects(shape, rotation)[0], 1, -1));
        }
        (Shape::J, Rotation::Degrees180) => {
            assert(rect_covers(render_rects(shape, rotation)[0], 0, -1));
            assert(rect_covers(render_rects(shape, rotation)[1], 1, -1));
            assert(rect_covers(render_rects(shape, rotation)[1], 2, -1));
        }
        (Shape::J, Rotation::Degrees270) => {
            assert(rect_covers(render_rects(shape, rotation)[0], 0, -1));
            assert(rect_covers(render_rects(shape, rotation)[1], 1, -3));
        }
        (Shape::O, _) => {
            assert(rect_covers(render_rects(shape, rotation)[0], 0, -1));
            assert(rect_covers(render_rects(shape, rotation)[0], 1, -1));
        }
        (Shape::T, Rotation::NoRotation) => {
            assert(rect_covers(render_rects(shape, rotation)[1], 0, -1));
            assert(rect_covers(render_rects(shape, rotation)[0], 1, -2));
            assert(rect_covers(render_rects(shape, rotation)[0], -1, -2));
        }
        (Shape::T, Rotation::Degrees90) => {
            assert(rect_covers(render_rects(shape, rotation)[0], 0, -1));
            assert(rect_covers(render_rects(shape, rotation)[1], -1, -2));
        }
        (Shape::T, Rotation::Degrees180) => {
            assert(rect_covers(render_rects(shape, rotation)[0], 0, -1));
            assert(rect_covers(render_rects(shape, rotation)[0], 1, -1));
            assert(rect_covers(render_rects(shape, rotation)[0], 2, -1));
        }
        (Shape::T, Rotation::Degrees270) => {
            assert(rect_covers(render_rects(shape, rotation)[0], 0, -1));
            assert(rect_covers(render_rects(shape, rotation)[1], 1, -2));
        }
        (Shape::I, Rotation::NoRotation) | (Shape::I, Rotation::Degrees180) => {
            assert(rect_covers(render_rects(shape, rotation)[0], 0, -1));
            assert(rect_covers(render_rects(shape, rotation)[0], 1, -1));
            assert(rect_covers(render_rects(shape, rotation)[0], 2, -1));
            assert(rect_covers(render_rects(shape, rotation)[0], 3, -1));
        }
        (Shape::I, Rotation::Degrees90) | (Shape::I, Rotation::Degrees270) => {
            assert(rect_covers(render_rects(shape, rotation)[0], 0, -1));
        }
        (Shape::S, Rotation::NoRotation) | (Shape::S, Rotation::Degrees180) => {
            assert(rect_covers(render_rects(shape, rotation)[0], 0, -1));
            assert(rect_covers(render_rects(shape, rotation)[0], 1, -1));
            assert(rect_covers(render_rects(shape, rotation)[1], 2, -2));
        }
        (Shape::S, Rotation::Degrees90) | (Shape::S, Rotation::Degrees270) => {
            assert(rect_covers(render_rects(shape, rotation)[0], 0, -1));
            assert(rect_covers(render_rects(shape, rotation)[1], -1, -2));
        }
        (Shape::Z, Rotation::NoRotation) | (Shape::Z, Rotation::Degrees180) => {
            assert(rect_covers(render_rects(shape, rotation)[0], 0, -1));
            assert(rect_covers(render_rects(shape, rotation)[0], 1, -1));
            assert(rect_covers(render_rects(shape, rotation)[1], -1, -2));
        }
        (Shape::Z, Rotation::Degrees90) | (Shape::Z, Rotation::Degrees270) => {
            assert(rect_covers(render_rects(shape, rotation)[0], 0, -1));
            assert(rect_covers(render_rects(shape, rotation)[1], 1, -2));
        }
    }
}

/// The collision footprint as a vector, equal to the catalog entry.
pub fn probe_cells_exec(shape: Shape, rotation: Rotation) -> (cells: Vec<(i64, i64)>)
    ensures
        cells@ == probe_cells(shape, rotation),
{
    let cells: Vec<(i64, i64)> = match (shape, rotation) {
        (Shape::L, Rotation::NoRotation) => vec![(0, 0), (1, -1), (2, -1)],
        (Shape::L, Rotation::Degrees90) => vec![(0, 0), (-1, -2)],
        (Shape::L, Rotation::Degrees180) => vec![(0, 0), (1, 0), (2, 0)],
        (Shape::L, Rotation::Degrees270) => vec![(0, 0), (1, 0)],
        (Shape::J, Rotation::NoRotation) => vec![(0, 0), (-1, -1), (-2, -1)],
        (Shape::J, Rotation::Degrees90) => vec![(0, 0), (1, 0)],
        (Shape::J, Rotation::Degrees180) => vec![(0, 0), (1, 0), (2, 0)],
        (Shape::J, Rotation::Degrees270) => vec![(0, 0), (1, -2)],
        (Shape::O, _) => vec![(0, 0), (1, 0)],
        (Shape::T, Rotation::NoRotation) => vec![(0, 0), (1, -1), (-1, -1)],
        (Shape::T, Rotation::Degrees90) => vec![(0, 0), (-1, -1)],
        (Shape::T, Rotation::Degrees180) => vec![(0, 0), (1, 0), (2, 0)],
        (Shape::T, Rotation::Degrees270) => vec![(0, 0), (1, -1)],
        (Shape::I, Rotation::NoRotation) | (Shape::I, Rotation::Degrees180) => vec![
            (0, 0),
            (1, 0),
            (2, 0),
            (3, 0),
        ],
        (Shape::I, Rotation::Degrees90) | (Shape::I, Rotation::Degrees270) => vec![(0, 0)],
        (Shape::S, Rotation::NoRotation) | (Shape::S, Rotation::Degrees180) => vec![
            (0, 0),
            (1, 0),
            (2, -1),
        ],
        (Shape::S, Rotation::Degrees90) | (Shape::S, Rotation::Degrees270) => vec![
            (0, 0),
            (-1, -1),
        ],
        (Shape::Z, Rotation::NoRotation) | (Shape::Z, Rotation::Degrees180) => vec![
            (0, 0),
            (1, 0),
            (-1, -1),
        ],
        (Shape::Z, Rotation::Degrees90) | (Shape::Z, Rotation::Degrees270) => vec![
            (0, 0),
            (1, -1),
        ],
    };
    proof {
        assert(cells@ =~= probe_cells(shape, rotation));
    }
    cells
}

/// The render footprint as a vector, equal to the catalog entry.
pub fn render_rects_exec(shape: Shape, rotation: Rotation) -> (rects: Vec<(i64, i64, u32, u32)>)
    ensures
        rects@ == render_rects(shape, rotation),
{
    let rects: Vec<(i64, i64, u32, u32)> = match (shape, rotation) {
        (Shape::L, Rotation::NoRotation) => vec![(0, -2, 1, 2), (1, -2, 2, 1)],
        (Shape::L, Rotation::Degrees90) => vec![(0, -3, 1, 3), (-1, -3, 1, 1)],
        (Shape::L, Rotation::Degrees180) => vec![(0, -1, 3, 1), (2, -2, 1, 1)],
        (Shape::L, Rotation::Degrees270) => vec![(0, -3, 1, 3), (1, -1, 1, 1)],
        (Shape::J, Rotation::NoRotation) => vec![(-2, -2, 2, 1), (0, -2, 1, 2)],
        (Shape::J, Rotation::Degrees90) => vec![(0, -1, 2, 1), (1, -3, 1, 2)],
        (Shape::J, Rotation::Degrees180) => vec![(0, -2, 1, 2), (1, -1, 2, 1)],
        (Shape::J, Rotation::Degrees270) => vec![(0, -3, 1, 3), (1, -3, 1, 1)],
        (Shape::O, _) => vec![(0, -2, 2, 2)],
        (Shape::T, Rotation::NoRotation) => vec![(-1, -2, 3, 1), (0, -1, 1, 1)],
        (Shape::T, Rotation::Degrees90) => vec![(0, -3, 1, 3), (-1, -2, 1, 1)],
        (Shape::T, Rotation::Degrees180) => vec![(0, -1, 3, 1), (1, -2, 1, 1)],
        (Shape::T, Rotation::Degrees270) => vec![(0, -3, 1, 3), (1, -2, 1, 1)],
        (Shape::I, Rotation::NoRotation) | (Shape::I, Rotation::Degrees180) => vec![
            (0, -1, 4, 1),
        ],
        (Shape::I, Rotation::Degrees90) | (Shape::I, Rotation::Degrees270) => vec![
            (0, -4, 1, 4),
        ],
        (Shape::S, Rotation::NoRotation) | (Shape::S, Rotation::Degrees180) => vec![
            (0, -1, 2, 1),
            (1, -2, 2, 1),
        ],
        (Shape::S, Rotation::Degrees90) | (Shape::S, Rotation::Degrees270) => vec![
            (0, -2, 1, 2),
            (-1, -3, 1, 2),
        ],
        (Shape::Z, Rotation::NoRotation) | (Shape::Z, Rotation::Degrees180) => vec![
            (0, -1, 2, 1),
            (-1, -2, 2, 1),
        ],
        (Shape::Z, Rotation::Degrees90) | (Shape::Z, Rotation::Degrees270) => vec![
            (0, -2, 1, 2),
            (1, -3, 1, 2),
        ],
    };
    proof {
        assert(rects@ =~= render_rects(shape, rotation));
    }
    rects
}

} // verus!
