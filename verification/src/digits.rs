//! The per-digit animation catalog.
//!
//! For every digit 0–9 the catalog holds an ordered list of animation
//! descriptors. Each descriptor names a shape, a rotation and a horizontal
//! offset from the digit's local origin; spawned in order at the top of the
//! display, the pieces descend and come to rest so that together they form
//! the digit's glyph. The catalog is fixed content: the physics engine only
//! requires it to be total over the ten digits and to keep its offsets
//! within the six-cell width of a glyph.

use vstd::prelude::*;
use crate::geometry::Shape;
use crate::geometry::Rotation;

verus! {

/// A digit value 0–9, the unit the clock display works in.
#[derive(Debug, Clone, Copy, PartialEq, Eq, Structural)]
pub enum Digit {
    Zero,
    One,
    Two,
    Three,
    Four,
    Five,
    Six,
    Seven,
    Eight,
    Nine,
}

impl Digit {
    /// The numeric value of the digit.
    pub open spec fn value_spec(self) -> int {
        match self {
            Digit::Zero => 0,
            Digit::One => 1,
            Digit::Two => 2,
            Digit::Three => 3,
            Digit::Four => 4,
            Digit::Five => 5,
            Digit::Six => 6,
            Digit::Seven => 7,
            Digit::Eight => 8,
            Digit::Nine => 9,
        }
    }

    /// The numeric value of the digit.
    pub fn value(self) -> (v: u8)
        ensures
            v as int == self.value_spec(),
    {
        match self {
            Digit::Zero => 0,
            Digit::One => 1,
            Digit::Two => 2,
            Digit::Three => 3,
            Digit::Four => 4,
            Digit::Five => 5,
            Digit::Six => 6,
            Digit::Seven => 7,
            Digit::Eight => 8,
            Digit::Nine => 9,
        }
    }

    /// The digit with the given numeric value.
    pub fn from_value(v: u8) -> (d: Digit)
        requires
            v <= 9,
        ensures
            d.value_spec() == v as int,
    {
        match v {
            0 => Digit::Zero,
            1 => Digit::One,
            2 => Digit::Two,
            3 => Digit::Three,
            4 => Digit::Four,
            5 => Digit::Five,
            6 => Digit::Six,
            7 => Digit::Seven,
            8 => Digit::Eight,
            _ => Digit::Nine,
        }
    }
}

/// An animation descriptor: which shape to drop next, at which rotation,
/// and how far right of the digit's local origin.
#[derive(Debug, Clone, Copy, PartialEq, Eq, Structural)]
pub struct FallingTetromino {
    pub shape: Shape,
    pub rotation: Rotation,
    pub dx: i64,
}

/// A descriptor stays within the six-cell width of a digit glyph.
pub open spec fn descriptor_wf(f: FallingTetromino) -> bool {
    0 <= f.dx <= 5
}

/// The animation script that assembles the given digit's glyph, in spawn
/// order: earlier pieces come to rest lower in the glyph.
pub open spec fn digit_animation(d: Digit) -> Seq<FallingTetromino> {
    match d {
        Digit::Zero => seq![
            FallingTetromino { shape: Shape::I, rotation: Rotation::NoRotation, dx: 1i64 },
            FallingTetromino { shape: Shape::O, rotation: Rotation::NoRotation, dx: 0i64 },
            FallingTetromino { shape: Shape::O, rotation: Rotation::NoRotation, dx: 4i64 },
            FallingTetromino { shape: Shape::O, rotation: Rotation::NoRotation, dx: 0i64 },
            FallingTetromino { shape: Shape::O, rotation: Rotation::NoRotation, dx: 4i64 },
            FallingTetromino { shape: Shape::I, rotation: Rotation::NoRotation, dx: 1i64 },
        ],
        Digit::One => seq![
            FallingTetromino { shape: Shape::I, rotation: Rotation::Degrees90, dx: 4i64 },
            FallingTetromino { shape: Shape::I, rotation: Rotation::Degrees90, dx: 4i64 },
            FallingTetromino { shape: Shape::O, rotation: Rotation::NoRotation, dx: 3i64 },
        ],
        Digit::Two => seq![
            FallingTetromino { shape: Shape::I, rotation: Rotation::NoRotation, dx: 1i64 },
            FallingTetromino { shape: Shape::O, rotation: Rotation::NoRotation, dx: 0i64 },
            FallingTetromino { shape: Shape::I, rotation: Rotation::NoRotation, dx: 1i64 },
            FallingTetromino { shape: Shape::O, rotation: Rotation::NoRotation, dx: 4i64 },
            FallingTetromino { shape: Shape::I, rotation: Rotation::NoRotation, dx: 1i64 },
        ],
        Digit::Three => seq![
            FallingTetromino { shape: Shape::I, rotation: Rotation::NoRotation, dx: 1i64 },
            FallingTetromino { shape: Shape::O, rotation: Rotation::NoRotation, dx: 4i64 },
            FallingTetromino { shape: Shape::I, rotation: Rotation::NoRotation, dx: 1i64 },
            FallingTetromino { shape: Shape::O, rotation: Rotation::NoRotation, dx: 4i64 },
            FallingTetromino { shape: Shape::I, rotation: Rotation::NoRotation, dx: 1i64 },
        ],
        Digit::Four => seq![
            FallingTetromino { shape: Shape::I, rotation: Rotation::Degrees90, dx: 4i64 },
            FallingTetromino { shape: Shape::O, rotation: Rotation::NoRotation, dx: 0i64 },
            FallingTetromino { shape: Shape::I, rotation: Rotation::NoRotation, dx: 1i64 },
            FallingTetromino { shape: Shape::O, rotation: Rotation::NoRotation, dx: 4i64 },
            FallingTetromino { shape: Shape::I, rotation: Rotation::Degrees90, dx: 0i64 },
        ],
        Digit::Five => seq![
            FallingTetromino { shape: Shape::I, rotation: Rotation::NoRotation, dx: 1i64 },
            FallingTetromino { shape: Shape::O, rotation: Rotation::NoRotation, dx: 4i64 },
            FallingTetromino { shape: Shape::I, rotation: Rotation::NoRotation, dx: 1i64 },
            FallingTetromino { shape: Shape::O, rotation: Rotation::NoRotation, dx: 0i64 },
            FallingTetromino { shape: Shape::I, rotation: Rotation::NoRotation, dx: 1i64 },
        ],
        Digit::Six => seq![
            FallingTetromino { shape: Shape::I, rotation: Rotation::NoRotation, dx: 1i64 },
            FallingTetromino { shape: Shape::O, rotation: Rotation::NoRotation, dx: 0i64 },
            FallingTetromino { shape: Shape::O, rotation: Rotation::NoRotation, dx: 4i64 },
            FallingTetromino { shape: Shape::I, rotation: Rotation::NoRotation, dx: 1i64 },
            FallingTetromino { shape: Shape::O, rotation: Rotation::NoRotation, dx: 0i64 },
            FallingTetromino { shape: Shape::I, rotation: Rotation::NoRotation, dx: 1i64 },
        ],
        Digit::Seven => seq![
            FallingTetromino { shape: Shape::I, rotation: Rotation::Degrees90, dx: 4i64 },
            FallingTetromino { shape: Shape::I, rotation: Rotation::Degrees90, dx: 4i64 },
            FallingTetromino { shape: Shape::I, rotation: Rotation::NoRotation, dx: 1i64 },
            FallingTetromino { shape: Shape::O, rotation: Rotation::NoRotation, dx: 0i64 },
        ],
        Digit::Eight => seq![
            FallingTetromino { shape: Shape::I, rotation: Rotation::NoRotation, dx: 1i64 },
            FallingTetromino { shape: Shape::O, rotation: Rotation::NoRotation, dx: 0i64 },
            FallingTetromino { shape: Shape::O, rotation: Rotation::NoRotation, dx: 4i64 },
            FallingTetromino { shape: Shape::I, rotation: Rotation::NoRotation, dx: 1i64 },
            FallingTetromino { shape: Shape::O, rotation: Rotation::NoRotation, dx: 0i64 },
            FallingTetromino { shape: Shape::O, rotation: Rotation::NoRotation, dx: 4i64 },
        ],
        Digit::Nine => seq![
            FallingTetromino { shape: Shape::I, rotation: Rotation::NoRotation, dx: 1i64 },
            FallingTetromino { shape: Shape::O, rotation: Rotation::NoRotation, dx: 4i64 },
            FallingTetromino { shape: Shape::I, rotation: Rotation::NoRotation, dx: 1i64 },
            FallingTetromino { shape: Shape::O, rotation: Rotation::NoRotation, dx: 0i64 },
            FallingTetromino { shape: Shape::O, rotation: Rotation::NoRotation, dx: 4i64 },
            FallingTetromino { shape: Shape::I, rotation: Rotation::NoRotation, dx: 1i64 },
        ],
    }
}

/// The catalog is total and in range: every digit has a non-empty script of
/// at most six descriptors, each staying within the glyph width.
pub proof fn lemma_digit_animation_wf(d: Digit)
    ensures
        1 <= digit_animation(d).len() <= 6,
        forall|j: int| 0 <= j < digit_animation(d).len() ==> descriptor_wf(#[trigger] digit_animation(d)[j]),
{
}

/// The animation script of a digit, as a vector equal to the catalog entry.
pub fn digit_animation_exec(d: Digit) -> (script: Vec<FallingTetromino>)
    ensures
        script@ == digit_animation(d),
{
    let script: Vec<FallingTetromino> = match d {
        Digit::Zero => vec![
            FallingTetromino { shape: Shape::I, rotation: Rotation::NoRotation, dx: 1 },
            FallingTetromino { shape: Shape::O, rotation: Rotation::NoRotation, dx: 0 },
            FallingTetromino { shape: Shape::O, rotation: Rotation::NoRotation, dx: 4 },
            FallingTetromino { shape: Shape::O, rotation: Rotation::NoRotation, dx: 0 },
            FallingTetromino { shape: Shape::O, rotation: Rotation::NoRotation, dx: 4 },
            FallingTetromino { shape: Shape::I, rotation: Rotation::NoRotation, dx: 1 },
        ],
        Digit::One => vec![
            FallingTetromino { shape: Shape::I, rotation: Rotation::Degrees90, dx: 4 },
            FallingTetromino { shape: Shape::I, rotation: Rotation::Degrees90, dx: 4 },
            FallingTetromino { shape: Shape::O, rotation: Rotation::NoRotation, dx: 3 },
        ],
        Digit::Two => vec![
            FallingTetromino { shape: Shape::I, rotation: Rotation::NoRotation, dx: 1 },
            FallingTetromino { shape: Shape::O, rotation: Rotation::NoRotation, dx: 0 },
            FallingTetromino { shape: Shape::I, rotation: Rotation::NoRotation, dx: 1 },
            FallingTetromino { shape: Shape::O, rotation: Rotation::NoRotation, dx: 4 },
            FallingTetromino { shape: Shape::I, rotation: Rotation::NoRotation, dx: 1 },
        ],
        Digit::Three => vec![
            FallingTetromino { shape: Shape::I, rotation: Rotation::NoRotation, dx: 1 },
            FallingTetromino { shape: Shape::O, rotation: Rotation::NoRotation, dx: 4 },
            FallingTetromino { shape: Shape::I, rotation: Rotation::NoRotation, dx: 1 },
            FallingTetromino { shape: Shape::O, rotation: Rotation::NoRotation, dx: 4 },
            FallingTetromino { shape: Shape::I, rotation: Rotation::NoRotation, dx: 1 },
        ],
        Digit::Four => vec![
            FallingTetromino { shape: Shape::I, rotation: Rotation::Degrees90, dx: 4 },
            FallingTetromino { shape: Shape::O, rotation: Rotation::NoRotation, dx: 0 },
            FallingTetromino { shape: Shape::I, rotation: Rotation::NoRotation, dx: 1 },
            FallingTetromino { shape: Shape::O, rotation: Rotation::NoRotation, dx: 4 },
            FallingTetromino { shape: Shape::I, rotation: Rotation::Degrees90, dx: 0 },
        ],
        Digit::Five => vec![
            FallingTetromino { shape: Shape::I, rotation: Rotation::NoRotation, dx: 1 },
            FallingTetromino { shape: Shape::O, rotation: Rotation::NoRotation, dx: 4 },
            FallingTetromino { shape: Shape::I, rotation: Rotation::NoRotation, dx: 1 },
            FallingTetromino { shape: Shape::O, rotation: Rotation::NoRotation, dx: 0 },
            FallingTetromino { shape: Shape::I, rotation: Rotation::NoRotation, dx: 1 },
        ],
        Digit::Six => vec![
            FallingTetromino { shape: Shape::I, rotation: Rotation::NoRotation, dx: 1 },
            FallingTetromino { shape: Shape::O, rotation: Rotation::NoRotation, dx: 0 },
            FallingTetromino { shape: Shape::O, rotation: Rotation::NoRotation, dx: 4 },
            FallingTetromino { shape: Shape::I, rotation: Rotation::NoRotation, dx: 1 },
            FallingTetromino { shape: Shape::O, rotation: Rotation::NoRotation, dx: 0 },
            FallingTetromino { shape: Shape::I, rotation: Rotation::NoRotation, dx: 1 },
        ],
        Digit::Seven => vec![
            FallingTetromino { shape: Shape::I, rotation: Rotation::Degrees90, dx: 4 },
            FallingTetromino { shape: Shape::I, rotation: Rotation::Degrees90, dx: 4 },
            FallingTetromino { shape: Shape::I, rotation: Rotation::NoRotation, dx: 1 },
            FallingTetromino { shape: Shape::O, rotation: Rotation::NoRotation, dx: 0 },
        ],
        Digit::Eight => vec![
            FallingTetromino { shape: Shape::I, rotation: Rotation::NoRotation, dx: 1 },
            FallingTetromino { shape: Shape::O, rotation: Rotation::NoRotation, dx: 0 },
            FallingTetromino { shape: Shape::O, rotation: Rotation::NoRotation, dx: 4 },
            FallingTetromino { shape: Shape::I, rotation: Rotation::NoRotation, dx: 1 },
            FallingTetromino { shape: Shape::O, rotation: Rotation::NoRotation, dx: 0 },
            FallingTetromino { shape: Shape::O, rotation: Rotation::NoRotation, dx: 4 },
        ],
        Digit::Nine => vec![
            FallingTetromino { shape: Shape::I, rotation: Rotation::NoRotation, dx: 1 },
            FallingTetromino { shape: Shape::O, rotation: Rotation::NoRotation, dx: 4 },
            FallingTetromino { shape: Shape::I, rotation: Rotation::NoRotation, dx: 1 },
            FallingTetromino { shape: Shape::O, rotation: Rotation::NoRotation, dx: 0 },
            FallingTetromino { shape: Shape::O, rotation: Rotation::NoRotation, dx: 4 },
            FallingTetromino { shape: Shape::I, rotation: Rotation::NoRotation, dx: 1 },
        ],
    };
    proof {
        assert(script@ =~= digit_animation(d));
    }
    script
}

} // verus!
