//! Where the clock's digit boards and separators stand on the display.
//!
//! The display shows six digits, each glyph six cells wide and ten tall,
//! grouped in pairs (hours, minutes, seconds) with a two-cell gap inside a
//! pair, a separator column between pairs, and the whole block centered
//! horizontally. Pieces rest so that the glyph block sits vertically
//! centered too.

use vstd::prelude::*;

verus! {

/// Division that rounds toward zero, as the machine's signed division does.
pub open spec fn div_toward_zero(n: int, d: int) -> int
    recommends
        d > 0,
{
    if n >= 0 {
        n / d
    } else {
        -((-n) / d)
    }
}

/// The leftmost column of the six-digit block on a display of the given
/// width: the block is six glyphs of six cells with five two-cell gaps,
/// centered.
pub open spec fn x_start_spec(width: int) -> int {
    div_toward_zero(width - 6 * 6 - 5 * 2, 2)
}

/// The offsets of the six digit glyphs from the block's leftmost column.
pub open spec fn digit_offsets() -> Seq<int> {
    seq![0, 8, 20, 28, 40, 48]
}

/// The columns of the six digit boards on a display of the given width.
pub fn digit_x_positions(width: u32) -> (xs: Vec<i64>)
    ensures
        xs@.len() == 6,
        forall|i: int|
            0 <= i < 6 ==> #[trigger] xs@[i] == x_start_spec(width as int) + digit_offsets()[i],
{
    let x_start = x_start_exec(width);
    let xs: Vec<i64> = vec![
        x_start,
        x_start + 8,
        x_start + 20,
        x_start + 28,
        x_start + 40,
        x_start + 48,
    ];
    proof {
        assert forall|i: int| 0 <= i < 6 implies #[trigger] xs@[i] == x_start_spec(width as int)
            + digit_offsets()[i] by {
            assert(digit_offsets()[i] == seq![0int, 8, 20, 28, 40, 48][i]);
        }
    }
    xs
}

/// The columns of the two separator boards, between the digit pairs.
pub fn separator_x_positions(width: u32) -> (xs: Vec<i64>)
    ensures
        xs@.len() == 2,
        xs@[0] == x_start_spec(width as int) + 16,
        xs@[1] == x_start_spec(width as int) + 36,
{
    let x_start = x_start_exec(width);
    vec![x_start + 16, x_start + 36]
}

/// The target resting row for a display of the given height: the row at
/// which the bottom of a centered ten-cell glyph block comes to rest.
pub fn virtual_stop_row(height: u32) -> (y: i64)
    ensures
        y as int == (height + 10) / 2,
{
    (height as i64 + 10) / 2
}

/// The leftmost column of the six-digit block.
fn x_start_exec(width: u32) -> (x: i64)
    ensures
        x as int == x_start_spec(width as int),
{
    let d: i64 = width as i64 - 46;
    if d >= 0 {
        d / 2
    } else {
        -((-d) / 2)
    }
}

} // verus!
