//! Glyph blitting into the frame buffer.

use vstd::prelude::*;
use crate::piece::{Px, Shape, shape_rows};

verus! {

/// Index in the buffer of the top left pixel of the square at column `x`
/// and row `y`.
pub open spec fn square_start(x: int, y: int) -> int {
    x * 8 + y * 8 * 24
}

/// The buffer after the 8x8 bitmap `rows` has overwritten the square at
/// column `x`, row `y`: the pixel at bitmap row `r` and column `c` lands at
/// `square_start(x, y) + r * 24 + c`, and every other pixel stays.
pub open spec fn drawn(buffer: Seq<Px>, rows: Seq<Seq<Px>>, x: int, y: int) -> Seq<Px> {
    Seq::new(
        buffer.len(),
        |i: int|
            {
                let d = i - square_start(x, y);
                if d >= 0 && d / 24 < 8 && d % 24 < 8 {
                    rows[d / 24][d % 24]
                } else {
                    buffer[i]
                }
            },
    )
}

/// Copies `shape` over the square at column `x`, row `y` of a buffer that is
/// 24 pixels wide, row-major, without blending.
pub fn draw_shape(buffer: &mut Vec<Px>, shape: Shape, x: usize, y: usize)
    requires
        square_start(x as int, y as int) + 7 * 24 + 7 < old(buffer)@.len(),
    ensures
        final(buffer)@ == drawn(old(buffer)@, shape_rows(shape), x as int, y as int),
{
    let ghost before = buffer@;
    let ghost rows = shape_rows(shape);
    let ghost start = square_start(x as int, y as int);
    let len: usize = buffer.len();
    let square_start_idx: usize = x * 8 + y * 192;
    let mut row_num: usize = 0;
    while row_num < 8
        invariant
            0 <= row_num <= 8,
            start == square_start(x as int, y as int),
            square_start_idx == start,
            start + 7 * 24 + 7 < before.len(),
            rows == shape_rows(shape),
            buffer@.len() == before.len(),
            before.len() == len,
            forall|i: int|
                0 <= i < before.len() ==> #[trigger] buffer@[i] == {
                    let d = i - start;
                    if d >= 0 && d / 24 < row_num && d % 24 < 8 {
                        rows[d / 24][d % 24]
                    } else {
                        before[i]
                    }
                },
        decreases 8 - row_num,
    {
        let row_start_idx: usize = square_start_idx + row_num * 24;
        let mut col_num: usize = 0;
        while col_num < 8
            invariant
                0 <= col_num <= 8,
                0 <= row_num < 8,
                start == square_start(x as int, y as int),
                square_start_idx == start,
                row_start_idx == start + row_num * 24,
                start + 7 * 24 + 7 < before.len(),
                rows == shape_rows(shape),
                buffer@.len() == before.len(),
                before.len() == len,
                forall|i: int|
                    0 <= i < before.len() ==> #[trigger] buffer@[i] == {
                        let d = i - start;
                        if d >= 0 && (d / 24 < row_num || (d / 24 == row_num && d % 24 < col_num))
                            && d % 24 < 8 {
                            rows[d / 24][d % 24]
                        } else {
                            before[i]
                        }
                    },
            decreases 8 - col_num,
        {
            let px: Px = shape[row_num][col_num];
            buffer[row_start_idx + col_num] = px;
            col_num += 1;
        }
        row_num += 1;
    }
    assert(buffer@ =~= drawn(before, rows, x as int, y as int));
}

} // verus!
