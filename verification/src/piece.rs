//! Pieces, pixels and the glyph table.

use vstd::prelude::*;

verus! {

/// One pixel of the frame buffer, as `0x00RRGGBB`.
pub type Px = u32;

/// Side of one board square, in pixels. A glyph fills a square exactly.
pub const SQUARE_SIZE: usize = 8;

/// Width of the frame buffer, in pixels: three squares.
pub const WINDOW_WIDTH: usize = 24;

/// Height of the frame buffer, in pixels: three squares.
pub const WINDOW_HEIGHT: usize = 24;

pub const PIXEL_BLACK: Px = 0x0000_0000;

pub const PIXEL_WHITE: Px = 0x00FF_FFFF;

pub const PIXEL_RED: Px = 0x00FF_0000;

/// An 8x8 bitmap, outer index the pixel row, inner index the pixel column.
pub type Shape = [[Px; SQUARE_SIZE]; SQUARE_SIZE];

/// A player's mark.
#[derive(Clone, Copy, Debug, Eq)]
pub enum Piece {
    X,
    O,
}

impl PartialEq for Piece {
    fn eq(&self, other: &Piece) -> (r: bool) {
        match (self, other) {
            (Piece::X, Piece::X) => true,
            (Piece::O, Piece::O) => true,
            _ => false,
        }
    }
}

/// Two pieces are `==` exactly when they are the same piece.
impl vstd::std_specs::cmp::PartialEqSpecImpl for Piece {
    open spec fn obeys_eq_spec() -> bool {
        true
    }

    open spec fn eq_spec(&self, other: &Piece) -> bool {
        *self == *other
    }
}

/// The rows of a bitmap as sequences of pixels.
pub open spec fn shape_rows(shape: Shape) -> Seq<Seq<Px>> {
    Seq::new(8, |r: int| shape@[r]@)
}

/// The colour in which a piece's glyph is drawn on the black background.
pub open spec fn ink(piece: Piece) -> Px {
    match piece {
        Piece::X => PIXEL_RED,
        Piece::O => PIXEL_WHITE,
    }
}

/// The glyph table as a mask: row by row, whether the pixel carries ink.
pub open spec fn glyph_mask(piece: Piece) -> Seq<Seq<bool>> {
    match piece {
        Piece::X => seq![
            seq![true, true, false, false, false, false, true, true],
            seq![true, true, true, false, false, true, true, true],
            seq![false, true, true, false, false, true, true, false],
            seq![false, false, true, true, true, true, false, false],
            seq![false, false, true, true, true, true, false, false],
            seq![false, true, true, false, false, true, true, false],
            seq![true, true, true, false, false, true, true, true],
            seq![true, true, false, false, false, false, true, true],
        ],
        Piece::O => seq![
            seq![false, false, false, true, true, false, false, false],
            seq![false, true, true, false, false, true, true, false],
            seq![false, true, false, false, false, false, true, false],
            seq![true, false, false, false, false, false, false, true],
            seq![true, false, false, false, false, false, false, true],
            seq![false, true, false, false, false, false, true, false],
            seq![false, true, true, false, false, true, true, false],
            seq![false, false, false, true, true, false, false, false],
        ],
    }
}

/// The glyph of a piece: `ink` where the mask is set, black elsewhere.
pub open spec fn glyph(piece: Piece) -> Seq<Seq<Px>> {
    Seq::new(8, |r: int| Seq::new(8, |c: int| if glyph_mask(piece)[r][c] {
        ink(piece)
    } else {
        PIXEL_BLACK
    }))
}

impl Piece {
    /// The piece's bitmap from the glyph table.
    pub fn get_shape(&self) -> (shape: Shape)
        ensures
            shape_rows(shape) == glyph(*self),
    {
        let b: Px = PIXEL_BLACK;
        let shape: Shape = match self {
            Piece::X => {
                let w: Px = PIXEL_RED;
                [
                    [w, w, b, b, b, b, w, w],
                    [w, w, w, b, b, w, w, w],
                    [b, w, w, b, b, w, w, b],
                    [b, b, w, w, w, w, b, b],
                    [b, b, w, w, w, w, b, b],
                    [b, w, w, b, b, w, w, b],
                    [w, w, w, b, b, w, w, w],
                    [w, w, b, b, b, b, w, w],
                ]
            },
            Piece::O => {
                let w: Px = PIXEL_WHITE;
                [
                    [b, b, b, w, w, b, b, b],
                    [b, w, w, b, b, w, w, b],
                    [b, w, b, b, b, b, w, b],
                    [w, b, b, b, b, b, b, w],
                    [w, b, b, b, b, b, b, w],
                    [b, w, b, b, b, b, w, b],
                    [b, w, w, b, b, w, w, b],
                    [b, b, b, w, w, b, b, b],
                ]
            },
        };
        proof {
            assert forall|r: int| 0 <= r < 8 implies #[trigger] shape_rows(shape)[r] =~= glyph(
                *self,
            )[r] by {}
            assert(shape_rows(shape) =~= glyph(*self));
        }
        shape
    }

    /// The piece's display label: `"X"` or `"O"`.
    pub fn label(&self) -> (s: &'static str)
        ensures
            s@ == match *self {
                Piece::X => seq!['X'],
                Piece::O => seq!['O'],
            },
    {
        proof {
            reveal_strlit("X");
            reveal_strlit("O");
        }
        match self {
            Piece::X => "X",
            Piece::O => "O",
        }
    }
}

} // verus!
