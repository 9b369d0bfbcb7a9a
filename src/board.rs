use vstd::prelude::*;

verus! {

/// The side a piece belongs to, or the side to move.
#[derive(Clone, Copy, Debug, PartialEq, Eq, Hash, Structural)]
pub enum Color {
    White,
    Black,
}

/// The kind of a chess piece.
#[derive(Clone, Copy, Debug, PartialEq, Eq, Hash, Structural)]
pub enum Piece {
    Pawn,
    Knight,
    Bishop,
    Rook,
    Queen,
    King,
}

/// A square of the board, 0 (a1) to 63 (h8).
pub type Square = u8;

/// A file of the board, 0 (the a-file) to 7 (the h-file).
pub type File = u8;

/// Number of colors.
pub const COLOR_COUNT: usize = 2;

/// Number of piece kinds.
pub const PIECE_COUNT: usize = 6;

/// Number of squares on the board.
pub const SQUARE_COUNT: usize = 64;

/// Number of files on the board.
pub const FILE_COUNT: usize = 8;

/// Position of a color in table order: White first.
pub open spec fn color_index(c: Color) -> nat {
    match c {
        Color::White => 0,
        Color::Black => 1,
    }
}

/// Position of a piece kind in table order, from pawn to king.
pub open spec fn piece_index(p: Piece) -> nat {
    match p {
        Piece::Pawn => 0,
        Piece::Knight => 1,
        Piece::Bishop => 2,
        Piece::Rook => 3,
        Piece::Queen => 4,
        Piece::King => 5,
    }
}

impl Color {
    /// The index of this color in table order.
    pub fn index(self) -> (r: usize)
        ensures
            r as nat == color_index(self),
            r < COLOR_COUNT,
    {
        match self {
            Color::White => 0,
            Color::Black => 1,
        }
    }
}

impl Piece {
    /// The index of this piece kind in table order.
    pub fn index(self) -> (r: usize)
        ensures
            r as nat == piece_index(self),
            r < PIECE_COUNT,
    {
        match self {
            Piece::Pawn => 0,
            Piece::Knight => 1,
            Piece::Bishop => 2,
            Piece::Rook => 3,
            Piece::Queen => 4,
            Piece::King => 5,
        }
    }
}

} // verus!
