use crate::board::Color;
use vstd::prelude::*;

verus! {

/// Which castling moves are still available to each side.
///
/// As a number (see `bits`) white kingside is worth 1, white queenside 2,
/// black kingside 4 and black queenside 8, so the sixteen sets of rights are
/// the numbers 0 to 15.
#[derive(Clone, Copy, Debug, PartialEq, Eq, Hash, Structural)]
pub struct CastlingRights {
    pub white_king: bool,
    pub white_queen: bool,
    pub black_king: bool,
    pub black_queen: bool,
}

/// Numeric value of one flag.
pub open spec fn flag_value(b: bool, weight: nat) -> nat {
    if b {
        weight
    } else {
        0
    }
}

impl CastlingRights {
    /// The rights as a number in 0..16.
    pub open spec fn spec_bits(self) -> nat {
        flag_value(self.white_king, 1) + flag_value(self.white_queen, 2) + flag_value(
            self.black_king,
            4,
        ) + flag_value(self.black_queen, 8)
    }

    /// The rights that `bits` numbers as `n`.
    pub open spec fn spec_from_bits(n: nat) -> CastlingRights {
        CastlingRights {
            white_king: n % 2 == 1,
            white_queen: (n / 2) % 2 == 1,
            black_king: (n / 4) % 2 == 1,
            black_queen: (n / 8) % 2 == 1,
        }
    }

    /// No rights at all.
    pub fn empty() -> (r: CastlingRights)
        ensures
            r.spec_bits() == 0,
            !r.white_king && !r.white_queen && !r.black_king && !r.black_queen,
    {
        CastlingRights { white_king: false, white_queen: false, black_king: false, black_queen: false }
    }

    /// All four rights.
    pub fn all() -> (r: CastlingRights)
        ensures
            r.spec_bits() == 15,
            r.white_king && r.white_queen && r.black_king && r.black_queen,
    {
        CastlingRights { white_king: true, white_queen: true, black_king: true, black_queen: true }
    }

    /// The kingside right of `color` alone.
    pub fn kingside(color: Color) -> (r: CastlingRights)
        ensures
            r.white_king == (color == Color::White),
            r.black_king == (color == Color::Black),
            !r.white_queen && !r.black_queen,
    {
        if color == Color::White {
            CastlingRights { white_king: true, white_queen: false, black_king: false, black_queen: false }
        } else {
            CastlingRights { white_king: false, white_queen: false, black_king: true, black_queen: false }
        }
    }

    /// The queenside right of `color` alone.
    pub fn queenside(color: Color) -> (r: CastlingRights)
        ensures
            r.white_queen == (color == Color::White),
            r.black_queen == (color == Color::Black),
            !r.white_king && !r.black_king,
    {
        if color == Color::White {
            CastlingRights { white_king: false, white_queen: true, black_king: false, black_queen: false }
        } else {
            CastlingRights { white_king: false, white_queen: false, black_king: false, black_queen: true }
        }
    }

    /// Both rights of `color`, and none of the other side.
    pub fn both_sides(color: Color) -> (r: CastlingRights)
        ensures
            r.white_king == (color == Color::White),
            r.white_queen == (color == Color::White),
            r.black_king == (color == Color::Black),
            r.black_queen == (color == Color::Black),
    {
        if color == Color::White {
            CastlingRights { white_king: true, white_queen: true, black_king: false, black_queen: false }
        } else {
            CastlingRights { white_king: false, white_queen: false, black_king: true, black_queen: true }
        }
    }

    /// The rights as a number in 0..16 (white kingside 1, white queenside 2,
    /// black kingside 4, black queenside 8).
    pub fn bits(self) -> (r: u8)
        ensures
            r as nat == self.spec_bits(),
            r < 16,
    {
        let mut r: u8 = 0;
        if self.white_king {
            r = r + 1;
        }
        if self.white_queen {
            r = r + 2;
        }
        if self.black_king {
            r = r + 4;
        }
        if self.black_queen {
            r = r + 8;
        }
        r
    }

    /// The rights numbered `n`, or `None` when `n` is 16 or more.
    pub fn from_bits(n: u8) -> (r: Option<CastlingRights>)
        ensures
            r is Some <==> n < 16,
            r is Some ==> r->0 == Self::spec_from_bits(n as nat) && r->0.spec_bits() == n as nat,
    {
        if n < 16 {
            let r = CastlingRights {
                white_king: n % 2 == 1,
                white_queen: (n / 2) % 2 == 1,
                black_king: (n / 4) % 2 == 1,
                black_queen: (n / 8) % 2 == 1,
            };
            Some(r)
        } else {
            None
        }
    }

    /// Whether every right in `other` is also in `self`.
    pub fn contains(self, other: CastlingRights) -> (r: bool)
        ensures
            r == ((other.white_king ==> self.white_king) && (other.white_queen ==> self.white_queen)
                && (other.black_king ==> self.black_king) && (other.black_queen
                ==> self.black_queen)),
    {
        (!other.white_king || self.white_king) && (!other.white_queen || self.white_queen) && (
        !other.black_king || self.black_king) && (!other.black_queen || self.black_queen)
    }

    /// The rights in `self`, in `other`, or in both.
    pub fn union(self, other: CastlingRights) -> (r: CastlingRights)
        ensures
            r.white_king == (self.white_king || other.white_king),
            r.white_queen == (self.white_queen || other.white_queen),
            r.black_king == (self.black_king || other.black_king),
            r.black_queen == (self.black_queen || other.black_queen),
    {
        CastlingRights {
            white_king: self.white_king || other.white_king,
            white_queen: self.white_queen || other.white_queen,
            black_king: self.black_king || other.black_king,
            black_queen: self.black_queen || other.black_queen,
        }
    }

    /// The rights in both `self` and `other`.
    pub fn intersection(self, other: CastlingRights) -> (r: CastlingRights)
        ensures
            r.white_king == (self.white_king && other.white_king),
            r.white_queen == (self.white_queen && other.white_queen),
            r.black_king == (self.black_king && other.black_king),
            r.black_queen == (self.black_queen && other.black_queen),
    {
        CastlingRights {
            white_king: self.white_king && other.white_king,
            white_queen: self.white_queen && other.white_queen,
            black_king: self.black_king && other.black_king,
            black_queen: self.black_queen && other.black_queen,
        }
    }

    /// The rights in `self` that are not in `other`.
    pub fn difference(self, other: CastlingRights) -> (r: CastlingRights)
        ensures
            r.white_king == (self.white_king && !other.white_king),
            r.white_queen == (self.white_queen && !other.white_queen),
            r.black_king == (self.black_king && !other.black_king),
            r.black_queen == (self.black_queen && !other.black_queen),
    {
        CastlingRights {
            white_king: self.white_king && !other.white_king,
            white_queen: self.white_queen && !other.white_queen,
            black_king: self.black_king && !other.black_king,
            black_queen: self.black_queen && !other.black_queen,
        }
    }
}

/// Two sets of rights with the same number are the same set: numbering by
/// `bits` is one to one.
pub proof fn lemma_bits_injective(a: CastlingRights, b: CastlingRights)
    ensures
        a.spec_bits() == b.spec_bits() ==> a == b,
        a.spec_bits() < 16,
{
}

} // verus!
