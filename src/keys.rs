use crate::board::{color_index, piece_index, Color, File, Piece, Square, FILE_COUNT, SQUARE_COUNT};
use crate::castling_rights::CastlingRights;
use vstd::prelude::*;

verus! {

/// Number of piece-on-square keys: one per color, piece kind and square.
pub const SQUARE_KEY_COUNT: usize = 768;

/// Number of en passant keys: one per file.
pub const EN_PASSANT_KEY_COUNT: usize = 8;

/// Number of castling keys: one per set of castling rights.
pub const CASTLING_KEY_COUNT: usize = 16;

/// No entry is zero and no two entries are equal.
pub open spec fn distinct_nonzero(s: Seq<u64>) -> bool {
    &&& forall|i: int| 0 <= i < s.len() ==> s[i] != 0
    &&& forall|i: int, j: int| 0 <= i < s.len() && 0 <= j < s.len() && i != j ==> s[i] != s[j]
}

/// What a usable set of random tables looks like: each table has its size,
/// and no table holds a zero or the same value twice.
pub open spec fn valid_tables(
    square_keys: Seq<u64>,
    turn_key: u64,
    en_passant_keys: Seq<u64>,
    castling_keys: Seq<u64>,
) -> bool {
    &&& square_keys.len() == SQUARE_KEY_COUNT
    &&& en_passant_keys.len() == EN_PASSANT_KEY_COUNT
    &&& castling_keys.len() == CASTLING_KEY_COUNT
    &&& turn_key != 0
    &&& distinct_nonzero(square_keys)
    &&& distinct_nonzero(en_passant_keys)
    &&& distinct_nonzero(castling_keys)
}

/// Where the key of a piece of color `c` and kind `p` on square `s` sits in
/// the piece-on-square table: a different place for every triple.
pub open spec fn square_index(c: Color, p: Piece, s: nat) -> nat {
    color_index(c) * 384 + piece_index(p) * 64 + s
}

/// The random tables that Zobrist keys are read from.
///
/// They are filled once with random values and never change afterwards.
pub struct ZobristTables {
    square_keys: Vec<u64>,
    turn_key: u64,
    en_passant_keys: Vec<u64>,
    castling_keys: Vec<u64>,
}

impl ZobristTables {
    /// The tables are usable: `new` made them from values that it checked.
    pub open spec fn wf(self) -> bool {
        valid_tables(self.square_table(), self.turn_entry(), self.en_passant_table(), self.castling_table())
    }

    /// The piece-on-square table.
    pub closed spec fn square_table(self) -> Seq<u64> {
        self.square_keys@
    }

    /// The value that marks White to move.
    pub closed spec fn turn_entry(self) -> u64 {
        self.turn_key
    }

    /// The en passant table, by file.
    pub closed spec fn en_passant_table(self) -> Seq<u64> {
        self.en_passant_keys@
    }

    /// The castling table, by the number of a set of rights.
    pub closed spec fn castling_table(self) -> Seq<u64> {
        self.castling_keys@
    }

    /// Builds the tables from random values, or returns `None` when the
    /// values are unusable: a table of the wrong size, a zero, or a value
    /// that occurs twice in one table.
    pub fn new(
        square_keys: Vec<u64>,
        turn_key: u64,
        en_passant_keys: Vec<u64>,
        castling_keys: Vec<u64>,
    ) -> (r: Option<ZobristTables>)
        ensures
            r is Some <==> valid_tables(square_keys@, turn_key, en_passant_keys@, castling_keys@),
            r matches Some(t) ==> {
                &&& t.wf()
                &&& t.square_table() == square_keys@
                &&& t.turn_entry() == turn_key
                &&& t.en_passant_table() == en_passant_keys@
                &&& t.castling_table() == castling_keys@
            },
    {
        if square_keys.len() != SQUARE_KEY_COUNT || en_passant_keys.len() != EN_PASSANT_KEY_COUNT
            || castling_keys.len() != CASTLING_KEY_COUNT || turn_key == 0 {
            return None;
        }
        if !all_distinct_nonzero(&square_keys) || !all_distinct_nonzero(&en_passant_keys)
            || !all_distinct_nonzero(&castling_keys) {
            return None;
        }
        Some(ZobristTables { square_keys, turn_key, en_passant_keys, castling_keys })
    }
}

/// Whether no entry of `v` is zero and no two are equal.
pub fn all_distinct_nonzero(v: &Vec<u64>) -> (r: bool)
    ensures
        r == distinct_nonzero(v@),
{
    let n = v.len();
    let mut i: usize = 0;
    while i < n
        invariant
            n == v@.len(),
            i <= n,
            distinct_nonzero(v@.subrange(0, i as int)),
        decreases n - i,
    {
        if v[i] == 0 {
            return false;
        }
        let mut j: usize = 0;
        while j < i
            invariant
                n == v@.len(),
                i < n,
                j <= i,
                forall|k: int| 0 <= k < j ==> v@[k] != v@[i as int],
            decreases i - j,
        {
            if v[j] == v[i] {
                return false;
            }
            j = j + 1;
        }
        assert(distinct_nonzero(v@.subrange(0, i + 1))) by {
            let s = v@.subrange(0, i + 1);
            assert forall|a: int, b: int| 0 <= a < s.len() && 0 <= b < s.len() && a != b implies s[a]
                != s[b] by {
                if a < i && b < i {
                    assert(v@.subrange(0, i as int)[a] == s[a]);
                    assert(v@.subrange(0, i as int)[b] == s[b]);
                }
            }
            assert forall|a: int| 0 <= a < s.len() implies s[a] != 0 by {
                if a < i {
                    assert(v@.subrange(0, i as int)[a] == s[a]);
                }
            }
        }
        i = i + 1;
    }
    assert(v@.subrange(0, n as int) =~= v@);
    true
}

/// The key of a piece of color `c` and kind `p` on square `s`.
pub open spec fn square_key(t: ZobristTables, c: Color, p: Piece, s: Square) -> u64 {
    t.square_table()[square_index(c, p, s as nat) as int]
}

/// The key of the side to move: the table's value for White, zero for Black.
pub open spec fn turn_key(t: ZobristTables, turn: Color) -> u64 {
    if turn == Color::White {
        t.turn_entry()
    } else {
        0
    }
}

/// The key of the en passant file: the table's value for that file, zero
/// when no en passant capture is available.
pub open spec fn en_passant_key(t: ZobristTables, en_passant: Option<File>) -> u64 {
    match en_passant {
        Some(f) => t.en_passant_table()[f as int],
        None => 0,
    }
}

/// The key of a set of castling rights: the table's value at its number.
pub open spec fn castling_key(t: ZobristTables, rights: CastlingRights) -> u64 {
    t.castling_table()[rights.spec_bits() as int]
}

/// The Zobrist key of a piece of color `color` and kind `piece` on square `sq`.
pub fn get_square_zobrist(tables: &ZobristTables, color: Color, piece: Piece, sq: Square) -> (r: u64)
    requires
        tables.wf(),
        sq < SQUARE_COUNT,
    ensures
        r == square_key(*tables, color, piece, sq),
{
    let i = color.index() * 384 + piece.index() * 64 + sq as usize;
    tables.square_keys[i]
}

/// The Zobrist key of the side to move: a fixed non-zero value for White and
/// zero for Black, so that a change of turn is one XOR of that value.
pub fn get_turn_zobrist(tables: &ZobristTables, turn: Color) -> (r: u64)
    ensures
        r == turn_key(*tables, turn),
{
    if turn == Color::White {
        tables.turn_key
    } else {
        0
    }
}

/// The Zobrist key of the en passant state: zero when no en passant capture
/// is available, else the key of its file.
pub fn get_en_passant_zobrist(tables: &ZobristTables, en_passant: Option<File>) -> (r: u64)
    requires
        tables.wf(),
        en_passant matches Some(f) ==> f < FILE_COUNT,
    ensures
        r == en_passant_key(*tables, en_passant),
{
    match en_passant {
        Some(file) => tables.en_passant_keys[file as usize],
        None => 0,
    }
}

/// The Zobrist key of a set of castling rights.
pub fn get_castling_zobrist(tables: &ZobristTables, castling_rights: CastlingRights) -> (r: u64)
    requires
        tables.wf(),
    ensures
        r == castling_key(*tables, castling_rights),
{
    tables.castling_keys[castling_rights.bits() as usize]
}

} // verus!
