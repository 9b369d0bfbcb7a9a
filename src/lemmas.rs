use crate::board::{Color, File, Piece, Square, FILE_COUNT, SQUARE_COUNT};
use crate::castling_rights::{lemma_bits_injective, CastlingRights};
use crate::keys::{castling_key, en_passant_key, square_index, square_key, turn_key, ZobristTables};
use vstd::prelude::*;

verus! {

/// Distinct (color, piece kind, square) triples have distinct keys, and no
/// piece-on-square key is zero.
pub proof fn lemma_square_keys_distinct(
    t: ZobristTables,
    c1: Color,
    p1: Piece,
    s1: Square,
    c2: Color,
    p2: Piece,
    s2: Square,
)
    requires
        t.wf(),
        s1 < SQUARE_COUNT,
        s2 < SQUARE_COUNT,
        c1 != c2 || p1 != p2 || s1 != s2,
    ensures
        square_key(t, c1, p1, s1) != square_key(t, c2, p2, s2),
        square_key(t, c1, p1, s1) != 0,
{
    let i = square_index(c1, p1, s1 as nat) as int;
    let j = square_index(c2, p2, s2 as nat) as int;
    assert(i != j && 0 <= i < 768 && 0 <= j < 768);
    assert(t.square_table()[i] != t.square_table()[j]);
    assert(t.square_table()[i] != 0);
}

/// The two sides to move have different keys, and Black's is zero.
pub proof fn lemma_turn_keys(t: ZobristTables)
    requires
        t.wf(),
    ensures
        turn_key(t, Color::White) != turn_key(t, Color::Black),
        turn_key(t, Color::Black) == 0,
{
}

/// Distinct en passant files have distinct keys, none of them zero, and
/// "no en passant" has key zero.
pub proof fn lemma_en_passant_keys(t: ZobristTables, f1: File, f2: File)
    requires
        t.wf(),
        f1 < FILE_COUNT,
        f2 < FILE_COUNT,
    ensures
        f1 != f2 ==> en_passant_key(t, Some(f1)) != en_passant_key(t, Some(f2)),
        en_passant_key(t, Some(f1)) != en_passant_key(t, None),
        en_passant_key(t, None) == 0,
{
    assert(t.en_passant_table()[f1 as int] != 0);
    if f1 != f2 {
        assert(t.en_passant_table()[f1 as int] != t.en_passant_table()[f2 as int]);
    }
}

/// Distinct sets of castling rights have distinct keys.
pub proof fn lemma_castling_keys_distinct(t: ZobristTables, a: CastlingRights, b: CastlingRights)
    requires
        t.wf(),
        a != b,
    ensures
        castling_key(t, a) != castling_key(t, b),
{
    lemma_bits_injective(a, b);
    lemma_bits_injective(b, a);
    let i = a.spec_bits() as int;
    let j = b.spec_bits() as int;
    assert(t.castling_table()[i] != t.castling_table()[j]);
}

/// XOR-ing a key into a hash and then out again gives back the hash, bit
/// for bit.
pub proof fn lemma_toggle_round_trip(hash: u64, key: u64)
    ensures
        (hash ^ key) ^ key == hash,
{
    assert((hash ^ key) ^ key == hash) by (bit_vector);
}

/// The order in which two keys are XOR-ed into a hash does not matter.
pub proof fn lemma_toggle_order_free(hash: u64, a: u64, b: u64)
    ensures
        (hash ^ a) ^ b == (hash ^ b) ^ a,
{
    assert((hash ^ a) ^ b == (hash ^ b) ^ a) by (bit_vector);
}

} // verus!
