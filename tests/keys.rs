use std::collections::HashSet;
use zobrist::board::{Color, Piece};
use zobrist::castling_rights::CastlingRights;
use zobrist::keys::{
    all_distinct_nonzero, get_castling_zobrist, get_en_passant_zobrist, get_square_zobrist,
    get_turn_zobrist, ZobristTables,
};

const PIECES: [Piece; 6] = [Piece::Pawn, Piece::Knight, Piece::Bishop, Piece::Rook, Piece::Queen, Piece::King];

/// Distinct non-zero values: an odd multiplier is a bijection on u64 that fixes only 0.
fn spread(start: u64, n: usize) -> Vec<u64> {
    (0..n as u64).map(|i| (start + i + 1).wrapping_mul(0x9E37_79B9_7F4A_7C15)).collect()
}

fn sample_tables() -> (Vec<u64>, u64, Vec<u64>, Vec<u64>) {
    (spread(0, 768), 0x1234_5678_9abc_def1, spread(1000, 8), spread(2000, 16))
}

fn tables() -> ZobristTables {
    let (s, t, e, c) = sample_tables();
    ZobristTables::new(s, t, e, c).unwrap()
}

#[test]
fn square_keys_are_read_by_weighted_index() {
    let (s, _, _, _) = sample_tables();
    let t = tables();
    assert_eq!(get_square_zobrist(&t, Color::White, Piece::Pawn, 0), s[0]);
    assert_eq!(get_square_zobrist(&t, Color::White, Piece::Knight, 5), s[69]);
    assert_eq!(get_square_zobrist(&t, Color::Black, Piece::Pawn, 0), s[384]);
    assert_eq!(get_square_zobrist(&t, Color::Black, Piece::King, 63), s[767]);
}

#[test]
fn all_square_keys_are_distinct() {
    let t = tables();
    let mut seen = HashSet::new();
    for color in [Color::White, Color::Black] {
        for piece in PIECES {
            for sq in 0u8..64 {
                let k = get_square_zobrist(&t, color, piece, sq);
                assert_ne!(k, 0);
                assert!(seen.insert(k));
            }
        }
    }
    assert_eq!(seen.len(), 768);
}

#[test]
fn turn_keys() {
    let t = tables();
    assert_eq!(get_turn_zobrist(&t, Color::White), 0x1234_5678_9abc_def1);
    assert_eq!(get_turn_zobrist(&t, Color::Black), 0);
    assert_ne!(get_turn_zobrist(&t, Color::White), get_turn_zobrist(&t, Color::Black));
}

#[test]
fn en_passant_keys() {
    let (_, _, e, _) = sample_tables();
    let t = tables();
    assert_eq!(get_en_passant_zobrist(&t, None), 0);
    let mut seen = HashSet::new();
    for f in 0u8..8 {
        let k = get_en_passant_zobrist(&t, Some(f));
        assert_eq!(k, e[f as usize]);
        assert_ne!(k, get_en_passant_zobrist(&t, None));
        assert!(seen.insert(k));
    }
}

#[test]
fn castling_keys() {
    let (_, _, _, c) = sample_tables();
    let t = tables();
    let mut seen = HashSet::new();
    for n in 0u8..16 {
        let k = get_castling_zobrist(&t, CastlingRights::from_bits(n).unwrap());
        assert_eq!(k, c[n as usize]);
        assert!(seen.insert(k));
    }
    assert_eq!(get_castling_zobrist(&t, CastlingRights::all()), c[15]);
    assert_eq!(get_castling_zobrist(&t, CastlingRights::empty()), c[0]);
}

#[test]
fn tables_reject_wrong_sizes() {
    let (s, t, e, c) = sample_tables();
    assert!(ZobristTables::new(s[..767].to_vec(), t, e.clone(), c.clone()).is_none());
    assert!(ZobristTables::new(s.clone(), t, e[..7].to_vec(), c.clone()).is_none());
    assert!(ZobristTables::new(s.clone(), t, e.clone(), spread(2000, 17)).is_none());
    assert!(ZobristTables::new(s, t, e, c).is_some());
}

#[test]
fn tables_reject_degenerate_values() {
    let (s, t, e, c) = sample_tables();
    assert!(ZobristTables::new(s.clone(), 0, e.clone(), c.clone()).is_none());
    let mut zero = s.clone();
    zero[400] = 0;
    assert!(ZobristTables::new(zero, t, e.clone(), c.clone()).is_none());
    let mut twice = e.clone();
    twice[7] = twice[2];
    assert!(ZobristTables::new(s.clone(), t, twice, c.clone()).is_none());
    let mut twice = c.clone();
    twice[0] = twice[15];
    assert!(ZobristTables::new(s, t, e, twice).is_none());
    assert!(ZobristTables::new(vec![7; 768], t, spread(0, 8), spread(0, 16)).is_none());
}

#[test]
fn distinct_nonzero_check() {
    assert!(all_distinct_nonzero(&vec![]));
    assert!(all_distinct_nonzero(&vec![3, 1, 2]));
    assert!(!all_distinct_nonzero(&vec![3, 1, 3]));
    assert!(!all_distinct_nonzero(&vec![3, 0, 2]));
}

#[test]
fn toggling_a_key_twice_restores_the_hash() {
    let t = tables();
    let base = 0xdead_beef_0bad_f00d_u64;
    let key = get_square_zobrist(&t, Color::Black, Piece::Queen, 59);
    assert_ne!(base ^ key, base);
    assert_eq!((base ^ key) ^ key, base);
    let k2 = get_castling_zobrist(&t, CastlingRights::all());
    assert_eq!((base ^ key) ^ k2, (base ^ k2) ^ key);
}

fn starting_pieces() -> Vec<(Color, Piece, u8)> {
    let back = [Piece::Rook, Piece::Knight, Piece::Bishop, Piece::Queen, Piece::King, Piece::Bishop, Piece::Knight, Piece::Rook];
    let mut v = Vec::new();
    for f in 0u8..8 {
        v.push((Color::White, back[f as usize], f));
        v.push((Color::White, Piece::Pawn, 8 + f));
        v.push((Color::Black, Piece::Pawn, 48 + f));
        v.push((Color::Black, back[f as usize], 56 + f));
    }
    v
}

fn full_hash(
    t: &ZobristTables,
    pieces: &[(Color, Piece, u8)],
    turn: Color,
    ep: Option<u8>,
    rights: CastlingRights,
) -> u64 {
    let mut h = 0u64;
    for &(c, p, s) in pieces {
        h ^= get_square_zobrist(t, c, p, s);
    }
    h ^ get_turn_zobrist(t, turn) ^ get_en_passant_zobrist(t, ep) ^ get_castling_zobrist(t, rights)
}

#[test]
fn king_move_updates_hash_incrementally() {
    let t = tables();
    let mut pieces = starting_pieces();
    assert_eq!(pieces.len(), 32);
    let rights = CastlingRights::all();
    let start = full_hash(&t, &pieces, Color::White, None, rights);
    assert_eq!(get_en_passant_zobrist(&t, None), 0);

    // The white king goes from e1 (4) to f1 (5); white loses both castling rights.
    for entry in pieces.iter_mut() {
        if *entry == (Color::White, Piece::King, 4) {
            entry.2 = 5;
        }
    }
    let new_rights = rights.difference(CastlingRights::both_sides(Color::White));
    let recomputed = full_hash(&t, &pieces, Color::Black, None, new_rights);
    let incremental = start
        ^ get_castling_zobrist(&t, rights)
        ^ get_castling_zobrist(&t, new_rights)
        ^ get_square_zobrist(&t, Color::White, Piece::King, 4)
        ^ get_square_zobrist(&t, Color::White, Piece::King, 5)
        ^ get_turn_zobrist(&t, Color::White)
        ^ get_turn_zobrist(&t, Color::Black);
    assert_eq!(incremental, recomputed);
    assert_ne!(recomputed, start);
}
