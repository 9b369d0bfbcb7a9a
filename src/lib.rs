//! Zobrist hashing of chess positions: per-feature 64-bit keys that are
//! combined with XOR into a position fingerprint.
pub mod board;
pub mod castling_rights;
pub mod keys;
pub mod lemmas;
