//! A two-party, wager-backed rock-paper-scissors match engine built on a
//! commit-reveal protocol.
//!
//! Each player commits to a move as a SHA-256 digest of the move byte followed
//! by a secret salt. Once both commitments are locked in, players reveal their
//! `(move, salt)` pairs; the engine verifies each reveal against the stored
//! commitment, decides the winner with the fixed beats-relation, and computes
//! the fee-adjusted payouts. The custody ledger that actually holds and moves
//! funds is outside this crate: the engine only emits the amounts to move.

pub mod errors;
pub mod game;
pub mod hashing;
pub mod outcome;
pub mod settlement;
