//! The error taxonomy of the match engine.
//!
//! All variants are local validation failures, surfaced immediately to the
//! caller; the engine itself never retries.

use vstd::prelude::*;

verus! {

/// Why an instruction against a match was rejected.
#[derive(Clone, Copy, Debug, PartialEq, Eq, Structural)]
pub enum ErrorCode {
    /// The game is not open for joining.
    GameNotOpen,
    /// The revealed `(move, salt)` pair does not match the stored commitment.
    InvalidReveal,
    /// The caller is neither the creator nor the opponent of this game.
    Unauthorized,
    /// The current game status does not allow this action.
    InvalidGameStatus,
    /// Pot, fee, or payout arithmetic cannot be represented safely.
    NumericalOverflow,
}

} // verus!
