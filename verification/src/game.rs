//! The match state machine: create, join, reveal, and the transition into
//! settlement.
//!
//! A match moves strictly forward through `Open -> Committed -> Ended`. The
//! opponent's join is a single atomic transition; each side may reveal once,
//! and only against the commitment captured at commit time; the reveal that
//! completes the pair decides the outcome and computes the settlement, and no
//! instruction may mutate a match once it has ended.

use vstd::prelude::*;

use crate::errors::ErrorCode;
use crate::hashing::{bytes_eq, commitment_digest, commitment_matches};
use crate::settlement::{settle, settlement_spec, Settlement};

verus! {

/// Where a match stands in its strictly forward-only lifecycle.
#[derive(Clone, Copy, Debug, PartialEq, Eq, Structural)]
pub enum GameStatus {
    /// Created; waiting for an opponent.
    Open,
    /// Both players have committed to a hashed move.
    Committed,
    /// Both reveals were verified and the outcome is decided; immutable.
    Ended,
}

/// The all-zero placeholder that stands in for the opponent's commitment
/// until someone joins.
pub open spec fn zero_commitment() -> Seq<u8> {
    Seq::new(32, |i: int| 0u8)
}

/// The sole entity of the protocol: one wager-backed match.
#[derive(Clone, Debug)]
pub struct GameState {
    /// Identity handle of the creator; opaque, compared only for equality.
    pub creator: u64,
    /// Identity handle of the opponent; absent until joined.
    pub opponent: Option<u64>,
    /// The creator's 32-byte commitment digest.
    pub creator_move_hashed: Vec<u8>,
    /// The opponent's 32-byte commitment digest; all-zero until joined.
    pub joiner_move_hashed: Vec<u8>,
    /// The creator's revealed move, once verified (0=Rock, 1=Paper, 2=Scissors).
    pub creator_move_revealed: Option<u8>,
    /// The opponent's revealed move, once verified.
    pub joiner_move_revealed: Option<u8>,
    /// The wager amount; fixed at creation, contributed identically by both sides.
    pub wager: u64,
    /// Current lifecycle status.
    pub status: GameStatus,
}

impl GameState {
    /// Well-formedness of a match record: the commitments are 32-byte
    /// digests, and the fields agree with the lifecycle status — an open
    /// match has no opponent and no reveals, a committed match has an
    /// opponent and at most one reveal (the second reveal immediately ends
    /// the match), and an ended match has both.
    pub open spec fn wf(self) -> bool {
        &&& self.creator_move_hashed@.len() == 32
        &&& self.joiner_move_hashed@.len() == 32
        &&& (self.status is Open ==> self.opponent is None && self.creator_move_revealed is None
            && self.joiner_move_revealed is None && self.joiner_move_hashed@
            == zero_commitment())
        &&& (self.status is Committed ==> self.opponent is Some && !(self.creator_move_revealed
            is Some && self.joiner_move_revealed is Some))
        &&& (self.status is Ended ==> self.opponent is Some && self.creator_move_revealed is Some
            && self.joiner_move_revealed is Some)
    }

    /// Create a match: the creator's commitment and the wager are locked in,
    /// the opponent's slot is empty, and the match is open. The caller owes
    /// `wager` units into the match's escrow.
    pub fn create_game(creator: u64, creator_move_hashed: Vec<u8>, wager: u64) -> (g: GameState)
        requires
            creator_move_hashed@.len() == 32,
        ensures
            g.wf(),
            g.creator == creator,
            g.creator_move_hashed == creator_move_hashed,
            g.joiner_move_hashed@ == zero_commitment(),
            g.opponent is None,
            g.creator_move_revealed is None,
            g.joiner_move_revealed is None,
            g.wager == wager,
            g.status is Open,
    {
        let joiner_move_hashed: Vec<u8> = vec![0u8; 32];
        assert(joiner_move_hashed@ =~= zero_commitment());
        GameState {
            creator,
            opponent: None,
            creator_move_hashed,
            joiner_move_hashed,
            creator_move_revealed: None,
            joiner_move_revealed: None,
            wager,
            status: GameStatus::Open,
        }
    }
}

/// Why a join would be rejected: only an open match can be joined.
pub open spec fn join_error(g: GameState) -> Option<ErrorCode> {
    if g.status is Open {
        None
    } else {
        Some(ErrorCode::GameNotOpen)
    }
}

/// Why a reveal would be rejected, or `None` if it is accepted: the match
/// must be in the committed stage, the caller must be one of the two players,
/// that side must not have revealed yet, the `(move, salt)` pair must hash to
/// the side's stored commitment, and — when this reveal completes the pair —
/// the settlement pot must be representable.
pub open spec fn reveal_error(g: GameState, player: u64, mv: u8, salt: Seq<char>) -> Option<
    ErrorCode,
> {
    if !(g.status is Committed) {
        Some(ErrorCode::InvalidGameStatus)
    } else if player == g.creator {
        if g.creator_move_revealed is Some {
            Some(ErrorCode::InvalidGameStatus)
        } else if !commitment_matches(g.creator_move_hashed@, mv, salt) {
            Some(ErrorCode::InvalidReveal)
        } else if g.joiner_move_revealed is Some && 2 * g.wager > u64::MAX {
            Some(ErrorCode::NumericalOverflow)
        } else {
            None
        }
    } else if g.opponent == Some(player) {
        if g.joiner_move_revealed is Some {
            Some(ErrorCode::InvalidGameStatus)
        } else if !commitment_matches(g.joiner_move_hashed@, mv, salt) {
            Some(ErrorCode::InvalidReveal)
        } else if g.creator_move_revealed is Some && 2 * g.wager > u64::MAX {
            Some(ErrorCode::NumericalOverflow)
        } else {
            None
        }
    } else {
        Some(ErrorCode::Unauthorized)
    }
}

/// The state an accepted reveal leaves behind: the caller's side records the
/// move, and the match ends exactly when the other side had already revealed.
pub open spec fn reveal_post(g: GameState, player: u64, mv: u8) -> GameState {
    if player == g.creator {
        GameState {
            creator_move_revealed: Some(mv),
            status: if g.joiner_move_revealed is Some {
                GameStatus::Ended
            } else {
                g.status
            },
            ..g
        }
    } else {
        GameState {
            joiner_move_revealed: Some(mv),
            status: if g.creator_move_revealed is Some {
                GameStatus::Ended
            } else {
                g.status
            },
            ..g
        }
    }
}

impl GameState {
    /// Join an open match: sets the opponent and their commitment and locks
    /// both sides in. A single atomic transition — there is no partial join.
    /// The joiner owes the same `wager` units into the match's escrow.
    pub fn join_game(&mut self, joiner: u64, joiner_move_hashed: Vec<u8>) -> (r: Result<
        (),
        ErrorCode,
    >)
        requires
            old(self).wf(),
            joiner_move_hashed@.len() == 32,
        ensures
            final(self).wf(),
            r is Ok <==> join_error(*old(self)) is None,
            r matches Err(e) ==> Some(e) == join_error(*old(self)) && *final(self) == *old(self),
            r is Ok ==> {
                &&& final(self).status is Committed
                &&& final(self).opponent == Some(joiner)
                &&& final(self).joiner_move_hashed == joiner_move_hashed
                &&& final(self).creator == old(self).creator
                &&& final(self).creator_move_hashed == old(self).creator_move_hashed
                &&& final(self).creator_move_revealed is None
                &&& final(self).joiner_move_revealed is None
                &&& final(self).wager == old(self).wager
            },
    {
        match self.status {
            GameStatus::Open => {},
            _ => {
                return Err(ErrorCode::GameNotOpen);
            },
        }
        self.opponent = Some(joiner);
        self.joiner_move_hashed = joiner_move_hashed;
        self.status = GameStatus::Committed;
        Ok(())
    }

    /// Reveal a move: recompute the digest of `(move, salt)`, check it
    /// against the commitment captured for the caller's side at commit time,
    /// and record the move. The reveal that completes the pair decides the
    /// winner and returns the settlement, ending the match in the same step;
    /// the earlier reveal of the two returns nothing. A rejected reveal —
    /// wrong stage, unknown caller, second reveal from one side, digest
    /// mismatch, or an unrepresentable pot — leaves the match untouched.
    pub fn reveal_move(&mut self, player: u64, original_move: u8, salt: String) -> (r: Result<
        Option<Settlement>,
        ErrorCode,
    >)
        requires
            old(self).wf(),
        ensures
            final(self).wf(),
            r is Ok <==> reveal_error(*old(self), player, original_move, salt@) is None,
            r matches Err(e) ==> Some(e) == reveal_error(*old(self), player, original_move, salt@)
                && *final(self) == *old(self),
            r is Ok ==> *final(self) == reveal_post(*old(self), player, original_move),
            r matches Ok(opt) ==> (opt is Some <==> final(self).status is Ended),
            r matches Ok(Some(s)) ==> ({
                let g = *old(self);
                let cm = if player == g.creator {
                    original_move
                } else {
                    g.creator_move_revealed->0
                };
                let jm = if player == g.creator {
                    g.joiner_move_revealed->0
                } else {
                    original_move
                };
                s == settlement_spec(g.wager, cm, jm)
            }),
    {
        match self.status {
            GameStatus::Committed => {},
            _ => {
                return Err(ErrorCode::InvalidGameStatus);
            },
        }
        let computed = commitment_digest(original_move, salt.as_str());
        if player == self.creator {
            if self.creator_move_revealed.is_some() {
                return Err(ErrorCode::InvalidGameStatus);
            }
            if !bytes_eq(&self.creator_move_hashed, &computed) {
                return Err(ErrorCode::InvalidReveal);
            }
            match self.joiner_move_revealed {
                Some(joiner_move) => {
                    let s = match settle(self.wager, original_move, joiner_move) {
                        Ok(s) => s,
                        Err(e) => {
                            return Err(e);
                        },
                    };
                    self.creator_move_revealed = Some(original_move);
                    self.status = GameStatus::Ended;
                    Ok(Some(s))
                },
                None => {
                    self.creator_move_revealed = Some(original_move);
                    Ok(None)
                },
            }
        } else {
            let is_joiner = match self.opponent {
                Some(o) => o == player,
                None => false,
            };
            if !is_joiner {
                return Err(ErrorCode::Unauthorized);
            }
            if self.joiner_move_revealed.is_some() {
                return Err(ErrorCode::InvalidGameStatus);
            }
            if !bytes_eq(&self.joiner_move_hashed, &computed) {
                return Err(ErrorCode::InvalidReveal);
            }
            match self.creator_move_revealed {
                Some(creator_move) => {
                    let s = match settle(self.wager, creator_move, original_move) {
                        Ok(s) => s,
                        Err(e) => {
                            return Err(e);
                        },
                    };
                    self.joiner_move_revealed = Some(original_move);
                    self.status = GameStatus::Ended;
                    Ok(Some(s))
                },
                None => {
                    self.joiner_move_revealed = Some(original_move);
                    Ok(None)
                },
            }
        }
    }
}

/// Settlement happens exactly once per match, whichever side reveals first:
/// in a committed, well-formed match an accepted reveal ends the match
/// precisely when the other side had already revealed — the earlier of the
/// two reveals leaves it committed — and once a match has ended every further
/// reveal or join is rejected with the status error, so no second settlement
/// can be reached.
pub proof fn lemma_settlement_exactly_once(g: GameState, player: u64, mv: u8, salt: Seq<char>)
    requires
        g.wf(),
    ensures
        g.status is Committed && reveal_error(g, player, mv, salt) is None ==> (reveal_post(
            g,
            player,
            mv,
        ).status is Ended <==> (if player == g.creator {
            g.joiner_move_revealed is Some
        } else {
            g.creator_move_revealed is Some
        })),
        g.status is Ended ==> reveal_error(g, player, mv, salt) == Some(
            ErrorCode::InvalidGameStatus,
        ),
        g.status is Ended ==> join_error(g) == Some(ErrorCode::GameNotOpen),
{
}

} // verus!
