//! Outcome determination: the fixed beats-relation over moves.
//!
//! Moves are encoded as bytes: 0 = Rock, 1 = Paper, 2 = Scissors.

use vstd::prelude::*;

verus! {

/// The outcome of a match between the creator's move and the joiner's move.
#[derive(Clone, Copy, Debug, PartialEq, Eq, Structural)]
pub enum RPSResult {
    CreatorWins,
    JoinerWins,
    Tie,
}

/// The fixed beats-relation: Rock (0) beats Scissors (2), Paper (1) beats
/// Rock (0), Scissors (2) beats Paper (1).
pub open spec fn beats(a: u8, b: u8) -> bool {
    ||| (a == 0 && b == 2)
    ||| (a == 1 && b == 0)
    ||| (a == 2 && b == 1)
}

/// The winner of a match: equal moves tie, a listed pair is a creator win,
/// every other pair is a joiner win. Total over all byte pairs.
pub open spec fn winner_spec(creator_move: u8, joiner_move: u8) -> RPSResult {
    if creator_move == joiner_move {
        RPSResult::Tie
    } else if beats(creator_move, joiner_move) {
        RPSResult::CreatorWins
    } else {
        RPSResult::JoinerWins
    }
}

/// Decide the winner of a rock-paper-scissors round.
pub fn decide_winner(creator_move: u8, joiner_move: u8) -> (r: RPSResult)
    ensures
        r == winner_spec(creator_move, joiner_move),
{
    if creator_move == joiner_move {
        return RPSResult::Tie;
    }
    match (creator_move, joiner_move) {
        (0, 2) => RPSResult::CreatorWins,
        (1, 0) => RPSResult::CreatorWins,
        (2, 1) => RPSResult::CreatorWins,
        _ => RPSResult::JoinerWins,
    }
}

/// The outcome relation is total and, over the legal moves {0, 1, 2},
/// antisymmetric: equal moves tie and nothing else does; each of the six
/// ordered non-tie pairs has exactly one winner, and swapping the sides of a
/// creator win gives precisely a joiner win.
pub proof fn lemma_winner_total_antisymmetric(creator_move: u8, joiner_move: u8)
    requires
        creator_move <= 2,
        joiner_move <= 2,
    ensures
        winner_spec(creator_move, joiner_move) is Tie <==> creator_move == joiner_move,
        creator_move != joiner_move ==> (winner_spec(creator_move, joiner_move) is CreatorWins
            <==> !(winner_spec(creator_move, joiner_move) is JoinerWins)),
        winner_spec(creator_move, joiner_move) is CreatorWins <==> winner_spec(
            joiner_move,
            creator_move,
        ) is JoinerWins,
{
}

} // verus!
