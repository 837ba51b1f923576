//! Settlement math: pot, house fee, and fee-adjusted payouts.
//!
//! The total pot is twice the wager, the house keeps a fixed-rate cut of it
//! (rounded down), and the remainder goes to the winner, or is split in half
//! on a tie (integer halves; a one-unit remainder of an odd payout is not
//! distributed). All monetary arithmetic is checked: a pot that cannot be
//! represented is rejected, never wrapped.

use vstd::prelude::*;

use crate::errors::ErrorCode;
use crate::outcome::{decide_winner, winner_spec, RPSResult};

verus! {

/// Numerator of the fixed house-fee rate (3 of 100: a 3% cut).
pub const FEE_NUMERATOR: u64 = 3;

/// Denominator of the fixed house-fee rate.
pub const FEE_DENOMINATOR: u64 = 100;

/// The house fee on a pot: `floor(total_pot * 3 / 100)`.
pub open spec fn spec_house_fee(total_pot: int) -> int {
    total_pot * (FEE_NUMERATOR as int) / (FEE_DENOMINATOR as int)
}

/// The decided outcome of a match together with the amounts to move out of
/// escrow: the house's cut and each side's payout. The custody ledger is
/// handed these amounts; a zero amount means no movement.
#[derive(Clone, Copy, Debug, PartialEq, Eq, Structural)]
pub struct Settlement {
    /// Who won the round.
    pub result: RPSResult,
    /// Twice the wager: both sides' escrowed contributions.
    pub total_pot: u64,
    /// The house's cut of the pot.
    pub house_fee: u64,
    /// What remains of the pot after the house fee.
    pub payout: u64,
    /// The amount owed to the creator out of escrow.
    pub creator_payout: u64,
    /// The amount owed to the opponent out of escrow.
    pub joiner_payout: u64,
}

/// The settlement owed for a wager and a pair of revealed moves, assuming the
/// doubled pot is representable.
pub open spec fn settlement_spec(wager: u64, creator_move: u8, joiner_move: u8) -> Settlement {
    let pot = 2 * (wager as int);
    let fee = spec_house_fee(pot);
    let payout = pot - fee;
    let result = winner_spec(creator_move, joiner_move);
    Settlement {
        result,
        total_pot: pot as u64,
        house_fee: fee as u64,
        payout: payout as u64,
        creator_payout: (match result {
            RPSResult::CreatorWins => payout,
            RPSResult::JoinerWins => 0,
            RPSResult::Tie => payout / 2,
        }) as u64,
        joiner_payout: (match result {
            RPSResult::CreatorWins => 0,
            RPSResult::JoinerWins => payout,
            RPSResult::Tie => payout / 2,
        }) as u64,
    }
}

/// The house fee never exceeds the pot it is drawn from (and is never
/// negative), so the payout subtraction cannot underflow.
pub proof fn lemma_fee_bounds(total_pot: int)
    requires
        0 <= total_pot,
    ensures
        0 <= spec_house_fee(total_pot) <= total_pot,
{
    assert(0 <= total_pot * 3 / 100 <= total_pot) by (nonlinear_arith)
        requires
            0 <= total_pot,
    ;
}

/// Conservation of funds: for every wager whose doubled pot is representable,
/// the house fee and the payout reassemble the pot exactly — no unit is
/// created or leaks — the fee is exactly `floor(2 * wager * 3 / 100)`, and
/// the per-side payouts redistribute the payout: all of it to the winner, or
/// half to each side on a tie (dropping at most one unit when it is odd).
pub proof fn lemma_pot_conservation(wager: u64, creator_move: u8, joiner_move: u8)
    requires
        2 * wager <= u64::MAX,
    ensures
        ({
            let s = settlement_spec(wager, creator_move, joiner_move);
            &&& s.total_pot == 2 * wager
            &&& s.house_fee == spec_house_fee(2 * wager)
            &&& s.house_fee + s.payout == 2 * wager
            &&& s.result == winner_spec(creator_move, joiner_move)
            &&& (s.result is CreatorWins ==> s.creator_payout == s.payout && s.joiner_payout
                == 0)
            &&& (s.result is JoinerWins ==> s.joiner_payout == s.payout && s.creator_payout
                == 0)
            &&& (s.result is Tie ==> s.creator_payout == s.payout / 2 && s.joiner_payout
                == s.payout / 2)
            &&& s.creator_payout + s.joiner_payout <= s.payout
            &&& s.payout - (s.creator_payout + s.joiner_payout) <= 1
        }),
{
    lemma_fee_bounds(2 * (wager as int));
}

/// Compute the settlement for a wager and both revealed moves. Succeeds for
/// exactly the wagers whose doubled pot fits the integer width in use; a
/// larger wager is rejected with `NumericalOverflow` rather than wrapped.
pub fn settle(wager: u64, creator_move: u8, joiner_move: u8) -> (r: Result<
    Settlement,
    ErrorCode,
>)
    ensures
        r is Ok <==> 2 * wager <= u64::MAX,
        r matches Ok(s) ==> s == settlement_spec(wager, creator_move, joiner_move),
        r matches Ok(s) ==> s.house_fee + s.payout == 2 * wager,
        r matches Err(e) ==> e == ErrorCode::NumericalOverflow,
{
    let total_pot = match 2u64.checked_mul(wager) {
        Some(p) => p,
        None => {
            return Err(ErrorCode::NumericalOverflow);
        },
    };
    proof {
        lemma_fee_bounds(total_pot as int);
    }
    let fee_wide: u128 = (total_pot as u128) * (FEE_NUMERATOR as u128) / (FEE_DENOMINATOR
        as u128);
    let house_fee: u64 = fee_wide as u64;
    let payout = total_pot - house_fee;
    let result = decide_winner(creator_move, joiner_move);
    let (creator_payout, joiner_payout): (u64, u64) = match result {
        RPSResult::CreatorWins => (payout, 0),
        RPSResult::JoinerWins => (0, payout),
        RPSResult::Tie => (payout / 2, payout / 2),
    };
    Ok(
        Settlement {
            result,
            total_pot,
            house_fee,
            payout,
            creator_payout,
            joiner_payout,
        },
    )
}

} // verus!
