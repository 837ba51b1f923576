use rps_game::errors::ErrorCode;
use rps_game::game::{GameState, GameStatus};
use rps_game::outcome::RPSResult;
use sha2::{Digest, Sha256};

fn commit(mv: u8, salt: &str) -> Vec<u8> {
    let mut hasher = Sha256::new();
    hasher.update([mv]);
    hasher.update(salt.as_bytes());
    hasher.finalize().to_vec()
}

const CREATOR: u64 = 1;
const OPPONENT: u64 = 2;

#[test]
fn create_game_opens_match() {
    let g = GameState::create_game(CREATOR, commit(0, "abc"), 1000);
    assert_eq!(g.creator, CREATOR);
    assert_eq!(g.opponent, None);
    assert_eq!(g.status, GameStatus::Open);
    assert_eq!(g.wager, 1000);
    assert_eq!(g.creator_move_revealed, None);
    assert_eq!(g.joiner_move_revealed, None);
    assert_eq!(g.joiner_move_hashed, vec![0u8; 32]);
}

#[test]
fn creator_wins_scenario() {
    let mut g = GameState::create_game(CREATOR, commit(0, "abc"), 1000);
    assert_eq!(g.join_game(OPPONENT, commit(2, "xyz")), Ok(()));
    assert_eq!(g.status, GameStatus::Committed);
    assert_eq!(g.opponent, Some(OPPONENT));

    let first = g.reveal_move(CREATOR, 0, "abc".to_string());
    assert_eq!(first, Ok(None));
    assert_eq!(g.status, GameStatus::Committed);
    assert_eq!(g.creator_move_revealed, Some(0));

    let second = g.reveal_move(OPPONENT, 2, "xyz".to_string());
    let s = second.expect("second reveal accepted").expect("settlement");
    assert_eq!(s.result, RPSResult::CreatorWins);
    assert_eq!(s.total_pot, 2000);
    assert_eq!(s.house_fee, 60);
    assert_eq!(s.payout, 1940);
    assert_eq!(s.creator_payout, 1940);
    assert_eq!(s.joiner_payout, 0);
    assert_eq!(g.status, GameStatus::Ended);
}

#[test]
fn tie_scenario_splits_payout() {
    let mut g = GameState::create_game(CREATOR, commit(0, "abc"), 1000);
    assert_eq!(g.join_game(OPPONENT, commit(0, "xyz")), Ok(()));

    assert_eq!(g.reveal_move(CREATOR, 0, "abc".to_string()), Ok(None));
    let s = g
        .reveal_move(OPPONENT, 0, "xyz".to_string())
        .expect("second reveal accepted")
        .expect("settlement");
    assert_eq!(s.result, RPSResult::Tie);
    assert_eq!(s.total_pot, 2000);
    assert_eq!(s.house_fee, 60);
    assert_eq!(s.payout, 1940);
    assert_eq!(s.creator_payout, 970);
    assert_eq!(s.joiner_payout, 970);
    assert_eq!(g.status, GameStatus::Ended);
}

#[test]
fn mismatched_salt_is_invalid_reveal() {
    let mut g = GameState::create_game(CREATOR, commit(0, "abc"), 1000);
    assert_eq!(g.join_game(OPPONENT, commit(2, "xyz")), Ok(()));

    let r = g.reveal_move(CREATOR, 0, "abd".to_string());
    assert_eq!(r, Err(ErrorCode::InvalidReveal));
    assert_eq!(g.status, GameStatus::Committed);
    assert_eq!(g.creator_move_revealed, None);
}

#[test]
fn mismatched_move_is_invalid_reveal() {
    let mut g = GameState::create_game(CREATOR, commit(0, "abc"), 1000);
    assert_eq!(g.join_game(OPPONENT, commit(2, "xyz")), Ok(()));

    let r = g.reveal_move(CREATOR, 1, "abc".to_string());
    assert_eq!(r, Err(ErrorCode::InvalidReveal));
    assert_eq!(g.status, GameStatus::Committed);
    assert_eq!(g.creator_move_revealed, None);
}

#[test]
fn third_party_reveal_is_unauthorized() {
    let mut g = GameState::create_game(CREATOR, commit(0, "abc"), 1000);
    assert_eq!(g.join_game(OPPONENT, commit(2, "xyz")), Ok(()));

    let r = g.reveal_move(999, 0, "abc".to_string());
    assert_eq!(r, Err(ErrorCode::Unauthorized));
    assert_eq!(g.status, GameStatus::Committed);
    assert_eq!(g.creator_move_revealed, None);
    assert_eq!(g.joiner_move_revealed, None);
}

#[test]
fn reveal_before_join_is_invalid_status() {
    let mut g = GameState::create_game(CREATOR, commit(0, "abc"), 1000);
    let r = g.reveal_move(CREATOR, 0, "abc".to_string());
    assert_eq!(r, Err(ErrorCode::InvalidGameStatus));
    assert_eq!(g.status, GameStatus::Open);
}

#[test]
fn join_twice_is_not_open() {
    let mut g = GameState::create_game(CREATOR, commit(0, "abc"), 1000);
    assert_eq!(g.join_game(OPPONENT, commit(2, "xyz")), Ok(()));
    let r = g.join_game(3, commit(1, "uvw"));
    assert_eq!(r, Err(ErrorCode::GameNotOpen));
    assert_eq!(g.opponent, Some(OPPONENT));
}

#[test]
fn second_reveal_from_same_side_is_rejected() {
    let mut g = GameState::create_game(CREATOR, commit(0, "abc"), 1000);
    assert_eq!(g.join_game(OPPONENT, commit(2, "xyz")), Ok(()));
    assert_eq!(g.reveal_move(CREATOR, 0, "abc".to_string()), Ok(None));

    let again = g.reveal_move(CREATOR, 0, "abc".to_string());
    assert_eq!(again, Err(ErrorCode::InvalidGameStatus));
    assert_eq!(g.status, GameStatus::Committed);
    assert_eq!(g.creator_move_revealed, Some(0));
}

#[test]
fn ended_match_is_immutable() {
    let mut g = GameState::create_game(CREATOR, commit(0, "abc"), 1000);
    assert_eq!(g.join_game(OPPONENT, commit(2, "xyz")), Ok(()));
    assert_eq!(g.reveal_move(CREATOR, 0, "abc".to_string()), Ok(None));
    assert!(g.reveal_move(OPPONENT, 2, "xyz".to_string()).is_ok());
    assert_eq!(g.status, GameStatus::Ended);

    let reveal_again = g.reveal_move(OPPONENT, 2, "xyz".to_string());
    assert_eq!(reveal_again, Err(ErrorCode::InvalidGameStatus));
    let join_again = g.join_game(3, commit(1, "uvw"));
    assert_eq!(join_again, Err(ErrorCode::GameNotOpen));
    assert_eq!(g.status, GameStatus::Ended);
}

#[test]
fn settlement_happens_on_joiner_first_order_too() {
    let mut g = GameState::create_game(CREATOR, commit(1, "s1"), 500);
    assert_eq!(g.join_game(OPPONENT, commit(0, "s2")), Ok(()));

    assert_eq!(g.reveal_move(OPPONENT, 0, "s2".to_string()), Ok(None));
    assert_eq!(g.status, GameStatus::Committed);
    assert_eq!(g.joiner_move_revealed, Some(0));

    let s = g
        .reveal_move(CREATOR, 1, "s1".to_string())
        .expect("second reveal accepted")
        .expect("settlement");
    assert_eq!(s.result, RPSResult::CreatorWins);
    assert_eq!(s.total_pot, 1000);
    assert_eq!(s.house_fee, 30);
    assert_eq!(s.payout, 970);
    assert_eq!(s.creator_payout, 970);
    assert_eq!(s.joiner_payout, 0);
    assert_eq!(g.status, GameStatus::Ended);
}

#[test]
fn overflowing_pot_rejects_settling_reveal() {
    let wager = u64::MAX / 2 + 1;
    let mut g = GameState::create_game(CREATOR, commit(0, "abc"), wager);
    assert_eq!(g.join_game(OPPONENT, commit(2, "xyz")), Ok(()));
    assert_eq!(g.reveal_move(CREATOR, 0, "abc".to_string()), Ok(None));

    let r = g.reveal_move(OPPONENT, 2, "xyz".to_string());
    assert_eq!(r, Err(ErrorCode::NumericalOverflow));
    assert_eq!(g.status, GameStatus::Committed);
    assert_eq!(g.joiner_move_revealed, None);
}

#[test]
fn empty_salt_round_trips() {
    let mut g = GameState::create_game(CREATOR, commit(2, ""), 7);
    assert_eq!(g.join_game(OPPONENT, commit(2, "")), Ok(()));
    assert_eq!(g.reveal_move(CREATOR, 2, "".to_string()), Ok(None));
    let s = g
        .reveal_move(OPPONENT, 2, "".to_string())
        .expect("second reveal accepted")
        .expect("settlement");
    assert_eq!(s.result, RPSResult::Tie);
    assert_eq!(s.total_pot, 14);
    assert_eq!(s.house_fee, 0);
    assert_eq!(s.payout, 14);
    assert_eq!(s.creator_payout, 7);
    assert_eq!(s.joiner_payout, 7);
}
