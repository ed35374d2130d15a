use wager_core::create_game_session::{cancel_session_handler, create_game_session_handler};
use wager_core::errors::WagerError;
use wager_core::join_user::{
    join_user_handler, leave_game_handler, MAX_BET_AMOUNT, MIN_BET_AMOUNT,
};
use wager_core::state::{GameMode, GameStatus, Pubkey, MAX_SESSION_ID_LENGTH};

fn key(value: u64) -> Pubkey {
    Pubkey { value }
}

fn waiting_session(bet: u64, mode: GameMode) -> wager_core::state::GameSession {
    create_game_session_handler("session_1".to_string(), key(1), bet, mode, 0, 0, 0, 0).unwrap()
}

#[test]
fn join_user_test_bet_amount_validation() {
    // Test minimum bet amount
    assert!(MIN_BET_AMOUNT > 0);
    assert!(MIN_BET_AMOUNT <= MAX_BET_AMOUNT);

    // Test bet amount bounds
    let valid_bet = 50000u64;
    assert!(valid_bet >= MIN_BET_AMOUNT);
    assert!(valid_bet <= MAX_BET_AMOUNT);
}

#[test]
fn join_user_test_session_id_length() {
    let valid_session_id = "test_session_123";
    assert!(valid_session_id.len() <= MAX_SESSION_ID_LENGTH);

    let invalid_session_id = "a".repeat(MAX_SESSION_ID_LENGTH + 1);
    assert!(invalid_session_id.len() > MAX_SESSION_ID_LENGTH);
}

#[test]
fn join_user_test_team_validation() {
    // Valid teams
    assert!(0 <= 1); // Team A
    assert!(1 <= 1); // Team B

    // Invalid teams would be rejected by the join validation
    let invalid_team = 2u8;
    assert!(invalid_team > 1);
}

#[test]
fn test_arithmetic_overflow_protection() {
    let large_bet = u64::MAX / 5;
    let players_per_team = 5u64;

    // Test safe multiplication
    let safe_result = large_bet.checked_mul(players_per_team);
    assert!(safe_result.is_some());

    // Test overflow scenario
    let overflow_result = u64::MAX.checked_mul(2);
    assert!(overflow_result.is_none());
}

#[test]
fn join_user_test_vault_balance_calculation() {
    let initial_balance = 1000u64;
    let session_bet = 500u64;

    let expected_balance = initial_balance.checked_add(session_bet);
    assert_eq!(expected_balance, Some(1500));

    // Test overflow protection
    let overflow_balance = u64::MAX.checked_add(1);
    assert_eq!(overflow_balance, None);
}

#[test]
fn test_join_fills_rosters_and_starts_exactly_when_full() {
    let mut s = waiting_session(50_000, GameMode::WinnerTakesAllThreeVsThree);
    let players_a = [key(10), key(11), key(12)];
    let players_b = [key(20), key(21), key(22)];
    for (i, p) in players_a.iter().enumerate() {
        let idx = join_user_handler(&mut s, *p, 0, 100).unwrap();
        assert_eq!(idx, i);
        assert_eq!(s.status, GameStatus::WaitingForPlayers);
    }
    for (i, p) in players_b.iter().enumerate() {
        let idx = join_user_handler(&mut s, *p, 1, 100).unwrap();
        assert_eq!(idx, i);
        if i < 2 {
            assert_eq!(s.status, GameStatus::WaitingForPlayers);
        } else {
            // the last required slot, and only that one, starts the game
            assert_eq!(s.status, GameStatus::InProgress);
        }
    }
    assert_eq!(s.team_a.total_bet, 150_000);
    assert_eq!(s.team_b.total_bet, 150_000);
    // winner-takes-all joins grant a single life
    assert_eq!(s.team_a.player_spawns, vec![1, 1, 1, 0, 0]);
    assert_eq!(s.team_a.player_kills, vec![0, 0, 0, 0, 0]);
}

#[test]
fn test_join_rejects_duplicate_player_across_teams() {
    let mut s = waiting_session(50_000, GameMode::WinnerTakesAllThreeVsThree);
    join_user_handler(&mut s, key(10), 0, 100).unwrap();
    assert_eq!(
        join_user_handler(&mut s, key(10), 0, 100),
        Err(WagerError::PlayerAlreadyJoined)
    );
    assert_eq!(
        join_user_handler(&mut s, key(10), 1, 100),
        Err(WagerError::PlayerAlreadyJoined)
    );
    // after leaving, the identity may join again
    assert_eq!(leave_game_handler(&mut s, key(10), 0, 100), Ok(50_000));
    assert_eq!(join_user_handler(&mut s, key(10), 1, 100), Ok(0));
}

#[test]
fn test_join_error_cases() {
    let mut s = waiting_session(50_000, GameMode::WinnerTakesAllOneVsOne);
    assert_eq!(
        join_user_handler(&mut s, key(10), 2, 100),
        Err(WagerError::InvalidTeamSelection)
    );
    let deadline = s.expires_at;
    assert_eq!(
        join_user_handler(&mut s, key(10), 0, deadline),
        Err(WagerError::GameSessionExpired)
    );
    join_user_handler(&mut s, key(10), 0, 100).unwrap();
    assert_eq!(
        join_user_handler(&mut s, key(11), 0, 100),
        Err(WagerError::TeamIsFull)
    );
    join_user_handler(&mut s, key(12), 1, 100).unwrap();
    assert_eq!(s.status, GameStatus::InProgress);
    assert_eq!(
        join_user_handler(&mut s, key(13), 0, 100),
        Err(WagerError::InvalidGameState)
    );
}

#[test]
fn test_join_accepts_every_creatable_bet() {
    // the joinable bound equals the creation bound: a session created at the
    // very top of the bet range still fills and starts
    let mut s = waiting_session(1_000_000_000_000, GameMode::WinnerTakesAllOneVsOne);
    assert_eq!(join_user_handler(&mut s, key(10), 0, 100), Ok(0));
    assert_eq!(join_user_handler(&mut s, key(20), 1, 100), Ok(0));
    assert_eq!(s.status, GameStatus::InProgress);
}

#[test]
fn test_join_rejects_bets_outside_the_bounds() {
    // sessions with out-of-range bets cannot come from creation, but the
    // bare constructor admits them; joining such a session fails
    let mut low = wager_core::state::GameSession::new(
        "abc".to_string(),
        key(1),
        100,
        GameMode::WinnerTakesAllOneVsOne,
        0,
        0,
        0,
        0,
    )
    .unwrap();
    assert_eq!(
        join_user_handler(&mut low, key(10), 0, 100),
        Err(WagerError::BetAmountTooLow)
    );
    let mut high = wager_core::state::GameSession::new(
        "abc".to_string(),
        key(1),
        2_000_000_000_000,
        GameMode::WinnerTakesAllOneVsOne,
        0,
        0,
        0,
        0,
    )
    .unwrap();
    assert_eq!(
        join_user_handler(&mut high, key(10), 0, 100),
        Err(WagerError::BetAmountTooHigh)
    );
}

#[test]
fn test_leave_refunds_exactly_the_bet() {
    let mut s = waiting_session(50_000, GameMode::WinnerTakesAllThreeVsThree);
    join_user_handler(&mut s, key(10), 0, 100).unwrap();
    join_user_handler(&mut s, key(11), 0, 100).unwrap();
    assert_eq!(s.team_a.total_bet, 100_000);
    let refund = leave_game_handler(&mut s, key(10), 0, 100).unwrap();
    assert_eq!(refund, 50_000);
    assert_eq!(s.team_a.total_bet, 50_000);
    assert_eq!(s.team_a.players[0], Pubkey { value: 0 });
    assert_eq!(s.team_a.player_spawns[0], 0);
    assert_eq!(s.team_a.player_kills[0], 0);
    assert_eq!(
        leave_game_handler(&mut s, key(10), 0, 100),
        Err(WagerError::PlayerNotFound)
    );
    assert_eq!(
        leave_game_handler(&mut s, key(11), 2, 100),
        Err(WagerError::InvalidTeamSelection)
    );
    let deadline = s.expires_at;
    assert_eq!(
        leave_game_handler(&mut s, key(11), 0, deadline),
        Err(WagerError::GameSessionExpired)
    );
}

#[test]
fn test_leave_rejected_once_started() {
    let mut s = waiting_session(50_000, GameMode::WinnerTakesAllOneVsOne);
    join_user_handler(&mut s, key(10), 0, 100).unwrap();
    join_user_handler(&mut s, key(20), 1, 100).unwrap();
    assert_eq!(s.status, GameStatus::InProgress);
    assert_eq!(
        leave_game_handler(&mut s, key(10), 0, 100),
        Err(WagerError::GameAlreadyInProgress)
    );
}

#[test]
fn test_cancel_only_before_start() {
    let auth = key(1);
    let mut s = waiting_session(50_000, GameMode::WinnerTakesAllOneVsOne);
    assert_eq!(
        cancel_session_handler(&mut s, key(2)),
        Err(WagerError::UnauthorizedAction)
    );
    join_user_handler(&mut s, key(10), 0, 100).unwrap();
    join_user_handler(&mut s, key(20), 1, 100).unwrap();
    assert_eq!(
        cancel_session_handler(&mut s, auth),
        Err(WagerError::GameAlreadyStarted)
    );
    let mut fresh = waiting_session(50_000, GameMode::WinnerTakesAllOneVsOne);
    assert_eq!(cancel_session_handler(&mut fresh, auth), Ok(()));
    assert_eq!(fresh.status, GameStatus::Cancelled);
}
