use wager_core::create_game_session::create_game_session_handler;
use wager_core::errors::WagerError;
use wager_core::join_user::join_user_handler;
use wager_core::pay_to_spawn::{
    disable_spawn_purchases, get_player_spawn_count, get_spawn_info, pay_to_spawn_handler,
    update_spawn_config, MAX_BET_AMOUNT, MAX_SESSION_ID_LENGTH, MAX_SPAWNS_PER_PLAYER,
    MIN_BET_AMOUNT,
};
use wager_core::state::{GameMode, GameSession, GameStatus, Pubkey};

fn key(value: u64) -> Pubkey {
    Pubkey { value }
}

fn running_pooled_session() -> GameSession {
    let mut s = create_game_session_handler(
        "session_1".to_string(),
        key(1),
        50_000,
        GameMode::PayToSpawnOneVsOne,
        0,
        0,
        0,
        0,
    )
    .unwrap();
    join_user_handler(&mut s, key(10), 0, 100).unwrap();
    join_user_handler(&mut s, key(20), 1, 100).unwrap();
    assert_eq!(s.status, GameStatus::InProgress);
    s
}

#[test]
fn test_spawn_limits() {
    let max_spawns = MAX_SPAWNS_PER_PLAYER;
    let spawns_per_purchase = 10u16;

    // Test normal case
    let current_spawns = 50u16;
    let new_spawns = current_spawns.checked_add(spawns_per_purchase).unwrap();
    assert!(new_spawns <= max_spawns);

    // Test overflow prevention
    let high_spawns = 95u16;
    let new_spawns_overflow = high_spawns.checked_add(spawns_per_purchase);
    match new_spawns_overflow {
        Some(count) => assert!(count > max_spawns), // Would exceed limit
        None => assert!(false, "Should not overflow u16"),
    }
}

#[test]
fn pay_to_spawn_test_bet_amount_validation() {
    // Test valid bet amounts
    let valid_bet = 50000u64;
    assert!(valid_bet >= MIN_BET_AMOUNT && valid_bet <= MAX_BET_AMOUNT);

    // Test invalid bet amounts
    let too_low = MIN_BET_AMOUNT - 1;
    assert!(too_low < MIN_BET_AMOUNT);

    let too_high = MAX_BET_AMOUNT + 1;
    assert!(too_high > MAX_BET_AMOUNT);
}

#[test]
fn pay_to_spawn_test_vault_balance_calculation() {
    let initial_balance = 1000u64;
    let bet_amount = 500u64;

    let expected_balance = initial_balance.checked_add(bet_amount);
    assert_eq!(expected_balance, Some(1500));

    // Test overflow protection
    let max_balance = u64::MAX;
    let overflow_result = max_balance.checked_add(1);
    assert_eq!(overflow_result, None);
}

#[test]
fn pay_to_spawn_test_team_validation() {
    // Valid teams
    assert!(0 <= 1);
    assert!(1 <= 1);

    // Invalid teams
    let invalid_team = 2u8;
    assert!(invalid_team > 1);
}

#[test]
fn pay_to_spawn_test_session_id_length() {
    let valid_id = "test_session";
    assert!(valid_id.len() <= MAX_SESSION_ID_LENGTH);

    let invalid_id = "a".repeat(MAX_SESSION_ID_LENGTH + 1);
    assert!(invalid_id.len() > MAX_SESSION_ID_LENGTH);
}

#[test]
fn test_spawn_purchase_arithmetic() {
    let current_spawns = 15u16;
    let spawns_per_purchase = 10u16;
    let session_bet = 1000u64;

    // Test spawn addition
    let new_spawn_count = current_spawns.checked_add(spawns_per_purchase);
    assert_eq!(new_spawn_count, Some(25));

    // Test team total update
    let team_total = 5000u64;
    let new_total = team_total.checked_add(session_bet);
    assert_eq!(new_total, Some(6000));
}

#[test]
fn test_purchase_adds_spawns_and_contribution() {
    let mut s = running_pooled_session();
    // a pooled join grants ten spawns
    assert_eq!(s.team_a.player_spawns[0], 10);
    assert_eq!(s.team_a.total_bet, 50_000);
    let new_count = pay_to_spawn_handler(&mut s, key(10), 0, 200).unwrap();
    assert_eq!(new_count, 20);
    assert_eq!(s.team_a.player_spawns[0], 20);
    assert_eq!(s.team_a.total_bet, 100_000);
    assert_eq!(s.team_b.total_bet, 50_000);
}

#[test]
fn test_purchase_error_cases() {
    let mut s = running_pooled_session();
    assert_eq!(
        pay_to_spawn_handler(&mut s, key(10), 2, 200),
        Err(WagerError::InvalidTeamSelection)
    );
    assert_eq!(
        pay_to_spawn_handler(&mut s, key(99), 0, 200),
        Err(WagerError::PlayerNotFound)
    );
    let deadline = s.expires_at;
    assert_eq!(
        pay_to_spawn_handler(&mut s, key(10), 0, deadline),
        Err(WagerError::GameSessionExpired)
    );
    // nearly at the cap: one more purchase would exceed it
    s.team_a.player_spawns[0] = 95;
    assert_eq!(
        pay_to_spawn_handler(&mut s, key(10), 0, 200),
        Err(WagerError::MaxSpawnsExceeded)
    );
    s.team_a.player_spawns[0] = 100;
    assert_eq!(
        pay_to_spawn_handler(&mut s, key(10), 0, 200),
        Err(WagerError::MaxSpawnsExceeded)
    );
    s.status = GameStatus::Completed;
    assert_eq!(
        pay_to_spawn_handler(&mut s, key(10), 0, 200),
        Err(WagerError::InvalidGameState)
    );
}

#[test]
fn test_purchase_rejected_in_winner_takes_all_mode() {
    let mut s = create_game_session_handler(
        "session_1".to_string(),
        key(1),
        50_000,
        GameMode::WinnerTakesAllOneVsOne,
        0,
        0,
        0,
        0,
    )
    .unwrap();
    join_user_handler(&mut s, key(10), 0, 100).unwrap();
    join_user_handler(&mut s, key(20), 1, 100).unwrap();
    assert_eq!(
        pay_to_spawn_handler(&mut s, key(10), 0, 200),
        Err(WagerError::InvalidGameMode)
    );
}

#[test]
fn test_spawn_config_updates() {
    let auth = key(1);
    let mut s = running_pooled_session();
    assert_eq!(
        update_spawn_config(&mut s, key(2), 20),
        Err(WagerError::UnauthorizedAction)
    );
    assert_eq!(
        update_spawn_config(&mut s, auth, 0),
        Err(WagerError::InvalidSpawnCount)
    );
    assert_eq!(
        update_spawn_config(&mut s, auth, 51),
        Err(WagerError::InvalidSpawnCount)
    );
    assert_eq!(update_spawn_config(&mut s, auth, 5), Ok(()));
    assert_eq!(s.spawns_per_purchase, 5);
    let new_count = pay_to_spawn_handler(&mut s, key(10), 0, 200).unwrap();
    assert_eq!(new_count, 15);

    assert_eq!(
        disable_spawn_purchases(&mut s, key(2)),
        Err(WagerError::UnauthorizedAction)
    );
    assert_eq!(disable_spawn_purchases(&mut s, auth), Ok(()));
    assert_eq!(s.spawns_per_purchase, 0);
}

#[test]
fn test_spawn_queries() {
    let s = running_pooled_session();
    let info = get_spawn_info(&s, 200);
    assert!(info.is_pay_to_spawn);
    assert_eq!(info.cost_per_purchase, 50_000);
    assert_eq!(info.spawns_per_purchase, 10);
    assert_eq!(info.max_spawns_per_player, 100);
    assert!(!info.is_expired);

    assert_eq!(get_player_spawn_count(&s, 0, key(10)), Ok((10, 0)));
    assert_eq!(
        get_player_spawn_count(&s, 0, key(20)),
        Err(WagerError::PlayerNotFound)
    );
    assert_eq!(
        get_player_spawn_count(&s, 2, key(10)),
        Err(WagerError::InvalidTeamSelection)
    );
}
