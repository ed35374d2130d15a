use wager_core::create_game_session::{
    create_game_session_handler, extend_session_handler, validate_session_id, MAX_BET_AMOUNT,
    MAX_SESSION_ID_LENGTH, MIN_BET_AMOUNT, MIN_SESSION_ID_LENGTH,
};
use wager_core::errors::WagerError;
use wager_core::state::{GameMode, GameStatus, Pubkey, MAX_PLAYERS_PER_TEAM, SESSION_TIMEOUT_SECONDS};

fn key(value: u64) -> Pubkey {
    Pubkey { value }
}

#[test]
fn create_game_session_test_bet_amount_validation() {
    // Test minimum bet
    assert!(MIN_BET_AMOUNT > 0);

    // Test valid bet amounts
    let valid_bet = 50_000u64;
    assert!(valid_bet >= MIN_BET_AMOUNT && valid_bet <= MAX_BET_AMOUNT);

    // Test invalid bet amounts
    let too_low = MIN_BET_AMOUNT - 1;
    assert!(too_low < MIN_BET_AMOUNT);

    let too_high = MAX_BET_AMOUNT + 1;
    assert!(too_high > MAX_BET_AMOUNT);
}

#[test]
fn test_session_id_validation() {
    // Valid session IDs
    let valid_ids = vec![
        "test_session",
        "game-123",
        "session_1v1_battle",
        "pvp_match_001",
    ];

    for id in valid_ids {
        assert!(id.len() >= MIN_SESSION_ID_LENGTH);
        assert!(id.len() <= MAX_SESSION_ID_LENGTH);
        assert!(id
            .chars()
            .all(|c| c.is_ascii_alphanumeric() || c == '_' || c == '-'));
    }

    // Invalid session IDs
    let long_id = "a".repeat(MAX_SESSION_ID_LENGTH + 1);
    let invalid_ids = vec![
        "x", // Too short
        long_id.as_str(), // Too long
        "session with spaces", // Invalid characters
        "session@special", // Invalid characters
    ];

    for id in invalid_ids {
        let is_invalid = id.len() < MIN_SESSION_ID_LENGTH
            || id.len() > MAX_SESSION_ID_LENGTH
            || !id
                .chars()
                .all(|c| c.is_ascii_alphanumeric() || c == '_' || c == '-');
        assert!(is_invalid);
    }
}

#[test]
fn test_game_mode_validation() {
    let modes = [
        GameMode::WinnerTakesAllOneVsOne,
        GameMode::WinnerTakesAllThreeVsThree,
        GameMode::WinnerTakesAllFiveVsFive,
        GameMode::PayToSpawnOneVsOne,
        GameMode::PayToSpawnThreeVsThree,
        GameMode::PayToSpawnFiveVsFive,
    ];

    for mode in modes {
        let players = mode.players_per_team();
        assert!(players > 0);
        assert!(players <= MAX_PLAYERS_PER_TEAM);
    }
}

#[test]
fn test_session_timeout_calculation() {
    let current_time = 1000i64;
    let expires_at = current_time.checked_add(SESSION_TIMEOUT_SECONDS);

    assert!(expires_at.is_some());
    assert_eq!(expires_at.unwrap(), current_time + SESSION_TIMEOUT_SECONDS);

    // Test overflow protection
    let max_time = i64::MAX;
    let overflow_result = max_time.checked_add(SESSION_TIMEOUT_SECONDS);
    assert!(overflow_result.is_none());
}

#[test]
fn test_extension_time_limits() {
    // Valid extension times
    let valid_extensions = [3600i64, 7200, 21600]; // 1h, 2h, 6h
    for ext in valid_extensions {
        assert!(ext > 0 && ext <= 86400); // Max 24 hours
    }

    // Invalid extension times
    let invalid_extensions = [0i64, -3600, 86401]; // 0, negative, >24h
    for ext in invalid_extensions {
        assert!(ext <= 0 || ext > 86400);
    }
}

#[test]
fn test_session_id_rules_on_examples() {
    assert!(validate_session_id("game-123").is_ok());
    assert!(validate_session_id("session_1v1_battle").is_ok());
    assert_eq!(
        validate_session_id("x"),
        Err(WagerError::SessionIdTooShort)
    );
    let long_id = "a".repeat(33);
    assert_eq!(
        validate_session_id(&long_id),
        Err(WagerError::SessionIdTooLong)
    );
    assert_eq!(
        validate_session_id("session with spaces"),
        Err(WagerError::InvalidSessionIdFormat)
    );
    assert_eq!(
        validate_session_id("session@special"),
        Err(WagerError::InvalidSessionIdFormat)
    );
}

#[test]
fn test_create_validates_bet_bounds() {
    let mode = GameMode::WinnerTakesAllOneVsOne;
    assert_eq!(
        create_game_session_handler("abc".to_string(), key(1), 0, mode, 0, 0, 0, 0).unwrap_err(),
        WagerError::InvalidBetAmount
    );
    assert_eq!(
        create_game_session_handler("abc".to_string(), key(1), 999, mode, 0, 0, 0, 0).unwrap_err(),
        WagerError::BetAmountTooLow
    );
    assert_eq!(
        create_game_session_handler(
            "abc".to_string(),
            key(1),
            1_000_000_000_001,
            mode,
            0,
            0,
            0,
            0
        )
        .unwrap_err(),
        WagerError::BetAmountTooHigh
    );
    assert_eq!(
        create_game_session_handler("abc".to_string(), key(1), 1000, mode, i64::MAX, 0, 0, 0)
            .unwrap_err(),
        WagerError::ArithmeticError
    );
    let s = create_game_session_handler("abc".to_string(), key(1), 1000, mode, 50, 1, 2, 3)
        .unwrap();
    assert_eq!(s.status, GameStatus::WaitingForPlayers);
    assert_eq!(s.expires_at, 50 + SESSION_TIMEOUT_SECONDS);
    // creation takes the per-purchase grant from the mode's default
    assert_eq!(s.spawns_per_purchase, 1);
    let pooled = create_game_session_handler(
        "abc".to_string(),
        key(1),
        1000,
        GameMode::PayToSpawnThreeVsThree,
        50,
        1,
        2,
        3,
    )
    .unwrap();
    assert_eq!(pooled.spawns_per_purchase, 10);
}

#[test]
fn test_extend_session_rules() {
    let auth = key(9);
    let mut s = create_game_session_handler(
        "abc".to_string(),
        auth,
        1000,
        GameMode::WinnerTakesAllOneVsOne,
        0,
        0,
        0,
        0,
    )
    .unwrap();
    let base = s.expires_at;
    assert_eq!(
        extend_session_handler(&mut s, key(8), 3600),
        Err(WagerError::UnauthorizedAction)
    );
    assert_eq!(
        extend_session_handler(&mut s, auth, 0),
        Err(WagerError::InvalidExtensionTime)
    );
    assert_eq!(
        extend_session_handler(&mut s, auth, -3600),
        Err(WagerError::InvalidExtensionTime)
    );
    assert_eq!(
        extend_session_handler(&mut s, auth, 86401),
        Err(WagerError::InvalidExtensionTime)
    );
    assert_eq!(extend_session_handler(&mut s, auth, 3600), Ok(()));
    assert_eq!(s.expires_at, base + 3600);
    assert_eq!(extend_session_handler(&mut s, auth, 7200), Ok(()));
    assert_eq!(s.expires_at, base + 3600 + 7200);
    assert_eq!(extend_session_handler(&mut s, auth, 21600), Ok(()));
    assert_eq!(s.expires_at, base + 3600 + 7200 + 21600);
    s.status = GameStatus::Completed;
    assert_eq!(
        extend_session_handler(&mut s, auth, 3600),
        Err(WagerError::InvalidGameState)
    );
}
