use wager_core::distribute_winnings::{
    cancel_distribution, complete_all_winnings_distribution, distribute_all_winnings_handler,
    distribute_pay_spawn_earnings, finish_pay_spawn_distribution, get_distribution_summary,
    DistributionSummary, EARNINGS_DIVISOR,
};
use wager_core::errors::WagerError;
use wager_core::state::{GameMode, GameSession, GameStatus, Pubkey, Team};

fn key(value: u64) -> Pubkey {
    Pubkey { value }
}

fn team(players: [u64; 5], spawns: [u16; 5], kills: [u16; 5], total_bet: u64) -> Team {
    Team {
        players: players.iter().map(|v| Pubkey { value: *v }).collect(),
        total_bet,
        player_spawns: spawns.to_vec(),
        player_kills: kills.to_vec(),
    }
}

fn session(mode: GameMode, bet: u64, status: GameStatus, team_a: Team, team_b: Team) -> GameSession {
    GameSession {
        session_id: "session_1".to_string(),
        authority: key(1),
        session_bet: bet,
        game_mode: mode,
        team_a,
        team_b,
        status,
        created_at: 0,
        expires_at: 1_000_000,
        spawns_per_purchase: 10,
        bump: 0,
        vault_bump: 0,
        vault_token_bump: 0,
    }
}

/// Three players with kills+spawns of 0, 5 and 15 at a bet of 1000.
fn pooled_scenario() -> GameSession {
    session(
        GameMode::PayToSpawnThreeVsThree,
        1000,
        GameStatus::InProgress,
        team(
            [10, 11, 12, 0, 0],
            [0, 5, 10, 0, 0],
            [0, 0, 5, 0, 0],
            3000,
        ),
        Team::default(),
    )
}

#[test]
fn test_earnings_calculation() {
    let kills_and_spawns = 15u16;
    let session_bet = 1000u64;

    let earnings = (kills_and_spawns as u64)
        .checked_mul(session_bet)
        .and_then(|x| x.checked_div(EARNINGS_DIVISOR))
        .unwrap();

    assert_eq!(earnings, 1500); // 15 * 1000 / 10 = 1500
}

#[test]
fn test_earnings_overflow_protection() {
    let kills_and_spawns = u16::MAX;
    let session_bet = u64::MAX;

    let earnings = (kills_and_spawns as u64)
        .checked_mul(session_bet)
        .and_then(|x| x.checked_div(EARNINGS_DIVISOR));

    assert!(earnings.is_none()); // Should overflow and return None
}

#[test]
fn test_winner_amount_calculation() {
    let session_bet = 1000u64;
    let winning_amount = session_bet.checked_mul(2).unwrap();
    assert_eq!(winning_amount, 2000);
}

#[test]
fn test_pooled_distribution_amounts_and_solvency() {
    let s = pooled_scenario();
    // earnings per player: 0 (skipped), 500, 1500; the total of 2000 must be
    // covered in full before any transfer, or the whole call fails
    assert_eq!(
        distribute_pay_spawn_earnings(&s, key(1), 100, 1999),
        Err(WagerError::InsufficientVaultBalance)
    );
    let payouts = distribute_pay_spawn_earnings(&s, key(1), 100, 2000).unwrap();
    assert_eq!(payouts, vec![(key(11), 500), (key(12), 1500)]);
}

#[test]
fn test_pooled_distribution_validation() {
    let s = pooled_scenario();
    assert_eq!(
        distribute_pay_spawn_earnings(&s, key(2), 100, 10_000),
        Err(WagerError::UnauthorizedDistribution)
    );
    assert_eq!(
        distribute_pay_spawn_earnings(&s, key(1), s.expires_at, 10_000),
        Err(WagerError::GameSessionExpired)
    );
    let mut wrong_status = pooled_scenario();
    wrong_status.status = GameStatus::WaitingForPlayers;
    assert_eq!(
        distribute_pay_spawn_earnings(&wrong_status, key(1), 100, 10_000),
        Err(WagerError::InvalidGameState)
    );
    let wta = session(
        GameMode::WinnerTakesAllThreeVsThree,
        1000,
        GameStatus::InProgress,
        Team::default(),
        Team::default(),
    );
    assert_eq!(
        distribute_pay_spawn_earnings(&wta, key(1), 100, 10_000),
        Err(WagerError::InvalidGameMode)
    );
    let mut overflowing = pooled_scenario();
    overflowing.session_bet = u64::MAX;
    assert_eq!(
        distribute_pay_spawn_earnings(&overflowing, key(1), 100, 10_000),
        Err(WagerError::ArithmeticError)
    );
}

#[test]
fn test_pooled_recomputation_is_idempotent() {
    let s = pooled_scenario();
    let first = distribute_pay_spawn_earnings(&s, key(1), 100, 10_000).unwrap();
    let second = distribute_pay_spawn_earnings(&s, key(1), 100, 10_000).unwrap();
    assert_eq!(first, second);
}

#[test]
fn test_pooled_partial_failure_policy() {
    // more than half of the attempted payees failing fails the whole call,
    // leaving the status untouched
    let mut s = pooled_scenario();
    assert_eq!(
        finish_pay_spawn_distribution(&mut s, key(1), 3, 2),
        Err(WagerError::DistributionPartialFailure)
    );
    assert_eq!(s.status, GameStatus::InProgress);
    // exactly half is tolerated, and the session completes
    assert_eq!(finish_pay_spawn_distribution(&mut s, key(1), 2, 1), Ok(()));
    assert_eq!(s.status, GameStatus::Completed);
    // an empty payee set completes immediately
    let mut empty = pooled_scenario();
    assert_eq!(finish_pay_spawn_distribution(&mut empty, key(1), 0, 0), Ok(()));
    assert_eq!(empty.status, GameStatus::Completed);
    // and only the authority may finish
    let mut other = pooled_scenario();
    assert_eq!(
        finish_pay_spawn_distribution(&mut other, key(2), 0, 0),
        Err(WagerError::UnauthorizedDistribution)
    );
}

/// Two active winners at a bet of 1000: 2000 each, 4000 in total.
fn winner_scenario() -> GameSession {
    session(
        GameMode::WinnerTakesAllThreeVsThree,
        1000,
        GameStatus::Completed,
        team([10, 11, 0, 0, 0], [0, 0, 0, 0, 0], [3, 2, 0, 0, 0], 2000),
        team([20, 21, 22, 0, 0], [0, 0, 0, 0, 0], [1, 0, 0, 0, 0], 3000),
    )
}

#[test]
fn test_winner_takes_all_amounts_and_solvency() {
    let s = winner_scenario();
    let (winners, per_winner) = distribute_all_winnings_handler(&s, key(1), 100, 0, 4000).unwrap();
    assert_eq!(winners, vec![key(10), key(11)]);
    assert_eq!(per_winner, 2000);
    assert_eq!(
        distribute_all_winnings_handler(&s, key(1), 100, 0, 3999),
        Err(WagerError::InsufficientVaultBalance)
    );
}

#[test]
fn test_winner_takes_all_full_success_distributes() {
    let mut s = winner_scenario();
    let (winners, per_winner) =
        distribute_all_winnings_handler(&s, key(1), 100, 0, 4000).unwrap();
    // the caller executes one transfer per winner; all succeed here
    let mut paid = 0u64;
    for _w in &winners {
        paid += per_winner;
    }
    assert_eq!(paid, 4000);
    assert_eq!(complete_all_winnings_distribution(&mut s, key(1)), Ok(()));
    assert_eq!(s.status, GameStatus::Distributed);
    // a second completion is rejected
    assert_eq!(
        complete_all_winnings_distribution(&mut s, key(1)),
        Err(WagerError::InvalidGameState)
    );
}

#[test]
fn test_winner_takes_all_aborts_on_transfer_failure() {
    let mut s = winner_scenario();
    let (winners, per_winner) =
        distribute_all_winnings_handler(&s, key(1), 100, 0, 4000).unwrap();
    // the first transfer succeeds, the second fails: the caller propagates
    // the failure without completing, and the session stays completed
    let mut outcome: Result<(), WagerError> = Ok(());
    for (i, _w) in winners.iter().enumerate() {
        if i == 1 {
            outcome = Err(WagerError::TokenTransferFailed);
            break;
        }
    }
    assert_eq!(outcome, Err(WagerError::TokenTransferFailed));
    assert_eq!(per_winner, 2000);
    assert_eq!(s.status, GameStatus::Completed);
}

#[test]
fn test_winner_takes_all_validation() {
    let s = winner_scenario();
    assert_eq!(
        distribute_all_winnings_handler(&s, key(2), 100, 0, 4000),
        Err(WagerError::UnauthorizedDistribution)
    );
    assert_eq!(
        distribute_all_winnings_handler(&s, key(1), 100, 2, 4000),
        Err(WagerError::InvalidWinningTeam)
    );
    assert_eq!(
        distribute_all_winnings_handler(&s, key(1), s.expires_at, 0, 4000),
        Err(WagerError::GameSessionExpired)
    );
    let mut in_progress = winner_scenario();
    in_progress.status = GameStatus::InProgress;
    assert_eq!(
        distribute_all_winnings_handler(&in_progress, key(1), 100, 0, 4000),
        Err(WagerError::InvalidGameState)
    );
    let mut no_winners = winner_scenario();
    no_winners.team_a = Team::default();
    assert_eq!(
        distribute_all_winnings_handler(&no_winners, key(1), 100, 0, 4000),
        Err(WagerError::NoActiveWinners)
    );
    let pooled = pooled_scenario();
    let mut pooled_completed = pooled;
    pooled_completed.status = GameStatus::Completed;
    assert_eq!(
        distribute_all_winnings_handler(&pooled_completed, key(1), 100, 0, 4000),
        Err(WagerError::InvalidGameMode)
    );
}

#[test]
fn test_cancel_distribution_rules() {
    // cancellation is only reachable before the contest starts
    let mut waiting = winner_scenario();
    waiting.status = GameStatus::WaitingForPlayers;
    assert_eq!(
        cancel_distribution(&mut waiting, key(2)),
        Err(WagerError::UnauthorizedDistribution)
    );
    assert_eq!(cancel_distribution(&mut waiting, key(1)), Ok(()));
    assert_eq!(waiting.status, GameStatus::Cancelled);
    // once distribution can run, a cancellation is never accepted
    let mut completed = winner_scenario();
    assert_eq!(
        cancel_distribution(&mut completed, key(1)),
        Err(WagerError::InvalidGameState)
    );
    assert_eq!(completed.status, GameStatus::Completed);
    let mut in_progress = winner_scenario();
    in_progress.status = GameStatus::InProgress;
    assert_eq!(
        cancel_distribution(&mut in_progress, key(1)),
        Err(WagerError::InvalidGameState)
    );
    let mut distributed = winner_scenario();
    distributed.status = GameStatus::Distributed;
    assert_eq!(
        cancel_distribution(&mut distributed, key(1)),
        Err(WagerError::AlreadyDistributed)
    );
}

#[test]
fn test_distribution_summary() {
    let pooled = pooled_scenario();
    assert_eq!(
        get_distribution_summary(&pooled),
        Ok(DistributionSummary::PayToSpawn {
            eligible_players: 2,
            total_earnings: 2000,
        })
    );
    let wta = winner_scenario();
    assert_eq!(
        get_distribution_summary(&wta),
        Ok(DistributionSummary::WinnerTakesAll {
            winning_amount_per_player: 2000,
            total_distribution: 6000,
        })
    );
    // the summary saturates instead of failing on amount overflow
    let mut huge = winner_scenario();
    huge.session_bet = u64::MAX;
    assert_eq!(
        get_distribution_summary(&huge),
        Ok(DistributionSummary::WinnerTakesAll {
            winning_amount_per_player: u64::MAX,
            total_distribution: u64::MAX,
        })
    );
}
