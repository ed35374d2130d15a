//! The distribution engine: pooled pay-to-spawn earnings and binary
//! winner-takes-all payouts.
//!
//! Both algorithms recompute the required payouts from the current ledgers
//! on every call and verify solvency against the escrow balance the caller
//! read, before any transfer is attempted. The transfers themselves are the
//! boundary's atomic primitive; the caller reports their outcomes back, and
//! the outcome functions here apply the partial-failure policy and the
//! final status transition.

use vstd::prelude::*;

use crate::errors::WagerError;
use crate::state::{GameSession, GameStatus, Pubkey, Team};

verus! {

/// Pooled earnings are one tenth of a player's score times the bet.
pub const EARNINGS_DIVISOR: u64 = 10;

/// A slot's score: recorded kills plus remaining spawns.
pub open spec fn spec_slot_score(t: Team, i: int) -> int {
    t.player_kills@[i] + t.player_spawns@[i]
}

/// A slot's pooled earnings: floor(score * bet / 10), as a mathematical
/// integer.
pub open spec fn spec_slot_earnings(t: Team, bet: u64, i: int) -> int {
    (spec_slot_score(t, i) * bet) / (EARNINGS_DIVISOR as int)
}

/// Every occupied slot below `n` passes the checked arithmetic of the
/// earnings computation: its score fits a 16-bit counter and the gross
/// product fits 64 bits.
pub open spec fn spec_team_arith_ok(t: Team, bet: u64, n: int) -> bool {
    forall|i: int|
        0 <= i < n && t.spec_occupied(i) ==> spec_slot_score(t, i) <= u16::MAX
            && #[trigger] spec_slot_score(t, i) * bet <= u64::MAX
}

/// The pooled payouts owed by the first `n` slots of one ledger, in slot
/// order: each occupied slot with positive earnings contributes one entry.
pub open spec fn spec_team_payouts(t: Team, bet: u64, n: int) -> Seq<(Pubkey, u64)>
    decreases n,
{
    if n <= 0 {
        Seq::empty()
    } else {
        let prev = spec_team_payouts(t, bet, n - 1);
        if t.spec_occupied(n - 1) && spec_slot_earnings(t, bet, n - 1) > 0 {
            prev.push((t.players@[n - 1], spec_slot_earnings(t, bet, n - 1) as u64))
        } else {
            prev
        }
    }
}

/// The full pooled payout list of a session: team A's entries, then team
/// B's.
pub open spec fn spec_session_payouts(s: GameSession) -> Seq<(Pubkey, u64)> {
    spec_team_payouts(s.team_a, s.session_bet, s.cap()) + spec_team_payouts(
        s.team_b,
        s.session_bet,
        s.cap(),
    )
}

/// Both ledgers pass the checked earnings arithmetic.
pub open spec fn spec_session_arith_ok(s: GameSession) -> bool {
    spec_team_arith_ok(s.team_a, s.session_bet, s.cap()) && spec_team_arith_ok(
        s.team_b,
        s.session_bet,
        s.cap(),
    )
}

/// The sum of a payout list's amounts, as a mathematical integer.
pub open spec fn spec_payout_total(p: Seq<(Pubkey, u64)>) -> int
    decreases p.len(),
{
    if p.len() == 0 {
        0
    } else {
        spec_payout_total(p.drop_last()) + p.last().1
    }
}

/// A payout total is never negative.
pub proof fn lemma_payout_total_nonneg(p: Seq<(Pubkey, u64)>)
    ensures
        spec_payout_total(p) >= 0,
    decreases p.len(),
{
    if p.len() > 0 {
        lemma_payout_total_nonneg(p.drop_last());
    }
}

/// A payout total distributes over concatenation.
pub proof fn lemma_payout_total_concat(a: Seq<(Pubkey, u64)>, b: Seq<(Pubkey, u64)>)
    ensures
        spec_payout_total(a + b) == spec_payout_total(a) + spec_payout_total(b),
    decreases b.len(),
{
    if b.len() == 0 {
        assert(a + b =~= a);
    } else {
        assert((a + b).drop_last() =~= a + b.drop_last());
        lemma_payout_total_concat(a, b.drop_last());
    }
}

/// Scanning more slots never lowers a team's payout total.
pub proof fn lemma_team_payout_total_monotone(t: Team, bet: u64, m: int, n: int)
    requires
        0 <= m <= n,
    ensures
        spec_payout_total(spec_team_payouts(t, bet, m)) <= spec_payout_total(
            spec_team_payouts(t, bet, n),
        ),
    decreases n,
{
    if n > m {
        lemma_team_payout_total_monotone(t, bet, m, n - 1);
        let prev = spec_team_payouts(t, bet, n - 1);
        if t.spec_occupied(n - 1) && spec_slot_earnings(t, bet, n - 1) > 0 {
            let x = (t.players@[n - 1], spec_slot_earnings(t, bet, n - 1) as u64);
            assert(prev.push(x).drop_last() =~= prev);
        }
    }
}

/// Pooled payouts are a function of the rosters, the counters and the bet
/// alone: recomputing against an unchanged ledger yields the identical
/// per-player amounts.
pub proof fn lemma_team_payouts_determined(t1: Team, t2: Team, bet: u64, n: int)
    requires
        t1.players@ == t2.players@,
        t1.player_kills@ == t2.player_kills@,
        t1.player_spawns@ == t2.player_spawns@,
    ensures
        spec_team_payouts(t1, bet, n) == spec_team_payouts(t2, bet, n),
    decreases n,
{
    if n > 0 {
        lemma_team_payouts_determined(t1, t2, bet, n - 1);
    }
}

/// Idempotent recomputation: two sessions whose ledgers, mode and bet agree
/// owe the identical pooled payout list, entry for entry.
pub proof fn lemma_pooled_payouts_deterministic(s1: GameSession, s2: GameSession)
    requires
        s1.team_a.players@ == s2.team_a.players@,
        s1.team_a.player_kills@ == s2.team_a.player_kills@,
        s1.team_a.player_spawns@ == s2.team_a.player_spawns@,
        s1.team_b.players@ == s2.team_b.players@,
        s1.team_b.player_kills@ == s2.team_b.player_kills@,
        s1.team_b.player_spawns@ == s2.team_b.player_spawns@,
        s1.session_bet == s2.session_bet,
        s1.game_mode == s2.game_mode,
    ensures
        spec_session_payouts(s1) == spec_session_payouts(s2),
{
    lemma_team_payouts_determined(s1.team_a, s2.team_a, s1.session_bet, s1.cap());
    lemma_team_payouts_determined(s1.team_b, s2.team_b, s1.session_bet, s1.cap());
}

/// The first error the pooled payout computation hits, if any: an
/// unauthorized caller, expiration, a wrong status, a mode without pooled
/// earnings, overflowing arithmetic, or an escrow too small for the total.
pub open spec fn spec_pay_spawn_err(
    s: GameSession,
    caller: Pubkey,
    now: i64,
    vault_balance: u64,
) -> Option<WagerError> {
    if caller != s.authority {
        Some(WagerError::UnauthorizedDistribution)
    } else if s.spec_is_expired(now) {
        Some(WagerError::GameSessionExpired)
    } else if s.status != GameStatus::InProgress && s.status != GameStatus::Completed {
        Some(WagerError::InvalidGameState)
    } else if !s.game_mode.spec_is_pay_to_spawn() {
        Some(WagerError::InvalidGameMode)
    } else if !spec_session_arith_ok(s) {
        Some(WagerError::ArithmeticError)
    } else if spec_payout_total(spec_session_payouts(s)) > u64::MAX {
        Some(WagerError::ArithmeticError)
    } else if spec_payout_total(spec_session_payouts(s)) > vault_balance {
        Some(WagerError::InsufficientVaultBalance)
    } else {
        None
    }
}

/// Computes the pooled pay-to-spawn payout snapshot: for every occupied
/// slot, earnings of floor((kills + spawns) * bet / 10), skipping zero
/// earners, with every addition and multiplication overflow-checked, and
/// the whole call failing before any transfer if the escrow balance cannot
/// cover the total. The caller then attempts each listed transfer and
/// reports the outcome to `finish_pay_spawn_distribution`.
pub fn distribute_pay_spawn_earnings(
    session: &GameSession,
    caller: Pubkey,
    now: i64,
    vault_balance: u64,
) -> (r: Result<Vec<(Pubkey, u64)>, WagerError>)
    requires
        session.wf(),
    ensures
        match r {
            Ok(p) => {
                &&& spec_pay_spawn_err(*session, caller, now, vault_balance) is None
                &&& p@ == spec_session_payouts(*session)
                &&& spec_payout_total(p@) <= vault_balance
            },
            Err(e) => spec_pay_spawn_err(*session, caller, now, vault_balance) == Some(e),
        },
        r is Ok <==> spec_pay_spawn_err(*session, caller, now, vault_balance) is None,
{
    if !(caller == session.authority) {
        return Err(WagerError::UnauthorizedDistribution);
    }
    if session.is_expired(now) {
        return Err(WagerError::GameSessionExpired);
    }
    if !(session.status == GameStatus::InProgress || session.status == GameStatus::Completed) {
        return Err(WagerError::InvalidGameState);
    }
    if !session.is_pay_to_spawn() {
        return Err(WagerError::InvalidGameMode);
    }
    let player_count = session.game_mode.players_per_team();
    let bet = session.session_bet;
    let ghost cap = session.cap();
    let mut payouts: Vec<(Pubkey, u64)> = Vec::new();
    let mut total: u64 = 0;
    let mut i: usize = 0;
    while i < player_count
        invariant
            session.wf(),
            caller == session.authority,
            !session.spec_is_expired(now),
            session.status == GameStatus::InProgress || session.status == GameStatus::Completed,
            session.game_mode.spec_is_pay_to_spawn(),
            bet == session.session_bet,
            cap == session.cap(),
            player_count as int == cap,
            player_count <= crate::state::MAX_PLAYERS_PER_TEAM,
            i <= player_count,
            payouts@ == spec_team_payouts(session.team_a, bet, i as int),
            total as int == spec_payout_total(payouts@),
            spec_team_arith_ok(session.team_a, bet, i as int),
        decreases player_count - i,
    {
        if session.team_a.players[i].value != 0 {
            let score = match session.team_a.player_kills[i].checked_add(
                session.team_a.player_spawns[i],
            ) {
                Some(v) => v,
                None => {
                    assert(!spec_team_arith_ok(session.team_a, bet, cap)) by {
                        assert(session.team_a.spec_occupied(i as int) && spec_slot_score(
                            session.team_a,
                            i as int,
                        ) * bet >= 0);
                    }
                    return Err(WagerError::ArithmeticError);
                },
            };
            let gross = match (score as u64).checked_mul(bet) {
                Some(v) => v,
                None => {
                    assert(!spec_team_arith_ok(session.team_a, bet, cap)) by {
                        assert(session.team_a.spec_occupied(i as int));
                        assert(spec_slot_score(session.team_a, i as int) * bet > u64::MAX);
                    }
                    return Err(WagerError::ArithmeticError);
                },
            };
            let earnings = gross / EARNINGS_DIVISOR;
            if earnings > 0 {
                let entry = (session.team_a.players[i], earnings);
                let new_total = match total.checked_add(earnings) {
                    Some(v) => v,
                    None => {
                        proof {
                            let next = spec_team_payouts(session.team_a, bet, i + 1);
                            assert(next == payouts@.push(entry));
                            assert(next.drop_last() =~= payouts@);
                            assert(spec_payout_total(next) > u64::MAX);
                            lemma_team_payout_total_monotone(session.team_a, bet, i + 1, cap);
                            lemma_payout_total_concat(
                                spec_team_payouts(session.team_a, bet, cap),
                                spec_team_payouts(session.team_b, bet, cap),
                            );
                            lemma_payout_total_nonneg(spec_team_payouts(session.team_b, bet, cap));
                        }
                        return Err(WagerError::ArithmeticError);
                    },
                };
                proof {
                    let next = spec_team_payouts(session.team_a, bet, i + 1);
                    assert(next == payouts@.push(entry));
                    assert(next.drop_last() =~= payouts@);
                }
                payouts.push(entry);
                total = new_total;
            }
        }
        i = i + 1;
    }
    let ghost payouts_a = spec_team_payouts(session.team_a, bet, cap);
    let mut j: usize = 0;
    while j < player_count
        invariant
            session.wf(),
            caller == session.authority,
            !session.spec_is_expired(now),
            session.status == GameStatus::InProgress || session.status == GameStatus::Completed,
            session.game_mode.spec_is_pay_to_spawn(),
            bet == session.session_bet,
            cap == session.cap(),
            player_count as int == cap,
            player_count <= crate::state::MAX_PLAYERS_PER_TEAM,
            j <= player_count,
            payouts_a == spec_team_payouts(session.team_a, bet, cap),
            spec_team_arith_ok(session.team_a, bet, cap),
            payouts@ == payouts_a + spec_team_payouts(session.team_b, bet, j as int),
            total as int == spec_payout_total(payouts@),
            spec_team_arith_ok(session.team_b, bet, j as int),
        decreases player_count - j,
    {
        if session.team_b.players[j].value != 0 {
            let score = match session.team_b.player_kills[j].checked_add(
                session.team_b.player_spawns[j],
            ) {
                Some(v) => v,
                None => {
                    assert(!spec_team_arith_ok(session.team_b, bet, cap)) by {
                        assert(session.team_b.spec_occupied(j as int) && spec_slot_score(
                            session.team_b,
                            j as int,
                        ) * bet >= 0);
                    }
                    return Err(WagerError::ArithmeticError);
                },
            };
            let gross = match (score as u64).checked_mul(bet) {
                Some(v) => v,
                None => {
                    assert(!spec_team_arith_ok(session.team_b, bet, cap)) by {
                        assert(session.team_b.spec_occupied(j as int));
                        assert(spec_slot_score(session.team_b, j as int) * bet > u64::MAX);
                    }
                    return Err(WagerError::ArithmeticError);
                },
            };
            let earnings = gross / EARNINGS_DIVISOR;
            if earnings > 0 {
                let entry = (session.team_b.players[j], earnings);
                let ghost prev_b = spec_team_payouts(session.team_b, bet, j as int);
                let new_total = match total.checked_add(earnings) {
                    Some(v) => v,
                    None => {
                        proof {
                            let next_b = spec_team_payouts(session.team_b, bet, j + 1);
                            assert(next_b == prev_b.push(entry));
                            lemma_payout_total_concat(payouts_a, prev_b);
                            assert(next_b.drop_last() =~= prev_b);
                            assert(spec_payout_total(next_b) == spec_payout_total(prev_b)
                                + entry.1);
                            lemma_team_payout_total_monotone(session.team_b, bet, j + 1, cap);
                            lemma_payout_total_concat(
                                payouts_a,
                                spec_team_payouts(session.team_b, bet, cap),
                            );
                            lemma_payout_total_nonneg(payouts_a);
                        }
                        return Err(WagerError::ArithmeticError);
                    },
                };
                proof {
                    let next_b = spec_team_payouts(session.team_b, bet, j + 1);
                    assert(next_b == prev_b.push(entry));
                    assert(payouts_a + next_b =~= (payouts_a + prev_b).push(entry));
                    assert((payouts_a + prev_b).push(entry).drop_last() =~= payouts_a + prev_b);
                }
                payouts.push(entry);
                total = new_total;
            } else {
                proof {
                    assert(payouts_a + spec_team_payouts(session.team_b, bet, j + 1) =~= payouts@);
                }
            }
        } else {
            proof {
                assert(payouts_a + spec_team_payouts(session.team_b, bet, j + 1) =~= payouts@);
            }
        }
        j = j + 1;
    }
    if total > vault_balance {
        return Err(WagerError::InsufficientVaultBalance);
    }
    Ok(payouts)
}

/// The first error the pooled outcome step hits, if any.
pub open spec fn spec_finish_pay_spawn_err(
    s: GameSession,
    caller: Pubkey,
    attempted: int,
    failed: int,
) -> Option<WagerError> {
    if caller != s.authority {
        Some(WagerError::UnauthorizedDistribution)
    } else if s.status != GameStatus::InProgress && s.status != GameStatus::Completed {
        Some(WagerError::InvalidGameState)
    } else if 2 * failed > attempted {
        Some(WagerError::DistributionPartialFailure)
    } else {
        None
    }
}

/// Applies the pooled partial-failure policy after the caller attempted the
/// snapshot's transfers: when more than half of the attempted payees
/// failed, the whole call fails with a partial-failure fault and the status
/// is left unchanged (successful transfers stand, to be reconciled
/// out-of-band); otherwise the session is marked completed, failed payees'
/// funds staying in escrow for an identical recomputation on retry. With no
/// payees at all the session is simply marked completed.
pub fn finish_pay_spawn_distribution(
    session: &mut GameSession,
    caller: Pubkey,
    attempted: usize,
    failed: usize,
) -> (r: Result<(), WagerError>)
    ensures
        match r {
            Ok(()) => {
                &&& spec_finish_pay_spawn_err(*old(session), caller, attempted as int, failed as int)
                    is None
                &&& final(session).status == GameStatus::Completed
                &&& final(session).same_identity(*old(session))
                &&& final(session).expires_at == old(session).expires_at
                &&& final(session).spawns_per_purchase == old(session).spawns_per_purchase
                &&& final(session).team_a == old(session).team_a
                &&& final(session).team_b == old(session).team_b
            },
            Err(e) => {
                &&& *final(session) == *old(session)
                &&& spec_finish_pay_spawn_err(*old(session), caller, attempted as int, failed as int)
                    == Some(e)
            },
        },
{
    if !(caller == session.authority) {
        return Err(WagerError::UnauthorizedDistribution);
    }
    if !(session.status == GameStatus::InProgress || session.status == GameStatus::Completed) {
        return Err(WagerError::InvalidGameState);
    }
    if failed > attempted / 2 {
        return Err(WagerError::DistributionPartialFailure);
    }
    session.status = GameStatus::Completed;
    Ok(())
}

/// The first error the winner-takes-all payout computation hits, if any.
pub open spec fn spec_all_winnings_err(
    s: GameSession,
    caller: Pubkey,
    now: i64,
    winning_team: u8,
    vault_balance: u64,
) -> Option<WagerError> {
    let winners = s.spec_team(winning_team).spec_roster(s.cap());
    if s.spec_is_expired(now) {
        Some(WagerError::GameSessionExpired)
    } else if s.status != GameStatus::Completed {
        Some(WagerError::InvalidGameState)
    } else if s.game_mode.spec_is_pay_to_spawn() {
        Some(WagerError::InvalidGameMode)
    } else if caller != s.authority {
        Some(WagerError::UnauthorizedDistribution)
    } else if winning_team > 1 {
        Some(WagerError::InvalidWinningTeam)
    } else if winners.len() == 0 {
        Some(WagerError::NoActiveWinners)
    } else if 2 * s.session_bet > u64::MAX {
        Some(WagerError::ArithmeticError)
    } else if 2 * s.session_bet * winners.len() > u64::MAX {
        Some(WagerError::ArithmeticError)
    } else if 2 * s.session_bet * winners.len() > vault_balance {
        Some(WagerError::InsufficientVaultBalance)
    } else {
        None
    }
}

/// Computes the winner-takes-all payout: the winning team's occupied slots
/// in order and twice the session bet per winner, with overflow-checked
/// multiplication, failing before any transfer if the escrow balance cannot
/// cover the whole payout. The caller must validate every winner's payout
/// destination before executing any transfer, execute the transfers
/// sequentially aborting on the first failure, and on full success call
/// `complete_all_winnings_distribution`.
pub fn distribute_all_winnings_handler(
    session: &GameSession,
    caller: Pubkey,
    now: i64,
    winning_team: u8,
    vault_balance: u64,
) -> (r: Result<(Vec<Pubkey>, u64), WagerError>)
    requires
        session.wf(),
    ensures
        match r {
            Ok((winners, per_winner)) => {
                &&& spec_all_winnings_err(*session, caller, now, winning_team, vault_balance)
                    is None
                &&& winning_team <= 1
                &&& winners@ == session.spec_team(winning_team).spec_roster(session.cap())
                &&& winners@.len() > 0
                &&& per_winner == 2 * session.session_bet
                &&& per_winner * winners@.len() <= vault_balance
            },
            Err(e) => spec_all_winnings_err(*session, caller, now, winning_team, vault_balance)
                == Some(e),
        },
        r is Ok <==> spec_all_winnings_err(*session, caller, now, winning_team, vault_balance)
            is None,
{
    if session.is_expired(now) {
        return Err(WagerError::GameSessionExpired);
    }
    if !(session.status == GameStatus::Completed) {
        return Err(WagerError::InvalidGameState);
    }
    if session.is_pay_to_spawn() {
        return Err(WagerError::InvalidGameMode);
    }
    if !(caller == session.authority) {
        return Err(WagerError::UnauthorizedDistribution);
    }
    if winning_team > 1 {
        return Err(WagerError::InvalidWinningTeam);
    }
    let player_count = session.game_mode.players_per_team();
    let ghost cap = session.cap();
    let mut active_winners: Vec<Pubkey> = Vec::new();
    let mut i: usize = 0;
    while i < player_count
        invariant
            session.wf(),
            winning_team <= 1,
            cap == session.cap(),
            player_count as int == cap,
            player_count <= crate::state::MAX_PLAYERS_PER_TEAM,
            i <= player_count,
            active_winners@ == session.spec_team(winning_team).spec_roster(i as int),
        decreases player_count - i,
    {
        let p = if winning_team == 0 {
            session.team_a.players[i]
        } else {
            session.team_b.players[i]
        };
        if p.value != 0 {
            active_winners.push(p);
        }
        i = i + 1;
    }
    if active_winners.len() == 0 {
        return Err(WagerError::NoActiveWinners);
    }
    let winning_amount_per_player = match session.session_bet.checked_mul(2) {
        Some(v) => v,
        None => {
            return Err(WagerError::ArithmeticError);
        },
    };
    let total_distribution = match winning_amount_per_player.checked_mul(
        active_winners.len() as u64,
    ) {
        Some(v) => v,
        None => {
            return Err(WagerError::ArithmeticError);
        },
    };
    if vault_balance < total_distribution {
        return Err(WagerError::InsufficientVaultBalance);
    }
    Ok((active_winners, winning_amount_per_player))
}

/// Marks a completed winner-takes-all session distributed, after the caller
/// has executed every winner's transfer successfully. On any transfer
/// failure the caller must not call this: it propagates the failure and the
/// session stays completed, since a partial binary payout is never
/// accepted.
pub fn complete_all_winnings_distribution(session: &mut GameSession, caller: Pubkey) -> (r: Result<
    (),
    WagerError,
>)
    ensures
        match r {
            Ok(()) => {
                &&& old(session).authority == caller
                &&& old(session).status == GameStatus::Completed
                &&& final(session).status == GameStatus::Distributed
                &&& final(session).same_identity(*old(session))
                &&& final(session).expires_at == old(session).expires_at
                &&& final(session).spawns_per_purchase == old(session).spawns_per_purchase
                &&& final(session).team_a == old(session).team_a
                &&& final(session).team_b == old(session).team_b
            },
            Err(e) => {
                &&& *final(session) == *old(session)
                &&& if old(session).authority != caller {
                    e == WagerError::UnauthorizedDistribution
                } else {
                    &&& e == WagerError::InvalidGameState
                    &&& old(session).status != GameStatus::Completed
                }
            },
        },
{
    if !(session.authority == caller) {
        return Err(WagerError::UnauthorizedDistribution);
    }
    if !(session.status == GameStatus::Completed) {
        return Err(WagerError::InvalidGameState);
    }
    session.status = GameStatus::Distributed;
    Ok(())
}

/// Cancels a session before any distribution can have begun: only the
/// authority may cancel, and only while the session still waits for
/// players — once it has started, a cancellation is never accepted and the
/// partial-failure policies are the sole recovery for transfers in flight.
pub fn cancel_distribution(session: &mut GameSession, caller: Pubkey) -> (r: Result<
    (),
    WagerError,
>)
    ensures
        match r {
            Ok(()) => {
                &&& old(session).authority == caller
                &&& old(session).status == GameStatus::WaitingForPlayers
                &&& final(session).status == GameStatus::Cancelled
                &&& final(session).same_identity(*old(session))
                &&& final(session).expires_at == old(session).expires_at
                &&& final(session).spawns_per_purchase == old(session).spawns_per_purchase
                &&& final(session).team_a == old(session).team_a
                &&& final(session).team_b == old(session).team_b
            },
            Err(e) => {
                &&& *final(session) == *old(session)
                &&& if old(session).authority != caller {
                    e == WagerError::UnauthorizedDistribution
                } else if old(session).status == GameStatus::Distributed {
                    e == WagerError::AlreadyDistributed
                } else {
                    &&& e == WagerError::InvalidGameState
                    &&& old(session).status != GameStatus::WaitingForPlayers
                }
            },
        },
{
    if !(session.authority == caller) {
        return Err(WagerError::UnauthorizedDistribution);
    }
    if session.status == GameStatus::Distributed {
        return Err(WagerError::AlreadyDistributed);
    }
    if !(session.status == GameStatus::WaitingForPlayers) {
        return Err(WagerError::InvalidGameState);
    }
    session.status = GameStatus::Cancelled;
    Ok(())
}

/// Addition saturating at the largest 64-bit value.
pub open spec fn spec_sat_add(a: int, b: int) -> int {
    if a + b > u64::MAX {
        u64::MAX as int
    } else {
        a + b
    }
}

/// Multiplication saturating at the largest 64-bit value.
pub open spec fn spec_sat_mul(a: int, b: int) -> int {
    if a * b > u64::MAX {
        u64::MAX as int
    } else {
        a * b
    }
}

/// A slot's earnings as the summary computes them: zero when the gross
/// product overflows, instead of an error.
pub open spec fn spec_summary_slot_earnings(t: Team, bet: u64, i: int) -> int {
    if spec_slot_score(t, i) * bet <= u64::MAX {
        spec_slot_earnings(t, bet, i)
    } else {
        0
    }
}

/// Every occupied slot below `n` has a score that fits a 16-bit counter.
pub open spec fn spec_score16_ok(t: Team, n: int) -> bool {
    forall|i: int|
        0 <= i < n && t.spec_occupied(i) ==> #[trigger] spec_slot_score(t, i) <= u16::MAX
}

/// The summary's saturating earnings total over slots `[i, n)` of one
/// ledger, threaded through an accumulator.
pub open spec fn spec_summary_total_from(t: Team, bet: u64, i: int, n: int, acc: int) -> int
    decreases n - i,
{
    if i >= n {
        acc
    } else {
        let e = spec_summary_slot_earnings(t, bet, i);
        let acc2 = if t.spec_occupied(i) && e > 0 {
            spec_sat_add(acc, e)
        } else {
            acc
        };
        spec_summary_total_from(t, bet, i + 1, n, acc2)
    }
}

/// How many of the first `n` slots hold a player with positive summary
/// earnings.
pub open spec fn spec_eligible_upto(t: Team, bet: u64, n: int) -> int
    decreases n,
{
    if n <= 0 {
        0
    } else {
        spec_eligible_upto(t, bet, n - 1) + if t.spec_occupied(n - 1)
            && spec_summary_slot_earnings(t, bet, n - 1) > 0 {
            1int
        } else {
            0int
        }
    }
}

/// What a distribution would pay, computed without moving anything.
#[derive(Clone, Copy, PartialEq, Eq, Structural, Debug)]
pub enum DistributionSummary {
    PayToSpawn { eligible_players: u32, total_earnings: u64 },
    WinnerTakesAll { winning_amount_per_player: u64, total_distribution: u64 },
}

/// Summarizes the pending distribution with no side effect: in pooled modes
/// the eligible payee count and their total earnings (per-player overflow
/// counting as zero, the total saturating); otherwise the per-winner amount
/// and the full-roster total, both saturating.
pub fn get_distribution_summary(session: &GameSession) -> (r: Result<
    DistributionSummary,
    WagerError,
>)
    requires
        session.wf(),
    ensures
        ({
            let cap = session.cap();
            let bet = session.session_bet;
            let total_a = spec_summary_total_from(session.team_a, bet, 0, cap, 0);
            let total_ab = spec_summary_total_from(session.team_b, bet, 0, cap, total_a);
            let eligible = spec_eligible_upto(session.team_a, bet, cap) + spec_eligible_upto(
                session.team_b,
                bet,
                cap,
            );
            let winning = spec_sat_mul(bet as int, 2);
            match r {
                Ok(sum) => {
                    if session.game_mode.spec_is_pay_to_spawn() {
                        &&& spec_score16_ok(session.team_a, cap)
                        &&& spec_score16_ok(session.team_b, cap)
                        &&& sum == (DistributionSummary::PayToSpawn {
                            eligible_players: eligible as u32,
                            total_earnings: total_ab as u64,
                        })
                    } else {
                        sum == (DistributionSummary::WinnerTakesAll {
                            winning_amount_per_player: winning as u64,
                            total_distribution: spec_sat_mul(winning, cap) as u64,
                        })
                    }
                },
                Err(e) => {
                    &&& e == WagerError::ArithmeticError
                    &&& session.game_mode.spec_is_pay_to_spawn()
                    &&& !(spec_score16_ok(session.team_a, cap) && spec_score16_ok(
                        session.team_b,
                        cap,
                    ))
                },
            }
        }),
{
    let player_count = session.game_mode.players_per_team();
    let bet = session.session_bet;
    let ghost cap = session.cap();
    if session.is_pay_to_spawn() {
        let mut total_earnings: u64 = 0;
        let mut eligible_players: u32 = 0;
        let mut i: usize = 0;
        while i < player_count
            invariant
                session.wf(),
                session.game_mode.spec_is_pay_to_spawn(),
                bet == session.session_bet,
                cap == session.cap(),
                player_count as int == cap,
                player_count <= crate::state::MAX_PLAYERS_PER_TEAM,
                i <= player_count,
                spec_score16_ok(session.team_a, i as int),
                spec_summary_total_from(session.team_a, bet, 0, cap, 0)
                    == spec_summary_total_from(
                    session.team_a,
                    bet,
                    i as int,
                    cap,
                    total_earnings as int,
                ),
                eligible_players as int == spec_eligible_upto(session.team_a, bet, i as int),
                eligible_players <= i as u32,
            decreases player_count - i,
        {
            if session.team_a.players[i].value != 0 {
                let score = match session.team_a.player_kills[i].checked_add(
                    session.team_a.player_spawns[i],
                ) {
                    Some(v) => v,
                    None => {
                        assert(!spec_score16_ok(session.team_a, cap)) by {
                            assert(session.team_a.spec_occupied(i as int));
                        }
                        return Err(WagerError::ArithmeticError);
                    },
                };
                let earnings = match (score as u64).checked_mul(bet) {
                    Some(gross) => gross / EARNINGS_DIVISOR,
                    None => 0,
                };
                if earnings > 0 {
                    total_earnings = match total_earnings.checked_add(earnings) {
                        Some(v) => v,
                        None => u64::MAX,
                    };
                    eligible_players = eligible_players + 1;
                }
            }
            i = i + 1;
        }
        let ghost total_a = spec_summary_total_from(session.team_a, bet, 0, cap, 0);
        let ghost eligible_a = spec_eligible_upto(session.team_a, bet, cap);
        let mut j: usize = 0;
        while j < player_count
            invariant
                session.wf(),
                session.game_mode.spec_is_pay_to_spawn(),
                bet == session.session_bet,
                cap == session.cap(),
                player_count as int == cap,
                player_count <= crate::state::MAX_PLAYERS_PER_TEAM,
                j <= player_count,
                spec_score16_ok(session.team_a, cap),
                spec_score16_ok(session.team_b, j as int),
                total_a == spec_summary_total_from(session.team_a, bet, 0, cap, 0),
                eligible_a == spec_eligible_upto(session.team_a, bet, cap),
                spec_summary_total_from(session.team_b, bet, 0, cap, total_a)
                    == spec_summary_total_from(
                    session.team_b,
                    bet,
                    j as int,
                    cap,
                    total_earnings as int,
                ),
                eligible_players as int == eligible_a + spec_eligible_upto(
                    session.team_b,
                    bet,
                    j as int,
                ),
                eligible_players as int <= cap + j as int,
            decreases player_count - j,
        {
            if session.team_b.players[j].value != 0 {
                let score = match session.team_b.player_kills[j].checked_add(
                    session.team_b.player_spawns[j],
                ) {
                    Some(v) => v,
                    None => {
                        assert(!spec_score16_ok(session.team_b, cap)) by {
                            assert(session.team_b.spec_occupied(j as int));
                        }
                        return Err(WagerError::ArithmeticError);
                    },
                };
                let earnings = match (score as u64).checked_mul(bet) {
                    Some(gross) => gross / EARNINGS_DIVISOR,
                    None => 0,
                };
                if earnings > 0 {
                    total_earnings = match total_earnings.checked_add(earnings) {
                        Some(v) => v,
                        None => u64::MAX,
                    };
                    eligible_players = eligible_players + 1;
                }
            }
            j = j + 1;
        }
        Ok(DistributionSummary::PayToSpawn { eligible_players, total_earnings })
    } else {
        let winning_amount = match bet.checked_mul(2) {
            Some(v) => v,
            None => u64::MAX,
        };
        let total_distribution = match winning_amount.checked_mul(player_count as u64) {
            Some(v) => v,
            None => u64::MAX,
        };
        Ok(
            DistributionSummary::WinnerTakesAll {
                winning_amount_per_player: winning_amount,
                total_distribution,
            },
        )
    }
}

} // verus!
