//! Joining and leaving a waiting session, and the session status read.
//!
//! The matching escrow movement is the caller's side of the protocol: a
//! join is preceded by the player's deposit of the session bet, a leave is
//! followed by an equal refund. The ledger mutations here record exactly
//! those amounts.

use vstd::pervasive::VecAdditionalExecFns;
use vstd::prelude::*;

use crate::create_game_session::{get_session_info_handler, SessionInfo};
use crate::errors::WagerError;
use crate::state::{
    spec_other_team, GameSession, GameStatus, Pubkey, Team, MAX_PLAYERS_PER_TEAM,
};

verus! {

/// Smallest bet a session may be joined at.
pub const MIN_BET_AMOUNT: u64 = 1_000;

/// Largest bet a session may be joined at: the same bound creation
/// enforces, so every session this library creates is joinable.
pub const MAX_BET_AMOUNT: u64 = 1_000_000_000_000;

/// The two ledger values agree observably: same roster, counters and pool
/// total.
pub open spec fn team_unchanged(pre: Team, post: Team) -> bool {
    &&& post.players@ == pre.players@
    &&& post.player_spawns@ == pre.player_spawns@
    &&& post.player_kills@ == pre.player_kills@
    &&& post.total_bet == pre.total_bet
}

/// Adding a fresh player at a free slot below capacity preserves the
/// session invariant.
pub proof fn lemma_inv_preserved_by_join(
    pre: GameSession,
    post: GameSession,
    team: u8,
    player: Pubkey,
    idx: int,
)
    requires
        pre.inv(),
        post.wf(),
        team <= 1,
        player.value != 0,
        0 <= idx < pre.cap(),
        !pre.team_a.spec_contains(player, pre.cap()),
        !pre.team_b.spec_contains(player, pre.cap()),
        post.game_mode == pre.game_mode,
        post.spec_team(team).players@ == pre.spec_team(team).players@.update(idx, player),
        post.spec_team(team).player_spawns@ == pre.spec_team(team).player_spawns@.update(
            idx,
            pre.game_mode.spec_default_spawn_count(),
        ),
        post.spec_team(team).player_kills@ == pre.spec_team(team).player_kills@.update(idx, 0u16),
        post.spec_team(spec_other_team(team)).players@ == pre.spec_team(
            spec_other_team(team),
        ).players@,
        post.spec_team(spec_other_team(team)).player_spawns@ == pre.spec_team(
            spec_other_team(team),
        ).player_spawns@,
        post.spec_team(spec_other_team(team)).player_kills@ == pre.spec_team(
            spec_other_team(team),
        ).player_kills@,
    ensures
        post.inv(),
{
    let cap = pre.cap();
    assert forall|i: int|
        0 <= i < MAX_PLAYERS_PER_TEAM && !post.team_a.spec_occupied(i)
            implies post.team_a.player_spawns@[i] == 0 && post.team_a.player_kills@[i] == 0 by {
        if team == 0 && i == idx {
            assert(post.team_a.spec_occupied(i));
        } else {
            assert(!pre.team_a.spec_occupied(i));
        }
    }
    assert forall|i: int|
        0 <= i < MAX_PLAYERS_PER_TEAM && !post.team_b.spec_occupied(i)
            implies post.team_b.player_spawns@[i] == 0 && post.team_b.player_kills@[i] == 0 by {
        if team == 1 && i == idx {
            assert(post.team_b.spec_occupied(i));
        } else {
            assert(!pre.team_b.spec_occupied(i));
        }
    }
    assert forall|i: int|
        post.cap() <= i < MAX_PLAYERS_PER_TEAM implies !post.team_a.spec_occupied(i)
            && !post.team_b.spec_occupied(i) by {
        assert(!pre.team_a.spec_occupied(i) && !pre.team_b.spec_occupied(i));
    }
    assert forall|i: int, j: int|
        0 <= i < cap && 0 <= j < cap && i != j && post.team_a.spec_occupied(i)
            && post.team_a.spec_occupied(j)
            implies post.team_a.players@[i] != post.team_a.players@[j] by {
        if team == 0 && i == idx {
            assert(!(pre.team_a.spec_occupied(j) && pre.team_a.players@[j] == player));
        } else if team == 0 && j == idx {
            assert(!(pre.team_a.spec_occupied(i) && pre.team_a.players@[i] == player));
        } else {
            assert(pre.team_a.spec_occupied(i) && pre.team_a.spec_occupied(j));
        }
    }
    assert forall|i: int, j: int|
        0 <= i < cap && 0 <= j < cap && i != j && post.team_b.spec_occupied(i)
            && post.team_b.spec_occupied(j)
            implies post.team_b.players@[i] != post.team_b.players@[j] by {
        if team == 1 && i == idx {
            assert(!(pre.team_b.spec_occupied(j) && pre.team_b.players@[j] == player));
        } else if team == 1 && j == idx {
            assert(!(pre.team_b.spec_occupied(i) && pre.team_b.players@[i] == player));
        } else {
            assert(pre.team_b.spec_occupied(i) && pre.team_b.spec_occupied(j));
        }
    }
    assert forall|i: int, j: int|
        0 <= i < cap && 0 <= j < cap && post.team_a.spec_occupied(i) && post.team_b.spec_occupied(
            j,
        ) implies post.team_a.players@[i] != post.team_b.players@[j] by {
        if team == 0 && i == idx {
            assert(!(pre.team_b.spec_occupied(j) && pre.team_b.players@[j] == player));
        } else if team == 1 && j == idx {
            assert(!(pre.team_a.spec_occupied(i) && pre.team_a.players@[i] == player));
        } else {
            assert(pre.team_a.spec_occupied(i) && pre.team_b.spec_occupied(j));
        }
    }
}

/// Clearing one slot back to the empty sentinel with zeroed counters
/// preserves the session invariant.
pub proof fn lemma_inv_preserved_by_leave(pre: GameSession, post: GameSession, team: u8, idx: int)
    requires
        pre.inv(),
        post.wf(),
        team <= 1,
        0 <= idx < MAX_PLAYERS_PER_TEAM as int,
        post.game_mode == pre.game_mode,
        post.spec_team(team).players@ == pre.spec_team(team).players@.update(
            idx,
            (Pubkey { value: 0 }),
        ),
        post.spec_team(team).player_spawns@ == pre.spec_team(team).player_spawns@.update(
            idx,
            0u16,
        ),
        post.spec_team(team).player_kills@ == pre.spec_team(team).player_kills@.update(idx, 0u16),
        post.spec_team(spec_other_team(team)).players@ == pre.spec_team(
            spec_other_team(team),
        ).players@,
        post.spec_team(spec_other_team(team)).player_spawns@ == pre.spec_team(
            spec_other_team(team),
        ).player_spawns@,
        post.spec_team(spec_other_team(team)).player_kills@ == pre.spec_team(
            spec_other_team(team),
        ).player_kills@,
    ensures
        post.inv(),
{
    let cap = pre.cap();
    assert forall|i: int|
        0 <= i < MAX_PLAYERS_PER_TEAM && !post.team_a.spec_occupied(i)
            implies post.team_a.player_spawns@[i] == 0 && post.team_a.player_kills@[i] == 0 by {
        if !(team == 0 && i == idx) {
            assert(!pre.team_a.spec_occupied(i));
        }
    }
    assert forall|i: int|
        0 <= i < MAX_PLAYERS_PER_TEAM && !post.team_b.spec_occupied(i)
            implies post.team_b.player_spawns@[i] == 0 && post.team_b.player_kills@[i] == 0 by {
        if !(team == 1 && i == idx) {
            assert(!pre.team_b.spec_occupied(i));
        }
    }
    assert forall|i: int|
        post.cap() <= i < MAX_PLAYERS_PER_TEAM implies !post.team_a.spec_occupied(i)
            && !post.team_b.spec_occupied(i) by {
        assert(!pre.team_a.spec_occupied(i) && !pre.team_b.spec_occupied(i));
    }
    assert forall|i: int, j: int|
        0 <= i < cap && 0 <= j < cap && i != j && post.team_a.spec_occupied(i)
            && post.team_a.spec_occupied(j)
            implies post.team_a.players@[i] != post.team_a.players@[j] by {
        assert(pre.team_a.spec_occupied(i) && pre.team_a.spec_occupied(j));
    }
    assert forall|i: int, j: int|
        0 <= i < cap && 0 <= j < cap && i != j && post.team_b.spec_occupied(i)
            && post.team_b.spec_occupied(j)
            implies post.team_b.players@[i] != post.team_b.players@[j] by {
        assert(pre.team_b.spec_occupied(i) && pre.team_b.spec_occupied(j));
    }
    assert forall|i: int, j: int|
        0 <= i < cap && 0 <= j < cap && post.team_a.spec_occupied(i) && post.team_b.spec_occupied(
            j,
        ) implies post.team_a.players@[i] != post.team_b.players@[j] by {
        assert(pre.team_a.spec_occupied(i) && pre.team_b.spec_occupied(j));
    }
}

/// The first error a join hits, if any: expiration, wrong status, a bad
/// team number, a duplicate identity across either ledger, a bet outside
/// the joinable bounds, a full roster, or an overflowing pool accumulator.
pub open spec fn spec_join_err(
    s: GameSession,
    player: Pubkey,
    team: u8,
    now: i64,
) -> Option<WagerError> {
    let cap = s.cap();
    if s.spec_is_expired(now) {
        Some(WagerError::GameSessionExpired)
    } else if s.status != GameStatus::WaitingForPlayers {
        Some(WagerError::InvalidGameState)
    } else if team > 1 {
        Some(WagerError::InvalidTeamSelection)
    } else if s.team_a.spec_contains(player, cap) || s.team_b.spec_contains(player, cap) {
        Some(WagerError::PlayerAlreadyJoined)
    } else if s.session_bet < MIN_BET_AMOUNT {
        Some(WagerError::BetAmountTooLow)
    } else if s.session_bet > MAX_BET_AMOUNT {
        Some(WagerError::BetAmountTooHigh)
    } else if s.spec_team(team).spec_first_empty(cap) == -1 {
        Some(WagerError::TeamIsFull)
    } else if s.spec_team(team).total_bet + s.session_bet > u64::MAX {
        Some(WagerError::ArithmeticError)
    } else {
        None
    }
}

/// Adds a player to the chosen team of a waiting, unexpired session: the
/// player must not already occupy a slot on either ledger; the first free
/// slot receives the identity, the mode's starting spawns and zero kills,
/// and the team's contribution total rises by exactly the session bet (the
/// deposit the caller has escrowed). Once both rosters are full — and
/// exactly then — the session moves to in-progress.
pub fn join_user_handler(session: &mut GameSession, player: Pubkey, team: u8, now: i64) -> (r:
    Result<usize, WagerError>)
    requires
        old(session).wf(),
        player.value != 0,
    ensures
        final(session).wf(),
        match r {
            Ok(idx) => ({
                let cap = old(session).cap();
                let t = old(session).spec_team(team);
                &&& spec_join_err(*old(session), player, team, now) is None
                &&& team <= 1
                &&& idx as int == t.spec_first_empty(cap)
                &&& (idx as int) < cap
                &&& final(session).spec_team(team).players@ == t.players@.update(idx as int, player)
                &&& final(session).spec_team(team).player_spawns@ == t.player_spawns@.update(
                    idx as int,
                    old(session).game_mode.spec_default_spawn_count(),
                )
                &&& final(session).spec_team(team).player_kills@ == t.player_kills@.update(
                    idx as int,
                    0u16,
                )
                &&& final(session).spec_team(team).total_bet == t.total_bet + old(
                    session,
                ).session_bet
                &&& team_unchanged(
                    old(session).spec_team(spec_other_team(team)),
                    final(session).spec_team(spec_other_team(team)),
                )
                &&& final(session).same_identity(*old(session))
                &&& final(session).expires_at == old(session).expires_at
                &&& final(session).spawns_per_purchase == old(session).spawns_per_purchase
                &&& final(session).status == (if final(session).spec_all_filled() {
                    GameStatus::InProgress
                } else {
                    GameStatus::WaitingForPlayers
                })
                &&& old(session).inv() ==> final(session).inv()
            }),
            Err(e) => {
                &&& *final(session) == *old(session)
                &&& spec_join_err(*old(session), player, team, now) == Some(e)
            },
        },
        r is Ok <==> spec_join_err(*old(session), player, team, now) is None,
{
    if session.is_expired(now) {
        return Err(WagerError::GameSessionExpired);
    }
    if !(session.status == GameStatus::WaitingForPlayers) {
        return Err(WagerError::InvalidGameState);
    }
    if team > 1 {
        return Err(WagerError::InvalidTeamSelection);
    }
    if let Err(e) = session.validate_player_not_joined(&player) {
        return Err(e);
    }
    let session_bet = session.session_bet;
    if session_bet < MIN_BET_AMOUNT {
        return Err(WagerError::BetAmountTooLow);
    }
    if session_bet > MAX_BET_AMOUNT {
        return Err(WagerError::BetAmountTooHigh);
    }
    let empty_index = match session.get_player_empty_slot(team, now) {
        Ok(i) => i,
        Err(e) => {
            return Err(e);
        },
    };
    let current_total = if team == 0 {
        session.team_a.total_bet
    } else {
        session.team_b.total_bet
    };
    let new_total = match current_total.checked_add(session_bet) {
        Some(v) => v,
        None => {
            return Err(WagerError::ArithmeticError);
        },
    };
    if team == 0 {
        session.team_a.players.set(empty_index, player);
        session.team_a.player_kills.set(empty_index, 0);
        session.team_a.total_bet = new_total;
    } else {
        session.team_b.players.set(empty_index, player);
        session.team_b.player_kills.set(empty_index, 0);
        session.team_b.total_bet = new_total;
    }
    if let Err(e) = session.initialize_player_spawns(team, empty_index) {
        return Err(e);
    }
    proof {
        if old(session).inv() {
            lemma_inv_preserved_by_join(*old(session), *session, team, player, empty_index as int);
        }
    }
    let ready = match session.can_start() {
        Ok(b) => b,
        Err(e) => {
            return Err(e);
        },
    };
    if ready {
        session.status = GameStatus::InProgress;
    }
    Ok(empty_index)
}

/// The first error a leave hits, if any: the game already running,
/// expiration, a bad team number, an absent player, or a pool accumulator
/// that cannot cover the refund.
pub open spec fn spec_leave_err(
    s: GameSession,
    player: Pubkey,
    team: u8,
    now: i64,
) -> Option<WagerError> {
    if s.status != GameStatus::WaitingForPlayers {
        Some(WagerError::GameAlreadyInProgress)
    } else if s.spec_is_expired(now) {
        Some(WagerError::GameSessionExpired)
    } else if team > 1 {
        Some(WagerError::InvalidTeamSelection)
    } else if s.spec_team(team).spec_index_of(player, s.cap()) == -1 {
        Some(WagerError::PlayerNotFound)
    } else if s.spec_team(team).total_bet < s.session_bet {
        Some(WagerError::ArithmeticError)
    } else {
        None
    }
}

/// Removes a player from a still-waiting session: the slot returns to the
/// empty sentinel with zeroed counters and the team's contribution total
/// falls by exactly the session bet, which is the refund the caller must
/// then release from escrow to the player.
pub fn leave_game_handler(session: &mut GameSession, player: Pubkey, team: u8, now: i64) -> (r:
    Result<u64, WagerError>)
    requires
        old(session).wf(),
    ensures
        final(session).wf(),
        match r {
            Ok(refund) => ({
                let cap = old(session).cap();
                let t = old(session).spec_team(team);
                let idx = t.spec_index_of(player, cap);
                &&& spec_leave_err(*old(session), player, team, now) is None
                &&& team <= 1
                &&& refund == old(session).session_bet
                &&& final(session).spec_team(team).players@ == t.players@.update(
                    idx,
                    (Pubkey { value: 0 }),
                )
                &&& final(session).spec_team(team).player_spawns@ == t.player_spawns@.update(
                    idx,
                    0u16,
                )
                &&& final(session).spec_team(team).player_kills@ == t.player_kills@.update(
                    idx,
                    0u16,
                )
                &&& final(session).spec_team(team).total_bet == t.total_bet - refund
                &&& team_unchanged(
                    old(session).spec_team(spec_other_team(team)),
                    final(session).spec_team(spec_other_team(team)),
                )
                &&& final(session).same_identity(*old(session))
                &&& final(session).expires_at == old(session).expires_at
                &&& final(session).spawns_per_purchase == old(session).spawns_per_purchase
                &&& final(session).status == old(session).status
                &&& old(session).inv() ==> final(session).inv()
            }),
            Err(e) => {
                &&& *final(session) == *old(session)
                &&& spec_leave_err(*old(session), player, team, now) == Some(e)
            },
        },
        r is Ok <==> spec_leave_err(*old(session), player, team, now) is None,
{
    if !(session.status == GameStatus::WaitingForPlayers) {
        return Err(WagerError::GameAlreadyInProgress);
    }
    if session.is_expired(now) {
        return Err(WagerError::GameSessionExpired);
    }
    if team > 1 {
        return Err(WagerError::InvalidTeamSelection);
    }
    let player_index = match session.get_player_index(team, player) {
        Ok(i) => i,
        Err(e) => {
            return Err(e);
        },
    };
    let refund_amount = session.session_bet;
    let current_total = if team == 0 {
        session.team_a.total_bet
    } else {
        session.team_b.total_bet
    };
    let new_total = match current_total.checked_sub(refund_amount) {
        Some(v) => v,
        None => {
            return Err(WagerError::ArithmeticError);
        },
    };
    if team == 0 {
        session.team_a.players.set(player_index, Pubkey { value: 0 });
        session.team_a.player_spawns.set(player_index, 0);
        session.team_a.player_kills.set(player_index, 0);
        session.team_a.total_bet = new_total;
    } else {
        session.team_b.players.set(player_index, Pubkey { value: 0 });
        session.team_b.player_spawns.set(player_index, 0);
        session.team_b.player_kills.set(player_index, 0);
        session.team_b.total_bet = new_total;
    }
    proof {
        if old(session).inv() {
            lemma_inv_preserved_by_leave(*old(session), *session, team, player_index as int);
        }
    }
    Ok(refund_amount)
}

/// Reads the session's observable status with no side effect.
pub fn get_game_status(session: &GameSession, now: i64) -> (r: SessionInfo)
    requires
        session.wf(),
    ensures
        r.session_id == session.session_id,
        r.authority == session.authority,
        r.status == session.status,
        r.game_mode == session.game_mode,
        r.session_bet == session.session_bet,
        r.players_per_team as int == session.cap(),
        r.created_at == session.created_at,
        r.expires_at == session.expires_at,
        r.is_expired == session.spec_is_expired(now),
        r.spawns_per_purchase == session.spawns_per_purchase,
        r.team_a_count as int == session.team_a.spec_active_count(
            crate::state::clamp_cap(session.cap()),
        ),
        r.team_b_count as int == session.team_b.spec_active_count(
            crate::state::clamp_cap(session.cap()),
        ),
        r.team_a_total_bet == session.team_a.total_bet,
        r.team_b_total_bet == session.team_b.total_bet,
{
    get_session_info_handler(session, now)
}

} // verus!
