//! Mid-game spawn purchases in pooled modes, spawn queries and the
//! authority's spawn-purchase configuration.
//!
//! A purchase costs the session bet; the matching deposit into escrow is
//! the caller's side of the protocol, and the team's contribution total
//! records exactly that amount.

use vstd::prelude::*;

use crate::errors::WagerError;
use crate::state::{
    lemma_inv_preserved_by_counter_updates, spec_other_team, GameMode, GameSession, GameStatus,
    Pubkey,
};

verus! {

/// Most spawns one player may accumulate.
pub const MAX_SPAWNS_PER_PLAYER: u16 = 100;

/// Smallest bet a purchase may be charged at.
pub const MIN_BET_AMOUNT: u64 = 1_000;

/// Largest bet a purchase may be charged at: the same bound creation
/// enforces, so every session this library creates supports purchases.
pub const MAX_BET_AMOUNT: u64 = 1_000_000_000_000;

/// Longest accepted session id, in characters.
pub const MAX_SESSION_ID_LENGTH: usize = 32;

/// The first error a spawn purchase hits, if any: expiration, a game not in
/// progress, a mode without purchases, a bad team number, an absent player,
/// the spawn cap, a bet outside bounds, or counter overflow.
pub open spec fn spec_pay_to_spawn_err(
    s: GameSession,
    player: Pubkey,
    team: u8,
    now: i64,
) -> Option<WagerError> {
    let idx = s.spec_team(team).spec_index_of(player, s.cap());
    let spawns = s.spec_team(team).player_spawns@[idx];
    if s.spec_is_expired(now) {
        Some(WagerError::GameSessionExpired)
    } else if s.status != GameStatus::InProgress {
        Some(WagerError::InvalidGameState)
    } else if !s.game_mode.spec_is_pay_to_spawn() {
        Some(WagerError::InvalidGameMode)
    } else if team > 1 {
        Some(WagerError::InvalidTeamSelection)
    } else if idx == -1 {
        Some(WagerError::PlayerNotFound)
    } else if spawns >= MAX_SPAWNS_PER_PLAYER {
        Some(WagerError::MaxSpawnsExceeded)
    } else if s.session_bet < MIN_BET_AMOUNT || s.session_bet > MAX_BET_AMOUNT {
        Some(WagerError::InvalidBetAmount)
    } else if spawns + s.spawns_per_purchase > u16::MAX {
        Some(WagerError::ArithmeticError)
    } else if spawns + s.spawns_per_purchase > MAX_SPAWNS_PER_PLAYER {
        Some(WagerError::MaxSpawnsExceeded)
    } else if s.spec_team(team).total_bet + s.session_bet > u64::MAX {
        Some(WagerError::ArithmeticError)
    } else {
        None
    }
}

/// Buys spawns for a player of an in-progress pooled-mode session: the
/// player's spawn counter rises by the configured spawns-per-purchase,
/// capped overall, and the team's contribution total rises by exactly the
/// session bet the caller has escrowed. Returns the new spawn count.
pub fn pay_to_spawn_handler(session: &mut GameSession, player: Pubkey, team: u8, now: i64) -> (r:
    Result<u16, WagerError>)
    requires
        old(session).wf(),
    ensures
        final(session).wf(),
        match r {
            Ok(new_count) => ({
                let cap = old(session).cap();
                let t = old(session).spec_team(team);
                let idx = t.spec_index_of(player, cap);
                &&& spec_pay_to_spawn_err(*old(session), player, team, now) is None
                &&& team <= 1
                &&& new_count == t.player_spawns@[idx] + old(session).spawns_per_purchase
                &&& new_count <= MAX_SPAWNS_PER_PLAYER
                &&& final(session).spec_team(team).player_spawns@ == t.player_spawns@.update(
                    idx,
                    new_count,
                )
                &&& final(session).spec_team(team).total_bet == t.total_bet + old(
                    session,
                ).session_bet
                &&& final(session).spec_team(team).players@ == t.players@
                &&& final(session).spec_team(team).player_kills@ == t.player_kills@
                &&& crate::join_user::team_unchanged(
                    old(session).spec_team(spec_other_team(team)),
                    final(session).spec_team(spec_other_team(team)),
                )
                &&& final(session).same_identity(*old(session))
                &&& final(session).status == old(session).status
                &&& final(session).expires_at == old(session).expires_at
                &&& final(session).spawns_per_purchase == old(session).spawns_per_purchase
                &&& old(session).inv() ==> final(session).inv()
            }),
            Err(e) => {
                &&& *final(session) == *old(session)
                &&& spec_pay_to_spawn_err(*old(session), player, team, now) == Some(e)
            },
        },
        r is Ok <==> spec_pay_to_spawn_err(*old(session), player, team, now) is None,
{
    if session.is_expired(now) {
        return Err(WagerError::GameSessionExpired);
    }
    if !(session.status == GameStatus::InProgress) {
        return Err(WagerError::InvalidGameState);
    }
    if !session.is_pay_to_spawn() {
        return Err(WagerError::InvalidGameMode);
    }
    if team > 1 {
        return Err(WagerError::InvalidTeamSelection);
    }
    let player_index = match session.get_player_index(team, player) {
        Ok(i) => i,
        Err(e) => {
            return Err(e);
        },
    };
    let current_spawns = if team == 0 {
        session.team_a.player_spawns[player_index]
    } else {
        session.team_b.player_spawns[player_index]
    };
    if current_spawns >= MAX_SPAWNS_PER_PLAYER {
        return Err(WagerError::MaxSpawnsExceeded);
    }
    let session_bet = session.session_bet;
    if session_bet < MIN_BET_AMOUNT || session_bet > MAX_BET_AMOUNT {
        return Err(WagerError::InvalidBetAmount);
    }
    let spawns_to_add = session.spawns_per_purchase;
    let new_spawn_count = match current_spawns.checked_add(spawns_to_add) {
        Some(v) => v,
        None => {
            return Err(WagerError::ArithmeticError);
        },
    };
    if new_spawn_count > MAX_SPAWNS_PER_PLAYER {
        return Err(WagerError::MaxSpawnsExceeded);
    }
    let current_total = if team == 0 {
        session.team_a.total_bet
    } else {
        session.team_b.total_bet
    };
    let new_total = match current_total.checked_add(session_bet) {
        Some(v) => v,
        None => {
            return Err(WagerError::ArithmeticError);
        },
    };
    if let Err(e) = session.add_spawns(team, player_index) {
        return Err(e);
    }
    if team == 0 {
        session.team_a.total_bet = new_total;
    } else {
        session.team_b.total_bet = new_total;
    }
    proof {
        if old(session).inv() {
            lemma_inv_preserved_by_counter_updates(*old(session), *session);
        }
    }
    Ok(new_spawn_count)
}

/// A read-only snapshot of a session's spawn-purchase configuration.
#[derive(Clone, Debug)]
pub struct SpawnInfo {
    pub session_id: String,
    pub game_mode: GameMode,
    pub is_pay_to_spawn: bool,
    pub status: GameStatus,
    pub is_expired: bool,
    pub cost_per_purchase: u64,
    pub spawns_per_purchase: u16,
    pub max_spawns_per_player: u16,
}

/// Reads the spawn-purchase terms of a session with no side effect.
pub fn get_spawn_info(session: &GameSession, now: i64) -> (r: SpawnInfo)
    ensures
        r.session_id == session.session_id,
        r.game_mode == session.game_mode,
        r.is_pay_to_spawn == session.game_mode.spec_is_pay_to_spawn(),
        r.status == session.status,
        r.is_expired == session.spec_is_expired(now),
        r.cost_per_purchase == session.session_bet,
        r.spawns_per_purchase == session.spawns_per_purchase,
        r.max_spawns_per_player == MAX_SPAWNS_PER_PLAYER,
{
    SpawnInfo {
        session_id: session.session_id.clone(),
        game_mode: session.game_mode,
        is_pay_to_spawn: session.is_pay_to_spawn(),
        status: session.status,
        is_expired: session.is_expired(now),
        cost_per_purchase: session.session_bet,
        spawns_per_purchase: session.spawns_per_purchase,
        max_spawns_per_player: MAX_SPAWNS_PER_PLAYER,
    }
}

/// Reads one player's remaining spawns and recorded kills.
pub fn get_player_spawn_count(session: &GameSession, team: u8, player: Pubkey) -> (r: Result<
    (u16, u16),
    WagerError,
>)
    requires
        session.wf(),
    ensures
        ({
            let idx = session.spec_team(team).spec_index_of(player, session.cap());
            match r {
                Ok((spawns, kills)) => {
                    &&& team <= 1
                    &&& idx >= 0
                    &&& spawns == session.spec_team(team).player_spawns@[idx]
                    &&& kills == session.spec_team(team).player_kills@[idx]
                },
                Err(e) => {
                    if team > 1 {
                        e == WagerError::InvalidTeamSelection
                    } else {
                        e == WagerError::PlayerNotFound && idx == -1
                    }
                },
            }
        }),
{
    if team > 1 {
        return Err(WagerError::InvalidTeamSelection);
    }
    match session.get_player_index(team, player) {
        Ok(player_index) => {
            let (spawn_count, kill_count) = if team == 0 {
                (session.team_a.player_spawns[player_index], session.team_a.player_kills[player_index])
            } else {
                (session.team_b.player_spawns[player_index], session.team_b.player_kills[player_index])
            };
            Ok((spawn_count, kill_count))
        },
        Err(_) => Err(WagerError::PlayerNotFound),
    }
}

/// Disables further spawn purchases by setting the per-purchase grant to
/// zero; only the session authority may do so.
pub fn disable_spawn_purchases(session: &mut GameSession, caller: Pubkey) -> (r: Result<
    (),
    WagerError,
>)
    ensures
        match r {
            Ok(()) => {
                &&& old(session).authority == caller
                &&& final(session).spawns_per_purchase == 0
                &&& final(session).same_identity(*old(session))
                &&& final(session).status == old(session).status
                &&& final(session).expires_at == old(session).expires_at
                &&& final(session).team_a == old(session).team_a
                &&& final(session).team_b == old(session).team_b
            },
            Err(e) => {
                &&& *final(session) == *old(session)
                &&& e == WagerError::UnauthorizedAction
                &&& old(session).authority != caller
            },
        },
{
    if !(session.authority == caller) {
        return Err(WagerError::UnauthorizedAction);
    }
    session.spawns_per_purchase = 0;
    Ok(())
}

/// Reconfigures how many spawns one purchase grants, within 1 to 50; only
/// the session authority may do so.
pub fn update_spawn_config(
    session: &mut GameSession,
    caller: Pubkey,
    new_spawns_per_purchase: u16,
) -> (r: Result<(), WagerError>)
    ensures
        match r {
            Ok(()) => {
                &&& old(session).authority == caller
                &&& 0 < new_spawns_per_purchase <= 50
                &&& final(session).spawns_per_purchase == new_spawns_per_purchase
                &&& final(session).same_identity(*old(session))
                &&& final(session).status == old(session).status
                &&& final(session).expires_at == old(session).expires_at
                &&& final(session).team_a == old(session).team_a
                &&& final(session).team_b == old(session).team_b
            },
            Err(e) => {
                &&& *final(session) == *old(session)
                &&& if old(session).authority != caller {
                    e == WagerError::UnauthorizedAction
                } else {
                    &&& e == WagerError::InvalidSpawnCount
                    &&& (new_spawns_per_purchase == 0 || new_spawns_per_purchase > 50)
                }
            },
        },
{
    if !(session.authority == caller) {
        return Err(WagerError::UnauthorizedAction);
    }
    if !(new_spawns_per_purchase > 0 && new_spawns_per_purchase <= 50) {
        return Err(WagerError::InvalidSpawnCount);
    }
    session.update_spawns_per_purchase(new_spawns_per_purchase)
}

} // verus!
