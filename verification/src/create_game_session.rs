//! Session creation and authority-gated session maintenance: id and bet
//! validation, expiration extension, pre-start cancellation and a read-only
//! session summary.

use vstd::prelude::*;

use crate::errors::WagerError;
use crate::state::{
    clamp_cap, GameMode, GameSession, GameStatus, Pubkey, SESSION_TIMEOUT_SECONDS,
};

verus! {

/// Smallest bet a session may be created with.
pub const MIN_BET_AMOUNT: u64 = 1_000;

/// Largest bet a session may be created with.
pub const MAX_BET_AMOUNT: u64 = 1_000_000_000_000;

/// Longest accepted session id, in characters.
pub const MAX_SESSION_ID_LENGTH: usize = 32;

/// Shortest accepted session id, in characters.
pub const MIN_SESSION_ID_LENGTH: usize = 3;

/// Longest accepted extension of a session deadline, in seconds.
pub const MAX_EXTENSION_SECONDS: i64 = 86400;

/// A character a session id may contain: ASCII letters and digits,
/// underscore and hyphen.
pub open spec fn spec_valid_id_char(c: char) -> bool {
    ||| 'a' <= c && c <= 'z'
    ||| 'A' <= c && c <= 'Z'
    ||| '0' <= c && c <= '9'
    ||| c == '_'
    ||| c == '-'
}

/// A well-formed session id: 3 to 32 characters, all from the accepted set.
pub open spec fn spec_valid_session_id(id: Seq<char>) -> bool {
    &&& MIN_SESSION_ID_LENGTH <= id.len() <= MAX_SESSION_ID_LENGTH
    &&& forall|i: int| 0 <= i < id.len() ==> spec_valid_id_char(#[trigger] id[i])
}

/// The first fault of a session id, if any: too short, too long, or holding
/// a character outside the accepted set.
pub open spec fn spec_session_id_err(id: Seq<char>) -> Option<WagerError> {
    if id.len() < MIN_SESSION_ID_LENGTH {
        Some(WagerError::SessionIdTooShort)
    } else if id.len() > MAX_SESSION_ID_LENGTH {
        Some(WagerError::SessionIdTooLong)
    } else if !(forall|i: int| 0 <= i < id.len() ==> spec_valid_id_char(#[trigger] id[i])) {
        Some(WagerError::InvalidSessionIdFormat)
    } else {
        None
    }
}

/// Checks a session id for length and character set.
pub fn validate_session_id(id: &str) -> (r: Result<(), WagerError>)
    ensures
        match r {
            Ok(()) => spec_valid_session_id(id@),
            Err(e) => spec_session_id_err(id@) == Some(e),
        },
        r is Ok <==> spec_valid_session_id(id@),
{
    let len = id.unicode_len();
    if len < MIN_SESSION_ID_LENGTH {
        return Err(WagerError::SessionIdTooShort);
    }
    if len > MAX_SESSION_ID_LENGTH {
        return Err(WagerError::SessionIdTooLong);
    }
    let mut i: usize = 0;
    while i < len
        invariant
            len == id@.len(),
            MIN_SESSION_ID_LENGTH <= len <= MAX_SESSION_ID_LENGTH,
            i <= len,
            forall|j: int| 0 <= j < i as int ==> spec_valid_id_char(#[trigger] id@[j]),
        decreases len - i,
    {
        let c = id.get_char(i);
        let u = c as u32;
        let ok = (97 <= u && u <= 122) || (65 <= u && u <= 90) || (48 <= u && u <= 57) || u == 95
            || u == 45;
        if !ok {
            assert(!spec_valid_id_char(id@[i as int]));
            return Err(WagerError::InvalidSessionIdFormat);
        }
        assert(spec_valid_id_char(id@[i as int]));
        i = i + 1;
    }
    Ok(())
}

/// The first error session creation hits, if any: a malformed id, a bet out
/// of bounds, or an overflowing deadline.
pub open spec fn spec_create_err(id: Seq<char>, bet_amount: u64, now: i64) -> Option<WagerError> {
    if spec_session_id_err(id) is Some {
        spec_session_id_err(id)
    } else if bet_amount == 0 {
        Some(WagerError::InvalidBetAmount)
    } else if bet_amount < MIN_BET_AMOUNT {
        Some(WagerError::BetAmountTooLow)
    } else if bet_amount > MAX_BET_AMOUNT {
        Some(WagerError::BetAmountTooHigh)
    } else if now + SESSION_TIMEOUT_SECONDS > i64::MAX {
        Some(WagerError::ArithmeticError)
    } else {
        None
    }
}

/// Creates a game session: validates the id (3 to 32 characters from the
/// accepted set) and the bet bounds, then builds a waiting session with the
/// mode's default spawns-per-purchase and a deadline one timeout past
/// `now`, computed with overflow-checked addition.
pub fn create_game_session_handler(
    session_id: String,
    authority: Pubkey,
    bet_amount: u64,
    game_mode: GameMode,
    now: i64,
    bump: u8,
    vault_bump: u8,
    vault_token_bump: u8,
) -> (r: Result<GameSession, WagerError>)
    ensures
        match r {
            Ok(s) => {
                &&& spec_create_err(session_id@, bet_amount, now) is None
                &&& spec_valid_session_id(session_id@)
                &&& MIN_BET_AMOUNT <= bet_amount <= MAX_BET_AMOUNT
                &&& s.session_id == session_id
                &&& s.authority == authority
                &&& s.session_bet == bet_amount
                &&& s.game_mode == game_mode
                &&& s.team_a.is_blank()
                &&& s.team_b.is_blank()
                &&& s.status == GameStatus::WaitingForPlayers
                &&& s.created_at == now
                &&& s.expires_at == now + SESSION_TIMEOUT_SECONDS
                &&& s.spawns_per_purchase == game_mode.spec_default_spawn_count()
                &&& s.bump == bump
                &&& s.vault_bump == vault_bump
                &&& s.vault_token_bump == vault_token_bump
                &&& s.inv()
            },
            Err(e) => spec_create_err(session_id@, bet_amount, now) == Some(e),
        },
{
    if let Err(e) = validate_session_id(session_id.as_str()) {
        return Err(e);
    }
    if bet_amount == 0 {
        return Err(WagerError::InvalidBetAmount);
    }
    if bet_amount < MIN_BET_AMOUNT {
        return Err(WagerError::BetAmountTooLow);
    }
    if bet_amount > MAX_BET_AMOUNT {
        return Err(WagerError::BetAmountTooHigh);
    }
    GameSession::new(
        session_id,
        authority,
        bet_amount,
        game_mode,
        now,
        bump,
        vault_bump,
        vault_token_bump,
    )
}

/// The first error an extension request hits, if any.
pub open spec fn spec_extend_err(
    s: GameSession,
    caller: Pubkey,
    additional_seconds: i64,
) -> Option<WagerError> {
    if s.authority != caller {
        Some(WagerError::UnauthorizedAction)
    } else if s.status != GameStatus::WaitingForPlayers && s.status != GameStatus::InProgress {
        Some(WagerError::InvalidGameState)
    } else if additional_seconds <= 0 || additional_seconds > MAX_EXTENSION_SECONDS {
        Some(WagerError::InvalidExtensionTime)
    } else if s.expires_at + additional_seconds > i64::MAX {
        Some(WagerError::ArithmeticError)
    } else {
        None
    }
}

/// Extends a live session's deadline by 1 to 86400 seconds; only the
/// session authority may extend, and only before the session has finished.
pub fn extend_session_handler(
    session: &mut GameSession,
    caller: Pubkey,
    additional_seconds: i64,
) -> (r: Result<(), WagerError>)
    ensures
        match r {
            Ok(()) => {
                &&& spec_extend_err(*old(session), caller, additional_seconds) is None
                &&& final(session).expires_at == old(session).expires_at + additional_seconds
                &&& final(session).same_identity(*old(session))
                &&& final(session).status == old(session).status
                &&& final(session).spawns_per_purchase == old(session).spawns_per_purchase
                &&& final(session).team_a == old(session).team_a
                &&& final(session).team_b == old(session).team_b
            },
            Err(e) => {
                &&& *final(session) == *old(session)
                &&& spec_extend_err(*old(session), caller, additional_seconds) == Some(e)
            },
        },
        r is Ok <==> spec_extend_err(*old(session), caller, additional_seconds) is None,
{
    if !(session.authority == caller) {
        return Err(WagerError::UnauthorizedAction);
    }
    if !(session.status == GameStatus::WaitingForPlayers || session.status
        == GameStatus::InProgress) {
        return Err(WagerError::InvalidGameState);
    }
    if !(additional_seconds > 0 && additional_seconds <= MAX_EXTENSION_SECONDS) {
        return Err(WagerError::InvalidExtensionTime);
    }
    match session.expires_at.checked_add(additional_seconds) {
        Some(t) => {
            session.expires_at = t;
            Ok(())
        },
        None => Err(WagerError::ArithmeticError),
    }
}

/// Cancels a session that has not started; only the authority may cancel,
/// and only while the session is still waiting for players.
pub fn cancel_session_handler(session: &mut GameSession, caller: Pubkey) -> (r: Result<
    (),
    WagerError,
>)
    ensures
        match r {
            Ok(()) => {
                &&& old(session).authority == caller
                &&& old(session).status == GameStatus::WaitingForPlayers
                &&& final(session).status == GameStatus::Cancelled
                &&& final(session).same_identity(*old(session))
                &&& final(session).expires_at == old(session).expires_at
                &&& final(session).spawns_per_purchase == old(session).spawns_per_purchase
                &&& final(session).team_a == old(session).team_a
                &&& final(session).team_b == old(session).team_b
            },
            Err(e) => {
                &&& *final(session) == *old(session)
                &&& if old(session).authority != caller {
                    e == WagerError::UnauthorizedAction
                } else {
                    &&& e == WagerError::GameAlreadyStarted
                    &&& old(session).status != GameStatus::WaitingForPlayers
                }
            },
        },
{
    if !(session.authority == caller) {
        return Err(WagerError::UnauthorizedAction);
    }
    if !(session.status == GameStatus::WaitingForPlayers) {
        return Err(WagerError::GameAlreadyStarted);
    }
    session.status = GameStatus::Cancelled;
    Ok(())
}

/// A read-only snapshot of a session's observable fields.
#[derive(Clone, Debug)]
pub struct SessionInfo {
    pub session_id: String,
    pub authority: Pubkey,
    pub status: GameStatus,
    pub game_mode: GameMode,
    pub session_bet: u64,
    pub players_per_team: usize,
    pub created_at: i64,
    pub expires_at: i64,
    pub is_expired: bool,
    pub spawns_per_purchase: u16,
    pub team_a_count: usize,
    pub team_b_count: usize,
    pub team_a_total_bet: u64,
    pub team_b_total_bet: u64,
}

/// Reads a session summary with no side effect: its configuration, status,
/// expiration as of `now`, and both rosters' occupancy and pool totals.
pub fn get_session_info_handler(session: &GameSession, now: i64) -> (r: SessionInfo)
    requires
        session.wf(),
    ensures
        r.session_id == session.session_id,
        r.authority == session.authority,
        r.status == session.status,
        r.game_mode == session.game_mode,
        r.session_bet == session.session_bet,
        r.players_per_team as int == session.cap(),
        r.created_at == session.created_at,
        r.expires_at == session.expires_at,
        r.is_expired == session.spec_is_expired(now),
        r.spawns_per_purchase == session.spawns_per_purchase,
        r.team_a_count as int == session.team_a.spec_active_count(clamp_cap(session.cap())),
        r.team_b_count as int == session.team_b.spec_active_count(clamp_cap(session.cap())),
        r.team_a_total_bet == session.team_a.total_bet,
        r.team_b_total_bet == session.team_b.total_bet,
{
    let players_per_team = session.game_mode.players_per_team();
    SessionInfo {
        session_id: session.session_id.clone(),
        authority: session.authority,
        status: session.status,
        game_mode: session.game_mode,
        session_bet: session.session_bet,
        players_per_team,
        created_at: session.created_at,
        expires_at: session.expires_at,
        is_expired: session.is_expired(now),
        spawns_per_purchase: session.spawns_per_purchase,
        team_a_count: session.team_a.get_active_player_count(players_per_team),
        team_b_count: session.team_b.get_active_player_count(players_per_team),
        team_a_total_bet: session.team_a.total_bet,
        team_b_total_bet: session.team_b.total_bet,
    }
}

} // verus!
