//! Session state: identity keys, game modes, lifecycle status, team ledgers
//! and the session record with its guarded mutating operations.

use vstd::pervasive::VecAdditionalExecFns;
use vstd::prelude::*;

use crate::errors::WagerError;

verus! {

/// Default number of spawns granted per purchase and per pooled-mode join.
pub const DEFAULT_SPAWN_COUNT: u16 = 10;

/// Fixed roster capacity of a team ledger.
pub const MAX_PLAYERS_PER_TEAM: usize = 5;

/// Longest accepted session id, in characters.
pub const MAX_SESSION_ID_LENGTH: usize = 32;

/// Seconds from creation to expiration of a fresh session.
pub const SESSION_TIMEOUT_SECONDS: i64 = 7200;

/// An opaque fixed-size player or authority identity. The zero key is the
/// distinguished empty sentinel: it marks an unoccupied roster slot and is
/// never a player.
#[derive(Clone, Copy, PartialEq, Eq, Structural, Debug, Hash)]
pub struct Pubkey {
    pub value: u64,
}

impl Pubkey {
    /// True of the empty sentinel that marks an unoccupied slot.
    pub open spec fn spec_is_empty(self) -> bool {
        self.value == 0
    }
}

impl Default for Pubkey {
    /// The empty sentinel key.
    fn default() -> (r: Self)
        ensures
            r.value == 0,
    {
        Pubkey { value: 0 }
    }
}

/// Game mode: fixes the team size, whether spawns can be bought mid-game,
/// and the spawn count granted on join.
#[derive(Clone, Copy, PartialEq, Eq, Structural, Debug)]
pub enum GameMode {
    WinnerTakesAllOneVsOne,
    WinnerTakesAllThreeVsThree,
    WinnerTakesAllFiveVsFive,
    PayToSpawnOneVsOne,
    PayToSpawnThreeVsThree,
    PayToSpawnFiveVsFive,
}

impl GameMode {
    pub open spec fn spec_players_per_team(self) -> int {
        match self {
            GameMode::WinnerTakesAllOneVsOne => 1,
            GameMode::WinnerTakesAllThreeVsThree => 3,
            GameMode::WinnerTakesAllFiveVsFive => 5,
            GameMode::PayToSpawnOneVsOne => 1,
            GameMode::PayToSpawnThreeVsThree => 3,
            GameMode::PayToSpawnFiveVsFive => 5,
        }
    }

    pub open spec fn spec_is_pay_to_spawn(self) -> bool {
        match self {
            GameMode::PayToSpawnOneVsOne => true,
            GameMode::PayToSpawnThreeVsThree => true,
            GameMode::PayToSpawnFiveVsFive => true,
            _ => false,
        }
    }

    pub open spec fn spec_default_spawn_count(self) -> u16 {
        if self.spec_is_pay_to_spawn() {
            DEFAULT_SPAWN_COUNT
        } else {
            1
        }
    }

    /// Required number of players on each team for this mode.
    pub fn players_per_team(&self) -> (r: usize)
        ensures
            r as int == self.spec_players_per_team(),
            1 <= r <= MAX_PLAYERS_PER_TEAM,
    {
        match self {
            GameMode::WinnerTakesAllOneVsOne => 1,
            GameMode::WinnerTakesAllThreeVsThree => 3,
            GameMode::WinnerTakesAllFiveVsFive => 5,
            GameMode::PayToSpawnOneVsOne => 1,
            GameMode::PayToSpawnThreeVsThree => 3,
            GameMode::PayToSpawnFiveVsFive => 5,
        }
    }

    /// Whether this mode lets players buy additional spawns mid-contest.
    pub fn is_pay_to_spawn(&self) -> (r: bool)
        ensures
            r == self.spec_is_pay_to_spawn(),
    {
        match self {
            GameMode::PayToSpawnOneVsOne => true,
            GameMode::PayToSpawnThreeVsThree => true,
            GameMode::PayToSpawnFiveVsFive => true,
            _ => false,
        }
    }

    /// Spawns a player starts with when joining: one life in
    /// winner-takes-all modes, the configurable default in pooled modes.
    pub fn default_spawn_count(&self) -> (r: u16)
        ensures
            r == self.spec_default_spawn_count(),
    {
        match self {
            GameMode::WinnerTakesAllOneVsOne
            | GameMode::WinnerTakesAllThreeVsThree
            | GameMode::WinnerTakesAllFiveVsFive => 1,
            GameMode::PayToSpawnOneVsOne
            | GameMode::PayToSpawnThreeVsThree
            | GameMode::PayToSpawnFiveVsFive => DEFAULT_SPAWN_COUNT,
        }
    }
}

/// Lifecycle status of a session.
#[derive(Clone, Copy, PartialEq, Eq, Structural, Debug)]
pub enum GameStatus {
    WaitingForPlayers,
    InProgress,
    Completed,
    Distributed,
    Expired,
    Cancelled,
}

impl Default for GameStatus {
    /// A fresh session waits for players.
    fn default() -> (r: Self)
        ensures
            r == GameStatus::WaitingForPlayers,
    {
        GameStatus::WaitingForPlayers
    }
}

/// The roster capacity actually scanned when a caller asks about the first
/// `cap` slots: never more than the fixed array length.
pub open spec fn clamp_cap(cap: int) -> int {
    if cap < MAX_PLAYERS_PER_TEAM as int {
        cap
    } else {
        MAX_PLAYERS_PER_TEAM as int
    }
}

/// One team's ledger: a fixed-capacity roster of identity slots with
/// parallel spawn and kill counters, and the team's total contribution to
/// the escrow pool.
#[derive(Clone, Debug)]
pub struct Team {
    pub players: Vec<Pubkey>,
    pub total_bet: u64,
    pub player_spawns: Vec<u16>,
    pub player_kills: Vec<u16>,
}

impl Team {
    /// Structural well-formedness: the three parallel arrays have the fixed
    /// roster capacity.
    pub open spec fn wf(self) -> bool {
        &&& self.players@.len() == MAX_PLAYERS_PER_TEAM
        &&& self.player_spawns@.len() == MAX_PLAYERS_PER_TEAM
        &&& self.player_kills@.len() == MAX_PLAYERS_PER_TEAM
    }

    /// Slot `i` holds a player (not the empty sentinel).
    pub open spec fn spec_occupied(self, i: int) -> bool {
        !self.players@[i].spec_is_empty()
    }

    /// Unoccupied slots carry no counters.
    pub open spec fn empty_slots_cleared(self) -> bool {
        forall|i: int|
            0 <= i < MAX_PLAYERS_PER_TEAM && !self.spec_occupied(i)
                ==> self.player_spawns@[i] == 0 && self.player_kills@[i] == 0
    }

    /// A freshly created ledger: every slot empty, every counter zero.
    pub open spec fn is_blank(self) -> bool {
        &&& self.wf()
        &&& self.total_bet == 0
        &&& forall|i: int|
            0 <= i < MAX_PLAYERS_PER_TEAM
                ==> !self.spec_occupied(i) && self.player_spawns@[i] == 0
                && self.player_kills@[i] == 0
    }

    /// First unoccupied slot index in `[from, cap)`, or -1 if none.
    pub open spec fn first_empty_from(self, from: int, cap: int) -> int
        decreases cap - from,
    {
        if from >= cap {
            -1
        } else if !self.spec_occupied(from) {
            from
        } else {
            self.first_empty_from(from + 1, cap)
        }
    }

    /// First unoccupied slot index below `cap`, or -1 if the roster is full.
    pub open spec fn spec_first_empty(self, cap: int) -> int {
        self.first_empty_from(0, cap)
    }

    /// First slot in `[from, cap)` occupied by `p`, or -1 if none.
    pub open spec fn index_of_from(self, p: Pubkey, from: int, cap: int) -> int
        decreases cap - from,
    {
        if from >= cap {
            -1
        } else if self.spec_occupied(from) && self.players@[from] == p {
            from
        } else {
            self.index_of_from(p, from + 1, cap)
        }
    }

    /// First slot below `cap` occupied by `p`, or -1 if `p` is not on the
    /// roster.
    pub open spec fn spec_index_of(self, p: Pubkey, cap: int) -> int {
        self.index_of_from(p, 0, cap)
    }

    /// `p` occupies some slot below `cap`.
    pub open spec fn spec_contains(self, p: Pubkey, cap: int) -> bool {
        exists|i: int| 0 <= i < cap && self.spec_occupied(i) && self.players@[i] == p
    }

    /// Number of occupied slots below `n`.
    pub open spec fn spec_active_count(self, n: int) -> int
        decreases n,
    {
        if n <= 0 {
            0
        } else {
            self.spec_active_count(n - 1) + if self.spec_occupied(n - 1) {
                1int
            } else {
                0int
            }
        }
    }

    /// Sum of the kill counters of the first `n` slots.
    pub open spec fn spec_total_kills(self, n: int) -> int
        decreases n,
    {
        if n <= 0 {
            0
        } else {
            self.spec_total_kills(n - 1) + self.player_kills@[n - 1]
        }
    }

    /// Sum of the spawn counters of the first `n` slots.
    pub open spec fn spec_total_spawns(self, n: int) -> int
        decreases n,
    {
        if n <= 0 {
            0
        } else {
            self.spec_total_spawns(n - 1) + self.player_spawns@[n - 1]
        }
    }

    /// Every occupied slot below `cap` is out of spawns. Vacuously true of a
    /// roster with no occupied slot: callers must treat that edge case
    /// themselves.
    pub open spec fn spec_eliminated(self, cap: int) -> bool {
        forall|i: int| 0 <= i < cap && self.spec_occupied(i) ==> self.player_spawns@[i] == 0
    }

    /// The identities occupying the first `n` slots, in slot order.
    pub open spec fn spec_roster(self, n: int) -> Seq<Pubkey>
        decreases n,
    {
        if n <= 0 {
            Seq::empty()
        } else if self.spec_occupied(n - 1) {
            self.spec_roster(n - 1).push(self.players@[n - 1])
        } else {
            self.spec_roster(n - 1)
        }
    }
}

/// Where `index_of_from` answers -1 there is no matching slot in range, and
/// where it answers an index, that index is the first match.
pub proof fn lemma_index_of_from(t: Team, p: Pubkey, from: int, cap: int)
    requires
        t.wf(),
        0 <= from,
        cap <= MAX_PLAYERS_PER_TEAM as int,
    ensures
        t.index_of_from(p, from, cap) == -1 ==> forall|i: int|
            from <= i < cap ==> !(t.spec_occupied(i) && t.players@[i] == p),
        t.index_of_from(p, from, cap) >= 0 ==> {
            let r = t.index_of_from(p, from, cap);
            &&& from <= r < cap
            &&& t.spec_occupied(r)
            &&& t.players@[r] == p
            &&& forall|i: int| from <= i < r ==> !(t.spec_occupied(i) && t.players@[i] == p)
        },
    decreases cap - from,
{
    if from < cap {
        lemma_index_of_from(t, p, from + 1, cap);
    }
}

/// Where `first_empty_from` answers -1 every slot in range is occupied, and
/// where it answers an index, that index is the first empty slot.
pub proof fn lemma_first_empty_from(t: Team, from: int, cap: int)
    requires
        t.wf(),
        0 <= from,
        cap <= MAX_PLAYERS_PER_TEAM as int,
    ensures
        t.first_empty_from(from, cap) == -1 ==> forall|i: int|
            from <= i < cap ==> t.spec_occupied(i),
        t.first_empty_from(from, cap) >= 0 ==> {
            let r = t.first_empty_from(from, cap);
            &&& from <= r < cap
            &&& !t.spec_occupied(r)
            &&& forall|i: int| from <= i < r ==> t.spec_occupied(i)
        },
    decreases cap - from,
{
    if from < cap {
        lemma_first_empty_from(t, from + 1, cap);
    }
}

impl Default for Team {
    /// A blank ledger: all slots empty, all counters zero.
    fn default() -> (r: Self)
        ensures
            r.is_blank(),
    {
        let zero = Pubkey { value: 0 };
        let r = Team {
            players: vec![zero, zero, zero, zero, zero],
            total_bet: 0,
            player_spawns: vec![0, 0, 0, 0, 0],
            player_kills: vec![0, 0, 0, 0, 0],
        };
        assert(forall|i: int|
            0 <= i < MAX_PLAYERS_PER_TEAM
                ==> !r.spec_occupied(i) && r.player_spawns@[i] == 0 && r.player_kills@[i] == 0);
        r
    }
}

impl Team {
    /// Finds the first empty slot among the first `player_count` roster
    /// positions; rejects a count beyond the fixed capacity, and reports a
    /// full team when no slot is free.
    pub fn get_empty_slot(&self, player_count: usize) -> (r: Result<usize, WagerError>)
        requires
            self.wf(),
        ensures
            match r {
                Ok(i) => {
                    &&& player_count <= MAX_PLAYERS_PER_TEAM
                    &&& self.spec_first_empty(player_count as int) == i as int
                    &&& i < player_count
                    &&& !self.spec_occupied(i as int)
                    &&& forall|j: int| 0 <= j < i as int ==> self.spec_occupied(j)
                },
                Err(e) => {
                    &&& if player_count > MAX_PLAYERS_PER_TEAM {
                        e == WagerError::InvalidPlayerCount
                    } else {
                        &&& e == WagerError::TeamIsFull
                        &&& self.spec_first_empty(player_count as int) == -1
                        &&& forall|j: int| 0 <= j < player_count as int ==> self.spec_occupied(j)
                    }
                },
            },
    {
        if player_count > MAX_PLAYERS_PER_TEAM {
            return Err(WagerError::InvalidPlayerCount);
        }
        let mut i: usize = 0;
        while i < player_count
            invariant
                self.wf(),
                player_count <= MAX_PLAYERS_PER_TEAM,
                i <= player_count,
                self.spec_first_empty(player_count as int) == self.first_empty_from(
                    i as int,
                    player_count as int,
                ),
                forall|j: int| 0 <= j < i as int ==> self.spec_occupied(j),
            decreases player_count - i,
        {
            if self.players[i].value == 0 {
                return Ok(i);
            }
            i = i + 1;
        }
        proof {
            lemma_first_empty_from(*self, 0, player_count as int);
        }
        Err(WagerError::TeamIsFull)
    }

    /// A team counts as full for `player_count` when no slot among the first
    /// `player_count` is free (a count beyond capacity also reads as full,
    /// matching the slot-finding error).
    pub fn is_full(&self, player_count: usize) -> (r: bool)
        requires
            self.wf(),
        ensures
            r == (player_count > MAX_PLAYERS_PER_TEAM || self.spec_first_empty(
                player_count as int,
            ) == -1),
    {
        self.get_empty_slot(player_count).is_err()
    }

    /// Number of occupied slots among the first `max_players` (capped at the
    /// fixed capacity).
    pub fn get_active_player_count(&self, max_players: usize) -> (r: usize)
        requires
            self.wf(),
        ensures
            r as int == self.spec_active_count(clamp_cap(max_players as int)),
            r <= MAX_PLAYERS_PER_TEAM,
    {
        let n = if max_players < MAX_PLAYERS_PER_TEAM {
            max_players
        } else {
            MAX_PLAYERS_PER_TEAM
        };
        let mut count: usize = 0;
        let mut i: usize = 0;
        while i < n
            invariant
                self.wf(),
                n <= MAX_PLAYERS_PER_TEAM,
                i <= n,
                count as int == self.spec_active_count(i as int),
                count <= i,
            decreases n - i,
        {
            if self.players[i].value != 0 {
                count = count + 1;
            }
            i = i + 1;
        }
        count
    }

    /// Whether `player` occupies a slot among the first `max_players`.
    pub fn contains_player(&self, player: &Pubkey, max_players: usize) -> (r: bool)
        requires
            self.wf(),
        ensures
            r == self.spec_contains(*player, clamp_cap(max_players as int)),
    {
        let n = if max_players < MAX_PLAYERS_PER_TEAM {
            max_players
        } else {
            MAX_PLAYERS_PER_TEAM
        };
        let mut i: usize = 0;
        while i < n
            invariant
                self.wf(),
                n <= MAX_PLAYERS_PER_TEAM,
                n as int == clamp_cap(max_players as int),
                i <= n,
                forall|j: int|
                    0 <= j < i as int ==> !(self.spec_occupied(j) && self.players@[j] == *player),
            decreases n - i,
        {
            if self.players[i].value != 0 && self.players[i].value == player.value {
                assert(self.players@[i as int] == *player);
                assert(self.spec_contains(*player, n as int)) by {
                    assert(self.spec_occupied(i as int) && self.players@[i as int] == *player);
                }
                return true;
            }
            i = i + 1;
        }
        false
    }

    /// Index of the slot `player` occupies among the first `max_players`,
    /// if any.
    pub fn get_player_index(&self, player: &Pubkey, max_players: usize) -> (r: Option<usize>)
        requires
            self.wf(),
        ensures
            ({
                let cap = clamp_cap(max_players as int);
                match r {
                    Some(i) => self.spec_index_of(*player, cap) == i as int && (i as int) < cap,
                    None => self.spec_index_of(*player, cap) == -1,
                }
            }),
    {
        let n = if max_players < MAX_PLAYERS_PER_TEAM {
            max_players
        } else {
            MAX_PLAYERS_PER_TEAM
        };
        let mut i: usize = 0;
        while i < n
            invariant
                self.wf(),
                n <= MAX_PLAYERS_PER_TEAM,
                n as int == clamp_cap(max_players as int),
                i <= n,
                self.spec_index_of(*player, n as int) == self.index_of_from(
                    *player,
                    i as int,
                    n as int,
                ),
            decreases n - i,
        {
            if self.players[i].value != 0 && self.players[i].value == player.value {
                assert(self.players@[i as int] == *player);
                assert(self.index_of_from(*player, i as int, n as int) == i as int);
                return Some(i);
            }
            i = i + 1;
        }
        None
    }

    /// Every occupied slot among the first `max_players` has zero spawns
    /// left. Vacuously true of an empty roster: callers must account for
    /// that edge case explicitly.
    pub fn is_eliminated(&self, max_players: usize) -> (r: bool)
        requires
            self.wf(),
        ensures
            r == self.spec_eliminated(clamp_cap(max_players as int)),
    {
        let n = if max_players < MAX_PLAYERS_PER_TEAM {
            max_players
        } else {
            MAX_PLAYERS_PER_TEAM
        };
        let mut i: usize = 0;
        while i < n
            invariant
                self.wf(),
                n <= MAX_PLAYERS_PER_TEAM,
                n as int == clamp_cap(max_players as int),
                i <= n,
                forall|j: int|
                    0 <= j < i as int && self.spec_occupied(j) ==> self.player_spawns@[j] == 0,
            decreases n - i,
        {
            if self.players[i].value != 0 && self.player_spawns[i] != 0 {
                assert(!self.spec_eliminated(n as int)) by {
                    assert(self.spec_occupied(i as int));
                }
                return false;
            }
            i = i + 1;
        }
        true
    }

    /// Total kills recorded over the first `max_players` slots.
    pub fn get_total_kills(&self, max_players: usize) -> (r: u32)
        requires
            self.wf(),
        ensures
            r as int == self.spec_total_kills(clamp_cap(max_players as int)),
    {
        let n = if max_players < MAX_PLAYERS_PER_TEAM {
            max_players
        } else {
            MAX_PLAYERS_PER_TEAM
        };
        let mut total: u32 = 0;
        let mut i: usize = 0;
        while i < n
            invariant
                self.wf(),
                n <= MAX_PLAYERS_PER_TEAM,
                i <= n,
                total as int == self.spec_total_kills(i as int),
                total as int <= i as int * u16::MAX as int,
            decreases n - i,
        {
            total = total + self.player_kills[i] as u32;
            i = i + 1;
        }
        total
    }
}

/// A wagering session: identity and configuration fixed at creation, two
/// team ledgers, a lifecycle status and an expiration deadline.
#[derive(Clone, Debug)]
pub struct GameSession {
    pub session_id: String,
    pub authority: Pubkey,
    pub session_bet: u64,
    pub game_mode: GameMode,
    pub team_a: Team,
    pub team_b: Team,
    pub status: GameStatus,
    pub created_at: i64,
    pub expires_at: i64,
    pub spawns_per_purchase: u16,
    pub bump: u8,
    pub vault_bump: u8,
    pub vault_token_bump: u8,
}

impl GameSession {
    /// Active roster capacity per team, fixed by the game mode.
    pub open spec fn cap(self) -> int {
        self.game_mode.spec_players_per_team()
    }

    /// Both team ledgers are structurally well-formed.
    pub open spec fn wf(self) -> bool {
        self.team_a.wf() && self.team_b.wf()
    }

    /// The ledger selected by a team number (0 is team A, 1 is team B).
    pub open spec fn spec_team(self, team: u8) -> Team {
        if team == 0 {
            self.team_a
        } else {
            self.team_b
        }
    }

    /// A session is expired once the current time reaches its deadline.
    pub open spec fn spec_is_expired(self, now: i64) -> bool {
        now >= self.expires_at
    }

    /// Both rosters have no free slot below the mode's capacity.
    pub open spec fn spec_all_filled(self) -> bool {
        self.team_a.spec_first_empty(self.cap()) == -1 && self.team_b.spec_first_empty(self.cap())
            == -1
    }

    /// Roster slots beyond the mode's capacity are never used.
    pub open spec fn unused_slots_empty(self) -> bool {
        forall|i: int|
            self.cap() <= i < MAX_PLAYERS_PER_TEAM
                ==> !self.team_a.spec_occupied(i) && !self.team_b.spec_occupied(i)
    }

    /// No identity occupies two slots, on one ledger or across the two.
    pub open spec fn players_unique(self) -> bool {
        let cap = self.cap();
        &&& forall|i: int, j: int|
            0 <= i < cap && 0 <= j < cap && i != j && self.team_a.spec_occupied(i)
                && self.team_a.spec_occupied(j) ==> self.team_a.players@[i] != self.team_a.players@[j]
        &&& forall|i: int, j: int|
            0 <= i < cap && 0 <= j < cap && i != j && self.team_b.spec_occupied(i)
                && self.team_b.spec_occupied(j) ==> self.team_b.players@[i] != self.team_b.players@[j]
        &&& forall|i: int, j: int|
            0 <= i < cap && 0 <= j < cap && self.team_a.spec_occupied(i)
                && self.team_b.spec_occupied(j) ==> self.team_a.players@[i] != self.team_b.players@[j]
    }

    /// The session invariant: well-formed ledgers, counters cleared on empty
    /// slots, no slot used beyond capacity, and each player in at most one
    /// slot across both ledgers.
    pub open spec fn inv(self) -> bool {
        &&& self.wf()
        &&& self.team_a.empty_slots_cleared()
        &&& self.team_b.empty_slots_cleared()
        &&& self.unused_slots_empty()
        &&& self.players_unique()
    }

    /// The fields fixed at creation agree between two session values.
    pub open spec fn same_identity(self, other: GameSession) -> bool {
        &&& self.session_id == other.session_id
        &&& self.authority == other.authority
        &&& self.session_bet == other.session_bet
        &&& self.game_mode == other.game_mode
        &&& self.created_at == other.created_at
        &&& self.bump == other.bump
        &&& self.vault_bump == other.vault_bump
        &&& self.vault_token_bump == other.vault_token_bump
    }

    /// Creates a session: bounded id, positive bet, blank ledgers, waiting
    /// status, the mode's default spawns-per-purchase, and a deadline one
    /// timeout past the given time, computed with overflow-checked addition.
    pub fn new(
        session_id: String,
        authority: Pubkey,
        session_bet: u64,
        game_mode: GameMode,
        current_time: i64,
        bump: u8,
        vault_bump: u8,
        vault_token_bump: u8,
    ) -> (r: Result<GameSession, WagerError>)
        ensures
            match r {
                Ok(s) => {
                    &&& session_id@.len() <= MAX_SESSION_ID_LENGTH
                    &&& session_bet > 0
                    &&& current_time + SESSION_TIMEOUT_SECONDS <= i64::MAX
                    &&& s.session_id == session_id
                    &&& s.authority == authority
                    &&& s.session_bet == session_bet
                    &&& s.game_mode == game_mode
                    &&& s.team_a.is_blank()
                    &&& s.team_b.is_blank()
                    &&& s.status == GameStatus::WaitingForPlayers
                    &&& s.created_at == current_time
                    &&& s.expires_at == current_time + SESSION_TIMEOUT_SECONDS
                    &&& s.spawns_per_purchase == game_mode.spec_default_spawn_count()
                    &&& s.bump == bump
                    &&& s.vault_bump == vault_bump
                    &&& s.vault_token_bump == vault_token_bump
                    &&& s.inv()
                },
                Err(e) => {
                    if session_id@.len() > MAX_SESSION_ID_LENGTH {
                        e == WagerError::SessionIdTooLong
                    } else if session_bet == 0 {
                        e == WagerError::InvalidBetAmount
                    } else {
                        &&& e == WagerError::ArithmeticError
                        &&& current_time + SESSION_TIMEOUT_SECONDS > i64::MAX
                    }
                },
            },
    {
        if session_id.as_str().unicode_len() > MAX_SESSION_ID_LENGTH {
            return Err(WagerError::SessionIdTooLong);
        }
        if session_bet == 0 {
            return Err(WagerError::InvalidBetAmount);
        }
        let expires_at = match current_time.checked_add(SESSION_TIMEOUT_SECONDS) {
            Some(t) => t,
            None => {
                return Err(WagerError::ArithmeticError);
            },
        };
        let spawns_per_purchase = game_mode.default_spawn_count();
        let s = GameSession {
            session_id,
            authority,
            session_bet,
            game_mode,
            team_a: Team::default(),
            team_b: Team::default(),
            status: GameStatus::WaitingForPlayers,
            created_at: current_time,
            expires_at,
            spawns_per_purchase,
            bump,
            vault_bump,
            vault_token_bump,
        };
        Ok(s)
    }

    /// Whether the session has expired at the given time.
    pub fn is_expired(&self, current_time: i64) -> (r: bool)
        ensures
            r == self.spec_is_expired(current_time),
    {
        current_time >= self.expires_at
    }

    /// The first error a join-time slot request hits, if any: expiration,
    /// wrong status, a bad team number, or a full roster.
    pub open spec fn spec_empty_slot_err(self, team: u8, now: i64) -> Option<WagerError> {
        if self.spec_is_expired(now) {
            Some(WagerError::GameSessionExpired)
        } else if self.status != GameStatus::WaitingForPlayers {
            Some(WagerError::InvalidGameState)
        } else if team > 1 {
            Some(WagerError::InvalidTeam)
        } else if self.spec_team(team).spec_first_empty(self.cap()) == -1 {
            Some(WagerError::TeamIsFull)
        } else {
            None
        }
    }

    /// Finds the first free slot of the chosen team for a joining player,
    /// re-validating expiration and status first.
    pub fn get_player_empty_slot(&self, team: u8, current_time: i64) -> (r: Result<
        usize,
        WagerError,
    >)
        requires
            self.wf(),
        ensures
            match r {
                Ok(i) => {
                    &&& self.spec_empty_slot_err(team, current_time) is None
                    &&& team <= 1
                    &&& i as int == self.spec_team(team).spec_first_empty(self.cap())
                    &&& (i as int) < self.cap()
                    &&& !self.spec_team(team).spec_occupied(i as int)
                },
                Err(e) => self.spec_empty_slot_err(team, current_time) == Some(e),
            },
    {
        if self.is_expired(current_time) {
            return Err(WagerError::GameSessionExpired);
        }
        if !(self.status == GameStatus::WaitingForPlayers) {
            return Err(WagerError::InvalidGameState);
        }
        let player_count = self.game_mode.players_per_team();
        match team {
            0 => self.team_a.get_empty_slot(player_count),
            1 => self.team_b.get_empty_slot(player_count),
            _ => Err(WagerError::InvalidTeam),
        }
    }

    /// Whether both rosters are full for the session's mode.
    pub fn check_all_filled(&self) -> (r: Result<bool, WagerError>)
        requires
            self.wf(),
        ensures
            r == Ok::<bool, WagerError>(self.spec_all_filled()),
    {
        let player_count = self.game_mode.players_per_team();
        let team_a_full = self.team_a.is_full(player_count);
        let team_b_full = self.team_b.is_full(player_count);
        Ok(team_a_full && team_b_full)
    }

    /// Rejects a player who already occupies a slot on either ledger.
    pub fn validate_player_not_joined(&self, player: &Pubkey) -> (r: Result<(), WagerError>)
        requires
            self.wf(),
        ensures
            match r {
                Ok(()) => !self.team_a.spec_contains(*player, self.cap())
                    && !self.team_b.spec_contains(*player, self.cap()),
                Err(e) => {
                    &&& e == WagerError::PlayerAlreadyJoined
                    &&& (self.team_a.spec_contains(*player, self.cap())
                        || self.team_b.spec_contains(*player, self.cap()))
                },
            },
    {
        let player_count = self.game_mode.players_per_team();
        if !self.team_a.contains_player(player, player_count) && !self.team_b.contains_player(
            player,
            player_count,
        ) {
            Ok(())
        } else {
            Err(WagerError::PlayerAlreadyJoined)
        }
    }

    /// Whether the session's mode supports buying spawns.
    pub fn is_pay_to_spawn(&self) -> (r: bool)
        ensures
            r == self.game_mode.spec_is_pay_to_spawn(),
    {
        self.game_mode.is_pay_to_spawn()
    }
}

impl GameSession {
    /// All identities currently on either roster: team A's occupied slots in
    /// order, then team B's.
    pub fn get_all_players(&self) -> (r: Vec<Pubkey>)
        requires
            self.wf(),
        ensures
            r@ == self.team_a.spec_roster(self.cap()) + self.team_b.spec_roster(self.cap()),
    {
        let player_count = self.game_mode.players_per_team();
        let mut players: Vec<Pubkey> = Vec::new();
        let mut i: usize = 0;
        while i < player_count
            invariant
                self.wf(),
                player_count as int == self.cap(),
                player_count <= MAX_PLAYERS_PER_TEAM,
                i <= player_count,
                players@ == self.team_a.spec_roster(i as int),
            decreases player_count - i,
        {
            if self.team_a.players[i].value != 0 {
                players.push(self.team_a.players[i]);
            }
            i = i + 1;
        }
        let mut j: usize = 0;
        while j < player_count
            invariant
                self.wf(),
                player_count as int == self.cap(),
                player_count <= MAX_PLAYERS_PER_TEAM,
                j <= player_count,
                players@ == self.team_a.spec_roster(self.cap()) + self.team_b.spec_roster(
                    j as int,
                ),
            decreases player_count - j,
        {
            if self.team_b.players[j].value != 0 {
                players.push(self.team_b.players[j]);
            }
            j = j + 1;
        }
        players
    }

    /// Which ledger holds `player` (0 for team A, 1 for team B, checking A
    /// first) and at which slot.
    pub fn get_player_team_and_index(&self, player: Pubkey) -> (r: Result<(u8, usize), WagerError>)
        requires
            self.wf(),
        ensures
            match r {
                Ok((team, i)) => {
                    if self.team_a.spec_index_of(player, self.cap()) >= 0 {
                        team == 0 && i as int == self.team_a.spec_index_of(player, self.cap())
                    } else {
                        team == 1 && i as int == self.team_b.spec_index_of(player, self.cap())
                    }
                },
                Err(e) => {
                    &&& e == WagerError::PlayerNotFound
                    &&& self.team_a.spec_index_of(player, self.cap()) == -1
                    &&& self.team_b.spec_index_of(player, self.cap()) == -1
                },
            },
    {
        let player_count = self.game_mode.players_per_team();
        if let Some(index) = self.team_a.get_player_index(&player, player_count) {
            return Ok((0, index));
        }
        if let Some(index) = self.team_b.get_player_index(&player, player_count) {
            return Ok((1, index));
        }
        Err(WagerError::PlayerNotFound)
    }

    /// The first error a per-team player lookup hits, if any.
    pub open spec fn spec_player_index_err(self, team: u8, player: Pubkey) -> Option<WagerError> {
        if team > 1 {
            Some(WagerError::InvalidTeam)
        } else if self.spec_team(team).spec_index_of(player, self.cap()) == -1 {
            Some(WagerError::PlayerNotFound)
        } else {
            None
        }
    }

    /// Slot index of `player` on the chosen team.
    pub fn get_player_index(&self, team: u8, player: Pubkey) -> (r: Result<usize, WagerError>)
        requires
            self.wf(),
        ensures
            match r {
                Ok(i) => {
                    &&& self.spec_player_index_err(team, player) is None
                    &&& team <= 1
                    &&& i as int == self.spec_team(team).spec_index_of(player, self.cap())
                    &&& (i as int) < self.cap()
                    &&& self.spec_team(team).spec_occupied(i as int)
                    &&& self.spec_team(team).players@[i as int] == player
                },
                Err(e) => self.spec_player_index_err(team, player) == Some(e),
            },
    {
        let player_count = self.game_mode.players_per_team();
        let found = match team {
            0 => self.team_a.get_player_index(&player, player_count),
            1 => self.team_b.get_player_index(&player, player_count),
            _ => {
                return Err(WagerError::InvalidTeam);
            },
        };
        match found {
            Some(i) => {
                proof {
                    lemma_index_of_from(self.spec_team(team), player, 0, self.cap());
                }
                Ok(i)
            },
            None => Err(WagerError::PlayerNotFound),
        }
    }

    /// Kills plus remaining spawns of `player`, found on either ledger, with
    /// overflow-checked addition.
    pub fn get_kills_and_spawns(&self, player_pubkey: Pubkey) -> (r: Result<u16, WagerError>)
        requires
            self.wf(),
        ensures
            ({
                let ai = self.team_a.spec_index_of(player_pubkey, self.cap());
                let bi = self.team_b.spec_index_of(player_pubkey, self.cap());
                let t = if ai >= 0 {
                    self.team_a
                } else {
                    self.team_b
                };
                let slot = if ai >= 0 {
                    ai
                } else {
                    bi
                };
                match r {
                    Ok(v) => {
                        &&& (ai >= 0 || bi >= 0)
                        &&& v == t.player_kills@[slot] + t.player_spawns@[slot]
                    },
                    Err(e) => {
                        if ai == -1 && bi == -1 {
                            e == WagerError::PlayerNotFound
                        } else {
                            &&& e == WagerError::ArithmeticError
                            &&& t.player_kills@[slot] + t.player_spawns@[slot] > u16::MAX
                        }
                    },
                }
            }),
    {
        let (team, index) = match self.get_player_team_and_index(player_pubkey) {
            Ok(p) => p,
            Err(e) => {
                return Err(e);
            },
        };
        proof {
            lemma_index_of_from(self.spec_team(team), player_pubkey, 0, self.cap());
        }
        let (kills, spawns) = if team == 0 {
            (self.team_a.player_kills[index], self.team_a.player_spawns[index])
        } else {
            (self.team_b.player_kills[index], self.team_b.player_spawns[index])
        };
        match kills.checked_add(spawns) {
            Some(v) => Ok(v),
            None => Err(WagerError::ArithmeticError),
        }
    }
}

/// A mutation that keeps both rosters and touches counters only at occupied
/// slots preserves the session invariant.
pub proof fn lemma_inv_preserved_by_counter_updates(pre: GameSession, post: GameSession)
    requires
        pre.inv(),
        post.wf(),
        post.game_mode == pre.game_mode,
        post.team_a.players@ == pre.team_a.players@,
        post.team_b.players@ == pre.team_b.players@,
        forall|i: int|
            0 <= i < MAX_PLAYERS_PER_TEAM && !pre.team_a.spec_occupied(i)
                ==> post.team_a.player_spawns@[i] == pre.team_a.player_spawns@[i]
                && post.team_a.player_kills@[i] == pre.team_a.player_kills@[i],
        forall|i: int|
            0 <= i < MAX_PLAYERS_PER_TEAM && !pre.team_b.spec_occupied(i)
                ==> post.team_b.player_spawns@[i] == pre.team_b.player_spawns@[i]
                && post.team_b.player_kills@[i] == pre.team_b.player_kills@[i],
    ensures
        post.inv(),
{
    assert forall|i: int|
        0 <= i < MAX_PLAYERS_PER_TEAM && !post.team_a.spec_occupied(i)
            implies post.team_a.player_spawns@[i] == 0 && post.team_a.player_kills@[i] == 0 by {
        assert(!pre.team_a.spec_occupied(i));
        assert(pre.team_a.player_spawns@[i] == 0 && pre.team_a.player_kills@[i] == 0);
    }
    assert forall|i: int|
        0 <= i < MAX_PLAYERS_PER_TEAM && !post.team_b.spec_occupied(i)
            implies post.team_b.player_spawns@[i] == 0 && post.team_b.player_kills@[i] == 0 by {
        assert(!pre.team_b.spec_occupied(i));
        assert(pre.team_b.player_spawns@[i] == 0 && pre.team_b.player_kills@[i] == 0);
    }
    assert(post.team_a.empty_slots_cleared());
    assert(post.team_b.empty_slots_cleared());
    assert forall|i: int|
        post.cap() <= i < MAX_PLAYERS_PER_TEAM implies !post.team_a.spec_occupied(i)
            && !post.team_b.spec_occupied(i) by {
        assert(!pre.team_a.spec_occupied(i) && !pre.team_b.spec_occupied(i));
    }
    assert(post.players_unique()) by {
        assert forall|i: int, j: int|
            0 <= i < post.cap() && 0 <= j < post.cap() && i != j && post.team_a.spec_occupied(i)
                && post.team_a.spec_occupied(j)
                implies post.team_a.players@[i] != post.team_a.players@[j] by {
            assert(pre.team_a.spec_occupied(i) && pre.team_a.spec_occupied(j));
        }
        assert forall|i: int, j: int|
            0 <= i < post.cap() && 0 <= j < post.cap() && i != j && post.team_b.spec_occupied(i)
                && post.team_b.spec_occupied(j)
                implies post.team_b.players@[i] != post.team_b.players@[j] by {
            assert(pre.team_b.spec_occupied(i) && pre.team_b.spec_occupied(j));
        }
        assert forall|i: int, j: int|
            0 <= i < post.cap() && 0 <= j < post.cap() && post.team_a.spec_occupied(i)
                && post.team_b.spec_occupied(j)
                implies post.team_a.players@[i] != post.team_b.players@[j] by {
            assert(pre.team_a.spec_occupied(i) && pre.team_b.spec_occupied(j));
        }
    }
}

/// The opposing team number.
pub open spec fn spec_other_team(team: u8) -> u8 {
    if team == 0 {
        1
    } else {
        0
    }
}

impl GameSession {
    /// Fields a counter mutation never touches: identity, status, deadline
    /// and spawn configuration, and both rosters and pool totals.
    pub open spec fn counters_frame(self, post: GameSession) -> bool {
        &&& post.same_identity(self)
        &&& post.status == self.status
        &&& post.expires_at == self.expires_at
        &&& post.spawns_per_purchase == self.spawns_per_purchase
        &&& post.team_a.players@ == self.team_a.players@
        &&& post.team_b.players@ == self.team_b.players@
        &&& post.team_a.total_bet == self.team_a.total_bet
        &&& post.team_b.total_bet == self.team_b.total_bet
    }

    /// The first error a kill record hits, if any: wrong status, self-kill,
    /// a failed killer or victim lookup, a saturated kill counter, or a
    /// victim already out of spawns.
    pub open spec fn spec_add_kill_err(
        self,
        killer_team: u8,
        killer: Pubkey,
        victim_team: u8,
        victim: Pubkey,
    ) -> Option<WagerError> {
        let kerr = self.spec_player_index_err(killer_team, killer);
        let verr = self.spec_player_index_err(victim_team, victim);
        let ki = self.spec_team(killer_team).spec_index_of(killer, self.cap());
        let vi = self.spec_team(victim_team).spec_index_of(victim, self.cap());
        if self.status != GameStatus::InProgress {
            Some(WagerError::GameNotInProgress)
        } else if killer == victim {
            Some(WagerError::SelfKillNotAllowed)
        } else if kerr is Some {
            kerr
        } else if verr is Some {
            verr
        } else if self.spec_team(killer_team).player_kills@[ki] == u16::MAX {
            Some(WagerError::KillCountOverflow)
        } else if self.spec_team(victim_team).player_spawns@[vi] == 0 {
            Some(WagerError::PlayerHasNoSpawns)
        } else {
            None
        }
    }

    /// Records a kill while the game is in progress: the killer's kill
    /// counter rises by exactly one and the victim loses exactly one spawn,
    /// failing (with no change at all) if the victim has none left. A spawn
    /// counter never goes below zero.
    pub fn add_kill(
        &mut self,
        killer_team: u8,
        killer: Pubkey,
        victim_team: u8,
        victim: Pubkey,
    ) -> (r: Result<(), WagerError>)
        requires
            old(self).wf(),
        ensures
            final(self).wf(),
            match r {
                Ok(()) => ({
                    let cap = old(self).cap();
                    let ki = old(self).spec_team(killer_team).spec_index_of(killer, cap);
                    let vi = old(self).spec_team(victim_team).spec_index_of(victim, cap);
                    &&& old(self).spec_add_kill_err(killer_team, killer, victim_team, victim)
                        is None
                    &&& killer_team <= 1
                    &&& victim_team <= 1
                    &&& old(self).counters_frame(*final(self))
                    &&& final(self).spec_team(killer_team).player_kills@ == old(self).spec_team(
                        killer_team,
                    ).player_kills@.update(
                        ki,
                        (old(self).spec_team(killer_team).player_kills@[ki] + 1) as u16,
                    )
                    &&& final(self).spec_team(spec_other_team(killer_team)).player_kills@ == old(
                        self,
                    ).spec_team(spec_other_team(killer_team)).player_kills@
                    &&& final(self).spec_team(victim_team).player_spawns@ == old(self).spec_team(
                        victim_team,
                    ).player_spawns@.update(
                        vi,
                        (old(self).spec_team(victim_team).player_spawns@[vi] - 1) as u16,
                    )
                    &&& final(self).spec_team(spec_other_team(victim_team)).player_spawns@ == old(
                        self,
                    ).spec_team(spec_other_team(victim_team)).player_spawns@
                    &&& old(self).spec_team(victim_team).player_spawns@[vi] >= 1
                    &&& old(self).inv() ==> final(self).inv()
                }),
                Err(e) => {
                    &&& *final(self) == *old(self)
                    &&& old(self).spec_add_kill_err(killer_team, killer, victim_team, victim)
                        == Some(e)
                },
            },
    {
        if !(self.status == GameStatus::InProgress) {
            return Err(WagerError::GameNotInProgress);
        }
        if killer == victim {
            return Err(WagerError::SelfKillNotAllowed);
        }
        let killer_index = match self.get_player_index(killer_team, killer) {
            Ok(i) => i,
            Err(e) => {
                return Err(e);
            },
        };
        let victim_index = match self.get_player_index(victim_team, victim) {
            Ok(i) => i,
            Err(e) => {
                return Err(e);
            },
        };
        let current_kills = if killer_team == 0 {
            self.team_a.player_kills[killer_index]
        } else {
            self.team_b.player_kills[killer_index]
        };
        if current_kills == u16::MAX {
            return Err(WagerError::KillCountOverflow);
        }
        let current_spawns = if victim_team == 0 {
            self.team_a.player_spawns[victim_index]
        } else {
            self.team_b.player_spawns[victim_index]
        };
        if current_spawns == 0 {
            return Err(WagerError::PlayerHasNoSpawns);
        }
        if killer_team == 0 {
            self.team_a.player_kills.set(killer_index, current_kills + 1);
        } else {
            self.team_b.player_kills.set(killer_index, current_kills + 1);
        }
        if victim_team == 0 {
            self.team_a.player_spawns.set(victim_index, current_spawns - 1);
        } else {
            self.team_b.player_spawns.set(victim_index, current_spawns - 1);
        }
        proof {
            if old(self).inv() {
                lemma_inv_preserved_by_counter_updates(*old(self), *self);
            }
        }
        Ok(())
    }

    /// The first error a spawn top-up hits, if any.
    pub open spec fn spec_add_spawns_err(self, team: u8, player_index: int) -> Option<WagerError> {
        if self.status != GameStatus::InProgress && self.status != GameStatus::WaitingForPlayers {
            Some(WagerError::InvalidGameState)
        } else if player_index >= MAX_PLAYERS_PER_TEAM {
            Some(WagerError::InvalidPlayerIndex)
        } else if team > 1 {
            Some(WagerError::InvalidTeam)
        } else if self.spec_team(team).player_spawns@[player_index] + self.spawns_per_purchase
            > u16::MAX {
            Some(WagerError::ArithmeticError)
        } else {
            None
        }
    }

    /// Adds the configured spawns-per-purchase to one slot's spawn counter,
    /// with overflow-checked addition.
    pub fn add_spawns(&mut self, team: u8, player_index: usize) -> (r: Result<(), WagerError>)
        requires
            old(self).wf(),
        ensures
            final(self).wf(),
            match r {
                Ok(()) => {
                    &&& old(self).spec_add_spawns_err(team, player_index as int) is None
                    &&& team <= 1
                    &&& player_index < MAX_PLAYERS_PER_TEAM
                    &&& old(self).counters_frame(*final(self))
                    &&& final(self).spec_team(team).player_spawns@ == old(self).spec_team(
                        team,
                    ).player_spawns@.update(
                        player_index as int,
                        (old(self).spec_team(team).player_spawns@[player_index as int] + old(
                            self,
                        ).spawns_per_purchase) as u16,
                    )
                    &&& final(self).spec_team(spec_other_team(team)).player_spawns@ == old(
                        self,
                    ).spec_team(spec_other_team(team)).player_spawns@
                    &&& final(self).team_a.player_kills@ == old(self).team_a.player_kills@
                    &&& final(self).team_b.player_kills@ == old(self).team_b.player_kills@
                    &&& (old(self).inv() && (old(self).spec_team(team).spec_occupied(
                        player_index as int,
                    ) || old(self).spawns_per_purchase == 0)) ==> final(self).inv()
                },
                Err(e) => {
                    &&& *final(self) == *old(self)
                    &&& old(self).spec_add_spawns_err(team, player_index as int) == Some(e)
                },
            },
    {
        if !(self.status == GameStatus::InProgress || self.status == GameStatus::WaitingForPlayers)
        {
            return Err(WagerError::InvalidGameState);
        }
        if player_index >= MAX_PLAYERS_PER_TEAM {
            return Err(WagerError::InvalidPlayerIndex);
        }
        let spawn_increment = self.spawns_per_purchase;
        match team {
            0 => {
                let current_spawns = self.team_a.player_spawns[player_index];
                match current_spawns.checked_add(spawn_increment) {
                    Some(v) => self.team_a.player_spawns.set(player_index, v),
                    None => {
                        return Err(WagerError::ArithmeticError);
                    },
                }
            },
            1 => {
                let current_spawns = self.team_b.player_spawns[player_index];
                match current_spawns.checked_add(spawn_increment) {
                    Some(v) => self.team_b.player_spawns.set(player_index, v),
                    None => {
                        return Err(WagerError::ArithmeticError);
                    },
                }
            },
            _ => {
                return Err(WagerError::InvalidTeam);
            },
        }
        proof {
            if old(self).inv() && (old(self).spec_team(team).spec_occupied(player_index as int)
                || old(self).spawns_per_purchase == 0) {
                lemma_inv_preserved_by_counter_updates(*old(self), *self);
            }
        }
        Ok(())
    }

    /// Sets one slot's spawn counter to the mode's starting spawn count, as
    /// done right after a player takes the slot.
    pub fn initialize_player_spawns(&mut self, team: u8, player_index: usize) -> (r: Result<
        (),
        WagerError,
    >)
        requires
            old(self).wf(),
        ensures
            final(self).wf(),
            match r {
                Ok(()) => {
                    &&& team <= 1
                    &&& player_index < MAX_PLAYERS_PER_TEAM
                    &&& old(self).counters_frame(*final(self))
                    &&& final(self).spec_team(team).player_spawns@ == old(self).spec_team(
                        team,
                    ).player_spawns@.update(
                        player_index as int,
                        old(self).game_mode.spec_default_spawn_count(),
                    )
                    &&& final(self).spec_team(spec_other_team(team)).player_spawns@ == old(
                        self,
                    ).spec_team(spec_other_team(team)).player_spawns@
                    &&& final(self).team_a.player_kills@ == old(self).team_a.player_kills@
                    &&& final(self).team_b.player_kills@ == old(self).team_b.player_kills@
                    &&& (old(self).inv() && old(self).spec_team(team).spec_occupied(
                        player_index as int,
                    )) ==> final(self).inv()
                },
                Err(e) => {
                    &&& *final(self) == *old(self)
                    &&& if player_index >= MAX_PLAYERS_PER_TEAM {
                        e == WagerError::InvalidPlayerIndex
                    } else {
                        e == WagerError::InvalidTeam && team > 1
                    }
                },
            },
    {
        if player_index >= MAX_PLAYERS_PER_TEAM {
            return Err(WagerError::InvalidPlayerIndex);
        }
        let default_spawns = self.game_mode.default_spawn_count();
        match team {
            0 => {
                self.team_a.player_spawns.set(player_index, default_spawns);
            },
            1 => {
                self.team_b.player_spawns.set(player_index, default_spawns);
            },
            _ => {
                return Err(WagerError::InvalidTeam);
            },
        }
        proof {
            if old(self).inv() && old(self).spec_team(team).spec_occupied(player_index as int) {
                lemma_inv_preserved_by_counter_updates(*old(self), *self);
            }
        }
        Ok(())
    }

    /// The winning team, if exactly one team is fully eliminated: 0 when
    /// team B is out, 1 when team A is out, and nothing otherwise.
    pub fn check_winner(&self) -> (r: Option<u8>)
        requires
            self.wf(),
        ensures
            ({
                let a_out = self.team_a.spec_eliminated(self.cap());
                let b_out = self.team_b.spec_eliminated(self.cap());
                r == if a_out && !b_out {
                    Some(1u8)
                } else if b_out && !a_out {
                    Some(0u8)
                } else {
                    None::<u8>
                }
            }),
    {
        let player_count = self.game_mode.players_per_team();
        if self.team_a.is_eliminated(player_count) && !self.team_b.is_eliminated(player_count) {
            Some(1)
        } else if self.team_b.is_eliminated(player_count) && !self.team_a.is_eliminated(
            player_count,
        ) {
            Some(0)
        } else {
            None
        }
    }

    /// One team's total kills and total remaining spawns over the active
    /// roster, with the spawn sum overflow-checked.
    pub fn get_team_stats(&self, team: u8) -> (r: Result<(u32, u16), WagerError>)
        requires
            self.wf(),
        ensures
            match r {
                Ok((kills, spawns)) => {
                    &&& team <= 1
                    &&& kills as int == self.spec_team(team).spec_total_kills(self.cap())
                    &&& spawns as int == self.spec_team(team).spec_total_spawns(self.cap())
                },
                Err(e) => {
                    if team > 1 {
                        e == WagerError::InvalidTeam
                    } else {
                        &&& e == WagerError::ArithmeticError
                        &&& self.spec_team(team).spec_total_spawns(self.cap()) > u16::MAX
                    }
                },
            },
    {
        if team > 1 {
            return Err(WagerError::InvalidTeam);
        }
        let player_count = self.game_mode.players_per_team();
        let kills = if team == 0 {
            self.team_a.get_total_kills(player_count)
        } else {
            self.team_b.get_total_kills(player_count)
        };
        let mut spawn_total: u32 = 0;
        let mut i: usize = 0;
        while i < player_count
            invariant
                self.wf(),
                team <= 1,
                player_count as int == self.cap(),
                player_count <= MAX_PLAYERS_PER_TEAM,
                i <= player_count,
                spawn_total as int == self.spec_team(team).spec_total_spawns(i as int),
                spawn_total as int <= i as int * u16::MAX as int,
            decreases player_count - i,
        {
            let s = if team == 0 {
                self.team_a.player_spawns[i]
            } else {
                self.team_b.player_spawns[i]
            };
            spawn_total = spawn_total + s as u32;
            i = i + 1;
        }
        if spawn_total > u16::MAX as u32 {
            return Err(WagerError::ArithmeticError);
        }
        Ok((kills, spawn_total as u16))
    }

    /// Whether a waiting session has both rosters full and may start.
    pub fn can_start(&self) -> (r: Result<bool, WagerError>)
        requires
            self.wf(),
        ensures
            match r {
                Ok(b) => self.status == GameStatus::WaitingForPlayers && b
                    == self.spec_all_filled(),
                Err(e) => e == WagerError::InvalidGameState && self.status
                    != GameStatus::WaitingForPlayers,
            },
    {
        if !(self.status == GameStatus::WaitingForPlayers) {
            return Err(WagerError::InvalidGameState);
        }
        self.check_all_filled()
    }

    /// Reconfigures how many spawns one purchase grants, within 1 to 50.
    pub fn update_spawns_per_purchase(&mut self, new_spawns_per_purchase: u16) -> (r: Result<
        (),
        WagerError,
    >)
        ensures
            match r {
                Ok(()) => {
                    &&& 0 < new_spawns_per_purchase <= 50
                    &&& final(self).spawns_per_purchase == new_spawns_per_purchase
                    &&& final(self).same_identity(*old(self))
                    &&& final(self).status == old(self).status
                    &&& final(self).expires_at == old(self).expires_at
                    &&& final(self).team_a == old(self).team_a
                    &&& final(self).team_b == old(self).team_b
                },
                Err(e) => {
                    &&& *final(self) == *old(self)
                    &&& e == WagerError::InvalidSpawnCount
                    &&& (new_spawns_per_purchase == 0 || new_spawns_per_purchase > 50)
                },
            },
    {
        if !(new_spawns_per_purchase > 0 && new_spawns_per_purchase <= 50) {
            return Err(WagerError::InvalidSpawnCount);
        }
        self.spawns_per_purchase = new_spawns_per_purchase;
        Ok(())
    }
}

} // verus!
