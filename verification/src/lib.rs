//! Escrowed team-vs-team wagering sessions.
//!
//! A session holds a bet-sized escrow pool for a contest between two fixed
//! rosters. Players join by depositing the session bet, earn and spend
//! per-player spawns through kills and purchases, and the pool is paid out
//! either as pooled pay-to-spawn earnings or winner-takes-all, under a
//! guarded lifecycle state machine. This crate is the verified core: the
//! data model, the state transitions and the payout arithmetic. Moving real
//! value, authenticating callers and reading the clock are the caller's
//! side of the protocol; every operation here takes those observations as
//! plain values.

pub mod create_game_session;
pub mod distribute_winnings;
pub mod errors;
pub mod escrow;
pub mod join_user;
pub mod pay_to_spawn;
pub mod state;
