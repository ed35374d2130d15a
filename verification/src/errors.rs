//! Error kinds for the wagering core.
//!
//! Every failure an operation can surface is a distinct variant, so callers
//! can tell validation faults, state conflicts, arithmetic aborts, solvency
//! failures and distribution partial failures apart.

use vstd::prelude::*;

verus! {

#[derive(Clone, Copy, PartialEq, Eq, Structural, Debug)]
pub enum WagerError {
    InvalidGameState,
    InvalidTeamSelection,
    TeamIsFull,
    InsufficientFunds,
    InvalidPlayerCount,
    NotAllPlayersJoined,
    GameNotCompleted,
    UnauthorizedDistribution,
    InvalidWinningTeam,
    TotalPotCalculationError,
    NoWinnersFound,
    WinningsCalculationError,
    IncompleteDistribution,
    InvalidTeam,
    PlayerAccountNotFound,
    InvalidWinner,
    ArithmeticError,
    InvalidMint,
    InvalidRemainingAccounts,
    InvalidWinnerTokenAccount,
    InvalidTokenMint,
    InvalidSpawns,
    UnauthorizedKill,
    UnauthorizedPayToSpawn,
    PlayerNotFound,
    InvalidPlayerTokenAccount,
    InvalidPlayer,
    PlayerHasNoSpawns,
    GameNotInProgress,
    PlayerAlreadyJoined,
    InvalidBetAmount,
    BetAmountTooLow,
    BetAmountTooHigh,
    InsufficientVaultBalance,
    GameSessionExpired,
    SessionIdTooShort,
    SessionIdTooLong,
    InvalidSessionIdFormat,
    InvalidGameMode,
    UnauthorizedAction,
    InvalidExtensionTime,
    GameAlreadyStarted,
    GameAlreadyInProgress,
    SelfKillNotAllowed,
    InvalidPlayerIndex,
    KillCountOverflow,
    MaxSpawnsExceeded,
    InvalidSpawnCount,
    NoActiveWinners,
    DistributionPartialFailure,
    AlreadyDistributed,
    TransferVerificationFailed,
    TokenTransferFailed,
    InsufficientUserBalance,
    InvalidTokenAccountOwner,
    TeamSlotNoLongerAvailable,
    UnauthorizedGameServer,
    TooManyRemainingAccounts,
    InvalidVaultTokenAccount,
    VaultNotEmpty,
    EmptyVault,
}

} // verus!
