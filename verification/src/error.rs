//! The program's error codes.
use vstd::prelude::*;

verus! {

/// Why an instruction of the battle program was rejected.
#[derive(Clone, Copy, Debug, PartialEq, Eq, Structural)]
pub enum PvpTradeError {
    /// Protocol actions are paused.
    ProtocolPaused,
    /// The battle is not in the required state.
    InvalidStatus,
    /// Stake must be greater than zero.
    InvalidStake,
    /// Battle duration must be positive.
    InvalidDuration,
    /// Trading lock must be between zero and the battle duration.
    InvalidTradingLock,
    /// Settlement fee exceeds the configured maximum.
    FeeTooHigh,
    /// A challenger cannot join their own battle.
    SelfMatch,
    /// The signer is not authorised for this action.
    Unauthorized,
    /// Trading is still active.
    TradingStillActive,
    /// The battle has not reached its end time.
    BattleNotEnded,
    /// Arithmetic overflow while calculating battle time.
    ArithmeticOverflow,
    /// Settlement mint does not match the protocol configuration.
    InvalidSettlementMint,
    /// Settlement mint must use six decimal places.
    InvalidSettlementMintDecimals,
    /// The configured swap slippage is outside the allowed range.
    InvalidSlippage,
    /// The token is not enabled for this battle arena.
    TokenNotAllowed,
    /// The swap mint pair is invalid.
    InvalidSwapMint,
    /// Trading is locked for this battle.
    TradingLocked,
    /// The swap amount must be positive.
    InvalidSwapAmount,
    /// The minimum output exceeds the quoted output, or lies below what the declared
    /// slippage allows.
    InvalidMinimumOutput,
    /// The router instruction data is too large.
    RouteDataTooLarge,
    /// The configured swap program does not match.
    InvalidSwapProgram,
    /// The input vault does not belong to this player and battle.
    InvalidInputVault,
    /// The output vault does not belong to this player and battle.
    InvalidOutputVault,
    /// The input vault does not contain enough tokens.
    InsufficientVaultBalance,
    /// The route omits the required player vault accounts.
    InvalidRouteAccounts,
    /// The route requested an unexpected transaction signer.
    UnexpectedRouteSigner,
    /// The router did not debit the exact requested input amount.
    InvalidSwapDebit,
    /// The router reduced the destination balance.
    InvalidSwapCredit,
    /// The router returned less than the required minimum output.
    MinimumOutputNotMet,
}

/// Why the mock swap router rejected a swap.
#[derive(Clone, Copy, Debug, PartialEq, Eq, Structural)]
pub enum MockSwapError {
    /// Mock swap amounts must be positive.
    InvalidAmount,
}

} // verus!
