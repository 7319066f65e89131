//! What the program emits, and the token movements it asks the token program to make.
use vstd::prelude::*;

use crate::pubkey::Pubkey;
use crate::state::Arena;

verus! {

/// A `transfer_checked` call: move `amount` base units of `mint` (with `decimals`
/// decimal places) from `from` to `to`, authorised by `authority`.
#[derive(Clone, Copy, Debug)]
pub struct TokenTransfer {
    pub from: Pubkey,
    pub mint: Pubkey,
    pub to: Pubkey,
    pub authority: Pubkey,
    pub amount: u64,
    pub decimals: u8,
}

/// Emitted when a challenger opens a battle and deposits the stake.
#[derive(Clone, Copy, Debug)]
pub struct BattleCreated {
    pub battle: Pubkey,
    pub battle_id: [u8; 32],
    pub challenger: Pubkey,
    pub challenger_vault: Pubkey,
    pub stake_micro_usdc: u64,
    pub arena: Arena,
}

/// Emitted when an opponent joins and deposits the matching stake.
#[derive(Clone, Copy, Debug)]
pub struct BattleJoined {
    pub battle: Pubkey,
    pub opponent: Pubkey,
    pub opponent_vault: Pubkey,
}

/// Emitted when trading starts, with the trading schedule.
#[derive(Clone, Copy, Debug)]
pub struct BattleStarted {
    pub battle: Pubkey,
    pub starts_at: i64,
    pub trading_locks_at: i64,
    pub trading_ends_at: i64,
}

/// Emitted when the result is recorded.
#[derive(Clone, Copy, Debug)]
pub struct BattleResolved {
    pub battle: Pubkey,
    pub player_a_final_micro_usdc: u64,
    pub player_b_final_micro_usdc: u64,
    pub winner: Pubkey,
    pub is_draw: bool,
}

/// Emitted after a routed swap passed its balance checks.
#[derive(Clone, Copy, Debug)]
pub struct SwapExecuted {
    pub battle: Pubkey,
    pub actor: Pubkey,
    pub input_mint: Pubkey,
    pub output_mint: Pubkey,
    pub amount_in: u64,
    pub amount_out: u64,
}

} // verus!
