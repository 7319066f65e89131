//! The program's stored accounts and the invariants they keep.
use vstd::prelude::*;

use crate::pubkey::Pubkey;

verus! {

/// Largest settlement fee, in basis points, that a protocol configuration may allow.
pub const MAX_PROTOCOL_FEE_BPS: u16 = 1_000;

/// Largest swap slippage, in basis points, that a swap configuration may allow.
pub const MAX_SWAP_SLIPPAGE_BPS: u16 = 2_000;

/// Largest router instruction payload, in bytes.
pub const MAX_ROUTE_DATA_BYTES: usize = 1_024;

/// Decimal places the settlement mint (native USDC) must use.
pub const SETTLEMENT_MINT_DECIMALS: u8 = 6;

/// Basis points in a whole.
pub const BPS_DENOMINATOR: u16 = 10_000;

/// The two battle arenas, each with its own token risk policy.
#[derive(Clone, Copy, Debug, PartialEq, Eq, Structural)]
pub enum Arena {
    Safe,
    Meme,
}

/// The battle lifecycle.
#[derive(Clone, Copy, Debug, PartialEq, Eq, Structural)]
pub enum BattleStatus {
    Open,
    Funded,
    Active,
    TradingLocked,
    Settling,
    Resolved,
    Claimed,
    Cancelled,
    Refunded,
}

/// The edges of the battle state machine of the protocol specification; every other
/// change of status is forbidden.
pub open spec fn transition_allowed(from: BattleStatus, to: BattleStatus) -> bool {
    match (from, to) {
        (BattleStatus::Open, BattleStatus::Funded) => true,
        (BattleStatus::Open, BattleStatus::Cancelled) => true,
        (BattleStatus::Funded, BattleStatus::Active) => true,
        (BattleStatus::Funded, BattleStatus::Refunded) => true,
        (BattleStatus::Active, BattleStatus::TradingLocked) => true,
        (BattleStatus::TradingLocked, BattleStatus::Settling) => true,
        (BattleStatus::Settling, BattleStatus::Resolved) => true,
        (BattleStatus::Resolved, BattleStatus::Claimed) => true,
        _ => false,
    }
}

/// Global protocol settings.
#[derive(Clone, Copy, Debug)]
pub struct ProtocolConfig {
    pub authority: Pubkey,
    pub settlement_mint: Pubkey,
    pub max_settlement_fee_bps: u16,
    pub default_trading_lock_seconds: i64,
    pub paused: bool,
    pub bump: u8,
}

impl ProtocolConfig {
    /// What every configuration written by `initialize_protocol` satisfies.
    pub open spec fn well_formed(self) -> bool {
        &&& self.max_settlement_fee_bps <= MAX_PROTOCOL_FEE_BPS
        &&& self.default_trading_lock_seconds >= 0
    }
}

/// The approved swap router and the slippage it may be asked to tolerate.
#[derive(Clone, Copy, Debug)]
pub struct SwapConfig {
    pub approved_swap_program: Pubkey,
    pub max_slippage_bps: u16,
    pub bump: u8,
}

impl SwapConfig {
    /// What every configuration written by `initialize_swap_config` satisfies.
    pub open spec fn well_formed(self) -> bool {
        0 < self.max_slippage_bps <= MAX_SWAP_SLIPPAGE_BPS
    }
}

/// Which arenas may trade a mint.
#[derive(Clone, Copy, Debug)]
pub struct TokenPolicy {
    pub mint: Pubkey,
    pub safe_enabled: bool,
    pub meme_enabled: bool,
    pub bump: u8,
}

impl TokenPolicy {
    pub open spec fn spec_allows(self, arena: Arena) -> bool {
        match arena {
            Arena::Safe => self.safe_enabled,
            Arena::Meme => self.meme_enabled,
        }
    }

    /// Whether this policy enables its mint in `arena`.
    pub fn allows(&self, arena: Arena) -> (r: bool)
        ensures
            r == self.spec_allows(arena),
    {
        match arena {
            Arena::Safe => self.safe_enabled,
            Arena::Meme => self.meme_enabled,
        }
    }
}

/// One battle between a challenger and an opponent.
#[derive(Clone, Copy, Debug)]
pub struct Battle {
    pub id: [u8; 32],
    pub challenger: Pubkey,
    pub opponent: Pubkey,
    pub settlement_mint: Pubkey,
    pub challenger_vault: Pubkey,
    pub opponent_vault: Pubkey,
    pub stake_micro_usdc: u64,
    pub duration_seconds: i64,
    pub trading_lock_seconds: i64,
    pub settlement_fee_bps: u16,
    pub arena: Arena,
    pub status: BattleStatus,
    pub created_at: i64,
    pub starts_at: i64,
    pub trading_locks_at: i64,
    pub trading_ends_at: i64,
    pub player_a_final_micro_usdc: u64,
    pub player_b_final_micro_usdc: u64,
    pub winner: Pubkey,
    pub is_draw: bool,
    pub bump: u8,
    pub challenger_vault_bump: u8,
    pub opponent_vault_bump: u8,
}

/// Whether the battle has an opponent: every status after `Open` other than `Cancelled`.
pub open spec fn has_opponent(status: BattleStatus) -> bool {
    !(status is Open || status is Cancelled)
}

/// Whether the battle has started: its trading schedule is fixed.
pub open spec fn has_started(status: BattleStatus) -> bool {
    status is Active || status is TradingLocked || status is Settling || status is Resolved
        || status is Claimed
}

/// Whether the battle has a recorded result.
pub open spec fn has_result(status: BattleStatus) -> bool {
    status is Resolved || status is Claimed
}

impl Battle {
    /// The terms that the protocol specification makes immutable once an opponent joins.
    pub open spec fn same_terms(self, other: Battle) -> bool {
        &&& self.id == other.id
        &&& self.challenger == other.challenger
        &&& self.opponent == other.opponent
        &&& self.settlement_mint == other.settlement_mint
        &&& self.challenger_vault == other.challenger_vault
        &&& self.opponent_vault == other.opponent_vault
        &&& self.stake_micro_usdc == other.stake_micro_usdc
        &&& self.duration_seconds == other.duration_seconds
        &&& self.trading_lock_seconds == other.trading_lock_seconds
        &&& self.settlement_fee_bps == other.settlement_fee_bps
        &&& self.arena == other.arena
        &&& self.created_at == other.created_at
        &&& self.bump == other.bump
        &&& self.challenger_vault_bump == other.challenger_vault_bump
        &&& self.opponent_vault_bump == other.opponent_vault_bump
    }

    /// The trading schedule fixed when the battle started.
    pub open spec fn same_schedule(self, other: Battle) -> bool {
        &&& self.starts_at == other.starts_at
        &&& self.trading_locks_at == other.trading_locks_at
        &&& self.trading_ends_at == other.trading_ends_at
    }

    /// The recorded result.
    pub open spec fn same_result(self, other: Battle) -> bool {
        &&& self.player_a_final_micro_usdc == other.player_a_final_micro_usdc
        &&& self.player_b_final_micro_usdc == other.player_b_final_micro_usdc
        &&& self.winner == other.winner
        &&& self.is_draw == other.is_draw
    }

    /// The invariant of every battle the program writes.
    pub open spec fn well_formed(self) -> bool {
        &&& self.stake_micro_usdc > 0
        &&& self.duration_seconds > 0
        &&& 0 <= self.trading_lock_seconds <= self.duration_seconds
        &&& self.settlement_fee_bps <= MAX_PROTOCOL_FEE_BPS
        &&& has_opponent(self.status) ==> self.opponent != self.challenger
        &&& has_started(self.status) ==> {
            &&& self.trading_ends_at == self.starts_at + self.duration_seconds
            &&& self.trading_locks_at == self.trading_ends_at - self.trading_lock_seconds
            &&& self.starts_at <= self.trading_locks_at <= self.trading_ends_at
        }
        &&& has_result(self.status) ==> {
            &&& self.is_draw == (self.player_a_final_micro_usdc == self.player_b_final_micro_usdc)
            &&& self.is_draw ==> self.winner.is_zero()
            &&& self.player_a_final_micro_usdc > self.player_b_final_micro_usdc ==> self.winner
                == self.challenger
            &&& self.player_a_final_micro_usdc < self.player_b_final_micro_usdc ==> self.winner
                == self.opponent
        }
    }
}

} // verus!
