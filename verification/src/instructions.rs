//! The battle program's instructions, as decisions on plain account data.
//!
//! Each instruction takes the account values its handler reads (one struct per
//! instruction, named after its account list) and the instruction arguments, and returns
//! either the rejection or the accounts to write, the token transfers to make and the
//! event to emit. A rejected instruction changes nothing.
use vstd::prelude::*;

use crate::address::{vault_seed_bytes, push_bump, vault_seeds, with_bump};
use crate::error::PvpTradeError;
use crate::events::{BattleCreated, BattleJoined, BattleResolved, BattleStarted, TokenTransfer};
use crate::pubkey::Pubkey;
use crate::state::{
    transition_allowed, Arena, Battle, BattleStatus, ProtocolConfig, SwapConfig, TokenPolicy,
    MAX_PROTOCOL_FEE_BPS, MAX_SWAP_SLIPPAGE_BPS, SETTLEMENT_MINT_DECIMALS,
};

verus! {

/// Whether `actor` is one of the battle's two players.
pub open spec fn is_player(battle: Battle, actor: Pubkey) -> bool {
    actor == battle.challenger || actor == battle.opponent
}

// ---------------------------------------------------------------- initialize_protocol

/// The accounts `initialize_protocol` reads.
#[derive(Clone, Copy, Debug)]
pub struct InitializeProtocol {
    pub settlement_mint: Pubkey,
    pub settlement_mint_decimals: u8,
    pub authority: Pubkey,
    pub protocol_config_bump: u8,
}

/// Why `initialize_protocol` rejects these inputs, if it does.
pub open spec fn initialize_protocol_error(
    ctx: InitializeProtocol,
    max_settlement_fee_bps: u16,
    default_trading_lock_seconds: i64,
) -> Option<PvpTradeError> {
    if ctx.settlement_mint_decimals != SETTLEMENT_MINT_DECIMALS {
        Some(PvpTradeError::InvalidSettlementMintDecimals)
    } else if max_settlement_fee_bps > MAX_PROTOCOL_FEE_BPS {
        Some(PvpTradeError::FeeTooHigh)
    } else if default_trading_lock_seconds < 0 {
        Some(PvpTradeError::InvalidTradingLock)
    } else {
        None
    }
}

/// Creates the protocol configuration: its authority, the settlement mint (which must
/// use six decimals), the largest settlement fee battles may charge and the default
/// trading lock. The protocol starts unpaused.
pub fn initialize_protocol(
    ctx: &InitializeProtocol,
    max_settlement_fee_bps: u16,
    default_trading_lock_seconds: i64,
) -> (r: Result<ProtocolConfig, PvpTradeError>)
    ensures
        match r {
            Ok(config) => {
                &&& initialize_protocol_error(
                    *ctx,
                    max_settlement_fee_bps,
                    default_trading_lock_seconds,
                ) is None
                &&& config.authority == ctx.authority
                &&& config.settlement_mint == ctx.settlement_mint
                &&& config.max_settlement_fee_bps == max_settlement_fee_bps
                &&& config.default_trading_lock_seconds == default_trading_lock_seconds
                &&& !config.paused
                &&& config.bump == ctx.protocol_config_bump
            },
            Err(e) => initialize_protocol_error(
                *ctx,
                max_settlement_fee_bps,
                default_trading_lock_seconds,
            ) == Some(e),
        },
        r matches Ok(config) ==> config.well_formed(),
{
    if ctx.settlement_mint_decimals != SETTLEMENT_MINT_DECIMALS {
        return Err(PvpTradeError::InvalidSettlementMintDecimals);
    }
    if max_settlement_fee_bps > MAX_PROTOCOL_FEE_BPS {
        return Err(PvpTradeError::FeeTooHigh);
    }
    if default_trading_lock_seconds < 0 {
        return Err(PvpTradeError::InvalidTradingLock);
    }
    Ok(
        ProtocolConfig {
            authority: ctx.authority,
            settlement_mint: ctx.settlement_mint,
            max_settlement_fee_bps,
            default_trading_lock_seconds,
            paused: false,
            bump: ctx.protocol_config_bump,
        },
    )
}

// ------------------------------------------------------------- initialize_swap_config

/// The accounts `initialize_swap_config` reads.
#[derive(Clone, Copy, Debug)]
pub struct InitializeSwapConfig {
    pub protocol_config: ProtocolConfig,
    pub authority: Pubkey,
    pub swap_program: Pubkey,
    pub swap_config_bump: u8,
}

/// Why `initialize_swap_config` rejects these inputs, if it does.
pub open spec fn initialize_swap_config_error(ctx: InitializeSwapConfig, max_slippage_bps: u16) -> Option<
    PvpTradeError,
> {
    if ctx.authority != ctx.protocol_config.authority {
        Some(PvpTradeError::Unauthorized)
    } else if !(0 < max_slippage_bps <= MAX_SWAP_SLIPPAGE_BPS) {
        Some(PvpTradeError::InvalidSlippage)
    } else {
        None
    }
}

/// Records the approved swap router and the largest slippage a swap may declare; only
/// the protocol authority may do so.
pub fn initialize_swap_config(ctx: &InitializeSwapConfig, max_slippage_bps: u16) -> (r: Result<
    SwapConfig,
    PvpTradeError,
>)
    ensures
        match r {
            Ok(config) => {
                &&& initialize_swap_config_error(*ctx, max_slippage_bps) is None
                &&& config.approved_swap_program == ctx.swap_program
                &&& config.max_slippage_bps == max_slippage_bps
                &&& config.bump == ctx.swap_config_bump
            },
            Err(e) => initialize_swap_config_error(*ctx, max_slippage_bps) == Some(e),
        },
        r matches Ok(config) ==> config.well_formed(),
{
    if ctx.authority != ctx.protocol_config.authority {
        return Err(PvpTradeError::Unauthorized);
    }
    if !(max_slippage_bps > 0 && max_slippage_bps <= MAX_SWAP_SLIPPAGE_BPS) {
        return Err(PvpTradeError::InvalidSlippage);
    }
    Ok(
        SwapConfig {
            approved_swap_program: ctx.swap_program,
            max_slippage_bps,
            bump: ctx.swap_config_bump,
        },
    )
}

// ---------------------------------------------------------------- create_token_policy

/// The accounts `create_token_policy` reads.
#[derive(Clone, Copy, Debug)]
pub struct CreateTokenPolicy {
    pub protocol_config: ProtocolConfig,
    pub mint: Pubkey,
    pub authority: Pubkey,
    pub token_policy_bump: u8,
}

/// Why `create_token_policy` rejects these inputs, if it does.
pub open spec fn create_token_policy_error(
    ctx: CreateTokenPolicy,
    safe_enabled: bool,
    meme_enabled: bool,
) -> Option<PvpTradeError> {
    if ctx.authority != ctx.protocol_config.authority {
        Some(PvpTradeError::Unauthorized)
    } else if !(safe_enabled || meme_enabled) {
        Some(PvpTradeError::TokenNotAllowed)
    } else {
        None
    }
}

/// Records in which arenas a mint may be traded; at least one must be enabled, and only
/// the protocol authority may do so.
pub fn create_token_policy(ctx: &CreateTokenPolicy, safe_enabled: bool, meme_enabled: bool) -> (r:
    Result<TokenPolicy, PvpTradeError>)
    ensures
        match r {
            Ok(policy) => {
                &&& create_token_policy_error(*ctx, safe_enabled, meme_enabled) is None
                &&& policy.mint == ctx.mint
                &&& policy.safe_enabled == safe_enabled
                &&& policy.meme_enabled == meme_enabled
                &&& policy.bump == ctx.token_policy_bump
            },
            Err(e) => create_token_policy_error(*ctx, safe_enabled, meme_enabled) == Some(e),
        },
{
    if ctx.authority != ctx.protocol_config.authority {
        return Err(PvpTradeError::Unauthorized);
    }
    if !(safe_enabled || meme_enabled) {
        return Err(PvpTradeError::TokenNotAllowed);
    }
    Ok(TokenPolicy { mint: ctx.mint, safe_enabled, meme_enabled, bump: ctx.token_policy_bump })
}

// ---------------------------------------------------------------------- create_battle

/// The accounts `create_battle` reads.
#[derive(Clone, Copy, Debug)]
pub struct CreateBattle {
    pub protocol_config: ProtocolConfig,
    pub battle_key: Pubkey,
    pub battle_bump: u8,
    pub settlement_mint: Pubkey,
    pub settlement_mint_decimals: u8,
    pub challenger_source: Pubkey,
    pub challenger_vault: Pubkey,
    pub challenger_vault_bump: u8,
    pub challenger: Pubkey,
}

/// Why `create_battle` rejects these inputs, if it does.
pub open spec fn create_battle_error(
    ctx: CreateBattle,
    stake_micro_usdc: u64,
    duration_seconds: i64,
    trading_lock_seconds: i64,
    settlement_fee_bps: u16,
) -> Option<PvpTradeError> {
    if ctx.settlement_mint != ctx.protocol_config.settlement_mint {
        Some(PvpTradeError::InvalidSettlementMint)
    } else if ctx.protocol_config.paused {
        Some(PvpTradeError::ProtocolPaused)
    } else if stake_micro_usdc == 0 {
        Some(PvpTradeError::InvalidStake)
    } else if duration_seconds <= 0 {
        Some(PvpTradeError::InvalidDuration)
    } else if !(0 <= trading_lock_seconds <= duration_seconds) {
        Some(PvpTradeError::InvalidTradingLock)
    } else if settlement_fee_bps > ctx.protocol_config.max_settlement_fee_bps {
        Some(PvpTradeError::FeeTooHigh)
    } else {
        None
    }
}

/// The battle `create_battle` writes: open, with no opponent, no schedule and no result.
pub open spec fn created_battle(
    ctx: CreateBattle,
    battle_id: [u8; 32],
    stake_micro_usdc: u64,
    duration_seconds: i64,
    trading_lock_seconds: i64,
    settlement_fee_bps: u16,
    arena: Arena,
    now: i64,
) -> Battle {
    Battle {
        id: battle_id,
        challenger: ctx.challenger,
        opponent: Pubkey::spec_zero(),
        settlement_mint: ctx.settlement_mint,
        challenger_vault: ctx.challenger_vault,
        opponent_vault: Pubkey::spec_zero(),
        stake_micro_usdc,
        duration_seconds,
        trading_lock_seconds,
        settlement_fee_bps,
        arena,
        status: BattleStatus::Open,
        created_at: now,
        starts_at: 0,
        trading_locks_at: 0,
        trading_ends_at: 0,
        player_a_final_micro_usdc: 0,
        player_b_final_micro_usdc: 0,
        winner: Pubkey::spec_zero(),
        is_draw: false,
        bump: ctx.battle_bump,
        challenger_vault_bump: ctx.challenger_vault_bump,
        opponent_vault_bump: 0,
    }
}

/// The challenger's deposit: the whole stake, from the challenger's source account into
/// the challenger's battle vault, signed by the challenger.
pub open spec fn challenger_deposit(ctx: CreateBattle, stake_micro_usdc: u64) -> TokenTransfer {
    TokenTransfer {
        from: ctx.challenger_source,
        mint: ctx.settlement_mint,
        to: ctx.challenger_vault,
        authority: ctx.challenger,
        amount: stake_micro_usdc,
        decimals: ctx.settlement_mint_decimals,
    }
}

/// Opens a battle at time `now` and deposits the challenger's stake into the
/// challenger's vault. The stake must be positive, the duration positive, the trading
/// lock between zero and the duration, and the fee within the configured maximum; the
/// protocol must not be paused and the mint must be the configured settlement mint.
pub fn create_battle(
    ctx: &CreateBattle,
    battle_id: [u8; 32],
    stake_micro_usdc: u64,
    duration_seconds: i64,
    trading_lock_seconds: i64,
    settlement_fee_bps: u16,
    arena: Arena,
    now: i64,
) -> (r: Result<(Battle, TokenTransfer, BattleCreated), PvpTradeError>)
    ensures
        match r {
            Ok((battle, deposit, event)) => {
                &&& create_battle_error(
                    *ctx,
                    stake_micro_usdc,
                    duration_seconds,
                    trading_lock_seconds,
                    settlement_fee_bps,
                ) is None
                &&& battle == created_battle(
                    *ctx,
                    battle_id,
                    stake_micro_usdc,
                    duration_seconds,
                    trading_lock_seconds,
                    settlement_fee_bps,
                    arena,
                    now,
                )
                &&& deposit == challenger_deposit(*ctx, stake_micro_usdc)
                &&& event == (BattleCreated {
                    battle: ctx.battle_key,
                    battle_id,
                    challenger: ctx.challenger,
                    challenger_vault: ctx.challenger_vault,
                    stake_micro_usdc,
                    arena,
                })
            },
            Err(e) => create_battle_error(
                *ctx,
                stake_micro_usdc,
                duration_seconds,
                trading_lock_seconds,
                settlement_fee_bps,
            ) == Some(e),
        },
        r matches Ok((battle, _, _)) ==> (ctx.protocol_config.well_formed() ==> battle.well_formed()),
{
    if ctx.settlement_mint != ctx.protocol_config.settlement_mint {
        return Err(PvpTradeError::InvalidSettlementMint);
    }
    if ctx.protocol_config.paused {
        return Err(PvpTradeError::ProtocolPaused);
    }
    if stake_micro_usdc == 0 {
        return Err(PvpTradeError::InvalidStake);
    }
    if duration_seconds <= 0 {
        return Err(PvpTradeError::InvalidDuration);
    }
    if !(trading_lock_seconds >= 0 && trading_lock_seconds <= duration_seconds) {
        return Err(PvpTradeError::InvalidTradingLock);
    }
    if settlement_fee_bps > ctx.protocol_config.max_settlement_fee_bps {
        return Err(PvpTradeError::FeeTooHigh);
    }
    let battle = Battle {
        id: battle_id,
        challenger: ctx.challenger,
        opponent: Pubkey::zero(),
        settlement_mint: ctx.settlement_mint,
        challenger_vault: ctx.challenger_vault,
        opponent_vault: Pubkey::zero(),
        stake_micro_usdc,
        duration_seconds,
        trading_lock_seconds,
        settlement_fee_bps,
        arena,
        status: BattleStatus::Open,
        created_at: now,
        starts_at: 0,
        trading_locks_at: 0,
        trading_ends_at: 0,
        player_a_final_micro_usdc: 0,
        player_b_final_micro_usdc: 0,
        winner: Pubkey::zero(),
        is_draw: false,
        bump: ctx.battle_bump,
        challenger_vault_bump: ctx.challenger_vault_bump,
        opponent_vault_bump: 0,
    };
    let deposit = TokenTransfer {
        from: ctx.challenger_source,
        mint: ctx.settlement_mint,
        to: ctx.challenger_vault,
        authority: ctx.challenger,
        amount: stake_micro_usdc,
        decimals: ctx.settlement_mint_decimals,
    };
    let event = BattleCreated {
        battle: ctx.battle_key,
        battle_id,
        challenger: battle.challenger,
        challenger_vault: battle.challenger_vault,
        stake_micro_usdc,
        arena,
    };
    Ok((battle, deposit, event))
}

// ------------------------------------------------------------------------ join_battle

/// The accounts `join_battle` reads.
#[derive(Clone, Copy, Debug)]
pub struct JoinBattle {
    pub protocol_config: ProtocolConfig,
    pub battle_key: Pubkey,
    pub battle: Battle,
    pub settlement_mint: Pubkey,
    pub settlement_mint_decimals: u8,
    pub opponent_source: Pubkey,
    pub opponent_vault: Pubkey,
    pub opponent_vault_bump: u8,
    pub opponent: Pubkey,
}

/// Why `join_battle` rejects these inputs, if it does.
pub open spec fn join_battle_error(ctx: JoinBattle) -> Option<PvpTradeError> {
    if ctx.settlement_mint != ctx.battle.settlement_mint {
        Some(PvpTradeError::InvalidSettlementMint)
    } else if ctx.protocol_config.paused {
        Some(PvpTradeError::ProtocolPaused)
    } else if ctx.battle.status != BattleStatus::Open {
        Some(PvpTradeError::InvalidStatus)
    } else if ctx.opponent == ctx.battle.challenger {
        Some(PvpTradeError::SelfMatch)
    } else {
        None
    }
}

/// The battle `join_battle` writes.
pub open spec fn joined_battle(ctx: JoinBattle) -> Battle {
    Battle {
        opponent: ctx.opponent,
        opponent_vault: ctx.opponent_vault,
        opponent_vault_bump: ctx.opponent_vault_bump,
        status: BattleStatus::Funded,
        ..ctx.battle
    }
}

/// The opponent's deposit: the battle's stake, from the opponent's source account into
/// the opponent's battle vault, signed by the opponent.
pub open spec fn opponent_deposit(ctx: JoinBattle) -> TokenTransfer {
    TokenTransfer {
        from: ctx.opponent_source,
        mint: ctx.settlement_mint,
        to: ctx.opponent_vault,
        authority: ctx.opponent,
        amount: ctx.battle.stake_micro_usdc,
        decimals: ctx.settlement_mint_decimals,
    }
}

/// An opponent other than the challenger joins an open battle and deposits the same
/// stake into their own vault; the battle becomes funded.
pub fn join_battle(ctx: &JoinBattle) -> (r: Result<(Battle, TokenTransfer, BattleJoined), PvpTradeError>)
    ensures
        match r {
            Ok((battle, deposit, event)) => {
                &&& join_battle_error(*ctx) is None
                &&& battle == joined_battle(*ctx)
                &&& deposit == opponent_deposit(*ctx)
                &&& event == (BattleJoined {
                    battle: ctx.battle_key,
                    opponent: ctx.opponent,
                    opponent_vault: ctx.opponent_vault,
                })
            },
            Err(e) => join_battle_error(*ctx) == Some(e),
        },
        r matches Ok((battle, _, _)) ==> {
            &&& transition_allowed(ctx.battle.status, battle.status)
            &&& (ctx.battle.well_formed() ==> battle.well_formed())
        },
{
    let battle = ctx.battle;
    if ctx.settlement_mint != battle.settlement_mint {
        return Err(PvpTradeError::InvalidSettlementMint);
    }
    if ctx.protocol_config.paused {
        return Err(PvpTradeError::ProtocolPaused);
    }
    if battle.status != BattleStatus::Open {
        return Err(PvpTradeError::InvalidStatus);
    }
    if ctx.opponent == battle.challenger {
        return Err(PvpTradeError::SelfMatch);
    }
    let joined = Battle {
        opponent: ctx.opponent,
        opponent_vault: ctx.opponent_vault,
        opponent_vault_bump: ctx.opponent_vault_bump,
        status: BattleStatus::Funded,
        ..battle
    };
    let deposit = TokenTransfer {
        from: ctx.opponent_source,
        mint: ctx.settlement_mint,
        to: ctx.opponent_vault,
        authority: ctx.opponent,
        amount: battle.stake_micro_usdc,
        decimals: ctx.settlement_mint_decimals,
    };
    let event = BattleJoined {
        battle: ctx.battle_key,
        opponent: joined.opponent,
        opponent_vault: joined.opponent_vault,
    };
    Ok((joined, deposit, event))
}

// ----------------------------------------------------------------------- start_battle

/// The accounts `start_battle` reads.
#[derive(Clone, Copy, Debug)]
pub struct BattleActor {
    pub protocol_config: ProtocolConfig,
    pub battle_key: Pubkey,
    pub battle: Battle,
    pub actor: Pubkey,
}

/// Whether `x` fits in an `i64`.
pub open spec fn fits_i64(x: int) -> bool {
    i64::MIN <= x <= i64::MAX
}

/// Why `start_battle` rejects these inputs at time `now`, if it does.
pub open spec fn start_battle_error(ctx: BattleActor, now: i64) -> Option<PvpTradeError> {
    if ctx.protocol_config.paused {
        Some(PvpTradeError::ProtocolPaused)
    } else if ctx.battle.status != BattleStatus::Funded {
        Some(PvpTradeError::InvalidStatus)
    } else if !is_player(ctx.battle, ctx.actor) {
        Some(PvpTradeError::Unauthorized)
    } else if !fits_i64(now + ctx.battle.duration_seconds) {
        Some(PvpTradeError::ArithmeticOverflow)
    } else if !fits_i64(now + ctx.battle.duration_seconds - ctx.battle.trading_lock_seconds) {
        Some(PvpTradeError::ArithmeticOverflow)
    } else {
        None
    }
}

/// The battle `start_battle` writes at time `now`: trading ends `duration_seconds` after
/// the start and locks `trading_lock_seconds` before the end.
pub open spec fn started_battle(battle: Battle, now: i64) -> Battle {
    Battle {
        starts_at: now,
        trading_ends_at: (now + battle.duration_seconds) as i64,
        trading_locks_at: (now + battle.duration_seconds - battle.trading_lock_seconds) as i64,
        status: BattleStatus::Active,
        ..battle
    }
}

/// Either player starts a funded battle at time `now`, which fixes its trading schedule.
pub fn start_battle(ctx: &BattleActor, now: i64) -> (r: Result<(Battle, BattleStarted), PvpTradeError>)
    ensures
        match r {
            Ok((battle, event)) => {
                &&& start_battle_error(*ctx, now) is None
                &&& battle == started_battle(ctx.battle, now)
                &&& event == (BattleStarted {
                    battle: ctx.battle_key,
                    starts_at: battle.starts_at,
                    trading_locks_at: battle.trading_locks_at,
                    trading_ends_at: battle.trading_ends_at,
                })
            },
            Err(e) => start_battle_error(*ctx, now) == Some(e),
        },
        r matches Ok((battle, _)) ==> {
            &&& transition_allowed(ctx.battle.status, battle.status)
            &&& battle.same_terms(ctx.battle)
            &&& (ctx.battle.well_formed() ==> battle.well_formed())
        },
{
    let battle = ctx.battle;
    if ctx.protocol_config.paused {
        return Err(PvpTradeError::ProtocolPaused);
    }
    if battle.status != BattleStatus::Funded {
        return Err(PvpTradeError::InvalidStatus);
    }
    if !(ctx.actor == battle.challenger || ctx.actor == battle.opponent) {
        return Err(PvpTradeError::Unauthorized);
    }
    let trading_ends_at = match now.checked_add(battle.duration_seconds) {
        Some(t) => t,
        None => return Err(PvpTradeError::ArithmeticOverflow),
    };
    let trading_locks_at = match trading_ends_at.checked_sub(battle.trading_lock_seconds) {
        Some(t) => t,
        None => return Err(PvpTradeError::ArithmeticOverflow),
    };
    let started = Battle {
        starts_at: now,
        trading_locks_at,
        trading_ends_at,
        status: BattleStatus::Active,
        ..battle
    };
    let event = BattleStarted { battle: ctx.battle_key, starts_at: now, trading_locks_at, trading_ends_at };
    Ok((started, event))
}

// ------------------------------------------------------------- validate_active_trader

/// Why a trading action by `actor` at time `now` is refused, if it is: the battle must
/// be active, the actor one of its players, and trading not yet locked.
pub open spec fn active_trader_error(battle: Battle, actor: Pubkey, now: i64) -> Option<PvpTradeError> {
    if battle.status != BattleStatus::Active {
        Some(PvpTradeError::InvalidStatus)
    } else if !is_player(battle, actor) {
        Some(PvpTradeError::Unauthorized)
    } else if now >= battle.trading_locks_at {
        Some(PvpTradeError::TradingLocked)
    } else {
        None
    }
}

/// Checks that `actor` may trade in `battle` at time `now`.
pub fn validate_active_trader(battle: &Battle, actor: &Pubkey, now: i64) -> (r: Result<(), PvpTradeError>)
    ensures
        match r {
            Ok(()) => active_trader_error(*battle, *actor, now) is None,
            Err(e) => active_trader_error(*battle, *actor, now) == Some(e),
        },
        r is Ok ==> now < battle.trading_locks_at,
{
    if battle.status != BattleStatus::Active {
        return Err(PvpTradeError::InvalidStatus);
    }
    if !(*actor == battle.challenger || *actor == battle.opponent) {
        return Err(PvpTradeError::Unauthorized);
    }
    if now >= battle.trading_locks_at {
        return Err(PvpTradeError::TradingLocked);
    }
    Ok(())
}

// ----------------------------------------------------------------- create_asset_vault

/// The accounts `create_asset_vault` reads.
#[derive(Clone, Copy, Debug)]
pub struct CreateAssetVault {
    pub battle_key: Pubkey,
    pub battle: Battle,
    pub token_policy: TokenPolicy,
    pub mint: Pubkey,
    pub actor: Pubkey,
}

/// Why `create_asset_vault` rejects these inputs at time `now`, if it does.
pub open spec fn create_asset_vault_error(ctx: CreateAssetVault, now: i64) -> Option<PvpTradeError> {
    if ctx.token_policy.mint != ctx.mint {
        Some(PvpTradeError::InvalidSwapMint)
    } else if active_trader_error(ctx.battle, ctx.actor, now) is Some {
        active_trader_error(ctx.battle, ctx.actor, now)
    } else if !ctx.token_policy.spec_allows(ctx.battle.arena) {
        Some(PvpTradeError::TokenNotAllowed)
    } else if ctx.mint == ctx.battle.settlement_mint {
        Some(PvpTradeError::InvalidSwapMint)
    } else {
        None
    }
}

/// Lets a player open a vault for a non-settlement mint that the battle's arena allows,
/// while trading is open.
pub fn create_asset_vault(ctx: &CreateAssetVault, now: i64) -> (r: Result<(), PvpTradeError>)
    ensures
        match r {
            Ok(()) => create_asset_vault_error(*ctx, now) is None,
            Err(e) => create_asset_vault_error(*ctx, now) == Some(e),
        },
{
    if ctx.token_policy.mint != ctx.mint {
        return Err(PvpTradeError::InvalidSwapMint);
    }
    validate_active_trader(&ctx.battle, &ctx.actor, now)?;
    if !ctx.token_policy.allows(ctx.battle.arena) {
        return Err(PvpTradeError::TokenNotAllowed);
    }
    if ctx.mint == ctx.battle.settlement_mint {
        return Err(PvpTradeError::InvalidSwapMint);
    }
    Ok(())
}

// --------------------------------------------------------- lock_trading, begin_settlement

/// The accounts `lock_trading` and `begin_settlement` read.
#[derive(Clone, Copy, Debug)]
pub struct AdvanceBattle {
    pub battle: Battle,
}

/// Why `lock_trading` rejects the battle at time `now`, if it does.
pub open spec fn lock_trading_error(ctx: AdvanceBattle, now: i64) -> Option<PvpTradeError> {
    if ctx.battle.status != BattleStatus::Active {
        Some(PvpTradeError::InvalidStatus)
    } else if now < ctx.battle.trading_locks_at {
        Some(PvpTradeError::TradingStillActive)
    } else {
        None
    }
}

/// The battle `lock_trading` writes.
pub open spec fn locked_battle(battle: Battle) -> Battle {
    Battle { status: BattleStatus::TradingLocked, ..battle }
}

/// Anyone locks trading in an active battle once its lock time has come.
pub fn lock_trading(ctx: &AdvanceBattle, now: i64) -> (r: Result<Battle, PvpTradeError>)
    ensures
        match r {
            Ok(battle) => {
                &&& lock_trading_error(*ctx, now) is None
                &&& battle == locked_battle(ctx.battle)
            },
            Err(e) => lock_trading_error(*ctx, now) == Some(e),
        },
        r matches Ok(battle) ==> {
            &&& transition_allowed(ctx.battle.status, battle.status)
            &&& battle.same_terms(ctx.battle)
            &&& battle.same_schedule(ctx.battle)
            &&& (ctx.battle.well_formed() ==> battle.well_formed())
        },
{
    let battle = ctx.battle;
    if battle.status != BattleStatus::Active {
        return Err(PvpTradeError::InvalidStatus);
    }
    if now < battle.trading_locks_at {
        return Err(PvpTradeError::TradingStillActive);
    }
    Ok(Battle { status: BattleStatus::TradingLocked, ..battle })
}

/// Why `begin_settlement` rejects the battle at time `now`, if it does.
pub open spec fn begin_settlement_error(ctx: AdvanceBattle, now: i64) -> Option<PvpTradeError> {
    if ctx.battle.status != BattleStatus::TradingLocked {
        Some(PvpTradeError::InvalidStatus)
    } else if now < ctx.battle.trading_ends_at {
        Some(PvpTradeError::BattleNotEnded)
    } else {
        None
    }
}

/// The battle `begin_settlement` writes.
pub open spec fn settling_battle(battle: Battle) -> Battle {
    Battle { status: BattleStatus::Settling, ..battle }
}

/// Anyone moves a trading-locked battle to settlement once its end time has come.
pub fn begin_settlement(ctx: &AdvanceBattle, now: i64) -> (r: Result<Battle, PvpTradeError>)
    ensures
        match r {
            Ok(battle) => {
                &&& begin_settlement_error(*ctx, now) is None
                &&& battle == settling_battle(ctx.battle)
            },
            Err(e) => begin_settlement_error(*ctx, now) == Some(e),
        },
        r matches Ok(battle) ==> {
            &&& transition_allowed(ctx.battle.status, battle.status)
            &&& battle.same_terms(ctx.battle)
            &&& battle.same_schedule(ctx.battle)
            &&& (ctx.battle.well_formed() ==> battle.well_formed())
        },
{
    let battle = ctx.battle;
    if battle.status != BattleStatus::TradingLocked {
        return Err(PvpTradeError::InvalidStatus);
    }
    if now < battle.trading_ends_at {
        return Err(PvpTradeError::BattleNotEnded);
    }
    Ok(Battle { status: BattleStatus::Settling, ..battle })
}

// --------------------------------------------------------------------- resolve_battle

/// The accounts `resolve_battle` reads.
#[derive(Clone, Copy, Debug)]
pub struct ResolveBattle {
    pub protocol_config: ProtocolConfig,
    pub authority: Pubkey,
    pub battle_key: Pubkey,
    pub battle: Battle,
}

/// Why `resolve_battle` rejects these inputs, if it does.
pub open spec fn resolve_battle_error(ctx: ResolveBattle) -> Option<PvpTradeError> {
    if ctx.authority != ctx.protocol_config.authority {
        Some(PvpTradeError::Unauthorized)
    } else if ctx.battle.status != BattleStatus::Settling {
        Some(PvpTradeError::InvalidStatus)
    } else {
        None
    }
}

/// The winner for two final equities: no one (the zero address) when they are equal,
/// the challenger when player A ends strictly higher, the opponent otherwise.
pub open spec fn winner_of(battle: Battle, player_a_final: u64, player_b_final: u64) -> Pubkey {
    if player_a_final == player_b_final {
        Pubkey::spec_zero()
    } else if player_a_final > player_b_final {
        battle.challenger
    } else {
        battle.opponent
    }
}

/// The battle `resolve_battle` writes.
pub open spec fn resolved_battle(battle: Battle, player_a_final: u64, player_b_final: u64) -> Battle {
    Battle {
        player_a_final_micro_usdc: player_a_final,
        player_b_final_micro_usdc: player_b_final,
        is_draw: player_a_final == player_b_final,
        winner: winner_of(battle, player_a_final, player_b_final),
        status: BattleStatus::Resolved,
        ..battle
    }
}

/// The protocol authority records the players' final equities in a settling battle;
/// the greater equity wins, equal equities draw.
pub fn resolve_battle(
    ctx: &ResolveBattle,
    player_a_final_micro_usdc: u64,
    player_b_final_micro_usdc: u64,
) -> (r: Result<(Battle, BattleResolved), PvpTradeError>)
    ensures
        match r {
            Ok((battle, event)) => {
                &&& resolve_battle_error(*ctx) is None
                &&& battle == resolved_battle(
                    ctx.battle,
                    player_a_final_micro_usdc,
                    player_b_final_micro_usdc,
                )
                &&& event == (BattleResolved {
                    battle: ctx.battle_key,
                    player_a_final_micro_usdc,
                    player_b_final_micro_usdc,
                    winner: battle.winner,
                    is_draw: battle.is_draw,
                })
            },
            Err(e) => resolve_battle_error(*ctx) == Some(e),
        },
        r matches Ok((battle, _)) ==> {
            &&& transition_allowed(ctx.battle.status, battle.status)
            &&& battle.same_terms(ctx.battle)
            &&& battle.same_schedule(ctx.battle)
            &&& (ctx.battle.well_formed() ==> battle.well_formed())
        },
{
    let battle = ctx.battle;
    if ctx.authority != ctx.protocol_config.authority {
        return Err(PvpTradeError::Unauthorized);
    }
    if battle.status != BattleStatus::Settling {
        return Err(PvpTradeError::InvalidStatus);
    }
    let is_draw = player_a_final_micro_usdc == player_b_final_micro_usdc;
    let winner = if is_draw {
        Pubkey::zero()
    } else if player_a_final_micro_usdc > player_b_final_micro_usdc {
        battle.challenger
    } else {
        battle.opponent
    };
    let resolved = Battle {
        player_a_final_micro_usdc,
        player_b_final_micro_usdc,
        is_draw,
        winner,
        status: BattleStatus::Resolved,
        ..battle
    };
    let event = BattleResolved {
        battle: ctx.battle_key,
        player_a_final_micro_usdc,
        player_b_final_micro_usdc,
        winner,
        is_draw,
    };
    Ok((resolved, event))
}

// ---------------------------------------------------------------------- cancel_battle

/// The accounts `cancel_battle` reads.
#[derive(Clone, Copy, Debug)]
pub struct CancelBattle {
    pub battle_key: Pubkey,
    pub battle: Battle,
    pub challenger: Pubkey,
    pub settlement_mint: Pubkey,
    pub settlement_mint_decimals: u8,
    pub challenger_refund: Pubkey,
}

/// Why `cancel_battle` rejects these inputs, if it does.
pub open spec fn cancel_battle_error(ctx: CancelBattle) -> Option<PvpTradeError> {
    if ctx.challenger != ctx.battle.challenger {
        Some(PvpTradeError::Unauthorized)
    } else if ctx.settlement_mint != ctx.battle.settlement_mint {
        Some(PvpTradeError::InvalidSettlementMint)
    } else if ctx.battle.status != BattleStatus::Open {
        Some(PvpTradeError::InvalidStatus)
    } else {
        None
    }
}

/// The refund: the whole stake, from the challenger's battle vault (which signs for
/// itself) to the challenger's refund account.
pub open spec fn challenger_refund(ctx: CancelBattle) -> TokenTransfer {
    TokenTransfer {
        from: ctx.battle.challenger_vault,
        mint: ctx.battle.settlement_mint,
        to: ctx.challenger_refund,
        authority: ctx.battle.challenger_vault,
        amount: ctx.battle.stake_micro_usdc,
        decimals: ctx.settlement_mint_decimals,
    }
}

/// The battle `cancel_battle` writes.
pub open spec fn cancelled_battle(battle: Battle) -> Battle {
    Battle { status: BattleStatus::Cancelled, ..battle }
}

/// The challenger cancels a battle no one has joined and takes the stake back; the
/// returned seeds are those with which the vault signs the refund.
pub fn cancel_battle(ctx: &CancelBattle) -> (r: Result<(Battle, TokenTransfer, Vec<Vec<u8>>), PvpTradeError>)
    ensures
        match r {
            Ok((battle, refund, signer_seeds)) => {
                &&& cancel_battle_error(*ctx) is None
                &&& battle == cancelled_battle(ctx.battle)
                &&& refund == challenger_refund(*ctx)
                &&& signer_seeds.deep_view() == with_bump(
                    vault_seeds(ctx.battle_key, ctx.challenger),
                    ctx.battle.challenger_vault_bump,
                )
            },
            Err(e) => cancel_battle_error(*ctx) == Some(e),
        },
        r matches Ok((battle, _, _)) ==> {
            &&& transition_allowed(ctx.battle.status, battle.status)
            &&& battle.same_terms(ctx.battle)
            &&& (ctx.battle.well_formed() ==> battle.well_formed())
        },
{
    let battle = ctx.battle;
    if ctx.challenger != battle.challenger {
        return Err(PvpTradeError::Unauthorized);
    }
    if ctx.settlement_mint != battle.settlement_mint {
        return Err(PvpTradeError::InvalidSettlementMint);
    }
    if battle.status != BattleStatus::Open {
        return Err(PvpTradeError::InvalidStatus);
    }
    let mut signer_seeds = vault_seed_bytes(&ctx.battle_key, &ctx.challenger);
    push_bump(&mut signer_seeds, battle.challenger_vault_bump);
    let refund = TokenTransfer {
        from: battle.challenger_vault,
        mint: battle.settlement_mint,
        to: ctx.challenger_refund,
        authority: battle.challenger_vault,
        amount: battle.stake_micro_usdc,
        decimals: ctx.settlement_mint_decimals,
    };
    Ok((Battle { status: BattleStatus::Cancelled, ..battle }, refund, signer_seeds))
}

} // verus!
