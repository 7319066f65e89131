//! Properties of the protocol that span instructions.
use vstd::prelude::*;

use crate::address::{asset_vault_seeds, asset_vault_tag, player_vault_seeds, vault_seeds, vault_tag};
use crate::error::PvpTradeError;
use crate::instructions::{
    active_trader_error, begin_settlement_error, cancel_battle_error, challenger_deposit,
    challenger_refund, create_asset_vault_error, create_battle_error, created_battle,
    cancelled_battle, join_battle_error, joined_battle, lock_trading_error, locked_battle,
    opponent_deposit, resolve_battle_error, resolved_battle, settling_battle, start_battle_error,
    started_battle, AdvanceBattle, BattleActor, CancelBattle, CreateAssetVault, CreateBattle,
    JoinBattle, ResolveBattle,
};
use crate::pubkey::Pubkey;
use crate::state::{
    has_opponent, has_started, Arena, Battle, BattleStatus, MAX_ROUTE_DATA_BYTES,
};
use crate::swap::{
    execute_swap_error, input_vault_signer_seeds, is_derived_address, minimum_output_floor,
    route_has, route_has_signer, route_metas, swap_result_error, ExecuteSwap, RouteAccount,
    SwapPlan,
};

verus! {

/// Both players stake the same amount: when a battle is created and then joined, the
/// opponent's deposit equals the challenger's, which is the battle's stake.
pub proof fn lemma_equal_stakes(
    create: CreateBattle,
    battle_id: [u8; 32],
    stake_micro_usdc: u64,
    duration_seconds: i64,
    trading_lock_seconds: i64,
    settlement_fee_bps: u16,
    arena: Arena,
    now: i64,
    join: JoinBattle,
)
    requires
        create_battle_error(
            create,
            stake_micro_usdc,
            duration_seconds,
            trading_lock_seconds,
            settlement_fee_bps,
        ) is None,
        join.battle == created_battle(
            create,
            battle_id,
            stake_micro_usdc,
            duration_seconds,
            trading_lock_seconds,
            settlement_fee_bps,
            arena,
            now,
        ),
        join_battle_error(join) is None,
    ensures
        opponent_deposit(join).amount == challenger_deposit(create, stake_micro_usdc).amount,
        opponent_deposit(join).amount == stake_micro_usdc,
        opponent_deposit(join).mint == challenger_deposit(create, stake_micro_usdc).mint,
        joined_battle(join).opponent != joined_battle(join).challenger,
{
}

/// Cancelling an open battle returns the challenger's whole deposit from the vault it
/// went into, in the same mint.
pub proof fn lemma_cancel_refunds_deposit(
    create: CreateBattle,
    battle_id: [u8; 32],
    stake_micro_usdc: u64,
    duration_seconds: i64,
    trading_lock_seconds: i64,
    settlement_fee_bps: u16,
    arena: Arena,
    now: i64,
    cancel: CancelBattle,
)
    requires
        create_battle_error(
            create,
            stake_micro_usdc,
            duration_seconds,
            trading_lock_seconds,
            settlement_fee_bps,
        ) is None,
        cancel.battle == created_battle(
            create,
            battle_id,
            stake_micro_usdc,
            duration_seconds,
            trading_lock_seconds,
            settlement_fee_bps,
            arena,
            now,
        ),
        cancel_battle_error(cancel) is None,
    ensures
        challenger_refund(cancel).amount == challenger_deposit(create, stake_micro_usdc).amount,
        challenger_refund(cancel).from == challenger_deposit(create, stake_micro_usdc).to,
        challenger_refund(cancel).mint == challenger_deposit(create, stake_micro_usdc).mint,
        cancel.challenger == create.challenger,
{
}

/// Once an opponent has joined, no instruction changes the battle's terms: starting,
/// locking, settling and resolving keep them.
pub proof fn lemma_terms_fixed_after_join(
    battle: Battle,
    now: i64,
    player_a_final: u64,
    player_b_final: u64,
)
    requires
        has_opponent(battle.status),
    ensures
        started_battle(battle, now).same_terms(battle),
        locked_battle(battle).same_terms(battle),
        settling_battle(battle).same_terms(battle),
        resolved_battle(battle, player_a_final, player_b_final).same_terms(battle),
{
}

/// In a battle that has started, trading locks no earlier than it starts and no later
/// than it ends, and the schedule follows the battle's duration and lock.
pub proof fn lemma_trading_schedule(battle: Battle)
    requires
        battle.well_formed(),
        has_started(battle.status),
    ensures
        battle.starts_at <= battle.trading_locks_at <= battle.trading_ends_at,
        battle.trading_ends_at == battle.starts_at + battle.duration_seconds,
        battle.trading_locks_at == battle.trading_ends_at - battle.trading_lock_seconds,
{
}

/// Trading and locking never overlap: at any moment at which a player may trade, the
/// battle cannot be locked, and once it can be locked no one may trade.
pub proof fn lemma_trading_and_lock_exclusive(battle: Battle, actor: Pubkey, now: i64)
    ensures
        active_trader_error(battle, actor, now) is None ==> lock_trading_error(
            AdvanceBattle { battle },
            now,
        ) is Some,
        lock_trading_error(AdvanceBattle { battle }, now) is None ==> active_trader_error(
            battle,
            actor,
            now,
        ) is Some,
{
}

/// No new risk after the trading lock: from the lock time on, neither a swap nor a new
/// asset vault is accepted.
pub proof fn lemma_no_trading_after_lock(
    swap: ExecuteSwap,
    amount_in: u64,
    minimum_amount_out: u64,
    quoted_amount_out: u64,
    slippage_bps: u16,
    route_data_len: int,
    input_derivation: Option<(Seq<u8>, u8)>,
    output_derivation: Option<(Seq<u8>, u8)>,
    vault: CreateAssetVault,
    now: i64,
)
    requires
        now >= swap.battle.trading_locks_at,
        now >= vault.battle.trading_locks_at,
    ensures
        execute_swap_error(
            swap,
            amount_in,
            minimum_amount_out,
            quoted_amount_out,
            slippage_bps,
            route_data_len,
            now,
            input_derivation,
            output_derivation,
        ) is Some,
        create_asset_vault_error(vault, now) is Some,
{
}

/// No lifecycle step can be applied twice: once a battle has been joined, started,
/// locked, moved to settlement, resolved or cancelled, repeating that step is rejected.
pub proof fn lemma_no_replay(
    join: JoinBattle,
    start: BattleActor,
    lock: AdvanceBattle,
    settle: AdvanceBattle,
    resolve: ResolveBattle,
    cancel: CancelBattle,
    now: i64,
    later: i64,
    player_a_final: u64,
    player_b_final: u64,
)
    requires
        join_battle_error(join) is None,
        start_battle_error(start, now) is None,
        lock_trading_error(lock, now) is None,
        begin_settlement_error(settle, now) is None,
        resolve_battle_error(resolve) is None,
        cancel_battle_error(cancel) is None,
    ensures
        join_battle_error(JoinBattle { battle: joined_battle(join), ..join }) is Some,
        start_battle_error(
            BattleActor { battle: started_battle(start.battle, now), ..start },
            later,
        ) is Some,
        lock_trading_error(AdvanceBattle { battle: locked_battle(lock.battle) }, later) is Some,
        begin_settlement_error(AdvanceBattle { battle: settling_battle(settle.battle) }, later)
            is Some,
        resolve_battle_error(
            ResolveBattle {
                battle: resolved_battle(resolve.battle, player_a_final, player_b_final),
                ..resolve
            },
        ) is Some,
        cancel_battle_error(CancelBattle { battle: cancelled_battle(cancel.battle), ..cancel })
            is Some,
{
}

/// Settlement waits for the end of trading.
pub proof fn lemma_settlement_after_end(ctx: AdvanceBattle, now: i64)
    requires
        begin_settlement_error(ctx, now) is None,
    ensures
        now >= ctx.battle.trading_ends_at,
        ctx.battle.status == BattleStatus::TradingLocked,
{
}

/// A paused protocol accepts no new battle, no join and no start.
pub proof fn lemma_pause_stops_new_activity(
    create: CreateBattle,
    stake_micro_usdc: u64,
    duration_seconds: i64,
    trading_lock_seconds: i64,
    settlement_fee_bps: u16,
    join: JoinBattle,
    start: BattleActor,
    now: i64,
)
    requires
        create.protocol_config.paused,
        join.protocol_config.paused,
        start.protocol_config.paused,
    ensures
        create_battle_error(
            create,
            stake_micro_usdc,
            duration_seconds,
            trading_lock_seconds,
            settlement_fee_bps,
        ) is Some,
        join_battle_error(join) is Some,
        start_battle_error(start, now) == Some(PvpTradeError::ProtocolPaused),
{
}

/// The player with the greater final equity wins; equal equities are a draw with no
/// winner.
pub proof fn lemma_greater_equity_wins(battle: Battle, player_a_final: u64, player_b_final: u64)
    ensures
        player_a_final > player_b_final ==> resolved_battle(
            battle,
            player_a_final,
            player_b_final,
        ).winner == battle.challenger,
        player_b_final > player_a_final ==> resolved_battle(
            battle,
            player_a_final,
            player_b_final,
        ).winner == battle.opponent,
        player_a_final == player_b_final ==> {
            &&& resolved_battle(battle, player_a_final, player_b_final).is_draw
            &&& resolved_battle(battle, player_a_final, player_b_final).winner.is_zero()
        },
        player_a_final != player_b_final ==> !resolved_battle(
            battle,
            player_a_final,
            player_b_final,
        ).is_draw,
{
}

/// A completed swap was made by a player of the battle before its trading lock, between
/// two distinct mints and between that player's own derived vaults; it debited exactly
/// the requested input and credited at least the declared minimum, which itself lies
/// between the quote less the declared slippage and the quote.
pub proof fn lemma_swap_honours_limits(
    ctx: ExecuteSwap,
    amount_in: u64,
    minimum_amount_out: u64,
    quoted_amount_out: u64,
    slippage_bps: u16,
    route_data_len: int,
    now: i64,
    input_derivation: Option<(Seq<u8>, u8)>,
    output_derivation: Option<(Seq<u8>, u8)>,
    plan: SwapPlan,
    input_vault_after: u64,
    output_vault_after: u64,
)
    requires
        execute_swap_error(
            ctx,
            amount_in,
            minimum_amount_out,
            quoted_amount_out,
            slippage_bps,
            route_data_len,
            now,
            input_derivation,
            output_derivation,
        ) is None,
        plan.input_vault_before == ctx.input_vault_amount,
        plan.output_vault_before == ctx.output_vault_amount,
        plan.amount_in == amount_in,
        plan.minimum_amount_out == minimum_amount_out,
        swap_result_error(plan, input_vault_after, output_vault_after) is None,
    ensures
        ctx.input_vault_amount - input_vault_after == amount_in,
        output_vault_after - ctx.output_vault_amount >= minimum_amount_out,
        minimum_output_floor(quoted_amount_out, slippage_bps) <= minimum_amount_out
            <= quoted_amount_out,
        0 < amount_in <= ctx.input_vault_amount,
        now < ctx.battle.trading_locks_at,
        ctx.actor == ctx.battle.challenger || ctx.actor == ctx.battle.opponent,
        is_derived_address(input_derivation, ctx.input_vault),
        is_derived_address(output_derivation, ctx.output_vault),
        ctx.input_mint != ctx.output_mint,
{
}

/// Of the accounts handed to the router, exactly those that are the input vault sign.
pub proof fn lemma_only_input_vault_signs(route: Seq<RouteAccount>, input_vault: Pubkey, i: int)
    requires
        0 <= i < route.len(),
    ensures
        route_metas(route, input_vault).len() == route.len(),
        route_metas(route, input_vault)[i].is_signer <==> route[i].key == input_vault,
        route_metas(route, input_vault)[i].pubkey == route[i].key,
{
}

/// Vaults are separate: the seeds of one trader's vault never equal those of another
/// trader, another battle, or another mint, and settlement vaults and asset vaults never
/// share seeds.
pub proof fn lemma_vault_seeds_distinct(
    battle: Battle,
    battle_key: Pubkey,
    other_battle_key: Pubkey,
    trader: Pubkey,
    other_trader: Pubkey,
    mint: Pubkey,
    other_mint: Pubkey,
)
    ensures
        (battle_key != other_battle_key || trader != other_trader) ==> player_vault_seeds(
            battle,
            battle_key,
            trader,
            mint,
        ) != player_vault_seeds(battle, other_battle_key, other_trader, other_mint),
        mint != other_mint ==> player_vault_seeds(battle, battle_key, trader, mint)
            != player_vault_seeds(battle, battle_key, trader, other_mint),
        vault_seeds(battle_key, trader) != asset_vault_seeds(other_battle_key, other_trader, mint),
{
    Pubkey::lemma_view_injective(battle_key, other_battle_key);
    Pubkey::lemma_view_injective(trader, other_trader);
    Pubkey::lemma_view_injective(mint, other_mint);
    Pubkey::lemma_view_injective(mint, battle.settlement_mint);
    Pubkey::lemma_view_injective(other_mint, battle.settlement_mint);
    let a = player_vault_seeds(battle, battle_key, trader, mint);
    let b = player_vault_seeds(battle, other_battle_key, other_trader, other_mint);
    if battle_key != other_battle_key || trader != other_trader {
        if a == b {
            if a.len() == 3 {
                assert(a[1] == b[1] && a[2] == b[2]);
            } else {
                assert(a[1] == b[1] && a[2] == b[2]);
            }
        }
    }
    let c = player_vault_seeds(battle, battle_key, trader, other_mint);
    if mint != other_mint && a == c {
        assert(a.len() == c.len());
        if a.len() == 4 {
            assert(a[3] == c[3]);
        }
    }
    let v = vault_seeds(battle_key, trader);
    let w = asset_vault_seeds(other_battle_key, other_trader, mint);
    assert(v.len() != w.len());
}

/// A new battle records exactly the terms it was created with: the chosen stake,
/// duration, trading lock, settlement fee and arena, the challenger and its vault, the
/// creation time, and no opponent, schedule or result yet. It is accepted exactly when
/// the mint is the configured settlement mint, the protocol is not paused, the stake and
/// duration are positive, the lock lies between zero and the duration, and the fee is
/// within the configured maximum.
pub proof fn lemma_created_battle_records_its_terms(
    ctx: CreateBattle,
    battle_id: [u8; 32],
    stake_micro_usdc: u64,
    duration_seconds: i64,
    trading_lock_seconds: i64,
    settlement_fee_bps: u16,
    arena: Arena,
    now: i64,
)
    ensures
        create_battle_error(
            ctx,
            stake_micro_usdc,
            duration_seconds,
            trading_lock_seconds,
            settlement_fee_bps,
        ) is None <==> {
            &&& ctx.settlement_mint == ctx.protocol_config.settlement_mint
            &&& !ctx.protocol_config.paused
            &&& stake_micro_usdc > 0
            &&& duration_seconds > 0
            &&& 0 <= trading_lock_seconds <= duration_seconds
            &&& settlement_fee_bps <= ctx.protocol_config.max_settlement_fee_bps
        },
        ({
            let b = created_battle(
                ctx,
                battle_id,
                stake_micro_usdc,
                duration_seconds,
                trading_lock_seconds,
                settlement_fee_bps,
                arena,
                now,
            );
            &&& b.id == battle_id
            &&& b.challenger == ctx.challenger
            &&& b.challenger_vault == ctx.challenger_vault
            &&& b.settlement_mint == ctx.settlement_mint
            &&& b.stake_micro_usdc == stake_micro_usdc
            &&& b.duration_seconds == duration_seconds
            &&& b.trading_lock_seconds == trading_lock_seconds
            &&& b.settlement_fee_bps == settlement_fee_bps
            &&& b.arena == arena
            &&& b.created_at == now
            &&& b.status == BattleStatus::Open
            &&& b.opponent.is_zero()
            &&& b.opponent_vault.is_zero()
            &&& b.winner.is_zero()
            &&& !b.is_draw
            &&& b.starts_at == 0 && b.trading_locks_at == 0 && b.trading_ends_at == 0
            &&& b.player_a_final_micro_usdc == 0 && b.player_b_final_micro_usdc == 0
        }),
{
}

/// Joining sets only the opponent, the opponent's vault and its bump, and funds the
/// battle; every other field, the arena and all other terms included, stays as it was.
/// A join is accepted exactly when the mint is the battle's settlement mint, the protocol
/// is not paused, the battle is open and the joiner is not the challenger.
pub proof fn lemma_join_keeps_the_terms(ctx: JoinBattle)
    ensures
        join_battle_error(ctx) is None <==> {
            &&& ctx.settlement_mint == ctx.battle.settlement_mint
            &&& !ctx.protocol_config.paused
            &&& ctx.battle.status == BattleStatus::Open
            &&& ctx.opponent != ctx.battle.challenger
        },
        ({
            let b = joined_battle(ctx);
            let old = ctx.battle;
            &&& b.opponent == ctx.opponent
            &&& b.opponent_vault == ctx.opponent_vault
            &&& b.opponent_vault_bump == ctx.opponent_vault_bump
            &&& b.status == BattleStatus::Funded
            &&& b.id == old.id
            &&& b.challenger == old.challenger
            &&& b.settlement_mint == old.settlement_mint
            &&& b.challenger_vault == old.challenger_vault
            &&& b.stake_micro_usdc == old.stake_micro_usdc
            &&& b.duration_seconds == old.duration_seconds
            &&& b.trading_lock_seconds == old.trading_lock_seconds
            &&& b.settlement_fee_bps == old.settlement_fee_bps
            &&& b.arena == old.arena
            &&& b.created_at == old.created_at
            &&& b.bump == old.bump
            &&& b.challenger_vault_bump == old.challenger_vault_bump
            &&& b.same_schedule(old)
            &&& b.same_result(old)
        }),
{
}

/// Starting at time `now` counts the schedule from `now`, whatever the creation time:
/// trading starts at `now`, ends `duration_seconds` later and locks `trading_lock_seconds`
/// before the end. A start is accepted exactly when the protocol is not paused, the
/// battle is funded, the actor is one of its players and those times fit in an `i64`.
pub proof fn lemma_start_counts_from_now(ctx: BattleActor, now: i64)
    ensures
        start_battle_error(ctx, now) is None <==> {
            &&& !ctx.protocol_config.paused
            &&& ctx.battle.status == BattleStatus::Funded
            &&& (ctx.actor == ctx.battle.challenger || ctx.actor == ctx.battle.opponent)
            &&& i64::MIN <= now + ctx.battle.duration_seconds <= i64::MAX
            &&& i64::MIN <= now + ctx.battle.duration_seconds - ctx.battle.trading_lock_seconds
                <= i64::MAX
        },
        start_battle_error(ctx, now) is None ==> {
            let b = started_battle(ctx.battle, now);
            &&& b.starts_at == now
            &&& b.trading_ends_at == now + ctx.battle.duration_seconds
            &&& b.trading_locks_at == now + ctx.battle.duration_seconds
                - ctx.battle.trading_lock_seconds
            &&& b.status == BattleStatus::Active
            &&& b.created_at == ctx.battle.created_at
        },
{
}

/// Both players may open asset vaults alike: swapping the challenger for the opponent as
/// the actor never changes the answer. A request is accepted exactly when the policy is
/// the mint's, the battle is active, the actor is a player, trading is not yet locked,
/// the arena allows the mint and the mint is not the settlement mint.
pub proof fn lemma_asset_vaults_for_both_players(ctx: CreateAssetVault, now: i64)
    ensures
        create_asset_vault_error(CreateAssetVault { actor: ctx.battle.opponent, ..ctx }, now)
            == create_asset_vault_error(
            CreateAssetVault { actor: ctx.battle.challenger, ..ctx },
            now,
        ),
        create_asset_vault_error(ctx, now) is None <==> {
            &&& ctx.token_policy.mint == ctx.mint
            &&& ctx.battle.status == BattleStatus::Active
            &&& (ctx.actor == ctx.battle.challenger || ctx.actor == ctx.battle.opponent)
            &&& now < ctx.battle.trading_locks_at
            &&& match ctx.battle.arena {
                Arena::Safe => ctx.token_policy.safe_enabled,
                Arena::Meme => ctx.token_policy.meme_enabled,
            }
            &&& ctx.mint != ctx.battle.settlement_mint
        },
{
}

/// The only rule on a swap's mint pair is that the mints differ and both are enabled for
/// the arena; either direction is allowed, so a bought token can be sold back into the
/// settlement mint. When every other condition holds, the request is accepted exactly
/// then; and a swap out of a non-settlement mint is signed with the asset-vault seeds.
pub proof fn lemma_swap_mint_pair_rule(
    ctx: ExecuteSwap,
    amount_in: u64,
    minimum_amount_out: u64,
    quoted_amount_out: u64,
    slippage_bps: u16,
    route_data_len: int,
    now: i64,
    input_derivation: Option<(Seq<u8>, u8)>,
    output_derivation: Option<(Seq<u8>, u8)>,
)
    requires
        ctx.swap_config.approved_swap_program == ctx.swap_program,
        ctx.input_policy.mint == ctx.input_mint,
        ctx.output_policy.mint == ctx.output_mint,
        amount_in > 0,
        minimum_amount_out > 0,
        minimum_output_floor(quoted_amount_out, slippage_bps) <= minimum_amount_out
            <= quoted_amount_out,
        slippage_bps <= ctx.swap_config.max_slippage_bps,
        route_data_len <= MAX_ROUTE_DATA_BYTES,
        ctx.battle.status == BattleStatus::Active,
        ctx.actor == ctx.battle.challenger || ctx.actor == ctx.battle.opponent,
        now < ctx.battle.trading_locks_at,
        is_derived_address(input_derivation, ctx.input_vault),
        is_derived_address(output_derivation, ctx.output_vault),
        ctx.input_vault_amount >= amount_in,
        route_has(ctx.remaining_accounts@, ctx.input_vault),
        route_has(ctx.remaining_accounts@, ctx.output_vault),
        !route_has_signer(ctx.remaining_accounts@),
    ensures
        execute_swap_error(
            ctx,
            amount_in,
            minimum_amount_out,
            quoted_amount_out,
            slippage_bps,
            route_data_len,
            now,
            input_derivation,
            output_derivation,
        ) is None <==> {
            &&& ctx.input_mint != ctx.output_mint
            &&& ctx.input_policy.spec_allows(ctx.battle.arena)
            &&& ctx.output_policy.spec_allows(ctx.battle.arena)
        },
        ctx.input_mint != ctx.battle.settlement_mint ==> {
            let seeds = input_vault_signer_seeds(ctx, input_derivation);
            &&& seeds.len() == 5
            &&& seeds[0] == asset_vault_tag()
            &&& seeds[1] == ctx.battle_key@
            &&& seeds[2] == ctx.actor@
            &&& seeds[3] == ctx.input_mint@
            &&& seeds[4] == seq![input_derivation.unwrap().1]
        },
        ctx.input_mint == ctx.battle.settlement_mint ==> {
            let seeds = input_vault_signer_seeds(ctx, input_derivation);
            &&& seeds.len() == 4
            &&& seeds[0] == vault_tag()
            &&& seeds[1] == ctx.battle_key@
            &&& seeds[2] == ctx.actor@
            &&& seeds[3] == seq![input_derivation.unwrap().1]
        },
{
}

/// Locking, moving to settlement and cancelling change the battle's status and nothing
/// else; resolving records the two final equities, the draw flag and the winner and
/// changes nothing else.
pub proof fn lemma_steps_change_only_their_fields(
    battle: Battle,
    player_a_final: u64,
    player_b_final: u64,
)
    ensures
        ({
            let b = locked_battle(battle);
            b.status == BattleStatus::TradingLocked && b == (Battle { status: b.status, ..battle })
        }),
        ({
            let b = settling_battle(battle);
            b.status == BattleStatus::Settling && b == (Battle { status: b.status, ..battle })
        }),
        ({
            let b = cancelled_battle(battle);
            b.status == BattleStatus::Cancelled && b == (Battle { status: b.status, ..battle })
        }),
        ({
            let b = resolved_battle(battle, player_a_final, player_b_final);
            &&& b.status == BattleStatus::Resolved
            &&& b.player_a_final_micro_usdc == player_a_final
            &&& b.player_b_final_micro_usdc == player_b_final
            &&& b == (Battle {
                status: b.status,
                player_a_final_micro_usdc: player_a_final,
                player_b_final_micro_usdc: player_b_final,
                is_draw: b.is_draw,
                winner: b.winner,
                ..battle
            })
        }),
{
}

} // verus!
