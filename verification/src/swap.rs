//! Routed swaps from a player's battle vault.
//!
//! A swap is checked in two steps around the router call: `execute_swap` validates the
//! request and plans the call (the accounts the router sees and the seeds the input
//! vault signs with), and `check_swap_result` judges the vault balances after it.
use vstd::prelude::*;

use crate::address::{
    derivation_view, derived_program_address, expected_player_vault, player_vault_seed_bytes,
    player_vault_seeds, push_bump, with_bump,
};
use crate::error::PvpTradeError;
use crate::events::SwapExecuted;
use crate::instructions::{active_trader_error, validate_active_trader};
use crate::pubkey::Pubkey;
use crate::state::{Battle, SwapConfig, TokenPolicy, BPS_DENOMINATOR, MAX_ROUTE_DATA_BYTES};

verus! {

/// One account the client passes on for the router, as the transaction marks it.
#[derive(Clone, Copy, Debug)]
pub struct RouteAccount {
    pub key: Pubkey,
    pub is_signer: bool,
    pub is_writable: bool,
}

/// One account of the router instruction, as the program marks it.
#[derive(Clone, Copy, Debug)]
pub struct RouteMeta {
    pub pubkey: Pubkey,
    pub is_signer: bool,
    pub is_writable: bool,
}

/// The accounts `execute_swap` reads; `program_id` is the battle program's own id.
#[derive(Debug)]
pub struct ExecuteSwap {
    pub program_id: Pubkey,
    pub swap_config: SwapConfig,
    pub battle_key: Pubkey,
    pub battle: Battle,
    pub input_policy: TokenPolicy,
    pub output_policy: TokenPolicy,
    pub input_mint: Pubkey,
    pub output_mint: Pubkey,
    pub input_vault: Pubkey,
    pub input_vault_amount: u64,
    pub output_vault: Pubkey,
    pub output_vault_amount: u64,
    pub actor: Pubkey,
    pub swap_program: Pubkey,
    pub remaining_accounts: Vec<RouteAccount>,
}

/// The router call `execute_swap` approved, and what its outcome is judged against.
#[derive(Debug)]
pub struct SwapPlan {
    pub swap_program: Pubkey,
    pub accounts: Vec<RouteMeta>,
    pub data: Vec<u8>,
    pub signer_seeds: Vec<Vec<u8>>,
    pub battle: Pubkey,
    pub actor: Pubkey,
    pub input_mint: Pubkey,
    pub output_mint: Pubkey,
    pub input_vault_before: u64,
    pub output_vault_before: u64,
    pub amount_in: u64,
    pub minimum_amount_out: u64,
}

/// The least minimum output a swap may declare for a quote and a slippage tolerance:
/// the quote less the tolerated share, rounded down.
pub open spec fn minimum_output_floor(quoted_amount_out: u64, slippage_bps: u16) -> int {
    if slippage_bps >= BPS_DENOMINATOR {
        0
    } else {
        (quoted_amount_out * (BPS_DENOMINATOR - slippage_bps)) / (BPS_DENOMINATOR as int)
    }
}

/// The derivation of the actor's vault of `mint` in the battle, under the program's id.
pub open spec fn player_vault_derivation(ctx: ExecuteSwap, mint: Pubkey) -> Option<(Seq<u8>, u8)> {
    derived_program_address(
        player_vault_seeds(ctx.battle, ctx.battle_key, ctx.actor, mint),
        ctx.program_id@,
    )
}

/// Whether `vault` is the address `derivation` found.
pub open spec fn is_derived_address(derivation: Option<(Seq<u8>, u8)>, vault: Pubkey) -> bool {
    derivation matches Some((address, _)) && address == vault@
}

/// Whether the route passes `key` to the router.
pub open spec fn route_has(route: Seq<RouteAccount>, key: Pubkey) -> bool {
    exists|i: int| 0 <= i < route.len() && #[trigger] route[i].key == key
}

/// Whether the route asks for any signer.
pub open spec fn route_has_signer(route: Seq<RouteAccount>) -> bool {
    exists|i: int| 0 <= i < route.len() && #[trigger] route[i].is_signer
}

/// The router's accounts: the route's accounts in order, writable as the client marked
/// them, and signing exactly where the account is the input vault.
pub open spec fn route_metas(route: Seq<RouteAccount>, input_vault: Pubkey) -> Seq<RouteMeta> {
    route.map_values(
        |a: RouteAccount|
            RouteMeta { pubkey: a.key, is_signer: a.key == input_vault, is_writable: a.is_writable },
    )
}

/// Why a swap request is rejected at time `now`, if it is, given the derivations of the
/// actor's input and output vaults.
pub open spec fn execute_swap_error(
    ctx: ExecuteSwap,
    amount_in: u64,
    minimum_amount_out: u64,
    quoted_amount_out: u64,
    slippage_bps: u16,
    route_data_len: int,
    now: i64,
    input_derivation: Option<(Seq<u8>, u8)>,
    output_derivation: Option<(Seq<u8>, u8)>,
) -> Option<PvpTradeError> {
    if ctx.swap_config.approved_swap_program != ctx.swap_program {
        Some(PvpTradeError::InvalidSwapProgram)
    } else if ctx.input_policy.mint != ctx.input_mint {
        Some(PvpTradeError::InvalidSwapMint)
    } else if ctx.output_policy.mint != ctx.output_mint {
        Some(PvpTradeError::InvalidSwapMint)
    } else if amount_in == 0 || minimum_amount_out == 0 {
        Some(PvpTradeError::InvalidSwapAmount)
    } else if !(minimum_output_floor(quoted_amount_out, slippage_bps) <= minimum_amount_out
        <= quoted_amount_out) {
        Some(PvpTradeError::InvalidMinimumOutput)
    } else if slippage_bps > ctx.swap_config.max_slippage_bps {
        Some(PvpTradeError::InvalidSlippage)
    } else if route_data_len > MAX_ROUTE_DATA_BYTES {
        Some(PvpTradeError::RouteDataTooLarge)
    } else if active_trader_error(ctx.battle, ctx.actor, now) is Some {
        active_trader_error(ctx.battle, ctx.actor, now)
    } else if !(ctx.input_policy.spec_allows(ctx.battle.arena) && ctx.output_policy.spec_allows(
        ctx.battle.arena,
    )) {
        Some(PvpTradeError::TokenNotAllowed)
    } else if ctx.input_mint == ctx.output_mint {
        Some(PvpTradeError::InvalidSwapMint)
    } else if !is_derived_address(input_derivation, ctx.input_vault) {
        Some(PvpTradeError::InvalidInputVault)
    } else if !is_derived_address(output_derivation, ctx.output_vault) {
        Some(PvpTradeError::InvalidOutputVault)
    } else if ctx.input_vault_amount < amount_in {
        Some(PvpTradeError::InsufficientVaultBalance)
    } else if !(route_has(ctx.remaining_accounts@, ctx.input_vault) && route_has(
        ctx.remaining_accounts@,
        ctx.output_vault,
    )) {
        Some(PvpTradeError::InvalidRouteAccounts)
    } else if route_has_signer(ctx.remaining_accounts@) {
        Some(PvpTradeError::UnexpectedRouteSigner)
    } else {
        None
    }
}

/// The seeds the input vault signs the router call with: its derivation seeds and the
/// bump its derivation found.
pub open spec fn input_vault_signer_seeds(ctx: ExecuteSwap, input_derivation: Option<(Seq<u8>, u8)>) -> Seq<
    Seq<u8>,
> {
    let (_, bump) = input_derivation.unwrap();
    with_bump(player_vault_seeds(ctx.battle, ctx.battle_key, ctx.actor, ctx.input_mint), bump)
}

/// `minimum_output_floor`, computed.
fn compute_minimum_output_floor(quoted_amount_out: u64, slippage_bps: u16) -> (floor: u64)
    ensures
        floor == minimum_output_floor(quoted_amount_out, slippage_bps),
{
    if slippage_bps >= BPS_DENOMINATOR {
        return 0;
    }
    let keep: u16 = BPS_DENOMINATOR - slippage_bps;
    let quoted_wide: u128 = quoted_amount_out as u128;
    let keep_wide: u128 = keep as u128;
    proof {
        assert(quoted_wide * keep_wide <= 18446744073709551615 * 10000) by (nonlinear_arith)
            requires
                quoted_wide <= 18446744073709551615u128,
                keep_wide <= 10000u128,
        ;
        assert((quoted_wide * keep_wide) / 10000 <= quoted_wide) by (nonlinear_arith)
            requires
                keep_wide <= 10000u128,
        ;
    }
    let floor = (quoted_wide * keep_wide) / 10000u128;
    floor as u64
}

/// Whether the route passes `key`, computed.
fn route_contains(route: &Vec<RouteAccount>, key: &Pubkey) -> (r: bool)
    ensures
        r == route_has(route@, *key),
{
    let mut i: usize = 0;
    while i < route.len()
        invariant
            i <= route.len(),
            forall|j: int| 0 <= j < i ==> route@[j].key != *key,
        decreases route.len() - i,
    {
        if route[i].key == *key {
            assert(route@[i as int].key == *key);
            return true;
        }
        i = i + 1;
    }
    false
}

/// Whether the route asks for any signer, computed.
fn route_requests_signer(route: &Vec<RouteAccount>) -> (r: bool)
    ensures
        r == route_has_signer(route@),
{
    let mut i: usize = 0;
    while i < route.len()
        invariant
            i <= route.len(),
            forall|j: int| 0 <= j < i ==> !route@[j].is_signer,
        decreases route.len() - i,
    {
        if route[i].is_signer {
            assert(route@[i as int].is_signer);
            return true;
        }
        i = i + 1;
    }
    false
}

/// `route_metas`, computed.
fn build_route_metas(route: &Vec<RouteAccount>, input_vault: &Pubkey) -> (metas: Vec<RouteMeta>)
    ensures
        metas@ == route_metas(route@, *input_vault),
{
    let mut metas: Vec<RouteMeta> = Vec::new();
    let mut i: usize = 0;
    while i < route.len()
        invariant
            i <= route.len(),
            metas@ == route_metas(route@.take(i as int), *input_vault),
        decreases route.len() - i,
    {
        let account = route[i];
        metas.push(
            RouteMeta {
                pubkey: account.key,
                is_signer: account.key == *input_vault,
                is_writable: account.is_writable,
            },
        );
        i = i + 1;
        assert(metas@ =~= route_metas(route@.take(i as int), *input_vault));
    }
    assert(route@.take(route.len() as int) =~= route@);
    metas
}

/// Validates a swap of `amount_in` from `actor`'s vault of `input_mint` into their vault
/// of `output_mint` at time `now`, given the derived addresses and bumps of the actor's
/// vaults of the two mints, and plans the router call.
///
/// The amounts must be positive; the minimum output must lie between the quote less the
/// declared slippage and the quote; the slippage within the configured maximum; the
/// router data within its size limit; the actor a player of an active battle before its
/// trading lock; both mints enabled for the arena and distinct; both vaults the derived
/// ones; the input vault able to pay; and the route must pass both vaults and ask for no
/// signer. The router then sees the route's accounts, with only the input vault
/// signing, through the seeds it was derived from.
pub fn plan_swap(
    ctx: &ExecuteSwap,
    amount_in: u64,
    minimum_amount_out: u64,
    quoted_amount_out: u64,
    slippage_bps: u16,
    route_data: Vec<u8>,
    now: i64,
    input_vault: Option<(Pubkey, u8)>,
    output_vault: Option<(Pubkey, u8)>,
) -> (r: Result<SwapPlan, PvpTradeError>)
    ensures
        match r {
            Ok(plan) => {
                &&& execute_swap_error(
                    *ctx,
                    amount_in,
                    minimum_amount_out,
                    quoted_amount_out,
                    slippage_bps,
                    route_data.len() as int,
                    now,
                    derivation_view(input_vault),
                    derivation_view(output_vault),
                ) is None
                &&& plan.swap_program == ctx.swap_program
                &&& plan.accounts@ == route_metas(ctx.remaining_accounts@, ctx.input_vault)
                &&& plan.data@ == route_data@
                &&& plan.signer_seeds.deep_view() == input_vault_signer_seeds(
                    *ctx,
                    derivation_view(input_vault),
                )
                &&& plan.battle == ctx.battle_key
                &&& plan.actor == ctx.actor
                &&& plan.input_mint == ctx.input_mint
                &&& plan.output_mint == ctx.output_mint
                &&& plan.input_vault_before == ctx.input_vault_amount
                &&& plan.output_vault_before == ctx.output_vault_amount
                &&& plan.amount_in == amount_in
                &&& plan.minimum_amount_out == minimum_amount_out
            },
            Err(e) => execute_swap_error(
                *ctx,
                amount_in,
                minimum_amount_out,
                quoted_amount_out,
                slippage_bps,
                route_data.len() as int,
                now,
                derivation_view(input_vault),
                derivation_view(output_vault),
            ) == Some(e),
        },
{
    if ctx.swap_config.approved_swap_program != ctx.swap_program {
        return Err(PvpTradeError::InvalidSwapProgram);
    }
    if ctx.input_policy.mint != ctx.input_mint {
        return Err(PvpTradeError::InvalidSwapMint);
    }
    if ctx.output_policy.mint != ctx.output_mint {
        return Err(PvpTradeError::InvalidSwapMint);
    }
    if !(amount_in > 0 && minimum_amount_out > 0) {
        return Err(PvpTradeError::InvalidSwapAmount);
    }
    let floor = compute_minimum_output_floor(quoted_amount_out, slippage_bps);
    if !(quoted_amount_out >= minimum_amount_out && minimum_amount_out >= floor) {
        return Err(PvpTradeError::InvalidMinimumOutput);
    }
    if slippage_bps > ctx.swap_config.max_slippage_bps {
        return Err(PvpTradeError::InvalidSlippage);
    }
    if route_data.len() > MAX_ROUTE_DATA_BYTES {
        return Err(PvpTradeError::RouteDataTooLarge);
    }
    let battle = &ctx.battle;
    validate_active_trader(battle, &ctx.actor, now)?;
    if !(ctx.input_policy.allows(battle.arena) && ctx.output_policy.allows(battle.arena)) {
        return Err(PvpTradeError::TokenNotAllowed);
    }
    if ctx.input_mint == ctx.output_mint {
        return Err(PvpTradeError::InvalidSwapMint);
    }
    let input_bump = match input_vault {
        Some((address, bump)) => {
            proof {
                Pubkey::lemma_view_injective(address, ctx.input_vault);
            }
            if address != ctx.input_vault {
                return Err(PvpTradeError::InvalidInputVault);
            }
            bump
        },
        None => return Err(PvpTradeError::InvalidInputVault),
    };
    match output_vault {
        Some((address, _)) => {
            proof {
                Pubkey::lemma_view_injective(address, ctx.output_vault);
            }
            if address != ctx.output_vault {
                return Err(PvpTradeError::InvalidOutputVault);
            }
        },
        None => return Err(PvpTradeError::InvalidOutputVault),
    }
    if ctx.input_vault_amount < amount_in {
        return Err(PvpTradeError::InsufficientVaultBalance);
    }
    let route_has_input = route_contains(&ctx.remaining_accounts, &ctx.input_vault);
    let route_has_output = route_contains(&ctx.remaining_accounts, &ctx.output_vault);
    if !(route_has_input && route_has_output) {
        return Err(PvpTradeError::InvalidRouteAccounts);
    }
    if route_requests_signer(&ctx.remaining_accounts) {
        return Err(PvpTradeError::UnexpectedRouteSigner);
    }
    let accounts = build_route_metas(&ctx.remaining_accounts, &ctx.input_vault);
    let mut signer_seeds = player_vault_seed_bytes(
        battle,
        &ctx.battle_key,
        &ctx.actor,
        &ctx.input_mint,
    );
    push_bump(&mut signer_seeds, input_bump);
    Ok(
        SwapPlan {
            swap_program: ctx.swap_program,
            accounts,
            data: route_data,
            signer_seeds,
            battle: ctx.battle_key,
            actor: ctx.actor,
            input_mint: ctx.input_mint,
            output_mint: ctx.output_mint,
            input_vault_before: ctx.input_vault_amount,
            output_vault_before: ctx.output_vault_amount,
            amount_in,
            minimum_amount_out,
        },
    )
}

/// Validates a swap at time `now` and plans the router call, as `plan_swap` does, with
/// the actor's vault addresses derived from this program's seeds: the settlement vault
/// for the battle's settlement mint and an asset vault for any other mint.
pub fn execute_swap(
    ctx: &ExecuteSwap,
    amount_in: u64,
    minimum_amount_out: u64,
    quoted_amount_out: u64,
    slippage_bps: u16,
    route_data: Vec<u8>,
    now: i64,
) -> (r: Result<SwapPlan, PvpTradeError>)
    ensures
        match r {
            Ok(plan) => {
                &&& execute_swap_error(
                    *ctx,
                    amount_in,
                    minimum_amount_out,
                    quoted_amount_out,
                    slippage_bps,
                    route_data.len() as int,
                    now,
                    player_vault_derivation(*ctx, ctx.input_mint),
                    player_vault_derivation(*ctx, ctx.output_mint),
                ) is None
                &&& plan.swap_program == ctx.swap_program
                &&& plan.accounts@ == route_metas(ctx.remaining_accounts@, ctx.input_vault)
                &&& plan.data@ == route_data@
                &&& plan.signer_seeds.deep_view() == input_vault_signer_seeds(
                    *ctx,
                    player_vault_derivation(*ctx, ctx.input_mint),
                )
                &&& plan.battle == ctx.battle_key
                &&& plan.actor == ctx.actor
                &&& plan.input_mint == ctx.input_mint
                &&& plan.output_mint == ctx.output_mint
                &&& plan.input_vault_before == ctx.input_vault_amount
                &&& plan.output_vault_before == ctx.output_vault_amount
                &&& plan.amount_in == amount_in
                &&& plan.minimum_amount_out == minimum_amount_out
            },
            Err(e) => execute_swap_error(
                *ctx,
                amount_in,
                minimum_amount_out,
                quoted_amount_out,
                slippage_bps,
                route_data.len() as int,
                now,
                player_vault_derivation(*ctx, ctx.input_mint),
                player_vault_derivation(*ctx, ctx.output_mint),
            ) == Some(e),
        },
{
    let input_vault = expected_player_vault(
        &ctx.battle,
        &ctx.battle_key,
        &ctx.actor,
        &ctx.input_mint,
        &ctx.program_id,
    );
    let output_vault = expected_player_vault(
        &ctx.battle,
        &ctx.battle_key,
        &ctx.actor,
        &ctx.output_mint,
        &ctx.program_id,
    );
    plan_swap(
        ctx,
        amount_in,
        minimum_amount_out,
        quoted_amount_out,
        slippage_bps,
        route_data,
        now,
        input_vault,
        output_vault,
    )
}

/// Why the vault balances after the router call fail the swap, if they do: the input
/// vault must have lost exactly `amount_in`, and the output vault must not have lost
/// anything and must have gained at least the minimum output.
pub open spec fn swap_result_error(plan: SwapPlan, input_vault_after: u64, output_vault_after: u64) -> Option<
    PvpTradeError,
> {
    if input_vault_after > plan.input_vault_before {
        Some(PvpTradeError::InvalidSwapDebit)
    } else if output_vault_after < plan.output_vault_before {
        Some(PvpTradeError::InvalidSwapCredit)
    } else if plan.input_vault_before - input_vault_after != plan.amount_in {
        Some(PvpTradeError::InvalidSwapDebit)
    } else if output_vault_after - plan.output_vault_before < plan.minimum_amount_out {
        Some(PvpTradeError::MinimumOutputNotMet)
    } else {
        None
    }
}

/// Judges the vault balances read back after the router call of `plan`.
pub fn check_swap_result(plan: &SwapPlan, input_vault_after: u64, output_vault_after: u64) -> (r:
    Result<SwapExecuted, PvpTradeError>)
    ensures
        match r {
            Ok(event) => {
                &&& swap_result_error(*plan, input_vault_after, output_vault_after) is None
                &&& event == (SwapExecuted {
                    battle: plan.battle,
                    actor: plan.actor,
                    input_mint: plan.input_mint,
                    output_mint: plan.output_mint,
                    amount_in: (plan.input_vault_before - input_vault_after) as u64,
                    amount_out: (output_vault_after - plan.output_vault_before) as u64,
                })
            },
            Err(e) => swap_result_error(*plan, input_vault_after, output_vault_after) == Some(e),
        },
        r matches Ok(event) ==> {
            &&& event.amount_in == plan.amount_in
            &&& event.amount_out >= plan.minimum_amount_out
        },
{
    let spent = match plan.input_vault_before.checked_sub(input_vault_after) {
        Some(spent) => spent,
        None => return Err(PvpTradeError::InvalidSwapDebit),
    };
    let received = match output_vault_after.checked_sub(plan.output_vault_before) {
        Some(received) => received,
        None => return Err(PvpTradeError::InvalidSwapCredit),
    };
    if spent != plan.amount_in {
        return Err(PvpTradeError::InvalidSwapDebit);
    }
    if received < plan.minimum_amount_out {
        return Err(PvpTradeError::MinimumOutputNotMet);
    }
    Ok(
        SwapExecuted {
            battle: plan.battle,
            actor: plan.actor,
            input_mint: plan.input_mint,
            output_mint: plan.output_mint,
            amount_in: spent,
            amount_out: received,
        },
    )
}

} // verus!
