use pvp_trade::address::battle_address;
use pvp_trade::error::PvpTradeError;
use pvp_trade::instructions::{
    create_battle, join_battle, start_battle, BattleActor, CreateBattle, JoinBattle,
};
use pvp_trade::state::{Arena, ProtocolConfig, SwapConfig, TokenPolicy};
use pvp_trade::swap::{
    check_swap_result, execute_swap, plan_swap, ExecuteSwap, RouteAccount, SwapPlan,
};
use pvp_trade::Pubkey;

const NOW: i64 = 1_760_000_000;

fn key(byte: u8) -> Pubkey {
    Pubkey::new_from_array([byte; 32])
}

fn find_address(seeds: &[&[u8]], program_id: Pubkey) -> Pubkey {
    let program = anchor_lang::prelude::Pubkey::new_from_array(program_id.bytes);
    let (address, _) = anchor_lang::prelude::Pubkey::find_program_address(seeds, &program);
    Pubkey::new_from_array(address.to_bytes())
}

fn program_id() -> Pubkey {
    key(200)
}

fn config() -> ProtocolConfig {
    ProtocolConfig {
        authority: key(1),
        settlement_mint: key(4),
        max_settlement_fee_bps: 500,
        default_trading_lock_seconds: 300,
        paused: false,
        bump: 0,
    }
}

fn policy(mint: Pubkey) -> TokenPolicy {
    TokenPolicy { mint, safe_enabled: true, meme_enabled: false, bump: 0 }
}

fn route(key: Pubkey) -> RouteAccount {
    RouteAccount { key, is_signer: false, is_writable: true }
}

/// A swap of the challenger's settlement tokens into mint 50 that passes every check.
fn valid_swap() -> ExecuteSwap {
    let (battle_key, battle_bump) = battle_address(&[7; 32], &program_id()).unwrap();
    let challenger = key(2);
    let input_vault = find_address(&[b"vault", &battle_key.bytes, &challenger.bytes], program_id());
    let (created, _, _) = create_battle(
        &CreateBattle {
            protocol_config: config(),
            battle_key,
            battle_bump,
            settlement_mint: key(4),
            settlement_mint_decimals: 6,
            challenger_source: key(5),
            challenger_vault: input_vault,
            challenger_vault_bump: 0,
            challenger,
        },
        [7; 32],
        100_000_000,
        86_400,
        300,
        200,
        Arena::Safe,
        NOW,
    )
    .unwrap();
    let (joined, _, _) = join_battle(&JoinBattle {
        protocol_config: config(),
        battle_key,
        battle: created,
        settlement_mint: key(4),
        settlement_mint_decimals: 6,
        opponent_source: key(6),
        opponent_vault: key(22),
        opponent_vault_bump: 0,
        opponent: key(3),
    })
    .unwrap();
    let (battle, _) = start_battle(
        &BattleActor { protocol_config: config(), battle_key, battle: joined, actor: challenger },
        NOW,
    )
    .unwrap();
    let output_vault = find_address(
        &[b"asset_vault", &battle_key.bytes, &challenger.bytes, &key(50).bytes],
        program_id(),
    );
    ExecuteSwap {
        program_id: program_id(),
        swap_config: SwapConfig { approved_swap_program: key(201), max_slippage_bps: 500, bump: 0 },
        battle_key,
        battle,
        input_policy: policy(key(4)),
        output_policy: policy(key(50)),
        input_mint: key(4),
        output_mint: key(50),
        input_vault,
        input_vault_amount: 100_000_000,
        output_vault,
        output_vault_amount: 0,
        actor: challenger,
        swap_program: key(201),
        remaining_accounts: vec![route(input_vault), route(key(60)), route(output_vault)],
    }
}

fn run(ctx: &ExecuteSwap) -> Result<SwapPlan, PvpTradeError> {
    execute_swap(ctx, 20_000_000, 39_000_000, 40_000_000, 250, vec![9; 16], NOW + 10)
}

#[test]
fn valid_swap_is_planned_with_only_the_input_vault_signing() {
    let ctx = valid_swap();
    let plan = run(&ctx).unwrap();
    assert_eq!(plan.swap_program, key(201));
    assert_eq!(plan.accounts.len(), 3);
    assert!(plan.accounts[0].is_signer);
    assert_eq!(plan.accounts[0].pubkey, ctx.input_vault);
    assert!(!plan.accounts[1].is_signer);
    assert!(!plan.accounts[2].is_signer);
    assert!(plan.accounts[2].is_writable);
    assert_eq!(plan.data, vec![9; 16]);
    assert_eq!(plan.input_vault_before, 100_000_000);
    // The signer seeds re-derive the input vault.
    let seeds: Vec<&[u8]> = plan.signer_seeds.iter().map(|s| s.as_slice()).collect();
    assert_eq!(seeds.len(), 4);
    assert_eq!(seeds[0], b"vault");
    let program = anchor_lang::prelude::Pubkey::new_from_array(program_id().bytes);
    let signer = anchor_lang::prelude::Pubkey::create_program_address(&seeds, &program).unwrap();
    assert_eq!(signer.to_bytes(), ctx.input_vault.bytes);
}

#[test]
fn minimum_output_must_respect_quote_and_slippage() {
    let ctx = valid_swap();
    // 40_000_000 less 2.5% is exactly 39_000_000.
    assert!(execute_swap(&ctx, 20_000_000, 39_000_000, 40_000_000, 250, vec![], NOW).is_ok());
    assert_eq!(
        execute_swap(&ctx, 20_000_000, 38_999_999, 40_000_000, 250, vec![], NOW).unwrap_err(),
        PvpTradeError::InvalidMinimumOutput
    );
    assert_eq!(
        execute_swap(&ctx, 20_000_000, 40_000_001, 40_000_000, 250, vec![], NOW).unwrap_err(),
        PvpTradeError::InvalidMinimumOutput
    );
    // Rounding down: 333 less 1% is 329.67, so 329 is the least allowed minimum.
    assert!(execute_swap(&ctx, 20_000_000, 329, 333, 100, vec![], NOW).is_ok());
    assert_eq!(
        execute_swap(&ctx, 20_000_000, 328, 333, 100, vec![], NOW).unwrap_err(),
        PvpTradeError::InvalidMinimumOutput
    );
    assert_eq!(
        execute_swap(&ctx, 20_000_000, 39_000_000, 40_000_000, 501, vec![], NOW).unwrap_err(),
        PvpTradeError::InvalidSlippage
    );
}

#[test]
fn swap_amounts_and_route_data_are_bounded() {
    let ctx = valid_swap();
    assert_eq!(
        execute_swap(&ctx, 0, 39_000_000, 40_000_000, 250, vec![], NOW).unwrap_err(),
        PvpTradeError::InvalidSwapAmount
    );
    assert_eq!(
        execute_swap(&ctx, 1, 0, 40_000_000, 250, vec![], NOW).unwrap_err(),
        PvpTradeError::InvalidSwapAmount
    );
    assert!(execute_swap(&ctx, 1, 39_000_000, 40_000_000, 250, vec![0; 1_024], NOW).is_ok());
    assert_eq!(
        execute_swap(&ctx, 1, 39_000_000, 40_000_000, 250, vec![0; 1_025], NOW).unwrap_err(),
        PvpTradeError::RouteDataTooLarge
    );
    assert_eq!(
        execute_swap(&ctx, 100_000_001, 39_000_000, 40_000_000, 250, vec![], NOW).unwrap_err(),
        PvpTradeError::InsufficientVaultBalance
    );
}

#[test]
fn swap_program_and_policies_are_checked() {
    let mut ctx = valid_swap();
    ctx.swap_program = key(202);
    assert_eq!(run(&ctx).unwrap_err(), PvpTradeError::InvalidSwapProgram);
    let mut ctx = valid_swap();
    ctx.input_policy.mint = key(51);
    assert_eq!(run(&ctx).unwrap_err(), PvpTradeError::InvalidSwapMint);
    let mut ctx = valid_swap();
    ctx.output_policy.safe_enabled = false;
    assert_eq!(run(&ctx).unwrap_err(), PvpTradeError::TokenNotAllowed);
    let mut ctx = valid_swap();
    ctx.output_mint = key(4);
    ctx.output_policy = policy(key(4));
    assert_eq!(run(&ctx).unwrap_err(), PvpTradeError::InvalidSwapMint);
}

#[test]
fn swap_needs_an_active_player_before_the_lock() {
    let mut ctx = valid_swap();
    ctx.actor = key(9);
    assert_eq!(run(&ctx).unwrap_err(), PvpTradeError::Unauthorized);
    let ctx = valid_swap();
    assert_eq!(
        execute_swap(&ctx, 20_000_000, 39_000_000, 40_000_000, 250, vec![], NOW + 86_100)
            .unwrap_err(),
        PvpTradeError::TradingLocked
    );
}

#[test]
fn vaults_must_be_the_actors_own() {
    let mut ctx = valid_swap();
    ctx.input_vault = key(70);
    ctx.remaining_accounts.push(route(key(70)));
    assert_eq!(run(&ctx).unwrap_err(), PvpTradeError::InvalidInputVault);
    let mut ctx = valid_swap();
    // The opponent's asset vault for the same mint is not the challenger's.
    ctx.output_vault = find_address(
        &[b"asset_vault", &ctx.battle_key.bytes, &key(3).bytes, &key(50).bytes],
        program_id(),
    );
    ctx.remaining_accounts.push(route(ctx.output_vault));
    assert_eq!(run(&ctx).unwrap_err(), PvpTradeError::InvalidOutputVault);
}

#[test]
fn route_must_carry_both_vaults_and_no_signer() {
    let mut ctx = valid_swap();
    ctx.remaining_accounts.remove(2);
    assert_eq!(run(&ctx).unwrap_err(), PvpTradeError::InvalidRouteAccounts);
    let mut ctx = valid_swap();
    ctx.remaining_accounts[1].is_signer = true;
    assert_eq!(run(&ctx).unwrap_err(), PvpTradeError::UnexpectedRouteSigner);
}

#[test]
fn swap_result_needs_exact_debit_and_minimum_credit() {
    let plan = run(&valid_swap()).unwrap();
    let event = check_swap_result(&plan, 80_000_000, 40_000_000).unwrap();
    assert_eq!(event.amount_in, 20_000_000);
    assert_eq!(event.amount_out, 40_000_000);
    assert_eq!(event.actor, key(2));
    assert_eq!(event.input_mint, key(4));
    assert_eq!(event.output_mint, key(50));
    assert_eq!(
        check_swap_result(&plan, 100_000_001, 40_000_000).unwrap_err(),
        PvpTradeError::InvalidSwapDebit
    );
    assert_eq!(
        check_swap_result(&plan, 79_999_999, 40_000_000).unwrap_err(),
        PvpTradeError::InvalidSwapDebit
    );
    assert_eq!(
        check_swap_result(&plan, 80_000_000, 38_999_999).unwrap_err(),
        PvpTradeError::MinimumOutputNotMet
    );
    let mut credited = run(&valid_swap()).unwrap();
    credited.output_vault_before = 5;
    assert_eq!(
        check_swap_result(&credited, 80_000_000, 4).unwrap_err(),
        PvpTradeError::InvalidSwapCredit
    );
}

#[test]
fn plan_swap_uses_the_given_vault_derivations() {
    let ctx = valid_swap();
    let good_in = Some((ctx.input_vault, 7u8));
    let good_out = Some((ctx.output_vault, 9u8));
    let plan = |input, output| {
        plan_swap(&ctx, 20_000_000, 39_000_000, 40_000_000, 250, vec![], NOW, input, output)
    };
    let planned = plan(good_in, good_out).unwrap();
    assert_eq!(planned.signer_seeds.len(), 4);
    assert_eq!(planned.signer_seeds[3], vec![7u8]);
    assert_eq!(planned.signer_seeds[2], key(2).bytes.to_vec());
    assert_eq!(plan(None, good_out).unwrap_err(), PvpTradeError::InvalidInputVault);
    assert_eq!(plan(Some((key(70), 7)), good_out).unwrap_err(), PvpTradeError::InvalidInputVault);
    assert_eq!(plan(good_in, None).unwrap_err(), PvpTradeError::InvalidOutputVault);
    assert_eq!(plan(good_in, Some((key(71), 9))).unwrap_err(), PvpTradeError::InvalidOutputVault);
}
