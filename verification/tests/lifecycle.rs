use pvp_trade::error::{MockSwapError, PvpTradeError};
use pvp_trade::instructions::{
    begin_settlement, cancel_battle, create_asset_vault, create_battle, create_token_policy,
    initialize_protocol, initialize_swap_config, join_battle, lock_trading, resolve_battle,
    start_battle, validate_active_trader, AdvanceBattle, BattleActor, CancelBattle,
    CreateAssetVault, CreateBattle, CreateTokenPolicy, InitializeProtocol, InitializeSwapConfig,
    JoinBattle, ResolveBattle,
};
use pvp_trade::mock_swap::{swap, Swap};
use pvp_trade::state::{Arena, Battle, BattleStatus, ProtocolConfig, TokenPolicy};
use pvp_trade::Pubkey;

const STAKE: u64 = 100_000_000;
const NOW: i64 = 1_760_000_000;
const DURATION: i64 = 86_400;
const LOCK: i64 = 300;

fn key(byte: u8) -> Pubkey {
    Pubkey::new_from_array([byte; 32])
}

fn config() -> ProtocolConfig {
    initialize_protocol(
        &InitializeProtocol {
            settlement_mint: key(4),
            settlement_mint_decimals: 6,
            authority: key(1),
            protocol_config_bump: 250,
        },
        500,
        300,
    )
    .unwrap()
}

fn create_ctx(config: ProtocolConfig) -> CreateBattle {
    CreateBattle {
        protocol_config: config,
        battle_key: key(20),
        battle_bump: 251,
        settlement_mint: key(4),
        settlement_mint_decimals: 6,
        challenger_source: key(5),
        challenger_vault: key(21),
        challenger_vault_bump: 252,
        challenger: key(2),
    }
}

fn open_battle() -> Battle {
    create_battle(&create_ctx(config()), [7; 32], STAKE, DURATION, LOCK, 200, Arena::Safe, NOW)
        .unwrap()
        .0
}

fn join_ctx(battle: Battle) -> JoinBattle {
    JoinBattle {
        protocol_config: config(),
        battle_key: key(20),
        battle,
        settlement_mint: key(4),
        settlement_mint_decimals: 6,
        opponent_source: key(6),
        opponent_vault: key(22),
        opponent_vault_bump: 249,
        opponent: key(3),
    }
}

fn funded_battle() -> Battle {
    join_battle(&join_ctx(open_battle())).unwrap().0
}

fn actor_ctx(battle: Battle, actor: Pubkey) -> BattleActor {
    BattleActor { protocol_config: config(), battle_key: key(20), battle, actor }
}

fn active_battle() -> Battle {
    start_battle(&actor_ctx(funded_battle(), key(3)), NOW).unwrap().0
}

fn resolve_ctx(battle: Battle, authority: Pubkey) -> ResolveBattle {
    ResolveBattle { protocol_config: config(), authority, battle_key: key(20), battle }
}

fn settling_battle() -> Battle {
    let locked = lock_trading(&AdvanceBattle { battle: active_battle() }, NOW + DURATION - LOCK)
        .unwrap();
    begin_settlement(&AdvanceBattle { battle: locked }, NOW + DURATION).unwrap()
}

#[test]
fn protocol_starts_unpaused_with_its_settings() {
    let config = config();
    assert_eq!(config.authority, key(1));
    assert_eq!(config.settlement_mint, key(4));
    assert_eq!(config.max_settlement_fee_bps, 500);
    assert_eq!(config.default_trading_lock_seconds, 300);
    assert!(!config.paused);
    assert_eq!(config.bump, 250);
}

#[test]
fn protocol_rejects_bad_mint_fee_and_lock() {
    let mut ctx = InitializeProtocol {
        settlement_mint: key(4),
        settlement_mint_decimals: 9,
        authority: key(1),
        protocol_config_bump: 250,
    };
    assert_eq!(
        initialize_protocol(&ctx, 500, 300).unwrap_err(),
        PvpTradeError::InvalidSettlementMintDecimals
    );
    ctx.settlement_mint_decimals = 6;
    assert_eq!(initialize_protocol(&ctx, 1_001, 300).unwrap_err(), PvpTradeError::FeeTooHigh);
    assert!(initialize_protocol(&ctx, 1_000, 0).is_ok());
    assert_eq!(
        initialize_protocol(&ctx, 500, -1).unwrap_err(),
        PvpTradeError::InvalidTradingLock
    );
}

#[test]
fn swap_config_needs_the_authority_and_bounded_slippage() {
    let mut ctx = InitializeSwapConfig {
        protocol_config: config(),
        authority: key(9),
        swap_program: key(201),
        swap_config_bump: 248,
    };
    assert_eq!(initialize_swap_config(&ctx, 500).unwrap_err(), PvpTradeError::Unauthorized);
    ctx.authority = key(1);
    assert_eq!(initialize_swap_config(&ctx, 0).unwrap_err(), PvpTradeError::InvalidSlippage);
    assert_eq!(initialize_swap_config(&ctx, 2_001).unwrap_err(), PvpTradeError::InvalidSlippage);
    let swap_config = initialize_swap_config(&ctx, 2_000).unwrap();
    assert_eq!(swap_config.approved_swap_program, key(201));
    assert_eq!(swap_config.max_slippage_bps, 2_000);
}

#[test]
fn token_policy_needs_an_arena_and_the_authority() {
    let mut ctx = CreateTokenPolicy {
        protocol_config: config(),
        mint: key(50),
        authority: key(9),
        token_policy_bump: 247,
    };
    assert_eq!(create_token_policy(&ctx, true, false).unwrap_err(), PvpTradeError::Unauthorized);
    ctx.authority = key(1);
    assert_eq!(
        create_token_policy(&ctx, false, false).unwrap_err(),
        PvpTradeError::TokenNotAllowed
    );
    let policy = create_token_policy(&ctx, false, true).unwrap();
    assert!(!policy.allows(Arena::Safe));
    assert!(policy.allows(Arena::Meme));
    let safe = TokenPolicy { mint: key(50), safe_enabled: true, meme_enabled: false, bump: 0 };
    assert!(safe.allows(Arena::Safe));
    assert!(!safe.allows(Arena::Meme));
}

#[test]
fn created_battle_is_open_with_the_terms_and_deposits_the_stake() {
    let ctx = create_ctx(config());
    let (battle, deposit, event) =
        create_battle(&ctx, [7; 32], STAKE, DURATION, LOCK, 200, Arena::Meme, NOW).unwrap();
    assert_eq!(battle.status, BattleStatus::Open);
    assert_eq!(battle.id, [7; 32]);
    assert_eq!(battle.challenger, key(2));
    assert_eq!(battle.opponent, Pubkey::zero());
    assert_eq!(battle.stake_micro_usdc, STAKE);
    assert_eq!(battle.created_at, NOW);
    assert_eq!(battle.arena, Arena::Meme);
    assert_eq!(deposit.from, key(5));
    assert_eq!(deposit.to, key(21));
    assert_eq!(deposit.authority, key(2));
    assert_eq!(deposit.amount, STAKE);
    assert_eq!(deposit.decimals, 6);
    assert_eq!(event.battle, key(20));
    assert_eq!(event.stake_micro_usdc, STAKE);
}

#[test]
fn battle_terms_are_checked_in_order() {
    let mut paused = config();
    paused.paused = true;
    let ctx = create_ctx(config());
    assert_eq!(
        create_battle(&create_ctx(paused), [7; 32], STAKE, DURATION, LOCK, 200, Arena::Safe, NOW)
            .unwrap_err(),
        PvpTradeError::ProtocolPaused
    );
    let mut wrong_mint = create_ctx(paused);
    wrong_mint.settlement_mint = key(40);
    assert_eq!(
        create_battle(&wrong_mint, [7; 32], STAKE, DURATION, LOCK, 200, Arena::Safe, NOW)
            .unwrap_err(),
        PvpTradeError::InvalidSettlementMint
    );
    assert_eq!(
        create_battle(&ctx, [7; 32], 0, DURATION, LOCK, 200, Arena::Safe, NOW).unwrap_err(),
        PvpTradeError::InvalidStake
    );
    assert_eq!(
        create_battle(&ctx, [7; 32], STAKE, 0, LOCK, 200, Arena::Safe, NOW).unwrap_err(),
        PvpTradeError::InvalidDuration
    );
    assert_eq!(
        create_battle(&ctx, [7; 32], STAKE, 100, 101, 200, Arena::Safe, NOW).unwrap_err(),
        PvpTradeError::InvalidTradingLock
    );
    assert_eq!(
        create_battle(&ctx, [7; 32], STAKE, 100, -1, 200, Arena::Safe, NOW).unwrap_err(),
        PvpTradeError::InvalidTradingLock
    );
    assert!(create_battle(&ctx, [7; 32], STAKE, 100, 100, 500, Arena::Safe, NOW).is_ok());
    assert_eq!(
        create_battle(&ctx, [7; 32], STAKE, DURATION, LOCK, 501, Arena::Safe, NOW).unwrap_err(),
        PvpTradeError::FeeTooHigh
    );
}

#[test]
fn joining_funds_the_battle_with_an_equal_stake() {
    let (battle, deposit, event) = join_battle(&join_ctx(open_battle())).unwrap();
    assert_eq!(battle.status, BattleStatus::Funded);
    assert_eq!(battle.opponent, key(3));
    assert_eq!(battle.opponent_vault, key(22));
    assert_eq!(battle.opponent_vault_bump, 249);
    assert_eq!(battle.stake_micro_usdc, STAKE);
    assert_eq!(deposit.amount, STAKE);
    assert_eq!(deposit.from, key(6));
    assert_eq!(deposit.to, key(22));
    assert_eq!(deposit.authority, key(3));
    assert_eq!(event.opponent, key(3));
}

#[test]
fn join_rejects_self_match_second_join_wrong_mint_and_pause() {
    let mut ctx = join_ctx(open_battle());
    ctx.opponent = key(2);
    assert_eq!(join_battle(&ctx).unwrap_err(), PvpTradeError::SelfMatch);
    let ctx = join_ctx(funded_battle());
    assert_eq!(join_battle(&ctx).unwrap_err(), PvpTradeError::InvalidStatus);
    let mut ctx = join_ctx(open_battle());
    ctx.settlement_mint = key(40);
    assert_eq!(join_battle(&ctx).unwrap_err(), PvpTradeError::InvalidSettlementMint);
    let mut ctx = join_ctx(open_battle());
    ctx.protocol_config.paused = true;
    assert_eq!(join_battle(&ctx).unwrap_err(), PvpTradeError::ProtocolPaused);
}

#[test]
fn starting_fixes_the_trading_schedule() {
    let (battle, event) = start_battle(&actor_ctx(funded_battle(), key(2)), NOW).unwrap();
    assert_eq!(battle.status, BattleStatus::Active);
    assert_eq!(battle.starts_at, NOW);
    assert_eq!(battle.trading_ends_at, NOW + 86_400);
    assert_eq!(battle.trading_locks_at, NOW + 86_400 - 300);
    assert_eq!(event.trading_locks_at, NOW + 86_100);
    assert_eq!(event.trading_ends_at, NOW + 86_400);
}

#[test]
fn start_needs_a_player_a_funded_battle_and_no_overflow() {
    assert_eq!(
        start_battle(&actor_ctx(funded_battle(), key(9)), NOW).unwrap_err(),
        PvpTradeError::Unauthorized
    );
    assert_eq!(
        start_battle(&actor_ctx(open_battle(), key(2)), NOW).unwrap_err(),
        PvpTradeError::InvalidStatus
    );
    assert_eq!(
        start_battle(&actor_ctx(funded_battle(), key(2)), i64::MAX - 10).unwrap_err(),
        PvpTradeError::ArithmeticOverflow
    );
    let mut paused = actor_ctx(funded_battle(), key(2));
    paused.protocol_config.paused = true;
    assert_eq!(start_battle(&paused, NOW).unwrap_err(), PvpTradeError::ProtocolPaused);
}

#[test]
fn lock_lower_bound_overflow_is_reported() {
    let mut battle = funded_battle();
    battle.duration_seconds = 10;
    battle.trading_lock_seconds = 100;
    assert_eq!(
        start_battle(&actor_ctx(battle, key(2)), i64::MIN + 5).unwrap_err(),
        PvpTradeError::ArithmeticOverflow
    );
}

#[test]
fn trading_is_open_only_between_start_and_lock() {
    let battle = active_battle();
    assert!(validate_active_trader(&battle, &key(2), NOW).is_ok());
    assert!(validate_active_trader(&battle, &key(3), NOW + 86_099).is_ok());
    assert_eq!(
        validate_active_trader(&battle, &key(3), NOW + 86_100).unwrap_err(),
        PvpTradeError::TradingLocked
    );
    assert_eq!(
        validate_active_trader(&battle, &key(9), NOW).unwrap_err(),
        PvpTradeError::Unauthorized
    );
    assert_eq!(
        validate_active_trader(&funded_battle(), &key(2), NOW).unwrap_err(),
        PvpTradeError::InvalidStatus
    );
}

#[test]
fn lock_and_settlement_wait_for_their_times() {
    let battle = active_battle();
    assert_eq!(
        lock_trading(&AdvanceBattle { battle }, NOW + 86_099).unwrap_err(),
        PvpTradeError::TradingStillActive
    );
    let locked = lock_trading(&AdvanceBattle { battle }, NOW + 86_100).unwrap();
    assert_eq!(locked.status, BattleStatus::TradingLocked);
    assert_eq!(
        lock_trading(&AdvanceBattle { battle: locked }, NOW + 86_100).unwrap_err(),
        PvpTradeError::InvalidStatus
    );
    assert_eq!(
        begin_settlement(&AdvanceBattle { battle: locked }, NOW + 86_399).unwrap_err(),
        PvpTradeError::BattleNotEnded
    );
    assert_eq!(
        begin_settlement(&AdvanceBattle { battle }, NOW + 86_400).unwrap_err(),
        PvpTradeError::InvalidStatus
    );
    let settling = begin_settlement(&AdvanceBattle { battle: locked }, NOW + 86_400).unwrap();
    assert_eq!(settling.status, BattleStatus::Settling);
    assert_eq!(settling.trading_locks_at, battle.trading_locks_at);
}

#[test]
fn greater_final_equity_wins() {
    let (battle, event) = resolve_battle(&resolve_ctx(settling_battle(), key(1)), 120, 80).unwrap();
    assert_eq!(battle.status, BattleStatus::Resolved);
    assert_eq!(battle.winner, key(2));
    assert!(!battle.is_draw);
    assert_eq!(event.winner, key(2));
    let (battle, _) = resolve_battle(&resolve_ctx(settling_battle(), key(1)), 80, 120).unwrap();
    assert_eq!(battle.winner, key(3));
    assert_eq!(battle.player_a_final_micro_usdc, 80);
    assert_eq!(battle.player_b_final_micro_usdc, 120);
}

#[test]
fn equal_final_equity_is_a_draw() {
    let (battle, event) = resolve_battle(&resolve_ctx(settling_battle(), key(1)), 100, 100).unwrap();
    assert!(battle.is_draw);
    assert_eq!(battle.winner, Pubkey::zero());
    assert!(event.is_draw);
}

#[test]
fn resolution_needs_the_authority_and_settlement() {
    assert_eq!(
        resolve_battle(&resolve_ctx(settling_battle(), key(2)), 1, 2).unwrap_err(),
        PvpTradeError::Unauthorized
    );
    assert_eq!(
        resolve_battle(&resolve_ctx(active_battle(), key(1)), 1, 2).unwrap_err(),
        PvpTradeError::InvalidStatus
    );
}

#[test]
fn terms_survive_the_whole_lifecycle() {
    let funded = funded_battle();
    let (resolved, _) = resolve_battle(&resolve_ctx(settling_battle(), key(1)), 5, 4).unwrap();
    assert_eq!(resolved.id, funded.id);
    assert_eq!(resolved.challenger, funded.challenger);
    assert_eq!(resolved.opponent, funded.opponent);
    assert_eq!(resolved.stake_micro_usdc, funded.stake_micro_usdc);
    assert_eq!(resolved.settlement_fee_bps, funded.settlement_fee_bps);
    assert_eq!(resolved.duration_seconds, funded.duration_seconds);
}

fn cancel_ctx(battle: Battle) -> CancelBattle {
    CancelBattle {
        battle_key: key(20),
        battle,
        challenger: key(2),
        settlement_mint: key(4),
        settlement_mint_decimals: 6,
        challenger_refund: key(5),
    }
}

#[test]
fn cancel_refunds_the_stake_from_the_challenger_vault() {
    let (battle, refund, seeds) = cancel_battle(&cancel_ctx(open_battle())).unwrap();
    assert_eq!(battle.status, BattleStatus::Cancelled);
    assert_eq!(refund.from, key(21));
    assert_eq!(refund.authority, key(21));
    assert_eq!(refund.to, key(5));
    assert_eq!(refund.amount, STAKE);
    assert_eq!(seeds.len(), 4);
    assert_eq!(seeds[0], b"vault".to_vec());
    assert_eq!(seeds[1], key(20).bytes.to_vec());
    assert_eq!(seeds[2], key(2).bytes.to_vec());
    assert_eq!(seeds[3], vec![252u8]);
}

#[test]
fn cancel_is_only_for_the_challenger_of_an_open_battle() {
    let mut ctx = cancel_ctx(open_battle());
    ctx.challenger = key(3);
    assert_eq!(cancel_battle(&ctx).unwrap_err(), PvpTradeError::Unauthorized);
    let mut ctx = cancel_ctx(open_battle());
    ctx.settlement_mint = key(40);
    assert_eq!(cancel_battle(&ctx).unwrap_err(), PvpTradeError::InvalidSettlementMint);
    assert_eq!(
        cancel_battle(&cancel_ctx(funded_battle())).unwrap_err(),
        PvpTradeError::InvalidStatus
    );
}

#[test]
fn asset_vaults_need_an_allowed_non_settlement_mint_while_trading() {
    let policy = TokenPolicy { mint: key(50), safe_enabled: true, meme_enabled: false, bump: 0 };
    let ctx = CreateAssetVault {
        battle_key: key(20),
        battle: active_battle(),
        token_policy: policy,
        mint: key(50),
        actor: key(2),
    };
    assert!(create_asset_vault(&ctx, NOW).is_ok());
    assert_eq!(create_asset_vault(&ctx, NOW + 86_100).unwrap_err(), PvpTradeError::TradingLocked);
    let mut wrong = ctx;
    wrong.mint = key(51);
    assert_eq!(create_asset_vault(&wrong, NOW).unwrap_err(), PvpTradeError::InvalidSwapMint);
    let mut meme = ctx;
    meme.battle.arena = Arena::Meme;
    assert_eq!(create_asset_vault(&meme, NOW).unwrap_err(), PvpTradeError::TokenNotAllowed);
    let mut settlement = ctx;
    settlement.mint = key(4);
    settlement.token_policy.mint = key(4);
    assert_eq!(create_asset_vault(&settlement, NOW).unwrap_err(), PvpTradeError::InvalidSwapMint);
}

fn mock_swap_ctx() -> Swap {
    Swap {
        source: key(30),
        destination: key(31),
        pool_input: key(32),
        pool_output: key(33),
        input_mint: key(4),
        input_mint_decimals: 6,
        output_mint: key(50),
        output_mint_decimals: 9,
        source_authority: key(34),
        pool_authority: key(35),
        pool_authority_bump: 246,
    }
}

#[test]
fn mock_swap_pays_in_then_out() {
    let (pay_in, pay_out, seeds) = swap(&mock_swap_ctx(), 20, 40).unwrap();
    assert_eq!(pay_in.from, key(30));
    assert_eq!(pay_in.to, key(32));
    assert_eq!(pay_in.authority, key(34));
    assert_eq!(pay_in.amount, 20);
    assert_eq!(pay_out.from, key(33));
    assert_eq!(pay_out.to, key(31));
    assert_eq!(pay_out.authority, key(35));
    assert_eq!(pay_out.amount, 40);
    assert_eq!(pay_out.decimals, 9);
    assert_eq!(seeds, vec![b"pool".to_vec(), vec![246u8]]);
}

#[test]
fn mock_swap_rejects_zero_amounts() {
    assert_eq!(swap(&mock_swap_ctx(), 0, 40).unwrap_err(), MockSwapError::InvalidAmount);
    assert_eq!(swap(&mock_swap_ctx(), 20, 0).unwrap_err(), MockSwapError::InvalidAmount);
}

#[test]
fn zero_key_and_key_equality() {
    assert_eq!(Pubkey::zero().to_bytes(), [0u8; 32]);
    assert_eq!(key(3), key(3));
    assert_ne!(key(3), key(4));
    let mut almost = [3u8; 32];
    almost[31] = 4;
    assert_ne!(key(3), Pubkey::new_from_array(almost));
}

#[test]
fn no_lifecycle_step_applies_twice() {
    let funded = funded_battle();
    assert_eq!(join_battle(&join_ctx(funded)).unwrap_err(), PvpTradeError::InvalidStatus);
    let active = active_battle();
    assert_eq!(
        start_battle(&actor_ctx(active, key(2)), NOW + 1).unwrap_err(),
        PvpTradeError::InvalidStatus
    );
    let settling = settling_battle();
    assert_eq!(
        begin_settlement(&AdvanceBattle { battle: settling }, NOW + DURATION + 1).unwrap_err(),
        PvpTradeError::InvalidStatus
    );
    let (resolved, _) = resolve_battle(&resolve_ctx(settling, key(1)), 3, 2).unwrap();
    assert_eq!(
        resolve_battle(&resolve_ctx(resolved, key(1)), 2, 3).unwrap_err(),
        PvpTradeError::InvalidStatus
    );
    let (cancelled, _, _) = cancel_battle(&cancel_ctx(open_battle())).unwrap();
    assert_eq!(
        cancel_battle(&cancel_ctx(cancelled)).unwrap_err(),
        PvpTradeError::InvalidStatus
    );
}
