use curve_protocol::absorb::{absorb, record_absorption};
use curve_protocol::accounts::{
    AcceptAuthority, Absorb, Admin, FundRewards, Initialize, MarkGraduated, PostQuote, TokenAccount,
};
use curve_protocol::admin::{
    accept_authority, initialize, propose_authority, set_paused, set_quote_authority,
};
use curve_protocol::error::{ErrorCode, InstructionError};
use curve_protocol::events::{PauseChanged, RewardsFunded};
use curve_protocol::funding::fund_rewards;
use curve_protocol::graduation::mark_graduated;
use curve_protocol::key::Pubkey;
use curve_protocol::quote::{post_quote, quote_reward};
use curve_protocol::state::{Config, Position, PositionStatus, PostQuoteArgs, Quote};

fn key(n: u8) -> Pubkey {
    Pubkey::new_from_array([n; 32])
}

const AUTHORITY: u8 = 1;
const QUOTER: u8 = 2;
const TREASURY: u8 = 3;
const PUMP: u8 = 4;
const CURVE_MINT: u8 = 5;
const VAULT: u8 = 6;
const DEPOSITOR: u8 = 7;
const TOKEN_MINT: u8 = 8;
const BONDING_CURVE: u8 = 9;
const QUOTE: u8 = 10;
const CONFIG: u8 = 11;
const COLLATERAL: u8 = 12;
const DEPOSITOR_TOKEN: u8 = 13;
const DEPOSITOR_CURVE: u8 = 14;
const FUNDER: u8 = 15;
const FUNDER_CURVE: u8 = 16;
const STRANGER: u8 = 99;

fn init_ctx() -> Initialize {
    Initialize {
        authority: key(AUTHORITY),
        curve_mint: key(CURVE_MINT),
        reward_vault: key(VAULT),
        config_bump: 254,
        reward_vault_bump: 253,
    }
}

fn live_config() -> Config {
    let mut c = initialize(&init_ctx(), key(QUOTER), key(TREASURY), key(PUMP), 60).unwrap();
    c.paused = false;
    c
}

fn post_ctx() -> PostQuote {
    PostQuote {
        quote_authority: key(QUOTER),
        depositor: key(DEPOSITOR),
        token_mint: key(TOKEN_MINT),
        bonding_curve: key(BONDING_CURVE),
        bonding_curve_owner: key(PUMP),
        quote: key(QUOTE),
        quote_bump: 250,
    }
}

fn args(base: u64, expires_at: i64) -> PostQuoteArgs {
    PostQuoteArgs {
        nonce: 7,
        deposit_amount: 500,
        realizable_lamports: 40,
        base_curve_amount: base,
        expires_at,
    }
}

fn token_account(k: u8, mint: u8, owner: u8, amount: u64) -> TokenAccount {
    TokenAccount { key: key(k), mint: key(mint), owner: key(owner), amount }
}

fn absorb_ctx() -> Absorb {
    Absorb {
        depositor: key(DEPOSITOR),
        config: key(CONFIG),
        token_mint: key(TOKEN_MINT),
        token_mint_decimals: 6,
        curve_mint: key(CURVE_MINT),
        curve_mint_decimals: 9,
        bonding_curve: key(BONDING_CURVE),
        bonding_curve_owner: key(PUMP),
        collateral_vault: key(COLLATERAL),
        depositor_token: token_account(DEPOSITOR_TOKEN, TOKEN_MINT, DEPOSITOR, 10_000),
        depositor_curve: token_account(DEPOSITOR_CURVE, CURVE_MINT, DEPOSITOR, 0),
        reward_vault: token_account(VAULT, CURVE_MINT, CONFIG, 1_000_000),
        position_bump: 249,
        collateral_vault_bump: 248,
    }
}

fn posted(now: i64) -> Quote {
    post_quote(&post_ctx(), &live_config(), &args(1000, now + 30), now).unwrap().0
}

fn zero_position() -> Position {
    Position {
        token_mint: Pubkey::default_key(),
        bonding_curve: Pubkey::default_key(),
        collateral_vault: Pubkey::default_key(),
        amount_absorbed: 0,
        curve_distributed: 0,
        realizable_lamports: 0,
        absorption_count: 0,
        status: PositionStatus::OnCurve,
        created_at: 0,
        updated_at: 0,
        bump: 0,
        collateral_bump: 0,
    }
}

fn program(e: ErrorCode) -> InstructionError {
    InstructionError::Program(e)
}

#[test]
fn initialize_writes_a_paused_config() {
    let c = initialize(&init_ctx(), key(QUOTER), key(TREASURY), key(PUMP), 60).unwrap();
    assert_eq!(c.authority, key(AUTHORITY));
    assert!(c.pending_authority.is_default());
    assert_eq!(c.quote_authority, key(QUOTER));
    assert_eq!(c.treasury, key(TREASURY));
    assert_eq!(c.curve_mint, key(CURVE_MINT));
    assert_eq!(c.pump_program, key(PUMP));
    assert_eq!(c.reward_vault, key(VAULT));
    assert_eq!(c.reward_bps, 11_000);
    assert_eq!(c.max_quote_age, 60);
    assert!(c.paused);
    assert_eq!(c.bump, 254);
    assert_eq!(c.reward_bump, 253);
}

#[test]
fn initialize_refuses_the_zero_address() {
    let zero = Pubkey::default_key();
    let ctx = init_ctx();
    assert_eq!(
        initialize(&ctx, zero, key(TREASURY), key(PUMP), 60),
        Err(program(ErrorCode::InvalidAuthority))
    );
    assert_eq!(
        initialize(&ctx, key(QUOTER), zero, key(PUMP), 60),
        Err(program(ErrorCode::InvalidAuthority))
    );
    assert_eq!(
        initialize(&ctx, key(QUOTER), key(TREASURY), zero, 1000),
        Err(program(ErrorCode::InvalidAuthority))
    );
}

#[test]
fn initialize_bounds_the_quote_age() {
    let ctx = init_ctx();
    let age = |a: u32| initialize(&ctx, key(QUOTER), key(TREASURY), key(PUMP), a);
    assert_eq!(age(14), Err(program(ErrorCode::InvalidQuoteAge)));
    assert!(age(15).is_ok());
    assert!(age(300).is_ok());
    assert_eq!(age(301), Err(program(ErrorCode::InvalidQuoteAge)));
    assert_eq!(age(0), Err(program(ErrorCode::InvalidQuoteAge)));
}

#[test]
fn keys_compare_by_bytes() {
    assert!(key(3).same(&key(3)));
    assert!(!key(3).same(&key(4)));
    let mut bytes = [3u8; 32];
    bytes[31] = 4;
    assert!(!key(3).same(&Pubkey::new_from_array(bytes)));
    assert!(Pubkey::new_from_array([0; 32]).is_default());
    assert!(!Pubkey::new_from_array(bytes).is_default());
}

fn fund_ctx() -> FundRewards {
    FundRewards {
        funder: key(FUNDER),
        curve_mint: key(CURVE_MINT),
        curve_mint_decimals: 9,
        funder_curve: token_account(FUNDER_CURVE, CURVE_MINT, FUNDER, 5000),
        reward_vault: key(VAULT),
    }
}

#[test]
fn fund_rewards_transfers_into_the_vault() {
    let (t, ev) = fund_rewards(&fund_ctx(), &live_config(), 1234).unwrap();
    assert_eq!(t.from, key(FUNDER_CURVE));
    assert_eq!(t.to, key(VAULT));
    assert_eq!(t.mint, key(CURVE_MINT));
    assert_eq!(t.authority, key(FUNDER));
    assert_eq!(t.amount, 1234);
    assert_eq!(t.decimals, 9);
    assert_eq!(t.config_signer_bump, None);
    assert_eq!(ev, RewardsFunded { funder: key(FUNDER), amount: 1234 });
}

#[test]
fn fund_rewards_refusals() {
    let c = live_config();
    assert_eq!(fund_rewards(&fund_ctx(), &c, 0), Err(program(ErrorCode::ZeroAmount)));
    let mut ctx = fund_ctx();
    ctx.reward_vault = key(STRANGER);
    assert_eq!(fund_rewards(&ctx, &c, 1), Err(InstructionError::ConstraintHasOne));
    let mut ctx = fund_ctx();
    ctx.funder_curve.owner = key(STRANGER);
    assert_eq!(fund_rewards(&ctx, &c, 1), Err(InstructionError::ConstraintRaw));
    let mut ctx = fund_ctx();
    ctx.funder_curve.mint = key(TOKEN_MINT);
    assert_eq!(fund_rewards(&ctx, &c, 1), Err(InstructionError::ConstraintRaw));
}

#[test]
fn post_quote_prices_at_110_percent() {
    let (q, ev) = post_quote(&post_ctx(), &live_config(), &args(1000, 130), 100).unwrap();
    assert_eq!(q.depositor, key(DEPOSITOR));
    assert_eq!(q.token_mint, key(TOKEN_MINT));
    assert_eq!(q.bonding_curve, key(BONDING_CURVE));
    assert_eq!(q.deposit_amount, 500);
    assert_eq!(q.realizable_lamports, 40);
    assert_eq!(q.base_curve_amount, 1000);
    assert_eq!(q.final_curve_amount, 1100);
    assert_eq!(q.nonce, 7);
    assert_eq!(q.posted_at, 100);
    assert_eq!(q.expires_at, 130);
    assert_eq!(q.bump, 250);
    assert_eq!(ev.quote, key(QUOTE));
    assert_eq!(ev.depositor, key(DEPOSITOR));
    assert_eq!(ev.token_mint, key(TOKEN_MINT));
    assert_eq!(ev.final_curve_amount, 1100);
    assert_eq!(ev.expires_at, 130);
}

#[test]
fn quote_reward_rounds_down_and_keeps_64_bits() {
    assert_eq!(quote_reward(15, 11_000), 16);
    assert_eq!(quote_reward(9, 11_000), 9);
    assert_eq!(quote_reward(1, 11_000), 1);
    assert_eq!(quote_reward(10_000, 11_000), 11_000);
    let wide = (u64::MAX as u128) * 11_000 / 10_000;
    assert_eq!(quote_reward(u64::MAX, 11_000), wide as u64);
    assert_eq!(quote_reward(u64::MAX, 10_000), u64::MAX);
}

#[test]
fn post_quote_expiry_window() {
    let c = live_config();
    let ctx = post_ctx();
    assert_eq!(post_quote(&ctx, &c, &args(1000, 100), 100), Err(program(ErrorCode::InvalidExpiry)));
    assert_eq!(post_quote(&ctx, &c, &args(1000, 99), 100), Err(program(ErrorCode::InvalidExpiry)));
    assert!(post_quote(&ctx, &c, &args(1000, 101), 100).is_ok());
    assert!(post_quote(&ctx, &c, &args(1000, 160), 100).is_ok());
    assert_eq!(post_quote(&ctx, &c, &args(1000, 161), 100), Err(program(ErrorCode::InvalidExpiry)));
    assert_eq!(
        post_quote(&ctx, &c, &args(1000, i64::MAX), i64::MAX - 10),
        Err(program(ErrorCode::Math))
    );
}

#[test]
fn post_quote_refusals() {
    let c = live_config();
    let mut paused = c;
    paused.paused = true;
    assert_eq!(post_quote(&post_ctx(), &paused, &args(1000, 130), 100), Err(program(ErrorCode::Paused)));
    let mut ctx = post_ctx();
    ctx.quote_authority = key(STRANGER);
    assert_eq!(post_quote(&ctx, &c, &args(1000, 130), 100), Err(InstructionError::ConstraintHasOne));
    assert_eq!(post_quote(&post_ctx(), &c, &args(0, 130), 100), Err(program(ErrorCode::ZeroAmount)));
    let mut a = args(1000, 130);
    a.deposit_amount = 0;
    assert_eq!(post_quote(&post_ctx(), &c, &a, 100), Err(program(ErrorCode::ZeroAmount)));
    let mut a = args(1000, 130);
    a.realizable_lamports = 0;
    assert_eq!(post_quote(&post_ctx(), &c, &a, 100), Err(program(ErrorCode::ZeroAmount)));
    let mut ctx = post_ctx();
    ctx.bonding_curve_owner = key(STRANGER);
    assert_eq!(post_quote(&ctx, &c, &args(1000, 130), 100), Err(program(ErrorCode::InvalidCurve)));
}

#[test]
fn new_protocol_takes_no_deposits_until_resumed() {
    let c = initialize(&init_ctx(), key(QUOTER), key(TREASURY), key(PUMP), 60).unwrap();
    assert_eq!(post_quote(&post_ctx(), &c, &args(1000, 130), 100), Err(program(ErrorCode::Paused)));
    let q = posted(100);
    assert_eq!(absorb(&absorb_ctx(), &c, &q, 7, 0, 110), Err(program(ErrorCode::Paused)));
}

#[test]
fn absorb_plans_both_transfers() {
    let c = live_config();
    let q = posted(100);
    let t = absorb(&absorb_ctx(), &c, &q, 7, 1100, 130).unwrap();
    assert_eq!(t.deposit.from, key(DEPOSITOR_TOKEN));
    assert_eq!(t.deposit.to, key(COLLATERAL));
    assert_eq!(t.deposit.mint, key(TOKEN_MINT));
    assert_eq!(t.deposit.authority, key(DEPOSITOR));
    assert_eq!(t.deposit.amount, 500);
    assert_eq!(t.deposit.decimals, 6);
    assert_eq!(t.deposit.config_signer_bump, None);
    assert_eq!(t.reward.from, key(VAULT));
    assert_eq!(t.reward.to, key(DEPOSITOR_CURVE));
    assert_eq!(t.reward.mint, key(CURVE_MINT));
    assert_eq!(t.reward.authority, key(CONFIG));
    assert_eq!(t.reward.amount, 1100);
    assert_eq!(t.reward.decimals, 9);
    assert_eq!(t.reward.config_signer_bump, Some(254));
}

#[test]
fn absorb_refusals() {
    let c = live_config();
    let q = posted(100);
    let ctx = absorb_ctx();
    assert_eq!(absorb(&ctx, &c, &q, 8, 0, 110), Err(program(ErrorCode::QuoteMismatch)));
    assert_eq!(absorb(&ctx, &c, &q, 7, 0, 131), Err(program(ErrorCode::Expired)));
    assert_eq!(absorb(&ctx, &c, &q, 7, 1101, 110), Err(program(ErrorCode::Slippage)));
    let mut poor = ctx;
    poor.reward_vault.amount = 1099;
    assert_eq!(absorb(&poor, &c, &q, 7, 0, 110), Err(program(ErrorCode::Reserve)));
    let mut rich = ctx;
    rich.reward_vault.amount = 1100;
    assert!(absorb(&rich, &c, &q, 7, 0, 110).is_ok());
    let mut other_curve = ctx;
    other_curve.bonding_curve_owner = key(STRANGER);
    assert_eq!(absorb(&other_curve, &c, &q, 7, 0, 110), Err(program(ErrorCode::InvalidCurve)));
    let mut other = ctx;
    other.depositor = key(STRANGER);
    other.depositor_token.owner = key(STRANGER);
    other.depositor_curve.owner = key(STRANGER);
    assert_eq!(absorb(&other, &c, &q, 7, 0, 110), Err(program(ErrorCode::QuoteMismatch)));
    let mut wrong_vault = ctx;
    wrong_vault.reward_vault.key = key(STRANGER);
    assert_eq!(absorb(&wrong_vault, &c, &q, 7, 0, 110), Err(InstructionError::ConstraintHasOne));
    let mut wrong_owner = ctx;
    wrong_owner.depositor_curve.owner = key(STRANGER);
    assert_eq!(absorb(&wrong_owner, &c, &q, 7, 0, 110), Err(InstructionError::ConstraintRaw));
    let mut wrong_mint = ctx;
    wrong_mint.depositor_token.mint = key(CURVE_MINT);
    assert_eq!(absorb(&wrong_mint, &c, &q, 7, 0, 110), Err(InstructionError::ConstraintRaw));
}

#[test]
fn record_opens_and_accumulates() {
    let ctx = absorb_ctx();
    let q = posted(100);
    let mut p = zero_position();
    let ev = record_absorption(&ctx, &q, &mut p, 110).unwrap();
    assert_eq!(p.token_mint, key(TOKEN_MINT));
    assert_eq!(p.bonding_curve, key(BONDING_CURVE));
    assert_eq!(p.collateral_vault, key(COLLATERAL));
    assert_eq!(p.status, PositionStatus::OnCurve);
    assert_eq!(p.created_at, 110);
    assert_eq!(p.updated_at, 110);
    assert_eq!(p.bump, 249);
    assert_eq!(p.collateral_bump, 248);
    assert_eq!(p.amount_absorbed, 500);
    assert_eq!(p.curve_distributed, 1100);
    assert_eq!(p.realizable_lamports, 40);
    assert_eq!(p.absorption_count, 1);
    assert_eq!(ev.depositor, key(DEPOSITOR));
    assert_eq!(ev.token_mint, key(TOKEN_MINT));
    assert_eq!(ev.deposit_amount, 500);
    assert_eq!(ev.curve_received, 1100);
    record_absorption(&ctx, &q, &mut p, 120).unwrap();
    assert_eq!(p.amount_absorbed, 1000);
    assert_eq!(p.curve_distributed, 2200);
    assert_eq!(p.realizable_lamports, 80);
    assert_eq!(p.absorption_count, 2);
    assert_eq!(p.created_at, 110);
    assert_eq!(p.updated_at, 120);
}

#[test]
fn record_refusals_leave_the_position() {
    let ctx = absorb_ctx();
    let q = posted(100);
    let mut p = zero_position();
    p.token_mint = key(TOKEN_MINT);
    p.bonding_curve = key(STRANGER);
    let before = p;
    assert_eq!(record_absorption(&ctx, &q, &mut p, 110), Err(program(ErrorCode::PositionMismatch)));
    assert_eq!(p, before);
    let mut p = zero_position();
    p.token_mint = key(TOKEN_MINT);
    p.bonding_curve = key(BONDING_CURVE);
    p.curve_distributed = u64::MAX - 1000;
    let before = p;
    assert_eq!(record_absorption(&ctx, &q, &mut p, 110), Err(program(ErrorCode::Math)));
    assert_eq!(p, before);
    p.curve_distributed = 0;
    p.absorption_count = u64::MAX;
    let before = p;
    assert_eq!(record_absorption(&ctx, &q, &mut p, 110), Err(program(ErrorCode::Math)));
    assert_eq!(p, before);
}

#[test]
fn only_the_authority_administers() {
    let mut c = live_config();
    let before = c;
    let stranger = Admin { authority: key(STRANGER) };
    assert_eq!(set_paused(&stranger, &mut c, true), Err(InstructionError::ConstraintHasOne));
    assert_eq!(set_quote_authority(&stranger, &mut c, key(20)), Err(InstructionError::ConstraintHasOne));
    assert_eq!(propose_authority(&stranger, &mut c, key(20)), Err(InstructionError::ConstraintHasOne));
    assert_eq!(c, before);
    let admin = Admin { authority: key(AUTHORITY) };
    assert_eq!(set_paused(&admin, &mut c, true), Ok(PauseChanged { paused: true }));
    assert!(c.paused);
    assert_eq!(set_paused(&admin, &mut c, false), Ok(PauseChanged { paused: false }));
    assert!(!c.paused);
    assert_eq!(set_quote_authority(&admin, &mut c, key(20)), Ok(()));
    assert_eq!(c.quote_authority, key(20));
    assert_eq!(
        set_quote_authority(&admin, &mut c, Pubkey::default_key()),
        Err(program(ErrorCode::InvalidAuthority))
    );
    assert_eq!(c.quote_authority, key(20));
}

#[test]
fn authority_handover_takes_two_steps() {
    let mut c = live_config();
    let admin = Admin { authority: key(AUTHORITY) };
    assert_eq!(
        propose_authority(&admin, &mut c, Pubkey::default_key()),
        Err(program(ErrorCode::InvalidAuthority))
    );
    assert_eq!(propose_authority(&admin, &mut c, key(21)), Ok(()));
    assert_eq!(c.pending_authority, key(21));
    assert_eq!(c.authority, key(AUTHORITY));
    let before = c;
    assert_eq!(
        accept_authority(&AcceptAuthority { pending: key(STRANGER) }, &mut c),
        Err(program(ErrorCode::InvalidAuthority))
    );
    assert_eq!(c, before);
    assert_eq!(accept_authority(&AcceptAuthority { pending: key(21) }, &mut c), Ok(()));
    assert_eq!(c.authority, key(21));
    assert!(c.pending_authority.is_default());
    assert_eq!(
        accept_authority(&AcceptAuthority { pending: key(21) }, &mut c),
        Err(program(ErrorCode::InvalidAuthority))
    );
    assert_eq!(set_paused(&admin, &mut c, true), Err(InstructionError::ConstraintHasOne));
    assert_eq!(set_paused(&Admin { authority: key(21) }, &mut c, true), Ok(PauseChanged { paused: true }));
}

#[test]
fn graduation_is_one_way() {
    let c = live_config();
    let mut p = zero_position();
    record_absorption(&absorb_ctx(), &posted(100), &mut p, 110).unwrap();
    let quoter = MarkGraduated { quote_authority: key(QUOTER) };
    let stranger = MarkGraduated { quote_authority: key(STRANGER) };
    assert_eq!(mark_graduated(&stranger, &c, &mut p, 200), Err(InstructionError::ConstraintHasOne));
    assert_eq!(p.status, PositionStatus::OnCurve);
    assert_eq!(mark_graduated(&quoter, &c, &mut p, 200), Ok(()));
    assert_eq!(p.status, PositionStatus::Graduated);
    assert_eq!(p.updated_at, 200);
    let before = p;
    assert_eq!(mark_graduated(&quoter, &c, &mut p, 300), Err(program(ErrorCode::Status)));
    assert_eq!(p, before);
    record_absorption(&absorb_ctx(), &posted(100), &mut p, 310).unwrap();
    assert_eq!(p.status, PositionStatus::Graduated);
    assert_eq!(p.absorption_count, 2);
}

#[test]
fn error_codes_and_messages() {
    assert_eq!(ErrorCode::InvalidAuthority.code(), 6000);
    assert_eq!(ErrorCode::Math.code(), 6006);
    assert_eq!(ErrorCode::Status.code(), 6012);
    assert_eq!(ErrorCode::InvalidQuoteAge.message(), "Quote age must be 15-300 seconds");
    assert_eq!(ErrorCode::Reserve.message(), "Insufficient reward reserve");
    assert_eq!(ErrorCode::Paused.message(), "Deposits are paused");
}

#[test]
fn funding_is_open_while_paused() {
    let c = initialize(&init_ctx(), key(QUOTER), key(TREASURY), key(PUMP), 60).unwrap();
    assert!(c.paused);
    assert!(fund_rewards(&fund_ctx(), &c, 10).is_ok());
}

#[test]
fn administration_keeps_the_reward_ratio_and_age() {
    let mut c = initialize(&init_ctx(), key(QUOTER), key(TREASURY), key(PUMP), 300).unwrap();
    let admin = Admin { authority: key(AUTHORITY) };
    set_paused(&admin, &mut c, false).unwrap();
    set_quote_authority(&admin, &mut c, key(30)).unwrap();
    propose_authority(&admin, &mut c, key(31)).unwrap();
    accept_authority(&AcceptAuthority { pending: key(31) }, &mut c).unwrap();
    assert_eq!(c.reward_bps, 11_000);
    assert_eq!(c.max_quote_age, 300);
    assert_eq!(c.treasury, key(TREASURY));
    assert_eq!(c.pump_program, key(PUMP));
    assert_eq!(c.quote_authority, key(30));
    assert_eq!(c.authority, key(31));
}

#[test]
fn totals_are_sums_over_many_absorptions() {
    let ctx = absorb_ctx();
    let c = live_config();
    let quoter = MarkGraduated { quote_authority: key(QUOTER) };
    let mut p = zero_position();
    let bases = [1000u64, 15, 20, 9];
    let mut deposits = 0u64;
    let mut rewards = 0u64;
    for (i, base) in bases.iter().enumerate() {
        let q = post_quote(&post_ctx(), &c, &args(*base, 130), 100).unwrap().0;
        record_absorption(&ctx, &q, &mut p, 110 + i as i64).unwrap();
        deposits += q.deposit_amount;
        rewards += q.final_curve_amount;
        if i == 1 {
            mark_graduated(&quoter, &c, &mut p, 115).unwrap();
        }
    }
    assert_eq!(p.amount_absorbed, deposits);
    assert_eq!(p.curve_distributed, rewards);
    assert_eq!(p.curve_distributed, 1100 + 16 + 22 + 9);
    assert_eq!(p.realizable_lamports, 40 * 4);
    assert_eq!(p.absorption_count, 4);
    assert_eq!(p.status, PositionStatus::Graduated);
}
