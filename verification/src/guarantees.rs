//! What each instruction does, stated in terms of its inputs: when it goes
//! through, which refusal it gives otherwise, and what it writes.

use vstd::prelude::*;
use crate::absorb::{absorb_error, absorb_transfers, absorbed_event, record_error, recorded_position};
use crate::accounts::{Absorb, Admin, FundRewards, Initialize, MarkGraduated, PostQuote};
use crate::admin::{
    initial_config, initialize_error, propose_authority_step, set_paused_step,
    set_quote_authority_step,
};
use crate::error::{ErrorCode, InstructionError};
use crate::funding::{fund_rewards_error, funding_transfer};
use crate::graduation::mark_graduated_step;
use crate::key::Pubkey;
use crate::quote::{post_quote_error, posted_quote, quote_posted_event};
use crate::state::{Config, Position, PositionStatus, PostQuoteArgs, Quote};

verus! {

/// `initialize` goes through exactly when the quote authority, the treasury
/// and the curve program are not the zero address and the quote lifetime
/// lies in 15..=300 seconds, whatever else they are (two of them may be the
/// same address). It then writes the given addresses, the signer as
/// authority, no proposal, the 110% ratio and deposits paused.
pub proof fn initialize_accepts_exactly_valid_settings(
    ctx: Initialize,
    quote_authority: Pubkey,
    treasury: Pubkey,
    pump_program: Pubkey,
    max_quote_age: u32,
)
    ensures
        initialize_error(quote_authority, treasury, pump_program, max_quote_age) is None <==> (
        !quote_authority.spec_is_default() && !treasury.spec_is_default()
            && !pump_program.spec_is_default() && 15 <= max_quote_age <= 300),
        quote_authority.spec_is_default() || treasury.spec_is_default()
            || pump_program.spec_is_default() ==> initialize_error(
            quote_authority,
            treasury,
            pump_program,
            max_quote_age,
        ) == Some(InstructionError::Program(ErrorCode::InvalidAuthority)),
        ({
            let c = initial_config(ctx, quote_authority, treasury, pump_program, max_quote_age);
            &&& c.authority == ctx.authority
            &&& c.pending_authority.spec_is_default()
            &&& c.quote_authority == quote_authority
            &&& c.treasury == treasury
            &&& c.pump_program == pump_program
            &&& c.curve_mint == ctx.curve_mint
            &&& c.reward_vault == ctx.reward_vault
            &&& c.reward_bps == 11000
            &&& c.max_quote_age == max_quote_age
            &&& c.paused
            &&& c.bump == ctx.config_bump
            &&& c.reward_bump == ctx.reward_vault_bump
        }),
{
}

/// The authority sets the pause flag to the value asked for, paused or not
/// before, and changes nothing else; setting it twice is setting it once.
pub proof fn set_paused_sets_the_flag(admin: Admin, config: Config, paused: bool)
    requires
        admin.authority == config.authority,
    ensures
        set_paused_step(admin, config, paused) is Ok,
        ({
            let c = set_paused_step(admin, config, paused)->Ok_0;
            &&& c.paused == paused
            &&& c == (Config { paused: c.paused, ..config })
            &&& set_paused_step(admin, c, paused) == Ok::<Config, InstructionError>(c)
        }),
{
}

/// The authority names any nonzero address as quote authority or as
/// proposed successor, whether deposits are paused or not, and nothing else
/// changes; the zero address is refused with `InvalidAuthority`.
pub proof fn authority_names_addresses(admin: Admin, config: Config, key: Pubkey)
    requires
        admin.authority == config.authority,
    ensures
        ({
            let named = set_quote_authority_step(admin, config, key);
            let proposed = propose_authority_step(admin, config, key);
            &&& !key.spec_is_default() ==> {
                &&& named is Ok
                &&& named->Ok_0.quote_authority == key
                &&& named->Ok_0 == (Config { quote_authority: named->Ok_0.quote_authority, ..config })
                &&& proposed is Ok
                &&& proposed->Ok_0.pending_authority == key
                &&& proposed->Ok_0 == (Config {
                    pending_authority: proposed->Ok_0.pending_authority,
                    ..config
                })
            }
            &&& key.spec_is_default() ==> {
                &&& named == Err::<Config, InstructionError>(
                    InstructionError::Program(ErrorCode::InvalidAuthority),
                )
                &&& proposed == Err::<Config, InstructionError>(
                    InstructionError::Program(ErrorCode::InvalidAuthority),
                )
            }
        }),
{
}

/// Anyone funds the vault with any nonzero amount whenever the accounts are
/// the configured mint and vault and the funder's own reward-token account,
/// paused or not; exactly that amount moves from the funder's account into
/// the vault.
pub proof fn funding_accepts_valid_requests(ctx: FundRewards, config: Config, amount: u64)
    ensures
        fund_rewards_error(ctx, config, amount) is None <==> (config.curve_mint == ctx.curve_mint
            && config.reward_vault == ctx.reward_vault && ctx.funder_curve.mint == ctx.curve_mint
            && ctx.funder_curve.owner == ctx.funder && amount > 0),
        ({
            let t = funding_transfer(ctx, amount);
            &&& t.amount == amount
            &&& t.from == ctx.funder_curve.key
            &&& t.to == ctx.reward_vault
            &&& t.mint == ctx.curve_mint
            &&& t.authority == ctx.funder
            &&& t.decimals == ctx.curve_mint_decimals
            &&& t.config_signer_bump is None
        }),
{
}

/// `post_quote` goes through exactly when the signer is the quote authority,
/// deposits are not paused, the three amounts are positive, the curve
/// belongs to the configured program and the expiry lies after `now` and at
/// most `max_quote_age` seconds after it (that sum fitting 64 bits), whatever
/// the nonce.
/// The quote is the depositor's, for the given token, curve, amounts, nonce
/// and expiry, posted at `now`; it pays the base amount times the ratio in
/// basis points over 10000, rounded down (kept to 64 bits), which at the
/// 110% ratio is `base * 11 / 10` wherever that fits. The event repeats the
/// quote's address, depositor, token, reward and expiry.
pub proof fn post_quote_accepts_exactly_valid_requests(
    ctx: PostQuote,
    config: Config,
    a: PostQuoteArgs,
    now: i64,
)
    ensures
        post_quote_error(ctx, config, a, now) is None <==> ({
            &&& ctx.quote_authority == config.quote_authority
            &&& !config.paused
            &&& a.deposit_amount > 0
            &&& a.base_curve_amount > 0
            &&& a.realizable_lamports > 0
            &&& ctx.bonding_curve_owner == config.pump_program
            &&& now < a.expires_at
            &&& now + config.max_quote_age <= i64::MAX
            &&& a.expires_at <= now + config.max_quote_age
        }),
        ({
            let q = posted_quote(ctx, config, a, now);
            let ev = quote_posted_event(ctx, config, a);
            &&& q.depositor == ctx.depositor
            &&& q.token_mint == ctx.token_mint
            &&& q.bonding_curve == ctx.bonding_curve
            &&& q.deposit_amount == a.deposit_amount
            &&& q.realizable_lamports == a.realizable_lamports
            &&& q.base_curve_amount == a.base_curve_amount
            &&& q.nonce == a.nonce
            &&& q.posted_at == now
            &&& q.expires_at == a.expires_at
            &&& q.bump == ctx.quote_bump
            &&& q.final_curve_amount == (a.base_curve_amount * config.reward_bps / 10000)
                % 0x1_0000_0000_0000_0000
            &&& config.reward_bps == 11000 && a.base_curve_amount * 11 / 10 <= u64::MAX
                ==> q.final_curve_amount == a.base_curve_amount * 11 / 10
            &&& ev.quote == ctx.quote
            &&& ev.depositor == ctx.depositor
            &&& ev.token_mint == ctx.token_mint
            &&& ev.final_curve_amount == q.final_curve_amount
            &&& ev.expires_at == a.expires_at
        }),
{
    let b = a.base_curve_amount as int;
    assert(b * 11000 / 10000 == b * 11 / 10) by (nonlinear_arith)
        requires
            b >= 0,
    ;
    let x = a.base_curve_amount * config.reward_bps / 10000;
    assert(0 <= x) by (nonlinear_arith)
        requires
            x == a.base_curve_amount * config.reward_bps / 10000,
            a.base_curve_amount >= 0,
            config.reward_bps >= 0,
    ;
}

/// `absorb` goes through exactly when the accounts are the configured mint
/// and vault and the depositor's own token accounts, deposits are not
/// paused, the quote is this depositor's for this token, curve and nonce, it
/// has not expired, the curve belongs to the configured program, and the
/// quoted reward is at least the minimum and held by the vault. The depositor then pays
/// the quoted deposit of the quoted token from their token account into the
/// collateral vault, and receives the quoted reward from the reward vault,
/// signed by the configuration account.
pub proof fn absorb_accepts_exactly_valid_requests(
    ctx: Absorb,
    config: Config,
    quote: Quote,
    nonce: u64,
    minimum_output: u64,
    now: i64,
)
    ensures
        absorb_error(ctx, config, quote, nonce, minimum_output, now) is None
            <==> ({
            &&& config.curve_mint == ctx.curve_mint
            &&& config.reward_vault == ctx.reward_vault.key
            &&& ctx.depositor_token.mint == ctx.token_mint
            &&& ctx.depositor_token.owner == ctx.depositor
            &&& ctx.depositor_curve.mint == ctx.curve_mint
            &&& ctx.depositor_curve.owner == ctx.depositor
            &&& !config.paused
            &&& quote.nonce == nonce
            &&& quote.depositor == ctx.depositor
            &&& quote.token_mint == ctx.token_mint
            &&& quote.bonding_curve == ctx.bonding_curve
            &&& now <= quote.expires_at
            &&& ctx.bonding_curve_owner == config.pump_program
            &&& minimum_output <= quote.final_curve_amount
            &&& quote.final_curve_amount <= ctx.reward_vault.amount
        }),
        ({
            let t = absorb_transfers(ctx, config, quote);
            &&& t.deposit.from == ctx.depositor_token.key
            &&& t.deposit.to == ctx.collateral_vault
            &&& t.deposit.mint == ctx.token_mint
            &&& t.deposit.authority == ctx.depositor
            &&& t.deposit.amount == quote.deposit_amount
            &&& t.deposit.decimals == ctx.token_mint_decimals
            &&& t.deposit.config_signer_bump is None
            &&& t.reward.from == ctx.reward_vault.key
            &&& t.reward.to == ctx.depositor_curve.key
            &&& t.reward.mint == ctx.curve_mint
            &&& t.reward.authority == ctx.config
            &&& t.reward.amount == quote.final_curve_amount
            &&& t.reward.decimals == ctx.curve_mint_decimals
            &&& t.reward.config_signer_bump == Some(config.bump)
        }),
{
}

/// Recording an absorption goes through exactly when the position is new or
/// already on this bonding curve and its totals and count can take the
/// quote without overflow; a position on another curve is refused with
/// `PositionMismatch`. The event reports the depositor, the position's
/// token and what this absorption moved (the quote's deposit and reward),
/// whatever totals the position held before.
pub proof fn absorption_record_and_event(ctx: Absorb, quote: Quote, position: Position, now: i64)
    ensures
        record_error(ctx, quote, position, now) is None <==> ((position.token_mint.spec_is_default()
            || position.bonding_curve == ctx.bonding_curve) && position.amount_absorbed
            + quote.deposit_amount <= u64::MAX && position.curve_distributed
            + quote.final_curve_amount <= u64::MAX && position.realizable_lamports
            + quote.realizable_lamports <= u64::MAX && position.absorption_count + 1 <= u64::MAX),
        !position.token_mint.spec_is_default() && position.bonding_curve != ctx.bonding_curve
            ==> record_error(ctx, quote, position, now) == Some(
            InstructionError::Program(ErrorCode::PositionMismatch),
        ),
        ({
            let ev = absorbed_event(ctx, quote, position, now);
            &&& ev.depositor == ctx.depositor
            &&& ev.deposit_amount == quote.deposit_amount
            &&& ev.curve_received == quote.final_curve_amount
            &&& ev.token_mint == recorded_position(ctx, quote, position, now).token_mint
            &&& ev.token_mint == (if position.token_mint.spec_is_default() {
                ctx.token_mint
            } else {
                position.token_mint
            })
        }),
{
}

/// The quote authority graduates exactly the positions on their curve: the
/// status becomes `Graduated`, the update time `now`, and nothing else
/// changes; any other status is refused with `Status`.
pub proof fn graduation_moves_on_curve_positions(
    ctx: MarkGraduated,
    config: Config,
    position: Position,
    now: i64,
)
    requires
        ctx.quote_authority == config.quote_authority,
    ensures
        ({
            let r = mark_graduated_step(ctx, config, position, now);
            &&& position.status == PositionStatus::OnCurve ==> {
                &&& r is Ok
                &&& r->Ok_0.status == PositionStatus::Graduated
                &&& r->Ok_0.updated_at == now
                &&& r->Ok_0 == (Position {
                    status: r->Ok_0.status,
                    updated_at: r->Ok_0.updated_at,
                    ..position
                })
            }
            &&& position.status != PositionStatus::OnCurve ==> r == Err::<Position, InstructionError>(
                InstructionError::Program(ErrorCode::Status),
            )
        }),
{
}

} // verus!
