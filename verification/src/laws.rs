//! Properties of the protocol that span its instructions.

use vstd::prelude::*;
use crate::absorb::{absorb_error, absorb_transfers, opened_position, quote_matches, record_error, recorded_position};
use crate::accounts::{AcceptAuthority, Absorb, Admin, Initialize, MarkGraduated, PostQuote};
use crate::admin::{
    accept_authority_step, initial_config, initialize_error, propose_authority_step,
    set_paused_step, set_quote_authority_step,
};
use crate::error::{ErrorCode, InstructionError};
use crate::graduation::mark_graduated_step;
use crate::key::{Pubkey, zero_key};
use crate::quote::{post_quote_error, posted_quote, reward_amount};
use crate::state::{Config, INITIAL_REWARD_BPS, Position, PositionStatus, PostQuoteArgs, Quote};

verus! {

/// Every configuration that `initialize` writes is well formed, and every
/// step of the administrator's instructions keeps it well formed.
pub proof fn config_stays_well_formed(
    init: Initialize,
    quote_authority: Pubkey,
    treasury: Pubkey,
    pump_program: Pubkey,
    max_quote_age: u32,
    config: Config,
    admin: Admin,
    accept: AcceptAuthority,
    paused: bool,
    key: Pubkey,
)
    requires
        config.wf(),
    ensures
        initialize_error(quote_authority, treasury, pump_program, max_quote_age) is None
            ==> initial_config(init, quote_authority, treasury, pump_program, max_quote_age).wf(),
        set_paused_step(admin, config, paused) matches Ok(c) ==> c.wf(),
        set_quote_authority_step(admin, config, key) matches Ok(c) ==> c.wf(),
        propose_authority_step(admin, config, key) matches Ok(c) ==> c.wf(),
        accept_authority_step(accept, config) matches Ok(c) ==> c.wf(),
{
}

/// A new protocol starts paused: until the authority resumes it, no quote is
/// posted and no quote is absorbed.
pub proof fn new_protocol_takes_no_deposits(
    init: Initialize,
    quote_authority: Pubkey,
    treasury: Pubkey,
    pump_program: Pubkey,
    max_quote_age: u32,
    post: PostQuote,
    args: PostQuoteArgs,
    absorb: Absorb,
    quote: Quote,
    nonce: u64,
    minimum_output: u64,
    now: i64,
)
    requires
        initialize_error(quote_authority, treasury, pump_program, max_quote_age) is None,
    ensures
        ({
            let c = initial_config(init, quote_authority, treasury, pump_program, max_quote_age);
            &&& c.paused
            &&& post_quote_error(post, c, args, now) is Some
            &&& absorb_error(absorb, c, quote, nonce, minimum_output, now) is Some
        }),
{
}

/// While deposits are paused, no quote is posted and none is absorbed; where
/// the accounts are the ones the instruction requires, the refusal is
/// `Paused`.
pub proof fn paused_refuses_deposits(
    config: Config,
    post: PostQuote,
    args: PostQuoteArgs,
    absorb: Absorb,
    quote: Quote,
    nonce: u64,
    minimum_output: u64,
    now: i64,
)
    requires
        config.paused,
    ensures
        post_quote_error(post, config, args, now) is Some,
        post.quote_authority == config.quote_authority ==> post_quote_error(post, config, args, now)
            == Some(InstructionError::Program(ErrorCode::Paused)),
        absorb_error(absorb, config, quote, nonce, minimum_output, now) is Some,
{
}

/// Only the authority changes the pause flag, the quote authority or the
/// proposed successor; anyone else is refused and changes nothing.
pub proof fn only_the_authority_administers(admin: Admin, config: Config, paused: bool, key: Pubkey)
    requires
        admin.authority != config.authority,
    ensures
        set_paused_step(admin, config, paused) == Err::<Config, InstructionError>(
            InstructionError::ConstraintHasOne,
        ),
        set_quote_authority_step(admin, config, key) == Err::<Config, InstructionError>(
            InstructionError::ConstraintHasOne,
        ),
        propose_authority_step(admin, config, key) == Err::<Config, InstructionError>(
            InstructionError::ConstraintHasOne,
        ),
{
}

/// Handing over the authority takes two steps: once the authority proposes
/// `key`, the signer `key` and nobody else can accept; acceptance makes `key`
/// the authority, clears the proposal and changes nothing else.
pub proof fn authority_handover(admin: Admin, config: Config, key: Pubkey, other: Pubkey)
    requires
        admin.authority == config.authority,
        !key.spec_is_default(),
        other != key,
    ensures
        ({
            let proposed = propose_authority_step(admin, config, key);
            &&& proposed == Ok::<Config, InstructionError>(Config { pending_authority: key, ..config })
            &&& accept_authority_step(AcceptAuthority { pending: other }, proposed->Ok_0) == Err::<
                Config,
                InstructionError,
            >(InstructionError::Program(ErrorCode::InvalidAuthority))
            &&& accept_authority_step(AcceptAuthority { pending: key }, proposed->Ok_0) == Ok::<
                Config,
                InstructionError,
            >(Config { authority: key, pending_authority: zero_key(), ..config })
        }),
{
}

/// A proposal is taken up once: after an acceptance, no signer other than
/// the zero address can accept again.
pub proof fn proposal_is_used_once(first: AcceptAuthority, second: AcceptAuthority, config: Config)
    requires
        accept_authority_step(first, config) is Ok,
        !second.pending.spec_is_default(),
    ensures
        accept_authority_step(second, accept_authority_step(first, config)->Ok_0) == Err::<
            Config,
            InstructionError,
        >(InstructionError::Program(ErrorCode::InvalidAuthority)),
{
}

/// A posted quote lives for a positive time of at most `max_quote_age`
/// seconds from its posting, carries the deposit that was priced, and, under
/// a well-formed configuration, pays 110% of its base amount rounded down
/// (kept to 64 bits), which is at least the base amount where it fits.
pub proof fn posted_quote_terms(ctx: PostQuote, config: Config, args: PostQuoteArgs, now: i64)
    requires
        config.wf(),
        post_quote_error(ctx, config, args, now) is None,
    ensures
        ({
            let q = posted_quote(ctx, config, args, now);
            &&& q.posted_at == now
            &&& q.posted_at < q.expires_at <= q.posted_at + config.max_quote_age
            &&& q.deposit_amount == args.deposit_amount > 0
            &&& q.depositor == ctx.depositor
            &&& args.base_curve_amount * 11 / 10 <= u64::MAX ==> q.final_curve_amount
                == args.base_curve_amount * 11 / 10 >= args.base_curve_amount
        }),
{
    let b = args.base_curve_amount as int;
    assert(b * 11000 / 10000 == b * 11 / 10) by (nonlinear_arith)
        requires
            b >= 0,
    ;
}

/// An absorption goes ahead only on the quote's terms: deposits are not
/// paused, the quote is this depositor's for this token, curve and nonce, it
/// has not expired, it pays at least the depositor's minimum, and the reward
/// vault holds the reward. The depositor then pays exactly the quoted
/// deposit and receives exactly the quoted reward.
pub proof fn absorption_honours_the_quote(
    ctx: Absorb,
    config: Config,
    quote: Quote,
    nonce: u64,
    minimum_output: u64,
    now: i64,
)
    requires
        absorb_error(ctx, config, quote, nonce, minimum_output, now) is None,
    ensures
        !config.paused,
        quote_matches(ctx, quote, nonce),
        now <= quote.expires_at,
        minimum_output <= quote.final_curve_amount <= ctx.reward_vault.amount,
        absorb_transfers(ctx, config, quote).deposit.amount == quote.deposit_amount,
        absorb_transfers(ctx, config, quote).deposit.authority == ctx.depositor,
        absorb_transfers(ctx, config, quote).reward.amount == quote.final_curve_amount,
        absorb_transfers(ctx, config, quote).reward.to == ctx.depositor_curve.key,
        ctx.depositor_curve.owner == ctx.depositor,
{
}

/// A quote posted for one depositor cannot be absorbed by another: where the
/// accounts are the ones required and deposits are not paused, the refusal
/// is `QuoteMismatch`.
pub proof fn quote_binds_its_depositor(
    post: PostQuote,
    config: Config,
    args: PostQuoteArgs,
    posted_at: i64,
    ctx: Absorb,
    nonce: u64,
    minimum_output: u64,
    now: i64,
)
    requires
        ctx.depositor != post.depositor,
        absorb_error(ctx, config, posted_quote(post, config, args, posted_at), nonce, minimum_output, now)
            != Some(InstructionError::ConstraintHasOne),
        absorb_error(ctx, config, posted_quote(post, config, args, posted_at), nonce, minimum_output, now)
            != Some(InstructionError::ConstraintRaw),
        !config.paused,
    ensures
        absorb_error(ctx, config, posted_quote(post, config, args, posted_at), nonce, minimum_output, now)
            == Some(InstructionError::Program(ErrorCode::QuoteMismatch)),
{
}

/// Recording an absorption adds exactly the quote's amounts to the
/// position's totals and one to its count; a position that was already
/// opened keeps its token, bonding curve, vault, status and creation time.
pub proof fn absorption_accumulates(ctx: Absorb, quote: Quote, position: Position, now: i64)
    requires
        record_error(ctx, quote, position, now) is None,
    ensures
        ({
            let p = recorded_position(ctx, quote, position, now);
            let o = opened_position(ctx, position, now);
            &&& p.amount_absorbed == o.amount_absorbed + quote.deposit_amount
            &&& p.curve_distributed == o.curve_distributed + quote.final_curve_amount
            &&& p.realizable_lamports == o.realizable_lamports + quote.realizable_lamports
            &&& p.absorption_count == o.absorption_count + 1
            &&& p.amount_absorbed == position.amount_absorbed + quote.deposit_amount
            &&& p.curve_distributed == position.curve_distributed + quote.final_curve_amount
            &&& p.realizable_lamports == position.realizable_lamports + quote.realizable_lamports
            &&& p.absorption_count == position.absorption_count + 1
            &&& p.updated_at == now
            &&& p.bonding_curve == ctx.bonding_curve
            &&& position.token_mint.spec_is_default() ==> {
                &&& p.token_mint == ctx.token_mint
                &&& p.collateral_vault == ctx.collateral_vault
                &&& p.status == PositionStatus::OnCurve
                &&& p.created_at == now
                &&& p.bump == ctx.position_bump
                &&& p.collateral_bump == ctx.collateral_vault_bump
            }
            &&& !position.token_mint.spec_is_default() ==> {
                &&& o == position
                &&& p.token_mint == position.token_mint
                &&& p.collateral_vault == position.collateral_vault
                &&& p.status == position.status
                &&& p.created_at == position.created_at
            }
        }),
{
}

/// Two absorptions into one opened position add up: its deposit total grows
/// by the sum of both deposits, its count by two.
pub proof fn absorptions_add_up(
    ctx: Absorb,
    first: Quote,
    second: Quote,
    position: Position,
    t1: i64,
    t2: i64,
)
    requires
        !position.token_mint.spec_is_default(),
        record_error(ctx, first, position, t1) is None,
        record_error(ctx, second, recorded_position(ctx, first, position, t1), t2) is None,
    ensures
        ({
            let p = recorded_position(ctx, second, recorded_position(ctx, first, position, t1), t2);
            &&& p.amount_absorbed == position.amount_absorbed + first.deposit_amount
                + second.deposit_amount
            &&& p.curve_distributed == position.curve_distributed + first.final_curve_amount
                + second.final_curve_amount
            &&& p.absorption_count == position.absorption_count + 2
        }),
{
}

/// Graduation is one-way: a graduated position cannot be graduated again,
/// and later absorptions into it leave it graduated.
pub proof fn graduation_is_one_way(
    ctx: MarkGraduated,
    config: Config,
    position: Position,
    now: i64,
    later: i64,
    absorb: Absorb,
    quote: Quote,
)
    requires
        !position.token_mint.spec_is_default(),
        mark_graduated_step(ctx, config, position, now) is Ok,
    ensures
        ({
            let g = mark_graduated_step(ctx, config, position, now)->Ok_0;
            &&& g.status == PositionStatus::Graduated
            &&& mark_graduated_step(ctx, config, g, later) == Err::<Position, InstructionError>(
                InstructionError::Program(ErrorCode::Status),
            )
            &&& record_error(absorb, quote, g, later) is None ==> recorded_position(
                absorb,
                quote,
                g,
                later,
            ).status == PositionStatus::Graduated
        }),
{
}

/// A quote that was posted can be absorbed on its terms: by its depositor,
/// with its nonce, for its token and curve, until it expires, when the
/// accounts are the ones required, the curve belongs to the configured
/// program, the depositor asks for no more than the quoted reward and the
/// vault holds it. The depositor then pays the priced deposit and receives
/// the priced reward.
pub proof fn posted_quote_is_absorbable(
    post: PostQuote,
    config: Config,
    args: PostQuoteArgs,
    posted_at: i64,
    ctx: Absorb,
    minimum_output: u64,
    now: i64,
)
    requires
        post_quote_error(post, config, args, posted_at) is None,
        ctx.depositor == post.depositor,
        ctx.token_mint == post.token_mint,
        ctx.bonding_curve == post.bonding_curve,
        ctx.bonding_curve_owner == config.pump_program,
        config.curve_mint == ctx.curve_mint,
        config.reward_vault == ctx.reward_vault.key,
        ctx.depositor_token.mint == ctx.token_mint,
        ctx.depositor_token.owner == ctx.depositor,
        ctx.depositor_curve.mint == ctx.curve_mint,
        ctx.depositor_curve.owner == ctx.depositor,
        now <= args.expires_at,
        minimum_output <= reward_amount(args.base_curve_amount, config.reward_bps),
        reward_amount(args.base_curve_amount, config.reward_bps) <= ctx.reward_vault.amount,
    ensures
        ({
            let q = posted_quote(post, config, args, posted_at);
            &&& absorb_error(ctx, config, q, args.nonce, minimum_output, now) is None
            &&& absorb_transfers(ctx, config, q).deposit.amount == args.deposit_amount
            &&& absorb_transfers(ctx, config, q).reward.amount == reward_amount(
                args.base_curve_amount,
                config.reward_bps,
            )
        }),
{
}

/// An instruction that writes a position: an absorption into it, or the
/// quote authority marking it graduated.
pub enum PositionInstruction {
    Absorption { ctx: Absorb, quote: Quote, now: i64 },
    Graduation { ctx: MarkGraduated, config: Config, now: i64 },
}

/// The position after one instruction, and the quote it absorbed if it was
/// an absorption that went through; a refused instruction leaves the
/// position as it was.
pub open spec fn apply_position_instruction(p: Position, i: PositionInstruction) -> (
    Position,
    Option<Quote>,
) {
    match i {
        PositionInstruction::Absorption { ctx, quote, now } => {
            if record_error(ctx, quote, p, now) is None {
                (recorded_position(ctx, quote, p, now), Some(quote))
            } else {
                (p, None)
            }
        },
        PositionInstruction::Graduation { ctx, config, now } => {
            match mark_graduated_step(ctx, config, p, now) {
                Ok(g) => (g, None),
                Err(_) => (p, None),
            }
        },
    }
}

/// The position after a sequence of instructions, and the quotes absorbed
/// along the way, in order.
pub open spec fn run_position(p: Position, instructions: Seq<PositionInstruction>) -> (
    Position,
    Seq<Quote>,
)
    decreases instructions.len(),
{
    if instructions.len() == 0 {
        (p, Seq::empty())
    } else {
        let (before, absorbed) = run_position(p, instructions.drop_last());
        let (after, taken) = apply_position_instruction(before, instructions.last());
        match taken {
            Some(q) => (after, absorbed.push(q)),
            None => (after, absorbed),
        }
    }
}

/// Sum of the deposits of a sequence of quotes.
pub open spec fn total_deposits(quotes: Seq<Quote>) -> int
    decreases quotes.len(),
{
    if quotes.len() == 0 {
        0
    } else {
        total_deposits(quotes.drop_last()) + quotes.last().deposit_amount
    }
}

/// Sum of the rewards of a sequence of quotes.
pub open spec fn total_rewards(quotes: Seq<Quote>) -> int
    decreases quotes.len(),
{
    if quotes.len() == 0 {
        0
    } else {
        total_rewards(quotes.drop_last()) + quotes.last().final_curve_amount
    }
}

/// Sum of the realizable lamports of a sequence of quotes.
pub open spec fn total_realizable(quotes: Seq<Quote>) -> int
    decreases quotes.len(),
{
    if quotes.len() == 0 {
        0
    } else {
        total_realizable(quotes.drop_last()) + quotes.last().realizable_lamports
    }
}

/// Over any sequence of instructions on a position, its totals grow by
/// exactly the sums of the absorbed quotes' deposits, rewards and
/// realizable lamports, and its count by the number of absorbed quotes;
/// nothing else changes them. For a position that was never written
/// (all totals zero), the totals are those sums and the count is the number
/// of absorptions.
pub proof fn position_totals_are_sums(p: Position, instructions: Seq<PositionInstruction>)
    ensures
        ({
            let (q, absorbed) = run_position(p, instructions);
            &&& q.amount_absorbed == p.amount_absorbed + total_deposits(absorbed)
            &&& q.curve_distributed == p.curve_distributed + total_rewards(absorbed)
            &&& q.realizable_lamports == p.realizable_lamports + total_realizable(absorbed)
            &&& q.absorption_count == p.absorption_count + absorbed.len()
        }),
    decreases instructions.len(),
{
    if instructions.len() > 0 {
        position_totals_are_sums(p, instructions.drop_last());
        let (before, absorbed) = run_position(p, instructions.drop_last());
        let (after, taken) = apply_position_instruction(before, instructions.last());
        match taken {
            Some(qt) => {
                let all = absorbed.push(qt);
                assert(all.drop_last() =~= absorbed);
            },
            None => {},
        }
    }
}

/// An instruction that writes the configuration after it was created.
pub enum ConfigInstruction {
    SetPaused { ctx: Admin, paused: bool },
    SetQuoteAuthority { ctx: Admin, key: Pubkey },
    ProposeAuthority { ctx: Admin, key: Pubkey },
    AcceptAuthority { ctx: AcceptAuthority },
}

/// The configuration after one instruction; a refused instruction leaves
/// it as it was.
pub open spec fn apply_config_instruction(c: Config, i: ConfigInstruction) -> Config {
    let r = match i {
        ConfigInstruction::SetPaused { ctx, paused } => set_paused_step(ctx, c, paused),
        ConfigInstruction::SetQuoteAuthority { ctx, key } => set_quote_authority_step(ctx, c, key),
        ConfigInstruction::ProposeAuthority { ctx, key } => propose_authority_step(ctx, c, key),
        ConfigInstruction::AcceptAuthority { ctx } => accept_authority_step(ctx, c),
    };
    match r {
        Ok(n) => n,
        Err(_) => c,
    }
}

/// The configuration after a sequence of instructions.
pub open spec fn run_config(c: Config, instructions: Seq<ConfigInstruction>) -> Config
    decreases instructions.len(),
{
    if instructions.len() == 0 {
        c
    } else {
        apply_config_instruction(run_config(c, instructions.drop_last()), instructions.last())
    }
}

/// Whether two configurations agree on every field that only `initialize`
/// writes.
pub open spec fn same_fixed_fields(a: Config, b: Config) -> bool {
    &&& a.treasury == b.treasury
    &&& a.curve_mint == b.curve_mint
    &&& a.pump_program == b.pump_program
    &&& a.reward_vault == b.reward_vault
    &&& a.reward_bps == b.reward_bps
    &&& a.max_quote_age == b.max_quote_age
    &&& a.bump == b.bump
    &&& a.reward_bump == b.reward_bump
}

/// Over any sequence of instructions after `initialize`, only the pause
/// flag, the quote authority, the proposed successor and the authority
/// change: the treasury, the reward mint and vault, the curve program, the
/// reward ratio (110%), the quote lifetime and the bumps keep the values
/// `initialize` wrote.
pub proof fn fixed_fields_keep_initial_values(
    init: Initialize,
    quote_authority: Pubkey,
    treasury: Pubkey,
    pump_program: Pubkey,
    max_quote_age: u32,
    instructions: Seq<ConfigInstruction>,
)
    requires
        initialize_error(quote_authority, treasury, pump_program, max_quote_age) is None,
    ensures
        ({
            let c0 = initial_config(init, quote_authority, treasury, pump_program, max_quote_age);
            let c = run_config(c0, instructions);
            &&& same_fixed_fields(c, c0)
            &&& c.reward_bps == INITIAL_REWARD_BPS
            &&& c.treasury == treasury
            &&& c.curve_mint == init.curve_mint
            &&& c.pump_program == pump_program
            &&& c.reward_vault == init.reward_vault
            &&& c.max_quote_age == max_quote_age
            &&& c.bump == init.config_bump
            &&& c.reward_bump == init.reward_vault_bump
            &&& c.wf()
        }),
{
    let c0 = initial_config(init, quote_authority, treasury, pump_program, max_quote_age);
    fixed_fields_are_kept(c0, instructions);
}

/// Any sequence of instructions on a configuration keeps its fixed fields
/// and its well-formedness.
pub proof fn fixed_fields_are_kept(c: Config, instructions: Seq<ConfigInstruction>)
    ensures
        same_fixed_fields(run_config(c, instructions), c),
        c.wf() ==> run_config(c, instructions).wf(),
    decreases instructions.len(),
{
    if instructions.len() > 0 {
        fixed_fields_are_kept(c, instructions.drop_last());
    }
}

} // verus!
