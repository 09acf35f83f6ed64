//! Posting a quote and absorbing it into a position.

use vstd::prelude::*;
use crate::accounts::PostQuote;
use crate::error::{ErrorCode, InstructionError};
use crate::events::QuotePosted;
use crate::state::{BPS, Config, PostQuoteArgs, Quote};

verus! {

/// The reward of a quote: `base * bps / 10000`, rounded down and kept to its
/// low 64 bits.
pub open spec fn reward_amount(base: u64, bps: u16) -> u64 {
    ((base * bps / (BPS as int)) % 0x1_0000_0000_0000_0000) as u64
}

/// The reward of a quote whose base amount is `base`, at `bps` basis points.
pub fn quote_reward(base: u64, bps: u16) -> (out: u64)
    ensures
        out == reward_amount(base, bps),
{
    let b: u128 = base as u128;
    let r: u128 = bps as u128;
    assert(b * r <= 0xffff_ffff_ffff_ffffu128 * 0xffffu128) by (nonlinear_arith)
        requires
            b <= 0xffff_ffff_ffff_ffffu128,
            r <= 0xffffu128,
    ;
    let prod: u128 = b * r;
    let q: u128 = prod / BPS;
    let low: u128 = q % 0x1_0000_0000_0000_0000u128;
    low as u64
}

/// The first check of `post_quote` that fails, in the order the instruction
/// makes them.
pub open spec fn post_quote_error(ctx: PostQuote, config: Config, a: PostQuoteArgs, now: i64) -> Option<
    InstructionError,
> {
    if ctx.quote_authority != config.quote_authority {
        Some(InstructionError::ConstraintHasOne)
    } else if config.paused {
        Some(InstructionError::Program(ErrorCode::Paused))
    } else if a.deposit_amount == 0 || a.base_curve_amount == 0 || a.realizable_lamports == 0 {
        Some(InstructionError::Program(ErrorCode::ZeroAmount))
    } else if ctx.bonding_curve_owner != config.pump_program {
        Some(InstructionError::Program(ErrorCode::InvalidCurve))
    } else if a.expires_at <= now {
        Some(InstructionError::Program(ErrorCode::InvalidExpiry))
    } else if now + config.max_quote_age > i64::MAX {
        Some(InstructionError::Program(ErrorCode::Math))
    } else if a.expires_at > now + config.max_quote_age {
        Some(InstructionError::Program(ErrorCode::InvalidExpiry))
    } else {
        None
    }
}

/// The quote that `post_quote` writes.
pub open spec fn posted_quote(ctx: PostQuote, config: Config, a: PostQuoteArgs, now: i64) -> Quote {
    Quote {
        depositor: ctx.depositor,
        token_mint: ctx.token_mint,
        bonding_curve: ctx.bonding_curve,
        deposit_amount: a.deposit_amount,
        realizable_lamports: a.realizable_lamports,
        base_curve_amount: a.base_curve_amount,
        final_curve_amount: reward_amount(a.base_curve_amount, config.reward_bps),
        nonce: a.nonce,
        posted_at: now,
        expires_at: a.expires_at,
        bump: ctx.quote_bump,
    }
}

/// The event that `post_quote` emits.
pub open spec fn quote_posted_event(ctx: PostQuote, config: Config, a: PostQuoteArgs) -> QuotePosted {
    QuotePosted {
        quote: ctx.quote,
        depositor: ctx.depositor,
        token_mint: ctx.token_mint,
        final_curve_amount: reward_amount(a.base_curve_amount, config.reward_bps),
        expires_at: a.expires_at,
    }
}

/// The quote authority prices a deposit at time `now`: the quote pays the
/// base amount scaled by the configured reward ratio and lives until
/// `a.expires_at`, which must lie after `now` and at most `max_quote_age`
/// seconds after it.
pub fn post_quote(ctx: &PostQuote, config: &Config, a: &PostQuoteArgs, now: i64) -> (r: Result<
    (Quote, QuotePosted),
    InstructionError,
>)
    ensures
        r is Ok <==> post_quote_error(*ctx, *config, *a, now) is None,
        r matches Err(e) ==> post_quote_error(*ctx, *config, *a, now) == Some(e),
        r matches Ok((q, ev)) ==> q == posted_quote(*ctx, *config, *a, now) && ev
            == quote_posted_event(*ctx, *config, *a),
{
    if !ctx.quote_authority.same(&config.quote_authority) {
        return Err(InstructionError::ConstraintHasOne);
    }
    if config.paused {
        return Err(InstructionError::Program(ErrorCode::Paused));
    }
    if !(a.deposit_amount > 0 && a.base_curve_amount > 0 && a.realizable_lamports > 0) {
        return Err(InstructionError::Program(ErrorCode::ZeroAmount));
    }
    if !ctx.bonding_curve_owner.same(&config.pump_program) {
        return Err(InstructionError::Program(ErrorCode::InvalidCurve));
    }
    if !(a.expires_at > now) {
        return Err(InstructionError::Program(ErrorCode::InvalidExpiry));
    }
    let latest = match now.checked_add(config.max_quote_age as i64) {
        Some(t) => t,
        None => {
            return Err(InstructionError::Program(ErrorCode::Math));
        },
    };
    if !(a.expires_at <= latest) {
        return Err(InstructionError::Program(ErrorCode::InvalidExpiry));
    }
    let out = quote_reward(a.base_curve_amount, config.reward_bps);
    let q = Quote {
        depositor: ctx.depositor,
        token_mint: ctx.token_mint,
        bonding_curve: ctx.bonding_curve,
        deposit_amount: a.deposit_amount,
        realizable_lamports: a.realizable_lamports,
        base_curve_amount: a.base_curve_amount,
        final_curve_amount: out,
        nonce: a.nonce,
        posted_at: now,
        expires_at: a.expires_at,
        bump: ctx.quote_bump,
    };
    let ev = QuotePosted {
        quote: ctx.quote,
        depositor: q.depositor,
        token_mint: q.token_mint,
        final_curve_amount: out,
        expires_at: q.expires_at,
    };
    Ok((q, ev))
}

} // verus!
