//! Absorbing a quote: the checks before the token transfers, and the update
//! of the position after them.

use vstd::prelude::*;
use crate::accounts::Absorb;
use crate::error::{ErrorCode, InstructionError};
use crate::events::{AbsorbTransfers, Absorbed, TokenTransfer};
use crate::state::{Config, Position, PositionStatus, Quote};

verus! {

/// Whether the quote was posted for this depositor, token, bonding curve and
/// nonce.
pub open spec fn quote_matches(ctx: Absorb, quote: Quote, nonce: u64) -> bool {
    &&& quote.nonce == nonce
    &&& quote.depositor == ctx.depositor
    &&& quote.token_mint == ctx.token_mint
    &&& quote.bonding_curve == ctx.bonding_curve
}

/// The first check of `absorb` that fails, in the order the instruction
/// makes them: the accounts' relations first, then the program's rules.
pub open spec fn absorb_error(
    ctx: Absorb,
    config: Config,
    quote: Quote,
    nonce: u64,
    minimum_output: u64,
    now: i64,
) -> Option<InstructionError> {
    if config.curve_mint != ctx.curve_mint || config.reward_vault != ctx.reward_vault.key {
        Some(InstructionError::ConstraintHasOne)
    } else if ctx.depositor_token.mint != ctx.token_mint || ctx.depositor_token.owner
        != ctx.depositor || ctx.depositor_curve.mint != ctx.curve_mint || ctx.depositor_curve.owner
        != ctx.depositor {
        Some(InstructionError::ConstraintRaw)
    } else if config.paused {
        Some(InstructionError::Program(ErrorCode::Paused))
    } else if !quote_matches(ctx, quote, nonce) {
        Some(InstructionError::Program(ErrorCode::QuoteMismatch))
    } else if now > quote.expires_at {
        Some(InstructionError::Program(ErrorCode::Expired))
    } else if ctx.bonding_curve_owner != config.pump_program {
        Some(InstructionError::Program(ErrorCode::InvalidCurve))
    } else if quote.final_curve_amount < minimum_output {
        Some(InstructionError::Program(ErrorCode::Slippage))
    } else if ctx.reward_vault.amount < quote.final_curve_amount {
        Some(InstructionError::Program(ErrorCode::Reserve))
    } else {
        None
    }
}

/// The transfers of an absorption: the depositor's tokens into the
/// collateral vault, and the quoted reward from the reward vault to the
/// depositor, signed by the configuration account.
pub open spec fn absorb_transfers(ctx: Absorb, config: Config, quote: Quote) -> AbsorbTransfers {
    AbsorbTransfers {
        deposit: TokenTransfer {
            from: ctx.depositor_token.key,
            mint: ctx.token_mint,
            to: ctx.collateral_vault,
            authority: ctx.depositor,
            amount: quote.deposit_amount,
            decimals: ctx.token_mint_decimals,
            config_signer_bump: None,
        },
        reward: TokenTransfer {
            from: ctx.reward_vault.key,
            mint: ctx.curve_mint,
            to: ctx.depositor_curve.key,
            authority: ctx.config,
            amount: quote.final_curve_amount,
            decimals: ctx.curve_mint_decimals,
            config_signer_bump: Some(config.bump),
        },
    }
}

/// A depositor takes up a quote with `nonce`, asking for at least
/// `minimum_output` reward tokens: the checks that come before the token
/// transfers, and the transfers to make.
pub fn absorb(
    ctx: &Absorb,
    config: &Config,
    quote: &Quote,
    nonce: u64,
    minimum_output: u64,
    now: i64,
) -> (r: Result<AbsorbTransfers, InstructionError>)
    ensures
        r is Ok <==> absorb_error(*ctx, *config, *quote, nonce, minimum_output, now) is None,
        r matches Err(e) ==> absorb_error(*ctx, *config, *quote, nonce, minimum_output, now)
            == Some(e),
        r matches Ok(t) ==> t == absorb_transfers(*ctx, *config, *quote),
{
    if !config.curve_mint.same(&ctx.curve_mint) || !config.reward_vault.same(&ctx.reward_vault.key) {
        return Err(InstructionError::ConstraintHasOne);
    }
    if !ctx.depositor_token.mint.same(&ctx.token_mint) || !ctx.depositor_token.owner.same(
        &ctx.depositor,
    ) || !ctx.depositor_curve.mint.same(&ctx.curve_mint) || !ctx.depositor_curve.owner.same(
        &ctx.depositor,
    ) {
        return Err(InstructionError::ConstraintRaw);
    }
    if config.paused {
        return Err(InstructionError::Program(ErrorCode::Paused));
    }
    if !(quote.nonce == nonce && quote.depositor.same(&ctx.depositor) && quote.token_mint.same(
        &ctx.token_mint,
    ) && quote.bonding_curve.same(&ctx.bonding_curve)) {
        return Err(InstructionError::Program(ErrorCode::QuoteMismatch));
    }
    if !(now <= quote.expires_at) {
        return Err(InstructionError::Program(ErrorCode::Expired));
    }
    if !ctx.bonding_curve_owner.same(&config.pump_program) {
        return Err(InstructionError::Program(ErrorCode::InvalidCurve));
    }
    if !(quote.final_curve_amount >= minimum_output) {
        return Err(InstructionError::Program(ErrorCode::Slippage));
    }
    if !(ctx.reward_vault.amount >= quote.final_curve_amount) {
        return Err(InstructionError::Program(ErrorCode::Reserve));
    }
    let deposit = TokenTransfer {
        from: ctx.depositor_token.key,
        mint: ctx.token_mint,
        to: ctx.collateral_vault,
        authority: ctx.depositor,
        amount: quote.deposit_amount,
        decimals: ctx.token_mint_decimals,
        config_signer_bump: None,
    };
    let reward = TokenTransfer {
        from: ctx.reward_vault.key,
        mint: ctx.curve_mint,
        to: ctx.depositor_curve.key,
        authority: ctx.config,
        amount: quote.final_curve_amount,
        decimals: ctx.curve_mint_decimals,
        config_signer_bump: Some(config.bump),
    };
    Ok(AbsorbTransfers { deposit, reward })
}

/// The position as the absorption finds it: a position that was never
/// written (its token is the zero address) is opened for this token, on its
/// bonding curve, with its collateral vault.
pub open spec fn opened_position(ctx: Absorb, position: Position, now: i64) -> Position {
    if position.token_mint.spec_is_default() {
        Position {
            token_mint: ctx.token_mint,
            bonding_curve: ctx.bonding_curve,
            collateral_vault: ctx.collateral_vault,
            status: PositionStatus::OnCurve,
            created_at: now,
            bump: ctx.position_bump,
            collateral_bump: ctx.collateral_vault_bump,
            ..position
        }
    } else {
        position
    }
}

/// The first check of `record_absorption` that fails.
pub open spec fn record_error(ctx: Absorb, quote: Quote, position: Position, now: i64) -> Option<
    InstructionError,
> {
    let p = opened_position(ctx, position, now);
    if p.bonding_curve != ctx.bonding_curve {
        Some(InstructionError::Program(ErrorCode::PositionMismatch))
    } else if p.amount_absorbed + quote.deposit_amount > u64::MAX || p.curve_distributed
        + quote.final_curve_amount > u64::MAX || p.realizable_lamports + quote.realizable_lamports
        > u64::MAX || p.absorption_count + 1 > u64::MAX {
        Some(InstructionError::Program(ErrorCode::Math))
    } else {
        None
    }
}

/// The position after the absorption: each total grows by the quote's
/// amount, the count by one, and the update time is `now`.
pub open spec fn recorded_position(ctx: Absorb, quote: Quote, position: Position, now: i64) -> Position {
    let p = opened_position(ctx, position, now);
    Position {
        amount_absorbed: (p.amount_absorbed + quote.deposit_amount) as u64,
        curve_distributed: (p.curve_distributed + quote.final_curve_amount) as u64,
        realizable_lamports: (p.realizable_lamports + quote.realizable_lamports) as u64,
        absorption_count: (p.absorption_count + 1) as u64,
        updated_at: now,
        ..p
    }
}

/// The event of an absorption.
pub open spec fn absorbed_event(ctx: Absorb, quote: Quote, position: Position, now: i64) -> Absorbed {
    Absorbed {
        depositor: ctx.depositor,
        token_mint: opened_position(ctx, position, now).token_mint,
        deposit_amount: quote.deposit_amount,
        curve_received: quote.final_curve_amount,
    }
}

/// After the transfers of `absorb`: opens the position if it was never
/// written and adds the quote to its totals. A refusal leaves the position
/// as it was.
pub fn record_absorption(ctx: &Absorb, quote: &Quote, position: &mut Position, now: i64) -> (r:
    Result<Absorbed, InstructionError>)
    ensures
        r is Ok <==> record_error(*ctx, *quote, *old(position), now) is None,
        r matches Err(e) ==> record_error(*ctx, *quote, *old(position), now) == Some(e)
            && *final(position) == *old(position),
        r matches Ok(ev) ==> *final(position) == recorded_position(
            *ctx,
            *quote,
            *old(position),
            now,
        ) && ev == absorbed_event(*ctx, *quote, *old(position), now),
{
    let mut p = *position;
    if p.token_mint.is_default() {
        p.token_mint = ctx.token_mint;
        p.bonding_curve = ctx.bonding_curve;
        p.collateral_vault = ctx.collateral_vault;
        p.status = PositionStatus::OnCurve;
        p.created_at = now;
        p.bump = ctx.position_bump;
        p.collateral_bump = ctx.collateral_vault_bump;
    }
    if !p.bonding_curve.same(&ctx.bonding_curve) {
        return Err(InstructionError::Program(ErrorCode::PositionMismatch));
    }
    let amount_absorbed = match p.amount_absorbed.checked_add(quote.deposit_amount) {
        Some(v) => v,
        None => {
            return Err(InstructionError::Program(ErrorCode::Math));
        },
    };
    let curve_distributed = match p.curve_distributed.checked_add(quote.final_curve_amount) {
        Some(v) => v,
        None => {
            return Err(InstructionError::Program(ErrorCode::Math));
        },
    };
    let realizable_lamports = match p.realizable_lamports.checked_add(quote.realizable_lamports) {
        Some(v) => v,
        None => {
            return Err(InstructionError::Program(ErrorCode::Math));
        },
    };
    let absorption_count = match p.absorption_count.checked_add(1) {
        Some(v) => v,
        None => {
            return Err(InstructionError::Program(ErrorCode::Math));
        },
    };
    p.amount_absorbed = amount_absorbed;
    p.curve_distributed = curve_distributed;
    p.realizable_lamports = realizable_lamports;
    p.absorption_count = absorption_count;
    p.updated_at = now;
    *position = p;
    Ok(
        Absorbed {
            depositor: ctx.depositor,
            token_mint: p.token_mint,
            deposit_amount: quote.deposit_amount,
            curve_received: quote.final_curve_amount,
        },
    )
}

} // verus!
