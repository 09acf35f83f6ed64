//! Paying reward tokens into the reward vault.

use vstd::prelude::*;
use crate::accounts::FundRewards;
use crate::error::{ErrorCode, InstructionError};
use crate::events::{RewardsFunded, TokenTransfer};
use crate::state::Config;

verus! {

/// The first check of `fund_rewards` that fails: the accounts' relations,
/// then a nonzero amount.
pub open spec fn fund_rewards_error(ctx: FundRewards, config: Config, amount: u64) -> Option<
    InstructionError,
> {
    if config.curve_mint != ctx.curve_mint || config.reward_vault != ctx.reward_vault {
        Some(InstructionError::ConstraintHasOne)
    } else if ctx.funder_curve.mint != ctx.curve_mint || ctx.funder_curve.owner != ctx.funder {
        Some(InstructionError::ConstraintRaw)
    } else if amount == 0 {
        Some(InstructionError::Program(ErrorCode::ZeroAmount))
    } else {
        None
    }
}

/// The transfer of `fund_rewards`: from the funder's reward-token account
/// into the reward vault, authorised by the funder.
pub open spec fn funding_transfer(ctx: FundRewards, amount: u64) -> TokenTransfer {
    TokenTransfer {
        from: ctx.funder_curve.key,
        mint: ctx.curve_mint,
        to: ctx.reward_vault,
        authority: ctx.funder,
        amount,
        decimals: ctx.curve_mint_decimals,
        config_signer_bump: None,
    }
}

/// Anyone pays `amount` reward tokens into the reward vault: the transfer to
/// make, and the event to emit once it is made.
pub fn fund_rewards(ctx: &FundRewards, config: &Config, amount: u64) -> (r: Result<
    (TokenTransfer, RewardsFunded),
    InstructionError,
>)
    ensures
        r is Ok <==> fund_rewards_error(*ctx, *config, amount) is None,
        r matches Err(e) ==> fund_rewards_error(*ctx, *config, amount) == Some(e),
        r matches Ok((t, ev)) ==> t == funding_transfer(*ctx, amount) && ev == (RewardsFunded {
            funder: ctx.funder,
            amount,
        }),
{
    if !config.curve_mint.same(&ctx.curve_mint) || !config.reward_vault.same(&ctx.reward_vault) {
        return Err(InstructionError::ConstraintHasOne);
    }
    if !ctx.funder_curve.mint.same(&ctx.curve_mint) || !ctx.funder_curve.owner.same(&ctx.funder) {
        return Err(InstructionError::ConstraintRaw);
    }
    if !(amount > 0) {
        return Err(InstructionError::Program(ErrorCode::ZeroAmount));
    }
    let t = TokenTransfer {
        from: ctx.funder_curve.key,
        mint: ctx.curve_mint,
        to: ctx.reward_vault,
        authority: ctx.funder,
        amount,
        decimals: ctx.curve_mint_decimals,
        config_signer_bump: None,
    };
    Ok((t, RewardsFunded { funder: ctx.funder, amount }))
}

} // verus!
