//! Creating the configuration and the administrator's changes to it.

use vstd::prelude::*;
use crate::accounts::{AcceptAuthority, Admin, Initialize};
use crate::error::{ErrorCode, InstructionError};
use crate::events::PauseChanged;
use crate::key::{Pubkey, zero_key};
use crate::state::{Config, INITIAL_REWARD_BPS, MAX_QUOTE_AGE, MIN_QUOTE_AGE};

verus! {

/// The first check of `initialize` that fails.
pub open spec fn initialize_error(
    quote_authority: Pubkey,
    treasury: Pubkey,
    pump_program: Pubkey,
    max_quote_age: u32,
) -> Option<InstructionError> {
    if quote_authority.spec_is_default() || treasury.spec_is_default()
        || pump_program.spec_is_default() {
        Some(InstructionError::Program(ErrorCode::InvalidAuthority))
    } else if !(MIN_QUOTE_AGE <= max_quote_age <= MAX_QUOTE_AGE) {
        Some(InstructionError::Program(ErrorCode::InvalidQuoteAge))
    } else {
        None
    }
}

/// The configuration that `initialize` writes: the signer is the authority,
/// nothing is pending, the reward ratio is the initial one and deposits are
/// paused.
pub open spec fn initial_config(
    ctx: Initialize,
    quote_authority: Pubkey,
    treasury: Pubkey,
    pump_program: Pubkey,
    max_quote_age: u32,
) -> Config {
    Config {
        authority: ctx.authority,
        pending_authority: zero_key(),
        quote_authority,
        treasury,
        curve_mint: ctx.curve_mint,
        pump_program,
        reward_vault: ctx.reward_vault,
        reward_bps: INITIAL_REWARD_BPS,
        max_quote_age,
        paused: true,
        bump: ctx.config_bump,
        reward_bump: ctx.reward_vault_bump,
    }
}

/// Creates the protocol's configuration.
pub fn initialize(
    ctx: &Initialize,
    quote_authority: Pubkey,
    treasury: Pubkey,
    pump_program: Pubkey,
    max_quote_age: u32,
) -> (r: Result<Config, InstructionError>)
    ensures
        r is Ok <==> initialize_error(quote_authority, treasury, pump_program, max_quote_age) is None,
        r matches Err(e) ==> initialize_error(quote_authority, treasury, pump_program, max_quote_age)
            == Some(e),
        r matches Ok(c) ==> c == initial_config(
            *ctx,
            quote_authority,
            treasury,
            pump_program,
            max_quote_age,
        ) && c.wf(),
{
    if !(!quote_authority.is_default() && !treasury.is_default() && !pump_program.is_default()) {
        return Err(InstructionError::Program(ErrorCode::InvalidAuthority));
    }
    if !(MIN_QUOTE_AGE <= max_quote_age && max_quote_age <= MAX_QUOTE_AGE) {
        return Err(InstructionError::Program(ErrorCode::InvalidQuoteAge));
    }
    Ok(
        Config {
            authority: ctx.authority,
            pending_authority: Pubkey::default_key(),
            quote_authority,
            treasury,
            curve_mint: ctx.curve_mint,
            pump_program,
            reward_vault: ctx.reward_vault,
            reward_bps: INITIAL_REWARD_BPS,
            max_quote_age,
            paused: true,
            bump: ctx.config_bump,
            reward_bump: ctx.reward_vault_bump,
        },
    )
}

/// `set_paused` as a step of the configuration.
pub open spec fn set_paused_step(ctx: Admin, config: Config, paused: bool) -> Result<
    Config,
    InstructionError,
> {
    if ctx.authority != config.authority {
        Err(InstructionError::ConstraintHasOne)
    } else {
        Ok(Config { paused, ..config })
    }
}

/// `set_quote_authority` as a step of the configuration.
pub open spec fn set_quote_authority_step(ctx: Admin, config: Config, key: Pubkey) -> Result<
    Config,
    InstructionError,
> {
    if ctx.authority != config.authority {
        Err(InstructionError::ConstraintHasOne)
    } else if key.spec_is_default() {
        Err(InstructionError::Program(ErrorCode::InvalidAuthority))
    } else {
        Ok(Config { quote_authority: key, ..config })
    }
}

/// `propose_authority` as a step of the configuration.
pub open spec fn propose_authority_step(ctx: Admin, config: Config, key: Pubkey) -> Result<
    Config,
    InstructionError,
> {
    if ctx.authority != config.authority {
        Err(InstructionError::ConstraintHasOne)
    } else if key.spec_is_default() {
        Err(InstructionError::Program(ErrorCode::InvalidAuthority))
    } else {
        Ok(Config { pending_authority: key, ..config })
    }
}

/// `accept_authority` as a step of the configuration.
pub open spec fn accept_authority_step(ctx: AcceptAuthority, config: Config) -> Result<
    Config,
    InstructionError,
> {
    if config.pending_authority != ctx.pending {
        Err(InstructionError::Program(ErrorCode::InvalidAuthority))
    } else {
        Ok(Config { authority: ctx.pending, pending_authority: zero_key(), ..config })
    }
}

/// The authority pauses or resumes deposits.
pub fn set_paused(ctx: &Admin, config: &mut Config, paused: bool) -> (r: Result<
    PauseChanged,
    InstructionError,
>)
    ensures
        old(config).wf() ==> final(config).wf(),
        r is Ok <==> set_paused_step(*ctx, *old(config), paused) is Ok,
        r matches Err(e) ==> set_paused_step(*ctx, *old(config), paused) == Err::<
            Config,
            InstructionError,
        >(e) && *final(config) == *old(config),
        r matches Ok(ev) ==> set_paused_step(*ctx, *old(config), paused) == Ok::<
            Config,
            InstructionError,
        >(*final(config)) && ev == (PauseChanged { paused }),
{
    if !config.authority.same(&ctx.authority) {
        return Err(InstructionError::ConstraintHasOne);
    }
    config.paused = paused;
    Ok(PauseChanged { paused })
}

/// The authority names a new quote authority.
pub fn set_quote_authority(ctx: &Admin, config: &mut Config, key: Pubkey) -> (r: Result<
    (),
    InstructionError,
>)
    ensures
        old(config).wf() ==> final(config).wf(),
        r is Ok <==> set_quote_authority_step(*ctx, *old(config), key) is Ok,
        r matches Err(e) ==> set_quote_authority_step(*ctx, *old(config), key) == Err::<
            Config,
            InstructionError,
        >(e) && *final(config) == *old(config),
        r is Ok ==> set_quote_authority_step(*ctx, *old(config), key) == Ok::<
            Config,
            InstructionError,
        >(*final(config)),
{
    if !config.authority.same(&ctx.authority) {
        return Err(InstructionError::ConstraintHasOne);
    }
    if key.is_default() {
        return Err(InstructionError::Program(ErrorCode::InvalidAuthority));
    }
    config.quote_authority = key;
    Ok(())
}

/// The authority proposes a successor, who must accept before taking over.
pub fn propose_authority(ctx: &Admin, config: &mut Config, key: Pubkey) -> (r: Result<
    (),
    InstructionError,
>)
    ensures
        old(config).wf() ==> final(config).wf(),
        r is Ok <==> propose_authority_step(*ctx, *old(config), key) is Ok,
        r matches Err(e) ==> propose_authority_step(*ctx, *old(config), key) == Err::<
            Config,
            InstructionError,
        >(e) && *final(config) == *old(config),
        r is Ok ==> propose_authority_step(*ctx, *old(config), key) == Ok::<
            Config,
            InstructionError,
        >(*final(config)),
{
    if !config.authority.same(&ctx.authority) {
        return Err(InstructionError::ConstraintHasOne);
    }
    if key.is_default() {
        return Err(InstructionError::Program(ErrorCode::InvalidAuthority));
    }
    config.pending_authority = key;
    Ok(())
}

/// The proposed successor takes over the authority; the proposal is cleared.
pub fn accept_authority(ctx: &AcceptAuthority, config: &mut Config) -> (r: Result<
    (),
    InstructionError,
>)
    ensures
        old(config).wf() ==> final(config).wf(),
        r is Ok <==> accept_authority_step(*ctx, *old(config)) is Ok,
        r matches Err(e) ==> accept_authority_step(*ctx, *old(config)) == Err::<
            Config,
            InstructionError,
        >(e) && *final(config) == *old(config),
        r is Ok ==> accept_authority_step(*ctx, *old(config)) == Ok::<Config, InstructionError>(
            *final(config),
        ),
{
    if !config.pending_authority.same(&ctx.pending) {
        return Err(InstructionError::Program(ErrorCode::InvalidAuthority));
    }
    config.authority = ctx.pending;
    config.pending_authority = Pubkey::default_key();
    Ok(())
}

} // verus!
