//! The accounts that each instruction reads, by address and by the values of
//! them that the instruction's rules look at.

use vstd::prelude::*;
use crate::key::Pubkey;

verus! {

/// A token account: its address, the mint of the tokens it holds, the
/// account that may spend them, and its balance.
#[derive(Clone, Copy, Debug, PartialEq, Eq)]
pub struct TokenAccount {
    pub key: Pubkey,
    pub mint: Pubkey,
    pub owner: Pubkey,
    pub amount: u64,
}

/// Accounts of `initialize`: the signer that becomes the authority, the
/// reward mint and the reward vault created for it, and the bumps of the
/// configuration and reward vault addresses.
#[derive(Clone, Copy, Debug, PartialEq, Eq)]
pub struct Initialize {
    pub authority: Pubkey,
    pub curve_mint: Pubkey,
    pub reward_vault: Pubkey,
    pub config_bump: u8,
    pub reward_vault_bump: u8,
}

/// Accounts of `fund_rewards`.
#[derive(Clone, Copy, Debug, PartialEq, Eq)]
pub struct FundRewards {
    pub funder: Pubkey,
    pub curve_mint: Pubkey,
    pub curve_mint_decimals: u8,
    pub funder_curve: TokenAccount,
    pub reward_vault: Pubkey,
}

/// Accounts of `post_quote`; `bonding_curve_owner` is the program that owns
/// the bonding curve account.
#[derive(Clone, Copy, Debug, PartialEq, Eq)]
pub struct PostQuote {
    pub quote_authority: Pubkey,
    pub depositor: Pubkey,
    pub token_mint: Pubkey,
    pub bonding_curve: Pubkey,
    pub bonding_curve_owner: Pubkey,
    pub quote: Pubkey,
    pub quote_bump: u8,
}

/// Accounts of `absorb`.
#[derive(Clone, Copy, Debug, PartialEq, Eq)]
pub struct Absorb {
    pub depositor: Pubkey,
    pub config: Pubkey,
    pub token_mint: Pubkey,
    pub token_mint_decimals: u8,
    pub curve_mint: Pubkey,
    pub curve_mint_decimals: u8,
    pub bonding_curve: Pubkey,
    pub bonding_curve_owner: Pubkey,
    pub collateral_vault: Pubkey,
    pub depositor_token: TokenAccount,
    pub depositor_curve: TokenAccount,
    pub reward_vault: TokenAccount,
    pub position_bump: u8,
    pub collateral_vault_bump: u8,
}

/// Accounts of the administrator's instructions: the signer.
#[derive(Clone, Copy, Debug, PartialEq, Eq)]
pub struct Admin {
    pub authority: Pubkey,
}

/// Accounts of `accept_authority`: the signer.
#[derive(Clone, Copy, Debug, PartialEq, Eq)]
pub struct AcceptAuthority {
    pub pending: Pubkey,
}

/// Accounts of `mark_graduated`: the signer.
#[derive(Clone, Copy, Debug, PartialEq, Eq)]
pub struct MarkGraduated {
    pub quote_authority: Pubkey,
}

} // verus!
