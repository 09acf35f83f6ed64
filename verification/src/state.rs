use vstd::prelude::*;
use crate::key::Pubkey;

verus! {

/// Denominator of basis-point ratios.
pub const BPS: u128 = 10_000;

/// The reward ratio that a new configuration starts with: 110%.
pub const INITIAL_REWARD_BPS: u16 = 11_000;

/// Shortest allowed lifetime of a quote, in seconds.
pub const MIN_QUOTE_AGE: u32 = 15;

/// Longest allowed lifetime of a quote, in seconds.
pub const MAX_QUOTE_AGE: u32 = 300;

/// The protocol's configuration.
#[derive(Clone, Copy, Debug, PartialEq, Eq)]
pub struct Config {
    pub authority: Pubkey,
    pub pending_authority: Pubkey,
    pub quote_authority: Pubkey,
    pub treasury: Pubkey,
    pub curve_mint: Pubkey,
    pub pump_program: Pubkey,
    pub reward_vault: Pubkey,
    pub reward_bps: u16,
    pub max_quote_age: u32,
    pub paused: bool,
    pub bump: u8,
    pub reward_bump: u8,
}

impl Config {
    /// What every configuration that the program writes satisfies: the
    /// protocol addresses name accounts, the quote lifetime lies in its
    /// bounds and the reward ratio is the initial one.
    pub open spec fn wf(self) -> bool {
        &&& !self.quote_authority.spec_is_default()
        &&& !self.treasury.spec_is_default()
        &&& !self.pump_program.spec_is_default()
        &&& MIN_QUOTE_AGE <= self.max_quote_age <= MAX_QUOTE_AGE
        &&& self.reward_bps == INITIAL_REWARD_BPS
    }
}

/// A priced offer to one depositor: deposit `deposit_amount` of `token_mint`
/// and receive `final_curve_amount` reward tokens, until `expires_at`.
#[derive(Clone, Copy, Debug, PartialEq, Eq)]
pub struct Quote {
    pub depositor: Pubkey,
    pub token_mint: Pubkey,
    pub bonding_curve: Pubkey,
    pub deposit_amount: u64,
    pub realizable_lamports: u64,
    pub base_curve_amount: u64,
    pub final_curve_amount: u64,
    pub nonce: u64,
    pub posted_at: i64,
    pub expires_at: i64,
    pub bump: u8,
}

/// Where the bonding curve of a position's token stands.
#[derive(Clone, Copy, Debug, PartialEq, Eq, Structural)]
pub enum PositionStatus {
    OnCurve,
    Graduated,
    HarvestReady,
    Harvested,
    DeadCurve,
}

/// What the protocol holds of one token: the totals of all absorbed quotes.
#[derive(Clone, Copy, Debug, PartialEq, Eq)]
pub struct Position {
    pub token_mint: Pubkey,
    pub bonding_curve: Pubkey,
    pub collateral_vault: Pubkey,
    pub amount_absorbed: u64,
    pub curve_distributed: u64,
    pub realizable_lamports: u64,
    pub absorption_count: u64,
    pub status: PositionStatus,
    pub created_at: i64,
    pub updated_at: i64,
    pub bump: u8,
    pub collateral_bump: u8,
}

/// What the quote authority states when it posts a quote.
#[derive(Clone, Copy, Debug, PartialEq, Eq)]
pub struct PostQuoteArgs {
    pub nonce: u64,
    pub deposit_amount: u64,
    pub realizable_lamports: u64,
    pub base_curve_amount: u64,
    pub expires_at: i64,
}

} // verus!
