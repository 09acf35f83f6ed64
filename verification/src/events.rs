use vstd::prelude::*;
use crate::key::Pubkey;

verus! {

/// Reward tokens were paid into the reward vault.
#[derive(Clone, Copy, Debug, PartialEq, Eq)]
pub struct RewardsFunded {
    pub funder: Pubkey,
    pub amount: u64,
}

/// A quote was posted.
#[derive(Clone, Copy, Debug, PartialEq, Eq)]
pub struct QuotePosted {
    pub quote: Pubkey,
    pub depositor: Pubkey,
    pub token_mint: Pubkey,
    pub final_curve_amount: u64,
    pub expires_at: i64,
}

/// A quote was absorbed into its position.
#[derive(Clone, Copy, Debug, PartialEq, Eq)]
pub struct Absorbed {
    pub depositor: Pubkey,
    pub token_mint: Pubkey,
    pub deposit_amount: u64,
    pub curve_received: u64,
}

/// Deposits were paused or resumed.
#[derive(Clone, Copy, Debug, PartialEq, Eq)]
pub struct PauseChanged {
    pub paused: bool,
}

/// A checked token transfer that an instruction asks the token program for.
#[derive(Clone, Copy, Debug, PartialEq, Eq)]
pub struct TokenTransfer {
    pub from: Pubkey,
    pub mint: Pubkey,
    pub to: Pubkey,
    pub authority: Pubkey,
    pub amount: u64,
    pub decimals: u8,
    /// `Some(bump)` when the authority is the configuration account, which
    /// signs with the seeds `"config"` and this bump.
    pub config_signer_bump: Option<u8>,
}

} // verus!

verus! {

/// The two transfers of an absorption: the deposit into the collateral
/// vault, then the reward out of the reward vault.
#[derive(Clone, Copy, Debug, PartialEq, Eq)]
pub struct AbsorbTransfers {
    pub deposit: TokenTransfer,
    pub reward: TokenTransfer,
}

} // verus!
