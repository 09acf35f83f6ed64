//! Rules of the curve protocol: a quote authority prices deposits of a token
//! in reward tokens, depositors absorb those quotes into a per-token position,
//! and an administrator governs the protocol's configuration.

pub mod key;
pub mod error;
pub mod state;
pub mod events;
pub mod accounts;
pub mod quote;
pub mod absorb;
pub mod admin;
pub mod funding;
pub mod graduation;
pub mod laws;
pub mod guarantees;

pub use absorb::{absorb, record_absorption};
pub use accounts::{AcceptAuthority, Absorb, Admin, FundRewards, Initialize, MarkGraduated, PostQuote};
pub use admin::{accept_authority, initialize, propose_authority, set_paused, set_quote_authority};
pub use error::ErrorCode;
pub use events::{Absorbed, PauseChanged, QuotePosted, RewardsFunded};
pub use funding::fund_rewards;
pub use graduation::mark_graduated;
pub use quote::post_quote;
pub use state::{Config, Position, PositionStatus, PostQuoteArgs, Quote};
