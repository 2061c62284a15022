//! Decision logic of a permissioned ledger program: proposal voting with a
//! strict lifecycle and double-vote protection, and a treasury that sells a
//! fungible token for collateral at an administrator-set price.
//!
//! Every persisted record is passed to the operation that reads or changes it;
//! an operation either applies all of its effects or leaves every record as it
//! was.
pub mod counter;
pub mod error;
pub mod exchange;
pub mod key;
pub mod proposal;
pub mod registry;
pub mod treasury;

pub use counter::SequenceCounter;
pub use error::VoteError;
pub use exchange::{buy_tokens, CollateralAccount, MintAccount, PurchaseAccounts, PurchaseError, TokenAccount};
pub use key::Key;
pub use proposal::{cast_vote, create_proposal, declare_winner, Proposal, ProposalStatus};
pub use treasury::{initialize_treasury, TreasuryConfig};
pub use registry::{VoteRecord, VoterRegistry};
