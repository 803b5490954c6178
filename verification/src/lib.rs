//! Proposal governance: proposals are submitted by members, voted on during a
//! block-height window, checked against quorum and support thresholds, shown
//! for a publicity period and finally queued for the dispatch of their action.
//!
//! The engine is a deterministic state machine. Everything it needs from its
//! host (the caller's identity, the block height, voting weights, the total
//! supply of voting power, the outcome of a fee transfer or of a dispatch) is
//! handed in as a plain value, so every rule is stated and proved over those
//! values.
//!
//! - [`account`]: identities.
//! - [`entity`]: the records that are kept and handed out, and the errors.
//! - [`threshold`]: the quorum and support arithmetic.
//! - [`proposal`]: one proposal, its derived state and its transitions.
//! - [`governance`]: the engine that stores the proposals.
//! - [`laws`]: theorems about the engine.

pub mod account;
pub mod entity;
pub mod governance;
pub mod laws;
pub mod proposal;
pub mod threshold;

pub use account::AccountId;
pub use entity::Balance;
pub use entity::FeeDemand;
pub use entity::GovernanceError;
pub use entity::Limit;
pub use entity::ProposalCreated;
pub use entity::ProposalState;
pub use entity::Receipt;
pub use entity::Transaction;
pub use entity::VoteEffective;
pub use entity::CATEGORY_QUORUM;
pub use entity::CATEGORY_SUPPORT;
pub use governance::DaoProposal;
pub use governance::DEFAULT_VOTING_DELAY;
pub use governance::DEFAULT_VOTING_PERIOD;
pub use proposal::Proposal;
pub use threshold::check_quorum;
pub use threshold::check_support;
