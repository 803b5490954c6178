//! The records that governance keeps and hands out.

use vstd::prelude::*;
use crate::account::AccountId;

verus! {

/// Amount of the chain's native balance.
pub type Balance = u128;

/// Category whose threshold is a quorum: a share of the total supply must vote.
pub const CATEGORY_QUORUM: u32 = 1;

/// Category whose threshold is support: a share of the votes cast must be in favour.
pub const CATEGORY_SUPPORT: u32 = 3;

/// What one member voted on one proposal.
///
/// A member who has not voted has the receipt [`Receipt::absent`]. A receipt
/// is written once, when the member votes, and never changes afterwards.
#[derive(Clone, Copy, Debug, PartialEq, Eq, Structural)]
pub struct Receipt {
    /// Whether the member has voted.
    pub has_voted: bool,
    /// The side chosen: `true` in favour, `false` against.
    pub support: bool,
    /// The voting weight that was counted.
    pub votes: u128,
}

impl Receipt {
    /// The receipt of a member who has not voted.
    pub open spec fn absent() -> Receipt {
        Receipt { has_voted: false, support: false, votes: 0 }
    }

    /// The receipt written when a member votes `support` with weight `votes`.
    pub open spec fn cast(support: bool, votes: u128) -> Receipt {
        Receipt { has_voted: true, support, votes }
    }
}

impl Default for Receipt {
    fn default() -> (receipt: Receipt)
        ensures
            receipt == Receipt::absent(),
    {
        Receipt { has_voted: false, support: false, votes: 0 }
    }
}

/// The restriction on creating proposals.
#[derive(Clone, Copy, Debug, PartialEq, Eq)]
pub struct Limit {
    /// Whether a fee is charged for each new proposal.
    pub fee_open: bool,
    /// The amount charged.
    pub fee_number: u128,
    /// The token in which the fee is paid.
    pub fee_token: AccountId,
}

/// The thresholds a proposal must pass once its voting window has closed.
///
/// `category` selects the threshold in force: [`CATEGORY_QUORUM`] checks
/// `vote_scale`, [`CATEGORY_SUPPORT`] checks `support_scale`, and any other
/// category checks nothing.
#[derive(Clone, Copy, Debug, PartialEq, Eq, Structural)]
pub struct VoteEffective {
    /// Which threshold is in force.
    pub category: u32,
    /// Percentage of the total supply that the votes cast must exceed.
    pub vote_scale: u128,
    /// Percentage reserved for weighting delegated votes.
    pub entrust_scale: u128,
    /// Percentage of the votes cast that the votes in favour must exceed.
    pub support_scale: u128,
}

/// The call that a proposal asks for, dispatched once the proposal is queued.
#[derive(Debug, PartialEq, Eq)]
pub struct Transaction {
    /// The contract that is called.
    pub callee: AccountId,
    /// The selector of the function that is called.
    pub selector: [u8; 4],
    /// The encoded arguments of the call.
    pub input: Vec<u8>,
    /// The balance transferred with the call.
    pub transferred_value: Balance,
    /// The most gas the call may use.
    pub gas_limit: u64,
}

/// A [`Transaction`] as a mathematical value.
pub struct TransactionView {
    pub callee: AccountId,
    pub selector: [u8; 4],
    pub input: Seq<u8>,
    pub transferred_value: Balance,
    pub gas_limit: u64,
}

impl View for Transaction {
    type V = TransactionView;

    open spec fn view(&self) -> TransactionView {
        TransactionView {
            callee: self.callee,
            selector: self.selector,
            input: self.input@,
            transferred_value: self.transferred_value,
            gas_limit: self.gas_limit,
        }
    }
}

impl Clone for Transaction {
    fn clone(&self) -> (copy: Transaction)
        ensures
            copy@ == self@,
    {
        Transaction {
            callee: self.callee,
            selector: self.selector,
            input: self.input.clone(),
            transferred_value: self.transferred_value,
            gas_limit: self.gas_limit,
        }
    }
}

/// The notice that a proposal was created.
#[derive(Clone, Copy, Debug, PartialEq, Eq)]
pub struct ProposalCreated {
    /// The identifier given to the proposal.
    pub proposal_id: u64,
    /// The member who created it.
    pub creator: AccountId,
}

/// The fee that must be collected before a proposal is created.
#[derive(Clone, Copy, Debug, PartialEq, Eq)]
pub struct FeeDemand {
    /// The token in which the fee is paid.
    pub token: AccountId,
    /// The member who pays: the proposer.
    pub from: AccountId,
    /// The treasury that receives the fee: the zero identity.
    pub to: AccountId,
    /// The amount to transfer.
    pub amount: u128,
}

/// Where a proposal stands. Never stored: always derived from the proposal,
/// the block height, the thresholds and the total supply.
#[derive(Clone, Copy, Debug, PartialEq, Eq, Structural)]
pub enum ProposalState {
    Canceled,
    Pending,
    Active,
    Defeated,
    Succeeded,
    Executed,
    Expired,
    Publicity,
    Queued,
}

/// Why a call was rejected. A rejected call changes nothing.
#[derive(Clone, Copy, Debug, PartialEq, Eq, Structural)]
pub enum GovernanceError {
    /// The voting window does not start after the current block, or does not
    /// end after it starts.
    InvalidWindow,
    /// The caller may not change the configuration.
    Unauthorized,
    /// The caller does not own the proposal.
    NotOwner,
    /// The proposal has been executed.
    AlreadyExecuted,
    /// The proposal is not queued for execution.
    NotQueued,
    /// The proposal is not open for voting, or is canceled and so closed
    /// to publicity votes too.
    VotingClosed,
    /// The caller has voted on the proposal before.
    AlreadyVoted,
    /// The block does not lie in the proposal's publicity window.
    NotInPublicityWindow,
    /// The fee for creating a proposal was not paid.
    FeePaymentFailed,
    /// The proposal's action could not be dispatched.
    ExecutorDispatchFailed,
    /// No proposal has the given identifier.
    NotFound,
    /// A tally or a counter would exceed its range.
    ArithmeticOverflow,
}

} // verus!
