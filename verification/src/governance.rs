//! The governance engine: the store of proposals, the configuration, and the
//! entry points that create, vote on, cancel and execute proposals.
//!
//! [`DaoProposalView`] is the engine as a mathematical value, and its spec
//! functions are the state machine: each says, for one entry point, which
//! calls are rejected with which error and what an accepted call leaves
//! behind. The executable [`DaoProposal`] is proved to follow it. A rejected
//! call changes nothing.
//!
//! The engine reads nothing from its host by itself. The caller's identity,
//! the current block height, the total supply of voting power, a member's
//! voting weight and the outcome of a fee transfer or of a dispatch are
//! arguments of the entry points.

use vstd::prelude::*;
use crate::account::AccountId;
use crate::entity::FeeDemand;
use crate::entity::GovernanceError;
use crate::entity::Limit;
use crate::entity::ProposalCreated;
use crate::entity::ProposalState;
use crate::entity::Transaction;
use crate::entity::TransactionView;
use crate::entity::VoteEffective;
use crate::laws::law_cancel_preserves_history;
use crate::laws::law_cast_vote_preserves_history;
use crate::laws::law_configuration_preserves_history;
use crate::laws::law_created_proposal_is_next_and_pending;
use crate::laws::law_exec_preserves_history;
use crate::laws::law_public_vote_preserves_history;
use crate::proposal::Proposal;
use crate::proposal::ProposalView;

verus! {

/// Blocks between the creation of a proposal and the start of voting, as
/// configured at construction.
pub const DEFAULT_VOTING_DELAY: u32 = 1;

/// Blocks for which voting stays open, as configured at construction: three
/// days of blocks.
pub const DEFAULT_VOTING_PERIOD: u32 = 259200;

/// The governance engine as a mathematical value.
pub struct DaoProposalView {
    pub creator: AccountId,
    pub owner: AccountId,
    /// The proposals by identifier.
    pub proposals: Map<u64, ProposalView>,
    pub voting_delay: u32,
    pub voting_period: u32,
    pub proposal_length: u64,
    pub erc20_addr: AccountId,
    pub limit: Limit,
    pub vote_effective: VoteEffective,
}

impl DaoProposalView {
    /// The identifiers in use are `1..=proposal_length`, each proposal is
    /// stored under its own identifier, and each is well formed.
    pub open spec fn wf(self) -> bool {
        &&& forall|id: u64| #[trigger]
            self.proposals.dom().contains(id) <==> 1 <= id <= self.proposal_length
        &&& forall|id: u64| #[trigger]
            self.proposals.dom().contains(id) ==> self.proposals[id].proposal_id == id
                && self.proposals[id].wf()
    }

    /// Whether a proposal has the identifier `proposal_id`.
    pub open spec fn has(self, proposal_id: u64) -> bool {
        self.proposals.dom().contains(proposal_id)
    }

    /// The engine as it is constructed: no proposal, no fee, no threshold.
    pub open spec fn initial(
        creator: AccountId,
        erc20_addr: AccountId,
        caller: AccountId,
    ) -> DaoProposalView {
        DaoProposalView {
            creator,
            owner: caller,
            proposals: Map::empty(),
            voting_delay: DEFAULT_VOTING_DELAY,
            voting_period: DEFAULT_VOTING_PERIOD,
            proposal_length: 0,
            erc20_addr,
            limit: Limit { fee_open: false, fee_number: 1, fee_token: AccountId::zero() },
            vote_effective: VoteEffective {
                category: 0,
                vote_scale: 0,
                entrust_scale: 0,
                support_scale: 0,
            },
        }
    }

    /// Whether `later` can be this engine at a later time: the accounts and
    /// the voting periods fixed at construction are the same, no proposal
    /// has gone, and each proposal has evolved as
    /// [`ProposalView::evolves_to`] allows.
    pub open spec fn evolves_to(self, later: DaoProposalView) -> bool {
        &&& later.creator == self.creator
        &&& later.owner == self.owner
        &&& later.erc20_addr == self.erc20_addr
        &&& later.voting_delay == self.voting_delay
        &&& later.voting_period == self.voting_period
        &&& self.proposal_length <= later.proposal_length
        &&& forall|id: u64| #[trigger]
            self.has(id) ==> later.has(id) && self.proposals[id].evolves_to(later.proposals[id])
    }

    /// The engine with the proposal `proposal_id` replaced by the outcome of
    /// an operation on it, or the error of that operation.
    pub open spec fn revise(
        self,
        proposal_id: u64,
        outcome: Result<ProposalView, GovernanceError>,
    ) -> Result<DaoProposalView, GovernanceError> {
        match outcome {
            Ok(proposal) => Ok(
                DaoProposalView { proposals: self.proposals.insert(proposal_id, proposal), ..self },
            ),
            Err(e) => Err(e),
        }
    }

    /// Whether a call that `outcome` describes, made on `self`, may leave
    /// `post` behind and return `result`: an accepted call leaves the next
    /// value, a rejected call leaves `self` and returns the error.
    pub open spec fn follows(
        self,
        outcome: Result<DaoProposalView, GovernanceError>,
        post: DaoProposalView,
        result: Result<(), GovernanceError>,
    ) -> bool {
        match outcome {
            Ok(next) => result is Ok && post == next,
            Err(e) => result == Err::<(), GovernanceError>(e) && post == self,
        }
    }

    /// Replacing the restriction on proposal creation: only the creator may.
    pub open spec fn set_permission(
        self,
        limit: Limit,
        caller: AccountId,
    ) -> Result<DaoProposalView, GovernanceError> {
        if caller != self.creator {
            Err(GovernanceError::Unauthorized)
        } else {
            Ok(DaoProposalView { limit, ..self })
        }
    }

    /// Replacing the thresholds: only the creator may.
    pub open spec fn set_vote_effective(
        self,
        vote_effective: VoteEffective,
        caller: AccountId,
    ) -> Result<DaoProposalView, GovernanceError> {
        if caller != self.creator {
            Err(GovernanceError::Unauthorized)
        } else {
            Ok(DaoProposalView { vote_effective, ..self })
        }
    }

    /// What must be collected from `caller` before a proposal with the given
    /// window can be created at `current_block`: nothing, or the fee, which
    /// goes to the treasury at the zero identity. A window that does not
    /// start after the current block or does not end after it starts is
    /// rejected, and so is a proposal for which no identifier is left.
    pub open spec fn fee_demand(
        self,
        start_block: u32,
        end_block: u32,
        caller: AccountId,
        current_block: u32,
    ) -> Result<Option<FeeDemand>, GovernanceError> {
        if !(current_block < start_block && start_block < end_block) {
            Err(GovernanceError::InvalidWindow)
        } else if self.proposal_length == u64::MAX {
            Err(GovernanceError::ArithmeticOverflow)
        } else if self.limit.fee_open {
            Ok(
                Some(
                    FeeDemand {
                        token: self.limit.fee_token,
                        from: caller,
                        to: AccountId::zero(),
                        amount: self.limit.fee_number,
                    },
                ),
            )
        } else {
            Ok(None)
        }
    }

    /// Creating a proposal: rejected as [`Self::fee_demand`] says, and when a
    /// fee is due and was not paid; otherwise the proposal gets the next
    /// identifier and is stored as created.
    pub open spec fn propose(
        self,
        title: Seq<char>,
        desc: Seq<char>,
        category: u32,
        start_block: u32,
        end_block: u32,
        transaction: TransactionView,
        publicity_delay: u32,
        caller: AccountId,
        current_block: u32,
        fee_paid: bool,
    ) -> Result<DaoProposalView, GovernanceError> {
        match self.fee_demand(start_block, end_block, caller, current_block) {
            Err(e) => Err(e),
            Ok(demand) => if demand is Some && !fee_paid {
                Err(GovernanceError::FeePaymentFailed)
            } else {
                let proposal_id = (self.proposal_length + 1) as u64;
                Ok(
                    DaoProposalView {
                        proposal_length: proposal_id,
                        proposals: self.proposals.insert(
                            proposal_id,
                            ProposalView::created(
                                proposal_id,
                                caller,
                                title,
                                desc,
                                category,
                                start_block,
                                end_block,
                                transaction,
                                publicity_delay,
                            ),
                        ),
                        ..self
                    },
                )
            },
        }
    }

    /// The lifecycle state of the proposal `proposal_id`.
    pub open spec fn state(
        self,
        proposal_id: u64,
        current_block: u32,
        total_supply: u128,
    ) -> Result<ProposalState, GovernanceError> {
        if !self.has(proposal_id) {
            Err(GovernanceError::NotFound)
        } else {
            Ok(
                self.proposals[proposal_id].state(
                    current_block,
                    self.vote_effective,
                    total_supply,
                ),
            )
        }
    }

    /// Canceling the proposal `proposal_id`.
    pub open spec fn cancel(
        self,
        proposal_id: u64,
        caller: AccountId,
        current_block: u32,
        total_supply: u128,
    ) -> Result<DaoProposalView, GovernanceError> {
        if !self.has(proposal_id) {
            Err(GovernanceError::NotFound)
        } else {
            self.revise(
                proposal_id,
                self.proposals[proposal_id].cancel(
                    caller,
                    current_block,
                    self.vote_effective,
                    total_supply,
                ),
            )
        }
    }

    /// The action to dispatch for the proposal `proposal_id`: handed out
    /// only while the proposal is queued.
    pub open spec fn exec_action(
        self,
        proposal_id: u64,
        current_block: u32,
        total_supply: u128,
    ) -> Result<TransactionView, GovernanceError> {
        if !self.has(proposal_id) {
            Err(GovernanceError::NotFound)
        } else if self.proposals[proposal_id].state(
            current_block,
            self.vote_effective,
            total_supply,
        ) != ProposalState::Queued {
            Err(GovernanceError::NotQueued)
        } else {
            Ok(self.proposals[proposal_id].transaction)
        }
    }

    /// Completing the execution of the proposal `proposal_id`, given whether
    /// its action was dispatched.
    pub open spec fn exec(
        self,
        proposal_id: u64,
        current_block: u32,
        total_supply: u128,
        dispatched: bool,
    ) -> Result<DaoProposalView, GovernanceError> {
        if !self.has(proposal_id) {
            Err(GovernanceError::NotFound)
        } else {
            self.revise(
                proposal_id,
                self.proposals[proposal_id].exec(
                    dispatched,
                    current_block,
                    self.vote_effective,
                    total_supply,
                ),
            )
        }
    }

    /// A publicity vote of the given weight on the proposal `proposal_id`.
    pub open spec fn public_vote(
        self,
        proposal_id: u64,
        current_block: u32,
        weight: u128,
    ) -> Result<DaoProposalView, GovernanceError> {
        if !self.has(proposal_id) {
            Err(GovernanceError::NotFound)
        } else {
            self.revise(proposal_id, self.proposals[proposal_id].public_vote(weight, current_block))
        }
    }

    /// A vote by `caller`, of the given weight, on the proposal `proposal_id`.
    pub open spec fn cast_vote(
        self,
        proposal_id: u64,
        support: bool,
        caller: AccountId,
        current_block: u32,
        total_supply: u128,
        weight: u128,
    ) -> Result<DaoProposalView, GovernanceError> {
        if !self.has(proposal_id) {
            Err(GovernanceError::NotFound)
        } else {
            self.revise(
                proposal_id,
                self.proposals[proposal_id].cast_vote(
                    caller,
                    support,
                    weight,
                    current_block,
                    self.vote_effective,
                    total_supply,
                ),
            )
        }
    }
}

/// The governance engine: the configuration and every proposal, each stored
/// once, under its identifier.
#[derive(Debug)]
pub struct DaoProposal {
    creator: AccountId,
    owner: AccountId,
    /// The proposal with identifier `id` is at position `id - 1`.
    proposals: Vec<Proposal>,
    voting_delay: u32,
    voting_period: u32,
    proposal_length: u64,
    erc20_addr: AccountId,
    limit: Limit,
    vote_effective: VoteEffective,
}

impl View for DaoProposal {
    type V = DaoProposalView;

    closed spec fn view(&self) -> DaoProposalView {
        DaoProposalView {
            creator: self.creator,
            owner: self.owner,
            proposals: Map::new(
                |id: u64| 1 <= id <= self.proposals@.len(),
                |id: u64| self.proposals@[id - 1]@,
            ),
            voting_delay: self.voting_delay,
            voting_period: self.voting_period,
            proposal_length: self.proposal_length,
            erc20_addr: self.erc20_addr,
            limit: self.limit,
            vote_effective: self.vote_effective,
        }
    }
}

impl DaoProposal {
    /// The engine is well formed.
    pub open spec fn wf(&self) -> bool {
        self@.wf()
    }

    /// In a well-formed engine the counter is the number of stored proposals.
    proof fn lemma_counter_is_length(&self)
        requires
            self.wf(),
        ensures
            self.proposal_length == self.proposals@.len(),
    {
        let count = self.proposals.len();
        if count > 0 {
            assert(self@.has(count as u64));
        }
        if self.proposal_length > 0 {
            assert(self@.has(self.proposal_length));
        }
    }

    /// A new engine, constructed by `caller`, that reads voting power from
    /// the token `erc20_addr`.
    pub fn new(creator: AccountId, erc20_addr: AccountId, caller: AccountId) -> (dao: DaoProposal)
        ensures
            dao.wf(),
            dao@ == DaoProposalView::initial(creator, erc20_addr, caller),
    {
        let dao = DaoProposal {
            creator,
            owner: caller,
            proposals: Vec::new(),
            voting_delay: DEFAULT_VOTING_DELAY,
            voting_period: DEFAULT_VOTING_PERIOD,
            proposal_length: 0,
            erc20_addr,
            limit: Limit { fee_open: false, fee_number: 1, fee_token: AccountId::default() },
            vote_effective: VoteEffective {
                category: 0,
                vote_scale: 0,
                entrust_scale: 0,
                support_scale: 0,
            },
        };
        assert(dao@.proposals =~= Map::empty());
        dao
    }

    /// The position of the proposal `proposal_id`, if there is one.
    fn slot(&self, proposal_id: u64) -> (found: Option<usize>)
        requires
            self.wf(),
        ensures
            match found {
                Some(i) => self@.has(proposal_id) && i == proposal_id - 1 && i
                    < self.proposals@.len(),
                None => !self@.has(proposal_id),
            },
    {
        let count: usize = self.proposals.len();
        proof {
            self.lemma_counter_is_length();
        }
        if 1 <= proposal_id && proposal_id <= self.proposal_length {
            Some((proposal_id - 1) as usize)
        } else {
            None
        }
    }

    /// Replaces the restriction on proposal creation, if `caller` is the creator.
    pub fn set_permission(
        &mut self,
        limit: Limit,
        caller: AccountId,
    ) -> (result: Result<(), GovernanceError>)
        requires
            old(self).wf(),
        ensures
            final(self).wf(),
            old(self)@.evolves_to(final(self)@),
            old(self)@.follows(old(self)@.set_permission(limit, caller), final(self)@, result),
    {
        if caller != self.creator {
            return Err(GovernanceError::Unauthorized);
        }
        self.limit = limit;
        proof {
            law_configuration_preserves_history(old(self)@, limit, self.vote_effective, caller);
        }
        Ok(())
    }

    /// Replaces the thresholds, if `caller` is the creator.
    pub fn set_vote_effective(
        &mut self,
        vote_effective: VoteEffective,
        caller: AccountId,
    ) -> (result: Result<(), GovernanceError>)
        requires
            old(self).wf(),
        ensures
            final(self).wf(),
            old(self)@.evolves_to(final(self)@),
            old(self)@.follows(
                old(self)@.set_vote_effective(vote_effective, caller),
                final(self)@,
                result,
            ),
    {
        if caller != self.creator {
            return Err(GovernanceError::Unauthorized);
        }
        self.vote_effective = vote_effective;
        proof {
            law_configuration_preserves_history(old(self)@, self.limit, vote_effective, caller);
        }
        Ok(())
    }

    /// Says what must be collected from `caller` before [`Self::propose`] can
    /// create a proposal with the given window: nothing, or the fee. The
    /// host collects the fee and reports the outcome to [`Self::propose`].
    pub fn fee_demand(
        &self,
        start_block: u32,
        end_block: u32,
        caller: AccountId,
        current_block: u32,
    ) -> (result: Result<Option<FeeDemand>, GovernanceError>)
        requires
            self.wf(),
        ensures
            result == self@.fee_demand(start_block, end_block, caller, current_block),
    {
        if !(current_block < start_block && start_block < end_block) {
            Err(GovernanceError::InvalidWindow)
        } else if self.proposal_length == u64::MAX {
            Err(GovernanceError::ArithmeticOverflow)
        } else if self.limit.fee_open {
            Ok(
                Some(
                    FeeDemand {
                        token: self.limit.fee_token,
                        from: caller,
                        to: AccountId::default(),
                        amount: self.limit.fee_number,
                    },
                ),
            )
        } else {
            Ok(None)
        }
    }

    /// Creates a proposal owned by `caller` and returns the notice of its
    /// creation, which carries the new identifier.
    ///
    /// `fee_paid` says whether the fee that [`Self::fee_demand`] asked for
    /// was collected; it is not looked at when no fee is due.
    pub fn propose(
        &mut self,
        title: String,
        desc: String,
        category: u32,
        start_block: u32,
        end_block: u32,
        transaction: Transaction,
        publicity_delay: u32,
        caller: AccountId,
        current_block: u32,
        fee_paid: bool,
    ) -> (result: Result<ProposalCreated, GovernanceError>)
        requires
            old(self).wf(),
        ensures
            final(self).wf(),
            old(self)@.evolves_to(final(self)@),
            match old(self)@.propose(
                title@,
                desc@,
                category,
                start_block,
                end_block,
                transaction@,
                publicity_delay,
                caller,
                current_block,
                fee_paid,
            ) {
                Ok(next) => final(self)@ == next && result == Ok::<
                    ProposalCreated,
                    GovernanceError,
                >(ProposalCreated { proposal_id: next.proposal_length, creator: caller }),
                Err(e) => final(self)@ == old(self)@ && result == Err::<
                    ProposalCreated,
                    GovernanceError,
                >(e),
            },
    {
        match self.fee_demand(start_block, end_block, caller, current_block) {
            Err(e) => {
                return Err(e);
            },
            Ok(demand) => {
                if demand.is_some() && !fee_paid {
                    return Err(GovernanceError::FeePaymentFailed);
                }
            },
        }
        proof {
            self.lemma_counter_is_length();
        }
        let proposal_id: u64 = self.proposal_length + 1;
        let proposal = Proposal::new(
            proposal_id,
            caller,
            title,
            desc,
            category,
            start_block,
            end_block,
            transaction,
            publicity_delay,
        );
        self.proposals.push(proposal);
        self.proposal_length = proposal_id;
        proof {
            let pre = old(self)@;
            let next = pre.propose(
                title@,
                desc@,
                category,
                start_block,
                end_block,
                transaction@,
                publicity_delay,
                caller,
                current_block,
                fee_paid,
            )->Ok_0;
            assert(self@.proposals =~= next.proposals);
            law_created_proposal_is_next_and_pending(
                pre,
                title@,
                desc@,
                category,
                start_block,
                end_block,
                transaction@,
                publicity_delay,
                caller,
                current_block,
                fee_paid,
                0,
            );
        }
        Ok(ProposalCreated { proposal_id, creator: caller })
    }

    /// The lifecycle state of the proposal `proposal_id` at `current_block`,
    /// with `total_supply` of voting power in existence.
    pub fn state(
        &self,
        proposal_id: u64,
        current_block: u32,
        total_supply: u128,
    ) -> (result: Result<ProposalState, GovernanceError>)
        requires
            self.wf(),
        ensures
            result == self@.state(proposal_id, current_block, total_supply),
    {
        match self.slot(proposal_id) {
            None => Err(GovernanceError::NotFound),
            Some(i) => Ok(
                self.proposals[i].state(current_block, &self.vote_effective, total_supply),
            ),
        }
    }

    /// Cancels the proposal `proposal_id` on behalf of `caller`.
    pub fn cancel(
        &mut self,
        proposal_id: u64,
        caller: AccountId,
        current_block: u32,
        total_supply: u128,
    ) -> (result: Result<(), GovernanceError>)
        requires
            old(self).wf(),
        ensures
            final(self).wf(),
            old(self)@.evolves_to(final(self)@),
            old(self)@.follows(
                old(self)@.cancel(proposal_id, caller, current_block, total_supply),
                final(self)@,
                result,
            ),
    {
        match self.slot(proposal_id) {
            None => Err(GovernanceError::NotFound),
            Some(i) => {
                let effective = self.vote_effective;
                let proposal = &mut self.proposals[i];
                let result = proposal.cancel(caller, current_block, &effective, total_supply);
                proof {
                    self.lemma_revised(old(self), proposal_id);
                    if result is Ok {
                        law_cancel_preserves_history(
                            old(self)@,
                            proposal_id,
                            caller,
                            current_block,
                            total_supply,
                        );
                    }
                }
                result
            },
        }
    }

    /// The action that the host must dispatch to execute the proposal
    /// `proposal_id`. The host dispatches it and reports the outcome to
    /// [`Self::exec`].
    pub fn exec_action(
        &self,
        proposal_id: u64,
        current_block: u32,
        total_supply: u128,
    ) -> (result: Result<Transaction, GovernanceError>)
        requires
            self.wf(),
        ensures
            match self@.exec_action(proposal_id, current_block, total_supply) {
                Ok(action) => result is Ok && result->Ok_0@ == action,
                Err(e) => result is Err && result->Err_0 == e,
            },
    {
        match self.slot(proposal_id) {
            None => Err(GovernanceError::NotFound),
            Some(i) => {
                let proposal = &self.proposals[i];
                if proposal.state(current_block, &self.vote_effective, total_supply)
                    != ProposalState::Queued {
                    Err(GovernanceError::NotQueued)
                } else {
                    Ok(proposal.transaction().clone())
                }
            },
        }
    }

    /// Completes the execution of the proposal `proposal_id`: marks it
    /// executed if it is queued and `dispatched` says that its action was
    /// dispatched.
    pub fn exec(
        &mut self,
        proposal_id: u64,
        current_block: u32,
        total_supply: u128,
        dispatched: bool,
    ) -> (result: Result<(), GovernanceError>)
        requires
            old(self).wf(),
        ensures
            final(self).wf(),
            old(self)@.evolves_to(final(self)@),
            old(self)@.follows(
                old(self)@.exec(proposal_id, current_block, total_supply, dispatched),
                final(self)@,
                result,
            ),
    {
        match self.slot(proposal_id) {
            None => Err(GovernanceError::NotFound),
            Some(i) => {
                let effective = self.vote_effective;
                let proposal = &mut self.proposals[i];
                let result = proposal.exec(dispatched, current_block, &effective, total_supply);
                proof {
                    self.lemma_revised(old(self), proposal_id);
                    if result is Ok {
                        law_exec_preserves_history(
                            old(self)@,
                            proposal_id,
                            current_block,
                            total_supply,
                            dispatched,
                        );
                    }
                }
                result
            },
        }
    }

    /// Counts a publicity vote of the given weight on the proposal
    /// `proposal_id`: inside the publicity window of a proposal that is not
    /// canceled, the weight replaces the publicity tally.
    pub fn public_vote(
        &mut self,
        proposal_id: u64,
        current_block: u32,
        weight: u128,
    ) -> (result: Result<(), GovernanceError>)
        requires
            old(self).wf(),
        ensures
            final(self).wf(),
            old(self)@.evolves_to(final(self)@),
            old(self)@.follows(
                old(self)@.public_vote(proposal_id, current_block, weight),
                final(self)@,
                result,
            ),
    {
        match self.slot(proposal_id) {
            None => Err(GovernanceError::NotFound),
            Some(i) => {
                let proposal = &mut self.proposals[i];
                let result = proposal.public_vote(weight, current_block);
                proof {
                    self.lemma_revised(old(self), proposal_id);
                    if result is Ok {
                        law_public_vote_preserves_history(
                            old(self)@,
                            proposal_id,
                            current_block,
                            weight,
                        );
                    }
                }
                result
            },
        }
    }

    /// Counts the vote of `caller`, of the given weight, on the proposal
    /// `proposal_id`.
    pub fn cast_vote(
        &mut self,
        proposal_id: u64,
        support: bool,
        caller: AccountId,
        current_block: u32,
        total_supply: u128,
        weight: u128,
    ) -> (result: Result<(), GovernanceError>)
        requires
            old(self).wf(),
        ensures
            final(self).wf(),
            old(self)@.evolves_to(final(self)@),
            old(self)@.follows(
                old(self)@.cast_vote(
                    proposal_id,
                    support,
                    caller,
                    current_block,
                    total_supply,
                    weight,
                ),
                final(self)@,
                result,
            ),
    {
        match self.slot(proposal_id) {
            None => Err(GovernanceError::NotFound),
            Some(i) => {
                let effective = self.vote_effective;
                let proposal = &mut self.proposals[i];
                let result = proposal.cast_vote(
                    caller,
                    support,
                    weight,
                    current_block,
                    &effective,
                    total_supply,
                );
                proof {
                    self.lemma_revised(old(self), proposal_id);
                    if result is Ok {
                        law_cast_vote_preserves_history(
                            old(self)@,
                            proposal_id,
                            support,
                            caller,
                            current_block,
                            total_supply,
                            weight,
                        );
                    }
                }
                result
            },
        }
    }

    /// Every proposal, in the order of creation.
    pub fn list_proposals(&self) -> (list: Vec<Proposal>)
        requires
            self.wf(),
        ensures
            list@.len() == self@.proposal_length,
            forall|i: int|
                0 <= i < list@.len() ==> (#[trigger] list@[i])@ == self@.proposals[(i + 1) as u64]
                    && list@[i].wf(),
    {
        proof {
            self.lemma_counter_is_length();
        }
        let mut list: Vec<Proposal> = Vec::new();
        let mut i: usize = 0;
        while i < self.proposals.len()
            invariant
                self.wf(),
                i <= self.proposals@.len(),
                list@.len() == i,
                forall|j: int|
                    0 <= j < i ==> (#[trigger] list@[j])@ == self.proposals@[j]@ && list@[j].wf(),
            decreases self.proposals@.len() - i,
        {
            assert(self@.has((i + 1) as u64));
            list.push(self.proposals[i].clone());
            i += 1;
        }
        list
    }

    /// The proposal `proposal_id` as it is stored now.
    pub fn get_proposal_by_id(
        &self,
        proposal_id: u64,
    ) -> (result: Result<Proposal, GovernanceError>)
        requires
            self.wf(),
        ensures
            match result {
                Ok(proposal) => self@.has(proposal_id) && proposal@ == self@.proposals[proposal_id]
                    && proposal.wf(),
                Err(e) => !self@.has(proposal_id) && e == GovernanceError::NotFound,
            },
    {
        match self.slot(proposal_id) {
            None => Err(GovernanceError::NotFound),
            Some(i) => Ok(self.proposals[i].clone()),
        }
    }

    /// The account that may change the configuration.
    pub fn creator(&self) -> (creator: AccountId)
        ensures
            creator == self@.creator,
    {
        self.creator
    }

    /// The account that constructed the engine.
    pub fn owner(&self) -> (owner: AccountId)
        ensures
            owner == self@.owner,
    {
        self.owner
    }

    /// The configured number of blocks before voting starts.
    pub fn voting_delay(&self) -> (voting_delay: u32)
        ensures
            voting_delay == self@.voting_delay,
    {
        self.voting_delay
    }

    /// The configured number of blocks for which voting stays open.
    pub fn voting_period(&self) -> (voting_period: u32)
        ensures
            voting_period == self@.voting_period,
    {
        self.voting_period
    }

    /// The number of proposals created so far, which is also the latest
    /// identifier.
    pub fn proposal_length(&self) -> (proposal_length: u64)
        ensures
            proposal_length == self@.proposal_length,
    {
        self.proposal_length
    }

    /// The token from which voting power is read.
    pub fn erc20_addr(&self) -> (erc20_addr: AccountId)
        ensures
            erc20_addr == self@.erc20_addr,
    {
        self.erc20_addr
    }

    /// The restriction on proposal creation.
    pub fn limit(&self) -> (limit: Limit)
        ensures
            limit == self@.limit,
    {
        self.limit
    }

    /// The thresholds in force.
    pub fn vote_effective(&self) -> (vote_effective: VoteEffective)
        ensures
            vote_effective == self@.vote_effective,
    {
        self.vote_effective
    }

    /// After one stored proposal was replaced by a well-formed proposal with
    /// the same identifier, the engine is well formed and its view is the
    /// old view with that proposal replaced.
    proof fn lemma_revised(&self, pre: &DaoProposal, proposal_id: u64)
        requires
            pre.wf(),
            pre@.has(proposal_id),
            self.proposals@.len() == pre.proposals@.len(),
            forall|i: int|
                0 <= i < pre.proposals@.len() && i != proposal_id - 1 ==> self.proposals@[i]
                    == pre.proposals@[i],
            self.proposals@[proposal_id - 1].wf(),
            self.proposals@[proposal_id - 1]@.proposal_id == proposal_id,
            self.creator == pre.creator,
            self.owner == pre.owner,
            self.voting_delay == pre.voting_delay,
            self.voting_period == pre.voting_period,
            self.proposal_length == pre.proposal_length,
            self.erc20_addr == pre.erc20_addr,
            self.limit == pre.limit,
            self.vote_effective == pre.vote_effective,
        ensures
            self.wf(),
            self@ == (DaoProposalView {
                proposals: pre@.proposals.insert(proposal_id, self.proposals@[proposal_id - 1]@),
                ..pre@
            }),
            self.proposals@[proposal_id - 1]@ == pre@.proposals[proposal_id] ==> self@ == pre@,
    {
        let revised = pre@.proposals.insert(proposal_id, self.proposals@[proposal_id - 1]@);
        assert(self@.proposals =~= revised);
        if self.proposals@[proposal_id - 1]@ == pre@.proposals[proposal_id] {
            assert(revised =~= pre@.proposals);
        }
    }
}

} // verus!
