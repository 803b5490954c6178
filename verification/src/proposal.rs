//! A proposal: the record that is stored, the lifecycle state derived from
//! it, and the transitions the record can make.
//!
//! [`ProposalView`] is the proposal as a mathematical value. Its spec
//! functions say what the state is and what each operation does; the
//! executable [`Proposal`] is proved to do exactly that.

use vstd::prelude::*;
use crate::account::AccountId;
use crate::entity::GovernanceError;
use crate::entity::ProposalState;
use crate::entity::Receipt;
use crate::entity::Transaction;
use crate::entity::TransactionView;
use crate::entity::VoteEffective;
use crate::entity::CATEGORY_QUORUM;
use crate::entity::CATEGORY_SUPPORT;
use crate::threshold::check_quorum;
use crate::threshold::check_support;
use crate::threshold::quorum_failed;
use crate::threshold::support_failed;

verus! {

/// A proposal as a mathematical value.
pub struct ProposalView {
    pub proposal_id: u64,
    pub title: Seq<char>,
    pub desc: Seq<char>,
    pub category: u32,
    pub start_block: u32,
    pub end_block: u32,
    pub for_votes: u128,
    pub against_votes: u128,
    pub owner: AccountId,
    pub canceled: bool,
    pub executed: bool,
    /// The members who have voted, in the order of their votes.
    pub voters: Seq<AccountId>,
    /// The receipt of every member who has voted.
    pub receipts: Map<AccountId, Receipt>,
    pub transaction: TransactionView,
    pub publicity_votes: u128,
    pub publicity_delay: u32,
}

/// What a receipt counts for one side: its weight if it chose that side,
/// nothing otherwise.
pub open spec fn counted(receipt: Receipt, support: bool) -> nat {
    if receipt.support == support {
        receipt.votes as nat
    } else {
        0
    }
}

/// The weight that `voters` have put on one side, according to `receipts`.
pub open spec fn tally(
    voters: Seq<AccountId>,
    receipts: Map<AccountId, Receipt>,
    support: bool,
) -> nat
    decreases voters.len(),
{
    if voters.len() == 0 {
        0
    } else {
        tally(voters.drop_last(), receipts, support) + counted(receipts[voters.last()], support)
    }
}

impl ProposalView {
    /// The voting window is not empty; no member has voted twice; the
    /// receipts on record are those of the members who have voted, one each;
    /// and each tally is the sum of the weights on the receipts of its side.
    pub open spec fn wf(self) -> bool {
        &&& self.start_block < self.end_block
        &&& self.voters.no_duplicates()
        &&& forall|who: AccountId| #[trigger]
            self.receipts.dom().contains(who) <==> self.voters.contains(who)
        &&& forall|who: AccountId| #[trigger]
            self.receipts.dom().contains(who) ==> self.receipts[who].has_voted
        &&& self.for_votes == tally(self.voters, self.receipts, true)
        &&& self.against_votes == tally(self.voters, self.receipts, false)
    }

    /// A proposal as it is created: nothing tallied, nobody has voted, neither
    /// canceled nor executed.
    pub open spec fn created(
        proposal_id: u64,
        owner: AccountId,
        title: Seq<char>,
        desc: Seq<char>,
        category: u32,
        start_block: u32,
        end_block: u32,
        transaction: TransactionView,
        publicity_delay: u32,
    ) -> ProposalView {
        ProposalView {
            proposal_id,
            title,
            desc,
            category,
            start_block,
            end_block,
            for_votes: 0,
            against_votes: 0,
            owner,
            canceled: false,
            executed: false,
            voters: Seq::empty(),
            receipts: Map::empty(),
            transaction,
            publicity_votes: 0,
            publicity_delay,
        }
    }

    /// The receipt of `who`: the one on record, or the absent receipt.
    pub open spec fn receipt_of(self, who: AccountId) -> Receipt {
        if self.receipts.dom().contains(who) {
            self.receipts[who]
        } else {
            Receipt::absent()
        }
    }

    /// Whether the tally misses the threshold that `effective` puts in force.
    pub open spec fn threshold_failed(self, effective: VoteEffective, total_supply: u128) -> bool {
        if effective.category == CATEGORY_QUORUM {
            quorum_failed(
                self.for_votes as nat,
                self.against_votes as nat,
                total_supply as nat,
                effective.vote_scale as nat,
            )
        } else if effective.category == CATEGORY_SUPPORT {
            support_failed(
                self.for_votes as nat,
                self.against_votes as nat,
                effective.support_scale as nat,
            )
        } else {
            false
        }
    }

    /// Whether `current_block` lies after the voting window and before the
    /// end of the publicity delay.
    pub open spec fn in_publicity_window(self, current_block: u32) -> bool {
        self.end_block < current_block < self.end_block + self.publicity_delay
    }

    /// The lifecycle state. The first rule that applies decides.
    pub open spec fn state(
        self,
        current_block: u32,
        effective: VoteEffective,
        total_supply: u128,
    ) -> ProposalState {
        if self.canceled {
            ProposalState::Canceled
        } else if current_block <= self.start_block {
            ProposalState::Pending
        } else if current_block <= self.end_block {
            ProposalState::Active
        } else if self.threshold_failed(effective, total_supply) {
            ProposalState::Defeated
        } else if self.executed {
            ProposalState::Executed
        } else if self.in_publicity_window(current_block) {
            ProposalState::Publicity
        } else if self.publicity_votes > self.for_votes {
            ProposalState::Defeated
        } else {
            ProposalState::Queued
        }
    }

    /// Whether `later` can be this proposal at a later time: what was fixed
    /// at creation is the same, an executed proposal is still executed, a
    /// canceled proposal has not changed at all, no tally has shrunk, the
    /// members who had voted are still the first to have voted, and every
    /// receipt on record is still there, unchanged.
    pub open spec fn evolves_to(self, later: ProposalView) -> bool {
        &&& later.proposal_id == self.proposal_id
        &&& later.title == self.title
        &&& later.desc == self.desc
        &&& later.category == self.category
        &&& later.start_block == self.start_block
        &&& later.end_block == self.end_block
        &&& later.owner == self.owner
        &&& later.transaction == self.transaction
        &&& later.publicity_delay == self.publicity_delay
        &&& self.executed ==> later.executed
        &&& self.canceled ==> later == self
        &&& self.for_votes <= later.for_votes
        &&& self.against_votes <= later.against_votes
        &&& self.voters.is_prefix_of(later.voters)
        &&& forall|who: AccountId| #[trigger]
            self.receipts.dom().contains(who) ==> later.receipts.dom().contains(who)
                && later.receipts[who] == self.receipts[who]
    }

    /// The proposal after `caller` has voted `support` with `weight`.
    pub open spec fn with_vote(
        self,
        caller: AccountId,
        support: bool,
        weight: u128,
    ) -> ProposalView {
        ProposalView {
            for_votes: if support {
                (self.for_votes + weight) as u128
            } else {
                self.for_votes
            },
            against_votes: if support {
                self.against_votes
            } else {
                (self.against_votes + weight) as u128
            },
            voters: self.voters.push(caller),
            receipts: self.receipts.insert(caller, Receipt::cast(support, weight)),
            ..self
        }
    }

    /// A vote by `caller`: accepted while the proposal is active, once per
    /// member, and only if the tally stays in range.
    pub open spec fn cast_vote(
        self,
        caller: AccountId,
        support: bool,
        weight: u128,
        current_block: u32,
        effective: VoteEffective,
        total_supply: u128,
    ) -> Result<ProposalView, GovernanceError> {
        if self.state(current_block, effective, total_supply) != ProposalState::Active {
            Err(GovernanceError::VotingClosed)
        } else if self.receipts.dom().contains(caller) {
            Err(GovernanceError::AlreadyVoted)
        } else if support && self.for_votes + weight > u128::MAX {
            Err(GovernanceError::ArithmeticOverflow)
        } else if !support && self.against_votes + weight > u128::MAX {
            Err(GovernanceError::ArithmeticOverflow)
        } else {
            Ok(self.with_vote(caller, support, weight))
        }
    }

    /// A publicity vote: rejected with `NotInPublicityWindow` exactly when
    /// the block does not lie in the publicity window. Inside the window a
    /// canceled proposal, which is closed to every change, rejects the vote
    /// with `VotingClosed`; on any other proposal the caller's weight
    /// replaces the publicity tally, whatever the tallies and the thresholds
    /// are.
    pub open spec fn public_vote(
        self,
        weight: u128,
        current_block: u32,
    ) -> Result<ProposalView, GovernanceError> {
        if !self.in_publicity_window(current_block) {
            Err(GovernanceError::NotInPublicityWindow)
        } else if self.canceled {
            Err(GovernanceError::VotingClosed)
        } else {
            Ok(ProposalView { publicity_votes: weight, ..self })
        }
    }

    /// A cancellation: accepted from the owner unless the proposal counts as
    /// executed.
    pub open spec fn cancel(
        self,
        caller: AccountId,
        current_block: u32,
        effective: VoteEffective,
        total_supply: u128,
    ) -> Result<ProposalView, GovernanceError> {
        if self.state(current_block, effective, total_supply) == ProposalState::Executed {
            Err(GovernanceError::AlreadyExecuted)
        } else if caller != self.owner {
            Err(GovernanceError::NotOwner)
        } else {
            Ok(ProposalView { canceled: true, ..self })
        }
    }

    /// The completion of an execution: accepted while the proposal is queued,
    /// and only if its action was dispatched.
    pub open spec fn exec(
        self,
        dispatched: bool,
        current_block: u32,
        effective: VoteEffective,
        total_supply: u128,
    ) -> Result<ProposalView, GovernanceError> {
        if self.state(current_block, effective, total_supply) != ProposalState::Queued {
            Err(GovernanceError::NotQueued)
        } else if !dispatched {
            Err(GovernanceError::ExecutorDispatchFailed)
        } else {
            Ok(ProposalView { executed: true, ..self })
        }
    }
}

/// The receipt of a member who is not among `voters` does not count in their
/// tally.
pub proof fn lemma_tally_ignores_others(
    voters: Seq<AccountId>,
    receipts: Map<AccountId, Receipt>,
    who: AccountId,
    receipt: Receipt,
    support: bool,
)
    requires
        !voters.contains(who),
    ensures
        tally(voters, receipts.insert(who, receipt), support) == tally(voters, receipts, support),
    decreases voters.len(),
{
    if voters.len() > 0 {
        lemma_tally_ignores_others(voters.drop_last(), receipts, who, receipt, support);
    }
}

/// A new voter adds to each tally what the receipt counts for that side.
pub proof fn lemma_tally_of_new_voter(
    voters: Seq<AccountId>,
    receipts: Map<AccountId, Receipt>,
    who: AccountId,
    receipt: Receipt,
    support: bool,
)
    requires
        !voters.contains(who),
    ensures
        tally(voters.push(who), receipts.insert(who, receipt), support) == tally(
            voters,
            receipts,
            support,
        ) + counted(receipt, support),
{
    assert(voters.push(who).drop_last() =~= voters);
    lemma_tally_ignores_others(voters, receipts, who, receipt, support);
}

/// A well-formed proposal stays well formed when a member who has not voted
/// votes and the tally of the chosen side stays in range.
pub proof fn lemma_vote_keeps_wf(
    proposal: ProposalView,
    caller: AccountId,
    support: bool,
    weight: u128,
)
    requires
        proposal.wf(),
        !proposal.receipts.dom().contains(caller),
        support ==> proposal.for_votes + weight <= u128::MAX,
        !support ==> proposal.against_votes + weight <= u128::MAX,
    ensures
        proposal.with_vote(caller, support, weight).wf(),
{
    let next = proposal.with_vote(caller, support, weight);
    let receipt = Receipt::cast(support, weight);
    lemma_tally_of_new_voter(proposal.voters, proposal.receipts, caller, receipt, true);
    lemma_tally_of_new_voter(proposal.voters, proposal.receipts, caller, receipt, false);
    assert forall|who: AccountId| #[trigger]
        next.receipts.dom().contains(who) <==> next.voters.contains(who) by {
        if proposal.voters.contains(who) {
            let i = choose|i: int| 0 <= i < proposal.voters.len() && proposal.voters[i] == who;
            assert(next.voters[i] == who);
        }
    }
}

/// One member's receipt, as it is kept in a proposal.
#[derive(Clone, Copy, Debug)]
struct Ballot {
    voter: AccountId,
    receipt: Receipt,
}

/// Whether `who` has a ballot among `ballots`.
spec fn has_ballot(ballots: Seq<Ballot>, who: AccountId) -> bool {
    exists|i: int| 0 <= i < ballots.len() && (#[trigger] ballots[i]).voter == who
}

/// The position of a ballot of `who`.
spec fn ballot_index(ballots: Seq<Ballot>, who: AccountId) -> int {
    choose|i: int| 0 <= i < ballots.len() && (#[trigger] ballots[i]).voter == who
}

/// No member has two ballots.
spec fn distinct_voters(ballots: Seq<Ballot>) -> bool {
    forall|i: int, j: int|
        0 <= i < j < ballots.len() ==> (#[trigger] ballots[i]).voter != (
        #[trigger] ballots[j]).voter
}

/// The members who cast the ballots, in the same order.
spec fn voters_of(ballots: Seq<Ballot>) -> Seq<AccountId> {
    ballots.map_values(|ballot: Ballot| ballot.voter)
}

/// The ballots as a map from member to receipt.
spec fn receipts_of(ballots: Seq<Ballot>) -> Map<AccountId, Receipt> {
    Map::new(
        |who: AccountId| has_ballot(ballots, who),
        |who: AccountId| ballots[ballot_index(ballots, who)].receipt,
    )
}

proof fn lemma_receipts_lookup(ballots: Seq<Ballot>, i: int)
    requires
        distinct_voters(ballots),
        0 <= i < ballots.len(),
    ensures
        receipts_of(ballots).dom().contains(ballots[i].voter),
        receipts_of(ballots)[ballots[i].voter] == ballots[i].receipt,
{
    let chosen = ballot_index(ballots, ballots[i].voter);
    assert(chosen == i);
}

proof fn lemma_receipts_push(ballots: Seq<Ballot>, ballot: Ballot)
    requires
        distinct_voters(ballots),
        !has_ballot(ballots, ballot.voter),
    ensures
        distinct_voters(ballots.push(ballot)),
        receipts_of(ballots.push(ballot)) == receipts_of(ballots).insert(
            ballot.voter,
            ballot.receipt,
        ),
{
    let next = ballots.push(ballot);
    let last = ballots.len() as int;
    let expected = receipts_of(ballots).insert(ballot.voter, ballot.receipt);
    assert forall|who: AccountId| #[trigger]
        receipts_of(next).dom().contains(who) <==> expected.dom().contains(who) by {
        if has_ballot(ballots, who) {
            let i = ballot_index(ballots, who);
            assert(next[i].voter == who);
        }
        if who == ballot.voter {
            assert(next[last].voter == who);
        }
    }
    assert forall|who: AccountId| #[trigger]
        receipts_of(next).dom().contains(who) implies receipts_of(next)[who] == expected[who] by {
        if who == ballot.voter {
            lemma_receipts_lookup(next, last);
        } else {
            let i = ballot_index(next, who);
            lemma_receipts_lookup(ballots, i);
            lemma_receipts_lookup(next, i);
        }
    }
}

/// A proposal as it is stored.
#[derive(Debug)]
pub struct Proposal {
    proposal_id: u64,
    title: String,
    desc: String,
    start_block: u32,
    end_block: u32,
    for_votes: u128,
    against_votes: u128,
    owner: AccountId,
    canceled: bool,
    executed: bool,
    receipts: Vec<Ballot>,
    transaction: Transaction,
    category: u32,
    publicity_votes: u128,
    publicity_delay: u32,
}

impl View for Proposal {
    type V = ProposalView;

    closed spec fn view(&self) -> ProposalView {
        ProposalView {
            proposal_id: self.proposal_id,
            title: self.title@,
            desc: self.desc@,
            category: self.category,
            start_block: self.start_block,
            end_block: self.end_block,
            for_votes: self.for_votes,
            against_votes: self.against_votes,
            owner: self.owner,
            canceled: self.canceled,
            executed: self.executed,
            voters: voters_of(self.receipts@),
            receipts: receipts_of(self.receipts@),
            transaction: self.transaction@,
            publicity_votes: self.publicity_votes,
            publicity_delay: self.publicity_delay,
        }
    }
}

impl Clone for Proposal {
    fn clone(&self) -> (copy: Proposal)
        ensures
            copy@ == self@,
    {
        let receipts = self.receipts.clone();
        Proposal {
            proposal_id: self.proposal_id,
            title: self.title.clone(),
            desc: self.desc.clone(),
            start_block: self.start_block,
            end_block: self.end_block,
            for_votes: self.for_votes,
            against_votes: self.against_votes,
            owner: self.owner,
            canceled: self.canceled,
            executed: self.executed,
            receipts,
            transaction: self.transaction.clone(),
            category: self.category,
            publicity_votes: self.publicity_votes,
            publicity_delay: self.publicity_delay,
        }
    }
}

impl Proposal {
    /// The proposal is well formed.
    pub open spec fn wf(&self) -> bool {
        self@.wf()
    }

    /// In a well-formed proposal each member is recorded at most once.
    proof fn lemma_distinct_voters(&self)
        requires
            self.wf(),
        ensures
            distinct_voters(self.receipts@),
    {
        let voters = self@.voters;
        assert forall|i: int, j: int| 0 <= i < j < self.receipts@.len() implies (
        #[trigger] self.receipts@[i]).voter != (#[trigger] self.receipts@[j]).voter by {
            assert(voters[i] == self.receipts@[i].voter);
            assert(voters[j] == self.receipts@[j].voter);
        }
    }

    /// A new proposal with the given identifier, owner and content.
    pub(crate) fn new(
        proposal_id: u64,
        owner: AccountId,
        title: String,
        desc: String,
        category: u32,
        start_block: u32,
        end_block: u32,
        transaction: Transaction,
        publicity_delay: u32,
    ) -> (proposal: Proposal)
        requires
            start_block < end_block,
        ensures
            proposal.wf(),
            proposal@ == ProposalView::created(
                proposal_id,
                owner,
                title@,
                desc@,
                category,
                start_block,
                end_block,
                transaction@,
                publicity_delay,
            ),
    {
        let proposal = Proposal {
            proposal_id,
            title,
            desc,
            start_block,
            end_block,
            for_votes: 0,
            against_votes: 0,
            owner,
            canceled: false,
            executed: false,
            receipts: Vec::new(),
            transaction,
            category,
            publicity_votes: 0,
            publicity_delay,
        };
        assert(proposal@.receipts =~= Map::empty());
        assert(proposal@.voters =~= Seq::empty());
        proposal
    }

    /// The identifier under which the proposal is stored.
    pub fn proposal_id(&self) -> (proposal_id: u64)
        ensures
            proposal_id == self@.proposal_id,
    {
        self.proposal_id
    }

    /// The title.
    pub fn title(&self) -> (title: &String)
        ensures
            title@ == self@.title,
    {
        &self.title
    }

    /// The description.
    pub fn desc(&self) -> (desc: &String)
        ensures
            desc@ == self@.desc,
    {
        &self.desc
    }

    /// The governance class of the proposal.
    pub fn category(&self) -> (category: u32)
        ensures
            category == self@.category,
    {
        self.category
    }

    /// The block after which voting opens.
    pub fn start_block(&self) -> (start_block: u32)
        ensures
            start_block == self@.start_block,
    {
        self.start_block
    }

    /// The last block of voting.
    pub fn end_block(&self) -> (end_block: u32)
        ensures
            end_block == self@.end_block,
    {
        self.end_block
    }

    /// The weight of the votes in favour.
    pub fn for_votes(&self) -> (for_votes: u128)
        ensures
            for_votes == self@.for_votes,
    {
        self.for_votes
    }

    /// The weight of the votes against.
    pub fn against_votes(&self) -> (against_votes: u128)
        ensures
            against_votes == self@.against_votes,
    {
        self.against_votes
    }

    /// The member who created the proposal.
    pub fn owner(&self) -> (owner: AccountId)
        ensures
            owner == self@.owner,
    {
        self.owner
    }

    /// Whether the proposal was canceled.
    pub fn canceled(&self) -> (canceled: bool)
        ensures
            canceled == self@.canceled,
    {
        self.canceled
    }

    /// Whether the proposal's action was dispatched.
    pub fn executed(&self) -> (executed: bool)
        ensures
            executed == self@.executed,
    {
        self.executed
    }

    /// The call that the proposal asks for.
    pub fn transaction(&self) -> (transaction: &Transaction)
        ensures
            transaction@ == self@.transaction,
    {
        &self.transaction
    }

    /// The weight counted by the latest publicity vote.
    pub fn publicity_votes(&self) -> (publicity_votes: u128)
        ensures
            publicity_votes == self@.publicity_votes,
    {
        self.publicity_votes
    }

    /// The number of blocks of the publicity period.
    pub fn publicity_delay(&self) -> (publicity_delay: u32)
        ensures
            publicity_delay == self@.publicity_delay,
    {
        self.publicity_delay
    }

    /// The position of the ballot of `who`, if there is one.
    fn find_ballot(&self, who: &AccountId) -> (found: Option<usize>)
        ensures
            match found {
                Some(i) => i < self.receipts@.len() && self.receipts@[i as int].voter == *who,
                None => !has_ballot(self.receipts@, *who),
            },
    {
        let mut i: usize = 0;
        while i < self.receipts.len()
            invariant
                i <= self.receipts@.len(),
                forall|j: int| 0 <= j < i ==> (#[trigger] self.receipts@[j]).voter != *who,
            decreases self.receipts@.len() - i,
        {
            if self.receipts[i].voter == *who {
                return Some(i);
            }
            i += 1;
        }
        None
    }

    /// The receipt of `who`: the one on record, or the absent receipt if
    /// `who` has not voted.
    pub fn receipt_of(&self, who: &AccountId) -> (receipt: Receipt)
        requires
            self.wf(),
        ensures
            receipt == self@.receipt_of(*who),
    {
        match self.find_ballot(who) {
            Some(i) => {
                proof {
                    self.lemma_distinct_voters();
                    lemma_receipts_lookup(self.receipts@, i as int);
                }
                self.receipts[i].receipt
            },
            None => Receipt::default(),
        }
    }

    /// Whether the tally misses the threshold that `effective` puts in force.
    pub fn threshold_failed(
        &self,
        effective: &VoteEffective,
        total_supply: u128,
    ) -> (failed: bool)
        ensures
            failed == self@.threshold_failed(*effective, total_supply),
    {
        if effective.category == CATEGORY_QUORUM {
            check_quorum(self.for_votes, self.against_votes, total_supply, effective.vote_scale)
        } else if effective.category == CATEGORY_SUPPORT {
            check_support(self.for_votes, self.against_votes, effective.support_scale)
        } else {
            false
        }
    }

    /// Whether `current_block` lies after the voting window and before the
    /// end of the publicity delay.
    pub fn in_publicity_window(&self, current_block: u32) -> (inside: bool)
        ensures
            inside == self@.in_publicity_window(current_block),
    {
        let end: u64 = self.end_block as u64 + self.publicity_delay as u64;
        self.end_block < current_block && (current_block as u64) < end
    }

    /// The lifecycle state at `current_block`, under the thresholds
    /// `effective` and with `total_supply` of voting power in existence.
    pub fn state(
        &self,
        current_block: u32,
        effective: &VoteEffective,
        total_supply: u128,
    ) -> (state: ProposalState)
        ensures
            state == self@.state(current_block, *effective, total_supply),
    {
        if self.canceled {
            ProposalState::Canceled
        } else if current_block <= self.start_block {
            ProposalState::Pending
        } else if current_block <= self.end_block {
            ProposalState::Active
        } else if self.threshold_failed(effective, total_supply) {
            ProposalState::Defeated
        } else if self.executed {
            ProposalState::Executed
        } else if self.in_publicity_window(current_block) {
            ProposalState::Publicity
        } else if self.publicity_votes > self.for_votes {
            ProposalState::Defeated
        } else {
            ProposalState::Queued
        }
    }

    /// Records the vote of `caller`, or rejects it and changes nothing.
    pub(crate) fn cast_vote(
        &mut self,
        caller: AccountId,
        support: bool,
        weight: u128,
        current_block: u32,
        effective: &VoteEffective,
        total_supply: u128,
    ) -> (result: Result<(), GovernanceError>)
        requires
            old(self).wf(),
        ensures
            final(self).wf(),
            match old(self)@.cast_vote(
                caller,
                support,
                weight,
                current_block,
                *effective,
                total_supply,
            ) {
                Ok(next) => result is Ok && final(self)@ == next,
                Err(e) => result == Err::<(), GovernanceError>(e) && final(self)@ == old(self)@,
            },
    {
        if self.state(current_block, effective, total_supply) != ProposalState::Active {
            return Err(GovernanceError::VotingClosed);
        }
        if self.find_ballot(&caller).is_some() {
            return Err(GovernanceError::AlreadyVoted);
        }
        if support {
            match self.for_votes.checked_add(weight) {
                Some(sum) => {
                    self.for_votes = sum;
                },
                None => {
                    return Err(GovernanceError::ArithmeticOverflow);
                },
            }
        } else {
            match self.against_votes.checked_add(weight) {
                Some(sum) => {
                    self.against_votes = sum;
                },
                None => {
                    return Err(GovernanceError::ArithmeticOverflow);
                },
            }
        }
        let ballot = Ballot {
            voter: caller,
            receipt: Receipt { has_voted: true, support, votes: weight },
        };
        proof {
            old(self).lemma_distinct_voters();
            lemma_receipts_push(old(self).receipts@, ballot);
            lemma_vote_keeps_wf(old(self)@, caller, support, weight);
        }
        self.receipts.push(ballot);
        assert(self@.voters =~= old(self)@.voters.push(caller));
        Ok(())
    }

    /// Replaces the publicity tally by `weight`, or rejects the vote and
    /// changes nothing.
    pub(crate) fn public_vote(
        &mut self,
        weight: u128,
        current_block: u32,
    ) -> (result: Result<(), GovernanceError>)
        requires
            old(self).wf(),
        ensures
            final(self).wf(),
            match old(self)@.public_vote(weight, current_block) {
                Ok(next) => result is Ok && final(self)@ == next,
                Err(e) => result == Err::<(), GovernanceError>(e) && final(self)@ == old(self)@,
            },
    {
        if !self.in_publicity_window(current_block) {
            return Err(GovernanceError::NotInPublicityWindow);
        }
        if self.canceled {
            return Err(GovernanceError::VotingClosed);
        }
        self.publicity_votes = weight;
        Ok(())
    }

    /// Marks the proposal canceled, or rejects the request and changes
    /// nothing.
    pub(crate) fn cancel(
        &mut self,
        caller: AccountId,
        current_block: u32,
        effective: &VoteEffective,
        total_supply: u128,
    ) -> (result: Result<(), GovernanceError>)
        requires
            old(self).wf(),
        ensures
            final(self).wf(),
            match old(self)@.cancel(caller, current_block, *effective, total_supply) {
                Ok(next) => result is Ok && final(self)@ == next,
                Err(e) => result == Err::<(), GovernanceError>(e) && final(self)@ == old(self)@,
            },
    {
        if self.state(current_block, effective, total_supply) == ProposalState::Executed {
            return Err(GovernanceError::AlreadyExecuted);
        }
        if caller != self.owner {
            return Err(GovernanceError::NotOwner);
        }
        self.canceled = true;
        Ok(())
    }

    /// Marks the proposal executed once its action was dispatched, or rejects
    /// the request and changes nothing.
    pub(crate) fn exec(
        &mut self,
        dispatched: bool,
        current_block: u32,
        effective: &VoteEffective,
        total_supply: u128,
    ) -> (result: Result<(), GovernanceError>)
        requires
            old(self).wf(),
        ensures
            final(self).wf(),
            match old(self)@.exec(dispatched, current_block, *effective, total_supply) {
                Ok(next) => result is Ok && final(self)@ == next,
                Err(e) => result == Err::<(), GovernanceError>(e) && final(self)@ == old(self)@,
            },
    {
        if self.state(current_block, effective, total_supply) != ProposalState::Queued {
            return Err(GovernanceError::NotQueued);
        }
        if !dispatched {
            return Err(GovernanceError::ExecutorDispatchFailed);
        }
        self.executed = true;
        Ok(())
    }
}

} // verus!
