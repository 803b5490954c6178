//! What holds of governance whatever its callers do.
//!
//! Each law is a theorem about the state machine that
//! [`DaoProposalView`] and [`ProposalView`] define, and so about the
//! executable engine, which is proved to follow that machine.

use vstd::prelude::*;
use crate::account::AccountId;
use crate::entity::FeeDemand;
use crate::entity::GovernanceError;
use crate::entity::Limit;
use crate::entity::ProposalState;
use crate::entity::Receipt;
use crate::entity::TransactionView;
use crate::entity::VoteEffective;
use crate::entity::CATEGORY_QUORUM;
use crate::entity::CATEGORY_SUPPORT;
use crate::governance::DaoProposalView;
use crate::proposal::counted;
use crate::proposal::lemma_vote_keeps_wf;
use crate::proposal::tally;
use crate::proposal::ProposalView;
use crate::threshold::quorum_failed;
use crate::threshold::support_failed;

verus! {

/// The state of a proposal depends on nothing but the stored proposal, the
/// block height, the thresholds and the total supply: two engines that agree
/// on these report the same state, whatever else they hold.
pub proof fn law_state_depends_on_its_inputs_only(
    a: DaoProposalView,
    b: DaoProposalView,
    proposal_id: u64,
    current_block: u32,
    total_supply: u128,
)
    requires
        a.has(proposal_id),
        b.has(proposal_id),
        a.proposals[proposal_id] == b.proposals[proposal_id],
        a.vote_effective == b.vote_effective,
    ensures
        a.state(proposal_id, current_block, total_supply) == b.state(
            proposal_id,
            current_block,
            total_supply,
        ),
{
}

/// No proposal is ever reported as succeeded or expired: a proposal that
/// passes its thresholds is in publicity, queued or executed.
pub proof fn law_state_is_never_succeeded_nor_expired(
    proposal: ProposalView,
    current_block: u32,
    effective: VoteEffective,
    total_supply: u128,
)
    ensures
        proposal.state(current_block, effective, total_supply) != ProposalState::Succeeded,
        proposal.state(current_block, effective, total_supply) != ProposalState::Expired,
{
}

/// Until the voting window has closed, and forever once the proposal is
/// canceled, the state depends neither on the thresholds nor on the total
/// supply.
pub proof fn law_state_reads_thresholds_only_after_voting(
    proposal: ProposalView,
    current_block: u32,
    effective: VoteEffective,
    total_supply: u128,
    other_effective: VoteEffective,
    other_supply: u128,
)
    requires
        proposal.canceled || current_block <= proposal.end_block,
    ensures
        proposal.state(current_block, effective, total_supply) == proposal.state(
            current_block,
            other_effective,
            other_supply,
        ),
        proposal.canceled ==> proposal.state(current_block, effective, total_supply)
            == ProposalState::Canceled,
{
}

/// A threshold whose divisor is zero is missed: a quorum when there is no
/// supply of voting power, support when no vote was cast. A quorum is missed
/// as well when no vote was cast.
pub proof fn law_zero_divisor_misses_threshold(
    for_votes: nat,
    against_votes: nat,
    total_supply: nat,
    scale: nat,
)
    ensures
        quorum_failed(for_votes, against_votes, 0, scale),
        quorum_failed(0, 0, total_supply, scale),
        support_failed(0, 0, scale),
{
    if total_supply != 0 {
        assert(0nat * 100 / total_supply == 0) by (nonlinear_arith)
            requires
                total_supply > 0,
        ;
    }
}

/// Once voting has closed, a proposal that is not canceled is defeated when
/// the divisor of the threshold in force is zero: under a quorum, with no
/// supply of voting power or no vote cast; under support, with no vote cast.
pub proof fn law_zero_divisor_is_defeat(
    proposal: ProposalView,
    current_block: u32,
    effective: VoteEffective,
    total_supply: u128,
)
    requires
        !proposal.canceled,
        proposal.end_block < current_block,
        proposal.start_block < proposal.end_block,
        (effective.category == CATEGORY_QUORUM && (total_supply == 0 || proposal.for_votes
            + proposal.against_votes == 0)) || (effective.category == CATEGORY_SUPPORT
            && proposal.for_votes + proposal.against_votes == 0),
    ensures
        proposal.state(current_block, effective, total_supply) == ProposalState::Defeated,
{
    law_zero_divisor_misses_threshold(
        proposal.for_votes as nat,
        proposal.against_votes as nat,
        total_supply as nat,
        effective.vote_scale as nat,
    );
}

/// A vote that is accepted adds exactly its weight to one tally, the one of
/// the side chosen, and leaves the other tally as it was. The caller had not
/// voted before and has voted afterwards, and the receipt holds the side and
/// the weight. No other member's receipt changes.
pub proof fn law_vote_is_counted_exactly(
    pre: DaoProposalView,
    proposal_id: u64,
    support: bool,
    caller: AccountId,
    current_block: u32,
    total_supply: u128,
    weight: u128,
)
    requires
        pre.wf(),
        pre.cast_vote(proposal_id, support, caller, current_block, total_supply, weight) is Ok,
    ensures
        ({
            let next = pre.cast_vote(
                proposal_id,
                support,
                caller,
                current_block,
                total_supply,
                weight,
            )->Ok_0;
            let before = pre.proposals[proposal_id];
            let after = next.proposals[proposal_id];
            &&& pre.has(proposal_id) && next.has(proposal_id)
            &&& support ==> after.for_votes == before.for_votes + weight && after.against_votes
                == before.against_votes
            &&& !support ==> after.against_votes == before.against_votes + weight
                && after.for_votes == before.for_votes
            &&& !before.receipt_of(caller).has_voted
            &&& after.receipt_of(caller) == Receipt::cast(support, weight)
            &&& forall|who: AccountId|
                who != caller ==> #[trigger] after.receipt_of(who) == before.receipt_of(who)
        }),
{
}

/// Every vote on record is counted in the tally of its side: no receipt
/// holds more weight than that tally, and a proposal on which nobody has
/// voted has empty tallies.
pub proof fn law_receipts_are_within_the_tallies(proposal: ProposalView, who: AccountId)
    requires
        proposal.wf(),
    ensures
        proposal.receipt_of(who).support ==> proposal.receipt_of(who).votes <= proposal.for_votes,
        !proposal.receipt_of(who).support ==> proposal.receipt_of(who).votes
            <= proposal.against_votes,
        proposal.voters.len() == 0 ==> proposal.for_votes == 0 && proposal.against_votes == 0,
{
    if proposal.receipts.dom().contains(who) {
        let i = choose|i: int| 0 <= i < proposal.voters.len() && proposal.voters[i] == who;
        lemma_tally_covers_each_voter(proposal.voters, proposal.receipts, i, true);
        lemma_tally_covers_each_voter(proposal.voters, proposal.receipts, i, false);
    }
}

/// A tally is at least what the receipt of any one of its voters counts.
proof fn lemma_tally_covers_each_voter(
    voters: Seq<AccountId>,
    receipts: Map<AccountId, Receipt>,
    i: int,
    support: bool,
)
    requires
        0 <= i < voters.len(),
    ensures
        counted(receipts[voters[i]], support) <= tally(voters, receipts, support),
    decreases voters.len(),
{
    if i < voters.len() - 1 {
        lemma_tally_covers_each_voter(voters.drop_last(), receipts, i, support);
    }
}

/// A member votes once: after an accepted vote, every further vote of the
/// same member on the same proposal is rejected and changes nothing. The
/// error is `AlreadyVoted` while the proposal is active, and `VotingClosed`
/// once it is not.
pub proof fn law_second_vote_is_rejected(
    pre: DaoProposalView,
    proposal_id: u64,
    support: bool,
    caller: AccountId,
    current_block: u32,
    total_supply: u128,
    weight: u128,
    second_support: bool,
    second_block: u32,
    second_supply: u128,
    second_weight: u128,
)
    requires
        pre.wf(),
        pre.cast_vote(proposal_id, support, caller, current_block, total_supply, weight) is Ok,
    ensures
        ({
            let next = pre.cast_vote(
                proposal_id,
                support,
                caller,
                current_block,
                total_supply,
                weight,
            )->Ok_0;
            let second = next.cast_vote(
                proposal_id,
                second_support,
                caller,
                second_block,
                second_supply,
                second_weight,
            );
            if next.state(proposal_id, second_block, second_supply) == Ok::<
                ProposalState,
                GovernanceError,
            >(ProposalState::Active) {
                second == Err::<DaoProposalView, GovernanceError>(GovernanceError::AlreadyVoted)
            } else {
                second == Err::<DaoProposalView, GovernanceError>(GovernanceError::VotingClosed)
            }
        }),
{
}

/// A proposal whose window does not end after it starts, or does not start
/// after the current block, is rejected with `InvalidWindow`: no fee is asked
/// for it and, a rejected call changing nothing, the number of proposals
/// stays as it was.
pub proof fn law_invalid_window_is_rejected(
    pre: DaoProposalView,
    title: Seq<char>,
    desc: Seq<char>,
    category: u32,
    start_block: u32,
    end_block: u32,
    transaction: TransactionView,
    publicity_delay: u32,
    caller: AccountId,
    current_block: u32,
    fee_paid: bool,
)
    requires
        end_block <= start_block || start_block <= current_block,
    ensures
        pre.fee_demand(start_block, end_block, caller, current_block) == Err::<
            Option<FeeDemand>,
            GovernanceError,
        >(GovernanceError::InvalidWindow),
        pre.propose(
            title,
            desc,
            category,
            start_block,
            end_block,
            transaction,
            publicity_delay,
            caller,
            current_block,
            fee_paid,
        ) == Err::<DaoProposalView, GovernanceError>(GovernanceError::InvalidWindow),
{
}

/// No proposal is created while its fee is unpaid: when a fee is charged and
/// was not collected, the call is rejected.
pub proof fn law_unpaid_fee_creates_nothing(
    pre: DaoProposalView,
    title: Seq<char>,
    desc: Seq<char>,
    category: u32,
    start_block: u32,
    end_block: u32,
    transaction: TransactionView,
    publicity_delay: u32,
    caller: AccountId,
    current_block: u32,
)
    requires
        pre.limit.fee_open,
    ensures
        pre.propose(
            title,
            desc,
            category,
            start_block,
            end_block,
            transaction,
            publicity_delay,
            caller,
            current_block,
            false,
        ) is Err,
{
}

/// A proposal that is created gets the next identifier, is stored as
/// created, owned by the caller, and pending at the block of its creation;
/// the proposals that were there are untouched.
pub proof fn law_created_proposal_is_next_and_pending(
    pre: DaoProposalView,
    title: Seq<char>,
    desc: Seq<char>,
    category: u32,
    start_block: u32,
    end_block: u32,
    transaction: TransactionView,
    publicity_delay: u32,
    caller: AccountId,
    current_block: u32,
    fee_paid: bool,
    total_supply: u128,
)
    requires
        pre.wf(),
        pre.propose(
            title,
            desc,
            category,
            start_block,
            end_block,
            transaction,
            publicity_delay,
            caller,
            current_block,
            fee_paid,
        ) is Ok,
    ensures
        ({
            let next = pre.propose(
                title,
                desc,
                category,
                start_block,
                end_block,
                transaction,
                publicity_delay,
                caller,
                current_block,
                fee_paid,
            )->Ok_0;
            let id = next.proposal_length;
            &&& next.wf()
            &&& pre.evolves_to(next)
            &&& id == pre.proposal_length + 1
            &&& !pre.has(id) && next.has(id)
            &&& next.proposals[id] == ProposalView::created(
                id,
                caller,
                title,
                desc,
                category,
                start_block,
                end_block,
                transaction,
                publicity_delay,
            )
            &&& next.state(id, current_block, total_supply) == Ok::<
                ProposalState,
                GovernanceError,
            >(ProposalState::Pending)
            &&& forall|other: u64| #[trigger]
                pre.has(other) ==> next.proposals[other] == pre.proposals[other]
        }),
{
}

/// An execution is completed only for a proposal that is queued and whose
/// action was dispatched.
pub proof fn law_exec_needs_queued(
    pre: DaoProposalView,
    proposal_id: u64,
    current_block: u32,
    total_supply: u128,
    dispatched: bool,
)
    ensures
        pre.exec(proposal_id, current_block, total_supply, dispatched) is Ok <==> (pre.state(
            proposal_id,
            current_block,
            total_supply,
        ) == Ok::<ProposalState, GovernanceError>(ProposalState::Queued) && dispatched),
        pre.exec_action(proposal_id, current_block, total_supply) is Ok <==> pre.state(
            proposal_id,
            current_block,
            total_supply,
        ) == Ok::<ProposalState, GovernanceError>(ProposalState::Queued),
{
}

/// After its execution was completed, a proposal is reported as executed at
/// every block after its voting window, as long as its tally meets the
/// threshold then in force. It does so in particular at every block from
/// that of its execution on, under the total supply of that time.
pub proof fn law_executed_is_reported(
    pre: DaoProposalView,
    proposal_id: u64,
    current_block: u32,
    total_supply: u128,
    dispatched: bool,
    later_block: u32,
    later_supply: u128,
)
    requires
        pre.wf(),
        pre.exec(proposal_id, current_block, total_supply, dispatched) is Ok,
    ensures
        ({
            let next = pre.exec(proposal_id, current_block, total_supply, dispatched)->Ok_0;
            let proposal = next.proposals[proposal_id];
            &&& proposal.executed
            &&& (proposal.end_block < later_block && !proposal.threshold_failed(
                next.vote_effective,
                later_supply,
            )) ==> next.state(proposal_id, later_block, later_supply) == Ok::<
                ProposalState,
                GovernanceError,
            >(ProposalState::Executed)
            &&& current_block <= later_block ==> next.state(proposal_id, later_block, total_supply)
                == Ok::<ProposalState, GovernanceError>(ProposalState::Executed)
        }),
{
}

/// A proposal is executed at most once through the engine's bookkeeping:
/// for a proposal marked executed, every further execution is rejected with
/// `NotQueued`, at any block, under any supply, and no action is handed out.
pub proof fn law_executed_is_never_queued(
    engine: DaoProposalView,
    proposal_id: u64,
    current_block: u32,
    total_supply: u128,
    dispatched: bool,
)
    requires
        engine.has(proposal_id),
        engine.proposals[proposal_id].executed,
    ensures
        engine.exec(proposal_id, current_block, total_supply, dispatched) == Err::<
            DaoProposalView,
            GovernanceError,
        >(GovernanceError::NotQueued),
        engine.exec_action(proposal_id, current_block, total_supply) == Err::<
            TransactionView,
            GovernanceError,
        >(GovernanceError::NotQueued),
{
}

/// After an execution was completed, a second one is rejected with
/// `NotQueued`, whatever the block, the supply and the outcome of a dispatch.
pub proof fn law_second_exec_is_rejected(
    pre: DaoProposalView,
    proposal_id: u64,
    current_block: u32,
    total_supply: u128,
    dispatched: bool,
    second_block: u32,
    second_supply: u128,
    second_dispatched: bool,
)
    requires
        pre.exec(proposal_id, current_block, total_supply, dispatched) is Ok,
    ensures
        pre.exec(proposal_id, current_block, total_supply, dispatched)->Ok_0.exec(
            proposal_id,
            second_block,
            second_supply,
            second_dispatched,
        ) == Err::<DaoProposalView, GovernanceError>(GovernanceError::NotQueued),
{
}

/// A proposal that is reported as executed cannot be canceled, not even by
/// its owner: the request is rejected with `AlreadyExecuted`. A proposal
/// marked executed is reported so at every block after its voting window at
/// which its tally meets the threshold in force.
pub proof fn law_cancel_after_execution_is_rejected(
    engine: DaoProposalView,
    proposal_id: u64,
    caller: AccountId,
    current_block: u32,
    total_supply: u128,
)
    requires
        engine.wf(),
        engine.has(proposal_id),
        engine.proposals[proposal_id].executed,
        !engine.proposals[proposal_id].canceled,
        engine.proposals[proposal_id].end_block < current_block,
        !engine.proposals[proposal_id].threshold_failed(engine.vote_effective, total_supply),
    ensures
        engine.cancel(proposal_id, caller, current_block, total_supply) == Err::<
            DaoProposalView,
            GovernanceError,
        >(GovernanceError::AlreadyExecuted),
{
}

/// Nobody but the owner cancels a proposal: the request of any other caller
/// is rejected, so the proposal stays as it was. The error is `NotOwner`,
/// unless the proposal is reported as executed, which is checked first.
pub proof fn law_cancel_by_another_is_rejected(
    engine: DaoProposalView,
    proposal_id: u64,
    caller: AccountId,
    current_block: u32,
    total_supply: u128,
)
    requires
        engine.has(proposal_id),
        caller != engine.proposals[proposal_id].owner,
    ensures
        engine.cancel(proposal_id, caller, current_block, total_supply) == Err::<
            DaoProposalView,
            GovernanceError,
        >(
            if engine.state(proposal_id, current_block, total_supply) == Ok::<
                ProposalState,
                GovernanceError,
            >(ProposalState::Executed) {
                GovernanceError::AlreadyExecuted
            } else {
                GovernanceError::NotOwner
            },
        ),
{
}

/// A canceled proposal is closed for good: votes, publicity votes and
/// executions are rejected, and a repeated cancellation changes nothing. A
/// publicity vote is rejected with `VotingClosed` inside the publicity
/// window and with `NotInPublicityWindow` outside it.
pub proof fn law_canceled_is_final(
    engine: DaoProposalView,
    proposal_id: u64,
    support: bool,
    caller: AccountId,
    current_block: u32,
    total_supply: u128,
    weight: u128,
    dispatched: bool,
)
    requires
        engine.has(proposal_id),
        engine.proposals[proposal_id].canceled,
    ensures
        engine.state(proposal_id, current_block, total_supply) == Ok::<
            ProposalState,
            GovernanceError,
        >(ProposalState::Canceled),
        engine.cast_vote(proposal_id, support, caller, current_block, total_supply, weight)
            == Err::<DaoProposalView, GovernanceError>(GovernanceError::VotingClosed),
        engine.public_vote(proposal_id, current_block, weight) == Err::<
            DaoProposalView,
            GovernanceError,
        >(
            if engine.proposals[proposal_id].in_publicity_window(current_block) {
                GovernanceError::VotingClosed
            } else {
                GovernanceError::NotInPublicityWindow
            },
        ),
        engine.exec(proposal_id, current_block, total_supply, dispatched) == Err::<
            DaoProposalView,
            GovernanceError,
        >(GovernanceError::NotQueued),
        match engine.cancel(proposal_id, caller, current_block, total_supply) {
            Ok(next) => next == engine,
            Err(e) => e == GovernanceError::NotOwner,
        },
{
    assert(engine.proposals.insert(proposal_id, engine.proposals[proposal_id])
        =~= engine.proposals);
}

/// A publicity vote is rejected with `NotInPublicityWindow` exactly when the
/// block is not after the voting window and before the end of the publicity
/// delay. Inside that window it is accepted on every proposal that is not
/// canceled, whether or not the tally meets a threshold: it replaces the
/// publicity tally by the caller's weight and changes nothing else, neither
/// in this proposal nor in another.
pub proof fn law_public_vote_in_window_only(
    engine: DaoProposalView,
    proposal_id: u64,
    current_block: u32,
    weight: u128,
)
    requires
        engine.has(proposal_id),
    ensures
        ({
            let proposal = engine.proposals[proposal_id];
            let outcome = engine.public_vote(proposal_id, current_block, weight);
            &&& outcome == Err::<DaoProposalView, GovernanceError>(
                GovernanceError::NotInPublicityWindow,
            ) <==> !proposal.in_publicity_window(current_block)
            &&& outcome is Ok <==> proposal.in_publicity_window(current_block)
                && !proposal.canceled
            &&& outcome is Ok ==> outcome->Ok_0 == (DaoProposalView {
                proposals: engine.proposals.insert(
                    proposal_id,
                    ProposalView { publicity_votes: weight, ..proposal },
                ),
                ..engine
            })
        }),
{
}

/// Whatever an entry point does to a well-formed engine, the engine stays
/// well formed and evolves as [`DaoProposalView::evolves_to`] allows: an
/// executed proposal stays executed, a canceled proposal is frozen, receipts
/// are written once, tallies only grow, and what was fixed at creation or at
/// construction stays fixed. This is the law for changes of the
/// configuration.
pub proof fn law_configuration_preserves_history(
    pre: DaoProposalView,
    limit: Limit,
    vote_effective: VoteEffective,
    caller: AccountId,
)
    requires
        pre.wf(),
    ensures
        pre.set_permission(limit, caller) is Ok ==> pre.set_permission(limit, caller)->Ok_0.wf()
            && pre.evolves_to(pre.set_permission(limit, caller)->Ok_0),
        pre.set_vote_effective(vote_effective, caller) is Ok ==> pre.set_vote_effective(
            vote_effective,
            caller,
        )->Ok_0.wf() && pre.evolves_to(pre.set_vote_effective(vote_effective, caller)->Ok_0),
{
}

/// The law of [`law_configuration_preserves_history`] for votes.
pub proof fn law_cast_vote_preserves_history(
    pre: DaoProposalView,
    proposal_id: u64,
    support: bool,
    caller: AccountId,
    current_block: u32,
    total_supply: u128,
    weight: u128,
)
    requires
        pre.wf(),
        pre.cast_vote(proposal_id, support, caller, current_block, total_supply, weight) is Ok,
    ensures
        pre.cast_vote(proposal_id, support, caller, current_block, total_supply, weight)->Ok_0.wf(),
        pre.evolves_to(
            pre.cast_vote(proposal_id, support, caller, current_block, total_supply, weight)->Ok_0,
        ),
{
    lemma_vote_keeps_wf(pre.proposals[proposal_id], caller, support, weight);
}

/// The law of [`law_configuration_preserves_history`] for publicity votes.
pub proof fn law_public_vote_preserves_history(
    pre: DaoProposalView,
    proposal_id: u64,
    current_block: u32,
    weight: u128,
)
    requires
        pre.wf(),
        pre.public_vote(proposal_id, current_block, weight) is Ok,
    ensures
        pre.public_vote(proposal_id, current_block, weight)->Ok_0.wf(),
        pre.evolves_to(pre.public_vote(proposal_id, current_block, weight)->Ok_0),
{
}

/// The law of [`law_configuration_preserves_history`] for cancellations.
pub proof fn law_cancel_preserves_history(
    pre: DaoProposalView,
    proposal_id: u64,
    caller: AccountId,
    current_block: u32,
    total_supply: u128,
)
    requires
        pre.wf(),
        pre.cancel(proposal_id, caller, current_block, total_supply) is Ok,
    ensures
        pre.cancel(proposal_id, caller, current_block, total_supply)->Ok_0.wf(),
        pre.evolves_to(pre.cancel(proposal_id, caller, current_block, total_supply)->Ok_0),
{
}

/// The law of [`law_configuration_preserves_history`] for executions.
pub proof fn law_exec_preserves_history(
    pre: DaoProposalView,
    proposal_id: u64,
    current_block: u32,
    total_supply: u128,
    dispatched: bool,
)
    requires
        pre.wf(),
        pre.exec(proposal_id, current_block, total_supply, dispatched) is Ok,
    ensures
        pre.exec(proposal_id, current_block, total_supply, dispatched)->Ok_0.wf(),
        pre.evolves_to(pre.exec(proposal_id, current_block, total_supply, dispatched)->Ok_0),
{
}

/// An engine evolves to itself: a call that changes nothing keeps every
/// promise of [`DaoProposalView::evolves_to`].
pub proof fn law_history_is_reflexive(engine: DaoProposalView)
    ensures
        engine.evolves_to(engine),
{
}

/// Evolution composes: what evolves in two steps has evolved. So what
/// [`DaoProposalView::evolves_to`] promises of one call holds across any
/// number of calls.
pub proof fn law_history_is_transitive(a: DaoProposalView, b: DaoProposalView, c: DaoProposalView)
    requires
        a.evolves_to(b),
        b.evolves_to(c),
    ensures
        a.evolves_to(c),
{
}

/// Only the creator changes the configuration: a setter called by anyone
/// else is rejected, and called by the creator it replaces its own record
/// and nothing else.
pub proof fn law_configuration_belongs_to_the_creator(
    pre: DaoProposalView,
    limit: Limit,
    vote_effective: VoteEffective,
    caller: AccountId,
)
    ensures
        caller != pre.creator ==> pre.set_permission(limit, caller) == Err::<
            DaoProposalView,
            GovernanceError,
        >(GovernanceError::Unauthorized) && pre.set_vote_effective(vote_effective, caller) == Err::<
            DaoProposalView,
            GovernanceError,
        >(GovernanceError::Unauthorized),
        caller == pre.creator ==> pre.set_permission(limit, caller) == Ok::<
            DaoProposalView,
            GovernanceError,
        >(DaoProposalView { limit, ..pre }) && pre.set_vote_effective(vote_effective, caller)
            == Ok::<DaoProposalView, GovernanceError>(DaoProposalView { vote_effective, ..pre }),
{
}

/// Each entry point on a proposal changes what it owns and nothing else. A
/// vote changes one tally and adds one receipt; a publicity vote changes the
/// publicity tally; a cancellation sets the canceled mark; an execution sets
/// the executed mark. None of them touches another proposal, the counter of
/// proposals or the configuration.
pub proof fn law_each_operation_changes_only_its_own(
    pre: DaoProposalView,
    proposal_id: u64,
    support: bool,
    caller: AccountId,
    current_block: u32,
    total_supply: u128,
    weight: u128,
    dispatched: bool,
)
    requires
        pre.has(proposal_id),
    ensures
        ({
            let before = pre.proposals[proposal_id];
            let voted = pre.cast_vote(
                proposal_id,
                support,
                caller,
                current_block,
                total_supply,
                weight,
            );
            let shown = pre.public_vote(proposal_id, current_block, weight);
            let canceled = pre.cancel(proposal_id, caller, current_block, total_supply);
            let executed = pre.exec(proposal_id, current_block, total_supply, dispatched);
            &&& voted is Ok ==> voted->Ok_0 == (DaoProposalView {
                proposals: pre.proposals.insert(
                    proposal_id,
                    before.with_vote(caller, support, weight),
                ),
                ..pre
            }) && before.with_vote(caller, support, weight).canceled == before.canceled
                && before.with_vote(caller, support, weight).executed == before.executed
                && before.with_vote(caller, support, weight).publicity_votes
                == before.publicity_votes
            &&& shown is Ok ==> shown->Ok_0 == (DaoProposalView {
                proposals: pre.proposals.insert(
                    proposal_id,
                    ProposalView { publicity_votes: weight, ..before },
                ),
                ..pre
            })
            &&& canceled is Ok ==> canceled->Ok_0 == (DaoProposalView {
                proposals: pre.proposals.insert(
                    proposal_id,
                    ProposalView { canceled: true, ..before },
                ),
                ..pre
            })
            &&& executed is Ok ==> executed->Ok_0 == (DaoProposalView {
                proposals: pre.proposals.insert(
                    proposal_id,
                    ProposalView { executed: true, ..before },
                ),
                ..pre
            })
        }),
{
}

} // verus!
