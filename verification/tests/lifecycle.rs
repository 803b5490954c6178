use dao_proposal::AccountId;
use dao_proposal::DaoProposal;
use dao_proposal::FeeDemand;
use dao_proposal::GovernanceError;
use dao_proposal::Limit;
use dao_proposal::Proposal;
use dao_proposal::ProposalCreated;
use dao_proposal::ProposalState;
use dao_proposal::Receipt;
use dao_proposal::Transaction;
use dao_proposal::VoteEffective;
use dao_proposal::DEFAULT_VOTING_DELAY;
use dao_proposal::DEFAULT_VOTING_PERIOD;

fn account(byte: u8) -> AccountId {
    AccountId::from([byte; 32])
}

fn action() -> Transaction {
    Transaction {
        callee: account(9),
        selector: [1, 2, 3, 4],
        input: vec![1],
        transferred_value: 0,
        gas_limit: 1000000,
    }
}

fn support_thresholds(support_scale: u128) -> VoteEffective {
    VoteEffective { category: 3, vote_scale: 0, entrust_scale: 0, support_scale }
}

fn quorum_thresholds(vote_scale: u128) -> VoteEffective {
    VoteEffective { category: 1, vote_scale, entrust_scale: 0, support_scale: 0 }
}

/// An engine created by account 1, with one proposal by account 2 whose
/// voting window is blocks 11 to 20.
fn engine_with_proposal(publicity_delay: u32) -> DaoProposal {
    let mut dao = DaoProposal::new(account(1), account(7), account(1));
    let created = dao.propose(
        String::from("title"),
        String::from("desc"),
        3,
        10,
        20,
        action(),
        publicity_delay,
        account(2),
        5,
        false,
    );
    assert_eq!(created, Ok(ProposalCreated { proposal_id: 1, creator: account(2) }));
    dao
}

#[test]
fn init_works() {
    let alice = AccountId::from([0x01; 32]);
    let mut govnance_dao = DaoProposal::new(
        AccountId::from([0x01; 32]),
        AccountId::from([0x01; 32]),
        alice,
    );
    let mut vec = Vec::new();
    vec.push(1);
    let select: [u8; 4] = [1, 2, 3, 4];
    let created = govnance_dao.propose(
        String::from("test"),
        String::from("test"),
        3,
        4,
        5,
        Transaction {
            callee: alice,
            selector: select,
            input: vec,
            transferred_value: 0,
            gas_limit: 1000000,
        },
        1,
        alice,
        0,
        false,
    );
    assert!(created.is_ok());
    let proposal: Proposal = govnance_dao.get_proposal_by_id(1).unwrap();
    assert!(*proposal.title() == String::from("test"));
}

#[test]
fn new_engine_has_the_default_configuration() {
    let dao = DaoProposal::new(account(1), account(7), account(3));
    assert_eq!(dao.creator(), account(1));
    assert_eq!(dao.owner(), account(3));
    assert_eq!(dao.erc20_addr(), account(7));
    assert_eq!(dao.voting_delay(), 1);
    assert_eq!(dao.voting_period(), 259200);
    assert_eq!(DEFAULT_VOTING_DELAY, 1);
    assert_eq!(DEFAULT_VOTING_PERIOD, 259200);
    assert_eq!(dao.proposal_length(), 0);
    assert_eq!(
        dao.limit(),
        Limit { fee_open: false, fee_number: 1, fee_token: AccountId::default() }
    );
    assert_eq!(
        dao.vote_effective(),
        VoteEffective { category: 0, vote_scale: 0, entrust_scale: 0, support_scale: 0 }
    );
    assert!(dao.list_proposals().is_empty());
}

#[test]
fn propose_stores_the_proposal_as_created() {
    let dao = engine_with_proposal(5);
    assert_eq!(dao.proposal_length(), 1);
    let proposal = dao.get_proposal_by_id(1).unwrap();
    assert_eq!(proposal.proposal_id(), 1);
    assert_eq!(proposal.title(), "title");
    assert_eq!(proposal.desc(), "desc");
    assert_eq!(proposal.category(), 3);
    assert_eq!(proposal.start_block(), 10);
    assert_eq!(proposal.end_block(), 20);
    assert_eq!(proposal.for_votes(), 0);
    assert_eq!(proposal.against_votes(), 0);
    assert_eq!(proposal.owner(), account(2));
    assert!(!proposal.canceled());
    assert!(!proposal.executed());
    assert_eq!(*proposal.transaction(), action());
    assert_eq!(proposal.publicity_votes(), 0);
    assert_eq!(proposal.publicity_delay(), 5);
    assert!(!proposal.receipt_of(&account(2)).has_voted);
}

#[test]
fn propose_assigns_consecutive_identifiers() {
    let mut dao = engine_with_proposal(5);
    let second = dao.propose(
        String::from("second"),
        String::from("more"),
        1,
        30,
        40,
        action(),
        0,
        account(3),
        29,
        false,
    );
    assert_eq!(second, Ok(ProposalCreated { proposal_id: 2, creator: account(3) }));
    assert_eq!(dao.proposal_length(), 2);
    let list = dao.list_proposals();
    assert_eq!(list.len(), 2);
    assert_eq!(list[0].proposal_id(), 1);
    assert_eq!(list[0].title(), "title");
    assert_eq!(list[1].proposal_id(), 2);
    assert_eq!(list[1].title(), "second");
    assert_eq!(list[1].owner(), account(3));
}

#[test]
fn propose_rejects_a_window_that_does_not_end_after_it_starts() {
    let mut dao = engine_with_proposal(5);
    for (start, end) in [(10u32, 10u32), (10, 9), (10, 0), (u32::MAX, u32::MAX)] {
        let rejected = dao.propose(
            String::from("t"),
            String::from("d"),
            3,
            start,
            end,
            action(),
            1,
            account(2),
            5,
            true,
        );
        assert_eq!(rejected, Err(GovernanceError::InvalidWindow));
        assert_eq!(dao.fee_demand(start, end, account(2), 5), Err(GovernanceError::InvalidWindow));
        assert_eq!(dao.proposal_length(), 1);
        assert_eq!(dao.list_proposals().len(), 1);
    }
}

#[test]
fn propose_rejects_a_window_that_does_not_start_after_the_current_block() {
    let mut dao = engine_with_proposal(5);
    for current in [10u32, 11, 50] {
        let rejected = dao.propose(
            String::from("t"),
            String::from("d"),
            3,
            10,
            20,
            action(),
            1,
            account(2),
            current,
            true,
        );
        assert_eq!(rejected, Err(GovernanceError::InvalidWindow));
        assert_eq!(dao.proposal_length(), 1);
    }
    let accepted = dao.propose(
        String::from("t"),
        String::from("d"),
        3,
        10,
        20,
        action(),
        1,
        account(2),
        9,
        true,
    );
    assert_eq!(accepted, Ok(ProposalCreated { proposal_id: 2, creator: account(2) }));
}

#[test]
fn fee_is_demanded_only_when_charged() {
    let mut dao = DaoProposal::new(account(1), account(7), account(1));
    assert_eq!(dao.fee_demand(10, 20, account(2), 5), Ok(None));
    let limit = Limit { fee_open: true, fee_number: 250, fee_token: account(8) };
    assert_eq!(dao.set_permission(limit, account(1)), Ok(()));
    assert_eq!(dao.limit(), limit);
    assert_eq!(
        dao.fee_demand(10, 20, account(2), 5),
        Ok(Some(FeeDemand {
            token: account(8),
            from: account(2),
            to: AccountId::default(),
            amount: 250,
        }))
    );
}

#[test]
fn unpaid_fee_creates_no_proposal() {
    let mut dao = DaoProposal::new(account(1), account(7), account(1));
    let limit = Limit { fee_open: true, fee_number: 250, fee_token: account(8) };
    assert_eq!(dao.set_permission(limit, account(1)), Ok(()));
    let rejected = dao.propose(
        String::from("t"),
        String::from("d"),
        3,
        10,
        20,
        action(),
        1,
        account(2),
        5,
        false,
    );
    assert_eq!(rejected, Err(GovernanceError::FeePaymentFailed));
    assert_eq!(dao.proposal_length(), 0);
    assert_eq!(dao.get_proposal_by_id(1).err(), Some(GovernanceError::NotFound));
    let accepted = dao.propose(
        String::from("t"),
        String::from("d"),
        3,
        10,
        20,
        action(),
        1,
        account(2),
        5,
        true,
    );
    assert_eq!(accepted, Ok(ProposalCreated { proposal_id: 1, creator: account(2) }));
    assert_eq!(dao.proposal_length(), 1);
}

#[test]
fn invalid_window_is_reported_before_the_fee() {
    let mut dao = DaoProposal::new(account(1), account(7), account(1));
    let limit = Limit { fee_open: true, fee_number: 250, fee_token: account(8) };
    assert_eq!(dao.set_permission(limit, account(1)), Ok(()));
    let rejected = dao.propose(
        String::from("t"),
        String::from("d"),
        3,
        20,
        10,
        action(),
        1,
        account(2),
        5,
        false,
    );
    assert_eq!(rejected, Err(GovernanceError::InvalidWindow));
}

#[test]
fn configuration_is_changed_by_the_creator_only() {
    let mut dao = DaoProposal::new(account(1), account(7), account(3));
    let limit = Limit { fee_open: true, fee_number: 9, fee_token: account(8) };
    let thresholds = quorum_thresholds(40);
    // The account that constructed the engine is not its creator.
    assert_eq!(dao.set_permission(limit, account(3)), Err(GovernanceError::Unauthorized));
    assert_eq!(dao.set_vote_effective(thresholds, account(3)), Err(GovernanceError::Unauthorized));
    assert_eq!(
        dao.limit(),
        Limit { fee_open: false, fee_number: 1, fee_token: AccountId::default() }
    );
    assert_eq!(
        dao.vote_effective(),
        VoteEffective { category: 0, vote_scale: 0, entrust_scale: 0, support_scale: 0 }
    );
    assert_eq!(dao.set_permission(limit, account(1)), Ok(()));
    assert_eq!(dao.set_vote_effective(thresholds, account(1)), Ok(()));
    assert_eq!(dao.limit(), limit);
    assert_eq!(dao.vote_effective(), thresholds);
}

#[test]
fn state_follows_the_block_height() {
    let mut dao = engine_with_proposal(5);
    assert_eq!(dao.set_vote_effective(support_thresholds(50), account(1)), Ok(()));
    assert_eq!(dao.state(1, 5, 1000), Ok(ProposalState::Pending));
    assert_eq!(dao.state(1, 10, 1000), Ok(ProposalState::Pending));
    assert_eq!(dao.state(1, 11, 1000), Ok(ProposalState::Active));
    assert_eq!(dao.state(1, 15, 1000), Ok(ProposalState::Active));
    assert_eq!(dao.state(1, 20, 1000), Ok(ProposalState::Active));
    // Nobody voted: the support threshold is missed.
    assert_eq!(dao.state(1, 21, 1000), Ok(ProposalState::Defeated));
    assert_eq!(dao.state(1, 25, 1000), Ok(ProposalState::Defeated));
}

#[test]
fn state_with_thresholds_unmet_is_defeated() {
    let mut dao = engine_with_proposal(5);
    assert_eq!(dao.set_vote_effective(support_thresholds(70), account(1)), Ok(()));
    assert_eq!(dao.cast_vote(1, true, account(2), 15, 1000, 70), Ok(()));
    assert_eq!(dao.cast_vote(1, false, account(3), 15, 1000, 30), Ok(()));
    // 70 of 100 votes in favour do not exceed 70 percent.
    assert_eq!(dao.state(1, 25, 1000), Ok(ProposalState::Defeated));
    assert_eq!(dao.set_vote_effective(quorum_thresholds(10), account(1)), Ok(()));
    // 100 of 1000 votes cast do not exceed 10 percent.
    assert_eq!(dao.state(1, 25, 1000), Ok(ProposalState::Defeated));
}

#[test]
fn state_with_thresholds_met_is_publicity_then_queued() {
    let mut dao = engine_with_proposal(10);
    assert_eq!(dao.set_vote_effective(support_thresholds(69), account(1)), Ok(()));
    assert_eq!(dao.cast_vote(1, true, account(2), 15, 1000, 70), Ok(()));
    assert_eq!(dao.cast_vote(1, false, account(3), 15, 1000, 30), Ok(()));
    assert_eq!(dao.state(1, 21, 1000), Ok(ProposalState::Publicity));
    assert_eq!(dao.state(1, 27, 1000), Ok(ProposalState::Publicity));
    assert_eq!(dao.state(1, 29, 1000), Ok(ProposalState::Publicity));
    assert_eq!(dao.state(1, 30, 1000), Ok(ProposalState::Queued));
    assert_eq!(dao.state(1, 31, 1000), Ok(ProposalState::Queued));
}

#[test]
fn publicity_ends_with_the_delay_after_the_window() {
    // With a delay of 5 after block 20, publicity covers blocks 21 to 24.
    let mut dao = engine_with_proposal(5);
    assert_eq!(dao.set_vote_effective(support_thresholds(69), account(1)), Ok(()));
    assert_eq!(dao.cast_vote(1, true, account(2), 15, 1000, 70), Ok(()));
    assert_eq!(dao.state(1, 24, 1000), Ok(ProposalState::Publicity));
    assert_eq!(dao.state(1, 25, 1000), Ok(ProposalState::Queued));
    assert_eq!(dao.state(1, 27, 1000), Ok(ProposalState::Queued));
    assert_eq!(dao.state(1, 30, 1000), Ok(ProposalState::Queued));
}

#[test]
fn publicity_votes_above_the_votes_in_favour_defeat() {
    let mut dao = engine_with_proposal(5);
    assert_eq!(dao.cast_vote(1, true, account(2), 15, 1000, 70), Ok(()));
    assert_eq!(dao.public_vote(1, 22, 70), Ok(()));
    assert_eq!(dao.get_proposal_by_id(1).unwrap().publicity_votes(), 70);
    assert_eq!(dao.state(1, 30, 1000), Ok(ProposalState::Queued));
    // A later publicity vote replaces the earlier one.
    assert_eq!(dao.public_vote(1, 23, 71), Ok(()));
    assert_eq!(dao.get_proposal_by_id(1).unwrap().publicity_votes(), 71);
    assert_eq!(dao.state(1, 24, 1000), Ok(ProposalState::Publicity));
    assert_eq!(dao.state(1, 30, 1000), Ok(ProposalState::Defeated));
    assert_eq!(dao.exec(1, 30, 1000, true), Err(GovernanceError::NotQueued));
}

#[test]
fn public_vote_is_rejected_outside_publicity() {
    let mut dao = engine_with_proposal(5);
    assert_eq!(dao.set_vote_effective(support_thresholds(50), account(1)), Ok(()));
    assert_eq!(dao.cast_vote(1, true, account(2), 15, 1000, 70), Ok(()));
    for block in [5u32, 15, 20, 25, 26, 100] {
        assert_eq!(dao.public_vote(1, block, 5), Err(GovernanceError::NotInPublicityWindow));
    }
    assert_eq!(dao.get_proposal_by_id(1).unwrap().publicity_votes(), 0);
    assert_eq!(dao.public_vote(2, 22, 5), Err(GovernanceError::NotFound));
    assert_eq!(dao.public_vote(1, 21, 5), Ok(()));
    assert_eq!(dao.get_proposal_by_id(1).unwrap().publicity_votes(), 5);
}

#[test]
fn public_vote_is_accepted_inside_the_window_whatever_the_tally() {
    let mut dao = engine_with_proposal(5);
    let second = dao.propose(
        String::from("second"),
        String::from("more"),
        1,
        10,
        20,
        action(),
        5,
        account(3),
        5,
        false,
    );
    assert_eq!(second, Ok(ProposalCreated { proposal_id: 2, creator: account(3) }));
    assert_eq!(dao.set_vote_effective(support_thresholds(50), account(1)), Ok(()));
    assert_eq!(dao.cast_vote(1, false, account(4), 15, 1000, 30), Ok(()));
    // Nobody voted in favour: the proposal misses its threshold and reads as
    // defeated, and the block lies in the publicity window.
    assert_eq!(dao.state(1, 22, 1000), Ok(ProposalState::Defeated));
    assert_eq!(dao.get_proposal_by_id(1).unwrap().publicity_votes(), 0);
    assert_eq!(dao.public_vote(1, 22, 9), Ok(()));
    let proposal = dao.get_proposal_by_id(1).unwrap();
    assert_eq!(proposal.publicity_votes(), 9);
    assert_eq!(proposal.for_votes(), 0);
    assert_eq!(proposal.against_votes(), 30);
    assert_eq!(
        proposal.receipt_of(&account(4)),
        Receipt { has_voted: true, support: false, votes: 30 }
    );
    assert!(!proposal.receipt_of(&account(2)).has_voted);
    assert!(!proposal.canceled());
    assert!(!proposal.executed());
    let other = dao.get_proposal_by_id(2).unwrap();
    assert_eq!(other.publicity_votes(), 0);
    assert_eq!(other.for_votes(), 0);
    assert_eq!(other.against_votes(), 0);
    assert_eq!(dao.proposal_length(), 2);
    // The bounds of the window are exclusive.
    assert_eq!(dao.public_vote(1, 20, 1), Err(GovernanceError::NotInPublicityWindow));
    assert_eq!(dao.public_vote(1, 21, 1), Ok(()));
    assert_eq!(dao.public_vote(1, 24, 2), Ok(()));
    assert_eq!(dao.public_vote(1, 25, 3), Err(GovernanceError::NotInPublicityWindow));
    assert_eq!(dao.get_proposal_by_id(1).unwrap().publicity_votes(), 2);
}

#[test]
fn public_vote_is_accepted_inside_the_window_of_an_executed_proposal() {
    let mut dao = engine_with_proposal(5);
    assert_eq!(dao.cast_vote(1, true, account(2), 15, 1000, 70), Ok(()));
    assert_eq!(dao.exec(1, 25, 1000, true), Ok(()));
    assert_eq!(dao.public_vote(1, 26, 5), Err(GovernanceError::NotInPublicityWindow));
    assert_eq!(dao.public_vote(1, 22, 5), Ok(()));
    let proposal = dao.get_proposal_by_id(1).unwrap();
    assert_eq!(proposal.publicity_votes(), 5);
    assert!(proposal.executed());
    assert_eq!(dao.state(1, 26, 1000), Ok(ProposalState::Executed));
}

#[test]
fn public_vote_is_rejected_for_a_canceled_proposal() {
    let mut dao = engine_with_proposal(5);
    assert_eq!(dao.cancel(1, account(2), 15, 1000), Ok(()));
    assert_eq!(dao.public_vote(1, 22, 5), Err(GovernanceError::VotingClosed));
    assert_eq!(dao.public_vote(1, 20, 5), Err(GovernanceError::NotInPublicityWindow));
    assert_eq!(dao.public_vote(1, 25, 5), Err(GovernanceError::NotInPublicityWindow));
    assert_eq!(dao.get_proposal_by_id(1).unwrap().publicity_votes(), 0);
}

#[test]
fn state_is_the_same_when_asked_again() {
    let mut dao = engine_with_proposal(5);
    assert_eq!(dao.set_vote_effective(quorum_thresholds(5), account(1)), Ok(()));
    assert_eq!(dao.cast_vote(1, true, account(2), 15, 1000, 70), Ok(()));
    for block in [0u32, 10, 11, 20, 21, 24, 25, u32::MAX] {
        for supply in [0u128, 1, 1000, 1400, u128::MAX] {
            let first = dao.state(1, block, supply);
            let second = dao.state(1, block, supply);
            assert_eq!(first, second);
        }
    }
    assert_eq!(dao.get_proposal_by_id(1).unwrap().for_votes(), 70);
}

#[test]
fn state_of_an_unknown_proposal_is_not_found() {
    let dao = engine_with_proposal(5);
    assert_eq!(dao.state(0, 15, 1000), Err(GovernanceError::NotFound));
    assert_eq!(dao.state(2, 15, 1000), Err(GovernanceError::NotFound));
    assert_eq!(dao.state(u64::MAX, 15, 1000), Err(GovernanceError::NotFound));
    assert_eq!(dao.get_proposal_by_id(0).err(), Some(GovernanceError::NotFound));
    assert_eq!(dao.get_proposal_by_id(2).err(), Some(GovernanceError::NotFound));
}

#[test]
fn exec_succeeds_only_when_queued() {
    let mut dao = engine_with_proposal(5);
    assert_eq!(dao.cast_vote(1, true, account(2), 15, 1000, 70), Ok(()));
    for block in [5u32, 15, 21, 24] {
        assert_eq!(dao.exec(1, block, 1000, true), Err(GovernanceError::NotQueued));
        assert_eq!(dao.exec_action(1, block, 1000).err(), Some(GovernanceError::NotQueued));
        assert!(!dao.get_proposal_by_id(1).unwrap().executed());
    }
    assert_eq!(dao.exec(2, 25, 1000, true), Err(GovernanceError::NotFound));
    assert_eq!(dao.exec_action(2, 25, 1000).err(), Some(GovernanceError::NotFound));
    assert_eq!(dao.state(1, 25, 1000), Ok(ProposalState::Queued));
    assert_eq!(dao.exec_action(1, 25, 1000), Ok(action()));
    assert_eq!(dao.exec(1, 25, 1000, true), Ok(()));
    assert!(dao.get_proposal_by_id(1).unwrap().executed());
}

#[test]
fn executed_proposal_stays_executed() {
    let mut dao = engine_with_proposal(5);
    assert_eq!(dao.cast_vote(1, true, account(2), 15, 1000, 70), Ok(()));
    assert_eq!(dao.exec(1, 25, 1000, true), Ok(()));
    for block in [21u32, 25, 26, 1000, u32::MAX] {
        assert_eq!(dao.state(1, block, 1000), Ok(ProposalState::Executed));
        assert_eq!(dao.exec(1, block, 1000, true), Err(GovernanceError::NotQueued));
        assert_eq!(dao.exec(1, block, 1000, false), Err(GovernanceError::NotQueued));
        assert_eq!(dao.exec_action(1, block, 1000).err(), Some(GovernanceError::NotQueued));
    }
    assert!(dao.get_proposal_by_id(1).unwrap().executed());
}

#[test]
fn failed_dispatch_leaves_the_proposal_queued() {
    let mut dao = engine_with_proposal(5);
    assert_eq!(dao.cast_vote(1, true, account(2), 15, 1000, 70), Ok(()));
    assert_eq!(dao.exec(1, 25, 1000, false), Err(GovernanceError::ExecutorDispatchFailed));
    assert!(!dao.get_proposal_by_id(1).unwrap().executed());
    assert_eq!(dao.state(1, 25, 1000), Ok(ProposalState::Queued));
    assert_eq!(dao.exec(1, 26, 1000, true), Ok(()));
    assert_eq!(dao.state(1, 26, 1000), Ok(ProposalState::Executed));
}

#[test]
fn cancel_after_execution_is_rejected() {
    let mut dao = engine_with_proposal(5);
    assert_eq!(dao.cast_vote(1, true, account(2), 15, 1000, 70), Ok(()));
    assert_eq!(dao.exec(1, 25, 1000, true), Ok(()));
    assert_eq!(dao.cancel(1, account(2), 26, 1000), Err(GovernanceError::AlreadyExecuted));
    assert_eq!(dao.cancel(1, account(3), 26, 1000), Err(GovernanceError::AlreadyExecuted));
    let proposal = dao.get_proposal_by_id(1).unwrap();
    assert!(!proposal.canceled());
    assert!(proposal.executed());
}

#[test]
fn cancel_by_another_member_is_rejected() {
    let mut dao = engine_with_proposal(5);
    for block in [5u32, 15, 22, 30] {
        assert_eq!(dao.cancel(1, account(3), block, 1000), Err(GovernanceError::NotOwner));
        assert_eq!(dao.cancel(1, account(1), block, 1000), Err(GovernanceError::NotOwner));
        assert!(!dao.get_proposal_by_id(1).unwrap().canceled());
    }
    assert_eq!(dao.cancel(2, account(2), 5, 1000), Err(GovernanceError::NotFound));
}

#[test]
fn canceled_proposal_is_closed() {
    let mut dao = engine_with_proposal(5);
    assert_eq!(dao.cast_vote(1, true, account(2), 15, 1000, 70), Ok(()));
    assert_eq!(dao.cancel(1, account(2), 16, 1000), Ok(()));
    assert!(dao.get_proposal_by_id(1).unwrap().canceled());
    for block in [5u32, 15, 22, 25, 30] {
        assert_eq!(dao.state(1, block, 1000), Ok(ProposalState::Canceled));
        assert_eq!(
            dao.cast_vote(1, true, account(3), block, 1000, 5),
            Err(GovernanceError::VotingClosed)
        );
        let closed = if 20 < block && block < 25 {
            GovernanceError::VotingClosed
        } else {
            GovernanceError::NotInPublicityWindow
        };
        assert_eq!(dao.public_vote(1, block, 5), Err(closed));
        assert_eq!(dao.exec(1, block, 1000, true), Err(GovernanceError::NotQueued));
    }
    // Canceling again is accepted and changes nothing.
    assert_eq!(dao.cancel(1, account(2), 30, 1000), Ok(()));
    let proposal = dao.get_proposal_by_id(1).unwrap();
    assert!(proposal.canceled());
    assert!(!proposal.executed());
    assert_eq!(proposal.for_votes(), 70);
    assert_eq!(proposal.publicity_votes(), 0);
}

#[test]
fn stored_proposal_changes_only_through_the_engine() {
    let mut dao = engine_with_proposal(5);
    let before = dao.get_proposal_by_id(1).unwrap();
    assert_eq!(dao.cast_vote(1, true, account(2), 15, 1000, 70), Ok(()));
    // The copy handed out earlier is a snapshot.
    assert_eq!(before.for_votes(), 0);
    assert_eq!(dao.get_proposal_by_id(1).unwrap().for_votes(), 70);
    assert_eq!(dao.list_proposals()[0].for_votes(), 70);
}

#[test]
fn executed_proposal_is_read_through_the_thresholds_in_force() {
    let mut dao = engine_with_proposal(5);
    assert_eq!(dao.set_vote_effective(quorum_thresholds(5), account(1)), Ok(()));
    assert_eq!(dao.cast_vote(1, true, account(2), 15, 1000, 70), Ok(()));
    // 70 of 1000 is 7 percent, above the quorum of 5.
    assert_eq!(dao.exec(1, 25, 1000, true), Ok(()));
    assert_eq!(dao.state(1, 26, 1000), Ok(ProposalState::Executed));
    // Before the end of the window the block height decides.
    assert_eq!(dao.state(1, 20, 1000), Ok(ProposalState::Active));
    assert_eq!(dao.state(1, 10, 1000), Ok(ProposalState::Pending));
    // 70 of 1400 is 5 percent: under this supply the quorum is missed, and
    // the threshold is looked at before the executed mark.
    assert_eq!(dao.state(1, 26, 1400), Ok(ProposalState::Defeated));
    assert_eq!(dao.exec(1, 26, 1400, true), Err(GovernanceError::NotQueued));
    assert!(dao.get_proposal_by_id(1).unwrap().executed());
    // A proposal that does not read as executed can be canceled by its owner.
    assert_eq!(dao.cancel(1, account(3), 26, 1400), Err(GovernanceError::NotOwner));
    assert_eq!(dao.cancel(1, account(2), 26, 1000), Err(GovernanceError::AlreadyExecuted));
    assert_eq!(dao.cancel(1, account(2), 26, 1400), Ok(()));
    let proposal = dao.get_proposal_by_id(1).unwrap();
    assert!(proposal.canceled());
    assert!(proposal.executed());
    assert_eq!(dao.state(1, 26, 1000), Ok(ProposalState::Canceled));
}

#[test]
fn cancel_is_accepted_from_the_owner_in_every_state_but_executed() {
    for (block, state) in [
        (5u32, ProposalState::Pending),
        (15, ProposalState::Active),
        (22, ProposalState::Publicity),
        (30, ProposalState::Queued),
    ] {
        let mut dao = engine_with_proposal(5);
        assert_eq!(dao.state(1, block, 1000), Ok(state));
        assert_eq!(dao.cancel(1, account(2), block, 1000), Ok(()));
        assert!(dao.get_proposal_by_id(1).unwrap().canceled());
        assert_eq!(dao.state(1, block, 1000), Ok(ProposalState::Canceled));
    }
    let mut dao = engine_with_proposal(5);
    assert_eq!(dao.set_vote_effective(support_thresholds(50), account(1)), Ok(()));
    assert_eq!(dao.state(1, 30, 1000), Ok(ProposalState::Defeated));
    assert_eq!(dao.cancel(1, account(2), 30, 1000), Ok(()));
    assert_eq!(dao.state(1, 30, 1000), Ok(ProposalState::Canceled));
}

#[test]
fn publicity_window_of_a_short_delay_is_empty() {
    for delay in [0u32, 1] {
        let mut dao = engine_with_proposal(delay);
        for block in [19u32, 20, 21, 22] {
            assert_eq!(dao.public_vote(1, block, 5), Err(GovernanceError::NotInPublicityWindow));
        }
        assert_eq!(dao.state(1, 21, 1000), Ok(ProposalState::Queued));
    }
    let mut dao = engine_with_proposal(2);
    assert_eq!(dao.public_vote(1, 21, 5), Ok(()));
    assert_eq!(dao.public_vote(1, 22, 5), Err(GovernanceError::NotInPublicityWindow));
}
