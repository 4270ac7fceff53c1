use credify::dispute_resolution::{
    update, DisputeError, DisputeEvent, DisputeResolutionState, DisputeStatus, HostReplies,
    HostRequests, InitParams, ScoreRequest, SettleRequest, UpdateParams,
};
use credify::resolution::{DisputeResolution, VoteChoice};
use credify::types::{AccountAddress, Address, CallContext, ContractAddress};

const ADMIN: u8 = 1;
const BUYER: u8 = 2;
const SELLER: u8 = 3;
const OPENED_AT: u64 = 10_000;
const PERIOD_HOURS: u64 = 48;
const DEADLINE: u64 = OPENED_AT + PERIOD_HOURS * 3_600_000;

fn addr(tag: u8) -> AccountAddress {
    AccountAddress([tag; 32])
}

fn from(tag: u8) -> Address {
    Address::Account(addr(tag))
}

fn at(tag: u8, slot_time: u64) -> CallContext {
    CallContext { sender: from(tag), amount: 0, slot_time }
}

fn escrow_contract() -> ContractAddress {
    ContractAddress { index: 3, subindex: 0 }
}

fn empty(min_votes: u32, quorum: u8) -> DisputeResolutionState {
    DisputeResolutionState::init(InitParams {
        admin: addr(ADMIN),
        min_reputation_to_vote: 100,
        voting_period_hours: PERIOD_HOURS,
        min_votes_required: min_votes,
        quorum_percentage: quorum,
    })
}

fn open_case(min_votes: u32, quorum: u8) -> DisputeResolutionState {
    let mut state = empty(min_votes, quorum);
    let created = state.create_dispute(
        &at(ADMIN, OPENED_AT),
        17,
        addr(BUYER),
        addr(SELLER),
        2_500,
        String::from("never arrived"),
        vec![String::from("receipt")],
    );
    assert_eq!(created, Ok(0));
    state
}

fn vote(state: &mut DisputeResolutionState, tag: u8, choice: VoteChoice, reputation: u64) -> Result<u64, DisputeError> {
    state.cast_vote(&at(tag, OPENED_AT + 1), 0, choice, None, Some(reputation))
}

fn status(state: &DisputeResolutionState) -> DisputeStatus {
    state.get_dispute(0).unwrap().status
}

#[test]
fn dispute_init_starts_empty() {
    let state = empty(3, 51);
    assert!(state.disputes.is_empty() && state.votes.is_empty());
    assert_eq!(state.next_dispute_id, 0);
    assert_eq!(state.min_reputation_to_vote, 100);
    assert_eq!(state.voting_period_hours, PERIOD_HOURS);
    assert_eq!(state.min_votes_required, 3);
    assert_eq!(state.quorum_percentage, 51);
    assert_eq!(state.escrow_contract, None);
    assert_eq!(state.reputation_contract, None);
    assert!(state.get_dispute(0).is_none());
}

#[test]
fn create_dispute_records_the_case() {
    let state = open_case(1, 51);
    let dispute = state.get_dispute(0).unwrap();
    assert_eq!(dispute.escrow_id, 17);
    assert_eq!(dispute.buyer, addr(BUYER));
    assert_eq!(dispute.seller, addr(SELLER));
    assert_eq!(dispute.amount, 2_500);
    assert_eq!(dispute.reason, "never arrived");
    assert_eq!(dispute.evidence, vec![String::from("receipt")]);
    assert_eq!(dispute.initiated_by, from(ADMIN));
    assert_eq!(dispute.created_at, OPENED_AT);
    assert_eq!(dispute.voting_deadline, DEADLINE);
    assert_eq!(dispute.status, DisputeStatus::Open);
    assert_eq!(dispute.resolution, None);
    assert_eq!(dispute.total_vote_weight, 0);
    assert!(state.get_votes(0).is_empty());
    assert_eq!(state.next_dispute_id, 1);
}

#[test]
fn create_dispute_is_for_the_escrow_contract_or_admin() {
    let mut state = empty(1, 51);
    let as_contract = CallContext { sender: Address::Contract(escrow_contract()), amount: 0, slot_time: 5 };
    let open = |state: &mut DisputeResolutionState, ctx: &CallContext| {
        state.create_dispute(ctx, 1, addr(BUYER), addr(SELLER), 10, String::new(), vec![])
    };
    assert_eq!(open(&mut state, &as_contract), Err(DisputeError::Unauthorized));
    assert_eq!(open(&mut state, &at(BUYER, 5)), Err(DisputeError::Unauthorized));
    assert!(state.disputes.is_empty());
    state.set_contract_addresses(&from(ADMIN), Some(escrow_contract()), None).unwrap();
    assert_eq!(open(&mut state, &as_contract), Ok(0));
    assert_eq!(open(&mut state, &at(ADMIN, 5)), Ok(1));
    assert_eq!(state.get_dispute(0).unwrap().initiated_by, Address::Contract(escrow_contract()));
}

#[test]
fn create_dispute_is_refused_when_ids_are_exhausted() {
    let mut state = empty(1, 51);
    state.next_dispute_id = u64::MAX;
    let created =
        state.create_dispute(&at(ADMIN, 0), 1, addr(BUYER), addr(SELLER), 10, String::new(), vec![]);
    assert_eq!(created, Err(DisputeError::CapacityExceeded));
    assert!(state.disputes.is_empty());
}

#[test]
fn voting_deadline_saturates() {
    let mut state = empty(1, 51);
    state.update_parameters(&from(ADMIN), None, Some(u64::MAX), None, None).unwrap();
    state.create_dispute(&at(ADMIN, 7), 1, addr(BUYER), addr(SELLER), 10, String::new(), vec![]).unwrap();
    assert_eq!(state.get_dispute(0).unwrap().voting_deadline, u64::MAX);
}

#[test]
fn vote_is_recorded_with_its_weight() {
    let mut state = open_case(1, 51);
    let cast = state.cast_vote(
        &at(10, OPENED_AT + 5),
        0,
        VoteChoice::Split { seller_percentage: 100 },
        Some(String::from("seller shipped")),
        Some(900),
    );
    assert_eq!(cast, Ok(30));
    assert_eq!(vote(&mut state, 11, VoteChoice::FavorBuyer, 100), Ok(10));
    let votes = state.get_votes(0);
    assert_eq!(votes.len(), 2);
    assert_eq!(votes[0].voter, addr(10));
    assert_eq!(votes[0].choice, VoteChoice::Split { seller_percentage: 100 });
    assert_eq!(votes[0].weight, 30);
    assert_eq!(votes[0].timestamp, OPENED_AT + 5);
    assert_eq!(votes[0].comment, Some(String::from("seller shipped")));
    assert_eq!(votes[1].voter, addr(11));
    assert_eq!(votes[1].comment, None);
    assert_eq!(state.get_dispute(0).unwrap().total_vote_weight, 40);
}

#[test]
fn vote_on_the_deadline_counts() {
    let mut state = open_case(1, 51);
    let cast = state.cast_vote(&at(10, DEADLINE), 0, VoteChoice::FavorBuyer, None, Some(100));
    assert_eq!(cast, Ok(10));
    assert_eq!(status(&state), DisputeStatus::Open);
}

#[test]
fn vote_after_the_deadline_ends_the_voting() {
    let mut state = open_case(1, 51);
    let cast = state.cast_vote(&at(10, DEADLINE + 1), 0, VoteChoice::FavorBuyer, None, Some(100));
    assert_eq!(cast, Err(DisputeError::VotingEnded));
    assert_eq!(status(&state), DisputeStatus::VotingEnded);
    assert!(state.get_votes(0).is_empty());
    let again = state.cast_vote(&at(10, OPENED_AT), 0, VoteChoice::FavorBuyer, None, Some(100));
    assert_eq!(again, Err(DisputeError::InvalidStatus));
}

#[test]
fn neither_party_can_vote() {
    let mut state = open_case(1, 51);
    assert_eq!(vote(&mut state, BUYER, VoteChoice::FavorBuyer, 10_000), Err(DisputeError::Unauthorized));
    assert_eq!(vote(&mut state, SELLER, VoteChoice::FavorSeller, 10_000), Err(DisputeError::Unauthorized));
    assert_eq!(state.get_dispute(0).unwrap().total_vote_weight, 0);
    assert!(state.get_votes(0).is_empty());
}

#[test]
fn a_contract_cannot_vote() {
    let mut state = open_case(1, 51);
    let as_contract = CallContext { sender: Address::Contract(escrow_contract()), amount: 0, slot_time: OPENED_AT };
    let cast = state.cast_vote(&as_contract, 0, VoteChoice::FavorBuyer, None, Some(10_000));
    assert_eq!(cast, Err(DisputeError::Unauthorized));
}

#[test]
fn nobody_votes_twice() {
    let mut state = open_case(1, 51);
    assert_eq!(vote(&mut state, 10, VoteChoice::FavorBuyer, 400), Ok(20));
    assert_eq!(vote(&mut state, 11, VoteChoice::FavorBuyer, 400), Ok(20));
    assert_eq!(vote(&mut state, 10, VoteChoice::FavorSeller, 400), Err(DisputeError::AlreadyVoted));
    assert_eq!(vote(&mut state, 11, VoteChoice::FavorSeller, 400), Err(DisputeError::AlreadyVoted));
    assert_eq!(state.get_votes(0).len(), 2);
    assert_eq!(state.get_dispute(0).unwrap().total_vote_weight, 40);
}

#[test]
fn vote_needs_the_reputation_lookup() {
    let mut state = open_case(1, 51);
    let cast = state.cast_vote(&at(10, OPENED_AT), 0, VoteChoice::FavorBuyer, None, None);
    assert_eq!(cast, Err(DisputeError::InvokeContractError));
    assert!(state.get_votes(0).is_empty());
}

#[test]
fn vote_needs_the_minimum_reputation() {
    let mut state = open_case(1, 51);
    assert_eq!(vote(&mut state, 10, VoteChoice::FavorBuyer, 99), Err(DisputeError::InsufficientReputation));
    assert_eq!(vote(&mut state, 10, VoteChoice::FavorBuyer, 100), Ok(10));
}

#[test]
fn split_vote_needs_a_percentage() {
    let mut state = open_case(1, 51);
    let over = VoteChoice::Split { seller_percentage: 101 };
    assert_eq!(vote(&mut state, 10, over, 400), Err(DisputeError::InvalidSplitPercentage));
    assert_eq!(vote(&mut state, 10, VoteChoice::Split { seller_percentage: 100 }, 400), Ok(20));
    assert_eq!(vote(&mut state, 11, VoteChoice::Split { seller_percentage: 0 }, 400), Ok(20));
}

#[test]
fn vote_errors_come_in_order() {
    let mut state = open_case(1, 51);
    let over = VoteChoice::Split { seller_percentage: 200 };
    assert_eq!(state.cast_vote(&at(BUYER, DEADLINE + 1), 4, over, None, None), Err(DisputeError::DisputeNotFound));
    assert_eq!(state.cast_vote(&at(BUYER, OPENED_AT), 0, over, None, None), Err(DisputeError::Unauthorized));
    assert_eq!(state.cast_vote(&at(10, OPENED_AT), 0, over, None, None), Err(DisputeError::InvokeContractError));
    assert_eq!(state.cast_vote(&at(10, OPENED_AT), 0, over, None, Some(1)), Err(DisputeError::InsufficientReputation));
    vote(&mut state, 10, VoteChoice::FavorBuyer, 100).unwrap();
    assert_eq!(state.cast_vote(&at(10, OPENED_AT), 0, over, None, None), Err(DisputeError::AlreadyVoted));
    assert_eq!(state.cast_vote(&at(BUYER, DEADLINE + 1), 0, over, None, None), Err(DisputeError::VotingEnded));
}

#[test]
fn total_weight_cannot_overflow() {
    let mut state = open_case(1, 51);
    let mut dispute = state.disputes.remove(&0).unwrap();
    dispute.total_vote_weight = u64::MAX - 9;
    state.disputes.insert(0, dispute);
    assert_eq!(vote(&mut state, 10, VoteChoice::FavorBuyer, 100), Err(DisputeError::CapacityExceeded));
    assert!(state.get_votes(0).is_empty());
    assert_eq!(vote(&mut state, 10, VoteChoice::FavorBuyer, 99 * 99), Err(DisputeError::CapacityExceeded));
    assert_eq!(vote(&mut state, 10, VoteChoice::FavorBuyer, 81), Err(DisputeError::InsufficientReputation));
}

#[test]
fn evidence_is_appended_by_the_parties() {
    let mut state = open_case(1, 51);
    assert_eq!(state.add_evidence(&from(SELLER), 0, String::from("tracking")), Ok(()));
    assert_eq!(state.add_evidence(&from(BUYER), 0, String::from("chat log")), Ok(()));
    assert_eq!(state.add_evidence(&from(ADMIN), 0, String::from("x")), Err(DisputeError::Unauthorized));
    assert_eq!(state.add_evidence(&from(BUYER), 1, String::from("x")), Err(DisputeError::DisputeNotFound));
    assert_eq!(
        state.get_dispute(0).unwrap().evidence,
        vec![String::from("receipt"), String::from("tracking"), String::from("chat log")]
    );
}

#[test]
fn evidence_needs_an_open_dispute() {
    let mut state = open_case(1, 51);
    state.cancel(&from(ADMIN), 0).unwrap();
    assert_eq!(state.add_evidence(&from(BUYER), 0, String::from("x")), Err(DisputeError::InvalidStatus));
    assert_eq!(state.get_dispute(0).unwrap().evidence.len(), 1);
}

#[test]
fn resolve_needs_the_deadline_to_have_passed() {
    let mut state = open_case(0, 51);
    assert_eq!(state.resolve(OPENED_AT, 0, true), Err(DisputeError::VotingStillActive));
    assert_eq!(state.resolve(DEADLINE, 0, true), Err(DisputeError::VotingStillActive));
    assert_eq!(state.pending_resolution(DEADLINE, 0), Err(DisputeError::VotingStillActive));
    assert_eq!(status(&state), DisputeStatus::Open);
    assert_eq!(state.pending_resolution(DEADLINE + 1, 0), Ok(DisputeResolution::FavorBuyer));
    assert_eq!(state.resolve(DEADLINE + 1, 0, true), Ok(DisputeResolution::FavorBuyer));
    assert_eq!(status(&state), DisputeStatus::Resolved);
}

#[test]
fn resolve_needs_enough_votes() {
    let mut state = open_case(2, 51);
    vote(&mut state, 10, VoteChoice::FavorSeller, 100).unwrap();
    assert_eq!(state.resolve(DEADLINE + 1, 0, true), Err(DisputeError::InsufficientVotes));
    assert_eq!(state.resolve(DEADLINE + 1, 5, true), Err(DisputeError::DisputeNotFound));
    assert_eq!(status(&state), DisputeStatus::Open);
    vote(&mut state, 11, VoteChoice::FavorSeller, 100).unwrap();
    assert_eq!(state.resolve(DEADLINE + 1, 0, true), Ok(DisputeResolution::FavorSeller));
    assert_eq!(state.get_dispute(0).unwrap().resolution, Some(DisputeResolution::FavorSeller));
}

#[test]
fn resolve_works_after_voting_ended() {
    let mut state = open_case(1, 51);
    vote(&mut state, 10, VoteChoice::Split { seller_percentage: 70 }, 100).unwrap();
    let late = state.cast_vote(&at(11, DEADLINE + 1), 0, VoteChoice::FavorBuyer, None, Some(100));
    assert_eq!(late, Err(DisputeError::VotingEnded));
    assert_eq!(
        state.resolve(DEADLINE + 2, 0, true),
        Ok(DisputeResolution::Split { seller_percentage: 70 })
    );
}

#[test]
fn resolution_is_written_once() {
    let mut state = open_case(1, 51);
    vote(&mut state, 10, VoteChoice::FavorSeller, 100).unwrap();
    assert_eq!(state.resolve(DEADLINE + 1, 0, true), Ok(DisputeResolution::FavorSeller));
    let resolved = Some(DisputeResolution::FavorSeller);
    assert_eq!(state.resolve(DEADLINE + 1, 0, true), Err(DisputeError::InvalidStatus));
    assert_eq!(state.resolve(DEADLINE + 9_999, 0, false), Err(DisputeError::InvalidStatus));
    assert_eq!(state.resolve(DEADLINE, 0, true), Err(DisputeError::VotingStillActive));
    assert_eq!(state.cancel(&from(ADMIN), 0), Err(DisputeError::InvalidStatus));
    assert_eq!(vote(&mut state, 11, VoteChoice::FavorBuyer, 10_000), Err(DisputeError::InvalidStatus));
    assert_eq!(state.add_evidence(&from(BUYER), 0, String::new()), Err(DisputeError::InvalidStatus));
    state.update_parameters(&from(ADMIN), Some(0), Some(0), Some(0), Some(0)).unwrap();
    state.create_dispute(&at(ADMIN, 0), 1, addr(BUYER), addr(SELLER), 1, String::new(), vec![]).unwrap();
    assert_eq!(state.get_dispute(0).unwrap().resolution, resolved);
    assert_eq!(status(&state), DisputeStatus::Resolved);
}

#[test]
fn resolve_fails_with_the_escrow_call() {
    let mut state = open_case(1, 51);
    vote(&mut state, 10, VoteChoice::FavorSeller, 100).unwrap();
    state.set_contract_addresses(&from(ADMIN), Some(escrow_contract()), None).unwrap();
    assert_eq!(state.resolve(DEADLINE + 1, 0, false), Err(DisputeError::InvokeContractError));
    assert_eq!(status(&state), DisputeStatus::Open);
    assert_eq!(state.get_dispute(0).unwrap().resolution, None);
    assert_eq!(state.resolve(DEADLINE + 1, 0, true), Ok(DisputeResolution::FavorSeller));
}

#[test]
fn resolve_without_escrow_contract_makes_no_call() {
    let mut state = open_case(1, 51);
    vote(&mut state, 10, VoteChoice::FavorSeller, 100).unwrap();
    assert_eq!(state.resolve(DEADLINE + 1, 0, false), Ok(DisputeResolution::FavorSeller));
}

#[test]
fn cancel_is_for_the_admin() {
    let mut state = open_case(1, 51);
    assert_eq!(state.cancel(&from(BUYER), 0), Err(DisputeError::Unauthorized));
    assert_eq!(state.cancel(&from(BUYER), 9), Err(DisputeError::Unauthorized));
    assert_eq!(state.cancel(&from(ADMIN), 9), Err(DisputeError::DisputeNotFound));
    assert_eq!(state.cancel(&from(ADMIN), 0), Ok(()));
    assert_eq!(status(&state), DisputeStatus::Cancelled);
    assert_eq!(state.cancel(&from(ADMIN), 0), Ok(()));
    assert_eq!(status(&state), DisputeStatus::Cancelled);
    assert_eq!(state.resolve(DEADLINE + 1, 0, true), Err(DisputeError::InvalidStatus));
}

#[test]
fn parameters_are_set_where_given() {
    let mut state = empty(3, 51);
    assert_eq!(
        state.update_parameters(&from(BUYER), Some(1), Some(1), Some(1), Some(1)),
        Err(DisputeError::Unauthorized)
    );
    assert_eq!(state.min_reputation_to_vote, 100);
    assert_eq!(state.update_parameters(&from(ADMIN), None, None, None, None), Ok(()));
    assert_eq!(
        (state.min_reputation_to_vote, state.voting_period_hours, state.min_votes_required, state.quorum_percentage),
        (100, PERIOD_HOURS, 3, 51)
    );
    assert_eq!(state.update_parameters(&from(ADMIN), Some(7), None, Some(9), Some(100)), Ok(()));
    assert_eq!(
        (state.min_reputation_to_vote, state.voting_period_hours, state.min_votes_required, state.quorum_percentage),
        (7, PERIOD_HOURS, 9, 100)
    );
    assert_eq!(state.update_parameters(&from(ADMIN), None, Some(1), None, Some(101)), Ok(()));
    assert_eq!((state.voting_period_hours, state.quorum_percentage), (1, 100));
}

#[test]
fn peer_addresses_are_set_where_given() {
    let mut state = empty(3, 51);
    let reputation = ContractAddress { index: 4, subindex: 0 };
    assert_eq!(
        state.set_contract_addresses(&from(SELLER), Some(escrow_contract()), Some(reputation)),
        Err(DisputeError::Unauthorized)
    );
    assert_eq!(state.set_contract_addresses(&from(ADMIN), None, Some(reputation)), Ok(()));
    assert_eq!((state.escrow_contract, state.reputation_contract), (None, Some(reputation)));
    assert_eq!(state.set_contract_addresses(&from(ADMIN), Some(escrow_contract()), None), Ok(()));
    assert_eq!((state.escrow_contract, state.reputation_contract), (Some(escrow_contract()), Some(reputation)));
}

#[test]
fn votes_of_an_unknown_dispute_are_none() {
    let state = open_case(1, 51);
    assert!(state.get_votes(3).is_empty());
}

#[test]
fn dispute_update_reports_each_change() {
    let mut state = empty(1, 51);
    let replies = HostReplies { reputation: Some(2_500), escrow_settled: true };
    let create = UpdateParams::CreateDispute {
        escrow_id: 17,
        buyer: addr(BUYER),
        seller: addr(SELLER),
        amount: 2_500,
        reason: String::from("late"),
        evidence: vec![],
    };
    assert_eq!(
        update(&mut state, &at(ADMIN, OPENED_AT), create, &replies),
        Ok(vec![DisputeEvent::DisputeCreated {
            dispute_id: 0,
            escrow_id: 17,
            buyer: addr(BUYER),
            seller: addr(SELLER),
            amount: 2_500,
        }])
    );
    let choice = VoteChoice::FavorSeller;
    let cast = UpdateParams::Vote { dispute_id: 0, choice, comment: None };
    assert_eq!(
        update(&mut state, &at(10, OPENED_AT), cast, &replies),
        Ok(vec![DisputeEvent::VoteCast { dispute_id: 0, voter: addr(10), choice, weight: 50 }])
    );
    let evidence = UpdateParams::AddEvidence { dispute_id: 0, evidence: String::from("photo") };
    assert_eq!(
        update(&mut state, &at(SELLER, OPENED_AT), evidence, &replies),
        Ok(vec![DisputeEvent::EvidenceAdded {
            dispute_id: 0,
            added_by: addr(SELLER),
            evidence: String::from("photo"),
        }])
    );
    assert_eq!(state.get_dispute(0).unwrap().evidence, vec![String::from("photo")]);
    let resolve = UpdateParams::ResolveDispute { dispute_id: 0 };
    assert_eq!(
        update(&mut state, &at(10, DEADLINE + 1), resolve, &replies),
        Ok(vec![DisputeEvent::DisputeResolved {
            dispute_id: 0,
            resolution: DisputeResolution::FavorSeller,
            total_votes: 1,
            total_weight: 50,
        }])
    );
}

#[test]
fn dispute_update_admin_operations() {
    let mut state = open_case(1, 51);
    let replies = HostReplies { reputation: None, escrow_settled: false };
    let parameters = UpdateParams::UpdateParameters {
        min_reputation_to_vote: Some(5),
        voting_period_hours: None,
        min_votes_required: None,
        quorum_percentage: Some(60),
    };
    assert_eq!(update(&mut state, &at(ADMIN, 0), parameters, &replies), Ok(vec![]));
    assert_eq!((state.min_reputation_to_vote, state.quorum_percentage), (5, 60));
    let peers = UpdateParams::SetContractAddresses {
        escrow_contract: Some(escrow_contract()),
        reputation_contract: None,
    };
    assert_eq!(update(&mut state, &at(ADMIN, 0), peers, &replies), Ok(vec![]));
    let cancel = UpdateParams::CancelDispute { dispute_id: 0 };
    assert_eq!(
        update(&mut state, &at(ADMIN, 0), cancel, &replies),
        Ok(vec![DisputeEvent::DisputeCancelled { dispute_id: 0 }])
    );
    let vote = UpdateParams::Vote { dispute_id: 0, choice: VoteChoice::FavorBuyer, comment: None };
    assert_eq!(update(&mut state, &at(10, 0), vote, &replies), Err(DisputeError::InvalidStatus));
}

#[test]
fn host_is_asked_for_the_score_of_a_voter() {
    let mut state = open_case(1, 51);
    let reputation = ContractAddress { index: 4, subindex: 0 };
    let nothing = HostRequests { reputation: None, settle: None };
    let ballot = || UpdateParams::Vote { dispute_id: 0, choice: VoteChoice::FavorBuyer, comment: None };
    assert_eq!(state.host_requests(&at(10, OPENED_AT), &ballot()), nothing);
    state.set_contract_addresses(&from(ADMIN), None, Some(reputation)).unwrap();
    assert_eq!(
        state.host_requests(&at(10, OPENED_AT), &ballot()),
        HostRequests {
            reputation: Some(ScoreRequest { reputation_contract: reputation, account: addr(10) }),
            settle: None,
        }
    );
    assert_eq!(state.host_requests(&at(BUYER, OPENED_AT), &ballot()), nothing);
    assert_eq!(state.host_requests(&at(SELLER, OPENED_AT), &ballot()), nothing);
    assert_eq!(state.host_requests(&at(10, DEADLINE + 1), &ballot()), nothing);
    let elsewhere = UpdateParams::Vote { dispute_id: 9, choice: VoteChoice::FavorBuyer, comment: None };
    assert_eq!(state.host_requests(&at(10, OPENED_AT), &elsewhere), nothing);
    let as_contract = CallContext { sender: Address::Contract(reputation), amount: 0, slot_time: OPENED_AT };
    assert_eq!(state.host_requests(&as_contract, &ballot()), nothing);
    vote(&mut state, 10, VoteChoice::FavorBuyer, 100).unwrap();
    assert_eq!(state.host_requests(&at(10, OPENED_AT), &ballot()), nothing);
    assert!(state.host_requests(&at(11, OPENED_AT), &ballot()).reputation.is_some());
    state.cancel(&from(ADMIN), 0).unwrap();
    assert_eq!(state.host_requests(&at(11, OPENED_AT), &ballot()), nothing);
}

#[test]
fn host_is_asked_to_settle_the_escrow() {
    let mut state = open_case(1, 51);
    vote(&mut state, 10, VoteChoice::FavorSeller, 100).unwrap();
    let nothing = HostRequests { reputation: None, settle: None };
    let resolve = UpdateParams::ResolveDispute { dispute_id: 0 };
    assert_eq!(state.host_requests(&at(10, DEADLINE + 1), &resolve), nothing);
    state.set_contract_addresses(&from(ADMIN), Some(escrow_contract()), None).unwrap();
    assert_eq!(
        state.host_requests(&at(10, DEADLINE + 1), &resolve),
        HostRequests {
            reputation: None,
            settle: Some(SettleRequest {
                escrow_contract: escrow_contract(),
                escrow_id: 17,
                resolution: DisputeResolution::FavorSeller,
            }),
        }
    );
    assert_eq!(state.host_requests(&at(10, DEADLINE), &resolve), nothing);
    let missing = UpdateParams::ResolveDispute { dispute_id: 2 };
    assert_eq!(state.host_requests(&at(10, DEADLINE + 1), &missing), nothing);
    let cancel = UpdateParams::CancelDispute { dispute_id: 0 };
    assert_eq!(state.host_requests(&at(ADMIN, DEADLINE + 1), &cancel), nothing);
    state.resolve(DEADLINE + 1, 0, true).unwrap();
    assert_eq!(state.host_requests(&at(10, DEADLINE + 1), &resolve), nothing);
}
