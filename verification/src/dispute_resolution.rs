//! The dispute ledger: cases, evidence and votes, and their life cycle.

use vstd::prelude::*;
use vstd::std_specs::iter::IteratorSpec;
use std::collections::BTreeMap;
use crate::auth::{
    is_account, is_account_spec, is_admin_or_peer, is_admin_or_peer_spec, is_either,
    is_either_spec,
};
pub use crate::resolution::{DisputeResolution, Vote, VoteChoice};
use crate::resolution::{
    calculate_resolution, calculate_vote_weight, lemma_tally_push, lemma_vote_weight_defined,
    resolution_of, tally, vote_valid,
    vote_weight, votes_valid, Tally, MAX_VOTE_WEIGHT, MIN_VOTE_WEIGHT,
};
use crate::time::{deadline_after, deadline_spec};
use crate::types::{AccountAddress, Address, CallContext, ContractAddress};

verus! {

/// Dispute identifier.
pub type DisputeId = u64;

/// Dispute status.
#[derive(Clone, Copy, Debug, PartialEq, Eq, Structural)]
pub enum DisputeStatus {
    /// Dispute is open for voting.
    Open,
    /// Voting period ended, resolution pending.
    VotingEnded,
    /// Dispute resolved.
    Resolved,
    /// Dispute cancelled by admin.
    Cancelled,
}

/// Dispute details.
#[derive(Debug, PartialEq, Eq)]
pub struct DisputeDetails {
    /// Escrow this dispute relates to.
    pub escrow_id: u64,
    /// Buyer account.
    pub buyer: AccountAddress,
    /// Seller account.
    pub seller: AccountAddress,
    /// Disputed amount, in micro-CCD.
    pub amount: u64,
    /// Reason for dispute.
    pub reason: String,
    /// Evidence provided, as references to where it is kept.
    pub evidence: Vec<String>,
    /// Who opened the dispute.
    pub initiated_by: Address,
    /// When the dispute was created, in milliseconds.
    pub created_at: u64,
    /// Deadline for voting.
    pub voting_deadline: u64,
    /// Current status.
    pub status: DisputeStatus,
    /// Final resolution, once resolved.
    pub resolution: Option<DisputeResolution>,
    /// Total weight of votes received.
    pub total_vote_weight: u64,
}

/// Contract state.
pub struct DisputeResolutionState {
    /// Map of dispute id to dispute details.
    pub disputes: BTreeMap<DisputeId, DisputeDetails>,
    /// Map of dispute id to votes, in the order they were cast.
    pub votes: BTreeMap<DisputeId, Vec<Vote>>,
    /// Admin account.
    pub admin: AccountAddress,
    /// Escrow contract address.
    pub escrow_contract: Option<ContractAddress>,
    /// Reputation contract address.
    pub reputation_contract: Option<ContractAddress>,
    /// Next dispute id.
    pub next_dispute_id: DisputeId,
    /// Minimum reputation required to vote.
    pub min_reputation_to_vote: u64,
    /// Voting period in hours.
    pub voting_period_hours: u64,
    /// Minimum votes required for resolution.
    pub min_votes_required: u32,
    /// Quorum percentage (51 for 51%).
    pub quorum_percentage: u8,
}

/// Contract initialization parameters.
#[derive(Clone, Copy, Debug)]
pub struct InitParams {
    pub admin: AccountAddress,
    pub min_reputation_to_vote: u64,
    pub voting_period_hours: u64,
    pub min_votes_required: u32,
    pub quorum_percentage: u8,
}

/// Why a dispute operation was refused.
#[derive(Clone, Copy, Debug, PartialEq, Eq, Structural)]
pub enum DisputeError {
    /// The caller may not perform this action.
    Unauthorized,
    /// Dispute not found.
    DisputeNotFound,
    /// Invalid dispute status for this operation.
    InvalidStatus,
    /// Voting period has ended.
    VotingEnded,
    /// Voting period still active.
    VotingStillActive,
    /// Insufficient reputation to vote.
    InsufficientReputation,
    /// Already voted on this dispute.
    AlreadyVoted,
    /// Insufficient votes for resolution.
    InsufficientVotes,
    /// Invalid split percentage.
    InvalidSplitPercentage,
    /// Contract address not set.
    ContractNotSet,
    /// Parse error.
    ParseError,
    /// Contract invocation error.
    InvokeContractError,
    /// A counter of the ledger cannot grow any further.
    CapacityExceeded,
}

/// The operations of the ledger.
#[derive(Debug)]
#[allow(inconsistent_fields)]
pub enum UpdateParams {
    /// Create a new dispute.
    CreateDispute {
        escrow_id: u64,
        buyer: AccountAddress,
        seller: AccountAddress,
        amount: u64,
        reason: String,
        evidence: Vec<String>,
    },
    /// Cast a vote on a dispute.
    Vote { dispute_id: DisputeId, choice: VoteChoice, comment: Option<String> },
    /// Resolve a dispute, after the voting period.
    ResolveDispute { dispute_id: DisputeId },
    /// Add evidence to an existing dispute.
    AddEvidence { dispute_id: DisputeId, evidence: String },
    /// Cancel dispute, as the admin.
    CancelDispute { dispute_id: DisputeId },
    /// Update contract parameters, as the admin.
    UpdateParameters {
        min_reputation_to_vote: Option<u64>,
        voting_period_hours: Option<u64>,
        min_votes_required: Option<u32>,
        quorum_percentage: Option<u8>,
    },
    /// Set contract addresses, as the admin.
    SetContractAddresses {
        escrow_contract: Option<ContractAddress>,
        reputation_contract: Option<ContractAddress>,
    },
}

/// What the ledger reports of a change.
#[derive(Debug, PartialEq, Eq)]
pub enum DisputeEvent {
    /// New dispute created.
    DisputeCreated {
        dispute_id: DisputeId,
        escrow_id: u64,
        buyer: AccountAddress,
        seller: AccountAddress,
        amount: u64,
    },
    /// Vote cast.
    VoteCast { dispute_id: DisputeId, voter: AccountAddress, choice: VoteChoice, weight: u64 },
    /// Evidence added.
    EvidenceAdded { dispute_id: DisputeId, added_by: AccountAddress, evidence: String },
    /// Dispute resolved.
    DisputeResolved {
        dispute_id: DisputeId,
        resolution: DisputeResolution,
        total_votes: u64,
        total_weight: u64,
    },
    /// Dispute cancelled.
    DisputeCancelled { dispute_id: DisputeId },
}

/// What the host answered to the outside work that an operation depends on.
#[derive(Clone, Copy, Debug)]
pub struct HostReplies {
    /// The reputation of the caller, as the reputation ledger gave it, or
    /// `None` when it gave no answer.
    pub reputation: Option<u64>,
    /// Whether the escrow contract applied the outcome of the dispute that a
    /// `ResolveDispute` names.
    pub escrow_settled: bool,
}

/// A score to ask the reputation ledger for.
#[derive(Clone, Copy, Debug, PartialEq, Eq)]
pub struct ScoreRequest {
    /// The reputation contract to ask.
    pub reputation_contract: ContractAddress,
    /// The account whose score is asked for.
    pub account: AccountAddress,
}

/// An outcome for the escrow ledger to apply.
#[derive(Clone, Copy, Debug, PartialEq, Eq)]
pub struct SettleRequest {
    /// The escrow contract to ask.
    pub escrow_contract: ContractAddress,
    /// The escrow to settle.
    pub escrow_id: u64,
    /// The outcome to settle it by.
    pub resolution: DisputeResolution,
}

/// The outside work that an operation depends on, for the host to carry out
/// before it hands the operation to `update`.
#[derive(Clone, Copy, Debug, PartialEq, Eq)]
pub struct HostRequests {
    /// The score to look up.
    pub reputation: Option<ScoreRequest>,
    /// The outcome to have applied.
    pub settle: Option<SettleRequest>,
}

/// A dispute as a mathematical value.
pub struct DisputeView {
    pub escrow_id: u64,
    pub buyer: AccountAddress,
    pub seller: AccountAddress,
    pub amount: u64,
    pub reason: String,
    pub evidence: Seq<String>,
    pub initiated_by: Address,
    pub created_at: u64,
    pub voting_deadline: u64,
    pub status: DisputeStatus,
    pub resolution: Option<DisputeResolution>,
    pub total_vote_weight: u64,
}

impl View for DisputeDetails {
    type V = DisputeView;

    open spec fn view(&self) -> DisputeView {
        DisputeView {
            escrow_id: self.escrow_id,
            buyer: self.buyer,
            seller: self.seller,
            amount: self.amount,
            reason: self.reason,
            evidence: self.evidence@,
            initiated_by: self.initiated_by,
            created_at: self.created_at,
            voting_deadline: self.voting_deadline,
            status: self.status,
            resolution: self.resolution,
            total_vote_weight: self.total_vote_weight,
        }
    }
}

/// The ledger as a mathematical value.
pub struct DisputeLedger {
    pub disputes: Map<DisputeId, DisputeView>,
    pub votes: Map<DisputeId, Seq<Vote>>,
    pub admin: AccountAddress,
    pub escrow_contract: Option<ContractAddress>,
    pub reputation_contract: Option<ContractAddress>,
    pub next_dispute_id: DisputeId,
    pub min_reputation_to_vote: u64,
    pub voting_period_hours: u64,
    pub min_votes_required: u32,
    pub quorum_percentage: u8,
}

impl View for DisputeResolutionState {
    type V = DisputeLedger;

    open spec fn view(&self) -> DisputeLedger {
        DisputeLedger {
            disputes: Map::new(
                |id: DisputeId| self.disputes@.contains_key(id),
                |id: DisputeId| self.disputes@[id]@,
            ),
            votes: Map::new(
                |id: DisputeId| self.votes@.contains_key(id),
                |id: DisputeId| self.votes@[id]@,
            ),
            admin: self.admin,
            escrow_contract: self.escrow_contract,
            reputation_contract: self.reputation_contract,
            next_dispute_id: self.next_dispute_id,
            min_reputation_to_vote: self.min_reputation_to_vote,
            voting_period_hours: self.voting_period_hours,
            min_votes_required: self.min_votes_required,
            quorum_percentage: self.quorum_percentage,
        }
    }
}

/// Whether the account has a vote among `votes`.
pub open spec fn has_voted(votes: Seq<Vote>, voter: AccountAddress) -> bool {
    exists|i: int| 0 <= i < votes.len() && (#[trigger] votes[i]).voter == voter
}

/// Whether no two of the votes share a voter.
pub open spec fn voters_distinct(votes: Seq<Vote>) -> bool {
    forall|i: int, j: int|
        0 <= i < j < votes.len() ==> (#[trigger] votes[i]).voter != (#[trigger] votes[j]).voter
}

/// What holds of a dispute and its votes at all times: each vote has a weight
/// in `[1, 100]` and, for a split, a percentage of at most 100; no two votes
/// share a voter; neither party has a vote; the dispute's total is the sum of
/// the weights; and the dispute has a resolution exactly when it is `Resolved`.
pub open spec fn dispute_wf(dispute: DisputeView, votes: Seq<Vote>) -> bool {
    &&& votes_valid(votes)
    &&& voters_distinct(votes)
    &&& !has_voted(votes, dispute.buyer)
    &&& !has_voted(votes, dispute.seller)
    &&& dispute.total_vote_weight == tally(votes, Tally::Total)
    &&& dispute.resolution is Some <==> dispute.status == DisputeStatus::Resolved
}

/// What each operation does to the ledger and what it answers. An operation
/// that is refused leaves the ledger as it was, but for a vote that comes
/// after the deadline, which ends the voting; where several reasons apply it
/// gives the one that is named first.
impl DisputeLedger {
    /// Every dispute has an id that was handed out and a list of votes, and
    /// is well formed together with it.
    pub open spec fn wf(self) -> bool {
        &&& self.votes.dom() =~= self.disputes.dom()
        &&& forall|id: DisputeId| #[trigger]
            self.disputes.contains_key(id) ==> id < self.next_dispute_id && dispute_wf(
                self.disputes[id],
                self.votes[id],
            )
    }

    /// A new ledger without disputes.
    pub open spec fn init(params: InitParams) -> DisputeLedger {
        DisputeLedger {
            disputes: Map::empty(),
            votes: Map::empty(),
            admin: params.admin,
            escrow_contract: None,
            reputation_contract: None,
            next_dispute_id: 0,
            min_reputation_to_vote: params.min_reputation_to_vote,
            voting_period_hours: params.voting_period_hours,
            min_votes_required: params.min_votes_required,
            quorum_percentage: params.quorum_percentage,
        }
    }

    /// The ledger with one dispute replaced.
    pub open spec fn with_dispute(self, id: DisputeId, dispute: DisputeView) -> DisputeLedger {
        DisputeLedger { disputes: self.disputes.insert(id, dispute), ..self }
    }

    /// The ledger with the status of one dispute changed.
    pub open spec fn with_status(self, id: DisputeId, status: DisputeStatus) -> DisputeLedger {
        self.with_dispute(id, DisputeView { status, ..self.disputes[id] })
    }

    /// Opens a case on an escrow, for the registered escrow contract or the
    /// admin. Voting is open until the voting period after now has passed.
    /// Refused with `CapacityExceeded` when no id is left.
    pub open spec fn create_dispute(
        self,
        ctx: CallContext,
        escrow_id: u64,
        buyer: AccountAddress,
        seller: AccountAddress,
        amount: u64,
        reason: String,
        evidence: Seq<String>,
    ) -> (DisputeLedger, Result<DisputeId, DisputeError>) {
        if !is_admin_or_peer_spec(ctx.sender, self.escrow_contract, self.admin) {
            (self, Err(DisputeError::Unauthorized))
        } else if self.next_dispute_id == u64::MAX {
            (self, Err(DisputeError::CapacityExceeded))
        } else {
            let dispute = DisputeView {
                escrow_id,
                buyer,
                seller,
                amount,
                reason,
                evidence,
                initiated_by: ctx.sender,
                created_at: ctx.slot_time,
                voting_deadline: deadline_spec(ctx.slot_time, self.voting_period_hours),
                status: DisputeStatus::Open,
                resolution: None,
                total_vote_weight: 0,
            };
            (
                DisputeLedger {
                    disputes: self.disputes.insert(self.next_dispute_id, dispute),
                    votes: self.votes.insert(self.next_dispute_id, Seq::empty()),
                    next_dispute_id: (self.next_dispute_id + 1) as u64,
                    ..self
                },
                Ok(self.next_dispute_id),
            )
        }
    }

    /// Records the caller's vote on an `Open` dispute and answers its weight.
    ///
    /// A vote after the deadline is refused with `VotingEnded` and makes the
    /// dispute `VotingEnded`. A caller that is no account, or is the buyer or
    /// the seller of the dispute, is `Unauthorized`; one with a vote already
    /// has `AlreadyVoted`. `reputation` is what the reputation ledger answered
    /// for the caller: without an answer the vote is refused with
    /// `InvokeContractError`, below the minimum with `InsufficientReputation`.
    /// A split of more than 100 percent is an `InvalidSplitPercentage`, and a
    /// total weight beyond `u64` is `CapacityExceeded`.
    pub open spec fn cast_vote(
        self,
        ctx: CallContext,
        id: DisputeId,
        choice: VoteChoice,
        comment: Option<String>,
        reputation: Option<u64>,
    ) -> (DisputeLedger, Result<u64, DisputeError>) {
        if !self.disputes.contains_key(id) {
            (self, Err(DisputeError::DisputeNotFound))
        } else if self.disputes[id].status != DisputeStatus::Open {
            (self, Err(DisputeError::InvalidStatus))
        } else if ctx.slot_time > self.disputes[id].voting_deadline {
            (self.with_status(id, DisputeStatus::VotingEnded), Err(DisputeError::VotingEnded))
        } else if ctx.sender is Contract || is_either_spec(
            ctx.sender,
            self.disputes[id].buyer,
            self.disputes[id].seller,
        ) {
            (self, Err(DisputeError::Unauthorized))
        } else if has_voted(self.votes[id], ctx.sender->Account_0) {
            (self, Err(DisputeError::AlreadyVoted))
        } else if reputation is None {
            (self, Err(DisputeError::InvokeContractError))
        } else if reputation->Some_0 < self.min_reputation_to_vote {
            (self, Err(DisputeError::InsufficientReputation))
        } else if choice matches VoteChoice::Split { seller_percentage } && seller_percentage > 100 {
            (self, Err(DisputeError::InvalidSplitPercentage))
        } else if self.disputes[id].total_vote_weight + vote_weight(reputation->Some_0) > u64::MAX {
            (self, Err(DisputeError::CapacityExceeded))
        } else {
            let weight = vote_weight(reputation->Some_0);
            let vote = Vote {
                voter: ctx.sender->Account_0,
                choice,
                weight,
                timestamp: ctx.slot_time,
                comment,
            };
            (
                DisputeLedger {
                    disputes: self.disputes.insert(
                        id,
                        DisputeView {
                            total_vote_weight: (self.disputes[id].total_vote_weight + weight) as u64,
                            ..self.disputes[id]
                        },
                    ),
                    votes: self.votes.insert(id, self.votes[id].push(vote)),
                    ..self
                },
                Ok(weight),
            )
        }
    }

    /// Appends evidence to an `Open` dispute, for its buyer or its seller.
    pub open spec fn add_evidence(
        self,
        caller: Address,
        id: DisputeId,
        evidence: String,
    ) -> (DisputeLedger, Result<(), DisputeError>) {
        if !self.disputes.contains_key(id) {
            (self, Err(DisputeError::DisputeNotFound))
        } else if !is_either_spec(caller, self.disputes[id].buyer, self.disputes[id].seller) {
            (self, Err(DisputeError::Unauthorized))
        } else if self.disputes[id].status != DisputeStatus::Open {
            (self, Err(DisputeError::InvalidStatus))
        } else {
            (
                self.with_dispute(
                    id,
                    DisputeView {
                        evidence: self.disputes[id].evidence.push(evidence),
                        ..self.disputes[id]
                    },
                ),
                Ok(()),
            )
        }
    }

    /// The outcome that resolving a dispute now would give, or why it cannot
    /// be resolved: before the deadline has passed the voting is still active,
    /// a dispute that is `Resolved` or `Cancelled` has the wrong status, and
    /// fewer votes than the minimum are insufficient.
    pub open spec fn pending_resolution(
        self,
        now: u64,
        id: DisputeId,
    ) -> Result<DisputeResolution, DisputeError> {
        if !self.disputes.contains_key(id) {
            Err(DisputeError::DisputeNotFound)
        } else if now <= self.disputes[id].voting_deadline {
            Err(DisputeError::VotingStillActive)
        } else if self.disputes[id].status != DisputeStatus::Open && self.disputes[id].status
            != DisputeStatus::VotingEnded {
            Err(DisputeError::InvalidStatus)
        } else if self.votes[id].len() < self.min_votes_required {
            Err(DisputeError::InsufficientVotes)
        } else {
            Ok(resolution_of(self.votes[id], self.quorum_percentage))
        }
    }

    /// Resolves a dispute by its votes and answers the outcome, which the
    /// escrow ledger is to apply. While an escrow contract is registered the
    /// dispute is resolved only if that contract applied the outcome, and is
    /// refused with `InvokeContractError` otherwise.
    pub open spec fn resolve(
        self,
        now: u64,
        id: DisputeId,
        escrow_settled: bool,
    ) -> (DisputeLedger, Result<DisputeResolution, DisputeError>) {
        match self.pending_resolution(now, id) {
            Err(error) => (self, Err(error)),
            Ok(resolution) => if self.escrow_contract is Some && !escrow_settled {
                (self, Err(DisputeError::InvokeContractError))
            } else {
                (
                    self.with_dispute(
                        id,
                        DisputeView {
                            status: DisputeStatus::Resolved,
                            resolution: Some(resolution),
                            ..self.disputes[id]
                        },
                    ),
                    Ok(resolution),
                )
            },
        }
    }

    /// Cancels, for the admin, a dispute that is not `Resolved`.
    pub open spec fn cancel(
        self,
        caller: Address,
        id: DisputeId,
    ) -> (DisputeLedger, Result<(), DisputeError>) {
        if !is_account_spec(caller, self.admin) {
            (self, Err(DisputeError::Unauthorized))
        } else if !self.disputes.contains_key(id) {
            (self, Err(DisputeError::DisputeNotFound))
        } else if self.disputes[id].status == DisputeStatus::Resolved {
            (self, Err(DisputeError::InvalidStatus))
        } else {
            (self.with_status(id, DisputeStatus::Cancelled), Ok(()))
        }
    }

    /// Sets, for the admin, those parameters that are given. A quorum of more
    /// than 100 percent is passed over.
    pub open spec fn update_parameters(
        self,
        caller: Address,
        min_reputation_to_vote: Option<u64>,
        voting_period_hours: Option<u64>,
        min_votes_required: Option<u32>,
        quorum_percentage: Option<u8>,
    ) -> (DisputeLedger, Result<(), DisputeError>) {
        if !is_account_spec(caller, self.admin) {
            (self, Err(DisputeError::Unauthorized))
        } else {
            (
                DisputeLedger {
                    min_reputation_to_vote: min_reputation_to_vote.unwrap_or(
                        self.min_reputation_to_vote,
                    ),
                    voting_period_hours: voting_period_hours.unwrap_or(self.voting_period_hours),
                    min_votes_required: min_votes_required.unwrap_or(self.min_votes_required),
                    quorum_percentage: match quorum_percentage {
                        Some(quorum) if quorum <= 100 => quorum,
                        _ => self.quorum_percentage,
                    },
                    ..self
                },
                Ok(()),
            )
        }
    }

    /// Registers, for the admin, those peer contracts that are given.
    pub open spec fn set_contract_addresses(
        self,
        caller: Address,
        escrow_contract: Option<ContractAddress>,
        reputation_contract: Option<ContractAddress>,
    ) -> (DisputeLedger, Result<(), DisputeError>) {
        if !is_account_spec(caller, self.admin) {
            (self, Err(DisputeError::Unauthorized))
        } else {
            (
                DisputeLedger {
                    escrow_contract: if escrow_contract is Some {
                        escrow_contract
                    } else {
                        self.escrow_contract
                    },
                    reputation_contract: if reputation_contract is Some {
                        reputation_contract
                    } else {
                        self.reputation_contract
                    },
                    ..self
                },
                Ok(()),
            )
        }
    }

    /// What an operation does to the ledger, and the events of an accepted
    /// one.
    pub open spec fn update(
        self,
        ctx: CallContext,
        params: UpdateParams,
        host: HostReplies,
    ) -> (DisputeLedger, Result<Seq<DisputeEvent>, DisputeError>) {
        match params {
            UpdateParams::CreateDispute { escrow_id, buyer, seller, amount, reason, evidence } => {
                let (after, created) = self.create_dispute(
                    ctx,
                    escrow_id,
                    buyer,
                    seller,
                    amount,
                    reason,
                    evidence@,
                );
                match created {
                    Ok(dispute_id) => (
                        after,
                        Ok(
                            seq![
                                DisputeEvent::DisputeCreated {
                                    dispute_id,
                                    escrow_id,
                                    buyer,
                                    seller,
                                    amount,
                                },
                            ],
                        ),
                    ),
                    Err(error) => (after, Err(error)),
                }
            },
            UpdateParams::Vote { dispute_id, choice, comment } => {
                let (after, cast) = self.cast_vote(ctx, dispute_id, choice, comment, host.reputation);
                match cast {
                    Ok(weight) => (
                        after,
                        Ok(
                            seq![
                                DisputeEvent::VoteCast {
                                    dispute_id,
                                    voter: ctx.sender->Account_0,
                                    choice,
                                    weight,
                                },
                            ],
                        ),
                    ),
                    Err(error) => (after, Err(error)),
                }
            },
            UpdateParams::ResolveDispute { dispute_id } => {
                let (after, resolved) = self.resolve(ctx.slot_time, dispute_id, host.escrow_settled);
                match resolved {
                    Ok(resolution) => (
                        after,
                        Ok(
                            seq![
                                DisputeEvent::DisputeResolved {
                                    dispute_id,
                                    resolution,
                                    total_votes: self.votes[dispute_id].len() as u64,
                                    total_weight: self.disputes[dispute_id].total_vote_weight,
                                },
                            ],
                        ),
                    ),
                    Err(error) => (after, Err(error)),
                }
            },
            UpdateParams::AddEvidence { dispute_id, evidence } => {
                let (after, done) = self.add_evidence(ctx.sender, dispute_id, evidence);
                match done {
                    Ok(_) => (
                        after,
                        Ok(
                            seq![
                                DisputeEvent::EvidenceAdded {
                                    dispute_id,
                                    added_by: ctx.sender->Account_0,
                                    evidence,
                                },
                            ],
                        ),
                    ),
                    Err(error) => (after, Err(error)),
                }
            },
            UpdateParams::CancelDispute { dispute_id } => {
                let (after, done) = self.cancel(ctx.sender, dispute_id);
                match done {
                    Ok(_) => (after, Ok(seq![DisputeEvent::DisputeCancelled { dispute_id }])),
                    Err(error) => (after, Err(error)),
                }
            },
            UpdateParams::UpdateParameters {
                min_reputation_to_vote,
                voting_period_hours,
                min_votes_required,
                quorum_percentage,
            } => {
                let (after, done) = self.update_parameters(
                    ctx.sender,
                    min_reputation_to_vote,
                    voting_period_hours,
                    min_votes_required,
                    quorum_percentage,
                );
                match done {
                    Ok(_) => (after, Ok(Seq::empty())),
                    Err(error) => (after, Err(error)),
                }
            },
            UpdateParams::SetContractAddresses { escrow_contract, reputation_contract } => {
                let (after, done) = self.set_contract_addresses(
                    ctx.sender,
                    escrow_contract,
                    reputation_contract,
                );
                match done {
                    Ok(_) => (after, Ok(Seq::empty())),
                    Err(error) => (after, Err(error)),
                }
            },
        }
    }

    /// The outside work that an operation depends on. A vote that is not
    /// refused before the voter's reputation is looked at needs that score,
    /// and a dispute that can be resolved needs its outcome applied, each
    /// while the contract to ask is registered.
    pub open spec fn host_requests(self, ctx: CallContext, params: UpdateParams) -> HostRequests {
        HostRequests {
            reputation: match params {
                UpdateParams::Vote { dispute_id, choice, comment } => if self.cast_vote(
                    ctx,
                    dispute_id,
                    choice,
                    comment,
                    None,
                ).1 == Err::<u64, DisputeError>(DisputeError::InvokeContractError)
                    && self.reputation_contract is Some {
                    Some(
                        ScoreRequest {
                            reputation_contract: self.reputation_contract->0,
                            account: ctx.sender->Account_0,
                        },
                    )
                } else {
                    None
                },
                _ => None,
            },
            settle: match params {
                UpdateParams::ResolveDispute { dispute_id } => match (
                    self.pending_resolution(ctx.slot_time, dispute_id),
                    self.escrow_contract,
                ) {
                    (Ok(resolution), Some(escrow_contract)) => Some(
                        SettleRequest {
                            escrow_contract,
                            escrow_id: self.disputes[dispute_id].escrow_id,
                            resolution,
                        },
                    ),
                    _ => None,
                },
                _ => None,
            },
        }
    }

    /// Opening a case keeps the ledger well formed.
    pub proof fn lemma_create_dispute_wf(
        self,
        ctx: CallContext,
        escrow_id: u64,
        buyer: AccountAddress,
        seller: AccountAddress,
        amount: u64,
        reason: String,
        evidence: Seq<String>,
    )
        requires
            self.wf(),
        ensures
            self.create_dispute(ctx, escrow_id, buyer, seller, amount, reason, evidence).0.wf(),
    {
        let after = self.create_dispute(ctx, escrow_id, buyer, seller, amount, reason, evidence).0;
        if after != self {
            assert forall|id: DisputeId| #[trigger] after.disputes.contains_key(id) implies id
                < after.next_dispute_id && dispute_wf(after.disputes[id], after.votes[id]) by {
                if id != self.next_dispute_id {
                    assert(self.disputes.contains_key(id));
                }
            }
        }
    }

    /// Casting a vote keeps the ledger well formed: the recorded vote has a
    /// weight in `[1, 100]` and a voter that no other vote of the dispute has.
    pub proof fn lemma_cast_vote_wf(
        self,
        ctx: CallContext,
        id: DisputeId,
        choice: VoteChoice,
        comment: Option<String>,
        reputation: Option<u64>,
    )
        requires
            self.wf(),
        ensures
            self.cast_vote(ctx, id, choice, comment, reputation).0.wf(),
    {
        let (after, cast) = self.cast_vote(ctx, id, choice, comment, reputation);
        if after != self {
            assert(self.disputes.contains_key(id));
            let before_votes = self.votes[id];
            let after_votes = after.votes[id];
            if cast is Ok {
                let rep = reputation->Some_0;
                let vote = after_votes.last();
                assert(after_votes == before_votes.push(vote));
                lemma_vote_weight_defined(rep);
                lemma_tally_push(before_votes, vote, Tally::Total);
                assert(vote_valid(vote));
                assert forall|i: int| 0 <= i < after_votes.len() implies vote_valid(
                    #[trigger] after_votes[i],
                ) by {
                    if i < before_votes.len() {
                        assert(vote_valid(before_votes[i]));
                    }
                }
                assert forall|i: int, j: int| 0 <= i < j < after_votes.len() implies (
                #[trigger] after_votes[i]).voter != (#[trigger] after_votes[j]).voter by {
                    if j < before_votes.len() {
                        assert(before_votes[i].voter != before_votes[j].voter);
                    } else {
                        assert(before_votes[i].voter != vote.voter);
                    }
                }
                assert forall|i: int| 0 <= i < after_votes.len() implies (
                #[trigger] after_votes[i]).voter != self.disputes[id].buyer
                    && after_votes[i].voter != self.disputes[id].seller by {
                    if i < before_votes.len() {
                        assert(before_votes[i].voter != self.disputes[id].buyer);
                        assert(before_votes[i].voter != self.disputes[id].seller);
                    }
                }
                assert(dispute_wf(after.disputes[id], after_votes));
            }
            assert forall|other: DisputeId| #[trigger] after.disputes.contains_key(other) implies other
                < after.next_dispute_id && dispute_wf(after.disputes[other], after.votes[other]) by {
                assert(self.disputes.contains_key(other));
            }
        }
    }

    /// Adding evidence keeps the ledger well formed.
    pub proof fn lemma_add_evidence_wf(self, caller: Address, id: DisputeId, evidence: String)
        requires
            self.wf(),
        ensures
            self.add_evidence(caller, id, evidence).0.wf(),
    {
        let after = self.add_evidence(caller, id, evidence).0;
        if after != self {
            assert forall|other: DisputeId| #[trigger] after.disputes.contains_key(other) implies other
                < after.next_dispute_id && dispute_wf(after.disputes[other], after.votes[other]) by {
                assert(self.disputes.contains_key(other));
            }
        }
    }

    /// Resolving a dispute keeps the ledger well formed.
    pub proof fn lemma_resolve_wf(self, now: u64, id: DisputeId, escrow_settled: bool)
        requires
            self.wf(),
        ensures
            self.resolve(now, id, escrow_settled).0.wf(),
    {
        let after = self.resolve(now, id, escrow_settled).0;
        if after != self {
            assert forall|other: DisputeId| #[trigger] after.disputes.contains_key(other) implies other
                < after.next_dispute_id && dispute_wf(after.disputes[other], after.votes[other]) by {
                assert(self.disputes.contains_key(other));
            }
        }
    }

    /// Cancelling a dispute keeps the ledger well formed.
    pub proof fn lemma_cancel_wf(self, caller: Address, id: DisputeId)
        requires
            self.wf(),
        ensures
            self.cancel(caller, id).0.wf(),
    {
        let after = self.cancel(caller, id).0;
        if after != self {
            assert forall|other: DisputeId| #[trigger] after.disputes.contains_key(other) implies other
                < after.next_dispute_id && dispute_wf(after.disputes[other], after.votes[other]) by {
                assert(self.disputes.contains_key(other));
            }
        }
    }
}

fn voted_already(votes: &Vec<Vote>, voter: &AccountAddress) -> (found: bool)
    ensures
        found == has_voted(votes@, *voter),
{
    let mut i: usize = 0;
    while i < votes.len()
        invariant
            i <= votes.len(),
            forall|j: int| 0 <= j < i ==> (#[trigger] votes@[j]).voter != *voter,
        decreases votes.len() - i,
    {
        if votes[i].voter == *voter {
            return true;
        }
        i = i + 1;
    }
    false
}

fn dispute_is_well_formed(dispute: &DisputeDetails, votes: &Vec<Vote>) -> (well_formed: bool)
    ensures
        well_formed == dispute_wf(dispute@, votes@),
{
    let mut total: u128 = 0;
    let mut i: usize = 0;
    assert(votes@.take(0) =~= Seq::<Vote>::empty());
    while i < votes.len()
        invariant
            i <= votes.len(),
            total == tally(votes@.take(i as int), Tally::Total),
            total <= i * u64::MAX,
            forall|k: int| 0 <= k < i ==> vote_valid(#[trigger] votes@[k]),
            forall|k: int|
                0 <= k < i ==> (#[trigger] votes@[k]).voter != dispute.buyer && votes@[k].voter
                    != dispute.seller,
            forall|k: int, l: int|
                0 <= k < l < i ==> (#[trigger] votes@[k]).voter != (#[trigger] votes@[l]).voter,
        decreases votes.len() - i,
    {
        let vote = &votes[i];
        if vote.weight < MIN_VOTE_WEIGHT || vote.weight > MAX_VOTE_WEIGHT {
            assert(!vote_valid(votes@[i as int]));
            return false;
        }
        if let VoteChoice::Split { seller_percentage } = vote.choice {
            if seller_percentage > 100 {
                assert(!vote_valid(votes@[i as int]));
                return false;
            }
        }
        if vote.voter == dispute.buyer || vote.voter == dispute.seller {
            assert(votes@[i as int].voter == vote.voter);
            return false;
        }
        let mut j: usize = 0;
        while j < i
            invariant
                j <= i < votes.len(),
                *vote == votes@[i as int],
                forall|k: int| 0 <= k < j ==> (#[trigger] votes@[k]).voter != vote.voter,
            decreases i - j,
        {
            if votes[j].voter == vote.voter {
                assert(votes@[j as int].voter == votes@[i as int].voter);
                return false;
            }
            j = j + 1;
        }
        proof {
            assert(votes@.take(i + 1).drop_last() =~= votes@.take(i as int));
            assert(i * u64::MAX + u64::MAX == (i + 1) * u64::MAX) by (nonlinear_arith);
            assert(i * u64::MAX + u64::MAX <= u128::MAX) by (nonlinear_arith)
                requires
                    i < 0x1_0000_0000_0000_0000,
            ;
        }
        total = total + vote.weight as u128;
        i = i + 1;
    }
    assert(votes@.take(i as int) =~= votes@);
    if total != dispute.total_vote_weight as u128 {
        return false;
    }
    let resolved = match dispute.status {
        DisputeStatus::Resolved => true,
        _ => false,
    };
    dispute.resolution.is_some() == resolved
}

impl DisputeResolutionState {
    /// Initialize the dispute ledger.
    pub fn init(params: InitParams) -> (state: DisputeResolutionState)
        ensures
            state@ == DisputeLedger::init(params),
            state@.wf(),
    {
        let state = DisputeResolutionState {
            disputes: BTreeMap::new(),
            votes: BTreeMap::new(),
            admin: params.admin,
            escrow_contract: None,
            reputation_contract: None,
            next_dispute_id: 0,
            min_reputation_to_vote: params.min_reputation_to_vote,
            voting_period_hours: params.voting_period_hours,
            min_votes_required: params.min_votes_required,
            quorum_percentage: params.quorum_percentage,
        };
        assert(state@.disputes =~= Map::empty());
        assert(state@.votes =~= Map::empty());
        state
    }

    /// Whether the ledger is well formed.
    pub fn is_well_formed(&self) -> (well_formed: bool)
        ensures
            well_formed == self@.wf(),
    {
        broadcast use vstd::std_specs::btree::group_btree_axioms;

        for entry in it: self.disputes.iter()
            invariant
                it.seq() == self.disputes.iter().remaining(),
                forall|i: int|
                    0 <= i < it.index() ==> {
                        let id = *(#[trigger] it.seq()[i]).0;
                        &&& id < self.next_dispute_id
                        &&& self.votes@.contains_key(id)
                        &&& dispute_wf(self.disputes@[id]@, self.votes@[id]@)
                    },
        {
            let id = *entry.0;
            assert(self.disputes@.contains_key(*it.seq()[it.index()].0));
            assert(self@.disputes.contains_key(id));
            if id >= self.next_dispute_id {
                return false;
            }
            match self.votes.get(&id) {
                None => {
                    assert(!self@.votes.dom().contains(id));
                    return false;
                },
                Some(votes) => {
                    if !dispute_is_well_formed(entry.1, votes) {
                        return false;
                    }
                },
            }
        }
        for entry in it: self.votes.iter()
            invariant
                it.seq() == self.votes.iter().remaining(),
                forall|i: int|
                    0 <= i < it.index() ==> self.disputes@.contains_key(
                        *(#[trigger] it.seq()[i]).0,
                    ),
                forall|id: DisputeId| #[trigger]
                    self@.disputes.contains_key(id) ==> id < self@.next_dispute_id
                        && self@.votes.contains_key(id) && dispute_wf(
                        self@.disputes[id],
                        self@.votes[id],
                    ),
        {
            assert(self.votes@.contains_key(*it.seq()[it.index()].0));
            assert(self@.votes.contains_key(*entry.0));
            if !self.disputes.contains_key(entry.0) {
                assert(!self@.disputes.dom().contains(*entry.0));
                return false;
            }
        }
        true
    }

    /// Get dispute details.
    pub fn get_dispute(&self, dispute_id: DisputeId) -> (dispute: Option<&DisputeDetails>)
        ensures
            (match dispute {
                Some(details) => self@.disputes.contains_key(dispute_id) && details@
                    == self@.disputes[dispute_id],
                None => !self@.disputes.contains_key(dispute_id),
            }),
    {
        broadcast use vstd::std_specs::btree::group_btree_axioms;

        self.disputes.get(&dispute_id)
    }

    /// Get the votes of a dispute, in the order they were cast; none for an
    /// unknown dispute.
    pub fn get_votes(&self, dispute_id: DisputeId) -> (votes: Vec<Vote>)
        ensures
            votes@ == (if self@.votes.contains_key(dispute_id) {
                self@.votes[dispute_id]
            } else {
                Seq::empty()
            }),
    {
        broadcast use vstd::std_specs::btree::group_btree_axioms;

        let mut copies: Vec<Vote> = Vec::new();
        match self.votes.get(&dispute_id) {
            None => {},
            Some(votes) => {
                let mut i: usize = 0;
                while i < votes.len()
                    invariant
                        i <= votes.len(),
                        copies@ == votes@.take(i as int),
                    decreases votes.len() - i,
                {
                    copies.push(votes[i].clone());
                    assert(copies@ =~= votes@.take(i + 1));
                    i = i + 1;
                }
                assert(votes@.take(i as int) =~= votes@);
            },
        }
        copies
    }

    fn put_dispute(&mut self, dispute_id: DisputeId, dispute: DisputeDetails)
        ensures
            final(self)@ == old(self)@.with_dispute(dispute_id, dispute@),
    {
        self.disputes.insert(dispute_id, dispute);
        assert(final(self)@.disputes =~= old(self)@.disputes.insert(dispute_id, dispute@));
    }

    fn put_votes(&mut self, dispute_id: DisputeId, votes: Vec<Vote>)
        ensures
            final(self)@ == (DisputeLedger {
                votes: old(self)@.votes.insert(dispute_id, votes@),
                ..old(self)@
            }),
    {
        self.votes.insert(dispute_id, votes);
        assert(final(self)@.votes =~= old(self)@.votes.insert(dispute_id, votes@));
    }

    fn set_status(&mut self, dispute_id: DisputeId, status: DisputeStatus)
        requires
            old(self)@.disputes.contains_key(dispute_id),
        ensures
            final(self)@ == old(self)@.with_status(dispute_id, status),
    {
        broadcast use vstd::std_specs::btree::group_btree_axioms;

        let removed = self.disputes.remove(&dispute_id);
        let mut dispute = removed.unwrap();
        dispute.status = status;
        self.disputes.insert(dispute_id, dispute);
        assert(final(self)@.disputes =~= old(self)@.with_status(dispute_id, status).disputes);
    }

    /// Create a new dispute, as the escrow contract or the admin.
    pub fn create_dispute(
        &mut self,
        ctx: &CallContext,
        escrow_id: u64,
        buyer: AccountAddress,
        seller: AccountAddress,
        amount: u64,
        reason: String,
        evidence: Vec<String>,
    ) -> (created: Result<DisputeId, DisputeError>)
        requires
            old(self)@.wf(),
        ensures
            final(self)@.wf(),
            (final(self)@, created) == old(self)@.create_dispute(
                *ctx,
                escrow_id,
                buyer,
                seller,
                amount,
                reason,
                evidence@,
            ),
    {
        proof {
            old(self)@.lemma_create_dispute_wf(*ctx, escrow_id, buyer, seller, amount, reason, evidence@);
        }
        if !is_admin_or_peer(&ctx.sender, &self.escrow_contract, &self.admin) {
            return Err(DisputeError::Unauthorized);
        }
        if self.next_dispute_id == u64::MAX {
            return Err(DisputeError::CapacityExceeded);
        }
        let dispute_id = self.next_dispute_id;
        let dispute = DisputeDetails {
            escrow_id,
            buyer,
            seller,
            amount,
            reason,
            evidence,
            initiated_by: ctx.sender,
            created_at: ctx.slot_time,
            voting_deadline: deadline_after(ctx.slot_time, self.voting_period_hours),
            status: DisputeStatus::Open,
            resolution: None,
            total_vote_weight: 0,
        };
        self.put_dispute(dispute_id, dispute);
        self.put_votes(dispute_id, Vec::new());
        self.next_dispute_id = dispute_id + 1;
        Ok(dispute_id)
    }

    /// Cast a vote on a dispute.
    ///
    /// `reputation` is what the reputation ledger answered for the caller, or
    /// `None` when it gave no answer.
    pub fn cast_vote(
        &mut self,
        ctx: &CallContext,
        dispute_id: DisputeId,
        choice: VoteChoice,
        comment: Option<String>,
        reputation: Option<u64>,
    ) -> (cast: Result<u64, DisputeError>)
        requires
            old(self)@.wf(),
        ensures
            final(self)@.wf(),
            (final(self)@, cast) == old(self)@.cast_vote(
                *ctx,
                dispute_id,
                choice,
                comment,
                reputation,
            ),
    {
        broadcast use vstd::std_specs::btree::group_btree_axioms;

        proof {
            old(self)@.lemma_cast_vote_wf(*ctx, dispute_id, choice, comment, reputation);
        }
        let dispute = match self.disputes.get(&dispute_id) {
            Some(dispute) => dispute,
            None => {
                return Err(DisputeError::DisputeNotFound);
            },
        };
        if dispute.status != DisputeStatus::Open {
            return Err(DisputeError::InvalidStatus);
        }
        if ctx.slot_time > dispute.voting_deadline {
            self.set_status(dispute_id, DisputeStatus::VotingEnded);
            return Err(DisputeError::VotingEnded);
        }
        let voter = match ctx.sender {
            Address::Account(account) => account,
            Address::Contract(_) => {
                return Err(DisputeError::Unauthorized);
            },
        };
        if voter == dispute.buyer || voter == dispute.seller {
            return Err(DisputeError::Unauthorized);
        }
        assert(old(self)@.votes.contains_key(dispute_id));
        let existing_votes = match self.votes.get(&dispute_id) {
            Some(votes) => votes,
            None => {
                return Err(DisputeError::DisputeNotFound);
            },
        };
        if voted_already(existing_votes, &voter) {
            return Err(DisputeError::AlreadyVoted);
        }
        let voter_reputation = match reputation {
            Some(score) => score,
            None => {
                return Err(DisputeError::InvokeContractError);
            },
        };
        if voter_reputation < self.min_reputation_to_vote {
            return Err(DisputeError::InsufficientReputation);
        }
        if let VoteChoice::Split { seller_percentage } = choice {
            if seller_percentage > 100 {
                return Err(DisputeError::InvalidSplitPercentage);
            }
        }
        let weight = calculate_vote_weight(voter_reputation);
        let total_vote_weight = match dispute.total_vote_weight.checked_add(weight) {
            Some(total) => total,
            None => {
                return Err(DisputeError::CapacityExceeded);
            },
        };
        let vote = Vote { voter, choice, weight, timestamp: ctx.slot_time, comment };
        let mut votes = self.votes.remove(&dispute_id).unwrap();
        votes.push(vote);
        self.votes.insert(dispute_id, votes);
        let mut dispute = self.disputes.remove(&dispute_id).unwrap();
        dispute.total_vote_weight = total_vote_weight;
        self.disputes.insert(dispute_id, dispute);
        proof {
            let expected = old(self)@.cast_vote(*ctx, dispute_id, choice, comment, reputation).0;
            assert(self@.votes =~= expected.votes);
            assert(self@.disputes =~= expected.disputes);
        }
        Ok(weight)
    }

    /// Add evidence to an open dispute, as one of its parties.
    pub fn add_evidence(
        &mut self,
        caller: &Address,
        dispute_id: DisputeId,
        evidence: String,
    ) -> (done: Result<(), DisputeError>)
        requires
            old(self)@.wf(),
        ensures
            final(self)@.wf(),
            (final(self)@, done) == old(self)@.add_evidence(*caller, dispute_id, evidence),
    {
        broadcast use vstd::std_specs::btree::group_btree_axioms;

        proof {
            old(self)@.lemma_add_evidence_wf(*caller, dispute_id, evidence);
        }
        let dispute = match self.disputes.get(&dispute_id) {
            Some(dispute) => dispute,
            None => {
                return Err(DisputeError::DisputeNotFound);
            },
        };
        if !is_either(caller, &dispute.buyer, &dispute.seller) {
            return Err(DisputeError::Unauthorized);
        }
        if dispute.status != DisputeStatus::Open {
            return Err(DisputeError::InvalidStatus);
        }
        let mut dispute = self.disputes.remove(&dispute_id).unwrap();
        dispute.evidence.push(evidence);
        self.put_dispute(dispute_id, dispute);
        proof {
            let expected = old(self)@.add_evidence(*caller, dispute_id, evidence).0;
            assert(self@.disputes =~= expected.disputes);
            assert(self@.votes =~= expected.votes);
        }
        Ok(())
    }

    /// The outcome that resolving a dispute at the time `now` would give. The
    /// ledger is left as it is: this is for the host to learn what to hand to
    /// the escrow contract before it resolves the dispute.
    pub fn pending_resolution(
        &self,
        now: u64,
        dispute_id: DisputeId,
    ) -> (pending: Result<DisputeResolution, DisputeError>)
        requires
            self@.wf(),
        ensures
            pending == self@.pending_resolution(now, dispute_id),
    {
        broadcast use vstd::std_specs::btree::group_btree_axioms;

        let dispute = match self.disputes.get(&dispute_id) {
            Some(dispute) => dispute,
            None => {
                return Err(DisputeError::DisputeNotFound);
            },
        };
        if now <= dispute.voting_deadline {
            return Err(DisputeError::VotingStillActive);
        }
        if dispute.status != DisputeStatus::Open && dispute.status != DisputeStatus::VotingEnded {
            return Err(DisputeError::InvalidStatus);
        }
        assert(self@.votes.contains_key(dispute_id));
        let votes = match self.votes.get(&dispute_id) {
            Some(votes) => votes,
            None => {
                return Err(DisputeError::DisputeNotFound);
            },
        };
        if votes.len() < self.min_votes_required as usize {
            return Err(DisputeError::InsufficientVotes);
        }
        calculate_resolution(votes.as_slice(), self.quorum_percentage)
    }

    /// Resolve a dispute after its voting period.
    ///
    /// `escrow_settled` says whether the registered escrow contract applied
    /// the outcome; it is not looked at while none is registered.
    pub fn resolve(
        &mut self,
        now: u64,
        dispute_id: DisputeId,
        escrow_settled: bool,
    ) -> (resolved: Result<DisputeResolution, DisputeError>)
        requires
            old(self)@.wf(),
        ensures
            final(self)@.wf(),
            (final(self)@, resolved) == old(self)@.resolve(now, dispute_id, escrow_settled),
    {
        broadcast use vstd::std_specs::btree::group_btree_axioms;

        proof {
            old(self)@.lemma_resolve_wf(now, dispute_id, escrow_settled);
        }
        let resolution = self.pending_resolution(now, dispute_id)?;
        if self.escrow_contract.is_some() && !escrow_settled {
            return Err(DisputeError::InvokeContractError);
        }
        let mut dispute = self.disputes.remove(&dispute_id).unwrap();
        dispute.status = DisputeStatus::Resolved;
        dispute.resolution = Some(resolution);
        self.put_dispute(dispute_id, dispute);
        proof {
            let expected = old(self)@.resolve(now, dispute_id, escrow_settled).0;
            assert(self@.disputes =~= expected.disputes);
            assert(self@.votes =~= expected.votes);
        }
        Ok(resolution)
    }

    /// Cancel a dispute, as the admin.
    pub fn cancel(
        &mut self,
        caller: &Address,
        dispute_id: DisputeId,
    ) -> (done: Result<(), DisputeError>)
        requires
            old(self)@.wf(),
        ensures
            final(self)@.wf(),
            (final(self)@, done) == old(self)@.cancel(*caller, dispute_id),
    {
        broadcast use vstd::std_specs::btree::group_btree_axioms;

        proof {
            old(self)@.lemma_cancel_wf(*caller, dispute_id);
        }
        if !is_account(caller, &self.admin) {
            return Err(DisputeError::Unauthorized);
        }
        let dispute = match self.disputes.get(&dispute_id) {
            Some(dispute) => dispute,
            None => {
                return Err(DisputeError::DisputeNotFound);
            },
        };
        if dispute.status == DisputeStatus::Resolved {
            return Err(DisputeError::InvalidStatus);
        }
        self.set_status(dispute_id, DisputeStatus::Cancelled);
        Ok(())
    }

    /// Update the parameters of the ledger, as the admin.
    pub fn update_parameters(
        &mut self,
        caller: &Address,
        min_reputation_to_vote: Option<u64>,
        voting_period_hours: Option<u64>,
        min_votes_required: Option<u32>,
        quorum_percentage: Option<u8>,
    ) -> (done: Result<(), DisputeError>)
        requires
            old(self)@.wf(),
        ensures
            final(self)@.wf(),
            (final(self)@, done) == old(self)@.update_parameters(
                *caller,
                min_reputation_to_vote,
                voting_period_hours,
                min_votes_required,
                quorum_percentage,
            ),
    {
        if !is_account(caller, &self.admin) {
            return Err(DisputeError::Unauthorized);
        }
        if let Some(min_reputation) = min_reputation_to_vote {
            self.min_reputation_to_vote = min_reputation;
        }
        if let Some(period) = voting_period_hours {
            self.voting_period_hours = period;
        }
        if let Some(min_votes) = min_votes_required {
            self.min_votes_required = min_votes;
        }
        if let Some(quorum) = quorum_percentage {
            if quorum <= 100 {
                self.quorum_percentage = quorum;
            }
        }
        assert(self@.disputes == old(self)@.disputes);
        assert(self@.votes == old(self)@.votes);
        Ok(())
    }

    /// Set the addresses of the peer contracts, as the admin.
    pub fn set_contract_addresses(
        &mut self,
        caller: &Address,
        escrow_contract: Option<ContractAddress>,
        reputation_contract: Option<ContractAddress>,
    ) -> (done: Result<(), DisputeError>)
        requires
            old(self)@.wf(),
        ensures
            final(self)@.wf(),
            (final(self)@, done) == old(self)@.set_contract_addresses(
                *caller,
                escrow_contract,
                reputation_contract,
            ),
    {
        if !is_account(caller, &self.admin) {
            return Err(DisputeError::Unauthorized);
        }
        if let Some(contract) = escrow_contract {
            self.escrow_contract = Some(contract);
        }
        if let Some(contract) = reputation_contract {
            self.reputation_contract = Some(contract);
        }
        assert(self@.disputes == old(self)@.disputes);
        assert(self@.votes == old(self)@.votes);
        Ok(())
    }

    fn score_request(
        &self,
        ctx: &CallContext,
        dispute_id: DisputeId,
    ) -> (request: Option<ScoreRequest>)
        requires
            self@.wf(),
        ensures
            forall|choice: VoteChoice, comment: Option<String>|
                request == #[trigger] self@.host_requests(
                    *ctx,
                    UpdateParams::Vote { dispute_id, choice, comment },
                ).reputation,
    {
        broadcast use vstd::std_specs::btree::group_btree_axioms;

        let reputation_contract = self.reputation_contract?;
        let dispute = self.disputes.get(&dispute_id)?;
        if dispute.status != DisputeStatus::Open || ctx.slot_time > dispute.voting_deadline {
            return None;
        }
        let account = match ctx.sender {
            Address::Account(account) => account,
            Address::Contract(_) => {
                return None;
            },
        };
        if account == dispute.buyer || account == dispute.seller {
            return None;
        }
        assert(self@.votes.contains_key(dispute_id));
        let votes = self.votes.get(&dispute_id)?;
        if voted_already(votes, &account) {
            return None;
        }
        Some(ScoreRequest { reputation_contract, account })
    }

    /// The outside work that an operation depends on. The ledger is left as it
    /// is.
    pub fn host_requests(
        &self,
        ctx: &CallContext,
        params: &UpdateParams,
    ) -> (requests: HostRequests)
        requires
            self@.wf(),
        ensures
            requests == self@.host_requests(*ctx, *params),
    {
        match params {
            UpdateParams::Vote { dispute_id, .. } => HostRequests {
                reputation: self.score_request(ctx, *dispute_id),
                settle: None,
            },
            UpdateParams::ResolveDispute { dispute_id } => {
                let settle = match (
                    self.pending_resolution(ctx.slot_time, *dispute_id),
                    self.escrow_contract,
                ) {
                    (Ok(resolution), Some(escrow_contract)) => match self.get_dispute(*dispute_id) {
                        Some(dispute) => Some(
                            SettleRequest { escrow_contract, escrow_id: dispute.escrow_id, resolution },
                        ),
                        None => None,
                    },
                    _ => None,
                };
                HostRequests { reputation: None, settle }
            },
            _ => HostRequests { reputation: None, settle: None },
        }
    }
}

/// Whether an operation reported what the ledger's rules give.
pub open spec fn events_match(
    events: Result<Vec<DisputeEvent>, DisputeError>,
    expected: Result<Seq<DisputeEvent>, DisputeError>,
) -> bool {
    match events {
        Ok(events) => expected == Ok::<Seq<DisputeEvent>, DisputeError>(events@),
        Err(error) => expected == Err::<Seq<DisputeEvent>, DisputeError>(error),
    }
}

fn one_event(event: DisputeEvent) -> (events: Vec<DisputeEvent>)
    ensures
        events@ == seq![event],
{
    let mut events: Vec<DisputeEvent> = Vec::new();
    events.push(event);
    assert(events@ =~= seq![event]);
    events
}

/// Handle an operation on the ledger.
///
/// `ctx` is what the invoking transaction says of itself, and `host` what the
/// host answered to the outside work that the operation depends on.
pub fn update(
    state: &mut DisputeResolutionState,
    ctx: &CallContext,
    params: UpdateParams,
    host: &HostReplies,
) -> (events: Result<Vec<DisputeEvent>, DisputeError>)
    requires
        old(state)@.wf(),
    ensures
        final(state)@.wf(),
        final(state)@ == old(state)@.update(*ctx, params, *host).0,
        events_match(events, old(state)@.update(*ctx, params, *host).1),
{
    broadcast use vstd::std_specs::btree::group_btree_axioms;

    match params {
        UpdateParams::CreateDispute { escrow_id, buyer, seller, amount, reason, evidence } => {
            let dispute_id = state.create_dispute(ctx, escrow_id, buyer, seller, amount, reason, evidence)?;
            Ok(
                one_event(
                    DisputeEvent::DisputeCreated { dispute_id, escrow_id, buyer, seller, amount },
                ),
            )
        },
        UpdateParams::Vote { dispute_id, choice, comment } => {
            let weight = state.cast_vote(ctx, dispute_id, choice, comment, host.reputation)?;
            let voter = match ctx.sender {
                Address::Account(account) => account,
                Address::Contract(_) => {
                    return Err(DisputeError::Unauthorized);
                },
            };
            Ok(one_event(DisputeEvent::VoteCast { dispute_id, voter, choice, weight }))
        },
        UpdateParams::ResolveDispute { dispute_id } => {
            let resolution = state.resolve(ctx.slot_time, dispute_id, host.escrow_settled)?;
            assert(state@.votes.contains_key(dispute_id));
            let total_votes: u64 = match state.votes.get(&dispute_id) {
                Some(votes) => votes.len() as u64,
                None => 0,
            };
            let total_weight: u64 = match state.disputes.get(&dispute_id) {
                Some(dispute) => dispute.total_vote_weight,
                None => 0,
            };
            Ok(
                one_event(
                    DisputeEvent::DisputeResolved {
                        dispute_id,
                        resolution,
                        total_votes,
                        total_weight,
                    },
                ),
            )
        },
        UpdateParams::AddEvidence { dispute_id, evidence } => {
            let reported = evidence.clone();
            state.add_evidence(&ctx.sender, dispute_id, evidence)?;
            let added_by = match ctx.sender {
                Address::Account(account) => account,
                Address::Contract(_) => {
                    return Err(DisputeError::Unauthorized);
                },
            };
            Ok(one_event(DisputeEvent::EvidenceAdded { dispute_id, added_by, evidence: reported }))
        },
        UpdateParams::CancelDispute { dispute_id } => {
            state.cancel(&ctx.sender, dispute_id)?;
            Ok(one_event(DisputeEvent::DisputeCancelled { dispute_id }))
        },
        UpdateParams::UpdateParameters {
            min_reputation_to_vote,
            voting_period_hours,
            min_votes_required,
            quorum_percentage,
        } => {
            state.update_parameters(
                &ctx.sender,
                min_reputation_to_vote,
                voting_period_hours,
                min_votes_required,
                quorum_percentage,
            )?;
            Ok(Vec::new())
        },
        UpdateParams::SetContractAddresses { escrow_contract, reputation_contract } => {
            state.set_contract_addresses(&ctx.sender, escrow_contract, reputation_contract)?;
            Ok(Vec::new())
        },
    }
}

} // verus!
