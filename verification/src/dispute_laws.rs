//! What holds of the dispute ledger over every sequence of operations.

use vstd::prelude::*;
use crate::dispute_resolution::{
    has_voted, voters_distinct, DisputeError, DisputeEvent, DisputeId, DisputeLedger,
    DisputeStatus, HostReplies, InitParams, UpdateParams,
};
use crate::resolution::{
    vote_valid, votes_valid, DisputeResolution, MAX_VOTE_WEIGHT, MIN_VOTE_WEIGHT,
};
use crate::auth::is_either_spec;
use crate::resolution::VoteChoice;
use crate::types::CallContext;

verus! {

/// One operation as the ledger receives it.
pub struct DisputeCall {
    pub ctx: CallContext,
    pub params: UpdateParams,
    pub host: HostReplies,
}

/// The ledger after a sequence of operations.
pub open spec fn run(start: DisputeLedger, calls: Seq<DisputeCall>) -> DisputeLedger
    decreases calls.len(),
{
    if calls.len() == 0 {
        start
    } else {
        let call = calls.last();
        run(start, calls.drop_last()).update(call.ctx, call.params, call.host).0
    }
}

/// Every operation keeps the ledger well formed.
pub proof fn lemma_update_wf(ledger: DisputeLedger, call: DisputeCall)
    requires
        ledger.wf(),
    ensures
        ledger.update(call.ctx, call.params, call.host).0.wf(),
{
    match call.params {
        UpdateParams::CreateDispute { escrow_id, buyer, seller, amount, reason, evidence } => {
            ledger.lemma_create_dispute_wf(call.ctx, escrow_id, buyer, seller, amount, reason, evidence@);
        },
        UpdateParams::Vote { dispute_id, choice, comment } => {
            ledger.lemma_cast_vote_wf(call.ctx, dispute_id, choice, comment, call.host.reputation);
        },
        UpdateParams::ResolveDispute { dispute_id } => {
            ledger.lemma_resolve_wf(call.ctx.slot_time, dispute_id, call.host.escrow_settled);
        },
        UpdateParams::AddEvidence { dispute_id, evidence } => {
            ledger.lemma_add_evidence_wf(call.ctx.sender, dispute_id, evidence);
        },
        UpdateParams::CancelDispute { dispute_id } => {
            ledger.lemma_cancel_wf(call.ctx.sender, dispute_id);
        },
        UpdateParams::UpdateParameters { .. } => {},
        UpdateParams::SetContractAddresses { .. } => {},
    }
}

/// Every sequence of operations keeps a well-formed ledger well formed.
pub proof fn lemma_run_wf(start: DisputeLedger, calls: Seq<DisputeCall>)
    requires
        start.wf(),
    ensures
        run(start, calls).wf(),
    decreases calls.len(),
{
    if calls.len() > 0 {
        lemma_run_wf(start, calls.drop_last());
        lemma_update_wf(run(start, calls.drop_last()), calls.last());
    }
}

/// After any sequence of operations on a new ledger, no two votes of a dispute
/// share a voter, every vote has a weight in `[1, 100]`, and neither party of
/// the dispute has a vote in it.
pub proof fn lemma_votes_stay_sound(params: InitParams, calls: Seq<DisputeCall>, id: DisputeId)
    requires
        run(DisputeLedger::init(params), calls).disputes.contains_key(id),
    ensures
        ({
            let ledger = run(DisputeLedger::init(params), calls);
            let votes = ledger.votes[id];
            &&& voters_distinct(votes)
            &&& forall|i: int|
                0 <= i < votes.len() ==> MIN_VOTE_WEIGHT <= (#[trigger] votes[i]).weight
                    <= MAX_VOTE_WEIGHT
            &&& !has_voted(votes, ledger.disputes[id].buyer)
            &&& !has_voted(votes, ledger.disputes[id].seller)
        }),
{
    let start = DisputeLedger::init(params);
    assert(start.wf());
    lemma_run_wf(start, calls);
    let ledger = run(start, calls);
    let votes = ledger.votes[id];
    assert(votes_valid(votes));
    assert forall|i: int| 0 <= i < votes.len() implies MIN_VOTE_WEIGHT <= (
    #[trigger] votes[i]).weight <= MAX_VOTE_WEIGHT by {
        assert(vote_valid(votes[i]));
    }
}

/// No operation changes the resolution of a dispute that has one.
pub proof fn lemma_update_keeps_resolution(ledger: DisputeLedger, call: DisputeCall, id: DisputeId)
    requires
        ledger.wf(),
        ledger.disputes.contains_key(id),
        ledger.disputes[id].resolution is Some,
    ensures
        ({
            let after = ledger.update(call.ctx, call.params, call.host).0;
            &&& after.disputes.contains_key(id)
            &&& after.disputes[id].resolution == ledger.disputes[id].resolution
            &&& after.disputes[id].status == DisputeStatus::Resolved
        }),
{
    assert(ledger.disputes[id].status == DisputeStatus::Resolved);
    match call.params {
        UpdateParams::CreateDispute { .. } => {},
        UpdateParams::Vote { .. } => {},
        UpdateParams::ResolveDispute { .. } => {},
        UpdateParams::AddEvidence { .. } => {},
        UpdateParams::CancelDispute { .. } => {},
        UpdateParams::UpdateParameters { .. } => {},
        UpdateParams::SetContractAddresses { .. } => {},
    }
}

/// A dispute's resolution, once set, is unchanged by any later sequence of
/// operations.
pub proof fn lemma_resolution_is_final(start: DisputeLedger, calls: Seq<DisputeCall>, id: DisputeId)
    requires
        start.wf(),
        start.disputes.contains_key(id),
        start.disputes[id].resolution is Some,
    ensures
        run(start, calls).disputes.contains_key(id),
        run(start, calls).disputes[id].resolution == start.disputes[id].resolution,
    decreases calls.len(),
{
    if calls.len() > 0 {
        lemma_resolution_is_final(start, calls.drop_last(), id);
        lemma_run_wf(start, calls.drop_last());
        lemma_update_keeps_resolution(run(start, calls.drop_last()), calls.last(), id);
    }
}

/// Resolving a dispute that has a resolution is refused and changes nothing.
/// After the deadline, which is when the dispute was resolved, the reason is
/// `InvalidStatus`; a call that names a time at or before the deadline is told
/// that the voting is still active.
pub proof fn lemma_resolve_again_is_refused(
    ledger: DisputeLedger,
    now: u64,
    id: DisputeId,
    escrow_settled: bool,
)
    requires
        ledger.wf(),
        ledger.disputes.contains_key(id),
        ledger.disputes[id].resolution is Some,
    ensures
        ledger.resolve(now, id, escrow_settled).0 == ledger,
        now > ledger.disputes[id].voting_deadline ==> ledger.resolve(now, id, escrow_settled).1
            == Err::<DisputeResolution, DisputeError>(
            DisputeError::InvalidStatus,
        ),
        now <= ledger.disputes[id].voting_deadline ==> ledger.resolve(now, id, escrow_settled).1
            == Err::<DisputeResolution, DisputeError>(
            DisputeError::VotingStillActive,
        ),
{
}

/// How far a dispute has come: no operation takes it back.
pub open spec fn progress(status: DisputeStatus) -> nat {
    match status {
        DisputeStatus::Open => 0,
        DisputeStatus::VotingEnded => 1,
        DisputeStatus::Resolved => 2,
        DisputeStatus::Cancelled => 2,
    }
}

/// An operation that is refused leaves the ledger as it was, unless it is a
/// vote that came after the deadline: that one ends the voting of its dispute
/// and changes nothing else. No operation moves a dispute to an earlier
/// status.
pub proof fn lemma_update_is_atomic_and_monotonic(
    ledger: DisputeLedger,
    call: DisputeCall,
    id: DisputeId,
)
    requires
        ledger.wf(),
    ensures
        ({
            let (after, outcome) = ledger.update(call.ctx, call.params, call.host);
            &&& outcome is Err && outcome != Err::<Seq<DisputeEvent>, DisputeError>(
                DisputeError::VotingEnded,
            ) ==> after == ledger
            &&& outcome == Err::<Seq<DisputeEvent>, DisputeError>(
                DisputeError::VotingEnded,
            ) ==> call.params is Vote && after == ledger.with_status(
                call.params->Vote_dispute_id,
                DisputeStatus::VotingEnded,
            )
            &&& ledger.disputes.contains_key(id) ==> after.disputes.contains_key(id) && progress(
                ledger.disputes[id].status,
            ) <= progress(after.disputes[id].status)
        }),
{
    match call.params {
        UpdateParams::CreateDispute { .. } => {},
        UpdateParams::Vote { .. } => {},
        UpdateParams::ResolveDispute { .. } => {},
        UpdateParams::AddEvidence { .. } => {},
        UpdateParams::CancelDispute { .. } => {},
        UpdateParams::UpdateParameters { .. } => {},
        UpdateParams::SetContractAddresses { .. } => {},
    }
}

/// What is recorded stays: no operation removes a dispute, a vote or a piece of
/// evidence, changes a vote or a piece of evidence that was recorded, or
/// changes what a dispute is about. Votes and evidence are only ever appended.
pub proof fn lemma_update_keeps_records(ledger: DisputeLedger, call: DisputeCall, id: DisputeId)
    requires
        ledger.wf(),
        ledger.disputes.contains_key(id),
    ensures
        ({
            let after = ledger.update(call.ctx, call.params, call.host).0;
            let was = ledger.disputes[id];
            let is = after.disputes[id];
            &&& after.disputes.contains_key(id)
            &&& ledger.votes[id].is_prefix_of(after.votes[id])
            &&& was.evidence.is_prefix_of(is.evidence)
            &&& is.escrow_id == was.escrow_id
            &&& is.buyer == was.buyer
            &&& is.seller == was.seller
            &&& is.amount == was.amount
            &&& is.reason == was.reason
            &&& is.initiated_by == was.initiated_by
            &&& is.created_at == was.created_at
            &&& is.voting_deadline == was.voting_deadline
            &&& after.next_dispute_id >= ledger.next_dispute_id
        }),
{
    let after = ledger.update(call.ctx, call.params, call.host).0;
    let votes = ledger.votes[id];
    let evidence = ledger.disputes[id].evidence;
    assert(votes.is_prefix_of(votes)) by {
        assert(votes.take(votes.len() as int) =~= votes);
    }
    assert(evidence.is_prefix_of(evidence)) by {
        assert(evidence.take(evidence.len() as int) =~= evidence);
    }
    match call.params {
        UpdateParams::CreateDispute { .. } => {},
        UpdateParams::Vote { .. } => {
            if after.votes[id] != votes {
                let vote = after.votes[id].last();
                assert(after.votes[id] == votes.push(vote));
                assert(votes.push(vote).take(votes.len() as int) =~= votes);
            }
        },
        UpdateParams::ResolveDispute { .. } => {},
        UpdateParams::AddEvidence { evidence: added, .. } => {
            if after.disputes[id].evidence != evidence {
                assert(after.disputes[id].evidence == evidence.push(added));
                assert(evidence.push(added).take(evidence.len() as int) =~= evidence);
            }
        },
        UpdateParams::CancelDispute { .. } => {},
        UpdateParams::UpdateParameters { .. } => {},
        UpdateParams::SetContractAddresses { .. } => {},
    }
}

/// A party of a dispute cannot vote on it: the vote of its buyer or its seller
/// is refused and no weight is recorded. While the dispute is open and its
/// deadline has not passed, the reason is `Unauthorized`.
pub proof fn lemma_party_vote_is_refused(
    ledger: DisputeLedger,
    ctx: CallContext,
    id: DisputeId,
    choice: VoteChoice,
    comment: Option<String>,
    reputation: Option<u64>,
)
    requires
        ledger.disputes.contains_key(id),
        is_either_spec(ctx.sender, ledger.disputes[id].buyer, ledger.disputes[id].seller),
    ensures
        ({
            let (after, cast) = ledger.cast_vote(ctx, id, choice, comment, reputation);
            &&& cast is Err
            &&& after.votes == ledger.votes
            &&& after.disputes[id].total_vote_weight == ledger.disputes[id].total_vote_weight
            &&& ledger.disputes[id].status == DisputeStatus::Open && ctx.slot_time
                <= ledger.disputes[id].voting_deadline ==> after == ledger && cast == Err::<
                u64,
                DisputeError,
            >(DisputeError::Unauthorized)
        }),
{
}

/// A dispute cannot be resolved before its voting deadline has passed: the
/// call is refused with `VotingStillActive` and changes nothing.
pub proof fn lemma_resolve_before_deadline_is_refused(
    ledger: DisputeLedger,
    now: u64,
    id: DisputeId,
    escrow_settled: bool,
)
    requires
        ledger.disputes.contains_key(id),
        now <= ledger.disputes[id].voting_deadline,
    ensures
        ledger.resolve(now, id, escrow_settled) == (
            ledger,
            Err::<DisputeResolution, DisputeError>(DisputeError::VotingStillActive),
        ),
{
}

} // verus!
