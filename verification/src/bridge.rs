//! The call paths between the ledgers: the escrow ledger has a case opened
//! when a dispute is raised, the dispute ledger has its outcome applied when
//! the case is resolved, and it asks the reputation ledger for the score of
//! whoever casts a vote.
//!
//! A crossing between the escrow ledger and the dispute ledger changes both or
//! neither.

use vstd::prelude::*;
use crate::dispute_resolution::{
    DisputeError, DisputeId, DisputeLedger, DisputeResolutionState, DisputeStatus,
};
use crate::escrow::{
    status_after, EscrowError, EscrowId, EscrowLedger, EscrowState, EscrowStatus, Payout,
};
use crate::reputation::{ReputationLedger, ReputationState};
use crate::resolution::{DisputeResolution, VoteChoice};
use crate::types::{Address, CallContext, ContractAddress};

verus! {

/// What raising a dispute does to the two ledgers.
///
/// Where the escrow ledger admits the dispute, the dispute ledger is asked, in
/// the name of the escrow contract, to open a case on the escrow, and the
/// escrow is linked to that case. A case that is not opened leaves the escrow
/// as it was, with `InvokeContractError`.
pub open spec fn raise_dispute_spec(
    escrows: EscrowLedger,
    disputes: DisputeLedger,
    escrow_contract: ContractAddress,
    ctx: CallContext,
    escrow_id: EscrowId,
    reason: String,
    evidence: Seq<String>,
) -> (EscrowLedger, DisputeLedger, Result<DisputeId, EscrowError>) {
    match escrows.dispute_request(ctx.sender, escrow_id) {
        Err(error) => (escrows, disputes, Err(error)),
        Ok(escrow) => {
            let (opened_in, opened) = disputes.create_dispute(
                CallContext { sender: Address::Contract(escrow_contract), ..ctx },
                escrow_id,
                escrow.buyer,
                escrow.seller,
                escrow.amount,
                reason,
                evidence,
            );
            let (linked, raised) = escrows.raise_dispute(
                ctx.sender,
                escrow_id,
                match opened {
                    Ok(dispute_id) => Some(dispute_id),
                    Err(_) => None,
                },
            );
            (linked, opened_in, raised)
        },
    }
}

/// What resolving a dispute does to the two ledgers.
///
/// Where the dispute can be resolved and an escrow contract is registered, the
/// escrow ledger is asked, in the name of the dispute contract, to settle the
/// escrow by the outcome. The dispute is resolved only if the escrow was
/// settled: otherwise both ledgers stay as they were, with
/// `InvokeContractError`. While no escrow contract is registered the dispute
/// is resolved and no escrow is touched.
pub open spec fn resolve_dispute_spec(
    disputes: DisputeLedger,
    escrows: EscrowLedger,
    dispute_contract: ContractAddress,
    now: u64,
    dispute_id: DisputeId,
    transfers_ok: bool,
) -> (DisputeLedger, EscrowLedger, Result<(DisputeResolution, Option<Payout>), DisputeError>) {
    match disputes.pending_resolution(now, dispute_id) {
        Err(error) => (disputes, escrows, Err(error)),
        Ok(resolution) => if disputes.escrow_contract is None {
            (disputes.resolve(now, dispute_id, true).0, escrows, Ok((resolution, None)))
        } else {
            let (settled, paid) = escrows.resolve_dispute(
                Address::Contract(dispute_contract),
                disputes.disputes[dispute_id].escrow_id,
                resolution,
                transfers_ok,
            );
            match paid {
                Ok(payout) => (
                    disputes.resolve(now, dispute_id, true).0,
                    settled,
                    Ok((resolution, Some(payout))),
                ),
                Err(_) => (disputes, escrows, Err(DisputeError::InvokeContractError)),
            }
        },
    }
}

/// What the reputation ledger answers when asked for the caller's score: the
/// score of an account, and nothing for a contract.
pub open spec fn reputation_reply(reputation: ReputationLedger, caller: Address) -> Option<u64> {
    match caller {
        Address::Account(account) => Some(reputation.score_of(account)),
        Address::Contract(_) => None,
    }
}

/// Raising a dispute changes both ledgers or neither: when it is refused, no
/// case was opened and the escrow is as it was; when it is accepted, the
/// escrow is `Disputed` and linked to the case that was opened for it.
pub proof fn lemma_raise_dispute_is_atomic(
    escrows: EscrowLedger,
    disputes: DisputeLedger,
    escrow_contract: ContractAddress,
    ctx: CallContext,
    escrow_id: EscrowId,
    reason: String,
    evidence: Seq<String>,
)
    ensures
        ({
            let (linked, opened_in, raised) = raise_dispute_spec(
                escrows,
                disputes,
                escrow_contract,
                ctx,
                escrow_id,
                reason,
                evidence,
            );
            match raised {
                Err(_) => linked == escrows && opened_in == disputes,
                Ok(dispute_id) => {
                    &&& dispute_id == disputes.next_dispute_id
                    &&& opened_in.disputes.contains_key(dispute_id)
                    &&& opened_in.disputes[dispute_id].escrow_id == escrow_id
                    &&& opened_in.disputes[dispute_id].amount == escrows.escrows[escrow_id].amount
                    &&& linked.escrows[escrow_id].status == EscrowStatus::Disputed
                    &&& linked.escrows[escrow_id].dispute_id == Some(dispute_id)
                },
            }
        }),
{
}

/// Resolving a dispute changes both ledgers or neither: when it is refused,
/// both are as they were; when it is accepted, the dispute is `Resolved` with
/// the outcome and, where an escrow contract is registered, the escrow was
/// settled by that outcome.
pub proof fn lemma_resolve_dispute_is_atomic(
    disputes: DisputeLedger,
    escrows: EscrowLedger,
    dispute_contract: ContractAddress,
    now: u64,
    dispute_id: DisputeId,
    transfers_ok: bool,
)
    ensures
        ({
            let (resolved_in, settled, resolved) = resolve_dispute_spec(
                disputes,
                escrows,
                dispute_contract,
                now,
                dispute_id,
                transfers_ok,
            );
            match resolved {
                Err(_) => resolved_in == disputes && settled == escrows,
                Ok((resolution, paid)) => {
                    &&& resolved_in.disputes[dispute_id].status
                        == DisputeStatus::Resolved
                    &&& resolved_in.disputes[dispute_id].resolution == Some(resolution)
                    &&& paid matches Some(payout) ==> {
                        &&& payout.escrow_id == disputes.disputes[dispute_id].escrow_id
                        &&& settled.escrows[payout.escrow_id].status == status_after(
                            resolution,
                        )
                    }
                    &&& paid is None ==> settled == escrows
                },
            }
        }),
{
}

/// Raise a dispute on an escrow and open the case for it.
///
/// `escrow_contract` is the address under which the escrow ledger calls the
/// dispute ledger.
pub fn raise_dispute(
    escrows: &mut EscrowState,
    disputes: &mut DisputeResolutionState,
    escrow_contract: ContractAddress,
    ctx: &CallContext,
    escrow_id: EscrowId,
    reason: String,
    evidence: Vec<String>,
) -> (raised: Result<DisputeId, EscrowError>)
    requires
        old(escrows)@.wf(),
        old(disputes)@.wf(),
    ensures
        final(escrows)@.wf(),
        final(disputes)@.wf(),
        (final(escrows)@, final(disputes)@, raised) == raise_dispute_spec(
            old(escrows)@,
            old(disputes)@,
            escrow_contract,
            *ctx,
            escrow_id,
            reason,
            evidence@,
        ),
{
    let (buyer, seller, amount) = match escrows.dispute_request(&ctx.sender, escrow_id) {
        Ok(escrow) => (escrow.buyer, escrow.seller, escrow.amount),
        Err(error) => {
            return Err(error);
        },
    };
    let as_escrow = CallContext {
        sender: Address::Contract(escrow_contract),
        amount: ctx.amount,
        slot_time: ctx.slot_time,
    };
    let opened = match disputes.create_dispute(
        &as_escrow,
        escrow_id,
        buyer,
        seller,
        amount,
        reason,
        evidence,
    ) {
        Ok(dispute_id) => Some(dispute_id),
        Err(_) => None,
    };
    escrows.raise_dispute(&ctx.sender, escrow_id, opened)
}

/// Resolve a dispute and settle its escrow by the outcome.
///
/// `dispute_contract` is the address under which the dispute ledger calls the
/// escrow ledger, and `transfers_ok` says whether the host carried out the
/// transfers of the payout.
pub fn resolve_dispute(
    disputes: &mut DisputeResolutionState,
    escrows: &mut EscrowState,
    dispute_contract: ContractAddress,
    now: u64,
    dispute_id: DisputeId,
    transfers_ok: bool,
) -> (resolved: Result<(DisputeResolution, Option<Payout>), DisputeError>)
    requires
        old(disputes)@.wf(),
        old(escrows)@.wf(),
    ensures
        final(disputes)@.wf(),
        final(escrows)@.wf(),
        (final(disputes)@, final(escrows)@, resolved) == resolve_dispute_spec(
            old(disputes)@,
            old(escrows)@,
            dispute_contract,
            now,
            dispute_id,
            transfers_ok,
        ),
{
    let resolution = disputes.pending_resolution(now, dispute_id)?;
    if disputes.escrow_contract.is_none() {
        return match disputes.resolve(now, dispute_id, true) {
            Ok(resolution) => Ok((resolution, None)),
            Err(error) => Err(error),
        };
    }
    let escrow_id = match disputes.get_dispute(dispute_id) {
        Some(dispute) => dispute.escrow_id,
        None => {
            return Err(DisputeError::DisputeNotFound);
        },
    };
    match escrows.resolve_dispute(
        &Address::Contract(dispute_contract),
        escrow_id,
        resolution,
        transfers_ok,
    ) {
        Ok(payout) => match disputes.resolve(now, dispute_id, true) {
            Ok(resolution) => Ok((resolution, Some(payout))),
            Err(error) => Err(error),
        },
        Err(_) => Err(DisputeError::InvokeContractError),
    }
}

/// Cast a vote with the weight that the caller's score in the reputation
/// ledger gives.
pub fn cast_vote(
    disputes: &mut DisputeResolutionState,
    reputation: &ReputationState,
    ctx: &CallContext,
    dispute_id: DisputeId,
    choice: VoteChoice,
    comment: Option<String>,
) -> (cast: Result<u64, DisputeError>)
    requires
        old(disputes)@.wf(),
        reputation@.wf(),
    ensures
        final(disputes)@.wf(),
        (final(disputes)@, cast) == old(disputes)@.cast_vote(
            *ctx,
            dispute_id,
            choice,
            comment,
            reputation_reply(reputation@, ctx.sender),
        ),
{
    let reply = match ctx.sender {
        Address::Account(account) => Some(reputation.get_score(&account)),
        Address::Contract(_) => None,
    };
    disputes.cast_vote(ctx, dispute_id, choice, comment, reply)
}

} // verus!
