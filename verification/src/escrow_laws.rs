//! What holds of the escrow ledger over every sequence of operations.

use vstd::prelude::*;
use crate::auth::{is_account_spec, is_admin_or_peer_spec};
use crate::escrow::{
    lemma_payout_conserves_amount, payout_of, status_after, EscrowError, EscrowEvent, EscrowId,
    EscrowLedger, EscrowStatus, HostReplies, InitParams, Payout, UpdateParams,
};
use crate::resolution::DisputeResolution;
use crate::types::{Address, CallContext};

verus! {

/// One operation as the ledger receives it.
pub struct EscrowCall {
    pub ctx: CallContext,
    pub params: UpdateParams,
    pub host: HostReplies,
}

/// Whether the funds of an escrow in this status have left it.
pub open spec fn is_settled(status: EscrowStatus) -> bool {
    status == EscrowStatus::Completed || status == EscrowStatus::Refunded || status
        == EscrowStatus::Cancelled
}

/// The funds that an operation moves out of the escrow `id`: what it pays to
/// the seller and the buyer and what it retains as fee.
pub open spec fn released_by(
    outcome: Result<(Seq<EscrowEvent>, Option<Payout>), EscrowError>,
    id: EscrowId,
) -> nat {
    match outcome {
        Ok((_, Some(payout))) => if payout.escrow_id == id {
            payout.total()
        } else {
            0
        },
        _ => 0,
    }
}

/// The ledger after a sequence of operations.
pub open spec fn run(start: EscrowLedger, calls: Seq<EscrowCall>) -> EscrowLedger
    decreases calls.len(),
{
    if calls.len() == 0 {
        start
    } else {
        let call = calls.last();
        run(start, calls.drop_last()).update(call.ctx, call.params, call.host).0
    }
}

/// The funds that a sequence of operations moves out of the escrow `id`.
pub open spec fn released(start: EscrowLedger, calls: Seq<EscrowCall>, id: EscrowId) -> nat
    decreases calls.len(),
{
    if calls.len() == 0 {
        0
    } else {
        let call = calls.last();
        released(start, calls.drop_last(), id) + released_by(
            run(start, calls.drop_last()).update(call.ctx, call.params, call.host).1,
            id,
        )
    }
}

/// What one operation may do to the escrow `id`, given the funds it releases
/// from it: the ledger stays well formed; an escrow stays in the ledger with
/// its amount and its parties; a settled escrow keeps its status; and funds
/// are released exactly when the escrow becomes settled, and are then the
/// locked amount.
pub open spec fn step_holds(
    before: EscrowLedger,
    after: EscrowLedger,
    released: nat,
    id: EscrowId,
) -> bool {
    let was_settled = before.escrows.contains_key(id) && is_settled(before.escrows[id].status);
    let now_settled = after.escrows.contains_key(id) && is_settled(after.escrows[id].status);
    &&& after.wf()
    &&& before.escrows.contains_key(id) ==> {
        &&& after.escrows.contains_key(id)
        &&& after.escrows[id].amount == before.escrows[id].amount
        &&& after.escrows[id].buyer == before.escrows[id].buyer
        &&& after.escrows[id].seller == before.escrows[id].seller
    }
    &&& was_settled ==> after.escrows[id].status == before.escrows[id].status
    &&& now_settled ==> before.escrows.contains_key(id)
    &&& released == (if now_settled && !was_settled {
        after.escrows[id].amount as nat
    } else {
        0
    })
}

/// The funds that a payout moves out of the escrow `id`.
pub open spec fn paid_from(paid: Result<Payout, EscrowError>, id: EscrowId) -> nat {
    match paid {
        Ok(payout) => if payout.escrow_id == id {
            payout.total()
        } else {
            0
        },
        Err(_) => 0,
    }
}

proof fn lemma_settle(
    ledger: EscrowLedger,
    paid_id: EscrowId,
    resolution: DisputeResolution,
    status: EscrowStatus,
    transfers_ok: bool,
    id: EscrowId,
)
    requires
        ledger.wf(),
        ledger.escrows.contains_key(paid_id),
        !is_settled(ledger.escrows[paid_id].status),
        is_settled(status),
    ensures
        step_holds(
            ledger,
            ledger.settle(paid_id, resolution, status, transfers_ok).0,
            paid_from(ledger.settle(paid_id, resolution, status, transfers_ok).1, id),
            id,
        ),
{
    if payout_of(paid_id, ledger.escrows[paid_id], ledger.platform_fee, resolution) is Ok {
        lemma_payout_conserves_amount(
            paid_id,
            ledger.escrows[paid_id],
            ledger.platform_fee,
            resolution,
        );
    }
}

proof fn lemma_complete(ledger: EscrowLedger, call: EscrowCall, paid_id: EscrowId, id: EscrowId)
    requires
        ledger.wf(),
    ensures
        step_holds(
            ledger,
            ledger.complete(call.ctx.sender, paid_id, call.host.transfers_ok).0,
            paid_from(ledger.complete(call.ctx.sender, paid_id, call.host.transfers_ok).1, id),
            id,
        ),
{
    if ledger.escrows.contains_key(paid_id) && ledger.escrows[paid_id].status
        == EscrowStatus::DeliveryConfirmed {
        lemma_settle(
            ledger,
            paid_id,
            DisputeResolution::FavorSeller,
            EscrowStatus::Completed,
            call.host.transfers_ok,
            id,
        );
    }
}

proof fn lemma_resolve_dispute(
    ledger: EscrowLedger,
    call: EscrowCall,
    paid_id: EscrowId,
    resolution: DisputeResolution,
    id: EscrowId,
)
    requires
        ledger.wf(),
    ensures
        step_holds(
            ledger,
            ledger.resolve_dispute(call.ctx.sender, paid_id, resolution, call.host.transfers_ok).0,
            paid_from(
                ledger.resolve_dispute(
                    call.ctx.sender,
                    paid_id,
                    resolution,
                    call.host.transfers_ok,
                ).1,
                id,
            ),
            id,
        ),
{
    if ledger.escrows.contains_key(paid_id) && ledger.escrows[paid_id].status
        == EscrowStatus::Disputed {
        lemma_settle(
            ledger,
            paid_id,
            resolution,
            status_after(resolution),
            call.host.transfers_ok,
            id,
        );
    }
}

proof fn lemma_cancel(ledger: EscrowLedger, call: EscrowCall, paid_id: EscrowId, id: EscrowId)
    requires
        ledger.wf(),
    ensures
        step_holds(
            ledger,
            ledger.cancel(call.ctx.sender, paid_id, call.host.transfers_ok).0,
            paid_from(ledger.cancel(call.ctx.sender, paid_id, call.host.transfers_ok).1, id),
            id,
        ),
{
    if ledger.escrows.contains_key(paid_id) && (ledger.escrows[paid_id].status
        == EscrowStatus::Created || ledger.escrows[paid_id].status == EscrowStatus::Active) {
        lemma_settle(
            ledger,
            paid_id,
            DisputeResolution::FavorBuyer,
            EscrowStatus::Cancelled,
            call.host.transfers_ok,
            id,
        );
    }
}

proof fn lemma_other_operations(ledger: EscrowLedger, call: EscrowCall, id: EscrowId)
    requires
        ledger.wf(),
        !(call.params is CompleteTransaction),
        !(call.params is ResolveDispute),
        !(call.params is CancelEscrow),
    ensures
        step_holds(ledger, ledger.update(call.ctx, call.params, call.host).0, 0, id),
        released_by(ledger.update(call.ctx, call.params, call.host).1, id) == 0,
{
    match call.params {
        UpdateParams::CreateEscrow { .. } => {},
        UpdateParams::ConfirmIdentity { .. } => {},
        UpdateParams::ActivateEscrow { .. } => {},
        UpdateParams::ConfirmDelivery { .. } => {},
        UpdateParams::RaiseDispute { .. } => {},
        UpdateParams::UpdatePlatformFee { .. } => {},
        UpdateParams::SetDisputeContract { .. } => {},
        _ => {},
    }
}

/// Every operation keeps the ledger well formed, keeps each escrow with its
/// amount and its parties, and leaves a settled escrow as it is: an escrow in
/// a final status accepts no operation that moves funds. An operation releases
/// funds from an escrow exactly when it settles it, and then it releases the
/// locked amount.
pub proof fn lemma_update_step(ledger: EscrowLedger, call: EscrowCall, id: EscrowId)
    requires
        ledger.wf(),
    ensures
        step_holds(
            ledger,
            ledger.update(call.ctx, call.params, call.host).0,
            released_by(ledger.update(call.ctx, call.params, call.host).1, id),
            id,
        ),
{
    match call.params {
        UpdateParams::CompleteTransaction { escrow_id } => {
            lemma_complete(ledger, call, escrow_id, id);
        },
        UpdateParams::ResolveDispute { escrow_id, resolution } => {
            lemma_resolve_dispute(ledger, call, escrow_id, resolution, id);
        },
        UpdateParams::CancelEscrow { escrow_id } => {
            lemma_cancel(ledger, call, escrow_id, id);
        },
        _ => {
            lemma_other_operations(ledger, call, id);
        },
    }
}

/// An escrow whose funds have left it accepts no operation that moves funds:
/// completing, cancelling and resolving it are refused and change nothing, and
/// a caller who may ask for the operation is told that the status is wrong.
pub proof fn lemma_settled_escrow_refuses_payouts(
    ledger: EscrowLedger,
    caller: Address,
    id: EscrowId,
    resolution: DisputeResolution,
    transfers_ok: bool,
)
    requires
        ledger.escrows.contains_key(id),
        is_settled(ledger.escrows[id].status),
    ensures
        ledger.complete(caller, id, transfers_ok) == (
            ledger,
            Err::<Payout, EscrowError>(
                if is_account_spec(caller, ledger.escrows[id].buyer) {
                    EscrowError::InvalidStatus
                } else {
                    EscrowError::Unauthorized
                },
            ),
        ),
        ledger.cancel(caller, id, transfers_ok) == (
            ledger,
            Err::<Payout, EscrowError>(
                if is_account_spec(caller, ledger.admin) {
                    EscrowError::InvalidStatus
                } else {
                    EscrowError::Unauthorized
                },
            ),
        ),
        ledger.resolve_dispute(caller, id, resolution, transfers_ok) == (
            ledger,
            Err::<Payout, EscrowError>(
                if is_admin_or_peer_spec(caller, ledger.dispute_contract, ledger.admin) {
                    EscrowError::InvalidStatus
                } else {
                    EscrowError::Unauthorized
                },
            ),
        ),
{
}

/// For all sequences of operations on a new ledger, the funds released from an
/// escrow, the retained fee included, are its locked amount once the escrow is
/// `Completed`, `Refunded` or `Cancelled`, and nothing before: they leave
/// exactly once.
pub proof fn lemma_funds_leave_exactly_once(
    params: InitParams,
    calls: Seq<EscrowCall>,
    id: EscrowId,
)
    ensures
        ({
            let ledger = run(EscrowLedger::init(params), calls);
            &&& ledger.wf()
            &&& released(EscrowLedger::init(params), calls, id) == (if ledger.escrows.contains_key(
                id,
            ) && is_settled(ledger.escrows[id].status) {
                ledger.escrows[id].amount as nat
            } else {
                0
            })
        }),
    decreases calls.len(),
{
    let start = EscrowLedger::init(params);
    if calls.len() > 0 {
        lemma_funds_leave_exactly_once(params, calls.drop_last(), id);
        lemma_update_step(run(start, calls.drop_last()), calls.last(), id);
    }
}

/// How far an escrow has come: no operation takes it back.
pub open spec fn progress(status: EscrowStatus) -> nat {
    match status {
        EscrowStatus::Created => 0,
        EscrowStatus::Active => 1,
        EscrowStatus::DeliveryConfirmed => 2,
        EscrowStatus::Disputed => 3,
        EscrowStatus::Completed => 4,
        EscrowStatus::Refunded => 4,
        EscrowStatus::Cancelled => 4,
    }
}

/// An operation that is refused leaves the ledger as it was, and no operation
/// moves an escrow to an earlier status.
pub proof fn lemma_update_is_atomic_and_monotonic(
    ledger: EscrowLedger,
    call: EscrowCall,
    id: EscrowId,
)
    requires
        ledger.wf(),
    ensures
        ({
            let (after, outcome) = ledger.update(call.ctx, call.params, call.host);
            &&& outcome is Err ==> after == ledger
            &&& ledger.escrows.contains_key(id) ==> after.escrows.contains_key(id) && progress(
                ledger.escrows[id].status,
            ) <= progress(after.escrows[id].status)
        }),
{
    match call.params {
        UpdateParams::CreateEscrow { .. } => {},
        UpdateParams::ConfirmIdentity { .. } => {},
        UpdateParams::ActivateEscrow { .. } => {},
        UpdateParams::ConfirmDelivery { .. } => {},
        UpdateParams::CompleteTransaction { .. } => {},
        UpdateParams::RaiseDispute { .. } => {},
        UpdateParams::ResolveDispute { .. } => {},
        UpdateParams::CancelEscrow { .. } => {},
        UpdateParams::UpdatePlatformFee { .. } => {},
        UpdateParams::SetDisputeContract { .. } => {},
    }
}

} // verus!
