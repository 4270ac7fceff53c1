//! The escrow ledger: locked funds and the life cycle that releases them.
//!
//! An escrow is `Created`, becomes `Active` once both sides are verified, and
//! reaches `DeliveryConfirmed` when the seller has delivered. From there the
//! buyer completes it, which pays the seller net of the platform fee. An active
//! or delivered escrow can instead be `Disputed` by either side, and is then
//! settled by the outcome of the dispute. The admin can cancel an escrow that
//! is still `Created` or `Active`. `Completed`, `Refunded` and `Cancelled` are
//! final.
//!
//! The ledger moves no funds itself. An operation that pays out says what is
//! to be transferred, and is told whether the host carried the transfers out:
//! a payout that was not made leaves the escrow as it was.

use vstd::prelude::*;
use vstd::std_specs::iter::IteratorSpec;
use std::collections::BTreeMap;
pub use crate::resolution::DisputeResolution;
use crate::auth::{
    is_account, is_account_spec, is_admin_or_peer, is_admin_or_peer_spec, is_either,
    is_either_spec,
};
use crate::time::{deadline_after, deadline_spec};
use crate::types::{AccountAddress, Address, CallContext, ContractAddress};

verus! {

/// Escrow identifier.
pub type EscrowId = u64;

/// One hundred percent in basis points.
pub const BASIS_POINTS: u64 = 10_000;

/// The highest platform fee the admin can set, in basis points (10%).
pub const MAX_PLATFORM_FEE: u32 = 1_000;

/// Escrow status.
#[derive(Clone, Copy, Debug, PartialEq, Eq, Structural)]
pub enum EscrowStatus {
    /// Escrow created, waiting for conditions to be met.
    Created,
    /// All conditions met, escrow is active.
    Active,
    /// Goods or services delivered, waiting for buyer confirmation.
    DeliveryConfirmed,
    /// Transaction completed successfully.
    Completed,
    /// Dispute raised, waiting for resolution.
    Disputed,
    /// Refund issued to buyer.
    Refunded,
    /// Escrow cancelled.
    Cancelled,
}

/// Escrow details.
#[derive(Debug, PartialEq, Eq)]
pub struct EscrowDetails {
    /// Buyer account.
    pub buyer: AccountAddress,
    /// Seller account.
    pub seller: AccountAddress,
    /// Amount in escrow, in micro-CCD.
    pub amount: u64,
    /// Product or service description.
    pub description: String,
    /// Current status of the escrow.
    pub status: EscrowStatus,
    /// When the escrow was created, in milliseconds.
    pub created_at: u64,
    /// When the buyer can claim a refund, if applicable.
    pub refund_deadline: Option<u64>,
    /// Whether identity verification is required.
    pub requires_identity_verification: bool,
    /// Identity verification status for buyer.
    pub buyer_verified: bool,
    /// Identity verification status for seller.
    pub seller_verified: bool,
    /// Dispute id if a dispute was raised.
    pub dispute_id: Option<u64>,
}

impl Clone for EscrowDetails {
    fn clone(&self) -> (copy: Self)
        ensures
            copy == *self,
    {
        EscrowDetails {
            buyer: self.buyer,
            seller: self.seller,
            amount: self.amount,
            description: self.description.clone(),
            status: self.status,
            created_at: self.created_at,
            refund_deadline: self.refund_deadline,
            requires_identity_verification: self.requires_identity_verification,
            buyer_verified: self.buyer_verified,
            seller_verified: self.seller_verified,
            dispute_id: self.dispute_id,
        }
    }
}

/// Contract state.
pub struct EscrowState {
    /// Map of escrow id to escrow details.
    pub escrows: BTreeMap<EscrowId, EscrowDetails>,
    /// Admin account that can manage the contract.
    pub admin: AccountAddress,
    /// Platform fee in basis points (200 = 2%).
    pub platform_fee: u32,
    /// Dispute resolution contract address.
    pub dispute_contract: Option<ContractAddress>,
    /// Next escrow id to use.
    pub next_escrow_id: EscrowId,
}

/// Contract initialization parameters.
#[derive(Clone, Copy, Debug)]
pub struct InitParams {
    /// Admin account address.
    pub admin: AccountAddress,
    /// Platform fee in basis points.
    pub platform_fee: u32,
}

/// Why an escrow operation was refused.
#[derive(Clone, Copy, Debug, PartialEq, Eq, Structural)]
pub enum EscrowError {
    /// The caller may not perform this action.
    Unauthorized,
    /// Escrow not found.
    EscrowNotFound,
    /// Invalid escrow status for this operation.
    InvalidStatus,
    /// Insufficient funds.
    InsufficientFunds,
    /// Identity verification required.
    IdentityVerificationRequired,
    /// Invalid dispute resolution.
    InvalidDisputeResolution,
    /// Refund deadline not reached.
    RefundDeadlineNotReached,
    /// Parse error.
    ParseError,
    /// Contract invocation error.
    InvokeContractError,
    /// Transfer error.
    TransferError,
    /// The ledger has handed out every escrow id.
    CapacityExceeded,
}

/// The operations of the ledger.
#[derive(Debug)]
pub enum UpdateParams {
    /// Create a new escrow.
    CreateEscrow {
        seller: AccountAddress,
        description: String,
        refund_deadline_hours: Option<u64>,
        requires_identity_verification: bool,
    },
    /// Confirm identity verification.
    ConfirmIdentity { escrow_id: EscrowId },
    /// Activate escrow, when all conditions are met.
    ActivateEscrow { escrow_id: EscrowId },
    /// Confirm delivery, as the seller.
    ConfirmDelivery { escrow_id: EscrowId },
    /// Complete transaction, as the buyer.
    CompleteTransaction { escrow_id: EscrowId },
    /// Raise dispute.
    RaiseDispute { escrow_id: EscrowId, reason: String },
    /// Resolve dispute, as the dispute resolution contract.
    ResolveDispute { escrow_id: EscrowId, resolution: DisputeResolution },
    /// Cancel escrow, as the admin.
    CancelEscrow { escrow_id: EscrowId },
    /// Update platform fee, as the admin.
    UpdatePlatformFee { new_fee: u32 },
    /// Set dispute resolution contract, as the admin.
    SetDisputeContract { contract_address: ContractAddress },
}

/// What the ledger reports of a change.
#[derive(Clone, Copy, Debug, PartialEq, Eq)]
pub enum EscrowEvent {
    /// Escrow created.
    EscrowCreated { escrow_id: EscrowId, buyer: AccountAddress, seller: AccountAddress, amount: u64 },
    /// Escrow activated.
    EscrowActivated { escrow_id: EscrowId },
    /// Delivery confirmed.
    DeliveryConfirmed { escrow_id: EscrowId },
    /// Transaction completed.
    TransactionCompleted { escrow_id: EscrowId, seller_amount: u64, platform_fee: u64 },
    /// Dispute raised.
    DisputeRaised { escrow_id: EscrowId, dispute_id: u64 },
    /// Dispute resolved.
    DisputeResolved { escrow_id: EscrowId, resolution: DisputeResolution },
    /// Escrow refunded.
    EscrowRefunded { escrow_id: EscrowId, refund_amount: u64 },
}

/// What the host answered to the outside work that an operation depends on.
#[derive(Clone, Copy, Debug)]
pub struct HostReplies {
    /// Whether the transfers of the operation's payout were all carried out.
    pub transfers_ok: bool,
    /// The case that the dispute ledger opened for the escrow of a
    /// `RaiseDispute`, or `None` when it opened none.
    pub opened_dispute: Option<u64>,
}

/// The funds that settling an escrow moves, in micro-CCD.
#[derive(Clone, Copy, Debug, PartialEq, Eq)]
pub struct Payout {
    /// The escrow that is settled.
    pub escrow_id: EscrowId,
    /// Who receives the seller's part.
    pub seller: AccountAddress,
    /// What is transferred to the seller.
    pub seller_amount: u64,
    /// Who receives the buyer's part.
    pub buyer: AccountAddress,
    /// What is transferred back to the buyer.
    pub buyer_amount: u64,
    /// The platform fee, which stays with the contract.
    pub platform_fee: u64,
}

/// One transfer for the host to carry out.
#[derive(Clone, Copy, Debug, PartialEq, Eq)]
pub struct Transfer {
    /// The receiving account.
    pub to: AccountAddress,
    /// The amount, in micro-CCD.
    pub amount: u64,
}

impl Payout {
    /// Whether the payout asks the host for any transfer. Nothing is
    /// transferred to a side whose part is zero.
    pub open spec fn moves_funds(self) -> bool {
        self.seller_amount > 0 || self.buyer_amount > 0
    }

    /// The transfers that the payout asks the host for: first the seller's
    /// part and then the buyer's, each unless it is zero.
    pub open spec fn transfers_spec(self) -> Seq<Transfer> {
        let to_seller = if self.seller_amount > 0 {
            seq![Transfer { to: self.seller, amount: self.seller_amount }]
        } else {
            Seq::empty()
        };
        if self.buyer_amount > 0 {
            to_seller.push(Transfer { to: self.buyer, amount: self.buyer_amount })
        } else {
            to_seller
        }
    }

    /// The funds that leave the escrow, the retained fee included.
    pub open spec fn total(self) -> nat {
        self.seller_amount as nat + self.buyer_amount as nat + self.platform_fee as nat
    }

    /// Whether the payout asks the host for any transfer.
    pub fn needs_transfer(&self) -> (needed: bool)
        ensures
            needed == self.moves_funds(),
    {
        self.seller_amount > 0 || self.buyer_amount > 0
    }

    /// The transfers that the payout asks the host for, in order.
    pub fn transfers(&self) -> (transfers: Vec<Transfer>)
        ensures
            transfers@ == self.transfers_spec(),
            transfers@.len() > 0 <==> self.moves_funds(),
    {
        let mut transfers: Vec<Transfer> = Vec::new();
        if self.seller_amount > 0 {
            transfers.push(Transfer { to: self.seller, amount: self.seller_amount });
        }
        if self.buyer_amount > 0 {
            transfers.push(Transfer { to: self.buyer, amount: self.buyer_amount });
        }
        assert(transfers@ =~= self.transfers_spec());
        transfers
    }
}

/// A case for the dispute ledger to open.
#[derive(Clone, Copy, Debug, PartialEq, Eq)]
pub struct CaseRequest {
    /// The dispute contract to ask.
    pub dispute_contract: ContractAddress,
    /// The escrow that is disputed.
    pub escrow_id: EscrowId,
    /// Its buyer.
    pub buyer: AccountAddress,
    /// Its seller.
    pub seller: AccountAddress,
    /// The amount it holds, in micro-CCD.
    pub amount: u64,
}

/// The outside work that an operation depends on, for the host to carry out
/// before it hands the operation to `update`.
#[derive(Debug, PartialEq, Eq)]
pub struct HostRequests {
    /// The transfers to make, in order.
    pub transfers: Vec<Transfer>,
    /// The case to have opened.
    pub open_case: Option<CaseRequest>,
}

impl View for HostRequests {
    type V = (Seq<Transfer>, Option<CaseRequest>);

    open spec fn view(&self) -> (Seq<Transfer>, Option<CaseRequest>) {
        (self.transfers@, self.open_case)
    }
}

/// What an accepted operation brought about.
#[derive(Debug, PartialEq, Eq)]
pub struct Receipt {
    /// The events to report, in order.
    pub events: Vec<EscrowEvent>,
    /// The funds that were moved, if the operation pays out.
    pub payout: Option<Payout>,
}

impl View for Receipt {
    type V = (Seq<EscrowEvent>, Option<Payout>);

    open spec fn view(&self) -> (Seq<EscrowEvent>, Option<Payout>) {
        (self.events@, self.payout)
    }
}

/// The platform fee on an amount: the given number of basis points of it,
/// rounded down.
pub open spec fn fee_of(amount: u64, fee_bps: u32) -> nat {
    amount as nat * fee_bps as nat / (BASIS_POINTS as nat)
}

/// The seller's part of an amount under a split: the given percentage of it,
/// rounded down.
pub open spec fn seller_part_of(amount: u64, seller_percentage: u8) -> nat {
    amount as nat * seller_percentage as nat / 100
}

/// How an escrow is paid out under a resolution, or the reason it cannot be.
///
/// In favor of the buyer the whole amount is refunded. In favor of the seller
/// the platform fee is retained and the rest goes to the seller; a fee above
/// the amount cannot be paid. Under a split the seller receives the given
/// percentage and the buyer the rest, and no fee is retained; a percentage
/// above 100 is no resolution.
pub open spec fn payout_of(
    escrow_id: EscrowId,
    escrow: EscrowDetails,
    fee_bps: u32,
    resolution: DisputeResolution,
) -> Result<Payout, EscrowError> {
    let nothing = Payout {
        escrow_id,
        seller: escrow.seller,
        seller_amount: 0,
        buyer: escrow.buyer,
        buyer_amount: 0,
        platform_fee: 0,
    };
    match resolution {
        DisputeResolution::FavorBuyer => Ok(Payout { buyer_amount: escrow.amount, ..nothing }),
        DisputeResolution::FavorSeller => if fee_of(escrow.amount, fee_bps) > escrow.amount {
            Err(EscrowError::TransferError)
        } else {
            Ok(
                Payout {
                    seller_amount: (escrow.amount - fee_of(escrow.amount, fee_bps)) as u64,
                    platform_fee: fee_of(escrow.amount, fee_bps) as u64,
                    ..nothing
                },
            )
        },
        DisputeResolution::Split { seller_percentage } => if seller_percentage > 100 {
            Err(EscrowError::InvalidDisputeResolution)
        } else {
            Ok(
                Payout {
                    seller_amount: seller_part_of(escrow.amount, seller_percentage) as u64,
                    buyer_amount: (escrow.amount - seller_part_of(
                        escrow.amount,
                        seller_percentage,
                    )) as u64,
                    ..nothing
                },
            )
        },
    }
}

/// The status an escrow takes once it is paid out under a resolution.
pub open spec fn status_after(resolution: DisputeResolution) -> EscrowStatus {
    match resolution {
        DisputeResolution::FavorBuyer => EscrowStatus::Refunded,
        _ => EscrowStatus::Completed,
    }
}

/// A payout leaves nothing behind and adds nothing: what the seller and the
/// buyer receive and what is retained as fee make up the locked amount.
pub proof fn lemma_payout_conserves_amount(
    escrow_id: EscrowId,
    escrow: EscrowDetails,
    fee_bps: u32,
    resolution: DisputeResolution,
)
    requires
        payout_of(escrow_id, escrow, fee_bps, resolution) is Ok,
    ensures
        payout_of(escrow_id, escrow, fee_bps, resolution)->Ok_0.total() == escrow.amount,
{
    if let DisputeResolution::Split { seller_percentage } = resolution {
        let amount = escrow.amount as nat;
        let percentage = seller_percentage as nat;
        assert(amount * percentage / 100 <= amount) by (nonlinear_arith)
            requires
                percentage <= 100,
        ;
    }
}

/// The events that report a dispute settled under `resolution` with `payout`.
pub open spec fn resolution_events(
    escrow_id: EscrowId,
    resolution: DisputeResolution,
    payout: Payout,
) -> Seq<EscrowEvent> {
    let resolved = EscrowEvent::DisputeResolved { escrow_id, resolution };
    match resolution {
        DisputeResolution::FavorBuyer => seq![
            EscrowEvent::EscrowRefunded { escrow_id, refund_amount: payout.buyer_amount },
            resolved,
        ],
        DisputeResolution::FavorSeller => seq![
            EscrowEvent::TransactionCompleted {
                escrow_id,
                seller_amount: payout.seller_amount,
                platform_fee: payout.platform_fee,
            },
            resolved,
        ],
        DisputeResolution::Split { .. } => seq![resolved],
    }
}

/// The ledger as a mathematical value.
pub struct EscrowLedger {
    pub escrows: Map<EscrowId, EscrowDetails>,
    pub admin: AccountAddress,
    pub platform_fee: u32,
    pub dispute_contract: Option<ContractAddress>,
    pub next_escrow_id: EscrowId,
}

impl View for EscrowState {
    type V = EscrowLedger;

    open spec fn view(&self) -> EscrowLedger {
        EscrowLedger {
            escrows: self.escrows@,
            admin: self.admin,
            platform_fee: self.platform_fee,
            dispute_contract: self.dispute_contract,
            next_escrow_id: self.next_escrow_id,
        }
    }
}

/// What each operation does to the ledger and what it answers. An operation
/// that is refused leaves the ledger as it was; where several reasons apply it
/// gives the one that is named first.
impl EscrowLedger {
    /// Every escrow carries an id that was handed out, so the next id is new.
    pub open spec fn wf(self) -> bool {
        forall|id: EscrowId| self.escrows.contains_key(id) ==> id < self.next_escrow_id
    }

    /// A new ledger without escrows.
    pub open spec fn init(params: InitParams) -> EscrowLedger {
        EscrowLedger {
            escrows: Map::empty(),
            admin: params.admin,
            platform_fee: params.platform_fee,
            dispute_contract: None,
            next_escrow_id: 0,
        }
    }

    /// The ledger with one escrow replaced.
    pub open spec fn with_escrow(self, id: EscrowId, escrow: EscrowDetails) -> EscrowLedger {
        EscrowLedger { escrows: self.escrows.insert(id, escrow), ..self }
    }

    /// The ledger with the status of one escrow changed.
    pub open spec fn with_status(self, id: EscrowId, status: EscrowStatus) -> EscrowLedger {
        self.with_escrow(id, EscrowDetails { status, ..self.escrows[id] })
    }

    /// Locks the funds sent with the call in a new escrow, bought by the
    /// caller. Refused with `InsufficientFunds` when no funds were sent, with
    /// `Unauthorized` when the caller is no account, and with
    /// `CapacityExceeded` when no id is left.
    pub open spec fn create(
        self,
        ctx: CallContext,
        seller: AccountAddress,
        description: String,
        refund_deadline_hours: Option<u64>,
        requires_identity_verification: bool,
    ) -> (EscrowLedger, Result<EscrowId, EscrowError>) {
        if ctx.amount == 0 {
            (self, Err(EscrowError::InsufficientFunds))
        } else if ctx.sender is Contract {
            (self, Err(EscrowError::Unauthorized))
        } else if self.next_escrow_id == u64::MAX {
            (self, Err(EscrowError::CapacityExceeded))
        } else {
            let escrow = EscrowDetails {
                buyer: ctx.sender->Account_0,
                seller,
                amount: ctx.amount,
                description,
                status: EscrowStatus::Created,
                created_at: ctx.slot_time,
                refund_deadline: match refund_deadline_hours {
                    Some(hours) => Some(deadline_spec(ctx.slot_time, hours)),
                    None => None,
                },
                requires_identity_verification,
                buyer_verified: !requires_identity_verification,
                seller_verified: !requires_identity_verification,
                dispute_id: None,
            };
            (
                EscrowLedger {
                    escrows: self.escrows.insert(self.next_escrow_id, escrow),
                    next_escrow_id: (self.next_escrow_id + 1) as u64,
                    ..self
                },
                Ok(self.next_escrow_id),
            )
        }
    }

    /// Marks the caller, who is the buyer or else the seller, as verified. A
    /// `Created` escrow whose two sides are then verified becomes `Active`,
    /// and the answer says whether it did.
    pub open spec fn confirm_identity(
        self,
        caller: Address,
        id: EscrowId,
    ) -> (EscrowLedger, Result<bool, EscrowError>) {
        if !self.escrows.contains_key(id) {
            (self, Err(EscrowError::EscrowNotFound))
        } else if !is_either_spec(caller, self.escrows[id].buyer, self.escrows[id].seller) {
            (self, Err(EscrowError::Unauthorized))
        } else {
            let escrow = self.escrows[id];
            let verified = if is_account_spec(caller, escrow.buyer) {
                EscrowDetails { buyer_verified: true, ..escrow }
            } else {
                EscrowDetails { seller_verified: true, ..escrow }
            };
            let activated = verified.status == EscrowStatus::Created && verified.buyer_verified
                && verified.seller_verified;
            let after = if activated {
                EscrowDetails { status: EscrowStatus::Active, ..verified }
            } else {
                verified
            };
            (self.with_escrow(id, after), Ok(activated))
        }
    }

    /// Makes a `Created` escrow `Active`, for the buyer or the admin. Where
    /// verification is required both sides must be verified.
    pub open spec fn activate(
        self,
        caller: Address,
        id: EscrowId,
    ) -> (EscrowLedger, Result<(), EscrowError>) {
        if !self.escrows.contains_key(id) {
            (self, Err(EscrowError::EscrowNotFound))
        } else if !is_either_spec(caller, self.escrows[id].buyer, self.admin) {
            (self, Err(EscrowError::Unauthorized))
        } else if self.escrows[id].status != EscrowStatus::Created {
            (self, Err(EscrowError::InvalidStatus))
        } else if self.escrows[id].requires_identity_verification && !(
        self.escrows[id].buyer_verified && self.escrows[id].seller_verified) {
            (self, Err(EscrowError::IdentityVerificationRequired))
        } else {
            (self.with_status(id, EscrowStatus::Active), Ok(()))
        }
    }

    /// Records, for the seller, that an `Active` escrow was delivered.
    pub open spec fn confirm_delivery(
        self,
        caller: Address,
        id: EscrowId,
    ) -> (EscrowLedger, Result<(), EscrowError>) {
        if !self.escrows.contains_key(id) {
            (self, Err(EscrowError::EscrowNotFound))
        } else if !is_account_spec(caller, self.escrows[id].seller) {
            (self, Err(EscrowError::Unauthorized))
        } else if self.escrows[id].status != EscrowStatus::Active {
            (self, Err(EscrowError::InvalidStatus))
        } else {
            (self.with_status(id, EscrowStatus::DeliveryConfirmed), Ok(()))
        }
    }

    /// Pays an escrow out under a resolution and gives it its final status.
    /// Refused where there is no such payout, and with `TransferError` where a
    /// transfer it asks for was not carried out.
    pub open spec fn settle(
        self,
        id: EscrowId,
        resolution: DisputeResolution,
        status: EscrowStatus,
        transfers_ok: bool,
    ) -> (EscrowLedger, Result<Payout, EscrowError>) {
        match payout_of(id, self.escrows[id], self.platform_fee, resolution) {
            Err(error) => (self, Err(error)),
            Ok(payout) => if payout.moves_funds() && !transfers_ok {
                (self, Err(EscrowError::TransferError))
            } else {
                (self.with_status(id, status), Ok(payout))
            },
        }
    }

    /// Completes, for the buyer, an escrow whose delivery was confirmed: the
    /// seller is paid the amount less the platform fee, which is retained.
    pub open spec fn complete(
        self,
        caller: Address,
        id: EscrowId,
        transfers_ok: bool,
    ) -> (EscrowLedger, Result<Payout, EscrowError>) {
        if !self.escrows.contains_key(id) {
            (self, Err(EscrowError::EscrowNotFound))
        } else if !is_account_spec(caller, self.escrows[id].buyer) {
            (self, Err(EscrowError::Unauthorized))
        } else if self.escrows[id].status != EscrowStatus::DeliveryConfirmed {
            (self, Err(EscrowError::InvalidStatus))
        } else {
            self.settle(id, DisputeResolution::FavorSeller, EscrowStatus::Completed, transfers_ok)
        }
    }

    /// The escrow that a dispute may be raised on: what `raise_dispute` checks
    /// before a case is opened.
    pub open spec fn dispute_request(
        self,
        caller: Address,
        id: EscrowId,
    ) -> Result<EscrowDetails, EscrowError> {
        match self.raise_dispute(caller, id, None).1 {
            Err(EscrowError::InvokeContractError) => Ok(self.escrows[id]),
            Err(error) => Err(error),
            Ok(_) => Err(EscrowError::InvokeContractError),
        }
    }

    /// Puts an `Active` or delivered escrow in dispute, for the buyer or the
    /// seller, and links it to the case that the dispute ledger opened.
    /// Refused with `InvokeContractError` when no case was opened.
    pub open spec fn raise_dispute(
        self,
        caller: Address,
        id: EscrowId,
        opened: Option<u64>,
    ) -> (EscrowLedger, Result<u64, EscrowError>) {
        if !self.escrows.contains_key(id) {
            (self, Err(EscrowError::EscrowNotFound))
        } else if !is_either_spec(caller, self.escrows[id].buyer, self.escrows[id].seller) {
            (self, Err(EscrowError::Unauthorized))
        } else if self.escrows[id].status != EscrowStatus::Active && self.escrows[id].status
            != EscrowStatus::DeliveryConfirmed {
            (self, Err(EscrowError::InvalidStatus))
        } else {
            match opened {
                None => (self, Err(EscrowError::InvokeContractError)),
                Some(dispute_id) => (
                    self.with_escrow(
                        id,
                        EscrowDetails {
                            status: EscrowStatus::Disputed,
                            dispute_id: Some(dispute_id),
                            ..self.escrows[id]
                        },
                    ),
                    Ok(dispute_id),
                ),
            }
        }
    }

    /// Settles a `Disputed` escrow by the outcome of its dispute, for the
    /// registered dispute contract or the admin.
    pub open spec fn resolve_dispute(
        self,
        caller: Address,
        id: EscrowId,
        resolution: DisputeResolution,
        transfers_ok: bool,
    ) -> (EscrowLedger, Result<Payout, EscrowError>) {
        if !self.escrows.contains_key(id) {
            (self, Err(EscrowError::EscrowNotFound))
        } else if !is_admin_or_peer_spec(caller, self.dispute_contract, self.admin) {
            (self, Err(EscrowError::Unauthorized))
        } else if self.escrows[id].status != EscrowStatus::Disputed {
            (self, Err(EscrowError::InvalidStatus))
        } else {
            self.settle(id, resolution, status_after(resolution), transfers_ok)
        }
    }

    /// Cancels, for the admin, an escrow that is `Created` or `Active`, and
    /// refunds the whole amount to the buyer.
    pub open spec fn cancel(
        self,
        caller: Address,
        id: EscrowId,
        transfers_ok: bool,
    ) -> (EscrowLedger, Result<Payout, EscrowError>) {
        if !is_account_spec(caller, self.admin) {
            (self, Err(EscrowError::Unauthorized))
        } else if !self.escrows.contains_key(id) {
            (self, Err(EscrowError::EscrowNotFound))
        } else if self.escrows[id].status != EscrowStatus::Created && self.escrows[id].status
            != EscrowStatus::Active {
            (self, Err(EscrowError::InvalidStatus))
        } else {
            self.settle(id, DisputeResolution::FavorBuyer, EscrowStatus::Cancelled, transfers_ok)
        }
    }

    /// Sets the platform fee, for the admin, to at most 1000 basis points.
    pub open spec fn update_platform_fee(
        self,
        caller: Address,
        new_fee: u32,
    ) -> (EscrowLedger, Result<(), EscrowError>) {
        if !is_account_spec(caller, self.admin) {
            (self, Err(EscrowError::Unauthorized))
        } else if new_fee > MAX_PLATFORM_FEE {
            (self, Err(EscrowError::InvalidDisputeResolution))
        } else {
            (EscrowLedger { platform_fee: new_fee, ..self }, Ok(()))
        }
    }

    /// Registers, for the admin, the dispute contract.
    pub open spec fn set_dispute_contract(
        self,
        caller: Address,
        contract_address: ContractAddress,
    ) -> (EscrowLedger, Result<(), EscrowError>) {
        if !is_account_spec(caller, self.admin) {
            (self, Err(EscrowError::Unauthorized))
        } else {
            (EscrowLedger { dispute_contract: Some(contract_address), ..self }, Ok(()))
        }
    }

    /// What an operation does to the ledger, and the events and the payout of
    /// an accepted one.
    pub open spec fn update(
        self,
        ctx: CallContext,
        params: UpdateParams,
        host: HostReplies,
    ) -> (EscrowLedger, Result<(Seq<EscrowEvent>, Option<Payout>), EscrowError>) {
        match params {
            UpdateParams::CreateEscrow {
                seller,
                description,
                refund_deadline_hours,
                requires_identity_verification,
            } => {
                let (after, created) = self.create(
                    ctx,
                    seller,
                    description,
                    refund_deadline_hours,
                    requires_identity_verification,
                );
                match created {
                    Ok(escrow_id) => (
                        after,
                        Ok(
                            (
                                seq![
                                    EscrowEvent::EscrowCreated {
                                        escrow_id,
                                        buyer: after.escrows[escrow_id].buyer,
                                        seller,
                                        amount: ctx.amount,
                                    },
                                ],
                                None,
                            ),
                        ),
                    ),
                    Err(error) => (after, Err(error)),
                }
            },
            UpdateParams::ConfirmIdentity { escrow_id } => {
                let (after, activated) = self.confirm_identity(ctx.sender, escrow_id);
                match activated {
                    Ok(true) => (after, Ok((seq![EscrowEvent::EscrowActivated { escrow_id }], None))),
                    Ok(false) => (after, Ok((Seq::empty(), None))),
                    Err(error) => (after, Err(error)),
                }
            },
            UpdateParams::ActivateEscrow { escrow_id } => {
                let (after, done) = self.activate(ctx.sender, escrow_id);
                match done {
                    Ok(_) => (after, Ok((seq![EscrowEvent::EscrowActivated { escrow_id }], None))),
                    Err(error) => (after, Err(error)),
                }
            },
            UpdateParams::ConfirmDelivery { escrow_id } => {
                let (after, done) = self.confirm_delivery(ctx.sender, escrow_id);
                match done {
                    Ok(_) => (after, Ok((seq![EscrowEvent::DeliveryConfirmed { escrow_id }], None))),
                    Err(error) => (after, Err(error)),
                }
            },
            UpdateParams::CompleteTransaction { escrow_id } => {
                let (after, paid) = self.complete(ctx.sender, escrow_id, host.transfers_ok);
                match paid {
                    Ok(payout) => (
                        after,
                        Ok(
                            (
                                seq![
                                    EscrowEvent::TransactionCompleted {
                                        escrow_id,
                                        seller_amount: payout.seller_amount,
                                        platform_fee: payout.platform_fee,
                                    },
                                ],
                                Some(payout),
                            ),
                        ),
                    ),
                    Err(error) => (after, Err(error)),
                }
            },
            UpdateParams::RaiseDispute { escrow_id, reason } => {
                let (after, raised) = self.raise_dispute(ctx.sender, escrow_id, host.opened_dispute);
                match raised {
                    Ok(dispute_id) => (
                        after,
                        Ok((seq![EscrowEvent::DisputeRaised { escrow_id, dispute_id }], None)),
                    ),
                    Err(error) => (after, Err(error)),
                }
            },
            UpdateParams::ResolveDispute { escrow_id, resolution } => {
                let (after, paid) = self.resolve_dispute(
                    ctx.sender,
                    escrow_id,
                    resolution,
                    host.transfers_ok,
                );
                match paid {
                    Ok(payout) => (
                        after,
                        Ok((resolution_events(escrow_id, resolution, payout), Some(payout))),
                    ),
                    Err(error) => (after, Err(error)),
                }
            },
            UpdateParams::CancelEscrow { escrow_id } => {
                let (after, paid) = self.cancel(ctx.sender, escrow_id, host.transfers_ok);
                match paid {
                    Ok(payout) => (
                        after,
                        Ok(
                            (
                                seq![
                                    EscrowEvent::EscrowRefunded {
                                        escrow_id,
                                        refund_amount: payout.buyer_amount,
                                    },
                                ],
                                Some(payout),
                            ),
                        ),
                    ),
                    Err(error) => (after, Err(error)),
                }
            },
            UpdateParams::UpdatePlatformFee { new_fee } => {
                let (after, done) = self.update_platform_fee(ctx.sender, new_fee);
                match done {
                    Ok(_) => (after, Ok((Seq::empty(), None))),
                    Err(error) => (after, Err(error)),
                }
            },
            UpdateParams::SetDisputeContract { contract_address } => {
                let (after, done) = self.set_dispute_contract(ctx.sender, contract_address);
                match done {
                    Ok(_) => (after, Ok((Seq::empty(), None))),
                    Err(error) => (after, Err(error)),
                }
            },
        }
    }

    /// The payout that an operation makes if the host carries out its
    /// transfers: `None` for an operation that pays nothing out or is refused.
    pub open spec fn planned_payout(
        self,
        ctx: CallContext,
        params: UpdateParams,
    ) -> Option<Payout> {
        match self.update(ctx, params, HostReplies { transfers_ok: true, opened_dispute: None }).1 {
            Ok((_, payout)) => payout,
            Err(_) => None,
        }
    }

    /// The outside work that an operation depends on: the transfers of the
    /// payout it plans, and for a dispute that may be raised, while a dispute
    /// contract is registered, the case to open.
    pub open spec fn host_requests(
        self,
        ctx: CallContext,
        params: UpdateParams,
    ) -> (Seq<Transfer>, Option<CaseRequest>) {
        (
            match self.planned_payout(ctx, params) {
                Some(payout) => payout.transfers_spec(),
                None => Seq::empty(),
            },
            match params {
                UpdateParams::RaiseDispute { escrow_id, .. } => match (
                    self.dispute_request(ctx.sender, escrow_id),
                    self.dispute_contract,
                ) {
                    (Ok(escrow), Some(dispute_contract)) => Some(
                        CaseRequest {
                            dispute_contract,
                            escrow_id,
                            buyer: escrow.buyer,
                            seller: escrow.seller,
                            amount: escrow.amount,
                        },
                    ),
                    _ => None,
                },
                _ => None,
            },
        )
    }
}

/// Calls the subtraction of `concordium_std::Amount` on two amounts given in
/// micro-CCD. The outside function subtracts without a check, so the contract
/// admits only a part that is no more than the whole, and claims the
/// difference as the result.
#[verifier::external_body]
fn amount_less(whole: u64, part: u64) -> (rest: u64)
    requires
        part <= whole,
    ensures
        rest == whole - part,
{
    let whole = concordium_std::Amount::from_micro_ccd(whole);
    let rest = whole - concordium_std::Amount::from_micro_ccd(part);
    rest.micro_ccd()
}

/// Computes how an escrow is paid out under a resolution.
pub fn compute_payout(
    escrow_id: EscrowId,
    escrow: &EscrowDetails,
    fee_bps: u32,
    resolution: DisputeResolution,
) -> (payout: Result<Payout, EscrowError>)
    ensures
        payout == payout_of(escrow_id, *escrow, fee_bps, resolution),
{
    let nothing = Payout {
        escrow_id,
        seller: escrow.seller,
        seller_amount: 0,
        buyer: escrow.buyer,
        buyer_amount: 0,
        platform_fee: 0,
    };
    let amount: u128 = escrow.amount as u128;
    match resolution {
        DisputeResolution::FavorBuyer => Ok(Payout { buyer_amount: escrow.amount, ..nothing }),
        DisputeResolution::FavorSeller => {
            let bps: u128 = fee_bps as u128;
            assert(amount * bps <= 0xffff_ffff_ffff_ffff * 0xffff_ffff) by (nonlinear_arith)
                requires
                    amount <= 0xffff_ffff_ffff_ffff,
                    bps <= 0xffff_ffff,
            ;
            let fee: u128 = amount * bps / (BASIS_POINTS as u128);
            if fee > amount {
                Err(EscrowError::TransferError)
            } else {
                Ok(
                    Payout {
                        seller_amount: amount_less(escrow.amount, fee as u64),
                        platform_fee: fee as u64,
                        ..nothing
                    },
                )
            }
        },
        DisputeResolution::Split { seller_percentage } => {
            if seller_percentage > 100 {
                Err(EscrowError::InvalidDisputeResolution)
            } else {
                let percentage: u128 = seller_percentage as u128;
                assert(amount * percentage <= 0xffff_ffff_ffff_ffff * 100) by (nonlinear_arith)
                    requires
                        amount <= 0xffff_ffff_ffff_ffff,
                        percentage <= 100,
                ;
                let seller_amount: u128 = amount * percentage / 100;
                assert(seller_amount <= amount) by (nonlinear_arith)
                    requires
                        seller_amount == amount * percentage / 100,
                        percentage <= 100,
                ;
                Ok(
                    Payout {
                        seller_amount: seller_amount as u64,
                        buyer_amount: amount_less(escrow.amount, seller_amount as u64),
                        ..nothing
                    },
                )
            }
        },
    }
}

impl EscrowState {
    /// Initialize the escrow ledger.
    pub fn init(params: InitParams) -> (state: EscrowState)
        ensures
            state@ == EscrowLedger::init(params),
            state@.wf(),
    {
        EscrowState {
            escrows: BTreeMap::new(),
            admin: params.admin,
            platform_fee: params.platform_fee,
            dispute_contract: None,
            next_escrow_id: 0,
        }
    }

    /// Whether every escrow carries an id below the next one.
    pub fn is_well_formed(&self) -> (well_formed: bool)
        ensures
            well_formed == self@.wf(),
    {
        broadcast use vstd::std_specs::btree::group_btree_axioms;

        let next = self.next_escrow_id;
        for entry in it: self.escrows.iter()
            invariant
                next == self.next_escrow_id,
                it.seq() == self.escrows.iter().remaining(),
                forall|i: int| 0 <= i < it.index() ==> *(#[trigger] it.seq()[i]).0 < next,
        {
            if *entry.0 >= next {
                assert(self.escrows@.contains_key(*it.seq()[it.index()].0));
                assert(self@.escrows.contains_key(*entry.0));
                return false;
            }
        }
        true
    }

    /// Get escrow details by id.
    pub fn get_escrow(&self, escrow_id: EscrowId) -> (escrow: Option<&EscrowDetails>)
        ensures
            escrow == (if self@.escrows.contains_key(escrow_id) {
                Some(&self@.escrows[escrow_id])
            } else {
                None
            }),
    {
        broadcast use vstd::std_specs::btree::group_btree_axioms;

        self.escrows.get(&escrow_id)
    }

    /// Get platform fee.
    pub fn get_platform_fee(&self) -> (fee: u32)
        ensures
            fee == self@.platform_fee,
    {
        self.platform_fee
    }

    fn replace(&mut self, escrow_id: EscrowId, escrow: EscrowDetails)
        ensures
            final(self)@ == old(self)@.with_escrow(escrow_id, escrow),
    {
        self.escrows.insert(escrow_id, escrow);
    }

    fn set_status(&mut self, escrow_id: EscrowId, status: EscrowStatus)
        requires
            old(self)@.escrows.contains_key(escrow_id),
        ensures
            final(self)@ == old(self)@.with_status(escrow_id, status),
    {
        broadcast use vstd::std_specs::btree::group_btree_axioms;

        let removed = self.escrows.remove(&escrow_id);
        let mut escrow = removed.unwrap();
        escrow.status = status;
        self.escrows.insert(escrow_id, escrow);
        assert(final(self)@.escrows =~= old(self)@.with_status(escrow_id, status).escrows);
    }

    /// Create a new escrow that holds the funds sent with the call.
    pub fn create(
        &mut self,
        ctx: &CallContext,
        seller: AccountAddress,
        description: String,
        refund_deadline_hours: Option<u64>,
        requires_identity_verification: bool,
    ) -> (created: Result<EscrowId, EscrowError>)
        requires
            old(self)@.wf(),
        ensures
            final(self)@.wf(),
            (final(self)@, created) == old(self)@.create(
                *ctx,
                seller,
                description,
                refund_deadline_hours,
                requires_identity_verification,
            ),
    {
        if ctx.amount == 0 {
            return Err(EscrowError::InsufficientFunds);
        }
        let buyer = match ctx.sender {
            Address::Account(account) => account,
            Address::Contract(_) => {
                return Err(EscrowError::Unauthorized);
            },
        };
        if self.next_escrow_id == u64::MAX {
            return Err(EscrowError::CapacityExceeded);
        }
        let refund_deadline = match refund_deadline_hours {
            Some(hours) => Some(deadline_after(ctx.slot_time, hours)),
            None => None,
        };
        let escrow_id = self.next_escrow_id;
        let escrow = EscrowDetails {
            buyer,
            seller,
            amount: ctx.amount,
            description,
            status: EscrowStatus::Created,
            created_at: ctx.slot_time,
            refund_deadline,
            requires_identity_verification,
            buyer_verified: !requires_identity_verification,
            seller_verified: !requires_identity_verification,
            dispute_id: None,
        };
        self.escrows.insert(escrow_id, escrow);
        self.next_escrow_id = escrow_id + 1;
        Ok(escrow_id)
    }

    /// Confirm the identity of the caller, who is a party of the escrow.
    pub fn confirm_identity(
        &mut self,
        caller: &Address,
        escrow_id: EscrowId,
    ) -> (activated: Result<bool, EscrowError>)
        requires
            old(self)@.wf(),
        ensures
            final(self)@.wf(),
            (final(self)@, activated) == old(self)@.confirm_identity(*caller, escrow_id),
    {
        broadcast use vstd::std_specs::btree::group_btree_axioms;

        let escrow = match self.escrows.get(&escrow_id) {
            Some(escrow) => escrow,
            None => {
                return Err(EscrowError::EscrowNotFound);
            },
        };
        let is_buyer = is_account(caller, &escrow.buyer);
        if !is_buyer && !is_account(caller, &escrow.seller) {
            return Err(EscrowError::Unauthorized);
        }
        let mut escrow = escrow.clone();
        if is_buyer {
            escrow.buyer_verified = true;
        } else {
            escrow.seller_verified = true;
        }
        let activated = escrow.status == EscrowStatus::Created && escrow.buyer_verified
            && escrow.seller_verified;
        if activated {
            escrow.status = EscrowStatus::Active;
        }
        self.replace(escrow_id, escrow);
        Ok(activated)
    }

    /// Activate an escrow whose conditions are met.
    pub fn activate(
        &mut self,
        caller: &Address,
        escrow_id: EscrowId,
    ) -> (done: Result<(), EscrowError>)
        requires
            old(self)@.wf(),
        ensures
            final(self)@.wf(),
            (final(self)@, done) == old(self)@.activate(*caller, escrow_id),
    {
        broadcast use vstd::std_specs::btree::group_btree_axioms;

        let escrow = match self.escrows.get(&escrow_id) {
            Some(escrow) => escrow,
            None => {
                return Err(EscrowError::EscrowNotFound);
            },
        };
        if !is_either(caller, &escrow.buyer, &self.admin) {
            return Err(EscrowError::Unauthorized);
        }
        if escrow.status != EscrowStatus::Created {
            return Err(EscrowError::InvalidStatus);
        }
        if escrow.requires_identity_verification && (!escrow.buyer_verified
            || !escrow.seller_verified) {
            return Err(EscrowError::IdentityVerificationRequired);
        }
        self.set_status(escrow_id, EscrowStatus::Active);
        Ok(())
    }

    /// Confirm delivery, as the seller.
    pub fn confirm_delivery(
        &mut self,
        caller: &Address,
        escrow_id: EscrowId,
    ) -> (done: Result<(), EscrowError>)
        requires
            old(self)@.wf(),
        ensures
            final(self)@.wf(),
            (final(self)@, done) == old(self)@.confirm_delivery(*caller, escrow_id),
    {
        broadcast use vstd::std_specs::btree::group_btree_axioms;

        let escrow = match self.escrows.get(&escrow_id) {
            Some(escrow) => escrow,
            None => {
                return Err(EscrowError::EscrowNotFound);
            },
        };
        if !is_account(caller, &escrow.seller) {
            return Err(EscrowError::Unauthorized);
        }
        if escrow.status != EscrowStatus::Active {
            return Err(EscrowError::InvalidStatus);
        }
        self.set_status(escrow_id, EscrowStatus::DeliveryConfirmed);
        Ok(())
    }

    fn settle(
        &mut self,
        escrow_id: EscrowId,
        resolution: DisputeResolution,
        status: EscrowStatus,
        transfers_ok: bool,
    ) -> (paid: Result<Payout, EscrowError>)
        requires
            old(self)@.escrows.contains_key(escrow_id),
        ensures
            (final(self)@, paid) == old(self)@.settle(escrow_id, resolution, status, transfers_ok),
    {
        broadcast use vstd::std_specs::btree::group_btree_axioms;

        let computed = match self.escrows.get(&escrow_id) {
            Some(escrow) => compute_payout(escrow_id, escrow, self.platform_fee, resolution),
            None => Err(EscrowError::EscrowNotFound),
        };
        let payout = match computed {
            Ok(payout) => payout,
            Err(error) => {
                return Err(error);
            },
        };
        if payout.needs_transfer() && !transfers_ok {
            return Err(EscrowError::TransferError);
        }
        self.set_status(escrow_id, status);
        Ok(payout)
    }

    /// Complete the transaction, as the buyer.
    ///
    /// `transfers_ok` says whether the host carried out the transfer that the
    /// payout asks for.
    pub fn complete(
        &mut self,
        caller: &Address,
        escrow_id: EscrowId,
        transfers_ok: bool,
    ) -> (paid: Result<Payout, EscrowError>)
        requires
            old(self)@.wf(),
        ensures
            final(self)@.wf(),
            (final(self)@, paid) == old(self)@.complete(*caller, escrow_id, transfers_ok),
    {
        broadcast use vstd::std_specs::btree::group_btree_axioms;

        let escrow = match self.escrows.get(&escrow_id) {
            Some(escrow) => escrow,
            None => {
                return Err(EscrowError::EscrowNotFound);
            },
        };
        if !is_account(caller, &escrow.buyer) {
            return Err(EscrowError::Unauthorized);
        }
        if escrow.status != EscrowStatus::DeliveryConfirmed {
            return Err(EscrowError::InvalidStatus);
        }
        self.settle(escrow_id, DisputeResolution::FavorSeller, EscrowStatus::Completed, transfers_ok)
    }

    /// The escrow that the caller may raise a dispute on, or why it may not.
    /// The ledger is left as it is: this is for the host to learn which case
    /// to have opened before it hands the operation to `update`.
    pub fn dispute_request(
        &self,
        caller: &Address,
        escrow_id: EscrowId,
    ) -> (request: Result<&EscrowDetails, EscrowError>)
        ensures
            (match request {
                Ok(escrow) => self@.dispute_request(*caller, escrow_id) == Ok::<
                    EscrowDetails,
                    EscrowError,
                >(*escrow),
                Err(error) => self@.dispute_request(*caller, escrow_id) == Err::<
                    EscrowDetails,
                    EscrowError,
                >(error),
            }),
    {
        broadcast use vstd::std_specs::btree::group_btree_axioms;

        let escrow = match self.escrows.get(&escrow_id) {
            Some(escrow) => escrow,
            None => {
                return Err(EscrowError::EscrowNotFound);
            },
        };
        if !is_either(caller, &escrow.buyer, &escrow.seller) {
            return Err(EscrowError::Unauthorized);
        }
        if escrow.status != EscrowStatus::Active && escrow.status
            != EscrowStatus::DeliveryConfirmed {
            return Err(EscrowError::InvalidStatus);
        }
        Ok(escrow)
    }

    /// Raise a dispute, as the buyer or the seller.
    ///
    /// `opened` is the id of the case that the dispute ledger opened for this
    /// escrow, or `None` when it opened none.
    pub fn raise_dispute(
        &mut self,
        caller: &Address,
        escrow_id: EscrowId,
        opened: Option<u64>,
    ) -> (raised: Result<u64, EscrowError>)
        requires
            old(self)@.wf(),
        ensures
            final(self)@.wf(),
            (final(self)@, raised) == old(self)@.raise_dispute(*caller, escrow_id, opened),
    {
        broadcast use vstd::std_specs::btree::group_btree_axioms;

        let escrow = match self.escrows.get(&escrow_id) {
            Some(escrow) => escrow,
            None => {
                return Err(EscrowError::EscrowNotFound);
            },
        };
        if !is_either(caller, &escrow.buyer, &escrow.seller) {
            return Err(EscrowError::Unauthorized);
        }
        if escrow.status != EscrowStatus::Active && escrow.status
            != EscrowStatus::DeliveryConfirmed {
            return Err(EscrowError::InvalidStatus);
        }
        let dispute_id = match opened {
            Some(dispute_id) => dispute_id,
            None => {
                return Err(EscrowError::InvokeContractError);
            },
        };
        let mut escrow = escrow.clone();
        escrow.status = EscrowStatus::Disputed;
        escrow.dispute_id = Some(dispute_id);
        self.replace(escrow_id, escrow);
        Ok(dispute_id)
    }

    /// Resolve a dispute, as the dispute contract or the admin.
    ///
    /// `transfers_ok` says whether the host carried out the transfers that the
    /// payout asks for.
    pub fn resolve_dispute(
        &mut self,
        caller: &Address,
        escrow_id: EscrowId,
        resolution: DisputeResolution,
        transfers_ok: bool,
    ) -> (paid: Result<Payout, EscrowError>)
        requires
            old(self)@.wf(),
        ensures
            final(self)@.wf(),
            (final(self)@, paid) == old(self)@.resolve_dispute(
                *caller,
                escrow_id,
                resolution,
                transfers_ok,
            ),
    {
        broadcast use vstd::std_specs::btree::group_btree_axioms;

        let escrow = match self.escrows.get(&escrow_id) {
            Some(escrow) => escrow,
            None => {
                return Err(EscrowError::EscrowNotFound);
            },
        };
        if !is_admin_or_peer(caller, &self.dispute_contract, &self.admin) {
            return Err(EscrowError::Unauthorized);
        }
        if escrow.status != EscrowStatus::Disputed {
            return Err(EscrowError::InvalidStatus);
        }
        let status = match resolution {
            DisputeResolution::FavorBuyer => EscrowStatus::Refunded,
            _ => EscrowStatus::Completed,
        };
        self.settle(escrow_id, resolution, status, transfers_ok)
    }

    /// Cancel an escrow, as the admin.
    ///
    /// `transfers_ok` says whether the host carried out the refund.
    pub fn cancel(
        &mut self,
        caller: &Address,
        escrow_id: EscrowId,
        transfers_ok: bool,
    ) -> (paid: Result<Payout, EscrowError>)
        requires
            old(self)@.wf(),
        ensures
            final(self)@.wf(),
            (final(self)@, paid) == old(self)@.cancel(*caller, escrow_id, transfers_ok),
    {
        broadcast use vstd::std_specs::btree::group_btree_axioms;

        if !is_account(caller, &self.admin) {
            return Err(EscrowError::Unauthorized);
        }
        let escrow = match self.escrows.get(&escrow_id) {
            Some(escrow) => escrow,
            None => {
                return Err(EscrowError::EscrowNotFound);
            },
        };
        if escrow.status != EscrowStatus::Created && escrow.status != EscrowStatus::Active {
            return Err(EscrowError::InvalidStatus);
        }
        self.settle(escrow_id, DisputeResolution::FavorBuyer, EscrowStatus::Cancelled, transfers_ok)
    }

    /// Update the platform fee, as the admin.
    pub fn update_platform_fee(
        &mut self,
        caller: &Address,
        new_fee: u32,
    ) -> (done: Result<(), EscrowError>)
        requires
            old(self)@.wf(),
        ensures
            final(self)@.wf(),
            (final(self)@, done) == old(self)@.update_platform_fee(*caller, new_fee),
    {
        if !is_account(caller, &self.admin) {
            return Err(EscrowError::Unauthorized);
        }
        if new_fee > MAX_PLATFORM_FEE {
            return Err(EscrowError::InvalidDisputeResolution);
        }
        self.platform_fee = new_fee;
        assert(self@.escrows == old(self)@.escrows);
        Ok(())
    }

    /// Set the dispute resolution contract, as the admin.
    pub fn set_dispute_contract(
        &mut self,
        caller: &Address,
        contract_address: ContractAddress,
    ) -> (done: Result<(), EscrowError>)
        requires
            old(self)@.wf(),
        ensures
            final(self)@.wf(),
            (final(self)@, done) == old(self)@.set_dispute_contract(*caller, contract_address),
    {
        if !is_account(caller, &self.admin) {
            return Err(EscrowError::Unauthorized);
        }
        self.dispute_contract = Some(contract_address);
        assert(self@.escrows == old(self)@.escrows);
        Ok(())
    }

    /// The payout that an operation makes if the host carries out its
    /// transfers. The ledger is left as it is: this is for the host to learn
    /// which transfers to attempt before it hands the operation to `update`.
    pub fn planned_payout(
        &self,
        ctx: &CallContext,
        params: &UpdateParams,
    ) -> (payout: Option<Payout>)
        ensures
            payout == self@.planned_payout(*ctx, *params),
    {
        broadcast use vstd::std_specs::btree::group_btree_axioms;

        let caller = &ctx.sender;
        match params {
            UpdateParams::CompleteTransaction { escrow_id } => {
                let escrow = self.escrows.get(escrow_id)?;
                if !is_account(caller, &escrow.buyer) || escrow.status
                    != EscrowStatus::DeliveryConfirmed {
                    return None;
                }
                compute_payout(*escrow_id, escrow, self.platform_fee, DisputeResolution::FavorSeller).ok()
            },
            UpdateParams::ResolveDispute { escrow_id, resolution } => {
                let escrow = self.escrows.get(escrow_id)?;
                if !is_admin_or_peer(caller, &self.dispute_contract, &self.admin) || escrow.status
                    != EscrowStatus::Disputed {
                    return None;
                }
                compute_payout(*escrow_id, escrow, self.platform_fee, *resolution).ok()
            },
            UpdateParams::CancelEscrow { escrow_id } => {
                let escrow = self.escrows.get(escrow_id)?;
                if !is_account(caller, &self.admin) || (escrow.status != EscrowStatus::Created
                    && escrow.status != EscrowStatus::Active) {
                    return None;
                }
                compute_payout(*escrow_id, escrow, self.platform_fee, DisputeResolution::FavorBuyer).ok()
            },
            _ => None,
        }
    }

    /// The outside work that an operation depends on. The ledger is left as it
    /// is.
    pub fn host_requests(
        &self,
        ctx: &CallContext,
        params: &UpdateParams,
    ) -> (requests: HostRequests)
        ensures
            requests@ == self@.host_requests(*ctx, *params),
    {
        let transfers = match self.planned_payout(ctx, params) {
            Some(payout) => payout.transfers(),
            None => Vec::new(),
        };
        let open_case = match params {
            UpdateParams::RaiseDispute { escrow_id, .. } => {
                match (self.dispute_request(&ctx.sender, *escrow_id), self.dispute_contract) {
                    (Ok(escrow), Some(dispute_contract)) => Some(
                        CaseRequest {
                            dispute_contract,
                            escrow_id: *escrow_id,
                            buyer: escrow.buyer,
                            seller: escrow.seller,
                            amount: escrow.amount,
                        },
                    ),
                    _ => None,
                }
            },
            _ => None,
        };
        HostRequests { transfers, open_case }
    }
}

/// Whether an accepted operation brought about what the ledger's rules give.
pub open spec fn receipt_matches(
    receipt: Result<Receipt, EscrowError>,
    expected: Result<(Seq<EscrowEvent>, Option<Payout>), EscrowError>,
) -> bool {
    match receipt {
        Ok(receipt) => expected == Ok::<(Seq<EscrowEvent>, Option<Payout>), EscrowError>(receipt@),
        Err(error) => expected == Err::<(Seq<EscrowEvent>, Option<Payout>), EscrowError>(error),
    }
}

fn one_event(event: EscrowEvent) -> (events: Vec<EscrowEvent>)
    ensures
        events@ == seq![event],
{
    let mut events: Vec<EscrowEvent> = Vec::new();
    events.push(event);
    assert(events@ =~= seq![event]);
    events
}

/// Handle an operation on the ledger.
///
/// `ctx` is what the invoking transaction says of itself, and `host` what the
/// host answered to the outside work that the operation depends on.
pub fn update(
    state: &mut EscrowState,
    ctx: &CallContext,
    params: UpdateParams,
    host: &HostReplies,
) -> (receipt: Result<Receipt, EscrowError>)
    requires
        old(state)@.wf(),
    ensures
        final(state)@.wf(),
        final(state)@ == old(state)@.update(*ctx, params, *host).0,
        receipt_matches(receipt, old(state)@.update(*ctx, params, *host).1),
{
    match params {
        UpdateParams::CreateEscrow {
            seller,
            description,
            refund_deadline_hours,
            requires_identity_verification,
        } => {
            let escrow_id = state.create(
                ctx,
                seller,
                description,
                refund_deadline_hours,
                requires_identity_verification,
            )?;
            let buyer = match ctx.sender {
                Address::Account(account) => account,
                Address::Contract(_) => seller,
            };
            Ok(
                Receipt {
                    events: one_event(
                        EscrowEvent::EscrowCreated { escrow_id, buyer, seller, amount: ctx.amount },
                    ),
                    payout: None,
                },
            )
        },
        UpdateParams::ConfirmIdentity { escrow_id } => {
            let activated = state.confirm_identity(&ctx.sender, escrow_id)?;
            let events = if activated {
                one_event(EscrowEvent::EscrowActivated { escrow_id })
            } else {
                Vec::new()
            };
            Ok(Receipt { events, payout: None })
        },
        UpdateParams::ActivateEscrow { escrow_id } => {
            state.activate(&ctx.sender, escrow_id)?;
            Ok(
                Receipt {
                    events: one_event(EscrowEvent::EscrowActivated { escrow_id }),
                    payout: None,
                },
            )
        },
        UpdateParams::ConfirmDelivery { escrow_id } => {
            state.confirm_delivery(&ctx.sender, escrow_id)?;
            Ok(
                Receipt {
                    events: one_event(EscrowEvent::DeliveryConfirmed { escrow_id }),
                    payout: None,
                },
            )
        },
        UpdateParams::CompleteTransaction { escrow_id } => {
            let payout = state.complete(&ctx.sender, escrow_id, host.transfers_ok)?;
            Ok(
                Receipt {
                    events: one_event(
                        EscrowEvent::TransactionCompleted {
                            escrow_id,
                            seller_amount: payout.seller_amount,
                            platform_fee: payout.platform_fee,
                        },
                    ),
                    payout: Some(payout),
                },
            )
        },
        UpdateParams::RaiseDispute { escrow_id, reason: _ } => {
            let dispute_id = state.raise_dispute(&ctx.sender, escrow_id, host.opened_dispute)?;
            Ok(
                Receipt {
                    events: one_event(EscrowEvent::DisputeRaised { escrow_id, dispute_id }),
                    payout: None,
                },
            )
        },
        UpdateParams::ResolveDispute { escrow_id, resolution } => {
            let payout = state.resolve_dispute(&ctx.sender, escrow_id, resolution, host.transfers_ok)?;
            let mut events: Vec<EscrowEvent> = Vec::new();
            match resolution {
                DisputeResolution::FavorBuyer => {
                    events.push(
                        EscrowEvent::EscrowRefunded { escrow_id, refund_amount: payout.buyer_amount },
                    );
                },
                DisputeResolution::FavorSeller => {
                    events.push(
                        EscrowEvent::TransactionCompleted {
                            escrow_id,
                            seller_amount: payout.seller_amount,
                            platform_fee: payout.platform_fee,
                        },
                    );
                },
                DisputeResolution::Split { .. } => {},
            }
            events.push(EscrowEvent::DisputeResolved { escrow_id, resolution });
            assert(events@ =~= resolution_events(escrow_id, resolution, payout));
            Ok(Receipt { events, payout: Some(payout) })
        },
        UpdateParams::CancelEscrow { escrow_id } => {
            let payout = state.cancel(&ctx.sender, escrow_id, host.transfers_ok)?;
            Ok(
                Receipt {
                    events: one_event(
                        EscrowEvent::EscrowRefunded { escrow_id, refund_amount: payout.buyer_amount },
                    ),
                    payout: Some(payout),
                },
            )
        },
        UpdateParams::UpdatePlatformFee { new_fee } => {
            state.update_platform_fee(&ctx.sender, new_fee)?;
            Ok(Receipt { events: Vec::new(), payout: None })
        },
        UpdateParams::SetDisputeContract { contract_address } => {
            state.set_dispute_contract(&ctx.sender, contract_address)?;
            Ok(Receipt { events: Vec::new(), payout: None })
        },
    }
}

} // verus!
