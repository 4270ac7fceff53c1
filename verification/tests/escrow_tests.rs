use credify::escrow::{
    compute_payout, update, CaseRequest, EscrowDetails, EscrowError, EscrowEvent, EscrowState,
    EscrowStatus, HostReplies, HostRequests, InitParams, Payout, Receipt, Transfer, UpdateParams,
};
use credify::resolution::DisputeResolution;
use credify::types::{AccountAddress, Address, CallContext, ContractAddress};

const ADMIN: u8 = 1;
const BUYER: u8 = 2;
const SELLER: u8 = 3;
const STRANGER: u8 = 4;

fn acct(tag: u8) -> AccountAddress {
    AccountAddress([tag; 32])
}

fn who(tag: u8) -> Address {
    Address::Account(acct(tag))
}

fn ctx(tag: u8, amount: u64, slot_time: u64) -> CallContext {
    CallContext { sender: who(tag), amount, slot_time }
}

fn peer() -> ContractAddress {
    ContractAddress { index: 7, subindex: 0 }
}

fn ledger(fee: u32) -> EscrowState {
    EscrowState::init(InitParams { admin: acct(ADMIN), platform_fee: fee })
}

fn with_escrow(fee: u32, amount: u64, verification: bool) -> EscrowState {
    let mut state = ledger(fee);
    let created =
        state.create(&ctx(BUYER, amount, 5_000), acct(SELLER), String::from("bike"), Some(24), verification);
    assert_eq!(created, Ok(0));
    state
}

fn in_status(status: EscrowStatus, fee: u32, amount: u64) -> EscrowState {
    let mut state = with_escrow(fee, amount, false);
    if status == EscrowStatus::Created {
        return state;
    }
    if status == EscrowStatus::Cancelled {
        state.cancel(&who(ADMIN), 0, true).unwrap();
        return state;
    }
    state.activate(&who(BUYER), 0).unwrap();
    if status == EscrowStatus::Active {
        return state;
    }
    if status == EscrowStatus::Disputed || status == EscrowStatus::Refunded {
        state.raise_dispute(&who(SELLER), 0, Some(11)).unwrap();
        if status == EscrowStatus::Refunded {
            state.resolve_dispute(&who(ADMIN), 0, DisputeResolution::FavorBuyer, true).unwrap();
        }
        return state;
    }
    state.confirm_delivery(&who(SELLER), 0).unwrap();
    if status == EscrowStatus::Completed {
        state.complete(&who(BUYER), 0, true).unwrap();
    }
    state
}

fn status_of(state: &EscrowState) -> EscrowStatus {
    state.get_escrow(0).unwrap().status
}

fn ok_replies() -> HostReplies {
    HostReplies { transfers_ok: true, opened_dispute: Some(11) }
}

const ALL: [EscrowStatus; 7] = [
    EscrowStatus::Created,
    EscrowStatus::Active,
    EscrowStatus::DeliveryConfirmed,
    EscrowStatus::Completed,
    EscrowStatus::Disputed,
    EscrowStatus::Refunded,
    EscrowStatus::Cancelled,
];

#[test]
fn init_starts_empty() {
    let state = ledger(250);
    assert_eq!(state.get_platform_fee(), 250);
    assert_eq!(state.next_escrow_id, 0);
    assert!(state.escrows.is_empty());
    assert_eq!(state.dispute_contract, None);
    assert_eq!(state.admin, acct(ADMIN));
    assert!(state.get_escrow(0).is_none());
}

#[test]
fn create_records_the_escrow() {
    let state = with_escrow(200, 1_000_000, true);
    let expected = EscrowDetails {
        buyer: acct(BUYER),
        seller: acct(SELLER),
        amount: 1_000_000,
        description: String::from("bike"),
        status: EscrowStatus::Created,
        created_at: 5_000,
        refund_deadline: Some(5_000 + 24 * 3_600_000),
        requires_identity_verification: true,
        buyer_verified: false,
        seller_verified: false,
        dispute_id: None,
    };
    assert_eq!(state.get_escrow(0), Some(&expected));
    assert_eq!(state.get_escrow(0).unwrap().clone(), expected);
    assert_eq!(state.next_escrow_id, 1);
}

#[test]
fn create_without_verification_marks_both_sides_verified() {
    let mut state = ledger(0);
    state.create(&ctx(BUYER, 1, 0), acct(SELLER), String::new(), None, false).unwrap();
    let escrow = state.get_escrow(0).unwrap();
    assert!(escrow.buyer_verified && escrow.seller_verified);
    assert_eq!(escrow.refund_deadline, None);
}

#[test]
fn create_hands_out_sequential_ids() {
    let mut state = ledger(0);
    for expected in 0..5u64 {
        let id = state.create(&ctx(BUYER, 10, 0), acct(SELLER), String::new(), None, false);
        assert_eq!(id, Ok(expected));
    }
    assert_eq!(state.escrows.len(), 5);
}

#[test]
fn create_without_funds_is_refused() {
    let mut state = ledger(0);
    let created = state.create(&ctx(BUYER, 0, 0), acct(SELLER), String::new(), None, false);
    assert_eq!(created, Err(EscrowError::InsufficientFunds));
    assert!(state.escrows.is_empty());
    assert_eq!(state.next_escrow_id, 0);
}

#[test]
fn create_by_a_contract_is_refused() {
    let mut state = ledger(0);
    let from_contract = CallContext { sender: Address::Contract(peer()), amount: 5, slot_time: 0 };
    let created = state.create(&from_contract, acct(SELLER), String::new(), None, false);
    assert_eq!(created, Err(EscrowError::Unauthorized));
    assert!(state.escrows.is_empty());
}

#[test]
fn create_is_refused_when_ids_are_exhausted() {
    let mut state = ledger(0);
    state.next_escrow_id = u64::MAX;
    let created = state.create(&ctx(BUYER, 5, 0), acct(SELLER), String::new(), None, false);
    assert_eq!(created, Err(EscrowError::CapacityExceeded));
    assert!(state.escrows.is_empty());
    state.next_escrow_id = u64::MAX - 1;
    let created = state.create(&ctx(BUYER, 5, 0), acct(SELLER), String::new(), None, false);
    assert_eq!(created, Ok(u64::MAX - 1));
    assert_eq!(state.next_escrow_id, u64::MAX);
}

#[test]
fn confirm_identity_activates_when_both_are_verified() {
    let mut state = with_escrow(0, 100, true);
    assert_eq!(state.confirm_identity(&who(SELLER), 0), Ok(false));
    assert_eq!(status_of(&state), EscrowStatus::Created);
    assert!(state.get_escrow(0).unwrap().seller_verified);
    assert!(!state.get_escrow(0).unwrap().buyer_verified);
    assert_eq!(state.confirm_identity(&who(BUYER), 0), Ok(true));
    assert_eq!(status_of(&state), EscrowStatus::Active);
    assert_eq!(state.confirm_identity(&who(BUYER), 0), Ok(false));
    assert_eq!(status_of(&state), EscrowStatus::Active);
}

#[test]
fn confirm_identity_is_for_the_parties() {
    let mut state = with_escrow(0, 100, true);
    assert_eq!(state.confirm_identity(&who(STRANGER), 0), Err(EscrowError::Unauthorized));
    assert_eq!(state.confirm_identity(&who(ADMIN), 0), Err(EscrowError::Unauthorized));
    assert_eq!(state.confirm_identity(&who(BUYER), 1), Err(EscrowError::EscrowNotFound));
    assert!(!state.get_escrow(0).unwrap().buyer_verified);
}

#[test]
fn confirm_identity_leaves_a_settled_escrow_settled() {
    let mut state = in_status(EscrowStatus::Completed, 0, 100);
    assert_eq!(state.confirm_identity(&who(BUYER), 0), Ok(false));
    assert_eq!(status_of(&state), EscrowStatus::Completed);
}

#[test]
fn activate_needs_verification_where_required() {
    let mut state = with_escrow(0, 100, true);
    assert_eq!(state.activate(&who(BUYER), 0), Err(EscrowError::IdentityVerificationRequired));
    state.confirm_identity(&who(BUYER), 0).unwrap();
    assert_eq!(state.activate(&who(ADMIN), 0), Err(EscrowError::IdentityVerificationRequired));
    assert_eq!(status_of(&state), EscrowStatus::Created);
}

#[test]
fn activate_is_for_buyer_or_admin() {
    let mut state = with_escrow(0, 100, false);
    assert_eq!(state.activate(&who(SELLER), 0), Err(EscrowError::Unauthorized));
    assert_eq!(state.activate(&who(STRANGER), 0), Err(EscrowError::Unauthorized));
    assert_eq!(state.activate(&Address::Contract(peer()), 0), Err(EscrowError::Unauthorized));
    assert_eq!(state.activate(&who(ADMIN), 4), Err(EscrowError::EscrowNotFound));
    assert_eq!(state.activate(&who(ADMIN), 0), Ok(()));
    assert_eq!(status_of(&state), EscrowStatus::Active);
    assert_eq!(state.activate(&who(BUYER), 0), Err(EscrowError::InvalidStatus));
}

#[test]
fn confirm_delivery_is_for_the_seller_of_an_active_escrow() {
    let mut state = with_escrow(0, 100, false);
    assert_eq!(state.confirm_delivery(&who(SELLER), 0), Err(EscrowError::InvalidStatus));
    state.activate(&who(BUYER), 0).unwrap();
    assert_eq!(state.confirm_delivery(&who(BUYER), 0), Err(EscrowError::Unauthorized));
    assert_eq!(state.confirm_delivery(&who(SELLER), 9), Err(EscrowError::EscrowNotFound));
    assert_eq!(state.confirm_delivery(&who(SELLER), 0), Ok(()));
    assert_eq!(status_of(&state), EscrowStatus::DeliveryConfirmed);
}

#[test]
fn complete_is_for_the_buyer_after_delivery() {
    for status in ALL {
        let mut state = in_status(status, 200, 1_000);
        assert_eq!(state.complete(&who(SELLER), 0, true), Err(EscrowError::Unauthorized));
        assert_eq!(state.complete(&who(BUYER), 3, true), Err(EscrowError::EscrowNotFound));
        let paid = state.complete(&who(BUYER), 0, true);
        if status == EscrowStatus::DeliveryConfirmed {
            assert_eq!(paid.unwrap().seller_amount, 980);
            assert_eq!(status_of(&state), EscrowStatus::Completed);
        } else {
            assert_eq!(paid, Err(EscrowError::InvalidStatus));
            assert_eq!(status_of(&state), status);
        }
    }
}

#[test]
fn complete_twice_pays_once() {
    let mut state = in_status(EscrowStatus::DeliveryConfirmed, 200, 1_000_000);
    let first = state.complete(&who(BUYER), 0, true).unwrap();
    assert_eq!(first.seller_amount + first.buyer_amount + first.platform_fee, 1_000_000);
    assert_eq!(state.complete(&who(BUYER), 0, true), Err(EscrowError::InvalidStatus));
    assert_eq!(state.cancel(&who(ADMIN), 0, true), Err(EscrowError::InvalidStatus));
    assert_eq!(
        state.resolve_dispute(&who(ADMIN), 0, DisputeResolution::FavorBuyer, true),
        Err(EscrowError::InvalidStatus)
    );
    assert_eq!(state.raise_dispute(&who(BUYER), 0, Some(1)), Err(EscrowError::InvalidStatus));
}

#[test]
fn fee_is_rounded_down() {
    let mut state = in_status(EscrowStatus::DeliveryConfirmed, 333, 1_001);
    // 1001 * 333 / 10000 = 33.3333
    let paid = state.complete(&who(BUYER), 0, true).unwrap();
    assert_eq!(paid.platform_fee, 33);
    assert_eq!(paid.seller_amount, 968);
}

#[test]
fn fee_of_the_largest_amount_does_not_overflow() {
    let mut state = in_status(EscrowStatus::DeliveryConfirmed, 1_000, u64::MAX);
    let paid = state.complete(&who(BUYER), 0, true).unwrap();
    assert_eq!(paid.platform_fee, 1_844_674_407_370_955_161);
    assert_eq!(paid.seller_amount, u64::MAX - 1_844_674_407_370_955_161);
}

#[test]
fn full_fee_leaves_nothing_to_transfer() {
    let mut state = in_status(EscrowStatus::DeliveryConfirmed, 10_000, 500);
    let paid = state.complete(&who(BUYER), 0, false).unwrap();
    assert_eq!(paid.seller_amount, 0);
    assert_eq!(paid.platform_fee, 500);
    assert_eq!(status_of(&state), EscrowStatus::Completed);
}

#[test]
fn fee_above_the_amount_cannot_be_paid() {
    let mut state = in_status(EscrowStatus::DeliveryConfirmed, 10_001, 10_000);
    assert_eq!(state.complete(&who(BUYER), 0, true), Err(EscrowError::TransferError));
    assert_eq!(status_of(&state), EscrowStatus::DeliveryConfirmed);
}

#[test]
fn raise_dispute_links_the_case() {
    for status in ALL {
        let mut state = in_status(status, 0, 100);
        assert_eq!(state.raise_dispute(&who(ADMIN), 0, Some(4)), Err(EscrowError::Unauthorized));
        assert_eq!(state.raise_dispute(&who(BUYER), 8, Some(4)), Err(EscrowError::EscrowNotFound));
        let raised = state.raise_dispute(&who(BUYER), 0, Some(4));
        if status == EscrowStatus::Active || status == EscrowStatus::DeliveryConfirmed {
            assert_eq!(raised, Ok(4));
            assert_eq!(status_of(&state), EscrowStatus::Disputed);
            assert_eq!(state.get_escrow(0).unwrap().dispute_id, Some(4));
        } else {
            assert_eq!(raised, Err(EscrowError::InvalidStatus));
            assert_eq!(status_of(&state), status);
        }
    }
}

#[test]
fn raise_dispute_without_a_case_is_refused() {
    let mut state = in_status(EscrowStatus::Active, 0, 100);
    assert_eq!(state.raise_dispute(&who(SELLER), 0, None), Err(EscrowError::InvokeContractError));
    assert_eq!(status_of(&state), EscrowStatus::Active);
    assert_eq!(state.get_escrow(0).unwrap().dispute_id, None);
}

#[test]
fn dispute_request_checks_what_raise_dispute_checks() {
    let state = in_status(EscrowStatus::Active, 0, 100);
    assert_eq!(state.dispute_request(&who(BUYER), 0).unwrap().amount, 100);
    assert_eq!(state.dispute_request(&who(ADMIN), 0), Err(EscrowError::Unauthorized));
    assert_eq!(state.dispute_request(&who(BUYER), 1), Err(EscrowError::EscrowNotFound));
    let state = in_status(EscrowStatus::Created, 0, 100);
    assert_eq!(state.dispute_request(&who(BUYER), 0), Err(EscrowError::InvalidStatus));
}

#[test]
fn resolve_in_favor_of_buyer_refunds_everything() {
    let mut state = in_status(EscrowStatus::Disputed, 200, 1_000_000);
    let paid = state.resolve_dispute(&who(ADMIN), 0, DisputeResolution::FavorBuyer, true).unwrap();
    assert_eq!(
        paid,
        Payout {
            escrow_id: 0,
            seller: acct(SELLER),
            seller_amount: 0,
            buyer: acct(BUYER),
            buyer_amount: 1_000_000,
            platform_fee: 0,
        }
    );
    assert_eq!(status_of(&state), EscrowStatus::Refunded);
}

#[test]
fn resolve_in_favor_of_seller_deducts_the_fee() {
    let mut state = in_status(EscrowStatus::Disputed, 200, 1_000_000);
    let paid = state.resolve_dispute(&who(ADMIN), 0, DisputeResolution::FavorSeller, true).unwrap();
    assert_eq!((paid.seller_amount, paid.buyer_amount, paid.platform_fee), (980_000, 0, 20_000));
    assert_eq!(status_of(&state), EscrowStatus::Completed);
}

#[test]
fn resolve_by_split_charges_no_fee() {
    let mut state = in_status(EscrowStatus::Disputed, 200, 1_000_001);
    let split = DisputeResolution::Split { seller_percentage: 30 };
    let paid = state.resolve_dispute(&who(ADMIN), 0, split, true).unwrap();
    assert_eq!((paid.seller_amount, paid.buyer_amount, paid.platform_fee), (300_000, 700_001, 0));
    assert_eq!(status_of(&state), EscrowStatus::Completed);
}

#[test]
fn split_extremes_pay_one_side() {
    let mut state = in_status(EscrowStatus::Disputed, 200, 77);
    let all = DisputeResolution::Split { seller_percentage: 100 };
    let paid = state.resolve_dispute(&who(ADMIN), 0, all, true).unwrap();
    assert_eq!((paid.seller_amount, paid.buyer_amount), (77, 0));
    let mut state = in_status(EscrowStatus::Disputed, 200, 77);
    let none = DisputeResolution::Split { seller_percentage: 0 };
    let paid = state.resolve_dispute(&who(ADMIN), 0, none, true).unwrap();
    assert_eq!((paid.seller_amount, paid.buyer_amount), (0, 77));
}

#[test]
fn split_above_one_hundred_is_no_resolution() {
    let mut state = in_status(EscrowStatus::Disputed, 200, 1_000);
    let split = DisputeResolution::Split { seller_percentage: 101 };
    assert_eq!(
        state.resolve_dispute(&who(ADMIN), 0, split, true),
        Err(EscrowError::InvalidDisputeResolution)
    );
    assert_eq!(status_of(&state), EscrowStatus::Disputed);
}

#[test]
fn resolve_is_for_the_dispute_contract_or_admin() {
    let mut state = in_status(EscrowStatus::Disputed, 0, 1_000);
    let resolution = DisputeResolution::FavorBuyer;
    let contract = Address::Contract(peer());
    assert_eq!(state.resolve_dispute(&contract, 0, resolution, true), Err(EscrowError::Unauthorized));
    assert_eq!(state.resolve_dispute(&who(BUYER), 0, resolution, true), Err(EscrowError::Unauthorized));
    assert_eq!(state.set_dispute_contract(&who(ADMIN), peer()), Ok(()));
    let other = Address::Contract(ContractAddress { index: 7, subindex: 1 });
    assert_eq!(state.resolve_dispute(&other, 0, resolution, true), Err(EscrowError::Unauthorized));
    assert_eq!(state.resolve_dispute(&contract, 2, resolution, true), Err(EscrowError::EscrowNotFound));
    assert!(state.resolve_dispute(&contract, 0, resolution, true).is_ok());
}

#[test]
fn resolve_needs_a_disputed_escrow() {
    for status in ALL {
        let mut state = in_status(status, 0, 100);
        let resolved = state.resolve_dispute(&who(ADMIN), 0, DisputeResolution::FavorSeller, true);
        if status == EscrowStatus::Disputed {
            assert!(resolved.is_ok());
        } else {
            assert_eq!(resolved, Err(EscrowError::InvalidStatus));
            assert_eq!(status_of(&state), status);
        }
    }
}

#[test]
fn failed_transfer_leaves_the_dispute_open() {
    let mut state = in_status(EscrowStatus::Disputed, 0, 100);
    let split = DisputeResolution::Split { seller_percentage: 50 };
    assert_eq!(state.resolve_dispute(&who(ADMIN), 0, split, false), Err(EscrowError::TransferError));
    assert_eq!(status_of(&state), EscrowStatus::Disputed);
}

#[test]
fn cancel_refunds_the_buyer() {
    for status in ALL {
        let mut state = in_status(status, 200, 900);
        assert_eq!(state.cancel(&who(BUYER), 0, true), Err(EscrowError::Unauthorized));
        assert_eq!(state.cancel(&who(BUYER), 5, true), Err(EscrowError::Unauthorized));
        assert_eq!(state.cancel(&who(ADMIN), 5, true), Err(EscrowError::EscrowNotFound));
        let paid = state.cancel(&who(ADMIN), 0, true);
        if status == EscrowStatus::Created || status == EscrowStatus::Active {
            let paid = paid.unwrap();
            assert_eq!((paid.seller_amount, paid.buyer_amount, paid.platform_fee), (0, 900, 0));
            assert_eq!(paid.buyer, acct(BUYER));
            assert_eq!(status_of(&state), EscrowStatus::Cancelled);
        } else {
            assert_eq!(paid, Err(EscrowError::InvalidStatus));
            assert_eq!(status_of(&state), status);
        }
    }
}

#[test]
fn cancel_without_refund_is_refused() {
    let mut state = in_status(EscrowStatus::Active, 0, 900);
    assert_eq!(state.cancel(&who(ADMIN), 0, false), Err(EscrowError::TransferError));
    assert_eq!(status_of(&state), EscrowStatus::Active);
}

#[test]
fn platform_fee_is_capped_at_ten_percent() {
    let mut state = ledger(50);
    assert_eq!(state.update_platform_fee(&who(BUYER), 10), Err(EscrowError::Unauthorized));
    assert_eq!(state.update_platform_fee(&who(ADMIN), 1_001), Err(EscrowError::InvalidDisputeResolution));
    assert_eq!(state.get_platform_fee(), 50);
    assert_eq!(state.update_platform_fee(&who(ADMIN), 1_000), Ok(()));
    assert_eq!(state.get_platform_fee(), 1_000);
    assert_eq!(state.update_platform_fee(&who(ADMIN), 0), Ok(()));
    assert_eq!(state.get_platform_fee(), 0);
}

#[test]
fn dispute_contract_is_set_by_the_admin() {
    let mut state = ledger(50);
    assert_eq!(state.set_dispute_contract(&who(SELLER), peer()), Err(EscrowError::Unauthorized));
    assert_eq!(state.dispute_contract, None);
    assert_eq!(state.set_dispute_contract(&who(ADMIN), peer()), Ok(()));
    assert_eq!(state.dispute_contract, Some(peer()));
}

#[test]
fn compute_payout_conserves_the_amount() {
    let escrow = in_status(EscrowStatus::Disputed, 0, 999_983).get_escrow(0).unwrap().clone();
    for percentage in 0..=100u8 {
        let split = DisputeResolution::Split { seller_percentage: percentage };
        let paid = compute_payout(0, &escrow, 777, split).unwrap();
        assert_eq!(paid.seller_amount + paid.buyer_amount + paid.platform_fee, 999_983);
        assert_eq!(paid.seller_amount, 999_983 * u64::from(percentage) / 100);
    }
    for fee in [0u32, 1, 200, 777, 1_000, 9_999, 10_000] {
        let paid = compute_payout(0, &escrow, fee, DisputeResolution::FavorSeller).unwrap();
        assert_eq!(paid.seller_amount + paid.buyer_amount + paid.platform_fee, 999_983);
        assert_eq!(paid.platform_fee, 999_983 * u64::from(fee) / 10_000);
    }
    assert_eq!(
        compute_payout(0, &escrow, u32::MAX, DisputeResolution::FavorSeller),
        Err(EscrowError::TransferError)
    );
}

#[test]
fn update_reports_each_change() {
    let mut state = ledger(200);
    let create = UpdateParams::CreateEscrow {
        seller: acct(SELLER),
        description: String::from("bike"),
        refund_deadline_hours: None,
        requires_identity_verification: true,
    };
    let receipt = update(&mut state, &ctx(BUYER, 1_000_000, 1), create, &ok_replies()).unwrap();
    assert_eq!(
        receipt,
        Receipt {
            events: vec![EscrowEvent::EscrowCreated {
                escrow_id: 0,
                buyer: acct(BUYER),
                seller: acct(SELLER),
                amount: 1_000_000,
            }],
            payout: None,
        }
    );
    let confirm = |state: &mut EscrowState, tag: u8| {
        update(state, &ctx(tag, 0, 2), UpdateParams::ConfirmIdentity { escrow_id: 0 }, &ok_replies())
            .unwrap()
    };
    assert_eq!(confirm(&mut state, BUYER), Receipt { events: vec![], payout: None });
    assert_eq!(
        confirm(&mut state, SELLER).events,
        vec![EscrowEvent::EscrowActivated { escrow_id: 0 }]
    );
    let delivered = update(
        &mut state,
        &ctx(SELLER, 0, 3),
        UpdateParams::ConfirmDelivery { escrow_id: 0 },
        &ok_replies(),
    )
    .unwrap();
    assert_eq!(delivered.events, vec![EscrowEvent::DeliveryConfirmed { escrow_id: 0 }]);
    let planned = state
        .planned_payout(&ctx(BUYER, 0, 4), &UpdateParams::CompleteTransaction { escrow_id: 0 })
        .unwrap();
    let completed = update(
        &mut state,
        &ctx(BUYER, 0, 4),
        UpdateParams::CompleteTransaction { escrow_id: 0 },
        &ok_replies(),
    )
    .unwrap();
    assert_eq!(
        completed.events,
        vec![EscrowEvent::TransactionCompleted {
            escrow_id: 0,
            seller_amount: 980_000,
            platform_fee: 20_000,
        }]
    );
    assert_eq!(completed.payout, Some(planned));
}

#[test]
fn update_activate_and_admin_operations() {
    let mut state = with_escrow(0, 10, false);
    let activated =
        update(&mut state, &ctx(ADMIN, 0, 1), UpdateParams::ActivateEscrow { escrow_id: 0 }, &ok_replies());
    assert_eq!(activated.unwrap().events, vec![EscrowEvent::EscrowActivated { escrow_id: 0 }]);
    let fee = update(&mut state, &ctx(ADMIN, 0, 1), UpdateParams::UpdatePlatformFee { new_fee: 9 }, &ok_replies());
    assert_eq!(fee, Ok(Receipt { events: vec![], payout: None }));
    assert_eq!(state.get_platform_fee(), 9);
    let set = update(
        &mut state,
        &ctx(ADMIN, 0, 1),
        UpdateParams::SetDisputeContract { contract_address: peer() },
        &ok_replies(),
    );
    assert_eq!(set, Ok(Receipt { events: vec![], payout: None }));
    let cancelled =
        update(&mut state, &ctx(ADMIN, 0, 1), UpdateParams::CancelEscrow { escrow_id: 0 }, &ok_replies())
            .unwrap();
    assert_eq!(cancelled.events, vec![EscrowEvent::EscrowRefunded { escrow_id: 0, refund_amount: 10 }]);
    assert_eq!(cancelled.payout.unwrap().buyer_amount, 10);
    let refused = update(
        &mut state,
        &ctx(BUYER, 0, 1),
        UpdateParams::UpdatePlatformFee { new_fee: 9 },
        &ok_replies(),
    );
    assert_eq!(refused, Err(EscrowError::Unauthorized));
}

#[test]
fn update_dispute_path_reports_refund_and_resolution() {
    let mut state = in_status(EscrowStatus::Active, 200, 1_000);
    let raise = UpdateParams::RaiseDispute { escrow_id: 0, reason: String::from("broken") };
    let raised = update(&mut state, &ctx(BUYER, 0, 9), raise, &ok_replies()).unwrap();
    assert_eq!(raised.events, vec![EscrowEvent::DisputeRaised { escrow_id: 0, dispute_id: 11 }]);
    let resolution = DisputeResolution::FavorBuyer;
    let resolve = UpdateParams::ResolveDispute { escrow_id: 0, resolution };
    let resolved = update(&mut state, &ctx(ADMIN, 0, 9), resolve, &ok_replies()).unwrap();
    assert_eq!(
        resolved.events,
        vec![
            EscrowEvent::EscrowRefunded { escrow_id: 0, refund_amount: 1_000 },
            EscrowEvent::DisputeResolved { escrow_id: 0, resolution },
        ]
    );
    assert_eq!(resolved.payout.unwrap().buyer_amount, 1_000);
}

#[test]
fn update_resolution_events_for_seller_and_split() {
    let mut state = in_status(EscrowStatus::Disputed, 200, 1_000);
    let resolution = DisputeResolution::FavorSeller;
    let resolve = UpdateParams::ResolveDispute { escrow_id: 0, resolution };
    let resolved = update(&mut state, &ctx(ADMIN, 0, 9), resolve, &ok_replies()).unwrap();
    assert_eq!(
        resolved.events,
        vec![
            EscrowEvent::TransactionCompleted { escrow_id: 0, seller_amount: 980, platform_fee: 20 },
            EscrowEvent::DisputeResolved { escrow_id: 0, resolution },
        ]
    );
    let mut state = in_status(EscrowStatus::Disputed, 200, 1_000);
    let resolution = DisputeResolution::Split { seller_percentage: 25 };
    let resolve = UpdateParams::ResolveDispute { escrow_id: 0, resolution };
    let resolved = update(&mut state, &ctx(ADMIN, 0, 9), resolve, &ok_replies()).unwrap();
    assert_eq!(resolved.events, vec![EscrowEvent::DisputeResolved { escrow_id: 0, resolution }]);
    assert_eq!(resolved.payout.unwrap().seller_amount, 250);
}

#[test]
fn update_refuses_without_host_support() {
    let mut state = in_status(EscrowStatus::Active, 200, 1_000);
    let failing = HostReplies { transfers_ok: false, opened_dispute: None };
    let raise = UpdateParams::RaiseDispute { escrow_id: 0, reason: String::new() };
    assert_eq!(update(&mut state, &ctx(BUYER, 0, 9), raise, &failing), Err(EscrowError::InvokeContractError));
    let cancel = UpdateParams::CancelEscrow { escrow_id: 0 };
    assert_eq!(update(&mut state, &ctx(ADMIN, 0, 9), cancel, &failing), Err(EscrowError::TransferError));
    assert_eq!(status_of(&state), EscrowStatus::Active);
}

#[test]
fn planned_payout_is_none_for_what_pays_nothing() {
    let state = in_status(EscrowStatus::Active, 200, 1_000);
    let buyer = ctx(BUYER, 0, 0);
    let admin = ctx(ADMIN, 0, 0);
    assert_eq!(state.planned_payout(&buyer, &UpdateParams::CompleteTransaction { escrow_id: 0 }), None);
    assert_eq!(state.planned_payout(&buyer, &UpdateParams::CancelEscrow { escrow_id: 0 }), None);
    assert_eq!(state.planned_payout(&admin, &UpdateParams::CancelEscrow { escrow_id: 1 }), None);
    assert_eq!(state.planned_payout(&admin, &UpdateParams::ActivateEscrow { escrow_id: 0 }), None);
    let cancel = state.planned_payout(&admin, &UpdateParams::CancelEscrow { escrow_id: 0 }).unwrap();
    assert_eq!(cancel.buyer_amount, 1_000);
    let state = in_status(EscrowStatus::Disputed, 200, 1_000);
    let split = DisputeResolution::Split { seller_percentage: 101 };
    let resolve = UpdateParams::ResolveDispute { escrow_id: 0, resolution: split };
    assert_eq!(state.planned_payout(&admin, &resolve), None);
    let resolve = UpdateParams::ResolveDispute { escrow_id: 0, resolution: DisputeResolution::FavorSeller };
    assert_eq!(state.planned_payout(&admin, &resolve).unwrap().seller_amount, 980);
    assert_eq!(state.planned_payout(&buyer, &resolve), None);
}

#[test]
fn funds_leave_an_escrow_exactly_once() {
    let mut state = ledger(200);
    let mut released = [0u64; 3];
    let amounts = [500u64, 1_000, 70];
    for amount in amounts {
        state.create(&ctx(BUYER, amount, 0), acct(SELLER), String::new(), None, false).unwrap();
    }
    let calls = [
        (ADMIN, UpdateParams::CancelEscrow { escrow_id: 0 }),
        (ADMIN, UpdateParams::CancelEscrow { escrow_id: 0 }),
        (BUYER, UpdateParams::ActivateEscrow { escrow_id: 1 }),
        (BUYER, UpdateParams::ActivateEscrow { escrow_id: 0 }),
        (SELLER, UpdateParams::ConfirmDelivery { escrow_id: 1 }),
        (BUYER, UpdateParams::CompleteTransaction { escrow_id: 1 }),
        (BUYER, UpdateParams::CompleteTransaction { escrow_id: 1 }),
        (ADMIN, UpdateParams::CancelEscrow { escrow_id: 1 }),
        (BUYER, UpdateParams::ActivateEscrow { escrow_id: 2 }),
        (SELLER, UpdateParams::RaiseDispute { escrow_id: 2, reason: String::new() }),
        (
            ADMIN,
            UpdateParams::ResolveDispute {
                escrow_id: 2,
                resolution: DisputeResolution::Split { seller_percentage: 33 },
            },
        ),
        (
            ADMIN,
            UpdateParams::ResolveDispute { escrow_id: 2, resolution: DisputeResolution::FavorBuyer },
        ),
        (BUYER, UpdateParams::CompleteTransaction { escrow_id: 2 }),
    ];
    for (tag, params) in calls {
        if let Ok(receipt) = update(&mut state, &ctx(tag, 0, 1), params, &ok_replies()) {
            if let Some(paid) = receipt.payout {
                released[paid.escrow_id as usize] +=
                    paid.seller_amount + paid.buyer_amount + paid.platform_fee;
            }
        }
    }
    assert_eq!(released, amounts);
    assert_eq!(state.get_escrow(0).unwrap().status, EscrowStatus::Cancelled);
    assert_eq!(state.get_escrow(1).unwrap().status, EscrowStatus::Completed);
    assert_eq!(state.get_escrow(2).unwrap().status, EscrowStatus::Completed);
}

#[test]
fn host_is_asked_for_the_transfers_of_a_payout() {
    let state = in_status(EscrowStatus::Disputed, 200, 1_000);
    let split = DisputeResolution::Split { seller_percentage: 40 };
    let resolve = UpdateParams::ResolveDispute { escrow_id: 0, resolution: split };
    assert_eq!(
        state.host_requests(&ctx(ADMIN, 0, 0), &resolve),
        HostRequests {
            transfers: vec![
                Transfer { to: acct(SELLER), amount: 400 },
                Transfer { to: acct(BUYER), amount: 600 },
            ],
            open_case: None,
        }
    );
    let nothing = HostRequests { transfers: vec![], open_case: None };
    assert_eq!(state.host_requests(&ctx(BUYER, 0, 0), &resolve), nothing);
    let complete = UpdateParams::CompleteTransaction { escrow_id: 0 };
    assert_eq!(state.host_requests(&ctx(BUYER, 0, 0), &complete), nothing);
    let state = in_status(EscrowStatus::DeliveryConfirmed, 200, 1_000);
    assert_eq!(
        state.host_requests(&ctx(BUYER, 0, 0), &complete).transfers,
        vec![Transfer { to: acct(SELLER), amount: 980 }]
    );
}

#[test]
fn host_is_asked_to_open_a_case() {
    let mut state = in_status(EscrowStatus::Active, 200, 1_000);
    let raise = UpdateParams::RaiseDispute { escrow_id: 0, reason: String::from("late") };
    let nothing = HostRequests { transfers: vec![], open_case: None };
    assert_eq!(state.host_requests(&ctx(SELLER, 0, 0), &raise), nothing);
    state.set_dispute_contract(&who(ADMIN), peer()).unwrap();
    assert_eq!(
        state.host_requests(&ctx(SELLER, 0, 0), &raise),
        HostRequests {
            transfers: vec![],
            open_case: Some(CaseRequest {
                dispute_contract: peer(),
                escrow_id: 0,
                buyer: acct(BUYER),
                seller: acct(SELLER),
                amount: 1_000,
            }),
        }
    );
    assert_eq!(state.host_requests(&ctx(STRANGER, 0, 0), &raise), nothing);
    let missing = UpdateParams::RaiseDispute { escrow_id: 3, reason: String::new() };
    assert_eq!(state.host_requests(&ctx(SELLER, 0, 0), &missing), nothing);
    state.raise_dispute(&who(SELLER), 0, Some(1)).unwrap();
    assert_eq!(state.host_requests(&ctx(SELLER, 0, 0), &raise), nothing);
}
