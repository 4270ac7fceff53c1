//! The reputation ledger: one token per account, which cannot be transferred,
//! and the score it carries.
//!
//! A token is made for an account when the ledger first hears of it, with the
//! base score. Completed transactions and won disputes raise the score, lost
//! disputes lower it, and the score of an account that has been inactive for
//! more than 90 days can be decayed. Scores and counters stop at the largest
//! and the smallest value they can hold.

use vstd::prelude::*;
use crate::auth::{is_account, is_account_spec, is_admin_or_peer, is_admin_or_peer_spec};
use crate::time::{is_past, is_past_spec};
use crate::types::{AccountAddress, Address, CallContext, ContractAddress};

verus! {

/// Token identifier: the place of the token in the ledger.
pub type TokenId = u32;

/// Micro-CCD in one CCD.
pub const MICRO_CCD_PER_CCD: u64 = 1_000_000;

/// Days without activity after which a score can be decayed.
pub const DECAY_AFTER_DAYS: u64 = 90;

/// Account verification levels.
#[derive(Clone, Copy, Debug, PartialEq, Eq, Structural)]
pub enum VerificationLevel {
    /// Unverified account.
    Unverified,
    /// Basic identity verification.
    Basic,
    /// Full identity verification with KYC.
    Full,
    /// Professional or business verification.
    Professional,
}

/// Reputation data for each token.
#[derive(Clone, Copy, Debug, PartialEq, Eq)]
pub struct ReputationData {
    /// Account that owns this reputation token.
    pub owner: AccountAddress,
    /// Current reputation score.
    pub score: u64,
    /// Number of successful transactions as buyer.
    pub buyer_transactions: u64,
    /// Number of successful transactions as seller.
    pub seller_transactions: u64,
    /// Number of disputes lost.
    pub disputes_lost: u64,
    /// Number of disputes won.
    pub disputes_won: u64,
    /// Time of last activity, in milliseconds.
    pub last_activity: u64,
    /// Total value of transactions, in micro-CCD.
    pub total_transaction_value: u64,
    /// Account verification level.
    pub verification_level: VerificationLevel,
}

/// Contract state.
pub struct ReputationState {
    /// The tokens, each at the place that is its id.
    pub tokens: Vec<ReputationData>,
    /// Admin account.
    pub admin: AccountAddress,
    /// Escrow contract address, which may update reputation.
    pub escrow_contract: Option<ContractAddress>,
    /// Base reputation score for new accounts.
    pub base_reputation: u64,
}

/// Contract initialization parameters.
#[derive(Clone, Copy, Debug)]
pub struct InitParams {
    pub admin: AccountAddress,
    pub base_reputation: u64,
}

/// The errors of the token standard that the ledger follows.
#[derive(Clone, Copy, Debug, PartialEq, Eq, Structural)]
pub enum Cis2Error {
    /// Invalid token id.
    InvalidTokenId,
    /// The balance of the token owner is insufficient for the transfer.
    InsufficientFunds,
    /// Sender is unauthorized to call this function.
    Unauthorized,
    /// Custom error, about the token of this id.
    Custom(TokenId),
}

/// Why a reputation operation was refused.
#[derive(Clone, Copy, Debug, PartialEq, Eq, Structural)]
pub enum ReputationError {
    /// An error of the token standard.
    Cis2Error(Cis2Error),
    /// The caller may not perform this action.
    Unauthorized,
    /// Token not found.
    TokenNotFound,
    /// Account not found.
    AccountNotFound,
    /// Reputation tokens cannot be transferred.
    TransferProhibited,
    /// Parse error.
    ParseError,
    /// Invalid verification level.
    InvalidVerificationLevel,
    /// The ledger has handed out every token id.
    CapacityExceeded,
}

impl From<Cis2Error> for ReputationError {
    fn from(e: Cis2Error) -> (error: Self) {
        ReputationError::Cis2Error(e)
    }
}

impl vstd::std_specs::convert::FromSpecImpl<Cis2Error> for ReputationError {
    open spec fn obeys_from_spec() -> bool {
        true
    }

    open spec fn from_spec(e: Cis2Error) -> ReputationError {
        ReputationError::Cis2Error(e)
    }
}

/// Why a score changed.
#[derive(Clone, Copy, Debug, PartialEq, Eq, Structural)]
pub enum UpdateReason {
    Transaction,
    DisputeWon,
    DisputeLost,
    Verification,
    Decay,
}

/// What the ledger reports of a change.
#[derive(Clone, Copy, Debug, PartialEq, Eq)]
pub enum ReputationEvent {
    /// Reputation token created.
    TokenCreated { token_id: TokenId, owner: AccountAddress, initial_score: u64 },
    /// Reputation updated.
    ReputationUpdated { account: AccountAddress, old_score: u64, new_score: u64, reason: UpdateReason },
    /// Verification level changed.
    VerificationChanged {
        account: AccountAddress,
        old_level: VerificationLevel,
        new_level: VerificationLevel,
    },
}

/// The operations of the ledger beyond those of the token standard.
#[derive(Clone, Copy, Debug)]
pub enum ReputationUpdateParams {
    /// Update reputation after successful transaction.
    UpdateFromTransaction { account: AccountAddress, transaction_value: u64, is_buyer: bool },
    /// Update reputation after dispute resolution.
    UpdateFromDispute { winner: AccountAddress, loser: AccountAddress, dispute_value: u64 },
    /// Set account verification level.
    SetVerificationLevel { account: AccountAddress, level: VerificationLevel },
    /// Set escrow contract address, as the admin.
    SetEscrowContract { contract_address: ContractAddress },
    /// Decay reputation for inactive accounts.
    DecayInactiveReputation,
}

/// A query for the balance of an address in a token.
#[derive(Clone, Copy, Debug)]
pub struct BalanceOfQuery {
    /// The token whose balance is asked for.
    pub token_id: TokenId,
    /// The address whose balance is asked for.
    pub address: Address,
}

/// Whether the ledger supports a standard.
#[derive(Clone, Copy, Debug, PartialEq, Eq, Structural)]
pub enum SupportResult {
    /// The standard is not supported.
    NoSupport,
    /// The standard is supported.
    Support,
}

/// Whether the token at `id` belongs to the account.
pub open spec fn owns(tokens: Seq<ReputationData>, account: AccountAddress, id: int) -> bool {
    0 <= id < tokens.len() && tokens[id].owner == account
}

/// The token of an account, if it has one.
pub open spec fn token_of(tokens: Seq<ReputationData>, account: AccountAddress) -> Option<TokenId> {
    if exists|id: int| owns(tokens, account, id) {
        Some((choose|id: int| owns(tokens, account, id)) as TokenId)
    } else {
        None
    }
}

/// The token that is made for an account.
pub open spec fn new_token(owner: AccountAddress, base_reputation: u64) -> ReputationData {
    ReputationData {
        owner,
        score: base_reputation,
        buyer_transactions: 0,
        seller_transactions: 0,
        disputes_lost: 0,
        disputes_won: 0,
        last_activity: 0,
        total_transaction_value: 0,
        verification_level: VerificationLevel::Unverified,
    }
}

/// The points that a value earns: one for each whole CCD, up to `cap`.
pub open spec fn value_bonus(value: u64, cap: u64) -> u64 {
    if value / MICRO_CCD_PER_CCD < cap {
        value / MICRO_CCD_PER_CCD
    } else {
        cap
    }
}

/// The factor by which verification multiplies what a transaction earns.
pub open spec fn verification_multiplier(level: VerificationLevel) -> u64 {
    match level {
        VerificationLevel::Unverified => 1,
        VerificationLevel::Basic => 2,
        VerificationLevel::Full => 3,
        VerificationLevel::Professional => 4,
    }
}

/// The points that reaching a verification level earns.
pub open spec fn verification_bonus(level: VerificationLevel) -> u64 {
    match level {
        VerificationLevel::Unverified => 0,
        VerificationLevel::Basic => 50,
        VerificationLevel::Full => 150,
        VerificationLevel::Professional => 300,
    }
}

/// The points that a completed transaction earns: 10 for a buyer and 15 for a
/// seller, and one for each whole CCD of its value up to 50, times the factor
/// of the account's verification level.
pub open spec fn transaction_increase(value: u64, is_buyer: bool, level: VerificationLevel) -> u64 {
    (((if is_buyer {
        10u64
    } else {
        15u64
    }) + value_bonus(value, 50)) * verification_multiplier(level)) as u64
}

/// A token after a completed transaction of its owner.
pub open spec fn after_transaction(
    data: ReputationData,
    now: u64,
    value: u64,
    is_buyer: bool,
) -> ReputationData {
    ReputationData {
        buyer_transactions: if is_buyer {
            data.buyer_transactions.saturating_add(1)
        } else {
            data.buyer_transactions
        },
        seller_transactions: if is_buyer {
            data.seller_transactions
        } else {
            data.seller_transactions.saturating_add(1)
        },
        total_transaction_value: data.total_transaction_value.saturating_add(value),
        last_activity: now,
        score: data.score.saturating_add(
            transaction_increase(value, is_buyer, data.verification_level),
        ),
        ..data
    }
}

/// A token after its owner won a dispute: 20 points and one for each whole
/// CCD of the disputed value up to 30.
pub open spec fn after_dispute_won(data: ReputationData, now: u64, value: u64) -> ReputationData {
    ReputationData {
        disputes_won: data.disputes_won.saturating_add(1),
        last_activity: now,
        score: data.score.saturating_add((20 + value_bonus(value, 30)) as u64),
        ..data
    }
}

/// A token after its owner lost a dispute: 30 points and one for each whole
/// CCD of the disputed value up to 50 are taken off.
pub open spec fn after_dispute_lost(data: ReputationData, now: u64, value: u64) -> ReputationData {
    ReputationData {
        disputes_lost: data.disputes_lost.saturating_add(1),
        last_activity: now,
        score: data.score.saturating_sub((30 + value_bonus(value, 50)) as u64),
        ..data
    }
}

/// A token after its owner reached a verification level.
pub open spec fn after_verification(
    data: ReputationData,
    level: VerificationLevel,
) -> ReputationData {
    ReputationData {
        verification_level: level,
        score: data.score.saturating_add(verification_bonus(level)),
        ..data
    }
}

/// Whether the owner of a token has been inactive for more than 90 days.
pub open spec fn is_inactive(data: ReputationData, now: u64) -> bool {
    is_past_spec(now, data.last_activity, DECAY_AFTER_DAYS)
}

/// A token after a round of decay: an inactive owner loses a twentieth of the
/// score, rounded down.
pub open spec fn after_decay(data: ReputationData, now: u64) -> ReputationData {
    if is_inactive(data, now) {
        ReputationData { score: (data.score - data.score / 20) as u64, ..data }
    } else {
        data
    }
}

/// The events of a round of decay, in the order of the tokens: one for each
/// token that lost points.
pub open spec fn decay_events(tokens: Seq<ReputationData>, now: u64) -> Seq<ReputationEvent>
    decreases tokens.len(),
{
    if tokens.len() == 0 {
        Seq::empty()
    } else {
        let data = tokens.last();
        let earlier = decay_events(tokens.drop_last(), now);
        if is_inactive(data, now) && data.score / 20 > 0 {
            earlier.push(
                ReputationEvent::ReputationUpdated {
                    account: data.owner,
                    old_score: data.score,
                    new_score: after_decay(data, now).score,
                    reason: UpdateReason::Decay,
                },
            )
        } else {
            earlier
        }
    }
}

/// The event that reports a changed score.
pub open spec fn score_event(
    before: ReputationData,
    after: ReputationData,
    reason: UpdateReason,
) -> ReputationEvent {
    ReputationEvent::ReputationUpdated {
        account: before.owner,
        old_score: before.score,
        new_score: after.score,
        reason,
    }
}

/// The event that reports a token made for an account, where one was made.
pub open spec fn creation_events(
    token_id: TokenId,
    owner: AccountAddress,
    base_reputation: u64,
    created: bool,
) -> Seq<ReputationEvent> {
    if created {
        seq![ReputationEvent::TokenCreated { token_id, owner, initial_score: base_reputation }]
    } else {
        Seq::empty()
    }
}

/// The answer to a support query: the ledger supports the token standard
/// `CIS-2` and no other.
pub open spec fn support_of(identifier: Seq<char>) -> SupportResult {
    if identifier == "CIS-2"@ {
        SupportResult::Support
    } else {
        SupportResult::NoSupport
    }
}

/// The ledger as a mathematical value.
pub struct ReputationLedger {
    pub tokens: Seq<ReputationData>,
    pub admin: AccountAddress,
    pub escrow_contract: Option<ContractAddress>,
    pub base_reputation: u64,
}

impl View for ReputationState {
    type V = ReputationLedger;

    open spec fn view(&self) -> ReputationLedger {
        ReputationLedger {
            tokens: self.tokens@,
            admin: self.admin,
            escrow_contract: self.escrow_contract,
            base_reputation: self.base_reputation,
        }
    }
}

impl ReputationLedger {
    /// No account owns two tokens, and every token id fits its type.
    pub open spec fn wf(self) -> bool {
        &&& self.tokens.len() <= u32::MAX
        &&& forall|i: int, j: int|
            0 <= i < j < self.tokens.len() ==> (#[trigger] self.tokens[i]).owner != (
            #[trigger] self.tokens[j]).owner
    }

    /// A new ledger without tokens.
    pub open spec fn init(params: InitParams) -> ReputationLedger {
        ReputationLedger {
            tokens: Seq::empty(),
            admin: params.admin,
            escrow_contract: None,
            base_reputation: params.base_reputation,
        }
    }

    /// The ledger with one token replaced.
    pub open spec fn with_token(self, id: TokenId, data: ReputationData) -> ReputationLedger {
        ReputationLedger { tokens: self.tokens.update(id as int, data), ..self }
    }

    /// The token of an account, made with the base score if the account has
    /// none, and whether it was made. Refused with `CapacityExceeded` when a
    /// token is to be made and no id is left.
    pub open spec fn get_or_create(
        self,
        account: AccountAddress,
    ) -> (ReputationLedger, Result<(TokenId, bool), ReputationError>) {
        match token_of(self.tokens, account) {
            Some(id) => (self, Ok((id, false))),
            None => if self.tokens.len() >= u32::MAX {
                (self, Err(ReputationError::CapacityExceeded))
            } else {
                (
                    ReputationLedger {
                        tokens: self.tokens.push(new_token(account, self.base_reputation)),
                        ..self
                    },
                    Ok((self.tokens.len() as TokenId, true)),
                )
            },
        }
    }

    /// Credits a completed transaction to an account, for the registered
    /// escrow contract or the admin.
    pub open spec fn update_from_transaction(
        self,
        ctx: CallContext,
        account: AccountAddress,
        transaction_value: u64,
        is_buyer: bool,
    ) -> (ReputationLedger, Result<Seq<ReputationEvent>, ReputationError>) {
        if !is_admin_or_peer_spec(ctx.sender, self.escrow_contract, self.admin) {
            (self, Err(ReputationError::Unauthorized))
        } else {
            match self.get_or_create(account) {
                (_, Err(error)) => (self, Err(error)),
                (found, Ok((id, created))) => {
                    let before = found.tokens[id as int];
                    let after = after_transaction(before, ctx.slot_time, transaction_value, is_buyer);
                    (
                        found.with_token(id, after),
                        Ok(
                            creation_events(id, account, self.base_reputation, created).push(
                                score_event(before, after, UpdateReason::Transaction),
                            ),
                        ),
                    )
                },
            }
        }
    }

    /// Credits a resolved dispute to its winner and debits it from its loser,
    /// for the registered escrow contract or the admin.
    pub open spec fn update_from_dispute(
        self,
        ctx: CallContext,
        winner: AccountAddress,
        loser: AccountAddress,
        dispute_value: u64,
    ) -> (ReputationLedger, Result<Seq<ReputationEvent>, ReputationError>) {
        if !is_admin_or_peer_spec(ctx.sender, self.escrow_contract, self.admin) {
            (self, Err(ReputationError::Unauthorized))
        } else {
            match self.get_or_create(winner) {
                (_, Err(error)) => (self, Err(error)),
                (found, Ok((won_id, won_created))) => {
                    let won_before = found.tokens[won_id as int];
                    let won_after = after_dispute_won(won_before, ctx.slot_time, dispute_value);
                    let credited = found.with_token(won_id, won_after);
                    match credited.get_or_create(loser) {
                        (_, Err(error)) => (self, Err(error)),
                        (found_both, Ok((lost_id, lost_created))) => {
                            let lost_before = found_both.tokens[lost_id as int];
                            let lost_after = after_dispute_lost(
                                lost_before,
                                ctx.slot_time,
                                dispute_value,
                            );
                            (
                                found_both.with_token(lost_id, lost_after),
                                Ok(
                                    creation_events(
                                        won_id,
                                        winner,
                                        self.base_reputation,
                                        won_created,
                                    ).push(
                                        score_event(won_before, won_after, UpdateReason::DisputeWon),
                                    ) + creation_events(
                                        lost_id,
                                        loser,
                                        self.base_reputation,
                                        lost_created,
                                    ).push(
                                        score_event(
                                            lost_before,
                                            lost_after,
                                            UpdateReason::DisputeLost,
                                        ),
                                    ),
                                ),
                            )
                        },
                    }
                },
            }
        }
    }

    /// Sets the verification level of an account, for the admin, and credits
    /// the points that the level earns.
    pub open spec fn set_verification_level(
        self,
        caller: Address,
        account: AccountAddress,
        level: VerificationLevel,
    ) -> (ReputationLedger, Result<Seq<ReputationEvent>, ReputationError>) {
        if !is_account_spec(caller, self.admin) {
            (self, Err(ReputationError::Unauthorized))
        } else {
            match self.get_or_create(account) {
                (_, Err(error)) => (self, Err(error)),
                (found, Ok((id, created))) => {
                    let before = found.tokens[id as int];
                    let after = after_verification(before, level);
                    let changed = creation_events(id, account, self.base_reputation, created).push(
                        ReputationEvent::VerificationChanged {
                            account,
                            old_level: before.verification_level,
                            new_level: level,
                        },
                    );
                    (
                        found.with_token(id, after),
                        Ok(
                            if verification_bonus(level) > 0 {
                                changed.push(score_event(before, after, UpdateReason::Verification))
                            } else {
                                changed
                            },
                        ),
                    )
                },
            }
        }
    }

    /// Registers, for the admin, the escrow contract.
    pub open spec fn set_escrow_contract(
        self,
        caller: Address,
        contract_address: ContractAddress,
    ) -> (ReputationLedger, Result<Seq<ReputationEvent>, ReputationError>) {
        if !is_account_spec(caller, self.admin) {
            (self, Err(ReputationError::Unauthorized))
        } else {
            (ReputationLedger { escrow_contract: Some(contract_address), ..self }, Ok(Seq::empty()))
        }
    }

    /// Decays the score of every account that has been inactive for more than
    /// 90 days. Anyone may ask for it.
    pub open spec fn decay_inactive(
        self,
        now: u64,
    ) -> (ReputationLedger, Result<Seq<ReputationEvent>, ReputationError>) {
        (
            ReputationLedger {
                tokens: Seq::new(self.tokens.len(), |id: int| after_decay(self.tokens[id], now)),
                ..self
            },
            Ok(decay_events(self.tokens, now)),
        )
    }

    /// What an operation does to the ledger, and the events of an accepted
    /// one. An operation that is refused leaves the ledger as it was.
    pub open spec fn update(
        self,
        ctx: CallContext,
        params: ReputationUpdateParams,
    ) -> (ReputationLedger, Result<Seq<ReputationEvent>, ReputationError>) {
        match params {
            ReputationUpdateParams::UpdateFromTransaction {
                account,
                transaction_value,
                is_buyer,
            } => self.update_from_transaction(ctx, account, transaction_value, is_buyer),
            ReputationUpdateParams::UpdateFromDispute {
                winner,
                loser,
                dispute_value,
            } => self.update_from_dispute(ctx, winner, loser, dispute_value),
            ReputationUpdateParams::SetVerificationLevel { account, level } => self.set_verification_level(
                ctx.sender,
                account,
                level,
            ),
            ReputationUpdateParams::SetEscrowContract { contract_address } => self.set_escrow_contract(
                ctx.sender,
                contract_address,
            ),
            ReputationUpdateParams::DecayInactiveReputation => self.decay_inactive(ctx.slot_time),
        }
    }

    /// The balance of an address in a token: one for the owner of the token,
    /// zero for everyone else and for a token that does not exist.
    pub open spec fn balance(self, token_id: TokenId, address: Address) -> u64 {
        if token_id < self.tokens.len() && is_account_spec(
            address,
            self.tokens[token_id as int].owner,
        ) {
            1
        } else {
            0
        }
    }

    /// The score of an account: zero for one without a token.
    pub open spec fn score_of(self, account: AccountAddress) -> u64 {
        match token_of(self.tokens, account) {
            Some(id) => self.tokens[id as int].score,
            None => 0,
        }
    }

    /// In a well-formed ledger the token of an account is the one it owns.
    pub proof fn lemma_token_of(self, account: AccountAddress, id: int)
        requires
            self.wf(),
            owns(self.tokens, account, id),
        ensures
            token_of(self.tokens, account) == Some(id as TokenId),
    {
        let chosen = choose|id: int| owns(self.tokens, account, id);
        if chosen < id {
            assert(self.tokens[chosen].owner != self.tokens[id].owner);
        } else if id < chosen {
            assert(self.tokens[id].owner != self.tokens[chosen].owner);
        }
    }

    /// Finding or making a token keeps the ledger well formed, and the token
    /// it answers belongs to the account.
    pub proof fn lemma_get_or_create(self, account: AccountAddress)
        requires
            self.wf(),
        ensures
            self.get_or_create(account).0.wf(),
            self.get_or_create(account).1 matches Ok((id, _)) ==> owns(
                self.get_or_create(account).0.tokens,
                account,
                id as int,
            ),
    {
        let (after, found) = self.get_or_create(account);
        if token_of(self.tokens, account) is None {
            if self.tokens.len() < u32::MAX {
                assert forall|i: int, j: int| 0 <= i < j < after.tokens.len() implies (
                #[trigger] after.tokens[i]).owner != (#[trigger] after.tokens[j]).owner by {
                    if j < self.tokens.len() {
                        assert(self.tokens[i].owner != self.tokens[j].owner);
                    } else {
                        assert(!owns(self.tokens, account, i));
                    }
                }
            }
        } else {
            let chosen = choose|id: int| owns(self.tokens, account, id);
            assert(owns(self.tokens, account, chosen));
        }
    }

    /// Replacing a token by one of the same owner keeps the ledger well
    /// formed, and every account keeps its token.
    pub proof fn lemma_with_token(self, id: TokenId, data: ReputationData, account: AccountAddress)
        requires
            self.wf(),
            id < self.tokens.len(),
            data.owner == self.tokens[id as int].owner,
        ensures
            self.with_token(id, data).wf(),
            token_of(self.with_token(id, data).tokens, account) == token_of(self.tokens, account),
    {
        let after = self.with_token(id, data);
        assert forall|i: int, j: int| 0 <= i < j < after.tokens.len() implies (
        #[trigger] after.tokens[i]).owner != (#[trigger] after.tokens[j]).owner by {
            assert(self.tokens[i].owner != self.tokens[j].owner);
        }
        assert forall|i: int| owns(self.tokens, account, i) == owns(after.tokens, account, i) by {}
        if exists|i: int| owns(self.tokens, account, i) {
            let i = choose|i: int| owns(self.tokens, account, i);
            assert(owns(after.tokens, account, i));
            self.lemma_token_of(account, i);
            after.lemma_token_of(account, i);
        } else {
            assert forall|i: int| !owns(after.tokens, account, i) by {
                assert(!owns(self.tokens, account, i));
            }
        }
    }
}

/// Every operation keeps the ledger well formed and keeps each token with its
/// owner, and an operation that is refused leaves the ledger as it was.
pub proof fn lemma_update_keeps_tokens(
    ledger: ReputationLedger,
    ctx: CallContext,
    params: ReputationUpdateParams,
    id: int,
)
    requires
        ledger.wf(),
        0 <= id < ledger.tokens.len(),
    ensures
        ({
            let (after, events) = ledger.update(ctx, params);
            &&& after.wf()
            &&& events is Err ==> after == ledger
            &&& id < after.tokens.len()
            &&& after.tokens[id].owner == ledger.tokens[id].owner
        }),
{
    match params {
        ReputationUpdateParams::UpdateFromTransaction { account, transaction_value, is_buyer } => {
            ledger.lemma_get_or_create(account);
            if let (found, Ok((token, _))) = ledger.get_or_create(account) {
                let after = after_transaction(
                    found.tokens[token as int],
                    ctx.slot_time,
                    transaction_value,
                    is_buyer,
                );
                found.lemma_with_token(token, after, account);
            }
        },
        ReputationUpdateParams::UpdateFromDispute { winner, loser, dispute_value } => {
            ledger.lemma_get_or_create(winner);
            if let (found, Ok((won, _))) = ledger.get_or_create(winner) {
                let won_after = after_dispute_won(found.tokens[won as int], ctx.slot_time, dispute_value);
                found.lemma_with_token(won, won_after, winner);
                let credited = found.with_token(won, won_after);
                credited.lemma_get_or_create(loser);
                if let (found_both, Ok((lost, _))) = credited.get_or_create(loser) {
                    let lost_after = after_dispute_lost(
                        found_both.tokens[lost as int],
                        ctx.slot_time,
                        dispute_value,
                    );
                    found_both.lemma_with_token(lost, lost_after, loser);
                }
            }
        },
        ReputationUpdateParams::SetVerificationLevel { account, level } => {
            ledger.lemma_get_or_create(account);
            if let (found, Ok((token, _))) = ledger.get_or_create(account) {
                found.lemma_with_token(token, after_verification(found.tokens[token as int], level), account);
            }
        },
        ReputationUpdateParams::SetEscrowContract { .. } => {},
        ReputationUpdateParams::DecayInactiveReputation => {
            let after = ledger.decay_inactive(ctx.slot_time).0;
            assert forall|i: int, j: int| 0 <= i < j < after.tokens.len() implies (
            #[trigger] after.tokens[i]).owner != (#[trigger] after.tokens[j]).owner by {
                assert(ledger.tokens[i].owner != ledger.tokens[j].owner);
            }
        },
    }
}

fn bonus_for_value(value: u64, cap: u64) -> (bonus: u64)
    ensures
        bonus == value_bonus(value, cap),
{
    let whole: u64 = value / MICRO_CCD_PER_CCD;
    if whole < cap {
        whole
    } else {
        cap
    }
}

fn credited_transaction(
    data: ReputationData,
    now: u64,
    value: u64,
    is_buyer: bool,
) -> (after: ReputationData)
    ensures
        after == after_transaction(data, now, value, is_buyer),
{
    let base_increase: u64 = if is_buyer {
        10
    } else {
        15
    };
    let multiplier: u64 = match data.verification_level {
        VerificationLevel::Unverified => 1,
        VerificationLevel::Basic => 2,
        VerificationLevel::Full => 3,
        VerificationLevel::Professional => 4,
    };
    let increase: u64 = (base_increase + bonus_for_value(value, 50)) * multiplier;
    let mut after = data;
    if is_buyer {
        after.buyer_transactions = data.buyer_transactions.saturating_add(1);
    } else {
        after.seller_transactions = data.seller_transactions.saturating_add(1);
    }
    after.total_transaction_value = data.total_transaction_value.saturating_add(value);
    after.last_activity = now;
    after.score = data.score.saturating_add(increase);
    after
}

fn push_created(
    events: &mut Vec<ReputationEvent>,
    token_id: TokenId,
    owner: AccountAddress,
    base_reputation: u64,
    created: bool,
)
    ensures
        final(events)@ == old(events)@ + creation_events(token_id, owner, base_reputation, created),
{
    if created {
        events.push(ReputationEvent::TokenCreated { token_id, owner, initial_score: base_reputation });
    }
    assert(final(events)@ =~= old(events)@ + creation_events(
        token_id,
        owner,
        base_reputation,
        created,
    ));
}

fn push_score(
    events: &mut Vec<ReputationEvent>,
    before: ReputationData,
    after: ReputationData,
    reason: UpdateReason,
)
    ensures
        final(events)@ == old(events)@.push(score_event(before, after, reason)),
{
    events.push(
        ReputationEvent::ReputationUpdated {
            account: before.owner,
            old_score: before.score,
            new_score: after.score,
            reason,
        },
    );
}

impl ReputationState {
    /// Initialize the reputation ledger.
    pub fn init(params: InitParams) -> (state: ReputationState)
        ensures
            state@ == ReputationLedger::init(params),
            state@.wf(),
    {
        ReputationState {
            tokens: Vec::new(),
            admin: params.admin,
            escrow_contract: None,
            base_reputation: params.base_reputation,
        }
    }

    /// Whether the ledger is well formed.
    pub fn is_well_formed(&self) -> (well_formed: bool)
        ensures
            well_formed == self@.wf(),
    {
        if self.tokens.len() > u32::MAX as usize {
            return false;
        }
        let mut j: usize = 0;
        while j < self.tokens.len()
            invariant
                j <= self.tokens.len(),
                forall|k: int, l: int|
                    0 <= k < l < j ==> (#[trigger] self.tokens@[k]).owner != (
                    #[trigger] self.tokens@[l]).owner,
            decreases self.tokens.len() - j,
        {
            let mut i: usize = 0;
            while i < j
                invariant
                    i <= j < self.tokens.len(),
                    forall|k: int|
                        0 <= k < i ==> (#[trigger] self.tokens@[k]).owner != self.tokens@[j as int].owner,
                decreases j - i,
            {
                if self.tokens[i].owner == self.tokens[j].owner {
                    assert(self@.tokens[i as int].owner == self@.tokens[j as int].owner);
                    return false;
                }
                i = i + 1;
            }
            j = j + 1;
        }
        true
    }

    /// The id of the token of an account.
    pub fn token_id_of(&self, account: &AccountAddress) -> (found: Option<TokenId>)
        requires
            self@.wf(),
        ensures
            found == token_of(self@.tokens, *account),
    {
        let mut id: usize = 0;
        while id < self.tokens.len()
            invariant
                id <= self.tokens.len(),
                self@.wf(),
                forall|earlier: int| 0 <= earlier < id ==> !owns(self@.tokens, *account, earlier),
            decreases self.tokens.len() - id,
        {
            if self.tokens[id].owner == *account {
                proof {
                    self@.lemma_token_of(*account, id as int);
                }
                return Some(id as TokenId);
            }
            id = id + 1;
        }
        None
    }

    /// Get reputation data for an account.
    pub fn get_reputation(&self, account: &AccountAddress) -> (data: Option<&ReputationData>)
        requires
            self@.wf(),
        ensures
            data == (match token_of(self@.tokens, *account) {
                Some(id) => Some(&self@.tokens[id as int]),
                None => None,
            }),
    {
        match self.token_id_of(account) {
            Some(id) => {
                proof {
                    let chosen = choose|id: int| owns(self@.tokens, *account, id);
                    assert(owns(self@.tokens, *account, chosen));
                }
                Some(&self.tokens[id as usize])
            },
            None => None,
        }
    }

    /// Get reputation score for an account.
    pub fn get_score(&self, account: &AccountAddress) -> (score: u64)
        requires
            self@.wf(),
        ensures
            score == self@.score_of(*account),
    {
        match self.get_reputation(account) {
            Some(data) => data.score,
            None => 0,
        }
    }

    /// The balance of each queried address in each queried token: one for the
    /// owner of the token and zero otherwise.
    pub fn balance_of(&self, queries: &Vec<BalanceOfQuery>) -> (response: Vec<u64>)
        ensures
            response@.len() == queries@.len(),
            forall|i: int|
                0 <= i < queries@.len() ==> #[trigger] response@[i] == self@.balance(
                    queries@[i].token_id,
                    queries@[i].address,
                ),
    {
        let mut response: Vec<u64> = Vec::new();
        let mut i: usize = 0;
        while i < queries.len()
            invariant
                i <= queries.len(),
                response@.len() == i,
                forall|j: int|
                    0 <= j < i ==> #[trigger] response@[j] == self@.balance(
                        queries@[j].token_id,
                        queries@[j].address,
                    ),
            decreases queries.len() - i,
        {
            let query = &queries[i];
            let id = query.token_id as usize;
            let amount: u64 = if id < self.tokens.len() && is_account(
                &query.address,
                &self.tokens[id].owner,
            ) {
                1
            } else {
                0
            };
            response.push(amount);
            i = i + 1;
        }
        response
    }

    /// Get the token of an account, or create it.
    pub fn get_or_create_reputation_token(
        &mut self,
        account: AccountAddress,
    ) -> (found: Result<(TokenId, bool), ReputationError>)
        requires
            old(self)@.wf(),
        ensures
            final(self)@.wf(),
            (final(self)@, found) == old(self)@.get_or_create(account),
            found matches Ok((id, _)) ==> owns(final(self)@.tokens, account, id as int),
    {
        proof {
            old(self)@.lemma_get_or_create(account);
        }
        if let Some(id) = self.token_id_of(&account) {
            return Ok((id, false));
        }
        if self.tokens.len() >= u32::MAX as usize {
            return Err(ReputationError::CapacityExceeded);
        }
        let id = self.tokens.len() as TokenId;
        self.tokens.push(
            ReputationData {
                owner: account,
                score: self.base_reputation,
                buyer_transactions: 0,
                seller_transactions: 0,
                disputes_lost: 0,
                disputes_won: 0,
                last_activity: 0,
                total_transaction_value: 0,
                verification_level: VerificationLevel::Unverified,
            },
        );
        Ok((id, true))
    }

    fn replace(&mut self, id: TokenId, data: ReputationData)
        requires
            old(self)@.wf(),
            id < old(self)@.tokens.len(),
            data.owner == old(self)@.tokens[id as int].owner,
        ensures
            final(self)@ == old(self)@.with_token(id, data),
            final(self)@.wf(),
    {
        proof {
            old(self)@.lemma_with_token(id, data, data.owner);
        }
        self.tokens.set(id as usize, data);
    }

    /// Update reputation after a successful transaction, as the escrow
    /// contract or the admin.
    pub fn update_from_transaction(
        &mut self,
        ctx: &CallContext,
        account: AccountAddress,
        transaction_value: u64,
        is_buyer: bool,
    ) -> (events: Result<Vec<ReputationEvent>, ReputationError>)
        requires
            old(self)@.wf(),
        ensures
            final(self)@.wf(),
            final(self)@ == old(self)@.update_from_transaction(
                *ctx,
                account,
                transaction_value,
                is_buyer,
            ).0,
            events_match(
                events,
                old(self)@.update_from_transaction(*ctx, account, transaction_value, is_buyer).1,
            ),
    {
        if !is_admin_or_peer(&ctx.sender, &self.escrow_contract, &self.admin) {
            return Err(ReputationError::Unauthorized);
        }
        let (id, created) = self.get_or_create_reputation_token(account)?;
        let before = self.tokens[id as usize];
        let after = credited_transaction(before, ctx.slot_time, transaction_value, is_buyer);
        self.replace(id, after);
        let mut events: Vec<ReputationEvent> = Vec::new();
        push_created(&mut events, id, account, self.base_reputation, created);
        push_score(&mut events, before, after, UpdateReason::Transaction);
        assert(events@ =~= creation_events(id, account, self.base_reputation, created).push(
            score_event(before, after, UpdateReason::Transaction),
        ));
        Ok(events)
    }

    /// Update reputation after a dispute resolution, as the escrow contract or
    /// the admin.
    pub fn update_from_dispute(
        &mut self,
        ctx: &CallContext,
        winner: AccountAddress,
        loser: AccountAddress,
        dispute_value: u64,
    ) -> (events: Result<Vec<ReputationEvent>, ReputationError>)
        requires
            old(self)@.wf(),
        ensures
            final(self)@.wf(),
            final(self)@ == old(self)@.update_from_dispute(*ctx, winner, loser, dispute_value).0,
            events_match(
                events,
                old(self)@.update_from_dispute(*ctx, winner, loser, dispute_value).1,
            ),
    {
        if !is_admin_or_peer(&ctx.sender, &self.escrow_contract, &self.admin) {
            return Err(ReputationError::Unauthorized);
        }
        let (won_id, won_created) = self.get_or_create_reputation_token(winner)?;
        let won_before = self.tokens[won_id as usize];
        let mut won_after = won_before;
        won_after.disputes_won = won_before.disputes_won.saturating_add(1);
        won_after.last_activity = ctx.slot_time;
        won_after.score = won_before.score.saturating_add(20 + bonus_for_value(dispute_value, 30));
        self.replace(won_id, won_after);
        let (lost_id, lost_created) = match self.get_or_create_reputation_token(loser) {
            Ok(found) => found,
            Err(error) => {
                // No token could be made for the loser: what was done for the
                // winner is taken back.
                if won_created {
                    self.tokens.pop();
                } else {
                    self.tokens.set(won_id as usize, won_before);
                }
                assert(self@.tokens =~= old(self)@.tokens);
                return Err(error);
            },
        };
        let lost_before = self.tokens[lost_id as usize];
        let mut lost_after = lost_before;
        lost_after.disputes_lost = lost_before.disputes_lost.saturating_add(1);
        lost_after.last_activity = ctx.slot_time;
        lost_after.score = lost_before.score.saturating_sub(30 + bonus_for_value(dispute_value, 50));
        self.replace(lost_id, lost_after);
        let mut events: Vec<ReputationEvent> = Vec::new();
        push_created(&mut events, won_id, winner, self.base_reputation, won_created);
        push_score(&mut events, won_before, won_after, UpdateReason::DisputeWon);
        push_created(&mut events, lost_id, loser, self.base_reputation, lost_created);
        push_score(&mut events, lost_before, lost_after, UpdateReason::DisputeLost);
        assert(events@ =~= creation_events(won_id, winner, self.base_reputation, won_created).push(
            score_event(won_before, won_after, UpdateReason::DisputeWon),
        ) + creation_events(lost_id, loser, self.base_reputation, lost_created).push(
            score_event(lost_before, lost_after, UpdateReason::DisputeLost),
        ));
        Ok(events)
    }

    /// Set the verification level of an account, as the admin.
    pub fn set_verification_level(
        &mut self,
        caller: &Address,
        account: AccountAddress,
        level: VerificationLevel,
    ) -> (events: Result<Vec<ReputationEvent>, ReputationError>)
        requires
            old(self)@.wf(),
        ensures
            final(self)@.wf(),
            final(self)@ == old(self)@.set_verification_level(*caller, account, level).0,
            events_match(events, old(self)@.set_verification_level(*caller, account, level).1),
    {
        if !is_account(caller, &self.admin) {
            return Err(ReputationError::Unauthorized);
        }
        let (id, created) = self.get_or_create_reputation_token(account)?;
        let before = self.tokens[id as usize];
        let bonus: u64 = match level {
            VerificationLevel::Unverified => 0,
            VerificationLevel::Basic => 50,
            VerificationLevel::Full => 150,
            VerificationLevel::Professional => 300,
        };
        let mut after = before;
        after.verification_level = level;
        after.score = before.score.saturating_add(bonus);
        self.replace(id, after);
        let mut events: Vec<ReputationEvent> = Vec::new();
        push_created(&mut events, id, account, self.base_reputation, created);
        events.push(
            ReputationEvent::VerificationChanged {
                account,
                old_level: before.verification_level,
                new_level: level,
            },
        );
        if bonus > 0 {
            push_score(&mut events, before, after, UpdateReason::Verification);
        }
        proof {
            let changed = creation_events(id, account, self.base_reputation, created).push(
                ReputationEvent::VerificationChanged {
                    account,
                    old_level: before.verification_level,
                    new_level: level,
                },
            );
            assert(events@ =~= if verification_bonus(level) > 0 {
                changed.push(score_event(before, after, UpdateReason::Verification))
            } else {
                changed
            });
        }
        Ok(events)
    }

    /// Set the escrow contract, as the admin.
    pub fn set_escrow_contract(
        &mut self,
        caller: &Address,
        contract_address: ContractAddress,
    ) -> (events: Result<Vec<ReputationEvent>, ReputationError>)
        requires
            old(self)@.wf(),
        ensures
            final(self)@.wf(),
            final(self)@ == old(self)@.set_escrow_contract(*caller, contract_address).0,
            events_match(events, old(self)@.set_escrow_contract(*caller, contract_address).1),
    {
        if !is_account(caller, &self.admin) {
            return Err(ReputationError::Unauthorized);
        }
        self.escrow_contract = Some(contract_address);
        Ok(Vec::new())
    }

    /// Decay the reputation of inactive accounts.
    pub fn decay_inactive(
        &mut self,
        now: u64,
    ) -> (events: Result<Vec<ReputationEvent>, ReputationError>)
        requires
            old(self)@.wf(),
        ensures
            final(self)@.wf(),
            final(self)@ == old(self)@.decay_inactive(now).0,
            events_match(events, old(self)@.decay_inactive(now).1),
    {
        let mut events: Vec<ReputationEvent> = Vec::new();
        let mut id: usize = 0;
        assert(old(self)@.tokens.take(0) =~= Seq::<ReputationData>::empty());
        while id < self.tokens.len()
            invariant
                id <= self.tokens.len(),
                self.tokens.len() == old(self)@.tokens.len(),
                self.admin == old(self).admin,
                self.escrow_contract == old(self).escrow_contract,
                self.base_reputation == old(self).base_reputation,
                forall|i: int|
                    0 <= i < id ==> #[trigger] self.tokens@[i] == after_decay(
                        old(self).tokens@[i],
                        now,
                    ),
                forall|i: int|
                    id <= i < self.tokens.len() ==> #[trigger] self.tokens@[i] == old(
                        self,
                    ).tokens@[i],
                events@ == decay_events(old(self)@.tokens.take(id as int), now),
            decreases self.tokens.len() - id,
        {
            let data = self.tokens[id];
            proof {
                assert(self.tokens@[id as int] == old(self).tokens@[id as int]);
                let sooner = old(self)@.tokens.take(id + 1);
                assert(sooner.drop_last() =~= old(self)@.tokens.take(id as int));
                assert(sooner.last() == data);
            }
            if is_past(now, data.last_activity, DECAY_AFTER_DAYS) {
                let decay_amount: u64 = data.score / 20;
                let mut decayed = data;
                decayed.score = data.score - decay_amount;
                self.tokens.set(id, decayed);
                if decay_amount > 0 {
                    push_score(&mut events, data, decayed, UpdateReason::Decay);
                }
            }
            id = id + 1;
        }
        proof {
            assert(old(self)@.tokens.take(id as int) =~= old(self)@.tokens);
            assert(self@.tokens =~= old(self)@.decay_inactive(now).0.tokens);
            assert forall|i: int, j: int| 0 <= i < j < self@.tokens.len() implies (
            #[trigger] self@.tokens[i]).owner != (#[trigger] self@.tokens[j]).owner by {
                assert(old(self)@.tokens[i].owner != old(self)@.tokens[j].owner);
            }
        }
        Ok(events)
    }
}

/// Whether an operation reported what the ledger's rules give.
pub open spec fn events_match(
    events: Result<Vec<ReputationEvent>, ReputationError>,
    expected: Result<Seq<ReputationEvent>, ReputationError>,
) -> bool {
    match events {
        Ok(events) => expected == Ok::<Seq<ReputationEvent>, ReputationError>(events@),
        Err(error) => expected == Err::<Seq<ReputationEvent>, ReputationError>(error),
    }
}

/// Handle an operation on the ledger.
pub fn update(
    state: &mut ReputationState,
    ctx: &CallContext,
    params: ReputationUpdateParams,
) -> (events: Result<Vec<ReputationEvent>, ReputationError>)
    requires
        old(state)@.wf(),
    ensures
        final(state)@.wf(),
        final(state)@ == old(state)@.update(*ctx, params).0,
        events_match(events, old(state)@.update(*ctx, params).1),
{
    match params {
        ReputationUpdateParams::UpdateFromTransaction {
            account,
            transaction_value,
            is_buyer,
        } => state.update_from_transaction(ctx, account, transaction_value, is_buyer),
        ReputationUpdateParams::UpdateFromDispute {
            winner,
            loser,
            dispute_value,
        } => state.update_from_dispute(ctx, winner, loser, dispute_value),
        ReputationUpdateParams::SetVerificationLevel { account, level } => state.set_verification_level(
            &ctx.sender,
            account,
            level,
        ),
        ReputationUpdateParams::SetEscrowContract { contract_address } => state.set_escrow_contract(
            &ctx.sender,
            contract_address,
        ),
        ReputationUpdateParams::DecayInactiveReputation => state.decay_inactive(ctx.slot_time),
    }
}

/// Whether the ledger supports each of the queried standards.
pub fn supports(queries: &Vec<String>) -> (response: Vec<SupportResult>)
    ensures
        response@.len() == queries@.len(),
        forall|i: int|
            0 <= i < queries@.len() ==> #[trigger] response@[i] == support_of(queries@[i]@),
{
    let standard = "CIS-2".to_owned();
    let mut response: Vec<SupportResult> = Vec::new();
    let mut i: usize = 0;
    while i < queries.len()
        invariant
            i <= queries.len(),
            standard@ == "CIS-2"@,
            response@.len() == i,
            forall|j: int| 0 <= j < i ==> #[trigger] response@[j] == support_of(queries@[j]@),
        decreases queries.len() - i,
    {
        let support = if queries[i] == standard {
            SupportResult::Support
        } else {
            SupportResult::NoSupport
        };
        response.push(support);
        i = i + 1;
    }
    response
}

/// Transfer is prohibited for reputation tokens.
pub fn transfer() -> (refused: Result<(), ReputationError>)
    ensures
        refused == Err::<(), ReputationError>(ReputationError::TransferProhibited),
{
    Err(ReputationError::TransferProhibited)
}

} // verus!
