//! The weighted-quorum decision: from the votes of a dispute to its outcome.

use vstd::prelude::*;
use crate::dispute_resolution::DisputeError;
use crate::types::AccountAddress;

verus! {

/// The smallest weight a vote can carry.
pub const MIN_VOTE_WEIGHT: u64 = 1;

/// The largest weight a vote can carry.
pub const MAX_VOTE_WEIGHT: u64 = 100;

/// The split applied when no side reaches the quorum and nobody proposed one.
pub const DEFAULT_SPLIT_PERCENTAGE: u8 = 50;

/// What a voter asks for.
#[derive(Clone, Copy, Debug, PartialEq, Eq, Structural)]
pub enum VoteChoice {
    /// Favor the buyer.
    FavorBuyer,
    /// Favor the seller.
    FavorSeller,
    /// Split the amount, with this percentage going to the seller.
    Split { seller_percentage: u8 },
}

/// The binding outcome of a dispute.
#[derive(Clone, Copy, Debug, PartialEq, Eq, Structural)]
pub enum DisputeResolution {
    /// Full refund to the buyer.
    FavorBuyer,
    /// Payment released to the seller.
    FavorSeller,
    /// The amount is divided, with this percentage going to the seller.
    Split { seller_percentage: u8 },
}

/// One recorded vote.
#[derive(Debug, PartialEq, Eq)]
pub struct Vote {
    /// Voter account.
    pub voter: AccountAddress,
    /// Vote choice.
    pub choice: VoteChoice,
    /// Weight of this vote, derived from the voter's reputation.
    pub weight: u64,
    /// When the vote was cast, in milliseconds.
    pub timestamp: u64,
    /// Optional justification.
    pub comment: Option<String>,
}

impl Clone for Vote {
    fn clone(&self) -> (copy: Self)
        ensures
            copy == *self,
    {
        let comment = match &self.comment {
            Some(text) => Some(text.clone()),
            None => None,
        };
        Vote {
            voter: self.voter,
            choice: self.choice,
            weight: self.weight,
            timestamp: self.timestamp,
            comment,
        }
    }
}

/// Whether `weight` is the vote weight for `reputation`: the integer square
/// root of the reputation, kept within `[1, 100]`.
pub open spec fn is_vote_weight(reputation: u64, weight: u64) -> bool {
    &&& MIN_VOTE_WEIGHT <= weight <= MAX_VOTE_WEIGHT
    &&& weight > MIN_VOTE_WEIGHT ==> weight * weight <= reputation
    &&& weight < MAX_VOTE_WEIGHT ==> reputation < (weight + 1) * (weight + 1)
}

/// The vote weight for `reputation`.
pub open spec fn vote_weight(reputation: u64) -> u64 {
    choose|weight: u64| is_vote_weight(reputation, weight)
}

/// Whether `root` is the integer square root of `n`.
pub open spec fn is_floor_sqrt(n: nat, root: nat) -> bool {
    root * root <= n < (root + 1) * (root + 1)
}

/// `root` kept within the range of vote weights.
pub open spec fn clamp_weight(root: nat) -> nat {
    if root < MIN_VOTE_WEIGHT {
        MIN_VOTE_WEIGHT as nat
    } else if root > MAX_VOTE_WEIGHT {
        MAX_VOTE_WEIGHT as nat
    } else {
        root
    }
}

proof fn lemma_square_monotonic(a: nat, b: nat)
    requires
        a <= b,
    ensures
        a * a <= b * b,
{
    assert(a * a <= b * b) by (nonlinear_arith)
        requires
            a <= b,
    ;
}

/// At most one weight fits a reputation.
pub proof fn lemma_vote_weight_unique(reputation: u64, a: u64, b: u64)
    requires
        is_vote_weight(reputation, a),
        is_vote_weight(reputation, b),
    ensures
        a == b,
{
    if a < b {
        lemma_square_monotonic((a + 1) as nat, b as nat);
    } else if b < a {
        lemma_square_monotonic((b + 1) as nat, a as nat);
    }
}

/// The weight of a vote is the integer square root of the voter's reputation,
/// raised to 1 where it is smaller and cut to 100 where it is larger; it lies
/// in `[1, 100]` for every reputation.
pub proof fn lemma_vote_weight_is_clamped_sqrt(reputation: u64, root: nat)
    requires
        is_floor_sqrt(reputation as nat, root),
    ensures
        vote_weight(reputation) == clamp_weight(root),
        MIN_VOTE_WEIGHT <= vote_weight(reputation) <= MAX_VOTE_WEIGHT,
        is_vote_weight(reputation, vote_weight(reputation)),
{
    let w = clamp_weight(root) as u64;
    if root > MAX_VOTE_WEIGHT {
        lemma_square_monotonic(MAX_VOTE_WEIGHT as nat, root);
        assert(w * w <= reputation);
    } else if root < MIN_VOTE_WEIGHT {
        assert((root + 1) * (root + 1) == 1) by (nonlinear_arith)
            requires
                root == 0,
        ;
        assert((w + 1) * (w + 1) == 4) by (nonlinear_arith)
            requires
                w == 1,
        ;
    } else {
        assert(w == root);
        assert(w * w == root * root);
        assert((w + 1) * (w + 1) == (root + 1) * (root + 1));
    }
    assert(is_vote_weight(reputation, w));
    lemma_vote_weight_unique(reputation, w, vote_weight(reputation));
}

/// Every number has an integer square root.
pub proof fn lemma_floor_sqrt_exists(n: nat) -> (root: nat)
    ensures
        is_floor_sqrt(n, root),
    decreases n,
{
    if n == 0 {
        assert((0nat + 1) * (0nat + 1) == 1) by (nonlinear_arith);
        0
    } else {
        let below = lemma_floor_sqrt_exists((n - 1) as nat);
        if (below + 1) * (below + 1) <= n {
            assert((below + 2) * (below + 2) > (below + 1) * (below + 1)) by (nonlinear_arith);
            below + 1
        } else {
            below
        }
    }
}

/// Every reputation has its weight.
pub proof fn lemma_vote_weight_defined(reputation: u64)
    ensures
        is_vote_weight(reputation, vote_weight(reputation)),
{
    let root = lemma_floor_sqrt_exists(reputation as nat);
    lemma_vote_weight_is_clamped_sqrt(reputation, root);
}

/// Calculate vote weight based on reputation.
///
/// Square root scaling keeps accounts of high reputation from dominating a
/// vote: the weight is the integer square root of the reputation, at least 1
/// and at most 100.
pub fn calculate_vote_weight(reputation: u64) -> (weight: u64)
    ensures
        is_vote_weight(reputation, weight),
        weight == vote_weight(reputation),
{
    let mut weight: u64 = MIN_VOTE_WEIGHT;
    while weight < MAX_VOTE_WEIGHT
        invariant
            MIN_VOTE_WEIGHT <= weight <= MAX_VOTE_WEIGHT,
            weight > MIN_VOTE_WEIGHT ==> weight * weight <= reputation,
        ensures
            is_vote_weight(reputation, weight),
        decreases MAX_VOTE_WEIGHT - weight,
    {
        let next: u64 = weight + 1;
        assert(next * next <= 10_000) by (nonlinear_arith)
            requires
                next <= 100,
        ;
        if next * next > reputation {
            break;
        }
        weight = next;
    }
    proof {
        lemma_vote_weight_unique(reputation, weight, vote_weight(reputation));
    }
    weight
}

/// The running sums that the decision is made from.
pub enum Tally {
    /// The weight of every vote.
    Total,
    /// The weight of the votes for the buyer.
    Buyer,
    /// The weight of the votes for the seller.
    Seller,
    /// The weight of the votes for a split.
    Split,
    /// For the votes for a split, the proposed percentage times the weight.
    SplitWeighted,
}

/// What one vote adds to a running sum.
pub open spec fn share(vote: Vote, tally: Tally) -> nat {
    match tally {
        Tally::Total => vote.weight as nat,
        Tally::Buyer => if vote.choice is FavorBuyer {
            vote.weight as nat
        } else {
            0
        },
        Tally::Seller => if vote.choice is FavorSeller {
            vote.weight as nat
        } else {
            0
        },
        Tally::Split => if vote.choice is Split {
            vote.weight as nat
        } else {
            0
        },
        Tally::SplitWeighted => match vote.choice {
            VoteChoice::Split { seller_percentage } => seller_percentage as nat * vote.weight as nat,
            _ => 0,
        },
    }
}

/// A running sum over all votes.
pub open spec fn tally(votes: Seq<Vote>, which: Tally) -> nat
    decreases votes.len(),
{
    if votes.len() == 0 {
        0
    } else {
        tally(votes.drop_last(), which) + share(votes.last(), which)
    }
}

/// Whether some vote proposes a split.
pub open spec fn has_split(votes: Seq<Vote>) -> bool {
    exists|i: int| 0 <= i < votes.len() && (#[trigger] votes[i]).choice is Split
}

/// A vote as the ledger records it: a weight in `[1, 100]` and, for a split,
/// a percentage of at most 100.
pub open spec fn vote_valid(vote: Vote) -> bool {
    &&& MIN_VOTE_WEIGHT <= vote.weight <= MAX_VOTE_WEIGHT
    &&& vote.choice matches VoteChoice::Split { seller_percentage } ==> seller_percentage <= 100
}

/// Whether every vote is as the ledger records it.
pub open spec fn votes_valid(votes: Seq<Vote>) -> bool {
    forall|i: int| 0 <= i < votes.len() ==> vote_valid(#[trigger] votes[i])
}

/// The weight one side must reach to win outright: the given percentage of the
/// total weight, rounded down.
pub open spec fn quorum_threshold(total_weight: nat, quorum_percentage: u8) -> nat {
    total_weight * quorum_percentage as nat / 100
}

/// The outcome that the votes decide.
///
/// The buyer wins with a weight at or above the threshold; failing that, the
/// seller does; failing that, the outcome is the weighted average of the
/// proposed splits, rounded down; and without any such proposal it is an even
/// split. An earlier rule wins even where a later one would apply as well.
pub open spec fn resolution_of(votes: Seq<Vote>, quorum_percentage: u8) -> DisputeResolution {
    let threshold = quorum_threshold(tally(votes, Tally::Total), quorum_percentage);
    if tally(votes, Tally::Buyer) >= threshold {
        DisputeResolution::FavorBuyer
    } else if tally(votes, Tally::Seller) >= threshold {
        DisputeResolution::FavorSeller
    } else if has_split(votes) {
        DisputeResolution::Split {
            seller_percentage: (tally(votes, Tally::SplitWeighted) / tally(votes, Tally::Split)) as u8,
        }
    } else {
        DisputeResolution::Split { seller_percentage: DEFAULT_SPLIT_PERCENTAGE }
    }
}

proof fn lemma_tally_step(votes: Seq<Vote>, i: int, which: Tally)
    requires
        0 <= i < votes.len(),
    ensures
        tally(votes.take(i + 1), which) == tally(votes.take(i), which) + share(votes[i], which),
{
    assert(votes.take(i + 1).drop_last() =~= votes.take(i));
}

/// A vote that is appended adds its share to each running sum.
pub proof fn lemma_tally_push(votes: Seq<Vote>, vote: Vote, which: Tally)
    ensures
        tally(votes.push(vote), which) == tally(votes, which) + share(vote, which),
{
    assert(votes.push(vote).drop_last() =~= votes);
}

proof fn lemma_has_split_step(votes: Seq<Vote>, i: int)
    requires
        0 <= i < votes.len(),
    ensures
        has_split(votes.take(i + 1)) == (has_split(votes.take(i)) || votes[i].choice is Split),
{
    let longer = votes.take(i + 1);
    let shorter = votes.take(i);
    if has_split(shorter) {
        let j = choose|j: int| 0 <= j < shorter.len() && (#[trigger] shorter[j]).choice is Split;
        assert(longer[j].choice is Split);
    }
    if votes[i].choice is Split {
        assert(longer[i].choice is Split);
    }
    if has_split(longer) {
        let j = choose|j: int| 0 <= j < longer.len() && (#[trigger] longer[j]).choice is Split;
        if j < i {
            assert(shorter[j].choice is Split);
        }
    }
}

/// The sides share the total weight, and the weighted percentages of the split
/// votes stay within one hundred times their weight.
pub proof fn lemma_tally_bounds(votes: Seq<Vote>)
    requires
        votes_valid(votes),
    ensures
        tally(votes, Tally::Buyer) + tally(votes, Tally::Seller) + tally(votes, Tally::Split)
            == tally(votes, Tally::Total),
        tally(votes, Tally::SplitWeighted) <= 100 * tally(votes, Tally::Split),
        has_split(votes) ==> tally(votes, Tally::Split) >= 1,
    decreases votes.len(),
{
    if votes.len() > 0 {
        let earlier = votes.drop_last();
        let vote = votes.last();
        assert(vote_valid(vote));
        assert forall|i: int| 0 <= i < earlier.len() implies vote_valid(#[trigger] earlier[i]) by {
            assert(vote_valid(votes[i]));
        }
        lemma_tally_bounds(earlier);
        if let VoteChoice::Split { seller_percentage } = vote.choice {
            let percentage = seller_percentage as nat;
            let weight = vote.weight as nat;
            assert(percentage * weight <= 100 * weight) by (nonlinear_arith)
                requires
                    percentage <= 100,
            ;
        }
        if has_split(votes) && !(vote.choice is Split) {
            let i = choose|i: int| 0 <= i < votes.len() && (#[trigger] votes[i]).choice is Split;
            assert(earlier[i].choice is Split);
        }
    } else {
        assert(!has_split(votes));
    }
}

/// The outcome of valid votes can be paid out: a split gives the seller at
/// most one hundred percent.
pub proof fn lemma_resolution_is_a_percentage(votes: Seq<Vote>, quorum_percentage: u8)
    requires
        votes_valid(votes),
    ensures
        resolution_of(votes, quorum_percentage) is Split ==> resolution_of(
            votes,
            quorum_percentage,
        )->seller_percentage <= 100,
{
    lemma_tally_bounds(votes);
    if has_split(votes) {
        let weighted = tally(votes, Tally::SplitWeighted);
        let weight = tally(votes, Tally::Split);
        assert(weighted / weight <= 100) by (nonlinear_arith)
            requires
                weight >= 1,
                weighted <= 100 * weight,
        ;
    }
}

/// Where the threshold is more than half of the total weight, the buyer and
/// the seller cannot both reach it. A threshold of half the total or less,
/// which a quorum of fifty percent or less gives and rounding down can give
/// for a higher one, can be reached by both: then the buyer wins.
pub proof fn lemma_at_most_one_side_reaches_a_majority(votes: Seq<Vote>, quorum_percentage: u8)
    requires
        votes_valid(votes),
        2 * quorum_threshold(tally(votes, Tally::Total), quorum_percentage) > tally(
            votes,
            Tally::Total,
        ),
    ensures
        !(tally(votes, Tally::Buyer) >= quorum_threshold(
            tally(votes, Tally::Total),
            quorum_percentage,
        ) && tally(votes, Tally::Seller) >= quorum_threshold(
            tally(votes, Tally::Total),
            quorum_percentage,
        )),
        tally(votes, Tally::Buyer) >= quorum_threshold(tally(votes, Tally::Total), quorum_percentage)
            ==> resolution_of(votes, quorum_percentage) == DisputeResolution::FavorBuyer,
{
    lemma_tally_bounds(votes);
}

/// Calculate the final resolution based on weighted votes.
pub fn calculate_resolution(
    votes: &[Vote],
    quorum_percentage: u8,
) -> (resolution: Result<DisputeResolution, DisputeError>)
    requires
        votes_valid(votes@),
    ensures
        resolution == Ok::<DisputeResolution, DisputeError>(resolution_of(votes@, quorum_percentage)),
{
    let mut total_weight: u128 = 0;
    let mut buyer_weight: u128 = 0;
    let mut seller_weight: u128 = 0;
    let mut split_weight: u128 = 0;
    let mut split_weighted: u128 = 0;
    let mut any_split: bool = false;
    let mut i: usize = 0;
    assert(votes@.take(0) =~= Seq::<Vote>::empty());
    while i < votes.len()
        invariant
            i <= votes.len(),
            votes_valid(votes@),
            total_weight == tally(votes@.take(i as int), Tally::Total),
            buyer_weight == tally(votes@.take(i as int), Tally::Buyer),
            seller_weight == tally(votes@.take(i as int), Tally::Seller),
            split_weight == tally(votes@.take(i as int), Tally::Split),
            split_weighted == tally(votes@.take(i as int), Tally::SplitWeighted),
            any_split == has_split(votes@.take(i as int)),
            total_weight <= 100 * i,
            buyer_weight <= total_weight,
            seller_weight <= total_weight,
            split_weight <= total_weight,
            split_weighted <= 100 * split_weight,
            any_split ==> split_weight >= 1,
        decreases votes.len() - i,
    {
        let vote = &votes[i];
        proof {
            assert(vote_valid(votes@[i as int]));
            lemma_tally_step(votes@, i as int, Tally::Total);
            lemma_tally_step(votes@, i as int, Tally::Buyer);
            lemma_tally_step(votes@, i as int, Tally::Seller);
            lemma_tally_step(votes@, i as int, Tally::Split);
            lemma_tally_step(votes@, i as int, Tally::SplitWeighted);
            lemma_has_split_step(votes@, i as int);
        }
        let weight: u128 = vote.weight as u128;
        total_weight = total_weight + weight;
        match vote.choice {
            VoteChoice::FavorBuyer => {
                buyer_weight = buyer_weight + weight;
            },
            VoteChoice::FavorSeller => {
                seller_weight = seller_weight + weight;
            },
            VoteChoice::Split { seller_percentage } => {
                let percentage: u128 = seller_percentage as u128;
                assert(percentage * weight <= 100 * weight) by (nonlinear_arith)
                    requires
                        percentage <= 100,
                        weight >= 0,
                ;
                split_weight = split_weight + weight;
                split_weighted = split_weighted + percentage * weight;
                any_split = true;
            },
        }
        i = i + 1;
    }
    assert(votes@.take(i as int) =~= votes@);
    let quorum: u128 = quorum_percentage as u128;
    assert(total_weight * quorum <= 100 * i * 255) by (nonlinear_arith)
        requires
            total_weight <= 100 * i,
            quorum <= 255,
            0 <= total_weight,
    ;
    let quorum_threshold: u128 = total_weight * quorum / 100;
    if buyer_weight >= quorum_threshold {
        return Ok(DisputeResolution::FavorBuyer);
    }
    if seller_weight >= quorum_threshold {
        return Ok(DisputeResolution::FavorSeller);
    }
    if any_split {
        let average: u128 = split_weighted / split_weight;
        assert(average <= 100) by (nonlinear_arith)
            requires
                average == split_weighted / split_weight,
                split_weight >= 1,
                split_weighted <= 100 * split_weight,
        ;
        return Ok(DisputeResolution::Split { seller_percentage: average as u8 });
    }
    Ok(DisputeResolution::Split { seller_percentage: DEFAULT_SPLIT_PERCENTAGE })
}

} // verus!
