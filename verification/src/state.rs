//! The data model: participant identities, the proposition aggregate, and
//! the per-participant ledger records.

use vstd::prelude::*;

verus! {

/// A participant identity: an opaque 256-bit key, held as four 64-bit words.
/// The core only ever compares identities for equality.
#[derive(Clone, Copy, Debug, PartialEq, Eq, Structural)]
pub struct AccountId {
    pub w0: u64,
    pub w1: u64,
    pub w2: u64,
    pub w3: u64,
}

/// The side a bet backs: that the commitment will be fulfilled, or that it
/// will not.
#[derive(Clone, Copy, Debug, PartialEq, Eq, Structural)]
pub enum BetType {
    WillDo,
    WontDo,
}

/// The proposition aggregate ("dare"): pool totals, deadline, and the
/// one-way settlement latches. One per wager topic.
pub struct Dare {
    /// Who created the proposition; may claim the creator fee.
    pub creator: AccountId,
    /// Who may select winners. Set equal to `creator` at creation.
    pub platform_authority: AccountId,
    /// Short descriptive title, at most 64 characters.
    pub title: String,
    /// Longer description, at most 256 characters.
    pub description: String,
    /// Absolute timestamp after which the proposition is settleable.
    pub deadline: i64,
    /// The smallest stake a bet may place.
    pub min_bet: u64,
    /// Sum of all live stakes; always `will_do_pool + wont_do_pool`.
    pub total_pool: u64,
    /// Sum of live stakes backing fulfilment.
    pub will_do_pool: u64,
    /// Sum of live stakes backing non-fulfilment.
    pub wont_do_pool: u64,
    /// Latched true when winners are selected before settlement.
    pub is_completed: bool,
    /// Latched true when the deadline passed without winner selection and a
    /// claim observed it, or by a recovery drain.
    pub is_expired: bool,
    /// How many proofs have been submitted.
    pub submission_count: u32,
    /// Latched true once the authority has selected winners.
    pub winners_selected: bool,
    /// The first-place submitter, once selected.
    pub first_place_winner: Option<AccountId>,
    /// The second-place submitter, once selected.
    pub second_place_winner: Option<AccountId>,
    /// The third-place submitter, once selected.
    pub third_place_winner: Option<AccountId>,
    /// Latched true once the first-place reward is claimed.
    pub first_place_claimed: bool,
    /// Latched true once the second-place reward is claimed.
    pub second_place_claimed: bool,
    /// Latched true once the third-place reward is claimed.
    pub third_place_claimed: bool,
    /// Latched true once the creator fee is claimed.
    pub creator_fee_claimed: bool,
}

impl Dare {
    /// The pool-accounting invariant: the total pool is exactly the sum of
    /// the two side pools. Creation establishes it and every operation
    /// preserves it.
    pub open spec fn wf(self) -> bool {
        self.total_pool == self.will_do_pool + self.wont_do_pool
    }
}

/// One ledger entry per (proposition, bettor) pair: the participant's stake
/// and its claim latch.
pub struct Bet {
    /// The proposition this stake backs (lookup reference).
    pub dare: AccountId,
    /// Who placed the stake; the only identity that may be paid for it.
    pub bettor: AccountId,
    /// The staked amount.
    pub amount: u64,
    /// The side the stake backs.
    pub bet_type: BetType,
    /// When the bet was placed; opens the early cash-out window.
    pub bet_timestamp: i64,
    /// Latched true by the one successful claim or cash-out.
    pub is_claimed: bool,
}

/// One registry entry per submitted proof of completion: submission
/// metadata, approval and ranking state, and the reward-claim latch.
pub struct ProofSubmission {
    /// The proposition the proof is for (lookup reference).
    pub dare: AccountId,
    /// Who submitted the proof; the only identity that may claim its reward.
    pub submitter: AccountId,
    /// Content hash of the evidence, at most 64 characters.
    pub proof_hash: String,
    /// Description of the evidence, at most 256 characters.
    pub proof_description: String,
    /// When the proof was submitted.
    pub submission_timestamp: i64,
    /// Whether the authority approved the proof (unused by settlement).
    pub is_approved: bool,
    /// Who approved it (unused by settlement).
    pub approved_by: AccountId,
    /// When it was approved (unused by settlement).
    pub approval_timestamp: i64,
    /// Advisory social signal; not part of settlement.
    pub likes_count: u32,
    /// Whether this submission was ranked a winner.
    pub is_winner: bool,
    /// The rank it won: 1, 2 or 3; 0 when not a winner.
    pub winner_rank: u8,
    /// Latched true by the one successful reward claim.
    pub reward_claimed: bool,
}

/// A proof of completion carried as a plain value rather than a stored
/// registry entry.
#[derive(Clone)]
pub struct CompletionProof {
    pub submitter: AccountId,
    pub proof_hash: String,
    pub proof_description: String,
    pub timestamp: i64,
    pub is_approved: bool,
    pub approved_by: Option<AccountId>,
    pub approval_timestamp: Option<i64>,
}

} // verus!
