//! Proposition lifecycle: creation, bet placement, proof submission, winner
//! selection, and the advisory social signal.
//!
//! Each operation is the decision-and-accounting half of one transaction:
//! the host checks signatures, moves value, and persists the records; these
//! functions take the current time and the records as plain values, decide,
//! and report exactly what changed.

use vstd::prelude::*;

use crate::errors::ErrorCode;
use crate::state::{AccountId, Bet, BetType, Dare, ProofSubmission};

verus! {

/// Initializes a fresh proposition: empty pools, cleared latches, no
/// winners, and the creator doubling as platform authority.
pub fn create_dare(
    creator: AccountId,
    title: String,
    description: String,
    deadline: i64,
    min_bet: u64,
) -> (dare: Dare)
    requires
        title@.len() <= 64,
        description@.len() <= 256,
    ensures
        dare == (Dare {
            creator,
            platform_authority: creator,
            title,
            description,
            deadline,
            min_bet,
            total_pool: 0u64,
            will_do_pool: 0u64,
            wont_do_pool: 0u64,
            is_completed: false,
            is_expired: false,
            submission_count: 0u32,
            winners_selected: false,
            first_place_winner: None::<AccountId>,
            second_place_winner: None::<AccountId>,
            third_place_winner: None::<AccountId>,
            first_place_claimed: false,
            second_place_claimed: false,
            third_place_claimed: false,
            creator_fee_claimed: false,
        }),
        dare.wf(),
{
    Dare {
        creator,
        platform_authority: creator,
        title,
        description,
        deadline,
        min_bet,
        total_pool: 0,
        will_do_pool: 0,
        wont_do_pool: 0,
        is_completed: false,
        is_expired: false,
        submission_count: 0,
        winners_selected: false,
        first_place_winner: None,
        second_place_winner: None,
        third_place_winner: None,
        first_place_claimed: false,
        second_place_claimed: false,
        third_place_claimed: false,
        creator_fee_claimed: false,
    }
}

/// Whether a stake may join the pool: it meets the minimum, the deadline has
/// not passed, and the proposition is not completed.
pub open spec fn bet_accepted(dare: Dare, amount: u64, now: i64) -> bool {
    &&& amount >= dare.min_bet
    &&& now < dare.deadline
    &&& !dare.is_completed
}

/// Accounts for one new stake: adds `amount` to the total pool and to the
/// chosen side's pool, and returns the ledger entry for the deposit the host
/// moved into escrow atomically with this call.
pub fn place_bet(
    dare: &mut Dare,
    dare_key: AccountId,
    bettor: AccountId,
    amount: u64,
    bet_type: BetType,
    now: i64,
) -> (r: Result<Bet, ErrorCode>)
    requires
        old(dare).wf(),
        bet_accepted(*old(dare), amount, now) ==> old(dare).total_pool + amount <= u64::MAX,
    ensures
        final(dare).wf(),
        // rejections, in the order they are checked, leave the record unchanged
        amount < old(dare).min_bet ==> r == Err::<Bet, ErrorCode>(ErrorCode::BetTooLow),
        amount >= old(dare).min_bet && now >= old(dare).deadline ==> r == Err::<Bet, ErrorCode>(
            ErrorCode::DareExpired,
        ),
        amount >= old(dare).min_bet && now < old(dare).deadline && old(dare).is_completed ==> r
            == Err::<Bet, ErrorCode>(ErrorCode::DareAlreadyCompleted),
        r is Err ==> *final(dare) == *old(dare),
        // an accepted stake grows exactly its side of the pool
        bet_accepted(*old(dare), amount, now) ==> {
            &&& bet_type == BetType::WillDo ==> *final(dare) == (Dare {
                total_pool: (old(dare).total_pool + amount) as u64,
                will_do_pool: (old(dare).will_do_pool + amount) as u64,
                ..*old(dare)
            })
            &&& bet_type == BetType::WontDo ==> *final(dare) == (Dare {
                total_pool: (old(dare).total_pool + amount) as u64,
                wont_do_pool: (old(dare).wont_do_pool + amount) as u64,
                ..*old(dare)
            })
            &&& r == Ok::<Bet, ErrorCode>(Bet {
                dare: dare_key,
                bettor,
                amount,
                bet_type,
                bet_timestamp: now,
                is_claimed: false,
            })
        },
{
    if amount < dare.min_bet {
        return Err(ErrorCode::BetTooLow);
    }
    if now >= dare.deadline {
        return Err(ErrorCode::DareExpired);
    }
    if dare.is_completed {
        return Err(ErrorCode::DareAlreadyCompleted);
    }
    dare.total_pool = dare.total_pool + amount;
    match bet_type {
        BetType::WillDo => {
            dare.will_do_pool = dare.will_do_pool + amount;
        },
        BetType::WontDo => {
            dare.wont_do_pool = dare.wont_do_pool + amount;
        },
    }
    Ok(
        Bet {
            dare: dare_key,
            bettor,
            amount,
            bet_type,
            bet_timestamp: now,
            is_claimed: false,
        },
    )
}


/// Whether a proof may still be submitted: before the deadline, on a
/// proposition neither completed nor expired.
pub open spec fn proof_accepted(dare: Dare, now: i64) -> bool {
    &&& now < dare.deadline
    &&& !dare.is_completed
    &&& !dare.is_expired
}

/// Registers one proof of completion: increments the proposition's
/// submission counter and returns the fresh registry entry, unapproved,
/// unranked and unclaimed.
pub fn submit_proof(
    dare: &mut Dare,
    dare_key: AccountId,
    submitter: AccountId,
    proof_hash: String,
    proof_description: String,
    now: i64,
) -> (r: Result<ProofSubmission, ErrorCode>)
    requires
        proof_hash@.len() <= 64,
        proof_description@.len() <= 256,
        proof_accepted(*old(dare), now) ==> old(dare).submission_count < u32::MAX,
    ensures
        // rejections, in the order they are checked, leave the record unchanged
        now >= old(dare).deadline ==> r == Err::<ProofSubmission, ErrorCode>(
            ErrorCode::DareExpired,
        ),
        now < old(dare).deadline && old(dare).is_completed ==> r == Err::<
            ProofSubmission,
            ErrorCode,
        >(ErrorCode::DareAlreadyCompleted),
        now < old(dare).deadline && !old(dare).is_completed && old(dare).is_expired ==> r == Err::<
            ProofSubmission,
            ErrorCode,
        >(ErrorCode::DareExpired),
        r is Err ==> *final(dare) == *old(dare),
        old(dare).wf() ==> final(dare).wf(),
        // an accepted proof only bumps the submission counter
        proof_accepted(*old(dare), now) ==> {
            &&& *final(dare) == (Dare {
                submission_count: (old(dare).submission_count + 1) as u32,
                ..*old(dare)
            })
            &&& r == Ok::<ProofSubmission, ErrorCode>(ProofSubmission {
                dare: dare_key,
                submitter,
                proof_hash,
                proof_description,
                submission_timestamp: now,
                is_approved: false,
                approved_by: AccountId { w0: 0u64, w1: 0u64, w2: 0u64, w3: 0u64 },
                approval_timestamp: 0i64,
                likes_count: 0u32,
                is_winner: false,
                winner_rank: 0u8,
                reward_claimed: false,
            })
        },
{
    if now >= dare.deadline {
        return Err(ErrorCode::DareExpired);
    }
    if dare.is_completed {
        return Err(ErrorCode::DareAlreadyCompleted);
    }
    if dare.is_expired {
        return Err(ErrorCode::DareExpired);
    }
    dare.submission_count = dare.submission_count + 1;
    Ok(
        ProofSubmission {
            dare: dare_key,
            submitter,
            proof_hash,
            proof_description,
            submission_timestamp: now,
            is_approved: false,
            approved_by: AccountId { w0: 0, w1: 0, w2: 0, w3: 0 },
            approval_timestamp: 0,
            likes_count: 0,
            is_winner: false,
            winner_rank: 0,
            reward_claimed: false,
        },
    )
}

/// Whether winners may be selected: only by the platform authority, only
/// once the deadline has passed, and only once.
pub open spec fn winners_selectable(dare: Dare, caller: AccountId, now: i64) -> bool {
    &&& caller == dare.platform_authority
    &&& now >= dare.deadline
    &&& !dare.winners_selected
}

/// Records the three ranked winners and latches the proposition completed.
/// The winner slots are immutable from here on. The corresponding registry
/// entries are not touched: marking them ranked winners is the authority's
/// separate responsibility.
pub fn select_winners(
    dare: &mut Dare,
    caller: AccountId,
    first_place: AccountId,
    second_place: AccountId,
    third_place: AccountId,
    now: i64,
) -> (r: Result<(), ErrorCode>)
    ensures
        // rejections, in the order they are checked, leave the record unchanged
        caller != old(dare).platform_authority ==> r == Err::<(), ErrorCode>(
            ErrorCode::Unauthorized,
        ),
        caller == old(dare).platform_authority && now < old(dare).deadline ==> r == Err::<
            (),
            ErrorCode,
        >(ErrorCode::DareNotFinalized),
        caller == old(dare).platform_authority && now >= old(dare).deadline && old(
            dare,
        ).winners_selected ==> r == Err::<(), ErrorCode>(ErrorCode::WinnersAlreadySelected),
        r is Err ==> *final(dare) == *old(dare),
        // the selection latch moves false to true exactly on success, never back
        final(dare).winners_selected == (old(dare).winners_selected || r is Ok),
        old(dare).wf() ==> final(dare).wf(),
        // the one successful selection fills the slots and completes the dare
        winners_selectable(*old(dare), caller, now) ==> {
            &&& r == Ok::<(), ErrorCode>(())
            &&& *final(dare) == (Dare {
                first_place_winner: Some(first_place),
                second_place_winner: Some(second_place),
                third_place_winner: Some(third_place),
                winners_selected: true,
                is_completed: true,
                ..*old(dare)
            })
        },
{
    if caller != dare.platform_authority {
        return Err(ErrorCode::Unauthorized);
    }
    if now < dare.deadline {
        return Err(ErrorCode::DareNotFinalized);
    }
    if dare.winners_selected {
        return Err(ErrorCode::WinnersAlreadySelected);
    }
    dare.first_place_winner = Some(first_place);
    dare.second_place_winner = Some(second_place);
    dare.third_place_winner = Some(third_place);
    dare.winners_selected = true;
    dare.is_completed = true;
    Ok(())
}

/// Bumps a submission's advisory like counter. Purely social metadata: no
/// authorization, no effect on settlement.
pub fn like_proof_submission(submission: &mut ProofSubmission)
    requires
        old(submission).likes_count < u32::MAX,
    ensures
        *final(submission) == (ProofSubmission {
            likes_count: (old(submission).likes_count + 1) as u32,
            ..*old(submission)
        }),
{
    submission.likes_count = submission.likes_count + 1;
}

} // verus!
