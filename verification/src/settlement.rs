//! The settlement engine: the payout formulas and the claim operations that
//! apply them, each gated by one-way latches so that no entry is ever paid
//! twice.
//!
//! All splits are integer percentages with truncation. The creator fee is 2%
//! of the total pool; everything else is paid out of the remainder, the
//! available pool. A proposition completed with winners reserves 50% of the
//! available pool for ranked submitters (30% + 15% + 5%) and shares the other
//! half among WillDo bettors pro rata; an expired proposition shares the
//! whole available pool among WontDo bettors pro rata.

use vstd::prelude::*;

use crate::errors::ErrorCode;
use crate::state::{AccountId, Bet, BetType, Dare, ProofSubmission};

verus! {

/// The creator's one-time fee: 2% of the total pool, truncated.
pub open spec fn creator_fee_of(total_pool: u64) -> int {
    total_pool * 2 / 100
}

/// What remains for settlement once the creator fee is set aside.
pub open spec fn available_pool_of(total_pool: u64) -> int {
    total_pool - creator_fee_of(total_pool)
}

/// The half of the available pool reserved for ranked winner rewards.
pub open spec fn winner_reserve_of(total_pool: u64) -> int {
    available_pool_of(total_pool) * 50 / 100
}

/// The part of the available pool shared among winning-side bettors when the
/// proposition completed with winners.
pub open spec fn bettor_share_pool_of(total_pool: u64) -> int {
    available_pool_of(total_pool) - winner_reserve_of(total_pool)
}

/// A WillDo bettor's pro-rata payout when the proposition completed with
/// winners: their stake's share of the bettor pool against the WillDo side's
/// total stake.
pub open spec fn completed_bettor_payout(amount: u64, total_pool: u64, will_do_pool: u64) -> int
    recommends
        will_do_pool > 0,
{
    amount * bettor_share_pool_of(total_pool) / (will_do_pool as int)
}

/// A WontDo bettor's pro-rata payout when the proposition expired: their
/// stake's share of the entire available pool against the WontDo side's
/// total stake.
pub open spec fn expired_bettor_payout(amount: u64, total_pool: u64, wont_do_pool: u64) -> int
    recommends
        wont_do_pool > 0,
{
    amount * available_pool_of(total_pool) / (wont_do_pool as int)
}

/// The percentage of the available pool a ranked submitter is owed: 30% for
/// first place, 15% for second, 5% for third, nothing for any other rank.
pub open spec fn rank_percentage(rank: u8) -> int {
    if rank == 1 {
        30
    } else if rank == 2 {
        15
    } else if rank == 3 {
        5
    } else {
        0
    }
}

/// A ranked submitter's reward: their rank's percentage of the available
/// pool, truncated.
pub open spec fn winner_reward_of(total_pool: u64, rank: u8) -> int {
    available_pool_of(total_pool) * rank_percentage(rank) / 100
}

/// The early cash-out penalty: 10% of the stake, truncated; it stays in the
/// escrow as a structural disincentive.
pub open spec fn cash_out_penalty(amount: u64) -> int {
    amount * 10 / 100
}

/// What an early cash-out pays back: the stake less the penalty.
pub open spec fn cash_out_payout(amount: u64) -> int {
    amount - cash_out_penalty(amount)
}

/// The fee never exceeds the pool it is taken from, so the available pool is
/// never negative.
pub proof fn lemma_fee_le_total(total_pool: u64)
    ensures
        0 <= creator_fee_of(total_pool) <= total_pool,
{
    vstd::arithmetic::div_mod::lemma_div_pos_is_pos(total_pool * 2, 100);
    vstd::arithmetic::div_mod::lemma_div_is_ordered_by_denominator(total_pool * 2, 2, 100);
    vstd::arithmetic::div_mod::lemma_div_by_multiple(total_pool as int, 2);
}

/// The winner reserve never exceeds the available pool it is carved from.
pub proof fn lemma_reserve_le_available(total_pool: u64)
    ensures
        0 <= winner_reserve_of(total_pool) <= available_pool_of(total_pool),
{
    lemma_fee_le_total(total_pool);
    let a = available_pool_of(total_pool);
    vstd::arithmetic::div_mod::lemma_div_pos_is_pos(a * 50, 100);
    vstd::arithmetic::div_mod::lemma_div_is_ordered_by_denominator(a * 50, 50, 100);
    vstd::arithmetic::div_mod::lemma_div_by_multiple(a, 50);
}

/// The cash-out penalty never exceeds the stake, so the payout is never
/// negative.
pub proof fn lemma_penalty_le_amount(amount: u64)
    ensures
        0 <= cash_out_penalty(amount) <= amount,
{
    vstd::arithmetic::div_mod::lemma_div_pos_is_pos(amount * 10, 100);
    vstd::arithmetic::div_mod::lemma_div_is_ordered_by_denominator(amount * 10, 10, 100);
    vstd::arithmetic::div_mod::lemma_div_by_multiple(amount as int, 10);
}

/// Whether the creator fee may be taken: its latch is clear and the
/// proposition is settleable (completed, or past its deadline).
pub open spec fn creator_fee_claimable(dare: Dare, caller: AccountId, now: i64) -> bool {
    &&& caller == dare.creator
    &&& !dare.creator_fee_claimed
    &&& (dare.is_completed || now >= dare.deadline)
}

/// Pays the creator their one-time 2% fee and latches it. Returns the amount
/// the host must transfer out of escrow; the pool counters are not reduced,
/// as every payout formula already works net of this fee.
pub fn claim_creator_fee(dare: &mut Dare, caller: AccountId, now: i64) -> (r: Result<
    u64,
    ErrorCode,
>)
    requires
        old(dare).total_pool * 2 <= u64::MAX,
    ensures
        // rejections, in the order they are checked, leave the record unchanged
        caller != old(dare).creator ==> r == Err::<u64, ErrorCode>(ErrorCode::Unauthorized),
        caller == old(dare).creator && old(dare).creator_fee_claimed ==> r == Err::<u64, ErrorCode>(
            ErrorCode::CreatorFeeAlreadyClaimed,
        ),
        caller == old(dare).creator && !old(dare).creator_fee_claimed && !(old(dare).is_completed
            || now >= old(dare).deadline) ==> r == Err::<u64, ErrorCode>(
            ErrorCode::DareNotFinalized,
        ),
        r is Err ==> *final(dare) == *old(dare),
        // the fee latch moves false to true exactly on success, never back
        final(dare).creator_fee_claimed == (old(dare).creator_fee_claimed || r is Ok),
        old(dare).wf() ==> final(dare).wf(),
        // the successful claim pays exactly the fee and latches it
        creator_fee_claimable(*old(dare), caller, now) ==> {
            &&& r == Ok::<u64, ErrorCode>(creator_fee_of(old(dare).total_pool) as u64)
            &&& *final(dare) == (Dare { creator_fee_claimed: true, ..*old(dare) })
        },
{
    if caller != dare.creator {
        return Err(ErrorCode::Unauthorized);
    }
    if dare.creator_fee_claimed {
        return Err(ErrorCode::CreatorFeeAlreadyClaimed);
    }
    if !(dare.is_completed || now >= dare.deadline) {
        return Err(ErrorCode::DareNotFinalized);
    }
    let creator_fee: u64 = dare.total_pool * 2 / 100;
    dare.creator_fee_claimed = true;
    Ok(creator_fee)
}

/// Whether a bet may still be cashed out early: unclaimed, the proposition
/// neither completed nor past its deadline, and within the fixed 600-time-
/// unit window after this bet's own placement.
pub open spec fn cash_out_open(dare: Dare, bet: Bet, now: i64) -> bool {
    &&& !bet.is_claimed
    &&& !dare.is_completed
    &&& now < dare.deadline
    &&& now - bet.bet_timestamp <= 600
}

/// Reverses a bet within its early cash-out window: the full stake leaves
/// the total pool and its side pool, the entry latches claimed, and the host
/// transfers back the stake less the 10% penalty, which stays in escrow.
pub fn cash_out_early(dare: &mut Dare, bet: &mut Bet, now: i64) -> (r: Result<u64, ErrorCode>)
    requires
        old(dare).wf(),
        // the difference the window check takes must fit the time type
        !old(bet).is_claimed && !old(dare).is_completed && now < old(dare).deadline ==> i64::MIN
            <= now - old(bet).bet_timestamp <= i64::MAX,
        cash_out_open(*old(dare), *old(bet), now) ==> {
            &&& old(bet).amount * 10 <= u64::MAX
            // an unclaimed bet's stake is counted in its side's pool
            &&& (old(bet).bet_type == BetType::WillDo ==> old(dare).will_do_pool >= old(
                bet,
            ).amount)
            &&& (old(bet).bet_type == BetType::WontDo ==> old(dare).wont_do_pool >= old(
                bet,
            ).amount)
        },
    ensures
        final(dare).wf(),
        // rejections, in the order they are checked, leave the records unchanged
        old(bet).is_claimed ==> r == Err::<u64, ErrorCode>(ErrorCode::AlreadyClaimed),
        !old(bet).is_claimed && old(dare).is_completed ==> r == Err::<u64, ErrorCode>(
            ErrorCode::DareAlreadyCompleted,
        ),
        !old(bet).is_claimed && !old(dare).is_completed && now >= old(dare).deadline ==> r
            == Err::<u64, ErrorCode>(ErrorCode::DareExpired),
        !old(bet).is_claimed && !old(dare).is_completed && now < old(dare).deadline && now - old(
            bet,
        ).bet_timestamp > 600 ==> r == Err::<u64, ErrorCode>(ErrorCode::CashOutTooLate),
        r is Err ==> *final(dare) == *old(dare) && *final(bet) == *old(bet),
        // the claim latch moves false to true exactly on success, never back
        final(bet).is_claimed == (old(bet).is_claimed || r is Ok),
        // the successful cash-out removes the full stake from the pool, pays
        // the stake less the penalty, and latches the entry
        cash_out_open(*old(dare), *old(bet), now) ==> {
            &&& r == Ok::<u64, ErrorCode>(cash_out_payout(old(bet).amount) as u64)
            &&& *final(bet) == (Bet { is_claimed: true, ..*old(bet) })
            &&& old(bet).bet_type == BetType::WillDo ==> *final(dare) == (Dare {
                total_pool: (old(dare).total_pool - old(bet).amount) as u64,
                will_do_pool: (old(dare).will_do_pool - old(bet).amount) as u64,
                ..*old(dare)
            })
            &&& old(bet).bet_type == BetType::WontDo ==> *final(dare) == (Dare {
                total_pool: (old(dare).total_pool - old(bet).amount) as u64,
                wont_do_pool: (old(dare).wont_do_pool - old(bet).amount) as u64,
                ..*old(dare)
            })
        },
{
    if bet.is_claimed {
        return Err(ErrorCode::AlreadyClaimed);
    }
    if dare.is_completed {
        return Err(ErrorCode::DareAlreadyCompleted);
    }
    if now >= dare.deadline {
        return Err(ErrorCode::DareExpired);
    }
    let time_since_bet: i64 = now - bet.bet_timestamp;
    if time_since_bet > 600 {
        return Err(ErrorCode::CashOutTooLate);
    }
    proof {
        lemma_penalty_le_amount(bet.amount);
    }
    let penalty: u64 = bet.amount * 10 / 100;
    let cash_out_amount: u64 = bet.amount - penalty;
    match bet.bet_type {
        BetType::WillDo => {
            dare.will_do_pool = dare.will_do_pool - bet.amount;
        },
        BetType::WontDo => {
            dare.wont_do_pool = dare.wont_do_pool - bet.amount;
        },
    }
    dare.total_pool = dare.total_pool - bet.amount;
    bet.is_claimed = true;
    Ok(cash_out_amount)
}


/// Whether a bettor's claim pays out under the completed-with-winners path.
pub open spec fn winnings_claimable(dare: Dare, bet: Bet) -> bool {
    &&& !bet.is_claimed
    &&& dare.is_completed
    &&& dare.winners_selected
}

/// Settles one bet. If the proposition completed with selected winners, a
/// WillDo bettor receives their pro-rata share of the bettor half of the
/// available pool. Otherwise, once the deadline has passed, a WontDo bettor
/// receives their pro-rata share of the whole available pool, and the paying
/// claim also latches the proposition expired. A zero payout is rejected,
/// not paid, and like every rejection leaves all state untouched; a
/// successful claim latches the entry, and the host transfers the returned
/// amount out of escrow.
pub fn claim_winnings(dare: &mut Dare, bet: &mut Bet, now: i64) -> (r: Result<u64, ErrorCode>)
    requires
        old(dare).wf(),
        // machine limits on the intermediate products, per branch
        !old(bet).is_claimed ==> old(dare).total_pool * 2 <= u64::MAX,
        !old(bet).is_claimed && old(dare).is_completed && old(dare).winners_selected ==> {
            &&& available_pool_of(old(dare).total_pool) * 50 <= u64::MAX
            &&& old(bet).amount * bettor_share_pool_of(old(dare).total_pool) <= u64::MAX
        },
        !old(bet).is_claimed && !(old(dare).is_completed && old(dare).winners_selected) ==> old(
            bet,
        ).amount * available_pool_of(old(dare).total_pool) <= u64::MAX,
    ensures
        final(dare).wf(),
        // a latched entry is rejected and nothing moves
        old(bet).is_claimed ==> r == Err::<u64, ErrorCode>(ErrorCode::AlreadyClaimed),
        r is Err ==> *final(dare) == *old(dare) && *final(bet) == *old(bet),
        // the claim latch moves false to true exactly on success, never back
        final(bet).is_claimed == (old(bet).is_claimed || r is Ok),
        // completed with winners: only WillDo bettors are owed a share
        !old(bet).is_claimed && old(dare).is_completed && old(dare).winners_selected ==> {
            let payout = if old(bet).bet_type == BetType::WillDo && old(dare).will_do_pool > 0 {
                completed_bettor_payout(old(bet).amount, old(dare).total_pool, old(dare).will_do_pool)
            } else {
                0
            };
            &&& payout > 0 ==> {
                &&& r == Ok::<u64, ErrorCode>(payout as u64)
                &&& *final(dare) == *old(dare)
                &&& *final(bet) == (Bet { is_claimed: true, ..*old(bet) })
            }
            &&& payout == 0 ==> r == Err::<u64, ErrorCode>(ErrorCode::NoPayout)
        },
        // past the deadline without winners: the proposition expires and only
        // WontDo bettors are owed a share
        !old(bet).is_claimed && !(old(dare).is_completed && old(dare).winners_selected) && now
            >= old(dare).deadline ==> {
            let payout = if old(bet).bet_type == BetType::WontDo && old(dare).wont_do_pool > 0 {
                expired_bettor_payout(old(bet).amount, old(dare).total_pool, old(dare).wont_do_pool)
            } else {
                0
            };
            &&& payout > 0 ==> {
                &&& r == Ok::<u64, ErrorCode>(payout as u64)
                &&& *final(dare) == (Dare { is_expired: true, ..*old(dare) })
                &&& *final(bet) == (Bet { is_claimed: true, ..*old(bet) })
            }
            &&& payout == 0 ==> r == Err::<u64, ErrorCode>(ErrorCode::NoPayout)
        },
        // before the deadline without winners: not yet settleable
        !old(bet).is_claimed && !(old(dare).is_completed && old(dare).winners_selected) && now
            < old(dare).deadline ==> r == Err::<u64, ErrorCode>(ErrorCode::DareNotFinalized),
{
    if bet.is_claimed {
        return Err(ErrorCode::AlreadyClaimed);
    }
    proof {
        lemma_fee_le_total(dare.total_pool);
    }
    let creator_fee: u64 = dare.total_pool * 2 / 100;
    let available_pool: u64 = dare.total_pool - creator_fee;
    if dare.is_completed && dare.winners_selected {
        let mut payout: u64 = 0;
        if bet.bet_type == BetType::WillDo && dare.will_do_pool > 0 {
            proof {
                lemma_reserve_le_available(dare.total_pool);
            }
            let winner_rewards_total: u64 = available_pool * 50 / 100;
            let remaining_pool: u64 = available_pool - winner_rewards_total;
            proof {
                vstd::arithmetic::mul::lemma_mul_inequality(
                    remaining_pool as int,
                    available_pool as int,
                    bet.amount as int,
                );
                vstd::arithmetic::mul::lemma_mul_is_commutative(
                    remaining_pool as int,
                    bet.amount as int,
                );
                vstd::arithmetic::mul::lemma_mul_is_commutative(
                    available_pool as int,
                    bet.amount as int,
                );
            }
            payout = bet.amount * remaining_pool / dare.will_do_pool;
        }
        if payout == 0 {
            return Err(ErrorCode::NoPayout);
        }
        bet.is_claimed = true;
        Ok(payout)
    } else if now >= dare.deadline {
        let mut payout: u64 = 0;
        if bet.bet_type == BetType::WontDo && dare.wont_do_pool > 0 {
            payout = bet.amount * available_pool / dare.wont_do_pool;
        }
        if payout == 0 {
            return Err(ErrorCode::NoPayout);
        }
        dare.is_expired = true;
        bet.is_claimed = true;
        Ok(payout)
    } else {
        Err(ErrorCode::DareNotFinalized)
    }
}

/// Whether a submission's ranked reward may be claimed: the proposition
/// completed with selected winners, the entry is an unclaimed winner with a
/// valid rank, and the caller is its submitter.
pub open spec fn winner_reward_claimable(
    dare: Dare,
    submission: ProofSubmission,
    caller: AccountId,
) -> bool {
    &&& dare.is_completed
    &&& dare.winners_selected
    &&& !submission.reward_claimed
    &&& submission.is_winner
    &&& submission.submitter == caller
    &&& 1 <= submission.winner_rank <= 3
}

/// Pays a ranked submitter their fixed percentage of the available pool,
/// latches the entry's reward claim, and records the rank as claimed on the
/// proposition. The host transfers the returned amount out of escrow; the
/// amount may be zero for a tiny pool, and is still paid.
pub fn claim_winner_reward(
    dare: &mut Dare,
    submission: &mut ProofSubmission,
    caller: AccountId,
) -> (r: Result<u64, ErrorCode>)
    requires
        // machine limits on the intermediate products, where they are reached
        old(dare).is_completed && old(dare).winners_selected && !old(submission).reward_claimed
            && old(submission).is_winner && old(submission).submitter == caller ==> old(
            dare,
        ).total_pool * 2 <= u64::MAX,
        winner_reward_claimable(*old(dare), *old(submission), caller) ==> available_pool_of(
            old(dare).total_pool,
        ) * rank_percentage(old(submission).winner_rank) <= u64::MAX,
    ensures
        // rejections, in the order they are checked, leave the records unchanged
        !old(dare).is_completed ==> r == Err::<u64, ErrorCode>(ErrorCode::DareNotCompleted),
        old(dare).is_completed && !old(dare).winners_selected ==> r == Err::<u64, ErrorCode>(
            ErrorCode::DareNotFinalized,
        ),
        old(dare).is_completed && old(dare).winners_selected && old(submission).reward_claimed
            ==> r == Err::<u64, ErrorCode>(ErrorCode::AlreadyClaimed),
        old(dare).is_completed && old(dare).winners_selected && !old(submission).reward_claimed
            && !old(submission).is_winner ==> r == Err::<u64, ErrorCode>(ErrorCode::NotSubmitter),
        old(dare).is_completed && old(dare).winners_selected && !old(submission).reward_claimed
            && old(submission).is_winner && old(submission).submitter != caller ==> r
            == Err::<u64, ErrorCode>(ErrorCode::NotSubmitter),
        old(dare).is_completed && old(dare).winners_selected && !old(submission).reward_claimed
            && old(submission).is_winner && old(submission).submitter == caller && !(1 <= old(
            submission,
        ).winner_rank <= 3) ==> r == Err::<u64, ErrorCode>(ErrorCode::InvalidWinnerRank),
        r is Err ==> *final(dare) == *old(dare) && *final(submission) == *old(submission),
        // the reward latch moves false to true exactly on success, never back
        final(submission).reward_claimed == (old(submission).reward_claimed || r is Ok),
        old(dare).wf() ==> final(dare).wf(),
        // the successful claim pays the rank's percentage and latches both
        // the entry and the proposition's per-rank flag
        winner_reward_claimable(*old(dare), *old(submission), caller) ==> {
            &&& r == Ok::<u64, ErrorCode>(
                winner_reward_of(old(dare).total_pool, old(submission).winner_rank) as u64,
            )
            &&& *final(submission) == (ProofSubmission { reward_claimed: true, ..*old(submission) })
            &&& old(submission).winner_rank == 1 ==> *final(dare) == (Dare {
                first_place_claimed: true,
                ..*old(dare)
            })
            &&& old(submission).winner_rank == 2 ==> *final(dare) == (Dare {
                second_place_claimed: true,
                ..*old(dare)
            })
            &&& old(submission).winner_rank == 3 ==> *final(dare) == (Dare {
                third_place_claimed: true,
                ..*old(dare)
            })
        },
{
    if !dare.is_completed {
        return Err(ErrorCode::DareNotCompleted);
    }
    if !dare.winners_selected {
        return Err(ErrorCode::DareNotFinalized);
    }
    if submission.reward_claimed {
        return Err(ErrorCode::AlreadyClaimed);
    }
    if !submission.is_winner {
        return Err(ErrorCode::NotSubmitter);
    }
    if submission.submitter != caller {
        return Err(ErrorCode::NotSubmitter);
    }
    proof {
        lemma_fee_le_total(dare.total_pool);
    }
    let creator_fee: u64 = dare.total_pool * 2 / 100;
    let available_pool: u64 = dare.total_pool - creator_fee;
    let reward_percentage: u64 = match submission.winner_rank {
        1 => 30,
        2 => 15,
        3 => 5,
        _ => {
            return Err(ErrorCode::InvalidWinnerRank);
        },
    };
    let winner_reward: u64 = available_pool * reward_percentage / 100;
    submission.reward_claimed = true;
    match submission.winner_rank {
        1 => {
            dare.first_place_claimed = true;
        },
        2 => {
            dare.second_place_claimed = true;
        },
        3 => {
            dare.third_place_claimed = true;
        },
        _ => {},
    }
    Ok(winner_reward)
}

/// The one identity entitled to the break-glass recovery drain.
pub open spec fn spec_recovery_key() -> AccountId {
    AccountId {
        w0: 0x7a2d2da5ce97a5fe,
        w1: 0x65253a552004907b,
        w2: 0x32ef10e50a7084f0,
        w3: 0x607683d1ecf97bf8,
    }
}

/// The fixed recovery identity as a value.
pub fn recovery_key() -> (r: AccountId)
    ensures
        r == spec_recovery_key(),
{
    AccountId {
        w0: 0x7a2d2da5ce97a5fe,
        w1: 0x65253a552004907b,
        w2: 0x32ef10e50a7084f0,
        w3: 0x607683d1ecf97bf8,
    }
}

/// The break-glass override: the fixed recovery identity drains the entire
/// current escrow balance, bypassing all per-claim accounting, and the
/// proposition is latched expired to block further normal claims. The pool
/// counters are deliberately left as they were: this path is unaccounted.
pub fn emergency_withdraw(dare: &mut Dare, caller: AccountId, pool_balance: u64) -> (r: Result<
    u64,
    ErrorCode,
>)
    ensures
        // rejections, in the order they are checked, leave the record unchanged
        caller != spec_recovery_key() ==> r == Err::<u64, ErrorCode>(
            ErrorCode::UnauthorizedEmergencyWithdrawal,
        ),
        caller == spec_recovery_key() && pool_balance == 0 ==> r == Err::<u64, ErrorCode>(
            ErrorCode::EmptyPool,
        ),
        r is Err ==> *final(dare) == *old(dare),
        // the expiry latch is set by a successful drain and never cleared
        final(dare).is_expired == (old(dare).is_expired || r is Ok),
        old(dare).wf() ==> final(dare).wf(),
        // the drain takes the whole balance and blocks further claims
        caller == spec_recovery_key() && pool_balance > 0 ==> {
            &&& r == Ok::<u64, ErrorCode>(pool_balance)
            &&& *final(dare) == (Dare { is_expired: true, ..*old(dare) })
        },
{
    let developer_key = recovery_key();
    if caller != developer_key {
        return Err(ErrorCode::UnauthorizedEmergencyWithdrawal);
    }
    if pool_balance == 0 {
        return Err(ErrorCode::EmptyPool);
    }
    dare.is_expired = true;
    Ok(pool_balance)
}

} // verus!
