//! Conservation laws of the settlement arithmetic.
//!
//! The claim operations settle one entry at a time, so their contracts alone
//! do not say what a whole settlement pays out. The proofs here close that
//! gap: over every population of bets, the creator fee, the three ranked
//! rewards and all pro-rata payouts together never exceed the total pool, so
//! no settlement path can pay beyond the pool's true remaining balance.

use vstd::prelude::*;

use crate::settlement::{
    available_pool_of, bettor_share_pool_of, cash_out_payout, cash_out_penalty,
    completed_bettor_payout, creator_fee_of, expired_bettor_payout, lemma_fee_le_total,
    lemma_penalty_le_amount, lemma_reserve_le_available, winner_reserve_of, winner_reward_of,
};

verus! {

/// The total staked by a population of bets.
pub open spec fn sum_amounts(amounts: Seq<u64>) -> int
    decreases amounts.len(),
{
    if amounts.len() == 0 {
        0
    } else {
        amounts[0] + sum_amounts(amounts.drop_first())
    }
}

/// The total paid when each stake receives its truncated pro-rata share of
/// `share_pool` against the side total `side_pool`.
pub open spec fn sum_pro_rata(amounts: Seq<u64>, share_pool: int, side_pool: u64) -> int
    decreases amounts.len(),
{
    if amounts.len() == 0 {
        0
    } else {
        amounts[0] * share_pool / (side_pool as int) + sum_pro_rata(
            amounts.drop_first(),
            share_pool,
            side_pool,
        )
    }
}

/// What a full completed-with-winners settlement pays all WillDo bettors:
/// each term is one bettor's `completed_bettor_payout`.
pub open spec fn sum_completed_payouts(amounts: Seq<u64>, total_pool: u64, will_do_pool: u64) -> int {
    sum_pro_rata(amounts, bettor_share_pool_of(total_pool), will_do_pool)
}

/// What a full expiry settlement pays all WontDo bettors: each term is one
/// bettor's `expired_bettor_payout`.
pub open spec fn sum_expired_payouts(amounts: Seq<u64>, total_pool: u64, wont_do_pool: u64) -> int {
    sum_pro_rata(amounts, available_pool_of(total_pool), wont_do_pool)
}

/// The completed-path split is exact: the creator fee, the winner reserve
/// and the bettor share partition the total pool with nothing left over, so
/// what the truncated payouts leave unpaid stays in escrow.
pub proof fn lemma_pool_split_exact(total_pool: u64)
    ensures
        creator_fee_of(total_pool) + winner_reserve_of(total_pool) + bettor_share_pool_of(
            total_pool,
        ) == total_pool,
        available_pool_of(total_pool) == winner_reserve_of(total_pool) + bettor_share_pool_of(
            total_pool,
        ),
{
}

/// Each term of a completed settlement's total is exactly one bettor's
/// payout as `claim_winnings` computes it.
pub proof fn lemma_sum_completed_payouts_unfold(
    amounts: Seq<u64>,
    total_pool: u64,
    will_do_pool: u64,
)
    requires
        amounts.len() > 0,
    ensures
        sum_completed_payouts(amounts, total_pool, will_do_pool) == completed_bettor_payout(
            amounts[0],
            total_pool,
            will_do_pool,
        ) + sum_completed_payouts(amounts.drop_first(), total_pool, will_do_pool),
{
}

/// Each term of an expiry settlement's total is exactly one bettor's payout
/// as `claim_winnings` computes it.
pub proof fn lemma_sum_expired_payouts_unfold(
    amounts: Seq<u64>,
    total_pool: u64,
    wont_do_pool: u64,
)
    requires
        amounts.len() > 0,
    ensures
        sum_expired_payouts(amounts, total_pool, wont_do_pool) == expired_bettor_payout(
            amounts[0],
            total_pool,
            wont_do_pool,
        ) + sum_expired_payouts(amounts.drop_first(), total_pool, wont_do_pool),
{
}

/// A population's total stake is never negative.
proof fn lemma_sum_amounts_nonneg(amounts: Seq<u64>)
    ensures
        sum_amounts(amounts) >= 0,
    decreases amounts.len(),
{
    if amounts.len() > 0 {
        lemma_sum_amounts_nonneg(amounts.drop_first());
    }
}

/// Truncated division distributes sub-additively over a sum: settling parts
/// separately never pays more than settling their sum.
proof fn lemma_div_sum_le(a: int, b: int, d: int)
    requires
        0 <= a,
        0 <= b,
        0 < d,
    ensures
        a / d + b / d <= (a + b) / d,
{
    let x = a / d;
    let y = b / d;
    vstd::arithmetic::div_mod::lemma_remainder_lower(a, d);
    vstd::arithmetic::div_mod::lemma_remainder_lower(b, d);
    vstd::arithmetic::mul::lemma_mul_is_distributive_add_other_way(d, x, y);
    vstd::arithmetic::mul::lemma_mul_is_commutative(x + y, d);
    vstd::arithmetic::div_mod::lemma_div_multiples_vanish(x + y, d);
    vstd::arithmetic::div_mod::lemma_div_is_ordered((x + y) * d, a + b, d);
}

/// The truncated pro-rata payouts of a population never exceed the payout
/// its total stake would receive.
proof fn lemma_pro_rata_sum_le(amounts: Seq<u64>, share_pool: int, side_pool: u64)
    requires
        side_pool > 0,
        share_pool >= 0,
    ensures
        sum_pro_rata(amounts, share_pool, side_pool) <= sum_amounts(amounts) * share_pool / (
        side_pool as int),
    decreases amounts.len(),
{
    if amounts.len() == 0 {
        assert(0 * share_pool == 0);
    } else {
        let rest = amounts.drop_first();
        let a0 = amounts[0] as int;
        let s = sum_amounts(rest);
        lemma_pro_rata_sum_le(rest, share_pool, side_pool);
        lemma_sum_amounts_nonneg(rest);
        vstd::arithmetic::mul::lemma_mul_nonnegative(a0, share_pool);
        vstd::arithmetic::mul::lemma_mul_nonnegative(s, share_pool);
        lemma_div_sum_le(a0 * share_pool, s * share_pool, side_pool as int);
        vstd::arithmetic::mul::lemma_mul_is_distributive_add_other_way(share_pool, a0, s);
    }
}

/// Conservation under completion with winners. For any population of WillDo
/// bets whose stakes sum to the WillDo pool, the creator fee, the three
/// ranked rewards and every bettor's pro-rata payout together never exceed
/// the total pool: this settlement path cannot overdraw the escrow.
pub proof fn lemma_completed_settlement_conservation(
    amounts: Seq<u64>,
    total_pool: u64,
    will_do_pool: u64,
)
    requires
        will_do_pool > 0,
        sum_amounts(amounts) == will_do_pool,
    ensures
        creator_fee_of(total_pool) + winner_reward_of(total_pool, 1) + winner_reward_of(
            total_pool,
            2,
        ) + winner_reward_of(total_pool, 3) + sum_completed_payouts(
            amounts,
            total_pool,
            will_do_pool,
        ) <= total_pool,
{
    let a = available_pool_of(total_pool);
    let share = bettor_share_pool_of(total_pool);
    lemma_fee_le_total(total_pool);
    lemma_reserve_le_available(total_pool);
    // the three ranked rewards together fit in the 50% reserve
    lemma_div_sum_le(a * 30, a * 15, 100);
    lemma_div_sum_le(a * 45, a * 5, 100);
    // the pro-rata payouts together fit in the bettor share
    lemma_pro_rata_sum_le(amounts, share, will_do_pool);
    vstd::arithmetic::mul::lemma_mul_is_commutative(will_do_pool as int, share);
    vstd::arithmetic::div_mod::lemma_div_multiples_vanish(share, will_do_pool as int);
}

/// Conservation under expiry. For any population of WontDo bets whose stakes
/// sum to the WontDo pool, the creator fee and every bettor's pro-rata
/// payout of the whole available pool together never exceed the total pool:
/// this settlement path cannot overdraw the escrow either.
pub proof fn lemma_expired_settlement_conservation(
    amounts: Seq<u64>,
    total_pool: u64,
    wont_do_pool: u64,
)
    requires
        wont_do_pool > 0,
        sum_amounts(amounts) == wont_do_pool,
    ensures
        creator_fee_of(total_pool) + sum_expired_payouts(amounts, total_pool, wont_do_pool)
            <= total_pool,
{
    let a = available_pool_of(total_pool);
    lemma_fee_le_total(total_pool);
    lemma_pro_rata_sum_le(amounts, a, wont_do_pool);
    vstd::arithmetic::mul::lemma_mul_is_commutative(wont_do_pool as int, a);
    vstd::arithmetic::div_mod::lemma_div_multiples_vanish(a, wont_do_pool as int);
}

/// One accounting move of a proposition's open phase, as the operations
/// report it: a stake joining the pool, or a stake leaving it early.
pub enum LedgerEvent {
    /// An accepted `place_bet` moved this stake into the pool.
    Deposit { amount: u64 },
    /// A successful `cash_out_early` removed this stake from the pool.
    EarlyExit { amount: u64 },
}

/// The pool counter after a run of open-phase events, starting from an
/// empty pool: each deposit adds its full stake, each early exit removes it.
pub open spec fn pool_after(events: Seq<LedgerEvent>) -> int
    decreases events.len(),
{
    if events.len() == 0 {
        0
    } else {
        pool_after(events.drop_last()) + match events.last() {
            LedgerEvent::Deposit { amount } => amount as int,
            LedgerEvent::EarlyExit { amount } => -(amount as int),
        }
    }
}

/// Everything staked over a run of events.
pub open spec fn deposits_total(events: Seq<LedgerEvent>) -> int
    decreases events.len(),
{
    if events.len() == 0 {
        0
    } else {
        deposits_total(events.drop_last()) + match events.last() {
            LedgerEvent::Deposit { amount } => amount as int,
            LedgerEvent::EarlyExit { amount: _ } => 0,
        }
    }
}

/// Everything handed back by early exits over a run of events.
pub open spec fn exit_payouts_total(events: Seq<LedgerEvent>) -> int
    decreases events.len(),
{
    if events.len() == 0 {
        0
    } else {
        exit_payouts_total(events.drop_last()) + match events.last() {
            LedgerEvent::Deposit { amount: _ } => 0,
            LedgerEvent::EarlyExit { amount } => cash_out_payout(amount),
        }
    }
}

/// Every penalty retained by early exits over a run of events.
pub open spec fn penalties_total(events: Seq<LedgerEvent>) -> int
    decreases events.len(),
{
    if events.len() == 0 {
        0
    } else {
        penalties_total(events.drop_last()) + match events.last() {
            LedgerEvent::Deposit { amount: _ } => 0,
            LedgerEvent::EarlyExit { amount } => cash_out_penalty(amount),
        }
    }
}

/// Conservation over the open phase. At any point in any run of deposits
/// and early exits, the pool counter, the amounts handed back, and the
/// penalties retained in escrow together account for every unit deposited:
/// nothing is created and nothing is lost before settlement begins.
pub proof fn lemma_open_phase_conservation(events: Seq<LedgerEvent>)
    ensures
        pool_after(events) + exit_payouts_total(events) + penalties_total(events)
            == deposits_total(events),
    decreases events.len(),
{
    if events.len() > 0 {
        lemma_open_phase_conservation(events.drop_last());
        match events.last() {
            LedgerEvent::Deposit { amount: _ } => {},
            LedgerEvent::EarlyExit { amount } => {
                lemma_penalty_le_amount(amount);
            },
        }
    }
}

/// Conservation under early cash-out. The payout returned to the bettor and
/// the penalty retained in escrow reassemble the stake exactly, so removing
/// the full stake from the pool counters accounts for every unit: the
/// penalty stays behind as escrow surplus, paid out to no one.
pub proof fn lemma_cash_out_conservation(amount: u64)
    ensures
        cash_out_payout(amount) + cash_out_penalty(amount) == amount,
        0 <= cash_out_penalty(amount) <= amount,
{
    lemma_penalty_le_amount(amount);
}

} // verus!
