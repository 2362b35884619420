use dare_betting::errors::ErrorCode;
use dare_betting::lifecycle::{create_dare, place_bet, select_winners};
use dare_betting::settlement::{
    cash_out_early, claim_creator_fee, claim_winner_reward, claim_winnings, emergency_withdraw,
    recovery_key,
};
use dare_betting::state::{AccountId, Bet, BetType, Dare, ProofSubmission};

fn acct(n: u64) -> AccountId {
    AccountId {
        w0: 0,
        w1: n,
        w2: 0,
        w3: 0,
    }
}

fn key() -> AccountId {
    acct(900)
}

/// A proposition with min_bet 10, two WillDo bets of 100 (bettors 2 and 3)
/// and one WontDo bet of 100 (bettor 4), deadline 1000.
fn staked_dare() -> (Dare, Bet, Bet, Bet) {
    let mut dare = create_dare(
        acct(1),
        String::from("learn to juggle"),
        String::from("juggle five balls for a minute straight"),
        1000,
        10,
    );
    let b1 = place_bet(&mut dare, key(), acct(2), 100, BetType::WillDo, 5)
        .unwrap_or_else(|e| panic!("unexpected rejection: {:?}", e));
    let b2 = place_bet(&mut dare, key(), acct(3), 100, BetType::WillDo, 6)
        .unwrap_or_else(|e| panic!("unexpected rejection: {:?}", e));
    let b3 = place_bet(&mut dare, key(), acct(4), 100, BetType::WontDo, 7)
        .unwrap_or_else(|e| panic!("unexpected rejection: {:?}", e));
    (dare, b1, b2, b3)
}

fn winner_entry(submitter: AccountId, rank: u8) -> ProofSubmission {
    ProofSubmission {
        dare: key(),
        submitter,
        proof_hash: String::from("abc123"),
        proof_description: String::from("video of the attempt"),
        submission_timestamp: 500,
        is_approved: false,
        approved_by: acct(0),
        approval_timestamp: 0,
        likes_count: 0,
        is_winner: true,
        winner_rank: rank,
        reward_claimed: false,
    }
}

#[test]
fn completed_willdo_payout_example() {
    // pool 300: fee 6, available 294, winner reserve 147, bettor share 147,
    // a 100 stake against the 200 WillDo pool pays 100*147/200 = 73
    let (mut dare, mut b1, _b2, _b3) = staked_dare();
    assert_eq!(dare.total_pool, 300);
    select_winners(&mut dare, acct(1), acct(2), acct(3), acct(4), 1000).unwrap();
    let payout = claim_winnings(&mut dare, &mut b1, 1001);
    assert_eq!(payout, Ok(73));
    assert!(b1.is_claimed);
    // claims do not reduce the pool counters
    assert_eq!(dare.total_pool, 300);
    assert_eq!(dare.will_do_pool, 200);
}

#[test]
fn completed_wontdo_bettor_gets_no_payout() {
    let (mut dare, _b1, _b2, mut b3) = staked_dare();
    select_winners(&mut dare, acct(1), acct(2), acct(3), acct(4), 1000).unwrap();
    let r = claim_winnings(&mut dare, &mut b3, 1001);
    assert_eq!(r, Err(ErrorCode::NoPayout));
    assert!(!b3.is_claimed);
}

#[test]
fn expired_wontdo_payout_example() {
    // no winner selection: the first claim past the deadline latches expiry
    // and the sole WontDo staker takes the whole available pool, 294
    let (mut dare, _b1, _b2, mut b3) = staked_dare();
    let payout = claim_winnings(&mut dare, &mut b3, 1000);
    assert_eq!(payout, Ok(294));
    assert!(dare.is_expired);
    assert!(b3.is_claimed);
    // with the creator fee the expiry path pays out the pool exactly
    let fee = claim_creator_fee(&mut dare, acct(1), 1000).unwrap();
    assert_eq!(294 + fee, dare.total_pool);
}

#[test]
fn expired_willdo_bettor_gets_no_payout() {
    let (mut dare, mut b1, _b2, _b3) = staked_dare();
    let r = claim_winnings(&mut dare, &mut b1, 1000);
    assert_eq!(r, Err(ErrorCode::NoPayout));
    // the rejected transaction leaves no trace, not even the expiry latch
    assert!(!dare.is_expired);
    assert!(!b1.is_claimed);
}

#[test]
fn claim_before_deadline_not_finalized() {
    // one tick before the deadline the claim must fail as not finalized;
    // at the deadline it proceeds down the expiry branch
    let (mut dare, _b1, _b2, mut b3) = staked_dare();
    let early = claim_winnings(&mut dare, &mut b3, 999);
    assert_eq!(early, Err(ErrorCode::DareNotFinalized));
    assert!(!dare.is_expired && !b3.is_claimed);
    let at_deadline = claim_winnings(&mut dare, &mut b3, 1000);
    assert_eq!(at_deadline, Ok(294));
}

#[test]
fn second_claim_rejected_state_unchanged() {
    let (mut dare, mut b1, _b2, _b3) = staked_dare();
    select_winners(&mut dare, acct(1), acct(2), acct(3), acct(4), 1000).unwrap();
    claim_winnings(&mut dare, &mut b1, 1001).unwrap();
    let again = claim_winnings(&mut dare, &mut b1, 1002);
    assert_eq!(again, Err(ErrorCode::AlreadyClaimed));
    assert!(b1.is_claimed);
    assert_eq!(dare.total_pool, 300);
    assert_eq!(dare.will_do_pool, 200);
    assert_eq!(dare.wont_do_pool, 100);
}

#[test]
fn early_cash_out_example() {
    // a 100 stake cashed out 300 units after placement: penalty 10,
    // payout 90, and the pool drops by the full 100
    let (mut dare, mut b1, _b2, _b3) = staked_dare();
    let payout = cash_out_early(&mut dare, &mut b1, 305);
    assert_eq!(payout, Ok(90));
    assert!(b1.is_claimed);
    assert_eq!(dare.total_pool, 200);
    assert_eq!(dare.will_do_pool, 100);
    assert_eq!(dare.wont_do_pool, 100);
}

#[test]
fn cash_out_window_boundary() {
    // placed at 5: still open at 605 (the 600th unit), elapsed at 606
    let (mut dare, mut b1, _b2, mut b3) = staked_dare();
    let late = cash_out_early(&mut dare, &mut b1, 606);
    assert_eq!(late, Err(ErrorCode::CashOutTooLate));
    assert!(!b1.is_claimed);
    assert_eq!(dare.total_pool, 300);
    let at_edge = cash_out_early(&mut dare, &mut b1, 605);
    assert_eq!(at_edge, Ok(90));
    // bettor 4 placed at 7: open through 607
    let b3_at_edge = cash_out_early(&mut dare, &mut b3, 607);
    assert_eq!(b3_at_edge, Ok(90));
}

#[test]
fn second_cash_out_rejected() {
    let (mut dare, mut b1, _b2, _b3) = staked_dare();
    cash_out_early(&mut dare, &mut b1, 100).unwrap();
    let again = cash_out_early(&mut dare, &mut b1, 101);
    assert_eq!(again, Err(ErrorCode::AlreadyClaimed));
    assert_eq!(dare.total_pool, 200);
}

#[test]
fn cash_out_after_completion_rejected() {
    let (mut dare, mut b1, _b2, _b3) = staked_dare();
    select_winners(&mut dare, acct(1), acct(2), acct(3), acct(4), 1000).unwrap();
    let r = cash_out_early(&mut dare, &mut b1, 100);
    assert_eq!(r, Err(ErrorCode::DareAlreadyCompleted));
}

#[test]
fn cash_out_past_deadline_rejected() {
    let (mut dare, mut b1, _b2, _b3) = staked_dare();
    let r = cash_out_early(&mut dare, &mut b1, 1000);
    assert_eq!(r, Err(ErrorCode::DareExpired));
}

#[test]
fn creator_fee_paid_once() {
    let (mut dare, _b1, _b2, _b3) = staked_dare();
    let fee = claim_creator_fee(&mut dare, acct(1), 1000);
    assert_eq!(fee, Ok(6));
    assert!(dare.creator_fee_claimed);
    let again = claim_creator_fee(&mut dare, acct(1), 1001);
    assert_eq!(again, Err(ErrorCode::CreatorFeeAlreadyClaimed));
}

#[test]
fn creator_fee_unauthorized_rejected() {
    let (mut dare, _b1, _b2, _b3) = staked_dare();
    let r = claim_creator_fee(&mut dare, acct(2), 1000);
    assert_eq!(r, Err(ErrorCode::Unauthorized));
    assert!(!dare.creator_fee_claimed);
}

#[test]
fn creator_fee_before_finalization_rejected() {
    let (mut dare, _b1, _b2, _b3) = staked_dare();
    let r = claim_creator_fee(&mut dare, acct(1), 999);
    assert_eq!(r, Err(ErrorCode::DareNotFinalized));
    assert!(!dare.creator_fee_claimed);
}

#[test]
fn winner_reward_percentages() {
    // available pool 294: rank 1 takes 30% = 88, rank 2 takes 15% = 44,
    // rank 3 takes 5% = 14 (all truncated)
    let (mut dare, _b1, _b2, _b3) = staked_dare();
    select_winners(&mut dare, acct(1), acct(7), acct(8), acct(9), 1000).unwrap();
    let mut first = winner_entry(acct(7), 1);
    let mut second = winner_entry(acct(8), 2);
    let mut third = winner_entry(acct(9), 3);
    assert_eq!(claim_winner_reward(&mut dare, &mut first, acct(7)), Ok(88));
    assert_eq!(claim_winner_reward(&mut dare, &mut second, acct(8)), Ok(44));
    assert_eq!(claim_winner_reward(&mut dare, &mut third, acct(9)), Ok(14));
    assert!(first.reward_claimed && second.reward_claimed && third.reward_claimed);
    assert!(dare.first_place_claimed && dare.second_place_claimed && dare.third_place_claimed);
}

#[test]
fn winner_reward_second_claim_rejected() {
    let (mut dare, _b1, _b2, _b3) = staked_dare();
    select_winners(&mut dare, acct(1), acct(7), acct(8), acct(9), 1000).unwrap();
    let mut first = winner_entry(acct(7), 1);
    claim_winner_reward(&mut dare, &mut first, acct(7)).unwrap();
    let again = claim_winner_reward(&mut dare, &mut first, acct(7));
    assert_eq!(again, Err(ErrorCode::AlreadyClaimed));
    assert!(first.reward_claimed);
}

#[test]
fn winner_reward_requires_completion_and_selection() {
    let (mut dare, _b1, _b2, _b3) = staked_dare();
    let mut first = winner_entry(acct(7), 1);
    let r = claim_winner_reward(&mut dare, &mut first, acct(7));
    assert_eq!(r, Err(ErrorCode::DareNotCompleted));
    // completed without the selection latch is still not claimable
    dare.is_completed = true;
    let r2 = claim_winner_reward(&mut dare, &mut first, acct(7));
    assert_eq!(r2, Err(ErrorCode::DareNotFinalized));
}

#[test]
fn winner_reward_non_winner_rejected() {
    let (mut dare, _b1, _b2, _b3) = staked_dare();
    select_winners(&mut dare, acct(1), acct(7), acct(8), acct(9), 1000).unwrap();
    let mut entry = winner_entry(acct(7), 1);
    entry.is_winner = false;
    let r = claim_winner_reward(&mut dare, &mut entry, acct(7));
    assert_eq!(r, Err(ErrorCode::NotSubmitter));
}

#[test]
fn winner_reward_wrong_caller_rejected() {
    let (mut dare, _b1, _b2, _b3) = staked_dare();
    select_winners(&mut dare, acct(1), acct(7), acct(8), acct(9), 1000).unwrap();
    let mut entry = winner_entry(acct(7), 1);
    let r = claim_winner_reward(&mut dare, &mut entry, acct(8));
    assert_eq!(r, Err(ErrorCode::NotSubmitter));
    assert!(!entry.reward_claimed);
}

#[test]
fn winner_reward_invalid_rank_rejected() {
    let (mut dare, _b1, _b2, _b3) = staked_dare();
    select_winners(&mut dare, acct(1), acct(7), acct(8), acct(9), 1000).unwrap();
    let mut entry = winner_entry(acct(7), 4);
    let r = claim_winner_reward(&mut dare, &mut entry, acct(7));
    assert_eq!(r, Err(ErrorCode::InvalidWinnerRank));
    assert!(!entry.reward_claimed);
}

#[test]
fn full_settlement_stays_within_pool() {
    // every payout of the completed path together: 6 + 88 + 44 + 14 + 73 + 73
    // leaves 2 units of truncation dust in escrow, never an overdraft
    let (mut dare, mut b1, mut b2, _b3) = staked_dare();
    select_winners(&mut dare, acct(1), acct(7), acct(8), acct(9), 1000).unwrap();
    let mut paid: u64 = 0;
    paid += claim_creator_fee(&mut dare, acct(1), 1001).unwrap();
    let mut first = winner_entry(acct(7), 1);
    let mut second = winner_entry(acct(8), 2);
    let mut third = winner_entry(acct(9), 3);
    paid += claim_winner_reward(&mut dare, &mut first, acct(7)).unwrap();
    paid += claim_winner_reward(&mut dare, &mut second, acct(8)).unwrap();
    paid += claim_winner_reward(&mut dare, &mut third, acct(9)).unwrap();
    paid += claim_winnings(&mut dare, &mut b1, 1001).unwrap();
    paid += claim_winnings(&mut dare, &mut b2, 1001).unwrap();
    assert_eq!(paid, 298);
    assert!(paid <= dare.total_pool);
}

#[test]
fn empty_pool_fee_and_reward_are_zero_successes() {
    // with nothing staked the fee and a ranked reward are owed as zero and
    // still succeed; only bettor payouts treat zero as a rejection
    let mut dare = create_dare(
        acct(1),
        String::from("learn to juggle"),
        String::from("juggle five balls for a minute straight"),
        1000,
        10,
    );
    select_winners(&mut dare, acct(1), acct(7), acct(8), acct(9), 1000).unwrap();
    assert_eq!(claim_creator_fee(&mut dare, acct(1), 1001), Ok(0));
    let mut first = winner_entry(acct(7), 1);
    assert_eq!(claim_winner_reward(&mut dare, &mut first, acct(7)), Ok(0));
    assert!(first.reward_claimed);
}

#[test]
fn completed_with_empty_willdo_pool_rejects_claims() {
    // only a WontDo stake, then completion: the WillDo share has no takers
    // and the WontDo bettor is on the losing side, so the claim pays nobody
    let mut dare = create_dare(
        acct(1),
        String::from("learn to juggle"),
        String::from("juggle five balls for a minute straight"),
        1000,
        10,
    );
    let mut b = place_bet(&mut dare, key(), acct(4), 100, BetType::WontDo, 5)
        .unwrap_or_else(|e| panic!("unexpected rejection: {:?}", e));
    select_winners(&mut dare, acct(1), acct(7), acct(8), acct(9), 1000).unwrap();
    let r = claim_winnings(&mut dare, &mut b, 1001);
    assert_eq!(r, Err(ErrorCode::NoPayout));
    assert!(!b.is_claimed);
}

#[test]
fn emergency_withdraw_drains_for_recovery_key() {
    let (mut dare, _b1, _b2, _b3) = staked_dare();
    let r = emergency_withdraw(&mut dare, recovery_key(), 300);
    assert_eq!(r, Ok(300));
    assert!(dare.is_expired);
}

#[test]
fn emergency_withdraw_unauthorized_rejected() {
    let (mut dare, _b1, _b2, _b3) = staked_dare();
    let r = emergency_withdraw(&mut dare, acct(2), 300);
    assert_eq!(r, Err(ErrorCode::UnauthorizedEmergencyWithdrawal));
    assert!(!dare.is_expired);
}

#[test]
fn emergency_withdraw_empty_pool_rejected() {
    let (mut dare, _b1, _b2, _b3) = staked_dare();
    let r = emergency_withdraw(&mut dare, recovery_key(), 0);
    assert_eq!(r, Err(ErrorCode::EmptyPool));
    assert!(!dare.is_expired);
}
