use reputation_dao::effect::{vote_effect, VoteEffect};
use reputation_dao::{ReputationError, VoteType};

#[test]
fn upvote_adds_amount_times_multiplier() {
    let effect = vote_effect(VoteType::Upvote, 10, 3, 95, 400);
    assert_eq!(effect, Ok(VoteEffect { new_reputation: 125, new_total: 430, delta: 30 }));
}

#[test]
fn downvote_subtracts_amount_times_multiplier() {
    let effect = vote_effect(VoteType::Downvote, 10, 2, 95, 400);
    assert_eq!(effect, Ok(VoteEffect { new_reputation: 75, new_total: 380, delta: -20 }));
}

#[test]
fn downvote_stops_at_zero_and_total_loses_only_what_was_there() {
    let effect = vote_effect(VoteType::Downvote, 50, 1, 30, 130);
    assert_eq!(effect, Ok(VoteEffect { new_reputation: 0, new_total: 100, delta: -30 }));
}

#[test]
fn downvote_of_exactly_the_reputation_leaves_zero() {
    let effect = vote_effect(VoteType::Downvote, 30, 1, 30, 30);
    assert_eq!(effect, Ok(VoteEffect { new_reputation: 0, new_total: 0, delta: -30 }));
}

#[test]
fn downvote_on_zero_reputation_changes_nothing() {
    let effect = vote_effect(VoteType::Downvote, 5, 5, 0, 17);
    assert_eq!(effect, Ok(VoteEffect { new_reputation: 0, new_total: 17, delta: 0 }));
}

#[test]
fn zero_amount_has_no_effect() {
    assert_eq!(
        vote_effect(VoteType::Upvote, 0, 9, 12, 40),
        Ok(VoteEffect { new_reputation: 12, new_total: 40, delta: 0 })
    );
    assert_eq!(
        vote_effect(VoteType::Downvote, 0, 9, 12, 40),
        Ok(VoteEffect { new_reputation: 12, new_total: 40, delta: 0 })
    );
}

#[test]
fn zero_multiplier_has_no_effect() {
    assert_eq!(
        vote_effect(VoteType::Upvote, 77, 0, 12, 40),
        Ok(VoteEffect { new_reputation: 12, new_total: 40, delta: 0 })
    );
}

#[test]
fn magnitude_beyond_u64_is_overflow_for_both_kinds() {
    assert_eq!(vote_effect(VoteType::Upvote, u64::MAX, 2, 0, 0), Err(ReputationError::Overflow));
    assert_eq!(vote_effect(VoteType::Downvote, u64::MAX, 2, 10, 10), Err(ReputationError::Overflow));
    assert_eq!(
        vote_effect(VoteType::Downvote, u64::MAX / 255 + 1, 255, 10, 10),
        Err(ReputationError::Overflow)
    );
}

#[test]
fn largest_magnitude_that_fits_is_accepted_for_a_downvote() {
    let effect = vote_effect(VoteType::Downvote, u64::MAX / 255, 255, 10, 25);
    assert_eq!(effect, Ok(VoteEffect { new_reputation: 0, new_total: 15, delta: -10 }));
}

#[test]
fn upvote_past_the_largest_reputation_is_overflow() {
    assert_eq!(vote_effect(VoteType::Upvote, 2, 1, u64::MAX - 1, 0), Err(ReputationError::Overflow));
    assert_eq!(
        vote_effect(VoteType::Upvote, 1, 1, u64::MAX - 1, 0),
        Ok(VoteEffect { new_reputation: u64::MAX, new_total: 1, delta: 1 })
    );
}

#[test]
fn upvote_past_the_largest_total_is_overflow() {
    assert_eq!(vote_effect(VoteType::Upvote, 2, 1, 0, u64::MAX - 1), Err(ReputationError::Overflow));
}

#[test]
fn upvote_whose_change_does_not_fit_the_signed_field_is_overflow() {
    let most = i64::MAX as u64;
    assert_eq!(
        vote_effect(VoteType::Upvote, most, 1, 0, 0),
        Ok(VoteEffect { new_reputation: most, new_total: most, delta: i64::MAX })
    );
    assert_eq!(vote_effect(VoteType::Upvote, most + 1, 1, 0, 0), Err(ReputationError::Overflow));
}

#[test]
fn downvote_change_reaches_the_least_signed_value_and_no_further() {
    let half = 1u64 << 63;
    assert_eq!(
        vote_effect(VoteType::Downvote, half, 1, u64::MAX, u64::MAX),
        Ok(VoteEffect { new_reputation: half - 1, new_total: half - 1, delta: i64::MIN })
    );
    assert_eq!(
        vote_effect(VoteType::Downvote, half + 1, 1, u64::MAX, u64::MAX),
        Err(ReputationError::Overflow)
    );
    assert_eq!(
        vote_effect(VoteType::Downvote, u64::MAX, 1, half, half),
        Ok(VoteEffect { new_reputation: 0, new_total: 0, delta: i64::MIN })
    );
}

#[test]
fn downvote_that_would_take_the_total_below_zero_is_overflow() {
    assert_eq!(vote_effect(VoteType::Downvote, 30, 1, 30, 29), Err(ReputationError::Overflow));
    assert_eq!(
        vote_effect(VoteType::Downvote, 50, 1, 30, 30),
        Ok(VoteEffect { new_reputation: 0, new_total: 0, delta: -30 })
    );
}
