use anchor_lang::prelude::Pubkey;
use reputation_dao::tier::TIER_TABLE;
use reputation_dao::{check_role_upgrade, classify, Member, MemberRole, RoleUpgraded};

fn key(n: u8) -> Pubkey {
    Pubkey::new_from_array([n; 32])
}

fn member_with(reputation: u64, tier: MemberRole) -> Member {
    Member {
        identity: key(7),
        reputation,
        total_upvotes: 3,
        total_downvotes: 4,
        last_vote_time: 55,
        tier,
    }
}

#[test]
fn lowest_tier_spans_zero_to_ninety_nine() {
    assert_eq!(classify(0), MemberRole::Member);
    assert_eq!(classify(1), MemberRole::Member);
    assert_eq!(classify(99), MemberRole::Member);
}

#[test]
fn contributor_spans_one_hundred_to_four_hundred_ninety_nine() {
    assert_eq!(classify(100), MemberRole::Contributor);
    assert_eq!(classify(250), MemberRole::Contributor);
    assert_eq!(classify(499), MemberRole::Contributor);
}

#[test]
fn moderator_spans_five_hundred_to_nine_hundred_ninety_nine() {
    assert_eq!(classify(500), MemberRole::Moderator);
    assert_eq!(classify(700), MemberRole::Moderator);
    assert_eq!(classify(999), MemberRole::Moderator);
}

#[test]
fn admin_starts_at_one_thousand() {
    assert_eq!(classify(1000), MemberRole::Admin);
    assert_eq!(classify(1001), MemberRole::Admin);
    assert_eq!(classify(u64::MAX), MemberRole::Admin);
}

#[test]
fn table_floors_descend_to_zero() {
    assert_eq!(TIER_TABLE.len(), 4);
    assert_eq!(TIER_TABLE[0], (1000, MemberRole::Admin));
    assert_eq!(TIER_TABLE[1], (500, MemberRole::Moderator));
    assert_eq!(TIER_TABLE[2], (100, MemberRole::Contributor));
    assert_eq!(TIER_TABLE[3], (0, MemberRole::Member));
}

#[test]
fn every_table_floor_classifies_to_its_own_tier() {
    for (floor, role) in TIER_TABLE.iter() {
        assert_eq!(classify(*floor), *role);
        if *floor > 0 {
            assert_ne!(classify(*floor - 1), *role);
        }
    }
}

#[test]
fn upgrade_reported_when_tier_is_stale() {
    let mut member = member_with(105, MemberRole::Member);
    let upgrade = check_role_upgrade(&mut member);
    assert_eq!(
        upgrade,
        Some(RoleUpgraded { identity: key(7), new_role: MemberRole::Contributor })
    );
    assert_eq!(member, member_with(105, MemberRole::Contributor));
}

#[test]
fn no_upgrade_when_tier_is_current() {
    let mut member = member_with(499, MemberRole::Contributor);
    let upgrade = check_role_upgrade(&mut member);
    assert_eq!(upgrade, None);
    assert_eq!(member, member_with(499, MemberRole::Contributor));
}

#[test]
fn downgrade_is_reported_as_a_change_of_tier() {
    let mut member = member_with(20, MemberRole::Admin);
    let upgrade = check_role_upgrade(&mut member);
    assert_eq!(upgrade, Some(RoleUpgraded { identity: key(7), new_role: MemberRole::Member }));
    assert_eq!(member.tier, MemberRole::Member);
    assert_eq!(member.reputation, 20);
}

#[test]
fn tiers_are_ordered_from_member_up_to_admin() {
    assert!(MemberRole::Member < MemberRole::Contributor);
    assert!(MemberRole::Contributor < MemberRole::Moderator);
    assert!(MemberRole::Moderator < MemberRole::Admin);
    let mut previous = classify(0);
    for reputation in [50u64, 99, 100, 300, 499, 500, 999, 1000, 5000] {
        let tier = classify(reputation);
        assert!(previous <= tier);
        previous = tier;
    }
}
