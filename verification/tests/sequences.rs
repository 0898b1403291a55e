use anchor_lang::prelude::Pubkey;
use reputation_dao::{
    award_bonus, classify, initialize_scoreboard, register_member, reset_reputation,
    update_scoreboard_params, vote_member, AwardBonus, InitializeScoreboard, Member,
    RegisterMember, ReputationError, ResetReputation, Scoreboard, UpdateScoreboardParams,
    VoteMember, VoteType,
};

fn key(n: u8) -> Pubkey {
    Pubkey::new_from_array([n; 32])
}

/// A host that keeps all records in memory and stores what an operation
/// hands back only when the operation succeeded.
struct Host {
    scoreboard: Option<Scoreboard>,
    members: Vec<Member>,
}

impl Host {
    fn new() -> Host {
        Host { scoreboard: None, members: Vec::new() }
    }

    fn find(&self, identity: Pubkey) -> Option<Member> {
        self.members.iter().find(|m| m.identity == identity).copied()
    }

    fn put(&mut self, member: Member) {
        match self.members.iter_mut().find(|m| m.identity == member.identity) {
            Some(place) => *place = member,
            None => self.members.push(member),
        }
    }

    fn initialize(&mut self, authority: Pubkey, min_stake: u64, cooldown: i64, multiplier: u8) -> Result<(), ReputationError> {
        let mut ctx = InitializeScoreboard { scoreboard: self.scoreboard, authority };
        initialize_scoreboard(&mut ctx, min_stake, cooldown, multiplier)?;
        self.scoreboard = ctx.scoreboard;
        Ok(())
    }

    fn register(&mut self, identity: Pubkey, initial: u64) -> Result<(), ReputationError> {
        let mut ctx =
            RegisterMember { member: self.find(identity), identity, scoreboard: self.scoreboard };
        register_member(&mut ctx, initial)?;
        self.scoreboard = ctx.scoreboard;
        self.put(ctx.member.unwrap());
        Ok(())
    }

    fn vote(&mut self, voter: Pubkey, target: Pubkey, vote_type: VoteType, amount: u64, stake: u64, now: i64) -> Result<(), ReputationError> {
        let mut ctx = VoteMember {
            voter: self.find(voter),
            target: self.find(target),
            scoreboard: self.scoreboard,
            voter_stake: stake,
            now,
        };
        vote_member(&mut ctx, vote_type, amount)?;
        self.scoreboard = ctx.scoreboard;
        self.put(ctx.voter.unwrap());
        self.put(ctx.target.unwrap());
        Ok(())
    }

    fn reset(&mut self, caller: Pubkey, member: Pubkey) -> Result<(), ReputationError> {
        let mut ctx = ResetReputation {
            member: self.find(member),
            scoreboard: self.scoreboard,
            authority: caller,
        };
        reset_reputation(&mut ctx)?;
        self.scoreboard = ctx.scoreboard;
        self.put(ctx.member.unwrap());
        Ok(())
    }

    fn update(&mut self, caller: Pubkey, min_stake: u64, cooldown: i64, multiplier: u8) -> Result<(), ReputationError> {
        let mut ctx = UpdateScoreboardParams { scoreboard: self.scoreboard, authority: caller };
        update_scoreboard_params(&mut ctx, min_stake, cooldown, multiplier)?;
        self.scoreboard = ctx.scoreboard;
        Ok(())
    }

    fn bonus(&mut self, caller: Pubkey, member: Pubkey, amount: u64) -> Result<(), ReputationError> {
        let mut ctx =
            AwardBonus { member: self.find(member), scoreboard: self.scoreboard, authority: caller };
        award_bonus(&mut ctx, amount, String::from("bonus"))?;
        self.scoreboard = ctx.scoreboard;
        self.put(ctx.member.unwrap());
        Ok(())
    }

    fn assert_consistent(&self) {
        match self.scoreboard {
            Some(scoreboard) => {
                let sum: u128 = self.members.iter().map(|m| m.reputation as u128).sum();
                assert_eq!(scoreboard.total_reputation as u128, sum);
                assert_eq!(scoreboard.total_members as usize, self.members.len());
            }
            None => assert!(self.members.is_empty()),
        }
        for member in &self.members {
            assert_eq!(member.tier, classify(member.reputation));
        }
        for (i, a) in self.members.iter().enumerate() {
            for b in &self.members[i + 1..] {
                assert_ne!(a.identity, b.identity);
            }
        }
    }
}

#[test]
fn totals_follow_a_scripted_sequence() {
    let mut host = Host::new();
    host.assert_consistent();
    assert_eq!(host.register(key(2), 5), Err(ReputationError::NotFound));
    host.assert_consistent();
    assert_eq!(host.initialize(key(1), 10, 60, 2), Ok(()));
    host.assert_consistent();
    assert_eq!(host.register(key(2), 30), Ok(()));
    host.assert_consistent();
    assert_eq!(host.register(key(3), 95), Ok(()));
    host.assert_consistent();
    assert_eq!(host.register(key(4), 700), Ok(()));
    host.assert_consistent();
    assert_eq!(host.scoreboard.unwrap().total_reputation, 825);
    assert_eq!(host.scoreboard.unwrap().total_members, 3);

    assert_eq!(host.vote(key(3), key(2), VoteType::Downvote, 25, 10, 100), Ok(()));
    host.assert_consistent();
    assert_eq!(host.find(key(2)).unwrap().reputation, 0);
    assert_eq!(host.scoreboard.unwrap().total_reputation, 795);

    assert_eq!(host.vote(key(2), key(3), VoteType::Upvote, 5, 10, 100), Ok(()));
    host.assert_consistent();
    assert_eq!(host.find(key(3)).unwrap().reputation, 105);
    assert_eq!(host.scoreboard.unwrap().total_reputation, 805);

    assert_eq!(
        host.vote(key(2), key(4), VoteType::Upvote, 5, 10, 159),
        Err(ReputationError::CooldownActive)
    );
    host.assert_consistent();
    assert_eq!(host.scoreboard.unwrap().total_reputation, 805);

    assert_eq!(host.reset(key(1), key(4)), Ok(()));
    host.assert_consistent();
    assert_eq!(host.scoreboard.unwrap().total_reputation, 105);
    assert_eq!(host.scoreboard.unwrap().total_members, 3);

    assert_eq!(host.bonus(key(1), key(2), 1000), Ok(()));
    host.assert_consistent();
    assert_eq!(host.scoreboard.unwrap().total_reputation, 1105);

    assert_eq!(host.update(key(1), 0, 0, 1), Ok(()));
    host.assert_consistent();
    assert_eq!(host.vote(key(2), key(2), VoteType::Downvote, 2000, 0, 160), Ok(()));
    host.assert_consistent();
    assert_eq!(host.find(key(2)).unwrap().reputation, 0);
    assert_eq!(host.find(key(2)).unwrap().last_vote_time, 160);
    assert_eq!(host.scoreboard.unwrap().total_reputation, 105);

    assert_eq!(host.register(key(3), 1), Err(ReputationError::AlreadyRegistered));
    host.assert_consistent();
    assert_eq!(host.initialize(key(9), 0, 0, 1), Err(ReputationError::AlreadyInitialized));
    host.assert_consistent();
    assert_eq!(host.scoreboard.unwrap().authority, key(1));
}

#[test]
fn totals_follow_a_long_mixed_sequence() {
    let mut host = Host::new();
    let mut state: u64 = 0x2545_f491_4f6c_dd1d;
    let mut next = move |bound: u64| {
        state ^= state << 13;
        state ^= state >> 7;
        state ^= state << 17;
        state % bound
    };
    let mut now: i64 = 0;
    let mut carried_out = 0;
    let mut refused = 0;
    for _ in 0..4000 {
        let who = key(1 + next(6) as u8);
        let whom = key(1 + next(6) as u8);
        now += next(40) as i64;
        let before = (host.scoreboard, host.members.clone());
        let outcome = match next(8) {
            0 => host.initialize(who, next(20), next(30) as i64, 1 + next(4) as u8),
            1 | 2 => host.register(who, next(1200)),
            3 | 4 => host.vote(who, whom, VoteType::Upvote, next(300), next(25), now),
            5 => host.vote(who, whom, VoteType::Downvote, next(900), next(25), now),
            6 => match next(3) {
                0 => host.reset(who, whom),
                1 => host.update(who, next(20), next(30) as i64, 1 + next(4) as u8),
                _ => host.bonus(who, whom, next(600)),
            },
            _ => host.bonus(key(1), whom, next(50)),
        };
        match outcome {
            Ok(()) => carried_out += 1,
            Err(_) => {
                refused += 1;
                assert_eq!((host.scoreboard, host.members.clone()), before);
            }
        }
        host.assert_consistent();
        for (old, new) in before.1.iter().zip(host.members.iter()) {
            assert_eq!(old.identity, new.identity);
            assert!(new.last_vote_time >= old.last_vote_time);
        }
        assert!(host.members.len() >= before.1.len());
    }
    assert!(carried_out > 100);
    assert!(refused > 100);
    assert!(host.members.len() >= 2);
}

#[test]
fn only_the_authority_gets_through() {
    let mut host = Host::new();
    host.initialize(key(1), 0, 0, 1).unwrap();
    host.register(key(2), 700).unwrap();
    for intruder in [key(2), key(3), key(0)] {
        let before = (host.scoreboard, host.members.clone());
        assert_eq!(host.reset(intruder, key(2)), Err(ReputationError::Unauthorized));
        assert_eq!(host.update(intruder, 1, 1, 1), Err(ReputationError::Unauthorized));
        assert_eq!(host.bonus(intruder, key(2), 5), Err(ReputationError::Unauthorized));
        assert_eq!((host.scoreboard, host.members.clone()), before);
    }
    assert_eq!(host.reset(key(1), key(2)), Ok(()));
    assert_eq!(host.find(key(2)).unwrap().reputation, 0);
}
