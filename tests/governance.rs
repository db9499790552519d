use rhythmforge::error::ErrorCode;
use rhythmforge::governance::{
    add_weight, handle_cast_vote, handle_create_vote_proposal, handle_finalize_vote, CastVote,
    CreateVoteProposal, FinalizeVote,
};
use rhythmforge::program::{cast_vote, create_vote_proposal, finalize_vote};
use rhythmforge::state::{Address, VoteProposal, VoteReceipt, MAX_VOTE_TITLE_LEN, MAX_VOTE_URI_LEN};

fn blank_proposal() -> VoteProposal {
    VoteProposal {
        authority: Address::new([0u8; 32]),
        title: String::new(),
        description_uri: String::new(),
        yes_votes: 0,
        no_votes: 0,
        voting_end_ts: 0,
        executed: false,
    }
}

fn blank_receipt() -> VoteReceipt {
    VoteReceipt {
        proposal: Address::new([0u8; 32]),
        voter: Address::new([0u8; 32]),
        vote_yes: false,
        stake_weight: 0,
        created_at: 0,
    }
}

fn open_proposal(end: i64) -> VoteProposal {
    let mut ctx = CreateVoteProposal {
        authority: Address::new([4u8; 32]),
        vote_proposal: blank_proposal(),
        proposal_seed: Address::new([5u8; 32]),
    };
    assert_eq!(
        handle_create_vote_proposal(&mut ctx, "Fund".to_string(), "ar://d".to_string(), end, 10),
        Ok(())
    );
    ctx.vote_proposal
}

fn vote_ctx(p: VoteProposal) -> CastVote {
    CastVote {
        voter: Address::new([6u8; 32]),
        vote_proposal: p,
        vote_proposal_key: Address::new([8u8; 32]),
        vote_receipt: blank_receipt(),
    }
}

#[test]
fn create_zeroes_counters() {
    let p = open_proposal(100);
    assert_eq!(p.authority, Address::new([4u8; 32]));
    assert_eq!(p.title, "Fund");
    assert_eq!(p.description_uri, "ar://d");
    assert_eq!(p.yes_votes, 0);
    assert_eq!(p.no_votes, 0);
    assert_eq!(p.voting_end_ts, 100);
    assert!(!p.executed);
}

#[test]
fn create_deadline_not_in_future() {
    for end in [10i64, 9, i64::MIN] {
        let mut ctx = CreateVoteProposal {
            authority: Address::new([4u8; 32]),
            vote_proposal: blank_proposal(),
            proposal_seed: Address::new([5u8; 32]),
        };
        let before = ctx.clone();
        let r = create_vote_proposal(&mut ctx, "x".to_string(), "y".to_string(), end, 10);
        assert_eq!(r, Err(ErrorCode::InvalidVotingWindow));
        assert_eq!(ctx, before);
    }
}

#[test]
fn create_length_bounds() {
    let mk = || CreateVoteProposal {
        authority: Address::new([4u8; 32]),
        vote_proposal: blank_proposal(),
        proposal_seed: Address::new([5u8; 32]),
    };
    let mut ctx = mk();
    let ok = "t".repeat(MAX_VOTE_TITLE_LEN);
    let ok_uri = "u".repeat(MAX_VOTE_URI_LEN);
    assert_eq!(create_vote_proposal(&mut ctx, ok, ok_uri, 11, 10), Ok(()));
    let mut ctx = mk();
    assert_eq!(
        create_vote_proposal(&mut ctx, "t".repeat(81), "u".to_string(), 11, 10),
        Err(ErrorCode::TitleTooLong)
    );
    let mut ctx = mk();
    assert_eq!(
        create_vote_proposal(&mut ctx, "t".to_string(), "u".repeat(221), 11, 10),
        Err(ErrorCode::UriTooLong)
    );
}

#[test]
fn two_yes_votes_accumulate() {
    let mut ctx = vote_ctx(open_proposal(100));
    assert_eq!(cast_vote(&mut ctx, true, 5, 20), Ok(()));
    assert_eq!(handle_cast_vote(&mut ctx, true, 10, 100), Ok(()));
    assert_eq!(ctx.vote_proposal.yes_votes, 15);
    assert_eq!(ctx.vote_proposal.no_votes, 0);
}

#[test]
fn no_vote_goes_to_no_bucket_and_fills_receipt() {
    let mut ctx = vote_ctx(open_proposal(100));
    assert_eq!(cast_vote(&mut ctx, false, 7, 30), Ok(()));
    assert_eq!(ctx.vote_proposal.yes_votes, 0);
    assert_eq!(ctx.vote_proposal.no_votes, 7);
    let rc = ctx.vote_receipt;
    assert_eq!(rc.proposal, Address::new([8u8; 32]));
    assert_eq!(rc.voter, Address::new([6u8; 32]));
    assert!(!rc.vote_yes);
    assert_eq!(rc.stake_weight, 7);
    assert_eq!(rc.created_at, 30);
}

#[test]
fn zero_weight_rejected() {
    let mut ctx = vote_ctx(open_proposal(100));
    let before = ctx.clone();
    assert_eq!(cast_vote(&mut ctx, true, 0, 20), Err(ErrorCode::InvalidStakeWeight));
    assert_eq!(ctx, before);
}

#[test]
fn vote_after_deadline_rejected() {
    let mut ctx = vote_ctx(open_proposal(100));
    let before = ctx.clone();
    assert_eq!(cast_vote(&mut ctx, true, 3, 101), Err(ErrorCode::VotingClosed));
    assert_eq!(ctx, before);
}

#[test]
fn vote_on_finalized_rejected() {
    let mut p = open_proposal(100);
    p.executed = true;
    let mut ctx = vote_ctx(p);
    assert_eq!(cast_vote(&mut ctx, true, 3, 50), Err(ErrorCode::VoteAlreadyFinalized));
}

#[test]
fn saturating_tally() {
    let mut ctx = vote_ctx(open_proposal(100));
    assert_eq!(cast_vote(&mut ctx, true, u64::MAX - 1, 20), Ok(()));
    assert_eq!(cast_vote(&mut ctx, true, 5, 21), Ok(()));
    assert_eq!(ctx.vote_proposal.yes_votes, u64::MAX);
    assert_eq!(cast_vote(&mut ctx, true, u64::MAX, 22), Ok(()));
    assert_eq!(ctx.vote_proposal.yes_votes, u64::MAX);
    assert_eq!(add_weight(u64::MAX - 3, 2), u64::MAX - 1);
    assert_eq!(add_weight(u64::MAX - 3, 4), u64::MAX);
}

#[test]
fn finalize_lifecycle() {
    let p = open_proposal(100);
    let mut ctx = FinalizeVote { authority: Address::new([4u8; 32]), vote_proposal: p };
    let before = ctx.clone();
    assert_eq!(finalize_vote(&mut ctx, 100), Err(ErrorCode::VotingStillOpen));
    assert_eq!(ctx, before);
    assert_eq!(finalize_vote(&mut ctx, 101), Ok(()));
    assert!(ctx.vote_proposal.executed);
    let after = ctx.clone();
    assert_eq!(handle_finalize_vote(&mut ctx, 200), Err(ErrorCode::VoteAlreadyFinalized));
    assert_eq!(ctx, after);
}
