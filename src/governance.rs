use vstd::prelude::*;

use crate::error::ErrorCode;
use crate::state::{
    byte_len,
    str_byte_len,
    Address,
    VoteProposal,
    VoteReceipt,
    MAX_VOTE_TITLE_LEN,
    MAX_VOTE_URI_LEN,
};

verus! {

/// The records of a proposal's creation: the co-signing authority, the record
/// to fill (freshly allocated by the ledger), and the signer that seeds its
/// address.
#[derive(Clone, Debug, PartialEq, Eq)]
pub struct CreateVoteProposal {
    pub authority: Address,
    pub vote_proposal: VoteProposal,
    pub proposal_seed: Address,
}

/// The records of a vote: the voter, the proposal and its address, and the
/// receipt to fill (freshly allocated by the ledger, once per voter and
/// proposal).
#[derive(Clone, Debug, PartialEq, Eq)]
pub struct CastVote {
    pub voter: Address,
    pub vote_proposal: VoteProposal,
    pub vote_proposal_key: Address,
    pub vote_receipt: VoteReceipt,
}

/// The records of a finalization: the authority (the ledger has checked that
/// it signed and that it is the proposal's authority) and the proposal.
#[derive(Clone, Debug, PartialEq, Eq)]
pub struct FinalizeVote {
    pub authority: Address,
    pub vote_proposal: VoteProposal,
}

/// `a + b`, held at `u64::MAX` instead of wrapping.
pub open spec fn sat_add(a: u64, b: u64) -> u64 {
    if a + b > u64::MAX {
        u64::MAX
    } else {
        (a + b) as u64
    }
}

/// Adds a stake weight to a tally, holding at `u64::MAX` instead of wrapping.
pub fn add_weight(tally: u64, weight: u64) -> (r: u64)
    ensures
        r == sat_add(tally, weight),
        r >= tally,
{
    tally.saturating_add(weight)
}

/// The error a proposal with this title, URI and deadline is refused with at
/// time `now`, if any.
pub open spec fn create_vote_proposal_error(
    title: Seq<char>,
    description_uri: Seq<char>,
    voting_end_ts: i64,
    now: i64,
) -> Option<ErrorCode> {
    if byte_len(title) > MAX_VOTE_TITLE_LEN {
        Some(ErrorCode::TitleTooLong)
    } else if byte_len(description_uri) > MAX_VOTE_URI_LEN {
        Some(ErrorCode::UriTooLong)
    } else if voting_end_ts <= now {
        Some(ErrorCode::InvalidVotingWindow)
    } else {
        None
    }
}

/// The outcome of a proposal's creation at time `now`: `post` and `r` are the
/// accounts and the result afterwards.
pub open spec fn create_vote_proposal_post(
    pre: CreateVoteProposal,
    post: CreateVoteProposal,
    title: String,
    description_uri: String,
    voting_end_ts: i64,
    now: i64,
    r: Result<(), ErrorCode>,
) -> bool {
    match create_vote_proposal_error(title@, description_uri@, voting_end_ts, now) {
        Some(e) => r == Err::<(), ErrorCode>(e) && post == pre,
        None => r == Ok::<(), ErrorCode>(()) && post == (CreateVoteProposal {
            authority: pre.authority,
            vote_proposal: VoteProposal {
                authority: pre.authority,
                title,
                description_uri,
                yes_votes: 0,
                no_votes: 0,
                voting_end_ts,
                executed: false,
            },
            proposal_seed: pre.proposal_seed,
        }),
    }
}

/// The error a vote of this weight on `p` is refused with at time `now`, if any.
pub open spec fn cast_vote_error(p: VoteProposal, stake_weight: u64, now: i64) -> Option<ErrorCode> {
    if stake_weight == 0 {
        Some(ErrorCode::InvalidStakeWeight)
    } else if now > p.voting_end_ts {
        Some(ErrorCode::VotingClosed)
    } else if p.executed {
        Some(ErrorCode::VoteAlreadyFinalized)
    } else {
        None
    }
}

/// `p` with a vote of weight `w` added to the chosen side's tally.
pub open spec fn tallied(p: VoteProposal, vote_yes: bool, w: u64) -> VoteProposal {
    if vote_yes {
        VoteProposal { yes_votes: sat_add(p.yes_votes, w), ..p }
    } else {
        VoteProposal { no_votes: sat_add(p.no_votes, w), ..p }
    }
}

/// The outcome of a vote at time `now`: `post` and `r` are the accounts and
/// the result afterwards.
pub open spec fn cast_vote_post(
    pre: CastVote,
    post: CastVote,
    vote_yes: bool,
    stake_weight: u64,
    now: i64,
    r: Result<(), ErrorCode>,
) -> bool {
    match cast_vote_error(pre.vote_proposal, stake_weight, now) {
        Some(e) => r == Err::<(), ErrorCode>(e) && post == pre,
        None => r == Ok::<(), ErrorCode>(()) && post == (CastVote {
            voter: pre.voter,
            vote_proposal: tallied(pre.vote_proposal, vote_yes, stake_weight),
            vote_proposal_key: pre.vote_proposal_key,
            vote_receipt: VoteReceipt {
                proposal: pre.vote_proposal_key,
                voter: pre.voter,
                vote_yes,
                stake_weight,
                created_at: now,
            },
        }),
    }
}

/// The error a finalization of `p` is refused with at time `now`, if any.
pub open spec fn finalize_vote_error(p: VoteProposal, now: i64) -> Option<ErrorCode> {
    if now <= p.voting_end_ts {
        Some(ErrorCode::VotingStillOpen)
    } else if p.executed {
        Some(ErrorCode::VoteAlreadyFinalized)
    } else {
        None
    }
}

/// The outcome of a finalization at time `now`: `post` and `r` are the
/// accounts and the result afterwards.
pub open spec fn finalize_vote_post(
    pre: FinalizeVote,
    post: FinalizeVote,
    now: i64,
    r: Result<(), ErrorCode>,
) -> bool {
    match finalize_vote_error(pre.vote_proposal, now) {
        Some(e) => r == Err::<(), ErrorCode>(e) && post == pre,
        None => r == Ok::<(), ErrorCode>(()) && post == (FinalizeVote {
            authority: pre.authority,
            vote_proposal: VoteProposal { executed: true, ..pre.vote_proposal },
        }),
    }
}

/// Fills the freshly allocated proposal record at time `now`, after checking
/// the byte lengths of the title and the URI and that the deadline lies ahead.
pub fn handle_create_vote_proposal(
    ctx: &mut CreateVoteProposal,
    title: String,
    description_uri: String,
    voting_end_ts: i64,
    now: i64,
) -> (r: Result<(), ErrorCode>)
    ensures
        create_vote_proposal_post(
            *old(ctx),
            *final(ctx),
            title,
            description_uri,
            voting_end_ts,
            now,
            r,
        ),
        r is Ok <==> byte_len(title@) <= MAX_VOTE_TITLE_LEN && byte_len(description_uri@)
            <= MAX_VOTE_URI_LEN && voting_end_ts > now,
{
    if str_byte_len(&title) > MAX_VOTE_TITLE_LEN {
        return Err(ErrorCode::TitleTooLong);
    }
    if str_byte_len(&description_uri) > MAX_VOTE_URI_LEN {
        return Err(ErrorCode::UriTooLong);
    }
    if voting_end_ts <= now {
        return Err(ErrorCode::InvalidVotingWindow);
    }
    ctx.vote_proposal.authority = ctx.authority;
    ctx.vote_proposal.title = title;
    ctx.vote_proposal.description_uri = description_uri;
    ctx.vote_proposal.yes_votes = 0;
    ctx.vote_proposal.no_votes = 0;
    ctx.vote_proposal.voting_end_ts = voting_end_ts;
    ctx.vote_proposal.executed = false;
    Ok(())
}

/// Adds a vote of weight `stake_weight` to the proposal's tally at time `now`
/// and fills the voter's receipt.
pub fn handle_cast_vote(ctx: &mut CastVote, vote_yes: bool, stake_weight: u64, now: i64) -> (r:
    Result<(), ErrorCode>)
    ensures
        cast_vote_post(*old(ctx), *final(ctx), vote_yes, stake_weight, now, r),
{
    if stake_weight == 0 {
        return Err(ErrorCode::InvalidStakeWeight);
    }
    if now > ctx.vote_proposal.voting_end_ts {
        return Err(ErrorCode::VotingClosed);
    }
    if ctx.vote_proposal.executed {
        return Err(ErrorCode::VoteAlreadyFinalized);
    }
    if vote_yes {
        ctx.vote_proposal.yes_votes = add_weight(ctx.vote_proposal.yes_votes, stake_weight);
    } else {
        ctx.vote_proposal.no_votes = add_weight(ctx.vote_proposal.no_votes, stake_weight);
    }
    ctx.vote_receipt.proposal = ctx.vote_proposal_key;
    ctx.vote_receipt.voter = ctx.voter;
    ctx.vote_receipt.vote_yes = vote_yes;
    ctx.vote_receipt.stake_weight = stake_weight;
    ctx.vote_receipt.created_at = now;
    Ok(())
}

/// Closes the proposal at time `now`, once its deadline has passed.
pub fn handle_finalize_vote(ctx: &mut FinalizeVote, now: i64) -> (r: Result<(), ErrorCode>)
    ensures
        finalize_vote_post(*old(ctx), *final(ctx), now, r),
{
    if now <= ctx.vote_proposal.voting_end_ts {
        return Err(ErrorCode::VotingStillOpen);
    }
    if ctx.vote_proposal.executed {
        return Err(ErrorCode::VoteAlreadyFinalized);
    }
    ctx.vote_proposal.executed = true;
    Ok(())
}

} // verus!
