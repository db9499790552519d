use vstd::prelude::*;

use crate::error::ErrorCode;
use crate::governance::{cast_vote_post, finalize_vote_post, sat_add, CastVote, FinalizeVote};
use crate::remix::{mint_remix_post, MintRemix};

verus! {

/// Minting a remix that is not yet minted succeeds and sets `minted`; minting
/// it again fails with `RemixAlreadyMinted` and leaves the records unchanged.
pub proof fn lemma_mint_once(
    pre: MintRemix,
    mid: MintRemix,
    post: MintRemix,
    r1: Result<(), ErrorCode>,
    r2: Result<(), ErrorCode>,
)
    requires
        !pre.remix_proposal.minted,
        mint_remix_post(pre, mid, r1),
        mint_remix_post(mid, post, r2),
    ensures
        r1 is Ok,
        mid.remix_proposal.minted,
        r2 == Err::<(), ErrorCode>(ErrorCode::RemixAlreadyMinted),
        post == mid,
{
}

/// Finalizing an open proposal after its deadline succeeds and sets
/// `executed`; a later second finalization fails with `VoteAlreadyFinalized`
/// and leaves the records unchanged.
pub proof fn lemma_finalize_once(
    pre: FinalizeVote,
    mid: FinalizeVote,
    post: FinalizeVote,
    now1: i64,
    now2: i64,
    r1: Result<(), ErrorCode>,
    r2: Result<(), ErrorCode>,
)
    requires
        !pre.vote_proposal.executed,
        now1 > pre.vote_proposal.voting_end_ts,
        now2 >= now1,
        finalize_vote_post(pre, mid, now1, r1),
        finalize_vote_post(mid, post, now2, r2),
    ensures
        r1 is Ok,
        mid.vote_proposal.executed,
        r2 == Err::<(), ErrorCode>(ErrorCode::VoteAlreadyFinalized),
        post == mid,
{
}

/// Once a proposal is finalized, no vote is accepted on it and its tallies
/// stay as they are.
pub proof fn lemma_no_vote_after_finalize(
    pre: CastVote,
    post: CastVote,
    vote_yes: bool,
    stake_weight: u64,
    now: i64,
    r: Result<(), ErrorCode>,
)
    requires
        pre.vote_proposal.executed,
        cast_vote_post(pre, post, vote_yes, stake_weight, now, r),
    ensures
        r is Err,
        post == pre,
{
}

/// An accepted vote was cast before the deadline on an open proposal, and
/// leaves a receipt of positive weight.
pub proof fn lemma_accepted_vote(
    pre: CastVote,
    post: CastVote,
    vote_yes: bool,
    stake_weight: u64,
    now: i64,
    r: Result<(), ErrorCode>,
)
    requires
        cast_vote_post(pre, post, vote_yes, stake_weight, now, r),
        r is Ok,
    ensures
        now <= pre.vote_proposal.voting_end_ts,
        !pre.vote_proposal.executed,
        post.vote_receipt.stake_weight > 0,
        post.vote_receipt.vote_yes == vote_yes,
{
}

/// A vote never lowers either tally: saturating addition never wraps below
/// the value it started from.
pub proof fn lemma_vote_never_lowers_tally(
    pre: CastVote,
    post: CastVote,
    vote_yes: bool,
    stake_weight: u64,
    now: i64,
    r: Result<(), ErrorCode>,
)
    requires
        cast_vote_post(pre, post, vote_yes, stake_weight, now, r),
    ensures
        post.vote_proposal.yes_votes >= pre.vote_proposal.yes_votes,
        post.vote_proposal.no_votes >= pre.vote_proposal.no_votes,
{
}

/// The tally reached by adding the weights `ws` in order, with saturation,
/// from `start`.
pub open spec fn tally_of(start: u64, ws: Seq<u64>) -> u64
    decreases ws.len(),
{
    if ws.len() == 0 {
        start
    } else {
        sat_add(tally_of(start, ws.drop_last()), ws.last())
    }
}

/// Adding weights one after another, however close to `u64::MAX`, never
/// brings the tally below any earlier value of it.
pub proof fn lemma_tally_monotone(start: u64, ws: Seq<u64>, i: int, j: int)
    requires
        0 <= i <= j <= ws.len(),
    ensures
        tally_of(start, ws.take(i)) <= tally_of(start, ws.take(j)),
    decreases j - i,
{
    if i < j {
        lemma_tally_monotone(start, ws, i, j - 1);
        assert(ws.take(j).drop_last() =~= ws.take(j - 1));
    }
}

} // verus!
