use vstd::prelude::*;

use crate::error::ErrorCode;
use crate::governance::{
    cast_vote_post,
    create_vote_proposal_post,
    finalize_vote_post,
    handle_cast_vote,
    handle_create_vote_proposal,
    handle_finalize_vote,
    CastVote,
    CreateVoteProposal,
    FinalizeVote,
};
use crate::remix::{
    handle_mint_remix,
    handle_submit_remix,
    mint_remix_post,
    submit_remix_post,
    MintRemix,
    SubmitRemix,
};

verus! {

/// The records of the program's initialization: its root state record, which
/// holds no fields.
#[derive(Clone, Copy, Debug, PartialEq, Eq)]
pub struct Initialize {}

/// Creates the program's root state record; it holds nothing, so nothing
/// can fail once the ledger has allocated it.
pub fn initialize(ctx: &mut Initialize) -> (r: Result<(), ErrorCode>)
    ensures
        r == Ok::<(), ErrorCode>(()),
        *final(ctx) == *old(ctx),
{
    Ok(())
}

/// Entry point of the remix submission.
pub fn submit_remix(
    ctx: &mut SubmitRemix,
    parent_track_hash: [u8; 32],
    title: String,
    remix_uri: String,
    now: i64,
) -> (r: Result<(), ErrorCode>)
    ensures
        submit_remix_post(*old(ctx), *final(ctx), parent_track_hash, title, remix_uri, now, r),
{
    handle_submit_remix(ctx, parent_track_hash, title, remix_uri, now)
}

/// Entry point of the mint.
pub fn mint_remix(ctx: &mut MintRemix) -> (r: Result<(), ErrorCode>)
    ensures
        mint_remix_post(*old(ctx), *final(ctx), r),
{
    handle_mint_remix(ctx)
}

/// Entry point of a proposal's creation.
pub fn create_vote_proposal(
    ctx: &mut CreateVoteProposal,
    title: String,
    description_uri: String,
    voting_end_ts: i64,
    now: i64,
) -> (r: Result<(), ErrorCode>)
    ensures
        create_vote_proposal_post(
            *old(ctx),
            *final(ctx),
            title,
            description_uri,
            voting_end_ts,
            now,
            r,
        ),
{
    handle_create_vote_proposal(ctx, title, description_uri, voting_end_ts, now)
}

/// Entry point of a vote.
pub fn cast_vote(ctx: &mut CastVote, vote_yes: bool, stake_weight: u64, now: i64) -> (r: Result<
    (),
    ErrorCode,
>)
    ensures
        cast_vote_post(*old(ctx), *final(ctx), vote_yes, stake_weight, now, r),
{
    handle_cast_vote(ctx, vote_yes, stake_weight, now)
}

/// Entry point of a finalization.
pub fn finalize_vote(ctx: &mut FinalizeVote, now: i64) -> (r: Result<(), ErrorCode>)
    ensures
        finalize_vote_post(*old(ctx), *final(ctx), now, r),
{
    handle_finalize_vote(ctx, now)
}

} // verus!
