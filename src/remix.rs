use vstd::prelude::*;

use crate::error::ErrorCode;
use crate::state::{
    byte_len,
    str_byte_len,
    Address,
    RemixProposal,
    MAX_REMIX_TITLE_LEN,
    MAX_REMIX_URI_LEN,
};

verus! {

/// The records of a remix submission: the co-signing creator, the record to
/// fill (freshly allocated by the ledger), and the signer that seeds its address.
#[derive(Clone, Debug, PartialEq, Eq)]
pub struct SubmitRemix {
    pub creator: Address,
    pub remix_proposal: RemixProposal,
    pub remix_seed: Address,
}

/// The records of a mint: the creator (the ledger has checked that it signed
/// and that it is the record's creator) and the remix record.
#[derive(Clone, Debug, PartialEq, Eq)]
pub struct MintRemix {
    pub creator: Address,
    pub remix_proposal: RemixProposal,
}

/// The error a submission with this title and URI is refused with, if any.
pub open spec fn submit_remix_error(title: Seq<char>, remix_uri: Seq<char>) -> Option<ErrorCode> {
    if byte_len(title) > MAX_REMIX_TITLE_LEN {
        Some(ErrorCode::TitleTooLong)
    } else if byte_len(remix_uri) > MAX_REMIX_URI_LEN {
        Some(ErrorCode::UriTooLong)
    } else {
        None
    }
}

/// What a successful submission leaves in the accounts.
pub open spec fn submitted(
    pre: SubmitRemix,
    parent_track_hash: [u8; 32],
    title: String,
    remix_uri: String,
    now: i64,
) -> SubmitRemix {
    SubmitRemix {
        creator: pre.creator,
        remix_proposal: RemixProposal {
            creator: pre.creator,
            parent_track_hash,
            title,
            remix_uri,
            minted: false,
            created_at: now,
        },
        remix_seed: pre.remix_seed,
    }
}

/// The outcome of a submission at time `now`: `post` and `r` are the accounts
/// and the result afterwards.
pub open spec fn submit_remix_post(
    pre: SubmitRemix,
    post: SubmitRemix,
    parent_track_hash: [u8; 32],
    title: String,
    remix_uri: String,
    now: i64,
    r: Result<(), ErrorCode>,
) -> bool {
    match submit_remix_error(title@, remix_uri@) {
        Some(e) => r == Err::<(), ErrorCode>(e) && post == pre,
        None => r == Ok::<(), ErrorCode>(()) && post == submitted(
            pre,
            parent_track_hash,
            title,
            remix_uri,
            now,
        ),
    }
}

/// The outcome of a mint: `post` and `r` are the accounts and the result
/// afterwards.
pub open spec fn mint_remix_post(pre: MintRemix, post: MintRemix, r: Result<(), ErrorCode>) -> bool {
    if pre.remix_proposal.minted {
        r == Err::<(), ErrorCode>(ErrorCode::RemixAlreadyMinted) && post == pre
    } else {
        r == Ok::<(), ErrorCode>(()) && post == (MintRemix {
            creator: pre.creator,
            remix_proposal: RemixProposal { minted: true, ..pre.remix_proposal },
        })
    }
}

/// Fills the freshly allocated remix record at time `now`, after checking the
/// byte lengths of the title and the URI.
pub fn handle_submit_remix(
    ctx: &mut SubmitRemix,
    parent_track_hash: [u8; 32],
    title: String,
    remix_uri: String,
    now: i64,
) -> (r: Result<(), ErrorCode>)
    ensures
        submit_remix_post(*old(ctx), *final(ctx), parent_track_hash, title, remix_uri, now, r),
        r is Ok <==> byte_len(title@) <= MAX_REMIX_TITLE_LEN && byte_len(remix_uri@)
            <= MAX_REMIX_URI_LEN,
{
    if str_byte_len(&title) > MAX_REMIX_TITLE_LEN {
        return Err(ErrorCode::TitleTooLong);
    }
    if str_byte_len(&remix_uri) > MAX_REMIX_URI_LEN {
        return Err(ErrorCode::UriTooLong);
    }
    ctx.remix_proposal.creator = ctx.creator;
    ctx.remix_proposal.parent_track_hash = parent_track_hash;
    ctx.remix_proposal.title = title;
    ctx.remix_proposal.remix_uri = remix_uri;
    ctx.remix_proposal.minted = false;
    ctx.remix_proposal.created_at = now;
    Ok(())
}

/// Marks the remix as minted; a remix is minted at most once.
pub fn handle_mint_remix(ctx: &mut MintRemix) -> (r: Result<(), ErrorCode>)
    ensures
        mint_remix_post(*old(ctx), *final(ctx), r),
{
    if ctx.remix_proposal.minted {
        return Err(ErrorCode::RemixAlreadyMinted);
    }
    ctx.remix_proposal.minted = true;
    Ok(())
}

} // verus!
