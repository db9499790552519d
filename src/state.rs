use vstd::prelude::*;
use vstd::utf8::encode_utf8;

verus! {

pub const MAX_REMIX_TITLE_LEN: usize = 64;

pub const MAX_REMIX_URI_LEN: usize = 220;

pub const MAX_VOTE_TITLE_LEN: usize = 80;

pub const MAX_VOTE_URI_LEN: usize = 220;

/// The length of a string in bytes of its UTF-8 encoding, which is what the
/// bounds above count. A string held in memory never has more bytes than
/// `usize` can count, so the conversion loses nothing.
pub open spec fn byte_len(s: Seq<char>) -> usize {
    encode_utf8(s).len() as usize
}

/// Byte length of `s`.
pub fn str_byte_len(s: &String) -> (r: usize)
    ensures
        r == byte_len(s@),
{
    s.as_str().len()
}

/// A ledger identity (an account address or a signer's public key), as its
/// 32 bytes.
#[derive(Clone, Copy, Debug, PartialEq, Eq)]
pub struct Address {
    pub bytes: [u8; 32],
}

impl Address {
    pub fn new(bytes: [u8; 32]) -> (r: Address)
        ensures
            r.bytes == bytes,
    {
        Address { bytes }
    }
}

/// One submitted remix of a parent track.
#[derive(Clone, Debug, PartialEq, Eq)]
pub struct RemixProposal {
    pub creator: Address,
    pub parent_track_hash: [u8; 32],
    pub title: String,
    pub remix_uri: String,
    pub minted: bool,
    pub created_at: i64,
}

/// A governance proposal with its running stake-weighted tally.
#[derive(Clone, Debug, PartialEq, Eq)]
pub struct VoteProposal {
    pub authority: Address,
    pub title: String,
    pub description_uri: String,
    pub yes_votes: u64,
    pub no_votes: u64,
    pub voting_end_ts: i64,
    pub executed: bool,
}

/// The record of one voter's vote on one proposal.
#[derive(Clone, Copy, Debug, PartialEq, Eq)]
pub struct VoteReceipt {
    pub proposal: Address,
    pub voter: Address,
    pub vote_yes: bool,
    pub stake_weight: u64,
    pub created_at: i64,
}

} // verus!
