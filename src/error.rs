use vstd::prelude::*;

verus! {

/// Every way an instruction of the program can be refused.
#[derive(Clone, Copy, Debug, PartialEq, Eq, Structural)]
pub enum ErrorCode {
    TitleTooLong,
    UriTooLong,
    RemixAlreadyMinted,
    InvalidVotingWindow,
    InvalidStakeWeight,
    VotingClosed,
    VotingStillOpen,
    VoteAlreadyFinalized,
}

impl ErrorCode {
    /// The human-readable message attached to the error.
    pub fn message(&self) -> (r: &'static str)
        ensures
            r@ == self.spec_message(),
    {
        match self {
            ErrorCode::TitleTooLong => "Title exceeds maximum length",
            ErrorCode::UriTooLong => "URI exceeds maximum length",
            ErrorCode::RemixAlreadyMinted => "Remix has already been minted",
            ErrorCode::InvalidVotingWindow => "Voting end must be in the future",
            ErrorCode::InvalidStakeWeight => "Stake weight must be greater than zero",
            ErrorCode::VotingClosed => "Voting has already closed",
            ErrorCode::VotingStillOpen => "Voting is still open",
            ErrorCode::VoteAlreadyFinalized => "Vote proposal has already been finalized",
        }
    }

    pub open spec fn spec_message(&self) -> Seq<char> {
        match self {
            ErrorCode::TitleTooLong => "Title exceeds maximum length"@,
            ErrorCode::UriTooLong => "URI exceeds maximum length"@,
            ErrorCode::RemixAlreadyMinted => "Remix has already been minted"@,
            ErrorCode::InvalidVotingWindow => "Voting end must be in the future"@,
            ErrorCode::InvalidStakeWeight => "Stake weight must be greater than zero"@,
            ErrorCode::VotingClosed => "Voting has already closed"@,
            ErrorCode::VotingStillOpen => "Voting is still open"@,
            ErrorCode::VoteAlreadyFinalized => "Vote proposal has already been finalized"@,
        }
    }
}

} // verus!
