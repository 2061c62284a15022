use vstd::prelude::*;

verus! {

/// The failures of the voting and treasury rules, one for each violated
/// precondition.
#[derive(Clone, Copy, Debug, PartialEq, Eq, Structural)]
pub enum VoteError {
    /// A proposal's deadline is not strictly after the current time.
    InvalidDeadline,
    /// A singleton record (counter or treasury) exists already.
    AlreadyInitialized,
    /// The proposal counter cannot be advanced any further.
    CounterOverflow,
    /// The proposal no longer accepts votes.
    ProposalEnded,
    /// The proposal's tally cannot be increased any further.
    ProposalVotesOverflow,
    /// A winner is asked for before the deadline.
    VotingStillActive,
    /// A winner is asked for on a proposal without votes.
    NoVotesCast,
    /// The caller is not the authority of the record.
    UnauthorizedAccess,
    /// A token account holds another token type than the treasury sells.
    TokenMintMismatch,
    /// The voter has already voted on this proposal.
    VoterAlreadyVoted,
    /// A token account is not owned by the expected wallet.
    InvalidTokenAccountOwner,
    /// The token type given is not the treasury's.
    InvalidMint,
}

} // verus!
