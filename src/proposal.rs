use vstd::prelude::*;
use crate::counter::{allocate_spec, SequenceCounter};
use crate::error::VoteError;
use crate::key::Key;
use crate::registry::{record_vote_spec, VoteRecord, VoterRegistry};

verus! {

/// Where a proposal stands in its lifecycle: `Active` first, `Ended` for good.
#[derive(Clone, Copy, Debug, PartialEq, Eq, Structural)]
pub enum ProposalStatus {
    Active,
    Ended,
}

/// A single-option proposal and its tally.
#[derive(Clone, Copy, Debug, PartialEq, Eq, Structural)]
pub struct Proposal {
    pub id: u64,
    pub authority: Key,
    /// Time (in seconds) from which no vote is accepted.
    pub deadline: i64,
    pub vote_count: u64,
    pub status: ProposalStatus,
}

/// What `create_proposal` does: the new proposal (or the failure) and the
/// counter afterwards.
pub open spec fn create_proposal_spec(c: SequenceCounter, authority: Key, deadline: i64, now: i64) -> (
    Result<Proposal, VoteError>,
    SequenceCounter,
) {
    if deadline <= now {
        (Err(VoteError::InvalidDeadline), c)
    } else {
        match allocate_spec(c).0 {
            Ok(id) => (
                Ok(Proposal { id, authority, deadline, vote_count: 0, status: ProposalStatus::Active }),
                allocate_spec(c).1,
            ),
            Err(e) => (Err(e), c),
        }
    }
}

/// Whether a proposal accepts votes at time `now`.
pub open spec fn is_open(p: Proposal, now: i64) -> bool {
    p.status == ProposalStatus::Active && now < p.deadline
}

/// What `cast_vote` does: the outcome, the proposal and the vote records afterwards.
pub open spec fn cast_vote_spec(p: Proposal, votes: Set<VoteRecord>, voter: Key, now: i64) -> (
    Result<(), VoteError>,
    Proposal,
    Set<VoteRecord>,
) {
    let rec = VoteRecord { proposal_id: p.id, voter };
    if !is_open(p, now) {
        (Err(VoteError::ProposalEnded), p, votes)
    } else if votes.contains(rec) {
        (Err(VoteError::VoterAlreadyVoted), p, votes)
    } else if p.vote_count == u64::MAX {
        (Err(VoteError::ProposalVotesOverflow), p, votes)
    } else {
        (Ok(()), Proposal { vote_count: (p.vote_count + 1) as u64, ..p }, votes.insert(rec))
    }
}

/// What `declare_winner` does: the final tally (or the failure) and the
/// proposal afterwards.
pub open spec fn declare_winner_spec(p: Proposal, caller: Key, now: i64) -> (Result<u64, VoteError>, Proposal) {
    if now < p.deadline {
        (Err(VoteError::VotingStillActive), p)
    } else if p.vote_count == 0 {
        (Err(VoteError::NoVotesCast), p)
    } else if caller != p.authority {
        (Err(VoteError::UnauthorizedAccess), p)
    } else if p.status == ProposalStatus::Ended {
        (Err(VoteError::ProposalEnded), p)
    } else {
        (Ok(p.vote_count), Proposal { status: ProposalStatus::Ended, ..p })
    }
}

/// Creates a proposal owned by `authority` that accepts votes until
/// `deadline`, taking its identifier from the counter.
pub fn create_proposal(counter: &mut SequenceCounter, authority: Key, deadline: i64, now: i64) -> (r: Result<
    Proposal,
    VoteError,
>)
    ensures
        (r, *final(counter)) == create_proposal_spec(*old(counter), authority, deadline, now),
{
    if deadline <= now {
        return Err(VoteError::InvalidDeadline);
    }
    let id = match counter.allocate() {
        Ok(id) => id,
        Err(e) => return Err(e),
    };
    Ok(Proposal { id, authority, deadline, vote_count: 0, status: ProposalStatus::Active })
}

/// Records the vote of `voter` on `proposal` and counts it; every check is
/// made before anything changes.
pub fn cast_vote(proposal: &mut Proposal, registry: &mut VoterRegistry, voter: Key, now: i64) -> (r: Result<
    (),
    VoteError,
>)
    requires
        old(registry).wf(),
    ensures
        final(registry).wf(),
        (r, *final(proposal), final(registry)@) == cast_vote_spec(*old(proposal), old(registry)@, voter, now),
{
    if proposal.status != ProposalStatus::Active || now >= proposal.deadline {
        return Err(VoteError::ProposalEnded);
    }
    if registry.has_voted(proposal.id, voter) {
        return Err(VoteError::VoterAlreadyVoted);
    }
    if proposal.vote_count == u64::MAX {
        return Err(VoteError::ProposalVotesOverflow);
    }
    let recorded = registry.record_vote(proposal.id, voter);
    assert(recorded is Ok);
    proposal.vote_count = proposal.vote_count + 1;
    Ok(())
}

/// Closes a proposal whose deadline has passed and that has votes, at the
/// request of its authority, and returns its final tally.
pub fn declare_winner(proposal: &mut Proposal, caller: Key, now: i64) -> (r: Result<u64, VoteError>)
    ensures
        (r, *final(proposal)) == declare_winner_spec(*old(proposal), caller, now),
{
    if now < proposal.deadline {
        return Err(VoteError::VotingStillActive);
    }
    if proposal.vote_count == 0 {
        return Err(VoteError::NoVotesCast);
    }
    if !caller.same(&proposal.authority) {
        return Err(VoteError::UnauthorizedAccess);
    }
    if proposal.status == ProposalStatus::Ended {
        return Err(VoteError::ProposalEnded);
    }
    proposal.status = ProposalStatus::Ended;
    Ok(proposal.vote_count)
}

/// The number of vote records held for proposal `id`.
pub open spec fn votes_for(votes: Set<VoteRecord>, id: u64) -> nat {
    votes.filter(|r: VoteRecord| r.proposal_id == id).len()
}

/// A proposal's tally equals the number of vote records for it.
pub open spec fn tally_matches(p: Proposal, votes: Set<VoteRecord>) -> bool {
    votes.finite() && p.vote_count == votes_for(votes, p.id)
}

/// A proposal created while every vote record names an earlier identifier
/// starts with a tally equal to its (zero) vote records.
pub proof fn lemma_new_proposal_tally(c: SequenceCounter, votes: Set<VoteRecord>, authority: Key, deadline: i64, now: i64)
    requires
        votes.finite(),
        forall|r: VoteRecord| votes.contains(r) ==> r.proposal_id < c.next_id,
    ensures
        create_proposal_spec(c, authority, deadline, now).0 is Ok ==> tally_matches(
            create_proposal_spec(c, authority, deadline, now).0->Ok_0,
            votes,
        ),
{
    let id = c.next_id;
    let f = |x: VoteRecord| x.proposal_id == id;
    assert(votes.filter(f) =~= Set::<VoteRecord>::empty());
}

/// A vote at or after the deadline, or on an ended proposal, fails with
/// `ProposalEnded` and changes neither the tally nor the records.
pub proof fn lemma_vote_after_deadline(p: Proposal, votes: Set<VoteRecord>, voter: Key, now: i64)
    requires
        now >= p.deadline || p.status == ProposalStatus::Ended,
    ensures
        cast_vote_spec(p, votes, voter, now) == (Err::<(), VoteError>(VoteError::ProposalEnded), p, votes),
{
}

/// A voter who already has a record for a proposal is refused: on an open
/// proposal with `VoterAlreadyVoted`, and either way with nothing changed.
pub proof fn lemma_repeat_vote_rejected(p: Proposal, votes: Set<VoteRecord>, voter: Key, now: i64)
    requires
        votes.contains(VoteRecord { proposal_id: p.id, voter }),
    ensures
        cast_vote_spec(p, votes, voter, now).0 is Err,
        cast_vote_spec(p, votes, voter, now).1 == p,
        cast_vote_spec(p, votes, voter, now).2 == votes,
        is_open(p, now) ==> cast_vote_spec(p, votes, voter, now).0 == Err::<(), VoteError>(
            VoteError::VoterAlreadyVoted,
        ),
{
}

/// Two votes by the same voter on the same proposal raise its tally by at
/// most one: once the first is counted, the second fails with
/// `VoterAlreadyVoted` while the proposal is open, and with `ProposalEnded`
/// after.
pub proof fn lemma_vote_counted_once(p: Proposal, votes: Set<VoteRecord>, voter: Key, t1: i64, t2: i64)
    ensures
        ({
            let (r1, p1, v1) = cast_vote_spec(p, votes, voter, t1);
            let (r2, p2, v2) = cast_vote_spec(p1, v1, voter, t2);
            &&& p2.vote_count <= p.vote_count + 1
            &&& p2.id == p.id
            &&& r1 is Ok ==> r2 is Err && p2 == p1 && v2 == v1
            &&& r1 is Ok && is_open(p1, t2) ==> r2 == Err::<(), VoteError>(VoteError::VoterAlreadyVoted)
        }),
{
    let (r1, p1, v1) = cast_vote_spec(p, votes, voter, t1);
    if r1 is Ok {
        assert(v1.contains(VoteRecord { proposal_id: p1.id, voter }));
        lemma_repeat_vote_rejected(p1, v1, voter, t2);
    }
}

/// Every vote keeps a proposal's tally equal to the number of its vote
/// records, so that each voter is counted at most once.
pub proof fn lemma_cast_vote_keeps_tally(p: Proposal, votes: Set<VoteRecord>, voter: Key, now: i64)
    requires
        tally_matches(p, votes),
    ensures
        ({
            let (r, p1, v1) = cast_vote_spec(p, votes, voter, now);
            tally_matches(p1, v1)
        }),
{
    let rec = VoteRecord { proposal_id: p.id, voter };
    let (r, p1, v1) = cast_vote_spec(p, votes, voter, now);
    if r is Ok {
        let f = |x: VoteRecord| x.proposal_id == p.id;
        assert(v1.filter(f) =~= votes.filter(f).insert(rec));
        assert(!votes.filter(f).contains(rec));
    }
}

/// Declaring a winner fails with `VotingStillActive` before the deadline, and
/// with `NoVotesCast` at or after it when nobody voted; with votes, after the
/// deadline, the authority closes an active proposal and gets its tally. A
/// second declaration is refused with `ProposalEnded` and changes nothing.
pub proof fn lemma_declare_winner(p: Proposal, caller: Key, now: i64, later: i64)
    ensures
        now < p.deadline ==> declare_winner_spec(p, caller, now) == (
            Err::<u64, VoteError>(VoteError::VotingStillActive),
            p,
        ),
        now >= p.deadline && p.vote_count == 0 ==> declare_winner_spec(p, caller, now) == (
            Err::<u64, VoteError>(VoteError::NoVotesCast),
            p,
        ),
        now >= p.deadline && p.vote_count > 0 && caller == p.authority && p.status
            == ProposalStatus::Active ==> ({
            let (r1, p1) = declare_winner_spec(p, caller, now);
            let (r2, p2) = declare_winner_spec(p1, caller, later);
            &&& r1 == Ok::<u64, VoteError>(p.vote_count)
            &&& p1 == (Proposal { status: ProposalStatus::Ended, ..p })
            &&& r2 is Err
            &&& p2 == p1
            &&& later >= p.deadline ==> r2 == Err::<u64, VoteError>(VoteError::ProposalEnded)
        }),
        declare_winner_spec(p, caller, now).1.status == ProposalStatus::Active ==> p.status
            == ProposalStatus::Active,
{
}

} // verus!
