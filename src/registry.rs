use vstd::prelude::*;
use crate::error::VoteError;
use crate::key::Key;

verus! {

/// The marker that `voter` has voted on proposal `proposal_id`.
#[derive(Clone, Copy, Debug, PartialEq, Eq, Structural)]
pub struct VoteRecord {
    pub proposal_id: u64,
    pub voter: Key,
}

/// The set of vote records, at most one for each proposal and voter.
pub struct VoterRegistry {
    records: Vec<VoteRecord>,
}

impl View for VoterRegistry {
    type V = Set<VoteRecord>;

    closed spec fn view(&self) -> Set<VoteRecord> {
        self.records@.to_set()
    }
}

/// What `record_vote` does to a registry: the outcome and the records afterwards.
pub open spec fn record_vote_spec(votes: Set<VoteRecord>, rec: VoteRecord) -> (Result<(), VoteError>, Set<VoteRecord>) {
    if votes.contains(rec) {
        (Err(VoteError::VoterAlreadyVoted), votes)
    } else {
        (Ok(()), votes.insert(rec))
    }
}

impl VoterRegistry {
    /// No record is held twice.
    pub closed spec fn wf(&self) -> bool {
        self.records@.no_duplicates()
    }

    pub fn new() -> (r: VoterRegistry)
        ensures
            r.wf(),
            r@ == Set::<VoteRecord>::empty(),
    {
        let r = VoterRegistry { records: Vec::new() };
        assert(r@ =~= Set::<VoteRecord>::empty());
        r
    }

    pub fn len(&self) -> (r: usize)
        requires
            self.wf(),
        ensures
            r == self@.len(),
    {
        proof {
            self.records@.unique_seq_to_set();
        }
        self.records.len()
    }

    /// Whether `voter` has a record for proposal `proposal_id`.
    pub fn has_voted(&self, proposal_id: u64, voter: Key) -> (r: bool)
        ensures
            r == self@.contains(VoteRecord { proposal_id, voter }),
    {
        let rec = VoteRecord { proposal_id, voter };
        let mut i: usize = 0;
        let mut found = false;
        while i < self.records.len() && !found
            invariant
                i <= self.records@.len(),
                found ==> self.records@.contains(rec),
                !found ==> forall|j: int| 0 <= j < i ==> self.records@[j] != rec,
            decreases self.records@.len() - i,
        {
            if self.records[i] == rec {
                assert(self.records@[i as int] == rec);
                found = true;
            }
            i = i + 1;
        }
        proof {
            assert(found == self.records@.contains(rec));
        }
        found
    }

    /// Adds the record of `voter` for proposal `proposal_id`, checking for an
    /// existing one and inserting in one step.
    pub fn record_vote(&mut self, proposal_id: u64, voter: Key) -> (r: Result<(), VoteError>)
        requires
            old(self).wf(),
        ensures
            final(self).wf(),
            (r, final(self)@) == record_vote_spec(old(self)@, VoteRecord { proposal_id, voter }),
    {
        if self.has_voted(proposal_id, voter) {
            return Err(VoteError::VoterAlreadyVoted);
        }
        let rec = VoteRecord { proposal_id, voter };
        self.records.push(rec);
        proof {
            assert(self.records@ == old(self).records@.push(rec));
            assert(self@ =~= old(self)@.insert(rec)) by {
                assert forall|x: VoteRecord| self@.contains(x) <==> old(self)@.contains(x) || x == rec by {
                    if self@.contains(x) {
                        let k = choose|k: int| 0 <= k < self.records@.len() && self.records@[k] == x;
                        if k < old(self).records@.len() {
                            assert(old(self).records@[k] == x);
                        }
                    }
                    if old(self)@.contains(x) {
                        let k = choose|k: int| 0 <= k < old(self).records@.len() && old(self).records@[k] == x;
                        assert(self.records@[k] == x);
                    }
                    if x == rec {
                        assert(self.records@[old(self).records@.len() as int] == x);
                    }
                }
            }
        }
        Ok(())
    }
}

} // verus!
