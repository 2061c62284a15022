use vstd::prelude::*;
use crate::error::VoteError;

verus! {

/// The singleton that hands out proposal identifiers.
#[derive(Clone, Copy, Debug, PartialEq, Eq, Structural)]
pub struct SequenceCounter {
    pub next_id: u64,
}

/// What `allocate` does to a counter: the identifier handed out (or the
/// failure) and the counter afterwards.
pub open spec fn allocate_spec(c: SequenceCounter) -> (Result<u64, VoteError>, SequenceCounter) {
    if c.next_id == u64::MAX {
        (Err(VoteError::CounterOverflow), c)
    } else {
        (Ok(c.next_id), SequenceCounter { next_id: (c.next_id + 1) as u64 })
    }
}

/// The outcomes of `n` calls of `allocate` in a row, and the counter after them.
pub open spec fn allocate_run(c: SequenceCounter, n: nat) -> (Seq<Result<u64, VoteError>>, SequenceCounter)
    decreases n,
{
    if n == 0 {
        (Seq::empty(), c)
    } else {
        let (prev, mid) = allocate_run(c, (n - 1) as nat);
        let (r, last) = allocate_spec(mid);
        (prev.push(r), last)
    }
}

impl SequenceCounter {
    /// Creates the counter in an empty slot, starting at zero.
    pub fn initialize(slot: &mut Option<SequenceCounter>) -> (r: Result<(), VoteError>)
        ensures
            old(slot).is_some() ==> r == Err::<(), VoteError>(VoteError::AlreadyInitialized)
                && *final(slot) == *old(slot),
            old(slot).is_none() ==> r is Ok && *final(slot) == Some(SequenceCounter { next_id: 0 }),
    {
        if slot.is_some() {
            return Err(VoteError::AlreadyInitialized);
        }
        *slot = Some(SequenceCounter { next_id: 0 });
        Ok(())
    }

    /// Hands out the current identifier and advances the counter; fails,
    /// leaving it as it is, where advancing would leave the range of `u64`.
    pub fn allocate(&mut self) -> (r: Result<u64, VoteError>)
        ensures
            (r, *final(self)) == allocate_spec(*old(self)),
    {
        if self.next_id == u64::MAX {
            return Err(VoteError::CounterOverflow);
        }
        let id = self.next_id;
        self.next_id = id + 1;
        Ok(id)
    }
}

/// What the `i`-th of a run of allocations from `start` hands out.
pub open spec fn nth_allocation(start: u64, i: int) -> Result<u64, VoteError> {
    if start + i < u64::MAX {
        Ok((start + i) as u64)
    } else {
        Err(VoteError::CounterOverflow)
    }
}

/// A run of allocations hands out `start`, `start + 1`, ... for as long as the
/// counter can advance, and fails with `CounterOverflow` from then on: the
/// counter never wraps, and never goes back.
pub proof fn lemma_allocate_run(c: SequenceCounter, n: nat)
    ensures
        allocate_run(c, n).0.len() == n,
        forall|i: int| 0 <= i < n ==> #[trigger] allocate_run(c, n).0[i] == nth_allocation(c.next_id, i),
        allocate_run(c, n).1.next_id == if c.next_id + n < u64::MAX {
            c.next_id + n
        } else {
            u64::MAX as int
        },
    decreases n,
{
    if n > 0 {
        lemma_allocate_run(c, (n - 1) as nat);
        let (prev, mid) = allocate_run(c, (n - 1) as nat);
        assert forall|i: int| 0 <= i < n implies #[trigger] allocate_run(c, n).0[i] == nth_allocation(c.next_id, i) by {
            if i < n - 1 {
                assert(allocate_run(c, n).0[i] == prev[i]);
            }
        }
    }
}

/// Identifiers handed out by a run of allocations that stays within range are
/// strictly increasing, hence pairwise distinct.
pub proof fn lemma_allocate_ids_increase(c: SequenceCounter, n: nat)
    requires
        c.next_id + n <= u64::MAX,
    ensures
        forall|i: int| 0 <= i < n ==> (#[trigger] allocate_run(c, n).0[i]) is Ok,
        forall|i: int, j: int|
            0 <= i < j < n ==> (#[trigger] allocate_run(c, n).0[i])->Ok_0 < (#[trigger] allocate_run(c, n).0[j])->Ok_0,
{
    lemma_allocate_run(c, n);
}

/// Starting from zero, the first `u64::MAX` allocations succeed and the next
/// one fails with `CounterOverflow`: after `2^64` calls the last has failed.
pub proof fn lemma_allocate_overflow()
    ensures
        ({
            let c = SequenceCounter { next_id: 0 };
            let n = u64::MAX as nat + 1;
            &&& allocate_run(c, n).0[u64::MAX as int] == Err::<u64, VoteError>(VoteError::CounterOverflow)
            &&& allocate_run(c, n).0[u64::MAX as int - 1] == Ok::<u64, VoteError>((u64::MAX - 1) as u64)
            &&& allocate_run(c, n).1.next_id == u64::MAX
        }),
{
    lemma_allocate_run(SequenceCounter { next_id: 0 }, u64::MAX as nat + 1);
}

} // verus!
